use solana_pumpfun_bot::config::{Config, TradingConfig};
use solana_pumpfun_bot::error::BotError;
use solana_pumpfun_bot::monitoring::{AlertLevel, AlertThresholds, BotMetrics, MonitoringSystem};
use solana_pumpfun_bot::strategies::Action;
use solana_pumpfun_bot::trading::{Position, Trade};

fn trade(amount: u64, profit_loss: Option<i64>) -> Trade {
    Trade {
        id: "t".to_string(),
        token_address: "a".to_string(),
        action: Action::Sell,
        amount,
        price: 1,
        timestamp: 0,
        signature: None,
        profit_loss,
    }
}

fn system() -> MonitoringSystem {
    MonitoringSystem::new_at(None, AlertThresholds::default(), 100)
}

#[test]
fn empty_history_has_no_trades_and_zero_win_rate() {
    let mut m = system();
    m.update_metrics_at(&vec![], &Vec::<Position>::new(), 160);
    let x = m.get_metrics();
    assert_eq!(x.total_trades, 0);
    assert_eq!(x.win_rate, 0);
    assert_eq!(x.uptime_seconds, 60);
    assert_eq!(x.last_updated, 160);
    assert!(m.get_alerts().is_empty());
}

#[test]
fn metrics_from_history() {
    let mut m = system();
    let trades = vec![trade(10, Some(100)), trade(20, Some(-50)), trade(30, None), trade(40, Some(30))];
    m.update_metrics_at(&trades, &Vec::<Position>::new(), 100);
    let x = *m.get_metrics();
    assert_eq!(x.total_trades, 4);
    assert_eq!(x.winning_trades, 2);
    assert_eq!(x.losing_trades, 1);
    assert_eq!(x.total_profit_loss, 80);
    assert_eq!(x.win_rate, 50_000_000);
    assert_eq!(x.average_profit, 65);
    assert_eq!(x.average_loss, 50);
    assert_eq!(x.max_drawdown, 50);
    assert_eq!(x.total_volume_traded, 100);
    assert_eq!(x.current_positions, 0);
}

#[test]
fn update_twice_gives_identical_metrics() {
    let mut m = system();
    let trades = vec![trade(10, Some(100)), trade(20, Some(-70)), trade(5, Some(10))];
    m.update_metrics_at(&trades, &Vec::<Position>::new(), 500);
    let first = *m.get_metrics();
    m.update_metrics_at(&trades, &Vec::<Position>::new(), 500);
    assert_eq!(*m.get_metrics(), first);
    assert_eq!(first.max_drawdown, 70);
}

#[test]
fn drawdown_alert() {
    let mut m = system();
    m.update_metrics_at(&vec![trade(1, Some(100_000_000)), trade(1, Some(-50_000_000))], &Vec::<Position>::new(), 200);
    let a = m.get_alerts();
    assert_eq!(a.len(), 1);
    assert_eq!(a[0].level, AlertLevel::Warning);
    assert_eq!(a[0].message, "Max drawdown exceeded: 50.00% (threshold: 20.00%)");
    assert_eq!(a[0].timestamp, 200);
    assert!(!a[0].acknowledged);
}

#[test]
fn loss_alert_uses_cumulative_result() {
    let mut m = system();
    m.update_metrics_at(&vec![trade(1, Some(-20_000_000))], &Vec::<Position>::new(), 200);
    let a = m.get_alerts();
    assert_eq!(a.len(), 1);
    assert_eq!(a[0].level, AlertLevel::Error);
    assert_eq!(a[0].message, "Daily loss exceeded: 20.00% (threshold: 15.00%)");
}

#[test]
fn low_win_rate_alert_and_repeats() {
    let mut m = system();
    let trades: Vec<Trade> = (0..11).map(|_| trade(1, Some(-1))).collect();
    m.update_metrics_at(&trades, &Vec::<Position>::new(), 200);
    assert_eq!(m.get_alerts().len(), 1);
    assert_eq!(m.get_alerts()[0].message, "Low win rate: 0.00%");
    m.update_metrics_at(&trades, &Vec::<Position>::new(), 300);
    assert_eq!(m.get_alerts().len(), 2);
}

#[test]
fn acknowledging_keeps_history() {
    let mut m = system();
    m.update_metrics_at(&vec![trade(1, Some(-20_000_000))], &Vec::<Position>::new(), 200);
    m.update_metrics_at(&vec![trade(1, Some(-20_000_000))], &Vec::<Position>::new(), 201);
    let id = m.get_alerts()[0].id.clone();
    assert_eq!(m.get_unacknowledged_alerts().len(), 2);
    assert!(m.acknowledge_alert(&id));
    assert!(!m.acknowledge_alert("missing"));
    assert_eq!(m.get_alerts().len(), 2);
    assert!(m.get_alerts()[0].acknowledged);
    let open = m.get_unacknowledged_alerts();
    assert_eq!(open.len(), 1);
    assert_eq!(open[0].timestamp, 201);
}

#[test]
fn uptime_never_negative() {
    let mut m = system();
    m.update_metrics_at(&vec![], &Vec::<Position>::new(), 50);
    assert_eq!(m.get_metrics().uptime_seconds, 0);
}

#[test]
fn defaults() {
    let b = BotMetrics::default();
    assert_eq!(b.total_trades, 0);
    let c = Config::default();
    assert_eq!(c.rpc_url, "https://api.mainnet-beta.solana.com");
    assert_eq!(c.trading, TradingConfig::default());
    assert_eq!(c.trading.max_positions, 5);
    assert_eq!(c.pumpportal.max_market_cap, 10_000_000);
    assert_eq!(c.monitoring.alert_thresholds.max_daily_loss_percent, 15_000_000);
    let m = MonitoringSystem::new(Some("https://hook".to_string()), AlertThresholds::default());
    assert_eq!(m.get_webhook_url().as_deref(), Some("https://hook"));
}

#[test]
fn error_texts() {
    assert_eq!(BotError::Config("bad".to_string()).message(), "Configuration error: bad");
    assert_eq!(BotError::RateLimitExceeded.message(), "Rate limit exceeded");
    assert_eq!(BotError::InvalidTokenAddress("x".to_string()).message(), "Invalid token address: x");
}
