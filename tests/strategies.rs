use solana_pumpfun_bot::pumpportal::{PumpPortalClient, TokenInfo};
use solana_pumpfun_bot::strategies::{
    confident_enough, default_strategies, Action, ParamKey, StrategyConfig, StrategyEngine,
    StrategyParams, TradingSignal, TradingStrategy,
};

fn token(price_change: i64, volume: u64, liquidity: u64, holders: u32, market_cap: u64) -> TokenInfo {
    TokenInfo {
        address: "So11111111111111111111111111111111111111112".to_string(),
        symbol: "TKN".to_string(),
        name: "Token".to_string(),
        decimals: 6,
        market_cap,
        holders,
        age_hours: 2,
        liquidity,
        price_usd: 1_000_000,
        price_change_24h: price_change,
        volume_24h: volume,
        created_at: "2024-01-01T00:00:00Z".to_string(),
    }
}

fn only(strategy: TradingStrategy) -> StrategyEngine {
    StrategyEngine::new(vec![StrategyConfig { strategy, parameters: StrategyParams::new(), enabled: true }])
}

fn signals(engine: &mut StrategyEngine, t: &TokenInfo) -> Vec<TradingSignal> {
    engine.analyze_token(t).unwrap()
}

#[test]
fn momentum_emits_buy_with_confidence_and_reason() {
    let t = token(6_000_000, 300, 100, 10, 1_000_000);
    let s = signals(&mut only(TradingStrategy::Momentum), &t);
    assert_eq!(s.len(), 1);
    assert_eq!(s[0].action, Action::Buy);
    assert_eq!(s[0].confidence, 60_000);
    assert!(s[0].reason.contains("Price up 6.00%"));
    assert_eq!(s[0].reason, "Momentum: Price up 6.00%, Volume ratio 3.00");
    assert_eq!(s[0].expected_price, Some(1_100_000));
    assert_eq!(s[0].token.address, t.address);
}

#[test]
fn momentum_needs_volume_ratio() {
    let t = token(6_000_000, 100, 100, 10, 1_000_000);
    assert!(signals(&mut only(TradingStrategy::Momentum), &t).is_empty());
}

#[test]
fn momentum_confidence_is_capped_at_one() {
    let t = token(500_000_000, 300, 100, 10, 1_000_000);
    let s = signals(&mut only(TradingStrategy::Momentum), &t);
    assert_eq!(s[0].confidence, 1_000_000);
}

#[test]
fn momentum_negative_threshold_gives_zero_confidence() {
    let mut p = StrategyParams::new();
    p.insert(ParamKey::MinPriceChange, -50_000_000);
    let mut e = StrategyEngine::new(vec![StrategyConfig { strategy: TradingStrategy::Momentum, parameters: p, enabled: true }]);
    let t = token(-3_000_000, 300, 100, 10, 1_000_000);
    let s = signals(&mut e, &t);
    assert_eq!(s.len(), 1);
    assert_eq!(s[0].confidence, 0);
    assert_eq!(s[0].reason, "Momentum: Price up -3.00%, Volume ratio 3.00");
}

#[test]
fn parameter_overrides_default() {
    let mut p = StrategyParams::new();
    p.insert(ParamKey::MinPriceChange, 7_000_000);
    assert_eq!(p.get(ParamKey::MinPriceChange), Some(7_000_000));
    assert_eq!(p.get(ParamKey::MinVolumeRatio), None);
    let mut e = StrategyEngine::new(vec![StrategyConfig { strategy: TradingStrategy::Momentum, parameters: p, enabled: true }]);
    let t = token(6_000_000, 300, 100, 10, 1_000_000);
    assert!(signals(&mut e, &t).is_empty());
}

#[test]
fn mean_reversion_buys_the_dip() {
    let t = token(-15_000_000, 0, 200_000, 10, 1_000_000);
    let s = signals(&mut only(TradingStrategy::MeanReversion), &t);
    assert_eq!(s.len(), 1);
    assert_eq!(s[0].confidence, 150_000);
    assert_eq!(s[0].reason, "Mean Reversion: Price down -15.00%, Liquidity ratio 0.20");
    assert_eq!(s[0].expected_price, Some(1_050_000));
}

#[test]
fn mean_reversion_needs_liquidity() {
    let t = token(-15_000_000, 0, 50_000, 10, 1_000_000);
    assert!(signals(&mut only(TradingStrategy::MeanReversion), &t).is_empty());
}

#[test]
fn breakout_on_volume_spike() {
    let t = token(3_000_000, 500, 100, 10, 1_000_000);
    let s = signals(&mut only(TradingStrategy::Breakout), &t);
    assert_eq!(s.len(), 1);
    assert_eq!(s[0].confidence, 500_000);
    assert_eq!(s[0].reason, "Breakout: Volume spike 5.00x, Price momentum 3.00%");
    assert_eq!(s[0].expected_price, Some(1_150_000));
}

#[test]
fn breakout_with_zero_liquidity_is_unbounded() {
    let t = token(3_000_000, 500, 0, 10, 1_000_000);
    let s = signals(&mut only(TradingStrategy::Breakout), &t);
    assert_eq!(s[0].confidence, 1_000_000);
    assert_eq!(s[0].reason, "Breakout: Volume spike infx, Price momentum 3.00%");
}

#[test]
fn no_volume_and_no_liquidity_meets_no_threshold() {
    let t = token(3_000_000, 0, 0, 10, 1_000_000);
    assert!(signals(&mut only(TradingStrategy::Breakout), &t).is_empty());
}

#[test]
fn volume_spike_needs_holders() {
    let t = token(0, 600, 100, 60, 1_000_000);
    let s = signals(&mut only(TradingStrategy::VolumeSpike), &t);
    assert_eq!(s.len(), 1);
    assert_eq!(s[0].confidence, 300_000);
    assert_eq!(s[0].reason, "Volume Spike: 6.00x volume, 60 holders");
    assert_eq!(s[0].expected_price, Some(1_200_000));
    let few = token(0, 600, 100, 49, 1_000_000);
    assert!(signals(&mut only(TradingStrategy::VolumeSpike), &few).is_empty());
}

#[test]
fn holder_growth_on_broad_holder_base() {
    let t = token(0, 0, 100, 200, 1_000_000);
    let s = signals(&mut only(TradingStrategy::HolderGrowth), &t);
    assert_eq!(s.len(), 1);
    assert_eq!(s[0].confidence, 1_000_000);
    assert_eq!(s[0].reason, "Holder Growth: 200 holders, $1M market cap");
    assert_eq!(s[0].expected_price, Some(1_080_000));
}

#[test]
fn holder_growth_needs_market_cap() {
    let t = token(0, 0, 100, 200, 400_000);
    assert!(signals(&mut only(TradingStrategy::HolderGrowth), &t).is_empty());
}

#[test]
fn strategies_run_in_order_and_skip_disabled() {
    let mut e = StrategyEngine::new(vec![
        StrategyConfig { strategy: TradingStrategy::Breakout, parameters: StrategyParams::new(), enabled: true },
        StrategyConfig { strategy: TradingStrategy::VolumeSpike, parameters: StrategyParams::new(), enabled: false },
        StrategyConfig { strategy: TradingStrategy::Momentum, parameters: StrategyParams::new(), enabled: true },
    ]);
    let t = token(6_000_000, 600, 100, 60, 1_000_000);
    let s = signals(&mut e, &t);
    assert_eq!(s.len(), 2);
    assert!(s[0].reason.starts_with("Breakout"));
    assert!(s[1].reason.starts_with("Momentum"));
    for x in &s {
        assert!(x.confidence <= 1_000_000);
    }
}

#[test]
fn default_strategy_config() {
    let c = StrategyConfig::default();
    assert_eq!(c.strategy, TradingStrategy::Momentum);
    assert!(c.enabled);
    assert_eq!(c.parameters.get(ParamKey::MinMarketCap), Some(500_000_000_000));
    assert_eq!(c.parameters.get(ParamKey::MaxPriceChange), Some(-10_000_000));
    let d = default_strategies();
    assert_eq!(d.len(), 3);
    assert_eq!(d[1].strategy, TradingStrategy::VolumeSpike);
}

#[test]
fn position_history_per_asset() {
    let mut e = only(TradingStrategy::Momentum);
    assert!(e.get_position_history("a").is_none());
    e.update_position_history("a".to_string(), 5);
    e.update_position_history("b".to_string(), 7);
    e.update_position_history("a".to_string(), 6);
    assert_eq!(e.get_position_history("a"), Some(&vec![5, 6]));
    assert_eq!(e.get_position_history("b"), Some(&vec![7]));
    assert!(e.get_position_history("c").is_none());
}

#[test]
fn should_sell_at_take_profit_or_stop_loss() {
    let e = only(TradingStrategy::Momentum);
    assert!(e.should_sell("a", 1_200_000, 1_000_000));
    assert!(!e.should_sell("a", 1_100_000, 1_000_000));
    assert!(e.should_sell("a", 900_000, 1_000_000));
    assert!(!e.should_sell("a", 950_000, 1_000_000));
    assert!(e.should_sell("a", 1, 0));
    assert!(!e.should_sell("a", 0, 0));
}

#[test]
fn only_confident_signals_are_acted_on() {
    let t = token(60_000_000, 300, 100, 10, 1_000_000);
    let s = signals(&mut only(TradingStrategy::Momentum), &t);
    assert_eq!(s[0].confidence, 600_000);
    assert!(confident_enough(&s[0]));
    let weak = token(6_000_000, 300, 100, 10, 1_000_000);
    let w = signals(&mut only(TradingStrategy::Momentum), &weak);
    assert!(!confident_enough(&w[0]));
}

#[test]
fn catalog_filter_keeps_matching_tokens_in_order() {
    let client = PumpPortalClient::new("https://example.org".to_string(), None, 5000);
    assert_eq!(client.get_refresh_interval_ms(), 5000);
    let mut a = token(0, 0, 0, 150, 2_000_000);
    a.symbol = "A".to_string();
    let mut b = token(0, 0, 0, 50, 2_000_000);
    b.symbol = "B".to_string();
    let mut c = token(0, 0, 0, 150, 20_000_000);
    c.symbol = "C".to_string();
    let mut d = token(0, 0, 0, 100, 1_000_000);
    d.symbol = "D".to_string();
    let mut old = token(0, 0, 0, 150, 2_000_000);
    old.age_hours = 48;
    let kept = client.filter_tokens_by_criteria(vec![a, b, c, d, old], 1_000_000, 10_000_000, 100, 24);
    let names: Vec<&str> = kept.iter().map(|t| t.symbol.as_str()).collect();
    assert_eq!(names, vec!["A", "D"]);
}
