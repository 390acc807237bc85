use solana_pumpfun_bot::error::BotError;
use solana_pumpfun_bot::pumpportal::TokenInfo;
use solana_pumpfun_bot::strategies::{Action, TradingSignal};
use solana_pumpfun_bot::trading::{BuyOrder, Execution, Trade, TradingEngine};
use solana_sdk::pubkey::Pubkey;

const SOL: &str = "So11111111111111111111111111111111111111112";
const USDC: &str = "EPjFWdd5AufqSSqeM2qN1xzybapC8G4wEGGkZwyTDt1v";

fn token(address: &str, price: u64) -> TokenInfo {
    TokenInfo {
        address: address.to_string(),
        symbol: "TKN".to_string(),
        name: "Token".to_string(),
        decimals: 6,
        market_cap: 1_000_000,
        holders: 100,
        age_hours: 1,
        liquidity: 100,
        price_usd: price,
        price_change_24h: 0,
        volume_24h: 300,
        created_at: String::new(),
    }
}

fn signal(address: &str, action: Action, confidence: u64, price: u64) -> TradingSignal {
    TradingSignal {
        token: token(address, price),
        action,
        confidence,
        reason: "test".to_string(),
        expected_price: None,
    }
}

fn engine(max_positions: usize) -> TradingEngine {
    TradingEngine::new(max_positions, 1_000_000_000, 1_000_000_000, 20_000_000, 10_000_000, 60)
}

fn account() -> Pubkey {
    Pubkey::new_from_array([7; 32])
}

fn order(e: &mut TradingEngine, s: TradingSignal, now: i64) -> BuyOrder {
    match e.execute_signal_at(s, now) {
        Ok(Execution::NeedsAccount(o)) => o,
        other => panic!("expected a buy order, got {:?}", other),
    }
}

fn buy(e: &mut TradingEngine, address: &str, confidence: u64, price: u64, now: i64) -> Trade {
    let o = order(e, signal(address, Action::Buy, confidence, price), now);
    e.complete_buy_at(o, account(), now).expect("buy completes")
}

fn skipped(r: Result<Execution, BotError>) -> bool {
    matches!(r, Ok(Execution::Skipped))
}

#[test]
fn buy_opens_position_scaled_by_confidence() {
    let mut e = engine(5);
    let o = order(&mut e, signal(SOL, Action::Buy, 600_000, 1_000_000), 1000);
    assert_eq!(o.amount, 600_000_000);
    assert_eq!(o.mint, Pubkey::new_from_array(o.mint.to_bytes()));
    assert!(e.get_positions().is_empty());
    let t = e.complete_buy_at(o, account(), 1000).unwrap();
    assert_eq!(t.action, Action::Buy);
    assert_eq!(t.amount, 600_000_000);
    assert_eq!(t.price, 1_000_000);
    assert_eq!(t.timestamp, 1000);
    assert_eq!(t.profit_loss, None);
    assert!(!t.id.is_empty());
    let p = &e.get_positions()[0];
    assert_eq!(p.token_address, SOL);
    assert_eq!(p.amount, 600_000_000);
    assert_eq!(p.entry_price, 1_000_000);
    assert_eq!(p.entry_time, 1000);
    assert_eq!(p.token_account, Some(account()));
    assert_eq!(p.token_mint.to_string(), SOL);
}

#[test]
fn invalid_address_is_a_typed_error() {
    let mut e = engine(5);
    let r = e.execute_signal_at(signal("not-a-key", Action::Buy, 600_000, 1), 1000);
    match r {
        Err(BotError::InvalidTokenAddress(m)) => assert_eq!(m, "Invalid token address: not-a-key"),
        other => panic!("expected an invalid address, got {:?}", other),
    }
    assert!(e.get_positions().is_empty());
}

#[test]
fn zero_confidence_buys_nothing() {
    let mut e = engine(5);
    assert!(skipped(e.execute_signal_at(signal(SOL, Action::Buy, 0, 1), 1000)));
}

#[test]
fn second_buy_on_held_asset_is_declined() {
    let mut e = engine(5);
    buy(&mut e, SOL, 600_000, 1_000_000, 1000);
    assert!(skipped(e.execute_signal_at(signal(SOL, Action::Buy, 600_000, 1), 5000)));
    assert_eq!(e.get_positions().len(), 1);
}

#[test]
fn one_slot_takes_only_the_first_of_two_buys() {
    let mut e = engine(1);
    let first = order(&mut e, signal(SOL, Action::Buy, 600_000, 1_000_000), 1000);
    assert!(e.complete_buy_at(first, account(), 1000).is_some());
    assert!(skipped(e.execute_signal_at(signal(USDC, Action::Buy, 600_000, 1_000_000), 1000)));
    assert_eq!(e.get_positions().len(), 1);
    assert_eq!(e.get_positions()[0].token_address, SOL);
}

#[test]
fn full_book_never_opens_a_position() {
    let mut e = engine(1);
    let late = order(&mut e, signal(USDC, Action::Buy, 600_000, 1_000_000), 1000);
    buy(&mut e, SOL, 600_000, 1_000_000, 1000);
    assert!(e.complete_buy_at(late, account(), 1000).is_none());
    assert_eq!(e.get_positions().len(), 1);
}

#[test]
fn cooldown_suppresses_every_signal() {
    let mut e = engine(5);
    buy(&mut e, SOL, 600_000, 1_000_000, 1000);
    assert!(skipped(e.execute_signal_at(signal(SOL, Action::Sell, 1_000_000, 2_000_000), 1059)));
    assert_eq!(e.get_positions().len(), 1);
    assert_eq!(e.get_positions()[0].amount, 600_000_000);
    let r = e.execute_signal_at(signal(SOL, Action::Sell, 1_000_000, 2_000_000), 1060);
    assert!(matches!(r, Ok(Execution::Traded(_))));
}

#[test]
fn full_sell_removes_position_with_profit() {
    let mut e = engine(5);
    buy(&mut e, SOL, 600_000, 1_000_000, 1000);
    match e.execute_signal_at(signal(SOL, Action::Sell, 1_000_000, 1_250_000), 2000) {
        Ok(Execution::Traded(t)) => {
            assert_eq!(t.action, Action::Sell);
            assert_eq!(t.amount, 600_000_000);
            assert_eq!(t.price, 1_250_000);
            assert_eq!(t.timestamp, 2000);
            assert_eq!(t.profit_loss, Some(150_000_000));
        },
        other => panic!("expected a trade, got {:?}", other),
    }
    assert!(e.get_positions().is_empty());
}

#[test]
fn full_sell_at_a_loss() {
    let mut e = engine(5);
    buy(&mut e, SOL, 600_000, 1_000_000, 1000);
    match e.execute_signal_at(signal(SOL, Action::Sell, 1_000_000, 900_000), 2000) {
        Ok(Execution::Traded(t)) => assert_eq!(t.profit_loss, Some(-60_000_000)),
        other => panic!("expected a trade, got {:?}", other),
    }
}

#[test]
fn sell_without_position_and_hold_do_nothing() {
    let mut e = engine(5);
    assert!(skipped(e.execute_signal_at(signal(SOL, Action::Sell, 1_000_000, 1), 1000)));
    assert!(skipped(e.execute_signal_at(signal(SOL, Action::Hold, 1_000_000, 1), 1000)));
    assert!(e.get_positions().is_empty());
}

#[test]
fn exit_scan_uses_live_price_for_profit_target() {
    let mut e = engine(5);
    buy(&mut e, SOL, 600_000, 1_000_000, 1000);
    let exits = e.check_exit_conditions(&vec![token(SOL, 1_250_000)]).unwrap();
    assert_eq!(exits.len(), 1);
    assert_eq!(exits[0].action, Action::Sell);
    assert_eq!(exits[0].confidence, 1_000_000);
    assert_eq!(exits[0].reason, "Profit target reached: 25.00%");
    assert_eq!(exits[0].token.price_usd, 1_250_000);
    assert_eq!(exits[0].token.symbol, "UNKNOWN");
    assert_eq!(exits[0].expected_price, Some(1_250_000));
}

#[test]
fn exit_scan_without_live_price_emits_nothing() {
    let mut e = engine(5);
    buy(&mut e, SOL, 600_000, 1_000_000, 1000);
    assert!(e.check_exit_conditions(&vec![token(USDC, 5_000_000)]).unwrap().is_empty());
    assert!(e.check_exit_conditions(&vec![]).unwrap().is_empty());
}

#[test]
fn exit_scan_stop_loss_then_sell() {
    let mut e = engine(5);
    buy(&mut e, SOL, 600_000, 1_000_000, 1000);
    let exits = e.check_exit_conditions(&vec![token(SOL, 850_000)]).unwrap();
    assert_eq!(exits.len(), 1);
    assert_eq!(exits[0].reason, "Stop loss triggered: 15.00%");
    let s = exits.into_iter().next().unwrap();
    match e.execute_signal_at(s, 2000) {
        Ok(Execution::Traded(t)) => assert_eq!(t.profit_loss, Some(-90_000_000)),
        other => panic!("expected a trade, got {:?}", other),
    }
    assert!(e.get_positions().is_empty());
}

#[test]
fn trades_are_added_to_history() {
    let mut e = engine(5);
    let t = buy(&mut e, SOL, 600_000, 1_000_000, 1000);
    assert!(e.get_trade_history().is_empty());
    e.add_trade(t);
    assert_eq!(e.get_trade_history().len(), 1);
}

#[test]
fn trades_get_distinct_identifiers() {
    let mut e = engine(5);
    let a = buy(&mut e, SOL, 600_000, 1_000_000, 1000);
    let b = buy(&mut e, USDC, 600_000, 1_000_000, 1000);
    assert_eq!(a.id.len(), 36);
    assert_ne!(a.id, b.id);
}

#[test]
fn execution_on_the_clock() {
    let mut e = engine(5);
    let o = match e.execute_signal(signal(SOL, Action::Buy, 1_000_000, 1_000_000)) {
        Ok(Execution::NeedsAccount(o)) => o,
        other => panic!("expected a buy order, got {:?}", other),
    };
    let t = e.complete_buy(o, account()).unwrap();
    assert!(t.timestamp > 1_600_000_000);
    assert!(skipped(e.execute_signal(signal(SOL, Action::Sell, 1_000_000, 1))));
}
