//! The trading engine: the authoritative set of open positions, the trade
//! history, per-asset cooldowns, and the turning of signals into trades.
//!
//! Opening a position needs the asset's holding account, which only the
//! execution backend can give. A buy therefore runs in two steps:
//! [`TradingEngine::execute_signal`] decides and answers
//! [`Execution::NeedsAccount`]; the caller resolves the account and hands it
//! to [`TradingEngine::complete_buy`].

use vstd::prelude::*;
use solana_sdk::pubkey::Pubkey;
use crate::chain::{is_pubkey_text, parse_pubkey};
use crate::clock::{fresh_id, unix_now};
use crate::error::{BotError, Result};
use crate::fixed::{push_signed_two_places, signed_two_places, SCALE};
use crate::pumpportal::TokenInfo;
use crate::strategies::{
    gain_at_least, gain_reaches, loss_at_least, loss_reaches, Action, TradingSignal,
};

verus! {

/// A currently held amount of one asset.
#[derive(Debug, Clone)]
pub struct Position {
    pub token_address: String,
    pub token_mint: Pubkey,
    pub amount: u64,
    /// Entry price in millionths of a dollar.
    pub entry_price: u64,
    /// Entry time in seconds since the Unix epoch.
    pub entry_time: i64,
    pub token_account: Option<Pubkey>,
}

/// An executed buy or sell; never changed once made.
#[derive(Debug, Clone)]
pub struct Trade {
    pub id: String,
    pub token_address: String,
    pub action: Action,
    pub amount: u64,
    /// Price in millionths of a dollar.
    pub price: u64,
    /// Seconds since the Unix epoch.
    pub timestamp: i64,
    pub signature: Option<String>,
    /// Realized profit or loss in millionths of a dollar.
    pub profit_loss: Option<i64>,
}

/// When the last trade on an asset was made.
#[derive(Debug, Clone)]
pub struct LastTrade {
    pub token_address: String,
    pub at: i64,
}

/// A buy that passed every check and waits for the asset's holding account.
#[derive(Debug, Clone)]
pub struct BuyOrder {
    pub signal: TradingSignal,
    pub mint: Pubkey,
    pub amount: u64,
}

/// What executing a signal came to.
#[derive(Debug, Clone)]
pub enum Execution {
    /// Declined for now: cooldown, a full book, an existing or missing
    /// position, a zero amount, or a hold.
    Skipped,
    Traded(Trade),
    NeedsAccount(BuyOrder),
}

/// At most one position per asset.
pub open spec fn positions_unique(s: Seq<Position>) -> bool {
    forall|i: int, j: int|
        0 <= i < s.len() && 0 <= j < s.len() && i != j ==> s[i].token_address@
            != s[j].token_address@
}

/// Whether a position on `a` is open.
pub open spec fn holds(s: Seq<Position>, a: Seq<char>) -> bool {
    exists|i: int| 0 <= i < s.len() && s[i].token_address@ == a
}

/// Where the position on `a` stands, when one is open.
pub open spec fn index_of(s: Seq<Position>, a: Seq<char>) -> int {
    choose|i: int| 0 <= i < s.len() && s[i].token_address@ == a
}

pub open spec fn stamps_unique(s: Seq<LastTrade>) -> bool {
    forall|i: int, j: int|
        0 <= i < s.len() && 0 <= j < s.len() && i != j ==> s[i].token_address@
            != s[j].token_address@
}

/// The time of the last trade on `a`, if there was one.
pub open spec fn last_trade(s: Seq<LastTrade>, a: Seq<char>) -> Option<i64> {
    if exists|i: int| 0 <= i < s.len() && s[i].token_address@ == a {
        Some(s[choose|i: int| 0 <= i < s.len() && s[i].token_address@ == a].at)
    } else {
        None
    }
}

/// Whether `a` was traded less than `cooldown` seconds before `now`.
pub open spec fn in_cooldown(s: Seq<LastTrade>, a: Seq<char>, now: i64, cooldown: u64) -> bool {
    match last_trade(s, a) {
        Some(t) => now - t < cooldown,
        None => false,
    }
}

/// `post` records a trade on `a` at `now` and keeps every other record of `pre`.
pub open spec fn stamped(pre: Seq<LastTrade>, post: Seq<LastTrade>, a: Seq<char>, now: i64) -> bool {
    &&& stamps_unique(post)
    &&& last_trade(post, a) == Some(now)
    &&& forall|b: Seq<char>| b != a ==> last_trade(post, b) == last_trade(pre, b)
}

/// The buy size: the largest amount scaled by the confidence, at most the largest amount.
pub open spec fn buy_amount(max_buy: u64, confidence: u64) -> u64 {
    let scaled = max_buy as int * confidence as int / SCALE as int;
    if scaled < max_buy as int {
        scaled as u64
    } else {
        max_buy
    }
}

/// `x / d` rounded toward zero.
pub open spec fn div_toward_zero(x: int, d: int) -> int {
    if x >= 0 {
        x / d
    } else {
        -((-x) / d)
    }
}

/// Profit or loss of selling `amount` units bought at `entry` for `sell`:
/// `(sell - entry) * amount / 1_000_000` in millionths of a dollar, rounded
/// toward zero and held within `i64`.
pub open spec fn realized_pnl(sell: u64, entry: u64, amount: u64) -> i64 {
    let q = div_toward_zero((sell - entry) * amount, SCALE as int);
    if q > i64::MAX {
        i64::MAX
    } else if q < i64::MIN {
        i64::MIN
    } else {
        q as i64
    }
}

/// Whether `t` is the trade record of selling position `p` on signal `s`.
pub open spec fn is_sell_trade(t: Trade, s: TradingSignal, p: Position, now: i64) -> bool {
    &&& t.token_address@ == s.token.address@
    &&& t.action == Action::Sell
    &&& t.amount == p.amount
    &&& t.price == s.token.price_usd
    &&& t.timestamp == now
    &&& t.signature is None
    &&& t.profit_loss == Some(realized_pnl(s.token.price_usd, p.entry_price, p.amount))
}

/// Whether `t` is the trade record of the buy order `o`.
pub open spec fn is_buy_trade(t: Trade, o: BuyOrder, now: i64) -> bool {
    &&& t.token_address@ == o.signal.token.address@
    &&& t.action == Action::Buy
    &&& t.amount == o.amount
    &&& t.price == o.signal.token.price_usd
    &&& t.timestamp == now
    &&& t.signature is None
    &&& t.profit_loss is None
}

/// The price of `a` in the first snapshot that names it, or `fallback`.
pub open spec fn price_in(s: Seq<TokenInfo>, a: Seq<char>, fallback: u64) -> u64
    decreases s.len(),
{
    if s.len() == 0 {
        fallback
    } else if s[0].address@ == a {
        s[0].price_usd
    } else {
        price_in(s.drop_first(), a, fallback)
    }
}

/// Text of the percent change `num / entry * 100` (two decimals, rounded
/// toward zero first); from a zero entry it reads `inf`.
pub open spec fn percent_text(num: int, entry: u64) -> Seq<char> {
    if entry == 0 {
        seq!['i', 'n', 'f']
    } else {
        signed_two_places(div_toward_zero(num * 100 * SCALE as int, entry as int))
    }
}

/// Whether the position should be closed at price `current`.
pub open spec fn exit_fires(p: Position, current: u64, target: i64, stop: i64) -> bool {
    gain_reaches(p.entry_price, current, target) || loss_reaches(p.entry_price, current, stop)
}

/// Whether `s` is the exit signal for position `p` at price `current`.
pub open spec fn is_exit_signal(s: TradingSignal, p: Position, current: u64, target: i64) -> bool {
    &&& s.token.address == p.token_address
    &&& s.token.symbol@ == "UNKNOWN"@
    &&& s.token.name@ == "Unknown"@
    &&& s.token.decimals == 6
    &&& s.token.market_cap == 0
    &&& s.token.holders == 0
    &&& s.token.age_hours == 0
    &&& s.token.liquidity == 0
    &&& s.token.price_usd == current
    &&& s.token.price_change_24h == 0
    &&& s.token.volume_24h == 0
    &&& s.token.created_at@ == ""@
    &&& s.action == Action::Sell
    &&& s.confidence == SCALE
    &&& s.expected_price == Some(current as u128)
    &&& s.reason@ == if gain_reaches(p.entry_price, current, target) {
        "Profit target reached: "@ + percent_text(current - p.entry_price, p.entry_price) + "%"@
    } else {
        "Stop loss triggered: "@ + percent_text(p.entry_price - current, p.entry_price) + "%"@
    }
}

/// Positions, in order, of the open positions that should be closed.
pub open spec fn exiting(
    ps: Seq<Position>,
    snaps: Seq<TokenInfo>,
    target: i64,
    stop: i64,
) -> Seq<int>
    decreases ps.len(),
{
    if ps.len() == 0 {
        seq![]
    } else {
        let before = exiting(ps.drop_last(), snaps, target, stop);
        let p = ps.last();
        if exit_fires(p, price_in(snaps, p.token_address@, p.entry_price), target, stop) {
            before.push(ps.len() - 1)
        } else {
            before
        }
    }
}

/// What executing signal `s` at time `now` does, from engine `pre` to engine
/// `post`, with result `r`. Checks run in order: cooldown, then for a buy an
/// existing position, a full book and a zero amount, then the asset key; for
/// a sell a missing position or a zero amount. Every declined case is
/// `Skipped` and changes nothing.
pub open spec fn signal_outcome(
    pre: TradingEngine,
    post: TradingEngine,
    s: TradingSignal,
    now: i64,
    r: Result<Execution>,
) -> bool {
    let a = s.token.address@;
    if in_cooldown(pre.last_trades(), a, now, pre.cooldown_seconds()) || s.action == Action::Hold {
        r == Ok::<Execution, BotError>(Execution::Skipped) && post == pre
    } else if s.action == Action::Buy {
        if holds(pre.positions(), a) || pre.positions().len() >= pre.max_positions() || buy_amount(
            pre.max_buy_amount(),
            s.confidence,
        ) == 0 {
            r == Ok::<Execution, BotError>(Execution::Skipped) && post == pre
        } else if !is_pubkey_text(a) {
            &&& post == pre
            &&& r matches Err(BotError::InvalidTokenAddress(m))
            &&& m@ == "Invalid token address: "@ + a
        } else {
            &&& post == pre
            &&& r matches Ok(Execution::NeedsAccount(o))
            &&& o.signal == s
            &&& o.amount == buy_amount(pre.max_buy_amount(), s.confidence)
        }
    } else if !holds(pre.positions(), a) || pre.positions()[index_of(pre.positions(), a)].amount
        == 0 {
        r == Ok::<Execution, BotError>(Execution::Skipped) && post == pre
    } else {
        let i = index_of(pre.positions(), a);
        &&& r matches Ok(Execution::Traded(t))
        &&& is_sell_trade(t, s, pre.positions()[i], now)
        &&& post.positions() == pre.positions().remove(i)
        &&& post.trades() == pre.trades()
        &&& post.same_limits(&pre)
        &&& stamped(pre.last_trades(), post.last_trades(), a, now)
    }
}

/// The position that buy order `o` opens.
pub open spec fn opened_position(o: BuyOrder, account: Pubkey, now: i64) -> Position {
    Position {
        token_address: o.signal.token.address,
        token_mint: o.mint,
        amount: o.amount,
        entry_price: o.signal.token.price_usd,
        entry_time: now,
        token_account: Some(account),
    }
}

/// What completing buy order `o` with holding account `account` at time
/// `now` does. The checks of a buy are made again, as the engine may have
/// changed since the order was made.
pub open spec fn buy_outcome(
    pre: TradingEngine,
    post: TradingEngine,
    o: BuyOrder,
    account: Pubkey,
    now: i64,
    r: Option<Trade>,
) -> bool {
    let a = o.signal.token.address@;
    if in_cooldown(pre.last_trades(), a, now, pre.cooldown_seconds()) || holds(pre.positions(), a)
        || pre.positions().len() >= pre.max_positions() || o.amount == 0 {
        r is None && post == pre
    } else {
        &&& r matches Some(t)
        &&& is_buy_trade(t, o, now)
        &&& post.positions() == pre.positions().push(opened_position(o, account, now))
        &&& post.trades() == pre.trades()
        &&& post.same_limits(&pre)
        &&& stamped(pre.last_trades(), post.last_trades(), a, now)
    }
}

/// Each asset has at most one position, in every engine that the public
/// operations build: `new` establishes `wf` and every operation keeps it.
pub proof fn lemma_one_position_per_asset(e: TradingEngine, i: int, j: int)
    requires
        e.wf(),
        0 <= i < e.positions().len(),
        0 <= j < e.positions().len(),
        i != j,
    ensures
        e.positions()[i].token_address@ != e.positions()[j].token_address@,
{
}

/// With as many open positions as allowed, executing a buy signal opens no
/// position, and neither does completing a buy order.
pub proof fn lemma_full_book_opens_nothing(
    pre: TradingEngine,
    post: TradingEngine,
    s: TradingSignal,
    now: i64,
    r: Result<Execution>,
    order: BuyOrder,
    account: Pubkey,
    post_buy: TradingEngine,
    bought: Option<Trade>,
)
    requires
        pre.positions().len() == pre.max_positions(),
        s.action == Action::Buy,
        signal_outcome(pre, post, s, now, r),
        buy_outcome(pre, post_buy, order, account, now, bought),
    ensures
        post.positions() == pre.positions(),
        post_buy.positions() == pre.positions(),
        bought is None,
{
}

/// Within the cooldown of an asset's last trade, executing any signal on it,
/// or completing a buy order on it, changes nothing.
pub proof fn lemma_cooldown_changes_nothing(
    pre: TradingEngine,
    post: TradingEngine,
    s: TradingSignal,
    now: i64,
    r: Result<Execution>,
    order: BuyOrder,
    account: Pubkey,
    post_buy: TradingEngine,
    bought: Option<Trade>,
)
    requires
        in_cooldown(pre.last_trades(), s.token.address@, now, pre.cooldown_seconds()),
        order.signal.token.address@ == s.token.address@,
        signal_outcome(pre, post, s, now, r),
        buy_outcome(pre, post_buy, order, account, now, bought),
    ensures
        post == pre,
        r == Ok::<Execution, BotError>(Execution::Skipped),
        post_buy == pre,
        bought is None,
{
}

/// A sell that trades closes the asset's position, and its trade carries
/// the realized profit or loss `(sell - entry) * amount / 1_000_000` of the
/// whole position.
pub proof fn lemma_full_sell_closes(
    pre: TradingEngine,
    post: TradingEngine,
    s: TradingSignal,
    now: i64,
    r: Result<Execution>,
)
    requires
        pre.wf(),
        s.action == Action::Sell,
        signal_outcome(pre, post, s, now, r),
        r matches Ok(Execution::Traded(_)),
    ensures
        holds(pre.positions(), s.token.address@),
        !holds(post.positions(), s.token.address@),
        r matches Ok(Execution::Traded(t)) && {
            let p = pre.positions()[index_of(pre.positions(), s.token.address@)];
            &&& t.amount == p.amount
            &&& t.profit_loss == Some(realized_pnl(s.token.price_usd, p.entry_price, p.amount))
        },
{
    let a = s.token.address@;
    let ps = pre.positions();
    let i = index_of(ps, a);
    let qs = post.positions();
    assert(qs == ps.remove(i));
    if holds(qs, a) {
        let k = choose|k: int| 0 <= k < qs.len() && qs[k].token_address@ == a;
        let k2 = if k < i { k } else { k + 1 };
        assert(qs[k] == ps[k2]);
    }
}

fn current_price(snapshots: &Vec<TokenInfo>, a: &String, fallback: u64) -> (r: u64)
    ensures
        r == price_in(snapshots@, a@, fallback),
{
    let n = snapshots.len();
    let mut i: usize = 0;
    assert(snapshots@.subrange(0, n as int) =~= snapshots@);
    while i < n
        invariant
            n == snapshots@.len(),
            i <= n,
            price_in(snapshots@, a@, fallback) == price_in(
                snapshots@.subrange(i as int, n as int),
                a@,
                fallback,
            ),
        decreases n - i,
    {
        let ghost rest = snapshots@.subrange(i as int, n as int);
        assert(rest[0] == snapshots@[i as int]);
        if snapshots[i].address == *a {
            return snapshots[i].price_usd;
        }
        assert(rest.drop_first() =~= snapshots@.subrange(i + 1, n as int));
        i = i + 1;
    }
    fallback
}

/// Appends the percent change `num / entry * 100`; see [`percent_text`].
fn push_percent(out: &mut String, num: i128, entry: u64)
    requires
        -0x1_0000_0000_0000_0000 < num < 0x1_0000_0000_0000_0000,
    ensures
        final(out)@ == old(out)@ + percent_text(num as int, entry),
{
    if entry == 0 {
        proof {
            reveal_strlit("inf");
        }
        out.append("inf");
    } else {
        let m: u128 = if num < 0 {
            (-num) as u128
        } else {
            num as u128
        };
        proof {
            assert(m * 100_000_000 <= 0x1_0000_0000_0000_0000u128 * 100_000_000) by (nonlinear_arith)
                requires
                    m <= 0x1_0000_0000_0000_0000u128,
            ;
        }
        let q: u128 = m * 100_000_000 / (entry as u128);
        proof {
            assert(q <= m * 100_000_000) by (nonlinear_arith)
                requires
                    q == m * 100_000_000 / (entry as int),
                    entry > 0,
            ;
            if num < 0 {
                assert((-(num * 100 * SCALE as int)) == m * 100_000_000);
            }
        }
        let v: i128 = if num < 0 {
            -(q as i128)
        } else {
            q as i128
        };
        push_signed_two_places(out, v);
    }
}

fn pnl(sell: u64, entry: u64, amount: u64) -> (r: i64)
    ensures
        r == realized_pnl(sell, entry, amount),
{
    let up = sell >= entry;
    let diff: u64 = if up {
        sell - entry
    } else {
        entry - sell
    };
    let d = diff as u128;
    let n = amount as u128;
    proof {
        assert(d * n <= 0xffff_ffff_ffff_ffffu128 * 0xffff_ffff_ffff_ffffu128) by (nonlinear_arith)
            requires
                d <= 0xffff_ffff_ffff_ffffu128,
                n <= 0xffff_ffff_ffff_ffffu128,
        ;
        if up {
            assert((sell - entry) * amount == d * n);
        } else {
            assert((sell - entry) * amount == -(d * n)) by (nonlinear_arith)
                requires
                    d == entry - sell,
                    n == amount,
            ;
        }
    }
    let mag: u128 = d * n / (SCALE as u128);
    if up {
        if mag > 0x7fff_ffff_ffff_ffffu128 {
            i64::MAX
        } else {
            mag as i64
        }
    } else if mag >= 0x8000_0000_0000_0000u128 {
        i64::MIN
    } else {
        -(mag as i64)
    }
}

proof fn lemma_index_of(s: Seq<Position>, i: int)
    requires
        positions_unique(s),
        0 <= i < s.len(),
    ensures
        holds(s, s[i].token_address@),
        index_of(s, s[i].token_address@) == i,
{
    let a = s[i].token_address@;
    assert(0 <= i < s.len() && s[i].token_address@ == a);
    let k = index_of(s, a);
    assert(k == i);
}

proof fn lemma_last_trade_at(s: Seq<LastTrade>, i: int)
    requires
        stamps_unique(s),
        0 <= i < s.len(),
    ensures
        last_trade(s, s[i].token_address@) == Some(s[i].at),
{
    let a = s[i].token_address@;
    assert(0 <= i < s.len() && s[i].token_address@ == a);
    let k = choose|k: int| 0 <= k < s.len() && s[k].token_address@ == a;
    assert(k == i);
}

/// Owns the positions, the trade history and the cooldowns, and applies the
/// risk limits.
pub struct TradingEngine {
    positions: Vec<Position>,
    trade_history: Vec<Trade>,
    max_positions: usize,
    max_buy_amount: u64,
    max_sell_amount: u64,
    profit_target_percent: i64,
    stop_loss_percent: i64,
    cooldown_seconds: u64,
    last_trade_time: Vec<LastTrade>,
}

impl TradingEngine {
    pub closed spec fn positions(&self) -> Seq<Position> {
        self.positions@
    }

    pub closed spec fn trades(&self) -> Seq<Trade> {
        self.trade_history@
    }

    pub closed spec fn last_trades(&self) -> Seq<LastTrade> {
        self.last_trade_time@
    }

    pub closed spec fn max_positions(&self) -> usize {
        self.max_positions
    }

    pub closed spec fn max_buy_amount(&self) -> u64 {
        self.max_buy_amount
    }

    pub closed spec fn max_sell_amount(&self) -> u64 {
        self.max_sell_amount
    }

    /// Profit target in millionths of a percent.
    pub closed spec fn profit_target_percent(&self) -> i64 {
        self.profit_target_percent
    }

    /// Stop loss in millionths of a percent.
    pub closed spec fn stop_loss_percent(&self) -> i64 {
        self.stop_loss_percent
    }

    pub closed spec fn cooldown_seconds(&self) -> u64 {
        self.cooldown_seconds
    }

    /// The limits, the same in `self` and `other`.
    pub open spec fn same_limits(&self, other: &TradingEngine) -> bool {
        &&& self.max_positions() == other.max_positions()
        &&& self.max_buy_amount() == other.max_buy_amount()
        &&& self.max_sell_amount() == other.max_sell_amount()
        &&& self.profit_target_percent() == other.profit_target_percent()
        &&& self.stop_loss_percent() == other.stop_loss_percent()
        &&& self.cooldown_seconds() == other.cooldown_seconds()
    }

    /// One position per asset, one cooldown record per asset, and never more
    /// positions than the limit.
    pub open spec fn wf(&self) -> bool {
        &&& positions_unique(self.positions())
        &&& stamps_unique(self.last_trades())
        &&& self.positions().len() <= self.max_positions()
    }

    pub fn new(
        max_positions: usize,
        max_buy_amount: u64,
        max_sell_amount: u64,
        profit_target_percent: i64,
        stop_loss_percent: i64,
        cooldown_seconds: u64,
    ) -> (r: Self)
        ensures
            r.wf(),
            r.positions().len() == 0,
            r.trades().len() == 0,
            r.last_trades().len() == 0,
            r.max_positions() == max_positions,
            r.max_buy_amount() == max_buy_amount,
            r.max_sell_amount() == max_sell_amount,
            r.profit_target_percent() == profit_target_percent,
            r.stop_loss_percent() == stop_loss_percent,
            r.cooldown_seconds() == cooldown_seconds,
    {
        TradingEngine {
            positions: Vec::new(),
            trade_history: Vec::new(),
            max_positions,
            max_buy_amount,
            max_sell_amount,
            profit_target_percent,
            stop_loss_percent,
            cooldown_seconds,
            last_trade_time: Vec::new(),
        }
    }


    pub fn get_positions(&self) -> (r: &Vec<Position>)
        ensures
            r@ == self.positions(),
    {
        &self.positions
    }

    pub fn get_trade_history(&self) -> (r: &Vec<Trade>)
        ensures
            r@ == self.trades(),
    {
        &self.trade_history
    }

    /// Appends `trade` to the history.
    pub fn add_trade(&mut self, trade: Trade)
        requires
            old(self).wf(),
        ensures
            final(self).wf(),
            final(self).trades() == old(self).trades().push(trade),
            final(self).positions() == old(self).positions(),
            final(self).last_trades() == old(self).last_trades(),
            final(self).same_limits(old(self)),
    {
        self.trade_history.push(trade);
    }

    fn calculate_buy_amount(&self, signal: &TradingSignal) -> (r: u64)
        ensures
            r == buy_amount(self.max_buy_amount, signal.confidence),
    {
        let m = self.max_buy_amount as u128;
        let c = signal.confidence as u128;
        proof {
            assert(m * c <= 0xffff_ffff_ffff_ffffu128 * 0xffff_ffff_ffff_ffffu128) by (nonlinear_arith)
                requires
                    m <= 0xffff_ffff_ffff_ffffu128,
                    c <= 0xffff_ffff_ffff_ffffu128,
            ;
        }
        let scaled = m * c / (SCALE as u128);
        if scaled < m {
            scaled as u64
        } else {
            self.max_buy_amount
        }
    }

    /// Executes `signal` at the current time; see [`signal_outcome`].
    pub fn execute_signal(&mut self, signal: TradingSignal) -> (r: Result<Execution>)
        requires
            old(self).wf(),
        ensures
            final(self).wf(),
            exists|now: i64| signal_outcome(*old(self), *final(self), signal, now, r),
    {
        let now = unix_now();
        let r = self.execute_signal_at(signal, now);
        r
    }

    /// Executes `signal` at time `now` (seconds since the Unix epoch).
    pub fn execute_signal_at(&mut self, signal: TradingSignal, now: i64) -> (r: Result<Execution>)
        requires
            old(self).wf(),
        ensures
            final(self).wf(),
            signal_outcome(*old(self), *final(self), signal, now, r),
    {
        if self.is_in_cooldown(&signal.token.address, now) {
            return Ok(Execution::Skipped);
        }
        match signal.action {
            Action::Buy => self.execute_buy(signal),
            Action::Sell => self.execute_sell(signal, now),
            Action::Hold => Ok(Execution::Skipped),
        }
    }

    fn execute_buy(&self, signal: TradingSignal) -> (r: Result<Execution>)
        requires
            self.wf(),
            signal.action == Action::Buy,
        ensures
            ({
                let a = signal.token.address@;
                if holds(self.positions(), a) || self.positions().len() >= self.max_positions()
                    || buy_amount(self.max_buy_amount(), signal.confidence) == 0 {
                    r == Ok::<Execution, BotError>(Execution::Skipped)
                } else if !is_pubkey_text(a) {
                    &&& r matches Err(BotError::InvalidTokenAddress(m))
                    &&& m@ == "Invalid token address: "@ + a
                } else {
                    &&& r matches Ok(Execution::NeedsAccount(o))
                    &&& o.signal == signal
                    &&& o.amount == buy_amount(self.max_buy_amount(), signal.confidence)
                }
            }),
    {
        if self.find_position(&signal.token.address).is_some() {
            return Ok(Execution::Skipped);
        }
        if self.positions.len() >= self.max_positions {
            return Ok(Execution::Skipped);
        }
        let amount = self.calculate_buy_amount(&signal);
        if amount == 0 {
            return Ok(Execution::Skipped);
        }
        match parse_pubkey(signal.token.address.as_str()) {
            Ok(mint) => Ok(Execution::NeedsAccount(BuyOrder { signal, mint, amount })),
            Err(_) => {
                let mut m = String::from_str("Invalid token address: ");
                m.append(signal.token.address.as_str());
                Err(BotError::InvalidTokenAddress(m))
            },
        }
    }

    fn execute_sell(&mut self, signal: TradingSignal, now: i64) -> (r: Result<Execution>)
        requires
            old(self).wf(),
            signal.action == Action::Sell,
        ensures
            final(self).wf(),
            ({
                let a = signal.token.address@;
                let pre = *old(self);
                if !holds(pre.positions(), a) || pre.positions()[index_of(pre.positions(), a)].amount
                    == 0 {
                    r == Ok::<Execution, BotError>(Execution::Skipped) && *final(self) == pre
                } else {
                    let i = index_of(pre.positions(), a);
                    &&& r matches Ok(Execution::Traded(t))
                    &&& is_sell_trade(t, signal, pre.positions()[i], now)
                    &&& final(self).positions() == pre.positions().remove(i)
                    &&& final(self).trades() == pre.trades()
                    &&& final(self).same_limits(&pre)
                    &&& stamped(pre.last_trades(), final(self).last_trades(), a, now)
                }
            }),
    {
        let i = match self.find_position(&signal.token.address) {
            Some(i) => i,
            None => {
                return Ok(Execution::Skipped);
            },
        };
        let sell_amount = self.positions[i].amount;
        if sell_amount == 0 {
            return Ok(Execution::Skipped);
        }
        let trade = self.sell_position(i, sell_amount, &signal, now);
        self.stamp(signal.token.address, now);
        Ok(Execution::Traded(trade))
    }

    /// Sells `sell_amount` of the position at `i`: the whole position goes
    /// when the amount covers it, with its profit or loss on the trade;
    /// otherwise the position stays with its amount reduced by exactly
    /// `sell_amount`, and the trade records no profit or loss.
    fn sell_position(&mut self, i: usize, sell_amount: u64, signal: &TradingSignal, now: i64) -> (t:
        Trade)
        requires
            old(self).wf(),
            i < old(self).positions().len(),
            old(self).positions()[i as int].token_address@ == signal.token.address@,
        ensures
            final(self).wf(),
            final(self).trades() == old(self).trades(),
            final(self).last_trades() == old(self).last_trades(),
            final(self).same_limits(old(self)),
            ({
                let p = old(self).positions()[i as int];
                &&& t.token_address@ == signal.token.address@
                &&& t.action == Action::Sell
                &&& t.amount == sell_amount
                &&& t.price == signal.token.price_usd
                &&& t.timestamp == now
                &&& t.signature is None
                &&& if sell_amount >= p.amount {
                    &&& final(self).positions() == old(self).positions().remove(i as int)
                    &&& t.profit_loss == Some(realized_pnl(signal.token.price_usd, p.entry_price, p.amount))
                } else {
                    &&& final(self).positions() == old(self).positions().update(
                        i as int,
                        Position { amount: (p.amount - sell_amount) as u64, ..p },
                    )
                    &&& t.profit_loss is None
                }
            }),
    {
        let ghost pre = self.positions@;
        let amount = self.positions[i].amount;
        let entry_price = self.positions[i].entry_price;
        let profit_loss = if sell_amount >= amount {
            let pl = pnl(signal.token.price_usd, entry_price, amount);
            self.positions.remove(i);
            proof {
                let post = self.positions@;
                assert forall|x: int, y: int|
                    0 <= x < post.len() && 0 <= y < post.len() && x != y implies post[x].token_address@
                    != post[y].token_address@ by {
                    let px = if x < i { x } else { x + 1 };
                    let py = if y < i { y } else { y + 1 };
                    assert(post[x] == pre[px] && post[y] == pre[py]);
                }
            }
            Some(pl)
        } else {
            let p = &self.positions[i];
            let kept = Position {
                token_address: p.token_address.clone(),
                token_mint: p.token_mint,
                amount: amount - sell_amount,
                entry_price: p.entry_price,
                entry_time: p.entry_time,
                token_account: p.token_account,
            };
            self.positions.set(i, kept);
            proof {
                let post = self.positions@;
                assert(post =~= pre.update(i as int, post[i as int]));
                assert forall|x: int, y: int|
                    0 <= x < post.len() && 0 <= y < post.len() && x != y implies post[x].token_address@
                    != post[y].token_address@ by {
                    assert(post[x].token_address@ == pre[x].token_address@);
                    assert(post[y].token_address@ == pre[y].token_address@);
                }
            }
            None
        };
        Trade {
            id: fresh_id(),
            token_address: signal.token.address.clone(),
            action: Action::Sell,
            amount: sell_amount,
            price: signal.token.price_usd,
            timestamp: now,
            signature: None,
            profit_loss,
        }
    }

    /// Completes buy order `order` with the asset's holding account at the
    /// current time; see [`buy_outcome`].
    pub fn complete_buy(&mut self, order: BuyOrder, account: Pubkey) -> (r: Option<Trade>)
        requires
            old(self).wf(),
        ensures
            final(self).wf(),
            exists|now: i64| buy_outcome(*old(self), *final(self), order, account, now, r),
    {
        let now = unix_now();
        let r = self.complete_buy_at(order, account, now);
        r
    }

    /// Completes buy order `order` with holding account `account` at time `now`.
    pub fn complete_buy_at(&mut self, order: BuyOrder, account: Pubkey, now: i64) -> (r: Option<
        Trade,
    >)
        requires
            old(self).wf(),
        ensures
            final(self).wf(),
            buy_outcome(*old(self), *final(self), order, account, now, r),
    {
        let a = &order.signal.token.address;
        if self.is_in_cooldown(a, now) || self.find_position(a).is_some() || self.positions.len()
            >= self.max_positions || order.amount == 0 {
            return None;
        }
        let ghost pre = self.positions@;
        let position = Position {
            token_address: a.clone(),
            token_mint: order.mint,
            amount: order.amount,
            entry_price: order.signal.token.price_usd,
            entry_time: now,
            token_account: Some(account),
        };
        self.positions.push(position);
        proof {
            let post = self.positions@;
            let n = pre.len() as int;
            assert(post.drop_last() =~= pre);
            assert forall|x: int| 0 <= x < n implies pre[x].token_address@ != a@ by {
                if pre[x].token_address@ == a@ {
                    assert(0 <= x < pre.len() && pre[x].token_address@ == a@);
                }
            }
            assert forall|x: int, y: int|
                0 <= x < post.len() && 0 <= y < post.len() && x != y implies post[x].token_address@
                != post[y].token_address@ by {
                if x < n && y < n {
                    assert(post[x] == pre[x] && post[y] == pre[y]);
                } else if x == n {
                    assert(post[y] == pre[y]);
                } else {
                    assert(post[x] == pre[x]);
                }
            }
        }
        let trade = Trade {
            id: fresh_id(),
            token_address: a.clone(),
            action: Action::Buy,
            amount: order.amount,
            price: order.signal.token.price_usd,
            timestamp: now,
            signature: None,
            profit_loss: None,
        };
        self.stamp(a.clone(), now);
        Some(trade)
    }

    /// One sell signal per open position, in the order of the positions,
    /// whose price in `snapshots` (the first snapshot naming its asset; the
    /// entry price when none does) reaches the profit target or the stop loss.
    pub fn check_exit_conditions(&self, snapshots: &Vec<TokenInfo>) -> (r: Result<
        Vec<TradingSignal>,
    >)
        ensures
            r matches Ok(v) && {
                let ps = self.positions();
                let idx = exiting(
                    ps,
                    snapshots@,
                    self.profit_target_percent(),
                    self.stop_loss_percent(),
                );
                &&& v@.len() == idx.len()
                &&& forall|k: int|
                    0 <= k < v@.len() ==> is_exit_signal(
                        #[trigger] v@[k],
                        ps[idx[k]],
                        price_in(snapshots@, ps[idx[k]].token_address@, ps[idx[k]].entry_price),
                        self.profit_target_percent(),
                    )
            },
    {
        let ghost ps = self.positions@;
        let target = self.profit_target_percent;
        let stop = self.stop_loss_percent;
        let mut signals: Vec<TradingSignal> = Vec::new();
        let n = self.positions.len();
        let mut i: usize = 0;
        while i < n
            invariant
                n == ps.len(),
                ps == self.positions@,
                target == self.profit_target_percent,
                stop == self.stop_loss_percent,
                i <= n,
                signals@.len() == exiting(ps.subrange(0, i as int), snapshots@, target, stop).len(),
                forall|k: int|
                    0 <= k < signals@.len() ==> 0 <= #[trigger] exiting(
                        ps.subrange(0, i as int),
                        snapshots@,
                        target,
                        stop,
                    )[k] < i,
                forall|k: int|
                    0 <= k < signals@.len() ==> {
                        let j = exiting(ps.subrange(0, i as int), snapshots@, target, stop)[k];
                        is_exit_signal(
                            #[trigger] signals@[k],
                            ps[j],
                            price_in(snapshots@, ps[j].token_address@, ps[j].entry_price),
                            target,
                        )
                    },
            decreases n - i,
        {
            let p = &self.positions[i];
            let ghost before = ps.subrange(0, i as int);
            let ghost upto = ps.subrange(0, i + 1);
            proof {
                assert(upto.drop_last() =~= before);
                assert(upto.last() == *p);
            }
            let current = current_price(snapshots, &p.token_address, p.entry_price);
            let gain = gain_at_least(p.entry_price, current, target);
            if gain || loss_at_least(p.entry_price, current, stop) {
                let mut reason = if gain {
                    String::from_str("Profit target reached: ")
                } else {
                    String::from_str("Stop loss triggered: ")
                };
                if gain {
                    push_percent(&mut reason, current as i128 - p.entry_price as i128, p.entry_price);
                } else {
                    push_percent(&mut reason, p.entry_price as i128 - current as i128, p.entry_price);
                }
                reason.append("%");
                let token = TokenInfo {
                    address: p.token_address.clone(),
                    symbol: String::from_str("UNKNOWN"),
                    name: String::from_str("Unknown"),
                    decimals: 6,
                    market_cap: 0,
                    holders: 0,
                    age_hours: 0,
                    liquidity: 0,
                    price_usd: current,
                    price_change_24h: 0,
                    volume_24h: 0,
                    created_at: String::new(),
                };
                proof {
                    reveal_strlit("");
                    assert(token.created_at@ =~= ""@);
                }
                let sig = TradingSignal {
                    token,
                    action: Action::Sell,
                    confidence: SCALE,
                    reason,
                    expected_price: Some(current as u128),
                };
                assert(sig.reason@ == if gain_reaches(p.entry_price, current, target) {
                    "Profit target reached: "@ + percent_text(current - p.entry_price, p.entry_price) + "%"@
                } else {
                    "Stop loss triggered: "@ + percent_text(p.entry_price - current, p.entry_price) + "%"@
                });
                assert(is_exit_signal(sig, *p, current, target));
                signals.push(sig);
            }
            proof {
                let idx = exiting(upto, snapshots@, target, stop);
                let prev = exiting(before, snapshots@, target, stop);
                assert forall|k: int| 0 <= k < signals@.len() implies 0 <= #[trigger] idx[k] < i + 1
                    && is_exit_signal(
                    signals@[k],
                    ps[idx[k]],
                    price_in(snapshots@, ps[idx[k]].token_address@, ps[idx[k]].entry_price),
                    target,
                ) by {
                    if k < prev.len() {
                        assert(idx[k] == prev[k]);
                    }
                }
            }
            i = i + 1;
        }
        assert(ps.subrange(0, n as int) =~= ps);
        Ok(signals)
    }

    fn find_position(&self, a: &String) -> (r: Option<usize>)
        requires
            positions_unique(self.positions()),
        ensures
            match r {
                Some(i) => i < self.positions().len() && holds(self.positions(), a@) && index_of(
                    self.positions(),
                    a@,
                ) == i,
                None => !holds(self.positions(), a@),
            },
    {
        let n = self.positions.len();
        let mut i: usize = 0;
        while i < n
            invariant
                n == self.positions@.len(),
                i <= n,
                positions_unique(self.positions@),
                forall|k: int| 0 <= k < i ==> self.positions@[k].token_address@ != a@,
            decreases n - i,
        {
            if self.positions[i].token_address == *a {
                proof {
                    lemma_index_of(self.positions@, i as int);
                }
                return Some(i);
            }
            i = i + 1;
        }
        None
    }

    fn find_last_trade(&self, a: &String) -> (r: Option<usize>)
        requires
            stamps_unique(self.last_trades()),
        ensures
            match r {
                Some(i) => i < self.last_trades().len() && self.last_trades()[i as int].token_address@
                    == a@ && last_trade(self.last_trades(), a@) == Some(
                    self.last_trades()[i as int].at,
                ),
                None => last_trade(self.last_trades(), a@) is None,
            },
    {
        let n = self.last_trade_time.len();
        let mut i: usize = 0;
        while i < n
            invariant
                n == self.last_trade_time@.len(),
                i <= n,
                stamps_unique(self.last_trade_time@),
                forall|k: int| 0 <= k < i ==> self.last_trade_time@[k].token_address@ != a@,
            decreases n - i,
        {
            if self.last_trade_time[i].token_address == *a {
                proof {
                    lemma_last_trade_at(self.last_trade_time@, i as int);
                }
                return Some(i);
            }
            i = i + 1;
        }
        None
    }

    fn is_in_cooldown(&self, a: &String, now: i64) -> (r: bool)
        requires
            stamps_unique(self.last_trades()),
        ensures
            r == in_cooldown(self.last_trades(), a@, now, self.cooldown_seconds()),
    {
        match self.find_last_trade(a) {
            Some(i) => (now as i128 - self.last_trade_time[i].at as i128) < self.cooldown_seconds
                as i128,
            None => false,
        }
    }

    /// Records a trade on `a` at `now`.
    fn stamp(&mut self, a: String, now: i64)
        requires
            stamps_unique(old(self).last_trades()),
        ensures
            stamped(old(self).last_trades(), final(self).last_trades(), a@, now),
            final(self).positions() == old(self).positions(),
            final(self).trades() == old(self).trades(),
            final(self).same_limits(old(self)),
    {
        let ghost pre = self.last_trade_time@;
        match self.find_last_trade(&a) {
            Some(i) => {
                self.last_trade_time.set(i, LastTrade { token_address: a, at: now });
                proof {
                    let post = self.last_trade_time@;
                    assert(post =~= pre.update(i as int, post[i as int]));
                    assert(stamps_unique(post)) by {
                        assert forall|x: int, y: int|
                            0 <= x < post.len() && 0 <= y < post.len() && x != y implies post[x].token_address@
                            != post[y].token_address@ by {
                            if x != i && y != i {
                                assert(post[x] == pre[x] && post[y] == pre[y]);
                            } else if x == i {
                                assert(post[y] == pre[y]);
                            } else {
                                assert(post[x] == pre[x]);
                            }
                        }
                    }
                    lemma_last_trade_at(post, i as int);
                    lemma_others_kept(pre, post, a@);
                }
            },
            None => {
                self.last_trade_time.push(LastTrade { token_address: a, at: now });
                proof {
                    let post = self.last_trade_time@;
                    let n = pre.len() as int;
                    assert(post.drop_last() =~= pre);
                    assert forall|x: int| 0 <= x < n implies pre[x].token_address@ != a@ by {
                        if pre[x].token_address@ == a@ {
                            assert(0 <= x < pre.len() && pre[x].token_address@ == a@);
                        }
                    }
                    assert(stamps_unique(post)) by {
                        assert forall|x: int, y: int|
                            0 <= x < post.len() && 0 <= y < post.len() && x != y implies post[x].token_address@
                            != post[y].token_address@ by {
                            if x < n && y < n {
                                assert(post[x] == pre[x] && post[y] == pre[y]);
                            } else if x == n {
                                assert(post[y] == pre[y]);
                            } else {
                                assert(post[x] == pre[x]);
                            }
                        }
                    }
                    lemma_last_trade_at(post, n);
                    lemma_others_kept(pre, post, a@);
                }
            },
        }
    }
}

/// Records on assets other than `a` are the same in `pre` and `post`.
proof fn lemma_others_kept(pre: Seq<LastTrade>, post: Seq<LastTrade>, a: Seq<char>)
    requires
        stamps_unique(pre),
        stamps_unique(post),
        pre.len() <= post.len(),
        forall|k: int| 0 <= k < pre.len() && pre[k].token_address@ != a ==> post[k] == pre[k],
        forall|k: int| pre.len() <= k < post.len() ==> post[k].token_address@ == a,
        forall|k: int| 0 <= k < pre.len() ==> (pre[k].token_address@ == a <==> post[k].token_address@ == a),
    ensures
        forall|b: Seq<char>| b != a ==> last_trade(post, b) == last_trade(pre, b),
{
    assert forall|b: Seq<char>| b != a implies last_trade(post, b) == last_trade(pre, b) by {
        if exists|k: int| 0 <= k < pre.len() && pre[k].token_address@ == b {
            let k = choose|k: int| 0 <= k < pre.len() && pre[k].token_address@ == b;
            lemma_last_trade_at(pre, k);
            lemma_last_trade_at(post, k);
        } else {
            assert(!exists|k: int| 0 <= k < post.len() && post[k].token_address@ == b) by {
                if exists|k: int| 0 <= k < post.len() && post[k].token_address@ == b {
                    let k = choose|k: int| 0 <= k < post.len() && post[k].token_address@ == b;
                    if k < pre.len() {
                        assert(post[k] == pre[k]);
                    }
                }
            }
        }
    }
}

} // verus!
