//! Metrics recomputed from the trade history, and alerts raised on them.
//!
//! Delivering alerts to a webhook is I/O and happens outside this library;
//! the alerts that an update appends are the ones to deliver.

use vstd::prelude::*;
use crate::clock::{fresh_id, unix_now};
use crate::fixed::{push_signed_two_places, push_two_places, signed_two_places, two_places, SCALE};
use crate::trading::{Position, Trade};

verus! {

/// Aggregate figures of the trading so far. Money is in millionths of a
/// dollar, rates in millionths of a percent, times in seconds.
#[derive(Debug, Clone, Copy, PartialEq, Eq, Structural)]
pub struct BotMetrics {
    pub total_trades: usize,
    pub winning_trades: usize,
    pub losing_trades: usize,
    pub total_profit_loss: i128,
    pub win_rate: u64,
    pub average_profit: u128,
    pub average_loss: u128,
    pub max_drawdown: u128,
    pub current_positions: usize,
    pub total_volume_traded: u128,
    pub uptime_seconds: u64,
    pub last_updated: i64,
}

impl Default for BotMetrics {
    /// Every figure zero, stamped with the current time.
    fn default() -> (r: Self)
        ensures
            r.total_trades == 0,
            r.winning_trades == 0,
            r.losing_trades == 0,
            r.total_profit_loss == 0,
            r.win_rate == 0,
            r.average_profit == 0,
            r.average_loss == 0,
            r.max_drawdown == 0,
            r.current_positions == 0,
            r.total_volume_traded == 0,
            r.uptime_seconds == 0,
    {
        zero_metrics(unix_now())
    }
}

fn zero_metrics(now: i64) -> (r: BotMetrics)
    ensures
        r == metrics_of(seq![], 0, now, now),
{
    BotMetrics {
        total_trades: 0,
        winning_trades: 0,
        losing_trades: 0,
        total_profit_loss: 0,
        win_rate: 0,
        average_profit: 0,
        average_loss: 0,
        max_drawdown: 0,
        current_positions: 0,
        total_volume_traded: 0,
        uptime_seconds: 0,
        last_updated: now,
    }
}

#[derive(Debug, Clone, Copy, PartialEq, Eq, Structural)]
pub enum AlertLevel {
    Info,
    Warning,
    Error,
    Critical,
}

/// A raised alert; only its acknowledgement ever changes.
#[derive(Debug, Clone)]
pub struct Alert {
    pub id: String,
    pub level: AlertLevel,
    pub message: String,
    pub timestamp: i64,
    pub acknowledged: bool,
}

impl Alert {
    /// An equal copy of this alert.
    pub fn copied(&self) -> (r: Alert)
        ensures
            r == *self,
    {
        Alert {
            id: self.id.clone(),
            level: self.level,
            message: self.message.clone(),
            timestamp: self.timestamp,
            acknowledged: self.acknowledged,
        }
    }
}

/// Alert thresholds, in millionths: the drawdown and the loss are compared
/// with the money figures as they are.
#[derive(Debug, Clone, Copy, PartialEq, Eq, Structural)]
pub struct AlertThresholds {
    pub max_drawdown_percent: i64,
    pub min_daily_profit_percent: i64,
    pub max_daily_loss_percent: i64,
}

impl Default for AlertThresholds {
    fn default() -> (r: Self)
        ensures
            r.max_drawdown_percent == 20_000_000,
            r.min_daily_profit_percent == 5_000_000,
            r.max_daily_loss_percent == 15_000_000,
    {
        AlertThresholds {
            max_drawdown_percent: 20_000_000,
            min_daily_profit_percent: 5_000_000,
            max_daily_loss_percent: 15_000_000,
        }
    }
}

/// The realized profit or loss of a trade, zero where it has none.
pub open spec fn pnl_of(t: Trade) -> int {
    match t.profit_loss {
        Some(v) => v as int,
        None => 0,
    }
}

pub open spec fn is_win(t: Trade) -> bool {
    t.profit_loss matches Some(v) && v > 0
}

pub open spec fn is_loss(t: Trade) -> bool {
    t.profit_loss matches Some(v) && v < 0
}

/// Cumulative realized profit or loss.
pub open spec fn total_pnl(s: Seq<Trade>) -> int
    decreases s.len(),
{
    if s.len() == 0 {
        0
    } else {
        total_pnl(s.drop_last()) + pnl_of(s.last())
    }
}

pub open spec fn wins(s: Seq<Trade>) -> nat
    decreases s.len(),
{
    if s.len() == 0 {
        0
    } else {
        wins(s.drop_last()) + if is_win(s.last()) { 1nat } else { 0nat }
    }
}

pub open spec fn losses(s: Seq<Trade>) -> nat
    decreases s.len(),
{
    if s.len() == 0 {
        0
    } else {
        losses(s.drop_last()) + if is_loss(s.last()) { 1nat } else { 0nat }
    }
}

/// Sum of the winning profits.
pub open spec fn win_sum(s: Seq<Trade>) -> int
    decreases s.len(),
{
    if s.len() == 0 {
        0
    } else {
        win_sum(s.drop_last()) + if is_win(s.last()) { pnl_of(s.last()) } else { 0 }
    }
}

/// Sum of the losses, as a non-positive number.
pub open spec fn loss_sum(s: Seq<Trade>) -> int
    decreases s.len(),
{
    if s.len() == 0 {
        0
    } else {
        loss_sum(s.drop_last()) + if is_loss(s.last()) { pnl_of(s.last()) } else { 0 }
    }
}

pub open spec fn volume(s: Seq<Trade>) -> int
    decreases s.len(),
{
    if s.len() == 0 {
        0
    } else {
        volume(s.drop_last()) + s.last().amount
    }
}

/// The highest cumulative profit or loss reached, and never below zero.
pub open spec fn peak(s: Seq<Trade>) -> int
    decreases s.len(),
{
    if s.len() == 0 {
        0
    } else {
        let p = peak(s.drop_last());
        if total_pnl(s) > p {
            total_pnl(s)
        } else {
            p
        }
    }
}

/// The largest gap between the peak and the cumulative profit or loss, over
/// the trades in history order.
pub open spec fn drawdown(s: Seq<Trade>) -> int
    decreases s.len(),
{
    if s.len() == 0 {
        0
    } else {
        let d = drawdown(s.drop_last());
        if peak(s) - total_pnl(s) > d {
            peak(s) - total_pnl(s)
        } else {
            d
        }
    }
}

/// The metrics of trade history `s` with `positions` open positions, at
/// time `now` for a system started at `start`.
pub open spec fn metrics_of(s: Seq<Trade>, positions: nat, now: i64, start: i64) -> BotMetrics {
    BotMetrics {
        total_trades: s.len() as usize,
        winning_trades: wins(s) as usize,
        losing_trades: losses(s) as usize,
        total_profit_loss: total_pnl(s) as i128,
        win_rate: if s.len() > 0 {
            (wins(s) * 100 * SCALE as int / s.len() as int) as u64
        } else {
            0
        },
        average_profit: if wins(s) > 0 {
            (win_sum(s) / wins(s) as int) as u128
        } else {
            0
        },
        average_loss: if losses(s) > 0 {
            (-loss_sum(s) / losses(s) as int) as u128
        } else {
            0
        },
        max_drawdown: drawdown(s) as u128,
        current_positions: positions as usize,
        total_volume_traded: volume(s) as u128,
        uptime_seconds: if now >= start {
            (now - start) as u64
        } else {
            0
        },
        last_updated: now,
    }
}

/// The absolute value.
pub open spec fn magnitude(v: int) -> nat {
    if v < 0 {
        (-v) as nat
    } else {
        v as nat
    }
}

/// The alerts that metrics `m` raise under thresholds `th`, in rule order,
/// as level and message.
pub open spec fn raised(m: BotMetrics, th: AlertThresholds) -> Seq<(AlertLevel, Seq<char>)> {
    let drawdown = if m.max_drawdown > th.max_drawdown_percent {
        seq![
            (
                AlertLevel::Warning,
                "Max drawdown exceeded: "@ + two_places(m.max_drawdown as nat) + "% (threshold: "@
                    + signed_two_places(th.max_drawdown_percent as int) + "%)"@,
            ),
        ]
    } else {
        seq![]
    };
    let loss = if m.total_profit_loss < -th.max_daily_loss_percent {
        seq![
            (
                AlertLevel::Error,
                "Daily loss exceeded: "@ + two_places(magnitude(m.total_profit_loss as int))
                    + "% (threshold: "@ + signed_two_places(th.max_daily_loss_percent as int)
                    + "%)"@,
            ),
        ]
    } else {
        seq![]
    };
    let win_rate = if m.total_trades > 10 && m.win_rate < 30 * SCALE {
        seq![(AlertLevel::Warning, "Low win rate: "@ + two_places(m.win_rate as nat) + "%"@)]
    } else {
        seq![]
    };
    drawdown + loss + win_rate
}

/// Whether alert `a` is the fresh alert `e` raised at `now`.
pub open spec fn is_fresh_alert(a: Alert, e: (AlertLevel, Seq<char>), now: i64) -> bool {
    &&& a.level == e.0
    &&& a.message@ == e.1
    &&& a.timestamp == now
    &&& !a.acknowledged
}

/// `post` is `pre` followed by the fresh alerts `es` raised at `now`.
pub open spec fn appended(
    pre: Seq<Alert>,
    post: Seq<Alert>,
    es: Seq<(AlertLevel, Seq<char>)>,
    now: i64,
) -> bool {
    &&& post.len() == pre.len() + es.len()
    &&& post.subrange(0, pre.len() as int) == pre
    &&& forall|k: int| 0 <= k < es.len() ==> is_fresh_alert(#[trigger] post[pre.len() + k], es[k], now)
}

/// The first alert with identifier `id`, if any.
pub open spec fn first_with_id(s: Seq<Alert>, id: Seq<char>, i: int) -> bool {
    &&& 0 <= i < s.len()
    &&& s[i].id@ == id
    &&& forall|j: int| 0 <= j < i ==> s[j].id@ != id
}

pub open spec fn unacknowledged() -> spec_fn(Alert) -> bool {
    |a: Alert| !a.acknowledged
}

/// The trade count of the metrics is the length of the history, and the win
/// rate of an empty history is zero.
pub proof fn lemma_trade_count(s: Seq<Trade>, positions: nat, now: i64, start: i64)
    requires
        s.len() <= usize::MAX,
    ensures
        metrics_of(s, positions, now, start).total_trades == s.len(),
        s.len() == 0 ==> metrics_of(s, positions, now, start).win_rate == 0,
{
}

/// Updating twice at the same time with an unchanged history and position
/// set gives identical metrics, the maximum drawdown included.
pub proof fn lemma_update_idempotent(
    m0: MonitoringSystem,
    m1: MonitoringSystem,
    m2: MonitoringSystem,
    s: Seq<Trade>,
    positions: nat,
    now: i64,
)
    requires
        m1.same_settings(&m0),
        m1.metrics() == metrics_of(s, positions, now, m0.start_time()),
        m2.metrics() == metrics_of(s, positions, now, m1.start_time()),
    ensures
        m2.metrics() == m1.metrics(),
        m2.metrics().max_drawdown == drawdown(s) as u128,
{
}

proof fn lemma_appended_none(pre: Seq<Alert>, now: i64)
    ensures
        appended(pre, pre, seq![], now),
{
    assert(pre.subrange(0, pre.len() as int) =~= pre);
}

proof fn lemma_appended_one(
    pre: Seq<Alert>,
    mid: Seq<Alert>,
    post: Seq<Alert>,
    es: Seq<(AlertLevel, Seq<char>)>,
    e: (AlertLevel, Seq<char>),
    now: i64,
)
    requires
        appended(pre, mid, es, now),
        post.len() == mid.len() + 1,
        post.drop_last() == mid,
        is_fresh_alert(post.last(), e, now),
    ensures
        appended(pre, post, es.push(e), now),
{
    assert(post.subrange(0, pre.len() as int) =~= mid.subrange(0, pre.len() as int));
    let es2 = es.push(e);
    assert forall|k: int| 0 <= k < es2.len() implies is_fresh_alert(
        #[trigger] post[pre.len() + k],
        es2[k],
        now,
    ) by {
        if k < es.len() {
            assert(post[pre.len() + k] == mid[pre.len() + k]);
        }
    }
}

/// `peak - running` for `running <= peak` and `0 <= peak`.
fn gap(peak: i128, running: i128) -> (r: u128)
    requires
        running <= peak,
        0 <= peak,
    ensures
        r == peak - running,
{
    if running >= 0 {
        (peak - running) as u128
    } else {
        (peak as u128) + ((-(running + 1)) as u128) + 1
    }
}

/// Figures of a trade history, and the system's alerts.
pub struct MonitoringSystem {
    metrics: BotMetrics,
    alerts: Vec<Alert>,
    start_time: i64,
    webhook_url: Option<String>,
    alert_thresholds: AlertThresholds,
}

impl MonitoringSystem {
    pub closed spec fn metrics(&self) -> BotMetrics {
        self.metrics
    }

    pub closed spec fn alerts(&self) -> Seq<Alert> {
        self.alerts@
    }

    pub closed spec fn start_time(&self) -> i64 {
        self.start_time
    }

    pub closed spec fn webhook_url(&self) -> Option<String> {
        self.webhook_url
    }

    pub closed spec fn thresholds(&self) -> AlertThresholds {
        self.alert_thresholds
    }

    /// The same start time, webhook and thresholds in `self` and `other`.
    pub open spec fn same_settings(&self, other: &MonitoringSystem) -> bool {
        &&& self.start_time() == other.start_time()
        &&& self.webhook_url() == other.webhook_url()
        &&& self.thresholds() == other.thresholds()
    }

    /// A system started now.
    pub fn new(webhook_url: Option<String>, alert_thresholds: AlertThresholds) -> (r: Self)
        ensures
            r.alerts().len() == 0,
            r.webhook_url() == webhook_url,
            r.thresholds() == alert_thresholds,
            r.metrics() == metrics_of(seq![], 0, r.start_time(), r.start_time()),
    {
        MonitoringSystem::new_at(webhook_url, alert_thresholds, unix_now())
    }

    /// A system started at `now`.
    pub fn new_at(webhook_url: Option<String>, alert_thresholds: AlertThresholds, now: i64) -> (r:
        Self)
        ensures
            r.alerts().len() == 0,
            r.start_time() == now,
            r.webhook_url() == webhook_url,
            r.thresholds() == alert_thresholds,
            r.metrics() == metrics_of(seq![], 0, now, now),
    {
        MonitoringSystem {
            metrics: zero_metrics(now),
            alerts: Vec::new(),
            start_time: now,
            webhook_url,
            alert_thresholds,
        }
    }

    pub fn get_metrics(&self) -> (r: &BotMetrics)
        ensures
            *r == self.metrics(),
    {
        &self.metrics
    }

    pub fn get_alerts(&self) -> (r: &[Alert])
        ensures
            r@ == self.alerts(),
    {
        self.alerts.as_slice()
    }

    pub fn get_webhook_url(&self) -> (r: &Option<String>)
        ensures
            *r == self.webhook_url(),
    {
        &self.webhook_url
    }

    /// Recomputes the metrics from the whole trade history at the current
    /// time, then appends the alerts they raise; see [`update_metrics_at`].
    pub fn update_metrics(&mut self, trades: &Vec<Trade>, positions: &Vec<Position>)
        ensures
            final(self).same_settings(old(self)),
            exists|now: i64|
                {
                    &&& final(self).metrics() == metrics_of(
                        trades@,
                        positions@.len(),
                        now,
                        old(self).start_time(),
                    )
                    &&& appended(
                        old(self).alerts(),
                        final(self).alerts(),
                        raised(final(self).metrics(), old(self).thresholds()),
                        now,
                    )
                },
    {
        let now = unix_now();
        self.update_metrics_at(trades, positions, now);
    }

    /// Recomputes the metrics from the whole trade history and the number of
    /// open positions, at time `now`; then appends, in rule order, a warning
    /// when the drawdown exceeds its threshold, an error when the cumulative
    /// profit or loss is below the negated loss threshold, and a warning when
    /// more than ten trades have a win rate under 30%.
    pub fn update_metrics_at(&mut self, trades: &Vec<Trade>, positions: &Vec<Position>, now: i64)
        ensures
            final(self).same_settings(old(self)),
            final(self).metrics() == metrics_of(
                trades@,
                positions@.len(),
                now,
                old(self).start_time(),
            ),
            appended(
                old(self).alerts(),
                final(self).alerts(),
                raised(final(self).metrics(), old(self).thresholds()),
                now,
            ),
    {
        let ghost s = trades@;
        let n = trades.len();
        let mut total: i128 = 0;
        let mut win_count: usize = 0;
        let mut loss_count: usize = 0;
        let mut won: i128 = 0;
        let mut lost: i128 = 0;
        let mut traded: u128 = 0;
        let mut top: i128 = 0;
        let mut deepest: u128 = 0;
        let mut i: usize = 0;
        while i < n
            invariant
                n == s.len(),
                s == trades@,
                i <= n <= 0xffff_ffff_ffff_ffff,
                total == total_pnl(s.subrange(0, i as int)),
                win_count == wins(s.subrange(0, i as int)),
                loss_count == losses(s.subrange(0, i as int)),
                won == win_sum(s.subrange(0, i as int)),
                lost == loss_sum(s.subrange(0, i as int)),
                traded == volume(s.subrange(0, i as int)),
                top == peak(s.subrange(0, i as int)),
                deepest == drawdown(s.subrange(0, i as int)),
                -(i * 0x8000_0000_0000_0000) <= total <= i * 0x8000_0000_0000_0000,
                win_count <= i,
                loss_count <= i,
                0 <= won <= i * 0x8000_0000_0000_0000,
                -(i * 0x8000_0000_0000_0000) <= lost <= 0,
                traded <= i * 0xffff_ffff_ffff_ffff,
                total <= top <= i * 0x8000_0000_0000_0000,
                0 <= top,
                deepest <= 2 * i * 0x8000_0000_0000_0000,
            decreases n - i,
        {
            let ghost before = s.subrange(0, i as int);
            let ghost upto = s.subrange(0, i + 1);
            proof {
                assert(upto.drop_last() =~= before);
                assert(upto.last() == s[i as int]);
            }
            let t = &trades[i];
            traded = traded + t.amount as u128;
            match t.profit_loss {
                Some(pl) => {
                    total = total + pl as i128;
                    if pl > 0 {
                        win_count = win_count + 1;
                        won = won + pl as i128;
                    } else if pl < 0 {
                        loss_count = loss_count + 1;
                        lost = lost + pl as i128;
                    }
                },
                None => {},
            }
            if total > top {
                top = total;
            }
            let g = gap(top, total);
            if g > deepest {
                deepest = g;
            }
            i = i + 1;
        }
        assert(s.subrange(0, n as int) =~= s);
        let win_rate: u64 = if n > 0 {
            let w = win_count as u128;
            let q = w * 100_000_000 / (n as u128);
            proof {
                assert(q <= 100_000_000) by (nonlinear_arith)
                    requires
                        q == w * 100_000_000 / (n as int),
                        w <= n,
                        n > 0,
                ;
            }
            q as u64
        } else {
            0
        };
        let average_profit: u128 = if win_count > 0 {
            (won as u128) / (win_count as u128)
        } else {
            0
        };
        let average_loss: u128 = if loss_count > 0 {
            ((-lost) as u128) / (loss_count as u128)
        } else {
            0
        };
        let uptime: u64 = if now >= self.start_time {
            (now as i128 - self.start_time as i128) as u64
        } else {
            0
        };
        self.metrics = BotMetrics {
            total_trades: n,
            winning_trades: win_count,
            losing_trades: loss_count,
            total_profit_loss: total,
            win_rate,
            average_profit,
            average_loss,
            max_drawdown: deepest,
            current_positions: positions.len(),
            total_volume_traded: traded,
            uptime_seconds: uptime,
            last_updated: now,
        };
        self.check_alerts(now);
    }

    fn check_alerts(&mut self, now: i64)
        ensures
            final(self).same_settings(old(self)),
            final(self).metrics() == old(self).metrics(),
            appended(
                old(self).alerts(),
                final(self).alerts(),
                raised(old(self).metrics(), old(self).thresholds()),
                now,
            ),
    {
        let ghost pre = self.alerts@;
        let m = self.metrics;
        let th = self.alert_thresholds;
        let ghost es = raised(m, th);
        let ghost mut seen: Seq<(AlertLevel, Seq<char>)> = seq![];
        proof {
            lemma_appended_none(pre, now);
        }
        if th.max_drawdown_percent < 0 || m.max_drawdown > th.max_drawdown_percent as u128 {
            let mut msg = String::from_str("Max drawdown exceeded: ");
            push_two_places(&mut msg, m.max_drawdown);
            msg.append("% (threshold: ");
            push_signed_two_places(&mut msg, th.max_drawdown_percent as i128);
            msg.append("%)");
            let ghost mid = self.alerts@;
            let ghost e = (AlertLevel::Warning, msg@);
            self.add_alert(AlertLevel::Warning, msg, now);
            proof {
                lemma_appended_one(pre, mid, self.alerts@, seen, e, now);
                seen = seen.push(e);
            }
        }
        proof {
            assert(appended(pre, self.alerts@, seen, now));
        }
        if m.total_profit_loss < -(th.max_daily_loss_percent as i128) {
            let mag: u128 = if m.total_profit_loss < 0 {
                if m.total_profit_loss == i128::MIN {
                    0x8000_0000_0000_0000_0000_0000_0000_0000u128
                } else {
                    (-m.total_profit_loss) as u128
                }
            } else {
                m.total_profit_loss as u128
            };
            let mut msg = String::from_str("Daily loss exceeded: ");
            push_two_places(&mut msg, mag);
            msg.append("% (threshold: ");
            push_signed_two_places(&mut msg, th.max_daily_loss_percent as i128);
            msg.append("%)");
            let ghost mid = self.alerts@;
            let ghost e = (AlertLevel::Error, msg@);
            self.add_alert(AlertLevel::Error, msg, now);
            proof {
                lemma_appended_one(pre, mid, self.alerts@, seen, e, now);
                seen = seen.push(e);
            }
        }
        proof {
            assert(appended(pre, self.alerts@, seen, now));
        }
        if m.total_trades > 10 && m.win_rate < 30_000_000 {
            let mut msg = String::from_str("Low win rate: ");
            push_two_places(&mut msg, m.win_rate as u128);
            msg.append("%");
            let ghost mid = self.alerts@;
            let ghost e = (AlertLevel::Warning, msg@);
            self.add_alert(AlertLevel::Warning, msg, now);
            proof {
                lemma_appended_one(pre, mid, self.alerts@, seen, e, now);
                seen = seen.push(e);
            }
        }
        assert(seen =~= es);
    }

    fn add_alert(&mut self, level: AlertLevel, message: String, now: i64)
        ensures
            final(self).same_settings(old(self)),
            final(self).metrics() == old(self).metrics(),
            final(self).alerts().len() == old(self).alerts().len() + 1,
            final(self).alerts().drop_last() == old(self).alerts(),
            is_fresh_alert(final(self).alerts().last(), (level, message@), now),
    {
        let ghost msg = message@;
        self.alerts.push(
            Alert { id: fresh_id(), level, message, timestamp: now, acknowledged: false },
        );
        assert(self.alerts@.drop_last() =~= old(self).alerts@);
    }

    /// Marks the first alert with identifier `alert_id` as acknowledged;
    /// false, and nothing changed, when there is none.
    pub fn acknowledge_alert(&mut self, alert_id: &str) -> (r: bool)
        ensures
            final(self).metrics() == old(self).metrics(),
            final(self).same_settings(old(self)),
            r == exists|i: int| 0 <= i < old(self).alerts().len() && old(self).alerts()[i].id@ == alert_id@,
            !r ==> final(self).alerts() == old(self).alerts(),
            r ==> exists|i: int|
                first_with_id(old(self).alerts(), alert_id@, i) && final(self).alerts() == old(
                    self,
                ).alerts().update(i, Alert { acknowledged: true, ..old(self).alerts()[i] }),
    {
        let key = String::from_str(alert_id);
        let n = self.alerts.len();
        let mut i: usize = 0;
        while i < n
            invariant
                n == self.alerts@.len(),
                i <= n,
                *self == *old(self),
                key@ == alert_id@,
                forall|j: int| 0 <= j < i ==> self.alerts@[j].id@ != alert_id@,
            decreases n - i,
        {
            if self.alerts[i].id == key {
                let a = &self.alerts[i];
                let acked = Alert {
                    id: a.id.clone(),
                    level: a.level,
                    message: a.message.clone(),
                    timestamp: a.timestamp,
                    acknowledged: true,
                };
                self.alerts.set(i, acked);
                assert(first_with_id(old(self).alerts(), alert_id@, i as int));
                return true;
            }
            i = i + 1;
        }
        false
    }

    /// Copies of the alerts not yet acknowledged, in order.
    pub fn get_unacknowledged_alerts(&self) -> (r: Vec<Alert>)
        ensures
            r@ == self.alerts().filter(unacknowledged()),
    {
        let mut kept: Vec<Alert> = Vec::new();
        let n = self.alerts.len();
        let mut i: usize = 0;
        while i < n
            invariant
                n == self.alerts@.len(),
                i <= n,
                kept@ == self.alerts@.subrange(0, i as int).filter(unacknowledged()),
            decreases n - i,
        {
            proof {
                reveal(Seq::filter);
                let next = self.alerts@.subrange(0, i + 1);
                assert(next.drop_last() =~= self.alerts@.subrange(0, i as int));
                assert(next.last() == self.alerts@[i as int]);
            }
            if !self.alerts[i].acknowledged {
                kept.push(self.alerts[i].copied());
            }
            assert(kept@ == self.alerts@.subrange(0, i + 1).filter(unacknowledged()));
            i = i + 1;
        }
        assert(self.alerts@.subrange(0, n as int) =~= self.alerts@);
        kept
    }
}

} // verus!
