//! Rule-based strategies that turn one asset snapshot into buy signals.

use vstd::prelude::*;
use crate::error::Result;
use crate::fixed::{
    push_digits, push_ratio, push_signed_two_places, push_whole, ratio, ratio_at_least,
    ratio_meets, ratio_of, ratio_share, ratio_text, signed_two_places, unit_share, whole_text,
    digits, SCALE,
};
use crate::pumpportal::TokenInfo;

verus! {

/// The strategies of the catalog.
#[derive(Debug, Clone, Copy, PartialEq, Eq, Structural)]
pub enum TradingStrategy {
    Momentum,
    MeanReversion,
    Breakout,
    VolumeSpike,
    HolderGrowth,
}

/// The names of the tunable parameters.
#[derive(Debug, Clone, Copy, PartialEq, Eq, Structural)]
pub enum ParamKey {
    MinPriceChange,
    MinVolumeRatio,
    MaxPriceChange,
    MinLiquidityRatio,
    MinVolumeSpike,
    MinPriceMomentum,
    MinVolumeMultiplier,
    MinHolders,
    MinMarketCap,
}

/// A mapping from parameter name to value (in millionths); a missing entry
/// makes the strategy use its own default.
#[derive(Debug, Clone, Copy, PartialEq, Eq, Structural)]
pub struct StrategyParams {
    pub min_price_change: Option<i64>,
    pub min_volume_ratio: Option<i64>,
    pub max_price_change: Option<i64>,
    pub min_liquidity_ratio: Option<i64>,
    pub min_volume_spike: Option<i64>,
    pub min_price_momentum: Option<i64>,
    pub min_volume_multiplier: Option<i64>,
    pub min_holders: Option<i64>,
    pub min_market_cap: Option<i64>,
}

impl StrategyParams {
    pub open spec fn value(self, k: ParamKey) -> Option<i64> {
        match k {
            ParamKey::MinPriceChange => self.min_price_change,
            ParamKey::MinVolumeRatio => self.min_volume_ratio,
            ParamKey::MaxPriceChange => self.max_price_change,
            ParamKey::MinLiquidityRatio => self.min_liquidity_ratio,
            ParamKey::MinVolumeSpike => self.min_volume_spike,
            ParamKey::MinPriceMomentum => self.min_price_momentum,
            ParamKey::MinVolumeMultiplier => self.min_volume_multiplier,
            ParamKey::MinHolders => self.min_holders,
            ParamKey::MinMarketCap => self.min_market_cap,
        }
    }

    /// The value of `k`, or `default` where it is not set.
    pub open spec fn value_or(self, k: ParamKey, default: i64) -> i64 {
        match self.value(k) {
            Some(v) => v,
            None => default,
        }
    }

    /// No parameter set.
    pub fn new() -> (r: Self)
        ensures
            forall|k: ParamKey| r.value(k) is None,
    {
        StrategyParams {
            min_price_change: None,
            min_volume_ratio: None,
            max_price_change: None,
            min_liquidity_ratio: None,
            min_volume_spike: None,
            min_price_momentum: None,
            min_volume_multiplier: None,
            min_holders: None,
            min_market_cap: None,
        }
    }

    pub fn get(&self, k: ParamKey) -> (r: Option<i64>)
        ensures
            r == self.value(k),
    {
        match k {
            ParamKey::MinPriceChange => self.min_price_change,
            ParamKey::MinVolumeRatio => self.min_volume_ratio,
            ParamKey::MaxPriceChange => self.max_price_change,
            ParamKey::MinLiquidityRatio => self.min_liquidity_ratio,
            ParamKey::MinVolumeSpike => self.min_volume_spike,
            ParamKey::MinPriceMomentum => self.min_price_momentum,
            ParamKey::MinVolumeMultiplier => self.min_volume_multiplier,
            ParamKey::MinHolders => self.min_holders,
            ParamKey::MinMarketCap => self.min_market_cap,
        }
    }

    /// Sets `k` to `v`, leaving the other parameters as they were.
    pub fn insert(&mut self, k: ParamKey, v: i64)
        ensures
            final(self).value(k) == Some(v),
            forall|j: ParamKey| j != k ==> final(self).value(j) == old(self).value(j),
    {
        match k {
            ParamKey::MinPriceChange => self.min_price_change = Some(v),
            ParamKey::MinVolumeRatio => self.min_volume_ratio = Some(v),
            ParamKey::MaxPriceChange => self.max_price_change = Some(v),
            ParamKey::MinLiquidityRatio => self.min_liquidity_ratio = Some(v),
            ParamKey::MinVolumeSpike => self.min_volume_spike = Some(v),
            ParamKey::MinPriceMomentum => self.min_price_momentum = Some(v),
            ParamKey::MinVolumeMultiplier => self.min_volume_multiplier = Some(v),
            ParamKey::MinHolders => self.min_holders = Some(v),
            ParamKey::MinMarketCap => self.min_market_cap = Some(v),
        }
    }

    fn get_or(&self, k: ParamKey, default: i64) -> (r: i64)
        ensures
            r == self.value_or(k, default),
    {
        match self.get(k) {
            Some(v) => v,
            None => default,
        }
    }
}

/// One configured strategy.
#[derive(Debug, Clone, Copy, PartialEq, Eq, Structural)]
pub struct StrategyConfig {
    pub strategy: TradingStrategy,
    pub parameters: StrategyParams,
    pub enabled: bool,
}

impl Default for StrategyConfig {
    /// An enabled momentum strategy with every parameter at its usual value.
    fn default() -> (r: Self)
        ensures
            r.strategy == TradingStrategy::Momentum,
            r.enabled,
            r.parameters.min_price_change == Some(5_000_000i64),
            r.parameters.min_volume_ratio == Some(2_000_000i64),
            r.parameters.max_price_change == Some(-10_000_000i64),
            r.parameters.min_liquidity_ratio == Some(100_000i64),
            r.parameters.min_volume_spike == Some(3_000_000i64),
            r.parameters.min_price_momentum == Some(2_000_000i64),
            r.parameters.min_volume_multiplier == Some(5_000_000i64),
            r.parameters.min_holders == Some(100_000_000i64),
            r.parameters.min_market_cap == Some(500_000_000_000i64),
    {
        let mut parameters = StrategyParams::new();
        parameters.insert(ParamKey::MinPriceChange, 5_000_000);
        parameters.insert(ParamKey::MinVolumeRatio, 2_000_000);
        parameters.insert(ParamKey::MaxPriceChange, -10_000_000i64);
        parameters.insert(ParamKey::MinLiquidityRatio, 100_000);
        parameters.insert(ParamKey::MinVolumeSpike, 3_000_000);
        parameters.insert(ParamKey::MinPriceMomentum, 2_000_000);
        parameters.insert(ParamKey::MinVolumeMultiplier, 5_000_000);
        parameters.insert(ParamKey::MinHolders, 100_000_000);
        parameters.insert(ParamKey::MinMarketCap, 500_000_000_000);
        StrategyConfig { strategy: TradingStrategy::Momentum, parameters, enabled: true }
    }
}

/// What a signal recommends.
#[derive(Debug, Clone, Copy, PartialEq, Eq, Structural)]
pub enum Action {
    Buy,
    Sell,
    Hold,
}

/// A recommended action on one asset.
#[derive(Debug, Clone)]
pub struct TradingSignal {
    pub token: TokenInfo,
    pub action: Action,
    /// Confidence in millionths, in `[0, 1_000_000]` for every signal a strategy emits.
    pub confidence: u64,
    pub reason: String,
    /// Expected price in millionths of a dollar.
    pub expected_price: Option<u128>,
}

/// A parameter, a count in millionths, as a whole `u32`: the fraction is
/// dropped, negative values give 0 and large ones saturate.
pub open spec fn whole_u32(v: i64) -> u32 {
    if v <= 0 {
        0
    } else if v as int / SCALE as int > u32::MAX as int {
        u32::MAX
    } else {
        (v as int / SCALE as int) as u32
    }
}

/// A parameter, an amount in millionths, as a whole `u64`: the fraction is
/// dropped and negative values give 0.
pub open spec fn whole_u64(v: i64) -> u64 {
    if v <= 0 {
        0
    } else {
        (v as int / SCALE as int) as u64
    }
}

/// The finite value of a ratio that exists, zero otherwise.
pub open spec fn ratio_value(r: Option<u128>) -> u128 {
    match r {
        Some(v) => v,
        None => 0,
    }
}

/// `price * pct / 100`, rounded down.
pub open spec fn scaled_price(price: u64, pct: int) -> u128 {
    (price as int * pct / 100) as u128
}

/// Whether `s` is the buy signal on `t` with these confidence, reason and
/// expected-price multiplier (in percent).
pub open spec fn is_buy_signal(
    s: TradingSignal,
    t: TokenInfo,
    confidence: u64,
    reason: Seq<char>,
    price_pct: int,
) -> bool {
    &&& s.token == t
    &&& s.action == Action::Buy
    &&& s.confidence == confidence
    &&& s.reason@ == reason
    &&& s.expected_price == Some(scaled_price(t.price_usd, price_pct))
}

/// Volume over liquidity.
pub open spec fn volume_ratio(t: TokenInfo) -> Option<u128> {
    ratio_of(t.volume_24h, t.liquidity)
}

/// Holders per million dollars of market cap.
pub open spec fn holder_ratio(t: TokenInfo) -> Option<u128> {
    ratio_of((t.holders as int * SCALE as int) as u64, t.market_cap)
}

pub open spec fn momentum_fires(t: TokenInfo, p: StrategyParams) -> bool {
    &&& t.price_change_24h >= p.value_or(ParamKey::MinPriceChange, 5_000_000)
    &&& ratio_at_least(volume_ratio(t), p.value_or(ParamKey::MinVolumeRatio, 2_000_000))
}

pub open spec fn momentum_signal(s: TradingSignal, t: TokenInfo) -> bool {
    is_buy_signal(
        s,
        t,
        unit_share(t.price_change_24h as int, 100),
        "Momentum: Price up "@ + signed_two_places(t.price_change_24h as int) + "%, Volume ratio "@
            + ratio_text(ratio_value(volume_ratio(t))),
        110,
    )
}

pub open spec fn mean_reversion_fires(t: TokenInfo, p: StrategyParams) -> bool {
    &&& t.price_change_24h <= p.value_or(ParamKey::MaxPriceChange, -10_000_000i64)
    &&& ratio_at_least(
        ratio_of(t.liquidity, t.market_cap),
        p.value_or(ParamKey::MinLiquidityRatio, 100_000),
    )
}

pub open spec fn mean_reversion_signal(s: TradingSignal, t: TokenInfo) -> bool {
    is_buy_signal(
        s,
        t,
        unit_share(-t.price_change_24h, 100),
        "Mean Reversion: Price down "@ + signed_two_places(t.price_change_24h as int)
            + "%, Liquidity ratio "@ + ratio_text(ratio_value(ratio_of(t.liquidity, t.market_cap))),
        105,
    )
}

pub open spec fn breakout_fires(t: TokenInfo, p: StrategyParams) -> bool {
    &&& ratio_at_least(volume_ratio(t), p.value_or(ParamKey::MinVolumeSpike, 3_000_000))
    &&& t.price_change_24h >= p.value_or(ParamKey::MinPriceMomentum, 2_000_000)
}

pub open spec fn breakout_signal(s: TradingSignal, t: TokenInfo) -> bool {
    is_buy_signal(
        s,
        t,
        unit_share(ratio_value(volume_ratio(t)) as int, 10),
        "Breakout: Volume spike "@ + ratio_text(ratio_value(volume_ratio(t)))
            + "x, Price momentum "@ + signed_two_places(t.price_change_24h as int) + "%"@,
        115,
    )
}

pub open spec fn volume_spike_fires(t: TokenInfo, p: StrategyParams) -> bool {
    &&& ratio_at_least(volume_ratio(t), p.value_or(ParamKey::MinVolumeMultiplier, 5_000_000))
    &&& t.holders >= whole_u32(p.value_or(ParamKey::MinHolders, 50_000_000))
}

pub open spec fn volume_spike_signal(s: TradingSignal, t: TokenInfo) -> bool {
    is_buy_signal(
        s,
        t,
        unit_share(ratio_value(volume_ratio(t)) as int, 20),
        "Volume Spike: "@ + ratio_text(ratio_value(volume_ratio(t))) + "x volume, "@
            + digits(t.holders as nat) + " holders"@,
        120,
    )
}

pub open spec fn holder_growth_fires(t: TokenInfo, p: StrategyParams) -> bool {
    &&& t.holders >= whole_u32(p.value_or(ParamKey::MinHolders, 100_000_000))
    &&& t.market_cap >= whole_u64(p.value_or(ParamKey::MinMarketCap, 500_000_000_000))
    &&& ratio_at_least(holder_ratio(t), 100_000)
}

pub open spec fn holder_growth_signal(s: TradingSignal, t: TokenInfo) -> bool {
    is_buy_signal(
        s,
        t,
        unit_share(ratio_value(holder_ratio(t)) as int, 2),
        "Holder Growth: "@ + digits(t.holders as nat) + " holders, $"@ + whole_text(
            t.market_cap as nat,
        ) + "M market cap"@,
        108,
    )
}

/// Whether the configured strategy emits a signal on `t`.
pub open spec fn fires(c: StrategyConfig, t: TokenInfo) -> bool {
    c.enabled && match c.strategy {
        TradingStrategy::Momentum => momentum_fires(t, c.parameters),
        TradingStrategy::MeanReversion => mean_reversion_fires(t, c.parameters),
        TradingStrategy::Breakout => breakout_fires(t, c.parameters),
        TradingStrategy::VolumeSpike => volume_spike_fires(t, c.parameters),
        TradingStrategy::HolderGrowth => holder_growth_fires(t, c.parameters),
    }
}

/// Whether `s` is the signal that the configured strategy emits on `t`.
pub open spec fn signal_of(s: TradingSignal, c: StrategyConfig, t: TokenInfo) -> bool {
    match c.strategy {
        TradingStrategy::Momentum => momentum_signal(s, t),
        TradingStrategy::MeanReversion => mean_reversion_signal(s, t),
        TradingStrategy::Breakout => breakout_signal(s, t),
        TradingStrategy::VolumeSpike => volume_spike_signal(s, t),
        TradingStrategy::HolderGrowth => holder_growth_signal(s, t),
    }
}

/// Every signal a strategy emits, whatever the snapshot and the parameters,
/// has its confidence in the unit interval.
pub proof fn lemma_confidence_in_unit(s: TradingSignal, c: StrategyConfig, t: TokenInfo)
    requires
        signal_of(s, c, t),
    ensures
        s.confidence <= SCALE,
{
}

/// Positions, in order, of the configured strategies that emit a signal on `t`.
pub open spec fn firing(cs: Seq<StrategyConfig>, t: TokenInfo) -> Seq<int>
    decreases cs.len(),
{
    if cs.len() == 0 {
        seq![]
    } else {
        let before = firing(cs.drop_last(), t);
        if fires(cs.last(), t) {
            before.push(cs.len() - 1)
        } else {
            before
        }
    }
}

/// The least confidence at which a signal is acted on: one half.
pub const MIN_CONFIDENCE: u64 = 500_000;

/// Whether a signal is confident enough to be executed.
pub fn confident_enough(signal: &TradingSignal) -> (r: bool)
    ensures
        r == (signal.confidence >= MIN_CONFIDENCE),
{
    signal.confidence >= MIN_CONFIDENCE
}

/// The strategies the bot runs: momentum, volume spike and holder growth,
/// enabled, each with its own defaults.
pub fn default_strategies() -> (r: Vec<StrategyConfig>)
    ensures
        r@.len() == 3,
        r@[0].strategy == TradingStrategy::Momentum,
        r@[1].strategy == TradingStrategy::VolumeSpike,
        r@[2].strategy == TradingStrategy::HolderGrowth,
        forall|i: int| 0 <= i < 3 ==> (#[trigger] r@[i]).enabled,
        forall|i: int, k: ParamKey| 0 <= i < 3 ==> #[trigger] r@[i].parameters.value(k) is None,
{
    let mut r: Vec<StrategyConfig> = Vec::new();
    r.push(StrategyConfig { strategy: TradingStrategy::Momentum, parameters: StrategyParams::new(), enabled: true });
    r.push(StrategyConfig { strategy: TradingStrategy::VolumeSpike, parameters: StrategyParams::new(), enabled: true });
    r.push(StrategyConfig { strategy: TradingStrategy::HolderGrowth, parameters: StrategyParams::new(), enabled: true });
    r
}

/// The recorded prices of one asset.
#[derive(Debug, Clone)]
pub struct PriceHistory {
    pub token_address: String,
    pub prices: Vec<u64>,
}

/// The prices recorded for `a`, if any.
pub open spec fn history_of(s: Seq<PriceHistory>, a: Seq<char>) -> Option<Seq<u64>> {
    if exists|i: int| 0 <= i < s.len() && s[i].token_address@ == a {
        let i = choose|i: int| 0 <= i < s.len() && s[i].token_address@ == a;
        Some(s[i].prices@)
    } else {
        None
    }
}

/// At most one history per asset.
pub open spec fn histories_unique(s: Seq<PriceHistory>) -> bool {
    forall|i: int, j: int|
        0 <= i < s.len() && 0 <= j < s.len() && i != j ==> s[i].token_address@
            != s[j].token_address@
}

proof fn lemma_history_at(s: Seq<PriceHistory>, i: int)
    requires
        histories_unique(s),
        0 <= i < s.len(),
    ensures
        history_of(s, s[i].token_address@) == Some(s[i].prices@),
{
    let a = s[i].token_address@;
    assert(exists|k: int| 0 <= k < s.len() && s[k].token_address@ == a);
    let k = choose|k: int| 0 <= k < s.len() && s[k].token_address@ == a;
    assert(k == i);
}

/// Whether a price move from `entry` to `current` is a gain of at least `pct`
/// percent (in millionths). From a zero entry any positive price is an
/// unbounded gain.
pub open spec fn gain_reaches(entry: u64, current: u64, pct: i64) -> bool {
    if entry > 0 {
        (current - entry) * 100 * SCALE as int >= pct * entry
    } else {
        current > 0
    }
}

/// Whether a price move from `entry` to `current` is a loss of at least `pct`
/// percent (in millionths). From a zero entry there is no loss.
pub open spec fn loss_reaches(entry: u64, current: u64, pct: i64) -> bool {
    entry > 0 && (entry - current) * 100 * SCALE as int >= pct * entry
}

pub fn gain_at_least(entry: u64, current: u64, pct: i64) -> (b: bool)
    ensures
        b == gain_reaches(entry, current, pct),
{
    if entry > 0 {
        let d: i128 = current as i128 - entry as i128;
        let lhs: i128 = d * 100_000_000;
        let rhs: i128 = mul_i64_u64(pct, entry);
        lhs >= rhs
    } else {
        current > 0
    }
}

pub fn loss_at_least(entry: u64, current: u64, pct: i64) -> (b: bool)
    ensures
        b == loss_reaches(entry, current, pct),
{
    if entry > 0 {
        let d: i128 = entry as i128 - current as i128;
        let lhs: i128 = d * 100_000_000;
        let rhs: i128 = mul_i64_u64(pct, entry);
        lhs >= rhs
    } else {
        false
    }
}

fn mul_i64_u64(a: i64, b: u64) -> (r: i128)
    ensures
        r == a * b,
{
    proof {
        assert(-0x8000_0000_0000_0000 * 0xffff_ffff_ffff_ffff <= a * b <= 0x7fff_ffff_ffff_ffff
            * 0xffff_ffff_ffff_ffff) by (nonlinear_arith)
            requires
                -0x8000_0000_0000_0000 <= a <= 0x7fff_ffff_ffff_ffff,
                0 <= b <= 0xffff_ffff_ffff_ffff,
        ;
    }
    (a as i128) * (b as i128)
}

/// Evaluates the configured strategies on asset snapshots, and keeps a
/// rolling price history per asset.
pub struct StrategyEngine {
    strategies: Vec<StrategyConfig>,
    position_history: Vec<PriceHistory>,
}

impl StrategyEngine {
    pub closed spec fn configs(&self) -> Seq<StrategyConfig> {
        self.strategies@
    }

    /// The price history of each asset.
    pub closed spec fn histories(&self) -> Seq<PriceHistory> {
        self.position_history@
    }

    pub open spec fn wf(&self) -> bool {
        histories_unique(self.histories())
    }

    pub fn new(strategies: Vec<StrategyConfig>) -> (r: Self)
        ensures
            r.wf(),
            r.configs() == strategies@,
            r.histories().len() == 0,
    {
        StrategyEngine { strategies, position_history: Vec::new() }
    }

    /// Every signal that the enabled strategies emit on `token`, in the order
    /// of configuration. Never fails, and leaves the engine as it was.
    pub fn analyze_token(&mut self, token: &TokenInfo) -> (r: Result<Vec<TradingSignal>>)
        ensures
            *final(self) == *old(self),
            r is Ok,
            r matches Ok(v) && {
                let idx = firing(old(self).configs(), *token);
                &&& v@.len() == idx.len()
                &&& forall|k: int|
                    0 <= k < v@.len() ==> signal_of(#[trigger] v@[k], old(self).configs()[idx[k]], *token)
                &&& forall|k: int| 0 <= k < v@.len() ==> (#[trigger] v@[k]).confidence <= SCALE
            },
    {
        let mut signals: Vec<TradingSignal> = Vec::new();
        let n = self.strategies.len();
        let mut i: usize = 0;
        while i < n
            invariant
                n == self.strategies@.len(),
                i <= n,
                *self == *old(self),
                signals@.len() == firing(self.strategies@.subrange(0, i as int), *token).len(),
                forall|k: int|
                    0 <= k < signals@.len() ==> 0 <= #[trigger] firing(
                        self.strategies@.subrange(0, i as int),
                        *token,
                    )[k] < i,
                forall|k: int|
                    0 <= k < signals@.len() ==> signal_of(
                        #[trigger] signals@[k],
                        self.strategies@[firing(self.strategies@.subrange(0, i as int), *token)[k]],
                        *token,
                    ),
                forall|k: int| 0 <= k < signals@.len() ==> (#[trigger] signals@[k]).confidence <= SCALE,
            decreases n - i,
        {
            let c = self.strategies[i];
            let ghost before = self.strategies@.subrange(0, i as int);
            let ghost upto = self.strategies@.subrange(0, i + 1);
            proof {
                assert(upto.drop_last() =~= before);
                assert(upto.last() == c);
            }
            if c.enabled {
                let found = match c.strategy {
                    TradingStrategy::Momentum => self.momentum_strategy(token, &c.parameters),
                    TradingStrategy::MeanReversion => self.mean_reversion_strategy(
                        token,
                        &c.parameters,
                    ),
                    TradingStrategy::Breakout => self.breakout_strategy(token, &c.parameters),
                    TradingStrategy::VolumeSpike => self.volume_spike_strategy(
                        token,
                        &c.parameters,
                    ),
                    TradingStrategy::HolderGrowth => self.holder_growth_strategy(
                        token,
                        &c.parameters,
                    ),
                };
                match found {
                    Ok(Some(s)) => {
                        signals.push(s);
                    },
                    _ => {},
                }
            }
            proof {
                let idx = firing(upto, *token);
                let prev = firing(before, *token);
                assert forall|k: int| 0 <= k < signals@.len() implies 0 <= #[trigger] idx[k] < i + 1
                    && signal_of(signals@[k], self.strategies@[idx[k]], *token) by {
                    if k < prev.len() {
                        assert(idx[k] == prev[k]);
                    }
                }
            }
            i = i + 1;
        }
        assert(self.strategies@.subrange(0, n as int) =~= self.strategies@);
        Ok(signals)
    }

    fn momentum_strategy(&self, token: &TokenInfo, params: &StrategyParams) -> (r: Result<
        Option<TradingSignal>,
    >)
        ensures
            r matches Ok(o) && (o is Some <==> momentum_fires(*token, *params)) && (o matches Some(
                s,
            ) ==> momentum_signal(s, *token) && s.confidence <= SCALE),
    {
        let min_price_change = params.get_or(ParamKey::MinPriceChange, 5_000_000);
        let min_volume_ratio = params.get_or(ParamKey::MinVolumeRatio, 2_000_000);
        if token.price_change_24h >= min_price_change {
            let vr = ratio(token.volume_24h, token.liquidity);
            if ratio_meets(vr, min_volume_ratio) {
                let v = match vr {
                    Some(v) => v,
                    None => 0,
                };
                let pc = token.price_change_24h;
                let confidence: u64 = if pc <= 0 {
                    0
                } else if pc / 100 > SCALE as i64 {
                    SCALE
                } else {
                    (pc / 100) as u64
                };
                let mut reason = String::from_str("Momentum: Price up ");
                push_signed_two_places(&mut reason, pc as i128);
                reason.append("%, Volume ratio ");
                push_ratio(&mut reason, v);
                let expected = (token.price_usd as u128) * 110 / 100;
                return Ok(
                    Some(
                        TradingSignal {
                            token: token.snapshot(),
                            action: Action::Buy,
                            confidence,
                            reason,
                            expected_price: Some(expected),
                        },
                    ),
                );
            }
        }
        Ok(None)
    }

    fn mean_reversion_strategy(&self, token: &TokenInfo, params: &StrategyParams) -> (r: Result<
        Option<TradingSignal>,
    >)
        ensures
            r matches Ok(o) && (o is Some <==> mean_reversion_fires(*token, *params)) && (
            o matches Some(s) ==> mean_reversion_signal(s, *token) && s.confidence <= SCALE),
    {
        let max_price_change = params.get_or(ParamKey::MaxPriceChange, -10_000_000i64);
        let min_liquidity_ratio = params.get_or(ParamKey::MinLiquidityRatio, 100_000);
        if token.price_change_24h <= max_price_change {
            let lr = ratio(token.liquidity, token.market_cap);
            if ratio_meets(lr, min_liquidity_ratio) {
                let v = match lr {
                    Some(v) => v,
                    None => 0,
                };
                let pc = token.price_change_24h;
                let drop: i128 = -(pc as i128);
                let confidence: u64 = if drop <= 0 {
                    0
                } else if drop / 100 > SCALE as i128 {
                    SCALE
                } else {
                    (drop / 100) as u64
                };
                let mut reason = String::from_str("Mean Reversion: Price down ");
                push_signed_two_places(&mut reason, pc as i128);
                reason.append("%, Liquidity ratio ");
                push_ratio(&mut reason, v);
                let expected = (token.price_usd as u128) * 105 / 100;
                return Ok(
                    Some(
                        TradingSignal {
                            token: token.snapshot(),
                            action: Action::Buy,
                            confidence,
                            reason,
                            expected_price: Some(expected),
                        },
                    ),
                );
            }
        }
        Ok(None)
    }

    fn breakout_strategy(&self, token: &TokenInfo, params: &StrategyParams) -> (r: Result<
        Option<TradingSignal>,
    >)
        ensures
            r matches Ok(o) && (o is Some <==> breakout_fires(*token, *params)) && (o matches Some(
                s,
            ) ==> breakout_signal(s, *token) && s.confidence <= SCALE),
    {
        let min_volume_spike = params.get_or(ParamKey::MinVolumeSpike, 3_000_000);
        let min_price_momentum = params.get_or(ParamKey::MinPriceMomentum, 2_000_000);
        let vr = ratio(token.volume_24h, token.liquidity);
        if ratio_meets(vr, min_volume_spike) && token.price_change_24h >= min_price_momentum {
            let v = match vr {
                Some(v) => v,
                None => 0,
            };
            let mut reason = String::from_str("Breakout: Volume spike ");
            push_ratio(&mut reason, v);
            reason.append("x, Price momentum ");
            push_signed_two_places(&mut reason, token.price_change_24h as i128);
            reason.append("%");
            let expected = (token.price_usd as u128) * 115 / 100;
            return Ok(
                Some(
                    TradingSignal {
                        token: token.snapshot(),
                        action: Action::Buy,
                        confidence: ratio_share(v, 10),
                        reason,
                        expected_price: Some(expected),
                    },
                ),
            );
        }
        Ok(None)
    }

    fn volume_spike_strategy(&self, token: &TokenInfo, params: &StrategyParams) -> (r: Result<
        Option<TradingSignal>,
    >)
        ensures
            r matches Ok(o) && (o is Some <==> volume_spike_fires(*token, *params)) && (
            o matches Some(s) ==> volume_spike_signal(s, *token) && s.confidence <= SCALE),
    {
        let min_volume_multiplier = params.get_or(ParamKey::MinVolumeMultiplier, 5_000_000);
        let min_holders = whole_count(params.get_or(ParamKey::MinHolders, 50_000_000));
        let vr = ratio(token.volume_24h, token.liquidity);
        if ratio_meets(vr, min_volume_multiplier) && token.holders >= min_holders {
            let v = match vr {
                Some(v) => v,
                None => 0,
            };
            let mut reason = String::from_str("Volume Spike: ");
            push_ratio(&mut reason, v);
            reason.append("x volume, ");
            push_digits(&mut reason, token.holders as u128);
            reason.append(" holders");
            let expected = (token.price_usd as u128) * 120 / 100;
            return Ok(
                Some(
                    TradingSignal {
                        token: token.snapshot(),
                        action: Action::Buy,
                        confidence: ratio_share(v, 20),
                        reason,
                        expected_price: Some(expected),
                    },
                ),
            );
        }
        Ok(None)
    }

    fn holder_growth_strategy(&self, token: &TokenInfo, params: &StrategyParams) -> (r: Result<
        Option<TradingSignal>,
    >)
        ensures
            r matches Ok(o) && (o is Some <==> holder_growth_fires(*token, *params)) && (
            o matches Some(s) ==> holder_growth_signal(s, *token) && s.confidence <= SCALE),
    {
        let min_holders = whole_count(params.get_or(ParamKey::MinHolders, 100_000_000));
        let min_market_cap = whole_amount(params.get_or(ParamKey::MinMarketCap, 500_000_000_000));
        if token.holders >= min_holders && token.market_cap >= min_market_cap {
            let per_million = (token.holders as u64) * SCALE;
            let hr = ratio(per_million, token.market_cap);
            if ratio_meets(hr, 100_000) {
                let v = match hr {
                    Some(v) => v,
                    None => 0,
                };
                let mut reason = String::from_str("Holder Growth: ");
                push_digits(&mut reason, token.holders as u128);
                reason.append(" holders, $");
                push_whole(&mut reason, token.market_cap as u128);
                reason.append("M market cap");
                let expected = (token.price_usd as u128) * 108 / 100;
                return Ok(
                    Some(
                        TradingSignal {
                            token: token.snapshot(),
                            action: Action::Buy,
                            confidence: ratio_share(v, 2),
                            reason,
                            expected_price: Some(expected),
                        },
                    ),
                );
            }
        }
        Ok(None)
    }

    /// Appends `price` to the history of `token_address`, starting one if
    /// there is none; other histories are left as they were.
    pub fn update_position_history(&mut self, token_address: String, price: u64)
        requires
            old(self).wf(),
        ensures
            final(self).wf(),
            final(self).configs() == old(self).configs(),
            history_of(final(self).histories(), token_address@) == Some(
                match history_of(old(self).histories(), token_address@) {
                    Some(h) => h.push(price),
                    None => seq![price],
                },
            ),
            forall|a: Seq<char>|
                a != token_address@ ==> history_of(final(self).histories(), a) == history_of(
                    old(self).histories(),
                    a,
                ),
    {
        let n = self.position_history.len();
        let mut i: usize = 0;
        while i < n
            invariant
                n == self.position_history@.len(),
                i <= n,
                histories_unique(self.position_history@),
                *self == *old(self),
                forall|k: int| 0 <= k < i ==> self.position_history@[k].token_address@ != token_address@,
            ensures
                i <= n,
                *self == *old(self),
                i < n ==> self.position_history@[i as int].token_address@ == token_address@,
                forall|k: int| 0 <= k < i ==> self.position_history@[k].token_address@ != token_address@,
            decreases n - i,
        {
            if self.position_history[i].token_address == token_address {
                break;
            }
            i = i + 1;
        }
        let ghost old_s = self.position_history@;
        if i < n {
            let mut entry = self.position_history.remove(i);
            assert(entry == old_s[i as int]);
            entry.prices.push(price);
            let ghost e = entry;
            self.position_history.insert(i, entry);
            proof {
                let s = self.position_history@;
                assert(s[i as int] == e);
                assert(e.token_address@ == old_s[i as int].token_address@);
                assert(e.prices@ == old_s[i as int].prices@.push(price));
                assert(s =~= old_s.update(i as int, s[i as int]));
                lemma_history_at(old_s, i as int);
                lemma_history_at(s, i as int);
                assert forall|a: Seq<char>| a != token_address@ implies history_of(s, a)
                    == history_of(old_s, a) by {
                    if exists|k: int| 0 <= k < s.len() && s[k].token_address@ == a {
                        let k = choose|k: int| 0 <= k < s.len() && s[k].token_address@ == a;
                        assert(k != i);
                        assert(s[k] == old_s[k]);
                        lemma_history_at(s, k);
                        lemma_history_at(old_s, k);
                    } else {
                        assert(!exists|k: int| 0 <= k < old_s.len() && old_s[k].token_address@ == a) by {
                            if exists|k: int| 0 <= k < old_s.len() && old_s[k].token_address@ == a {
                                let k = choose|k: int| 0 <= k < old_s.len() && old_s[k].token_address@ == a;
                                assert(k != i);
                                assert(s[k] == old_s[k]);
                                assert(s[k].token_address@ == a);
                            }
                        }
                    }
                }
            }
        } else {
            let mut prices: Vec<u64> = Vec::new();
            prices.push(price);
            self.position_history.push(PriceHistory { token_address, prices });
            proof {
                let s = self.position_history@;
                assert(s.drop_last() =~= old_s);
                assert(history_of(old_s, token_address@) is None);
                lemma_history_at(s, n as int);
                assert(s[n as int].prices@ =~= seq![price]);
                assert forall|a: Seq<char>| a != token_address@ implies history_of(s, a)
                    == history_of(old_s, a) by {
                    if exists|k: int| 0 <= k < old_s.len() && old_s[k].token_address@ == a {
                        let k = choose|k: int| 0 <= k < old_s.len() && old_s[k].token_address@ == a;
                        lemma_history_at(s, k);
                        lemma_history_at(old_s, k);
                    } else {
                        assert(!exists|k: int| 0 <= k < s.len() && s[k].token_address@ == a) by {
                            if exists|k: int| 0 <= k < s.len() && s[k].token_address@ == a {
                                let k = choose|k: int| 0 <= k < s.len() && s[k].token_address@ == a;
                                assert(old_s[k].token_address@ == a);
                            }
                        }
                    }
                }
            }
        }
    }

    /// The recorded prices of `token_address`, if any.
    pub fn get_position_history(&self, token_address: &str) -> (r: Option<&Vec<u64>>)
        requires
            self.wf(),
        ensures
            match r {
                Some(v) => history_of(self.histories(), token_address@) == Some(v@),
                None => history_of(self.histories(), token_address@) is None,
            },
    {
        let key = String::from_str(token_address);
        let n = self.position_history.len();
        let mut i: usize = 0;
        while i < n
            invariant
                n == self.position_history@.len(),
                i <= n,
                histories_unique(self.position_history@),
                key@ == token_address@,
                forall|k: int| 0 <= k < i ==> self.position_history@[k].token_address@ != token_address@,
            decreases n - i,
        {
            if self.position_history[i].token_address == key {
                proof {
                    lemma_history_at(self.position_history@, i as int);
                }
                return Some(&self.position_history[i].prices);
            }
            i = i + 1;
        }
        None
    }

    /// Take profit at a gain of 20% or stop the loss at a loss of 10%.
    pub fn should_sell(&self, token_address: &str, current_price: u64, entry_price: u64) -> (r:
        bool)
        ensures
            r == (gain_reaches(entry_price, current_price, 20_000_000) || loss_reaches(
                entry_price,
                current_price,
                10_000_000,
            )),
    {
        gain_at_least(entry_price, current_price, 20_000_000) || loss_at_least(
            entry_price,
            current_price,
            10_000_000,
        )
    }
}

fn whole_count(v: i64) -> (r: u32)
    ensures
        r == whole_u32(v),
{
    if v <= 0 {
        0
    } else if v / (SCALE as i64) > u32::MAX as i64 {
        u32::MAX
    } else {
        (v / (SCALE as i64)) as u32
    }
}

fn whole_amount(v: i64) -> (r: u64)
    ensures
        r == whole_u64(v),
{
    if v <= 0 {
        0
    } else {
        (v / (SCALE as i64)) as u64
    }
}

} // verus!
