//! Asset snapshots from the token catalog, and the catalog's client settings.
//!
//! Fetching from the catalog is I/O and happens outside this library; what
//! is kept here is the data and the pure filtering step.

use vstd::prelude::*;

verus! {

/// A point-in-time record of one tradable token.
#[derive(Debug, Clone)]
pub struct TokenInfo {
    pub address: String,
    pub symbol: String,
    pub name: String,
    pub decimals: u8,
    /// Market capitalization in whole dollars.
    pub market_cap: u64,
    pub holders: u32,
    pub age_hours: u32,
    /// Liquidity in whole dollars.
    pub liquidity: u64,
    /// Price in millionths of a dollar.
    pub price_usd: u64,
    /// 24-hour price change in millionths of a percent.
    pub price_change_24h: i64,
    /// 24-hour volume in whole dollars.
    pub volume_24h: u64,
    pub created_at: String,
}

impl TokenInfo {
    /// An equal copy of this snapshot.
    pub fn snapshot(&self) -> (r: TokenInfo)
        ensures
            r == *self,
    {
        TokenInfo {
            address: self.address.clone(),
            symbol: self.symbol.clone(),
            name: self.name.clone(),
            decimals: self.decimals,
            market_cap: self.market_cap,
            holders: self.holders,
            age_hours: self.age_hours,
            liquidity: self.liquidity,
            price_usd: self.price_usd,
            price_change_24h: self.price_change_24h,
            volume_24h: self.volume_24h,
            created_at: self.created_at.clone(),
        }
    }
}

/// A page of tokens as the catalog answers it.
#[derive(Debug, Clone)]
pub struct PumpPortalResponse {
    pub success: bool,
    pub data: Vec<TokenInfo>,
    pub message: Option<String>,
}

/// Short-window market figures of one token (prices and changes in millionths).
#[derive(Debug, Clone)]
pub struct TokenMetrics {
    pub address: String,
    pub price: u64,
    pub volume_5m: u64,
    pub volume_1h: u64,
    pub volume_24h: u64,
    pub holders: u32,
    pub market_cap: u64,
    pub liquidity: u64,
    pub price_change_5m: i64,
    pub price_change_1h: i64,
    pub price_change_24h: i64,
}

/// Where and how often the catalog is polled.
pub struct PumpPortalClient {
    api_url: String,
    api_key: Option<String>,
    refresh_interval_ms: u64,
}

/// Whether a snapshot passes the catalog filter.
pub open spec fn meets_criteria(
    t: TokenInfo,
    min_market_cap: u64,
    max_market_cap: u64,
    min_holders: u32,
    max_age_hours: u32,
) -> bool {
    &&& t.market_cap >= min_market_cap
    &&& t.market_cap <= max_market_cap
    &&& t.holders >= min_holders
    &&& t.age_hours <= max_age_hours
}

/// The catalog filter as a predicate.
pub open spec fn criteria(
    min_market_cap: u64,
    max_market_cap: u64,
    min_holders: u32,
    max_age_hours: u32,
) -> spec_fn(TokenInfo) -> bool {
    |t: TokenInfo| meets_criteria(t, min_market_cap, max_market_cap, min_holders, max_age_hours)
}

impl PumpPortalClient {
    pub fn new(api_url: String, api_key: Option<String>, refresh_interval_ms: u64) -> (r: Self)
        ensures
            r.api_url() == api_url,
            r.api_key() == api_key,
            r.refresh_interval_ms() == refresh_interval_ms,
    {
        PumpPortalClient { api_url, api_key, refresh_interval_ms }
    }

    pub closed spec fn api_url(&self) -> String {
        self.api_url
    }

    pub closed spec fn api_key(&self) -> Option<String> {
        self.api_key
    }

    pub closed spec fn refresh_interval_ms(&self) -> u64 {
        self.refresh_interval_ms
    }

    pub fn get_api_url(&self) -> (r: &String)
        ensures
            *r == self.api_url(),
    {
        &self.api_url
    }

    pub fn get_api_key(&self) -> (r: &Option<String>)
        ensures
            *r == self.api_key(),
    {
        &self.api_key
    }

    pub fn get_refresh_interval_ms(&self) -> (r: u64)
        ensures
            r == self.refresh_interval_ms(),
    {
        self.refresh_interval_ms
    }

    /// Keeps, in order, the snapshots whose market cap lies in
    /// `[min_market_cap, max_market_cap]`, with at least `min_holders` holders
    /// and at most `max_age_hours` hours of age.
    pub fn filter_tokens_by_criteria(
        &self,
        tokens: Vec<TokenInfo>,
        min_market_cap: u64,
        max_market_cap: u64,
        min_holders: u32,
        max_age_hours: u32,
    ) -> (r: Vec<TokenInfo>)
        ensures
            r@ == tokens@.filter(criteria(min_market_cap, max_market_cap, min_holders, max_age_hours)),
    {
        let ghost pred = criteria(min_market_cap, max_market_cap, min_holders, max_age_hours);
        let mut kept: Vec<TokenInfo> = Vec::new();
        let mut i: usize = 0;
        while i < tokens.len()
            invariant
                i <= tokens@.len(),
                pred == criteria(min_market_cap, max_market_cap, min_holders, max_age_hours),
                kept@ == tokens@.subrange(0, i as int).filter(pred),
            decreases tokens@.len() - i,
        {
            let t = &tokens[i];
            proof {
                reveal(Seq::filter);
                let next = tokens@.subrange(0, i + 1);
                assert(next.drop_last() =~= tokens@.subrange(0, i as int));
                assert(next.last() == tokens@[i as int]);
            }
            let keep = t.market_cap >= min_market_cap && t.market_cap <= max_market_cap
                && t.holders >= min_holders && t.age_hours <= max_age_hours;
            assert(keep == pred(tokens@[i as int]));
            if keep {
                kept.push(t.snapshot());
            }
            assert(kept@ == tokens@.subrange(0, i + 1).filter(pred));
            i = i + 1;
        }
        assert(tokens@.subrange(0, tokens@.len() as int) =~= tokens@);
        kept
    }
}

} // verus!
