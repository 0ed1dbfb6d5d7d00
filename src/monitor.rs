//! Market rotation, token resolution and snapshot assembly.

use crate::cache::{Level, PriceCache};
use crate::domain::{Market, MarketData, MarketDetails, Token, TokenPrice};
use crate::fixed::Fixed;
use crate::text::{
    after_last, contains_text, last_segment, parse_u64, parsed_u64, seq_contains, to_upper,
    upper_of,
};
use vstd::prelude::*;

verus! {

/// Length of one market period, in seconds.
pub const PERIOD_SECS: u64 = 900;

/// Start of the period holding second `now`.
pub open spec fn period_start(now: int) -> int {
    now / PERIOD_SECS as int * PERIOD_SECS as int
}

/// Start of the period holding second `now`.
pub fn period_of(now: u64) -> (r: u64)
    ensures
        r == period_start(now as int),
{
    proof {
        vstd::arithmetic::div_mod::lemma_fundamental_div_mod(now as int, 900);
    }
    now / PERIOD_SECS * PERIOD_SECS
}

/// Every second of `[k * 900, (k + 1) * 900)` lies in the period starting at
/// `k * 900`.
pub proof fn lemma_period_stable(k: int, now: int)
    requires
        0 <= k,
        k * 900 <= now < (k + 1) * 900,
    ensures
        period_start(now) == k * 900,
{
    vstd::arithmetic::div_mod::lemma_fundamental_div_mod(now, 900);
    vstd::arithmetic::div_mod::lemma_mod_pos_bound(now, 900);
    assert(now / 900 == k) by (nonlinear_arith)
        requires
            k * 900 <= now < (k + 1) * 900,
            now == 900 * (now / 900) + now % 900,
            0 <= now % 900 < 900,
    ;
}

/// The period changes exactly at each boundary: the last second before
/// `k * 900` lies in an earlier period than `k * 900` itself.
pub proof fn lemma_period_changes_at_boundary(k: int)
    requires
        1 <= k,
    ensures
        period_start(k * 900 - 1) == (k - 1) * 900,
        period_start(k * 900) == k * 900,
        period_start(k * 900 - 1) != period_start(k * 900),
{
    lemma_period_stable(k - 1, k * 900 - 1);
    lemma_period_stable(k, k * 900);
}

/// The outcome that a token stands for.
#[derive(Clone, Copy, Debug, PartialEq, Eq, Structural)]
pub enum Role {
    Up,
    Down,
    Neither,
}

/// The role of an upper-cased outcome label.
pub open spec fn role_of_upper(u: Seq<char>) -> Role {
    if seq_contains(u, seq!['U', 'P']) || u == seq!['1'] {
        Role::Up
    } else if seq_contains(u, seq!['D', 'O', 'W', 'N']) || u == seq!['0'] {
        Role::Down
    } else {
        Role::Neither
    }
}

/// The role of an outcome label, compared without regard to case.
pub open spec fn role_of(outcome: Seq<char>) -> Role {
    role_of_upper(upper_of(outcome))
}

fn is_single_char(s: &str, c: char) -> (r: bool)
    ensures
        r == (s@ == seq![c]),
{
    if s.unicode_len() != 1 {
        return false;
    }
    let r = s.get_char(0) == c;
    assert(r ==> s@ =~= seq![c]);
    r
}

/// The role of an upper-cased outcome label.
pub fn role_of_upper_label(u: &str) -> (r: Role)
    ensures
        r == role_of_upper(u@),
{
    proof {
        reveal_strlit("UP");
        reveal_strlit("DOWN");
        assert("UP"@ =~= seq!['U', 'P']);
        assert("DOWN"@ =~= seq!['D', 'O', 'W', 'N']);
    }
    if contains_text(u, "UP") || is_single_char(u, '1') {
        Role::Up
    } else if contains_text(u, "DOWN") || is_single_char(u, '0') {
        Role::Down
    } else {
        Role::Neither
    }
}

/// The role of an outcome label, compared without regard to case.
pub fn outcome_role(outcome: &str) -> (r: Role)
    ensures
        r == role_of(outcome@),
{
    let upper = to_upper(outcome);
    role_of_upper_label(upper.as_str())
}

pub open spec fn opt_view(o: Option<String>) -> Option<Seq<char>> {
    match o {
        Some(s) => Some(s@),
        None => None,
    }
}

/// The up and down token ids after classifying `tokens` in order, starting
/// from `up` and `down`: each token overrides the id of its role.
pub open spec fn resolve(tokens: Seq<Token>, up: Option<Seq<char>>, down: Option<Seq<char>>) -> (
    Option<Seq<char>>,
    Option<Seq<char>>,
)
    decreases tokens.len(),
{
    if tokens.len() == 0 {
        (up, down)
    } else {
        let (u, d) = resolve(tokens.drop_last(), up, down);
        let t = tokens.last();
        match role_of(t.outcome@) {
            Role::Up => (Some(t.token_id@), d),
            Role::Down => (u, Some(t.token_id@)),
            Role::Neither => (u, d),
        }
    }
}

pub open spec fn has_role(tokens: Seq<Token>, r: Role) -> bool {
    exists|i: int| 0 <= i < tokens.len() && role_of(#[trigger] tokens[i].outcome@) == r
}

/// What resolution gives for a role depends on the starting id only when
/// no token holds that role.
proof fn lemma_resolve_start(tokens: Seq<Token>, up: Option<Seq<char>>, down: Option<Seq<char>>)
    ensures
        resolve(tokens, up, down).0 == if has_role(tokens, Role::Up) {
            resolve(tokens, None, None).0
        } else {
            up
        },
        resolve(tokens, up, down).1 == if has_role(tokens, Role::Down) {
            resolve(tokens, None, None).1
        } else {
            down
        },
    decreases tokens.len(),
{
    if tokens.len() > 0 {
        let t = tokens.drop_last();
        lemma_resolve_start(t, up, down);
        lemma_resolve_start(t, None, None);
        assert forall|r: Role| has_role(tokens, r) == (has_role(t, r) || role_of(tokens.last().outcome@) == r) by {
            if has_role(tokens, r) {
                let i = choose|i: int| 0 <= i < tokens.len() && role_of(#[trigger] tokens[i].outcome@) == r;
                if i < t.len() {
                    assert(t[i] == tokens[i]);
                }
            }
            if has_role(t, r) {
                let i = choose|i: int| 0 <= i < t.len() && role_of(#[trigger] t[i].outcome@) == r;
                assert(t[i] == tokens[i]);
            }
        }
    }
}

/// Resolving again from what a resolution produced, with the same tokens,
/// changes neither id.
pub proof fn lemma_resolve_idempotent(tokens: Seq<Token>, up: Option<Seq<char>>, down: Option<Seq<char>>)
    ensures
        resolve(tokens, resolve(tokens, up, down).0, resolve(tokens, up, down).1) == resolve(
            tokens,
            up,
            down,
        ),
{
    let (u, d) = resolve(tokens, up, down);
    lemma_resolve_start(tokens, up, down);
    lemma_resolve_start(tokens, u, d);
}

/// Classifies `tokens` in order into `up` and `down`.
pub fn resolve_tokens(tokens: &Vec<Token>, up: &mut Option<String>, down: &mut Option<String>)
    ensures
        (opt_view(*final(up)), opt_view(*final(down))) == resolve(
            tokens@,
            opt_view(*old(up)),
            opt_view(*old(down)),
        ),
{
    let mut i: usize = 0;
    while i < tokens.len()
        invariant
            0 <= i <= tokens.len(),
            (opt_view(*up), opt_view(*down)) == resolve(
                tokens@.subrange(0, i as int),
                opt_view(*old(up)),
                opt_view(*old(down)),
            ),
        decreases tokens.len() - i,
    {
        let t = &tokens[i];
        let role = outcome_role(t.outcome.as_str());
        match role {
            Role::Up => {
                *up = Some(t.token_id.clone());
            },
            Role::Down => {
                *down = Some(t.token_id.clone());
            },
            Role::Neither => {},
        }
        assert(tokens@.subrange(0, i + 1).drop_last() =~= tokens@.subrange(0, i as int));
        i = i + 1;
    }
    assert(tokens@.subrange(0, tokens.len() as int) =~= tokens@);
}

/// Descriptive data of one market inside a snapshot.
#[derive(Clone, Debug)]
pub struct MarketMeta {
    pub name: String,
    pub slug: String,
    pub end_time_unix: u64,
}

/// A point-in-time view of both markets, built once per tick.
#[derive(Clone, Debug)]
pub struct MarketSnapshot {
    pub eth_market: MarketData,
    pub btc_market: MarketData,
    pub eth_market_meta: MarketMeta,
    pub btc_market_meta: MarketMeta,
    /// When the snapshot was built, in milliseconds.
    pub timestamp: u128,
}


/// Unix second at which the market of `slug` ends: the number after the
/// slug's last `-`, plus one period; zero when that is not a number or the
/// sum does not fit.
pub open spec fn end_time_of(slug: Seq<char>) -> u64 {
    match parsed_u64(last_segment(slug, '-')) {
        Some(n) => if n as int + PERIOD_SECS as int <= u64::MAX as int {
            (n + PERIOD_SECS) as u64
        } else {
            0
        },
        None => 0,
    }
}

/// The best price of a side of a book, if it has any level.
pub open spec fn first_price(levels: Seq<Level>) -> Option<Fixed> {
    if levels.len() > 0 {
        Some(levels[0].0)
    } else {
        None
    }
}

/// Token id, best bid and best ask that the cache gives for `id`, if the
/// id is known and cached.
pub open spec fn cached_price(
    cache: Map<Seq<char>, (Seq<Level>, Seq<Level>, u128)>,
    id: Option<Seq<char>>,
) -> Option<(Seq<char>, Option<Fixed>, Option<Fixed>)> {
    match id {
        Some(k) => if cache.contains_key(k) {
            Some((k, first_price(cache[k].0), first_price(cache[k].1)))
        } else {
            None
        },
        None => None,
    }
}

pub open spec fn price_view(t: Option<TokenPrice>) -> Option<(Seq<char>, Option<Fixed>, Option<Fixed>)> {
    match t {
        Some(p) => Some((p.token_id@, p.bid, p.ask)),
        None => None,
    }
}

/// The top of book of token `token_id` as the cache holds it; `None` when
/// the id is unknown or never cached.
pub fn fetch_token_price(cache: &PriceCache, token_id: &Option<String>) -> (r: Option<TokenPrice>)
    requires
        cache.wf(),
    ensures
        price_view(r) == cached_price(cache@, opt_view(*token_id)),
{
    let id = match token_id {
        Some(id) => id,
        None => return None,
    };
    let cached = match cache.get(id.as_str()) {
        Some(c) => c,
        None => return None,
    };
    let bid = if cached.bids.len() > 0 {
        Some(cached.bids[0].0)
    } else {
        None
    };
    let ask = if cached.asks.len() > 0 {
        Some(cached.asks[0].0)
    } else {
        None
    };
    Some(TokenPrice { token_id: id.clone(), bid, ask })
}

/// `d` prices market `m`, named `name`, with the ids `up` and `down` from `cache`.
pub open spec fn market_data_matches(
    d: MarketData,
    m: Market,
    name: Seq<char>,
    up: Option<String>,
    down: Option<String>,
    cache: Map<Seq<char>, (Seq<Level>, Seq<Level>, u128)>,
) -> bool {
    &&& d.condition_id@ == m.condition_id@
    &&& d.market_name@ == name
    &&& price_view(d.up_token) == cached_price(cache, opt_view(up))
    &&& price_view(d.down_token) == cached_price(cache, opt_view(down))
}

pub open spec fn meta_matches(meta: MarketMeta, m: Market) -> bool {
    &&& meta.name@ == m.question@
    &&& meta.slug@ == m.slug@
    &&& meta.end_time_unix == end_time_of(m.slug@)
}

/// Rotation and token-resolution state of the two monitored markets.
#[derive(Clone, Debug)]
pub struct MarketMonitor {
    pub eth_market: Market,
    pub btc_market: Market,
    pub check_interval_ms: u64,
    pub eth_up_token_id: Option<String>,
    pub eth_down_token_id: Option<String>,
    pub btc_up_token_id: Option<String>,
    pub btc_down_token_id: Option<String>,
    /// Second of the last token resolution, if one has run in this period.
    pub last_market_refresh: Option<u64>,
    /// Start of the period that the monitor is in.
    pub current_period_timestamp: u64,
}

impl MarketMonitor {
    /// A monitor of two markets at second `now`, with nothing resolved yet.
    pub fn new(eth_market: Market, btc_market: Market, check_interval_ms: u64, now: u64) -> (r: Self)
        ensures
            r.eth_market == eth_market,
            r.btc_market == btc_market,
            r.check_interval_ms == check_interval_ms,
            r.eth_up_token_id is None,
            r.eth_down_token_id is None,
            r.btc_up_token_id is None,
            r.btc_down_token_id is None,
            r.last_market_refresh is None,
            r.current_period_timestamp == period_start(now as int),
    {
        MarketMonitor {
            eth_market,
            btc_market,
            check_interval_ms,
            eth_up_token_id: None,
            eth_down_token_id: None,
            btc_up_token_id: None,
            btc_down_token_id: None,
            last_market_refresh: None,
            current_period_timestamp: period_of(now),
        }
    }

    /// Moves to the period of second `now`. On entering a new period the
    /// token resolution becomes due; returns whether the period changed.
    pub fn on_tick(&mut self, now: u64) -> (rotated: bool)
        ensures
            rotated == (period_start(now as int) != old(self).current_period_timestamp),
            rotated ==> *final(self) == (MarketMonitor {
                current_period_timestamp: period_start(now as int) as u64,
                last_market_refresh: None,
                ..*old(self)
            }),
            !rotated ==> *final(self) == *old(self),
    {
        let current = period_of(now);
        if current != self.current_period_timestamp {
            self.current_period_timestamp = current;
            self.last_market_refresh = None;
            true
        } else {
            false
        }
    }

    /// Whether token resolution is due at second `now`: never run
    /// successfully in this period, or last run a full period ago.
    pub open spec fn is_refresh_due(self, now: int) -> bool {
        match self.last_market_refresh {
            None => true,
            Some(t) => now >= t as int + PERIOD_SECS as int,
        }
    }

    /// Whether token resolution is due at second `now`.
    pub fn refresh_due(&self, now: u64) -> (r: bool)
        ensures
            r == self.is_refresh_due(now as int),
    {
        match self.last_market_refresh {
            None => true,
            Some(t) => now >= t && now - t >= PERIOD_SECS,
        }
    }

    /// When resolution is due at second `now`, resolves the token ids of
    /// each market from its fetched details, where the fetch succeeded, and
    /// records `now` as the last resolution only when both succeeded, so
    /// that a failed fetch is retried on the next tick. When resolution is
    /// not due, nothing changes.
    pub fn refresh_market_tokens(
        &mut self,
        eth_details: Option<&MarketDetails>,
        btc_details: Option<&MarketDetails>,
        now: u64,
    )
        ensures
            !old(self).is_refresh_due(now as int) ==> *final(self) == *old(self),
            old(self).is_refresh_due(now as int) ==> {
                &&& final(self).eth_market == old(self).eth_market
                &&& final(self).btc_market == old(self).btc_market
                &&& final(self).check_interval_ms == old(self).check_interval_ms
                &&& final(self).current_period_timestamp == old(self).current_period_timestamp
                &&& final(self).last_market_refresh == if eth_details is Some && btc_details is Some {
                    Some(now)
                } else {
                    old(self).last_market_refresh
                }
                &&& (opt_view(final(self).eth_up_token_id), opt_view(final(self).eth_down_token_id)) == match eth_details {
                    Some(d) => resolve(d.tokens@, opt_view(old(self).eth_up_token_id), opt_view(old(self).eth_down_token_id)),
                    None => (opt_view(old(self).eth_up_token_id), opt_view(old(self).eth_down_token_id)),
                }
                &&& (opt_view(final(self).btc_up_token_id), opt_view(final(self).btc_down_token_id)) == match btc_details {
                    Some(d) => resolve(d.tokens@, opt_view(old(self).btc_up_token_id), opt_view(old(self).btc_down_token_id)),
                    None => (opt_view(old(self).btc_up_token_id), opt_view(old(self).btc_down_token_id)),
                }
            },
    {
        if !self.refresh_due(now) {
            return;
        }
        if let Some(d) = eth_details {
            resolve_tokens(&d.tokens, &mut self.eth_up_token_id, &mut self.eth_down_token_id);
        }
        if let Some(d) = btc_details {
            resolve_tokens(&d.tokens, &mut self.btc_up_token_id, &mut self.btc_down_token_id);
        }
        if eth_details.is_some() && btc_details.is_some() {
            self.last_market_refresh = Some(now);
        }
    }

    /// Unix second at which the market of `slug` ends.
    pub fn end_time_from_slug(slug: &str) -> (r: u64)
        ensures
            r == end_time_of(slug@),
    {
        let last = after_last(slug, '-');
        match parse_u64(last) {
            Some(start) => if start <= u64::MAX - PERIOD_SECS {
                start + PERIOD_SECS
            } else {
                0
            },
            None => 0,
        }
    }

    /// The snapshot of both markets at millisecond `now_ms`, priced from
    /// `cache`; a token without an id or a cached book has no price.
    pub fn fetch_market_data(&self, cache: &PriceCache, now_ms: u128) -> (r: MarketSnapshot)
        requires
            cache.wf(),
        ensures
            market_data_matches(r.eth_market, self.eth_market, seq!['E', 'T', 'H'], self.eth_up_token_id, self.eth_down_token_id, cache@),
            market_data_matches(r.btc_market, self.btc_market, seq!['B', 'T', 'C'], self.btc_up_token_id, self.btc_down_token_id, cache@),
            meta_matches(r.eth_market_meta, self.eth_market),
            meta_matches(r.btc_market_meta, self.btc_market),
            r.timestamp == now_ms,
    {
        proof {
            reveal_strlit("ETH");
            reveal_strlit("BTC");
            assert("ETH"@ =~= seq!['E', 'T', 'H']);
            assert("BTC"@ =~= seq!['B', 'T', 'C']);
        }
        let eth = &self.eth_market;
        let btc = &self.btc_market;
        MarketSnapshot {
            eth_market: MarketData {
                condition_id: eth.condition_id.clone(),
                market_name: "ETH".to_owned(),
                up_token: fetch_token_price(cache, &self.eth_up_token_id),
                down_token: fetch_token_price(cache, &self.eth_down_token_id),
            },
            btc_market: MarketData {
                condition_id: btc.condition_id.clone(),
                market_name: "BTC".to_owned(),
                up_token: fetch_token_price(cache, &self.btc_up_token_id),
                down_token: fetch_token_price(cache, &self.btc_down_token_id),
            },
            eth_market_meta: MarketMeta {
                name: eth.question.clone(),
                slug: eth.slug.clone(),
                end_time_unix: Self::end_time_from_slug(eth.slug.as_str()),
            },
            btc_market_meta: MarketMeta {
                name: btc.question.clone(),
                slug: btc.slug.clone(),
                end_time_unix: Self::end_time_from_slug(btc.slug.as_str()),
            },
            timestamp: now_ms,
        }
    }
}

} // verus!
