//! Detection of profitable two-leg bundles and their integer sizing.

use crate::domain::{ArbitrageOpportunity, TokenPrice};
use crate::fixed::{Fixed, SCALE};
use crate::monitor::MarketSnapshot;
use vstd::prelude::*;

verus! {

/// Capital assumed available for one bundle purchase: ten units.
pub const DEFAULT_CAPITAL_MICROS: u128 = 10_000_000;

/// Depth assumed available on each leg, in shares.
pub const DEFAULT_LIQUIDITY: u64 = 1_000;

/// Finds bundles of two outcome tokens whose asks sum to less than one.
#[derive(Clone, Debug)]
pub struct ArbitrageDetector {
    pub min_profit_threshold: Fixed,
    pub available_capital: Fixed,
    pub eth_liquidity: u64,
    pub btc_liquidity: u64,
}

pub open spec fn min_int(a: int, b: int) -> int {
    if a <= b { a } else { b }
}

/// The ask of a leg, in millionths, if the leg is priced.
pub open spec fn ask_of(t: Option<TokenPrice>) -> Option<int> {
    match t {
        Some(tp) => match tp.ask {
            Some(a) => Some(a@),
            None => None,
        },
        None => None,
    }
}

impl ArbitrageDetector {
    /// Shares affordable and available for a bundle of cost `cost` (in millionths).
    pub open spec fn sizing(self, cost: int) -> int
        recommends cost > 0,
    {
        min_int(
            self.available_capital@ / cost,
            min_int(self.eth_liquidity as int, self.btc_liquidity as int),
        )
    }

    /// Cost and share count of the bundle of asks `pa` and `pb`, when it
    /// is worth buying.
    ///
    /// A bundle that costs one or more, or nothing, is never bought;
    /// nor one whose gain is below the threshold, nor one that sizes to zero.
    pub open spec fn bundle_outcome(self, pa: int, pb: int) -> Option<(int, int)> {
        let cost = pa + pb;
        if cost >= SCALE || cost <= 0 {
            None
        } else if SCALE - cost < self.min_profit_threshold@ {
            None
        } else if self.sizing(cost) == 0 {
            None
        } else {
            Some((cost, self.sizing(cost)))
        }
    }

    /// Whether the legs `a` and `b` are both priced and form a bundle worth buying.
    pub open spec fn qualifies(self, a: Option<TokenPrice>, b: Option<TokenPrice>) -> bool {
        &&& ask_of(a) is Some
        &&& ask_of(b) is Some
        &&& self.bundle_outcome(ask_of(a)->0, ask_of(b)->0) is Some
    }

    /// `o` is the opportunity for legs `a` (in market `ida`) and `b` (in market `idb`).
    pub open spec fn is_opportunity_for(
        self,
        o: ArbitrageOpportunity,
        a: TokenPrice,
        b: TokenPrice,
        ida: Seq<char>,
        idb: Seq<char>,
    ) -> bool {
        &&& a.ask is Some
        &&& b.ask is Some
        &&& o.eth_condition_id@ == ida
        &&& o.btc_condition_id@ == idb
        &&& o.eth_up_token_id@ == a.token_id@
        &&& o.btc_down_token_id@ == b.token_id@
        &&& o.eth_up_price == a.ask->0
        &&& o.btc_down_price == b.ask->0
        &&& self.bundle_outcome(o.eth_up_price@, o.btc_down_price@) == Some(
            (o.bundle_cost@, o.shares as int),
        )
        &&& o.profit_per_bundle@ == SCALE - o.bundle_cost@
        &&& o.total_cost@ == o.bundle_cost@ * o.shares
        &&& o.expected_profit@ == o.profit_per_bundle@ * o.shares
    }

    /// `r` is what detection gives for snapshot `s`: the opportunity of ETH-up
    /// with BTC-down, then that of ETH-down with BTC-up, each present exactly
    /// when its pair qualifies.
    pub open spec fn detect_result(self, s: MarketSnapshot, r: Seq<ArbitrageOpportunity>) -> bool {
        let first = self.qualifies(s.eth_market.up_token, s.btc_market.down_token);
        let second = self.qualifies(s.eth_market.down_token, s.btc_market.up_token);
        &&& r.len() == (if first { 1int } else { 0 }) + (if second { 1int } else { 0 })
        &&& first ==> self.is_opportunity_for(
            r[0],
            s.eth_market.up_token->0,
            s.btc_market.down_token->0,
            s.eth_market.condition_id@,
            s.btc_market.condition_id@,
        )
        &&& second ==> self.is_opportunity_for(
            r[r.len() - 1],
            s.eth_market.down_token->0,
            s.btc_market.up_token->0,
            s.eth_market.condition_id@,
            s.btc_market.condition_id@,
        )
    }

    /// A detector with the default capital and liquidity estimates.
    pub fn new(min_profit_threshold: Fixed) -> (r: Self)
        ensures
            r.min_profit_threshold == min_profit_threshold,
            r.available_capital@ == DEFAULT_CAPITAL_MICROS,
            r.eth_liquidity == DEFAULT_LIQUIDITY,
            r.btc_liquidity == DEFAULT_LIQUIDITY,
    {
        ArbitrageDetector {
            min_profit_threshold,
            available_capital: Fixed::from_micros(DEFAULT_CAPITAL_MICROS),
            eth_liquidity: DEFAULT_LIQUIDITY,
            btc_liquidity: DEFAULT_LIQUIDITY,
        }
    }

    /// A detector with explicit capital and per-leg liquidity estimates.
    pub fn with_limits(
        min_profit_threshold: Fixed,
        available_capital: Fixed,
        eth_liquidity: u64,
        btc_liquidity: u64,
    ) -> (r: Self)
        ensures
            r.min_profit_threshold == min_profit_threshold,
            r.available_capital == available_capital,
            r.eth_liquidity == eth_liquidity,
            r.btc_liquidity == btc_liquidity,
    {
        ArbitrageDetector { min_profit_threshold, available_capital, eth_liquidity, btc_liquidity }
    }

    /// The opportunities of a snapshot: first ETH-up with BTC-down, then
    /// ETH-down with BTC-up, each present exactly when it qualifies.
    pub fn detect_opportunities(&self, snapshot: &MarketSnapshot) -> (r: Vec<ArbitrageOpportunity>)
        ensures
            self.detect_result(*snapshot, r@),
    {
        let mut opportunities: Vec<ArbitrageOpportunity> = Vec::new();
        let eth = &snapshot.eth_market;
        let btc = &snapshot.btc_market;
        if let (Some(e), Some(b)) = (&eth.up_token, &btc.down_token) {
            if let Some(o) = self.build_opportunity(e, b, eth.condition_id.as_str(), btc.condition_id.as_str()) {
                opportunities.push(o);
            }
        }
        let ghost n1 = opportunities.len();
        if let (Some(e), Some(b)) = (&eth.down_token, &btc.up_token) {
            if let Some(o) = self.build_opportunity(e, b, eth.condition_id.as_str(), btc.condition_id.as_str()) {
                opportunities.push(o);
            }
        }
        proof {
            if n1 == 1 {
                assert(opportunities[0] == opportunities@[0]);
            }
        }
        opportunities
    }

    /// The opportunity for one pair of legs, if the pair qualifies.
    pub fn build_opportunity(
        &self,
        eth_token: &TokenPrice,
        btc_token: &TokenPrice,
        eth_condition_id: &str,
        btc_condition_id: &str,
    ) -> (r: Option<ArbitrageOpportunity>)
        ensures
            r is Some <==> self.qualifies(Some(*eth_token), Some(*btc_token)),
            r is Some ==> self.is_opportunity_for(
                r->0,
                *eth_token,
                *btc_token,
                eth_condition_id@,
                btc_condition_id@,
            ),
    {
        let eth_price = match eth_token.ask {
            Some(p) => p,
            None => return None,
        };
        let btc_price = match btc_token.ask {
            Some(p) => p,
            None => return None,
        };
        if eth_price.micros >= SCALE || btc_price.micros >= SCALE {
            return None;
        }
        let cost: u128 = eth_price.micros + btc_price.micros;
        if cost >= SCALE || cost == 0 {
            return None;
        }
        let profit: u128 = SCALE - cost;
        if profit < self.min_profit_threshold.micros {
            return None;
        }
        let max_by_capital: u128 = self.available_capital.micros / cost;
        let max_by_liquidity: u64 = if self.eth_liquidity <= self.btc_liquidity {
            self.eth_liquidity
        } else {
            self.btc_liquidity
        };
        let shares: u64 = if max_by_capital <= max_by_liquidity as u128 {
            max_by_capital as u64
        } else {
            max_by_liquidity
        };
        if shares == 0 {
            return None;
        }
        proof {
            lemma_cost_times_shares_within_capital(self.available_capital@, cost as int, shares as int);
            assert(profit * shares <= SCALE * 0x1_0000_0000_0000_0000) by (nonlinear_arith)
                requires profit < SCALE, shares < 0x1_0000_0000_0000_0000int;
        }
        let total_cost: u128 = cost * shares as u128;
        let expected_profit: u128 = profit * shares as u128;
        Some(ArbitrageOpportunity {
            eth_condition_id: eth_condition_id.to_owned(),
            btc_condition_id: btc_condition_id.to_owned(),
            eth_up_token_id: eth_token.token_id.clone(),
            btc_down_token_id: btc_token.token_id.clone(),
            eth_up_price: eth_price,
            btc_down_price: btc_price,
            bundle_cost: Fixed::from_micros(cost),
            profit_per_bundle: Fixed::from_micros(profit),
            shares,
            total_cost: Fixed::from_micros(total_cost),
            expected_profit: Fixed::from_micros(expected_profit),
        })
    }
}

/// A bundle whose asks sum to one or more is never an opportunity, whatever
/// the threshold, capital and liquidity.
pub proof fn lemma_no_opportunity_at_or_above_one(d: ArbitrageDetector, a: TokenPrice, b: TokenPrice)
    requires
        a.ask is Some,
        b.ask is Some,
        a.ask->0@ + b.ask->0@ >= SCALE,
    ensures
        !d.qualifies(Some(a), Some(b)),
{
}

/// A bundle of positive cost `c` below one whose gain `1 - c` reaches the
/// threshold is an opportunity as soon as it sizes to at least one share,
/// and its expected profit is exactly that gain times the share count.
pub proof fn lemma_profitable_bundle_is_found(d: ArbitrageDetector, a: TokenPrice, b: TokenPrice)
    requires
        a.ask is Some,
        b.ask is Some,
        0 < a.ask->0@ + b.ask->0@ < SCALE,
        SCALE - (a.ask->0@ + b.ask->0@) >= d.min_profit_threshold@,
        d.sizing(a.ask->0@ + b.ask->0@) > 0,
    ensures
        d.qualifies(Some(a), Some(b)),
        forall|o: ArbitrageOpportunity, ida: Seq<char>, idb: Seq<char>|
            #[trigger] d.is_opportunity_for(o, a, b, ida, idb) ==> {
                &&& o.shares == d.sizing(a.ask->0@ + b.ask->0@)
                &&& o.expected_profit@ == (SCALE - (a.ask->0@ + b.ask->0@)) * o.shares
            },
{
}

/// The share count of a bundle worth buying is positive, affordable with the
/// available capital, and within the liquidity of both legs.
pub proof fn lemma_shares_bounded(d: ArbitrageDetector, pa: int, pb: int)
    requires
        d.bundle_outcome(pa, pb) is Some,
    ensures
        ({
            let (cost, shares) = d.bundle_outcome(pa, pb)->0;
            &&& cost == pa + pb
            &&& 0 < shares
            &&& shares <= d.available_capital@ / cost
            &&& shares <= d.eth_liquidity
            &&& shares <= d.btc_liquidity
        }),
{
    let cost = pa + pb;
    vstd::arithmetic::div_mod::lemma_div_pos_is_pos(d.available_capital@, cost);
}

/// Cost in millionths of the legs `a` and `b`, both priced.
pub open spec fn pair_cost(a: Option<TokenPrice>, b: Option<TokenPrice>) -> int {
    ask_of(a)->0 + ask_of(b)->0
}

/// Detection reports nothing for a leg pair whose asks sum to one or more:
/// the result then holds only the other pair's opportunity, if that pair
/// qualifies.
pub proof fn lemma_detect_skips_bundles_at_or_above_one(
    d: ArbitrageDetector,
    s: MarketSnapshot,
    r: Seq<ArbitrageOpportunity>,
)
    requires
        d.detect_result(s, r),
    ensures
        ({
            let (eu, ed, bu, bd) = (s.eth_market.up_token, s.eth_market.down_token, s.btc_market.up_token, s.btc_market.down_token);
            &&& (ask_of(eu) is Some && ask_of(bd) is Some && pair_cost(eu, bd) >= SCALE) ==> {
                &&& r.len() == if d.qualifies(ed, bu) { 1int } else { 0 }
                &&& r.len() == 1 ==> d.is_opportunity_for(r[0], ed->0, bu->0, s.eth_market.condition_id@, s.btc_market.condition_id@)
            }
            &&& (ask_of(ed) is Some && ask_of(bu) is Some && pair_cost(ed, bu) >= SCALE) ==> {
                &&& r.len() == if d.qualifies(eu, bd) { 1int } else { 0 }
                &&& r.len() == 1 ==> d.is_opportunity_for(r[0], eu->0, bd->0, s.eth_market.condition_id@, s.btc_market.condition_id@)
            }
        }),
{
}

/// Detection reports a leg pair whose positive cost `c` is below one, whose
/// gain `1 - c` reaches the threshold and which sizes to at least one share:
/// the first pair at the front of the result, the second at its end, each
/// with exactly its asks and an expected profit of exactly `(1 - c)` times
/// its share count.
pub proof fn lemma_detect_reports_profitable_bundles(
    d: ArbitrageDetector,
    s: MarketSnapshot,
    r: Seq<ArbitrageOpportunity>,
)
    requires
        d.detect_result(s, r),
    ensures
        ({
            let (eu, ed, bu, bd) = (s.eth_market.up_token, s.eth_market.down_token, s.btc_market.up_token, s.btc_market.down_token);
            &&& (ask_of(eu) is Some && ask_of(bd) is Some && 0 < pair_cost(eu, bd) < SCALE
                && SCALE - pair_cost(eu, bd) >= d.min_profit_threshold@ && d.sizing(pair_cost(eu, bd)) > 0) ==> {
                &&& r.len() >= 1
                &&& d.is_opportunity_for(r[0], eu->0, bd->0, s.eth_market.condition_id@, s.btc_market.condition_id@)
                &&& r[0].eth_up_price == eu->0.ask->0
                &&& r[0].btc_down_price == bd->0.ask->0
                &&& r[0].shares == d.sizing(pair_cost(eu, bd))
                &&& r[0].expected_profit@ == (SCALE - pair_cost(eu, bd)) * r[0].shares
            }
            &&& (ask_of(ed) is Some && ask_of(bu) is Some && 0 < pair_cost(ed, bu) < SCALE
                && SCALE - pair_cost(ed, bu) >= d.min_profit_threshold@ && d.sizing(pair_cost(ed, bu)) > 0) ==> {
                &&& r.len() >= 1
                &&& d.is_opportunity_for(r[r.len() - 1], ed->0, bu->0, s.eth_market.condition_id@, s.btc_market.condition_id@)
                &&& r[r.len() - 1].eth_up_price == ed->0.ask->0
                &&& r[r.len() - 1].btc_down_price == bu->0.ask->0
                &&& r[r.len() - 1].shares == d.sizing(pair_cost(ed, bu))
                &&& r[r.len() - 1].expected_profit@ == (SCALE - pair_cost(ed, bu)) * r[r.len() - 1].shares
            }
        }),
{
}

/// Buying `shares <= capital / cost` bundles spends at most `capital`.
proof fn lemma_cost_times_shares_within_capital(capital: int, cost: int, shares: int)
    requires
        capital >= 0,
        cost > 0,
        0 <= shares <= capital / cost,
    ensures
        cost * shares <= capital,
{
    assert(cost * shares <= cost * (capital / cost)) by (nonlinear_arith)
        requires cost > 0, shares <= capital / cost;
    vstd::arithmetic::div_mod::lemma_fundamental_div_mod(capital, cost);
    assert(capital % cost >= 0) by {
        vstd::arithmetic::div_mod::lemma_mod_pos_bound(capital, cost);
    }
}

} // verus!
