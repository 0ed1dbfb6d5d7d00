//! Finding the current market of an asset from its slug pattern.

use crate::domain::Market;
use crate::monitor::{period_of, period_start, PERIOD_SECS};
use crate::text::{decimal_text, u64_text};
use vstd::prelude::*;
use vstd::string::StringExecFns;

verus! {

/// How many periods, the current one included, are tried.
pub const LOOKBACK_PERIODS: u64 = 4;

/// The text between the asset prefix and the period start in a slug.
pub open spec fn slug_infix() -> Seq<char> {
    seq!['-', 'u', 'p', 'd', 'o', 'w', 'n', '-', '1', '5', 'm', '-']
}

/// Number of candidate periods at second `now`: four, or fewer near the epoch.
pub open spec fn candidate_count(now: int) -> int {
    if period_start(now) / 900 + 1 < 4 {
        period_start(now) / 900 + 1
    } else {
        4
    }
}

/// Starts of the period holding `now` and of the periods before it, newest
/// first, four at most and none before the epoch.
pub fn candidate_periods(now: u64) -> (r: Vec<u64>)
    ensures
        r.len() == candidate_count(now as int),
        forall|i: int| 0 <= i < r.len() ==> #[trigger] r[i] == period_start(now as int) - i * 900,
{
    let base = period_of(now);
    let available: u64 = base / PERIOD_SECS + 1;
    let count: u64 = if available < LOOKBACK_PERIODS { available } else { LOOKBACK_PERIODS };
    let mut r: Vec<u64> = Vec::new();
    let mut i: u64 = 0;
    while i < count
        invariant
            0 <= i <= count,
            count <= LOOKBACK_PERIODS,
            count <= base / 900 + 1,
            base == period_start(now as int),
            r.len() == i,
            forall|j: int| 0 <= j < i ==> #[trigger] r[j] == base - j * 900,
        decreases count - i,
    {
        assert(i * 900 <= base) by (nonlinear_arith)
            requires i <= base / 900, base >= 0;
        r.push(base - i * PERIOD_SECS);
        i = i + 1;
    }
    r
}

/// The slug of the market of asset `prefix` for the period starting at `start`.
pub fn market_slug(prefix: &str, start: u64) -> (r: String)
    ensures
        r@ == prefix@ + slug_infix() + decimal_text(start as nat),
{
    proof {
        reveal_strlit("-updown-15m-");
        assert("-updown-15m-"@ =~= slug_infix());
    }
    let mut slug = String::from_str(prefix);
    slug.append("-updown-15m-");
    let digits = u64_text(start);
    slug.append(digits.as_str());
    slug
}

/// Whether a discovered market can be taken: active, not closed, and not
/// already taken by the other asset.
pub fn accepts_market(market: &Market, seen: &Vec<String>) -> (r: bool)
    ensures
        r == (market.active && !market.closed && forall|j: int|
            0 <= j < seen.len() ==> #[trigger] seen[j]@ != market.condition_id@),
{
    if !market.active || market.closed {
        return false;
    }
    let mut j: usize = 0;
    while j < seen.len()
        invariant
            0 <= j <= seen.len(),
            forall|k: int| 0 <= k < j ==> #[trigger] seen[k]@ != market.condition_id@,
        decreases seen.len() - j,
    {
        if seen[j] == market.condition_id {
            return false;
        }
        j = j + 1;
    }
    true
}

} // verus!
