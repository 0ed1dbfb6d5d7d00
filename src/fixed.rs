//! Exact non-negative decimal amounts with six fraction digits.

use vstd::prelude::*;

verus! {

/// Number of millionths in one whole unit.
pub const SCALE: u128 = 1_000_000;

/// A non-negative decimal amount, held exactly as a count of millionths.
///
/// Prices, sizes and monetary totals all use this representation, so that
/// sums and products never suffer binary rounding.
#[derive(Clone, Copy, Debug, PartialEq, Eq, Structural)]
pub struct Fixed {
    pub micros: u128,
}

impl Fixed {
    /// The amount in millionths, as a mathematical integer.
    pub open spec fn view(self) -> int {
        self.micros as int
    }

    pub fn from_micros(micros: u128) -> (r: Fixed)
        ensures
            r.micros == micros,
    {
        Fixed { micros }
    }

    /// The whole number `n`.
    pub fn from_units(n: u64) -> (r: Fixed)
        ensures
            r.micros == n * SCALE,
    {
        Fixed { micros: n as u128 * SCALE }
    }

    pub fn zero() -> (r: Fixed)
        ensures
            r.micros == 0,
    {
        Fixed { micros: 0 }
    }
}

/// Ten to the power `n`.
pub open spec fn pow10(n: nat) -> int
    decreases n,
{
    if n == 0 {
        1
    } else {
        10 * pow10((n - 1) as nat)
    }
}

/// The decimal `mantissa / 10^scale` in millionths; `None` when it is
/// negative, is not a whole number of millionths, or does not fit in 128 bits.
pub open spec fn micros_of_decimal(mantissa: int, scale: nat) -> Option<int> {
    if mantissa < 0 {
        None
    } else if scale <= 6 {
        let v = mantissa * pow10((6 - scale) as nat);
        if v > u128::MAX {
            None
        } else {
            Some(v)
        }
    } else if mantissa % pow10((scale - 6) as nat) != 0 {
        None
    } else {
        Some(mantissa / pow10((scale - 6) as nat))
    }
}

/// What `rust_decimal::Decimal::from_str` reads from `s`: its mantissa and
/// scale, or `None` when `s` is no decimal.
pub uninterp spec fn decimal_parse_of(s: Seq<char>) -> Option<(int, int)>;

/// Relies on `rust_decimal::Decimal::from_str`, `mantissa` and `scale`: the
/// parsed value is `mantissa / 10^scale`.
#[verifier::external_body]
fn parse_decimal(s: &str) -> (r: Option<(i128, u32)>)
    ensures
        match r {
            Some((m, e)) => decimal_parse_of(s@) == Some((m as int, e as int)),
            None => decimal_parse_of(s@) is None,
        },
{
    s.parse::<rust_decimal::Decimal>().ok().map(|d| (d.mantissa(), d.scale()))
}

proof fn lemma_pow10_positive(n: nat)
    ensures
        pow10(n) >= 1,
    decreases n,
{
    if n > 0 {
        lemma_pow10_positive((n - 1) as nat);
    }
}

proof fn lemma_pow10_monotone(a: nat, b: nat)
    requires
        a <= b,
    ensures
        pow10(a) <= pow10(b),
    decreases b,
{
    if a < b {
        lemma_pow10_monotone(a, (b - 1) as nat);
        lemma_pow10_positive((b - 1) as nat);
    }
}

/// Ten to the power `n`, for exponents that fit.
fn pow10_u128(n: u32) -> (r: u128)
    requires
        n <= 38,
    ensures
        r == pow10(n as nat),
{
    proof {
        reveal_with_fuel(pow10, 39);
        assert(pow10(38) == 100_000_000_000_000_000_000_000_000_000_000_000_000);
    }
    let mut r: u128 = 1;
    let mut i: u32 = 0;
    while i < n
        invariant
            i <= n <= 38,
            r == pow10(i as nat),
            pow10(38) == 100_000_000_000_000_000_000_000_000_000_000_000_000,
        decreases n - i,
    {
        proof {
            lemma_pow10_monotone((i + 1) as nat, 38);
        }
        r = r * 10;
        i = i + 1;
    }
    r
}

impl Fixed {
    /// The decimal `mantissa / 10^scale` in millionths; `None` when it is
    /// negative, finer than a millionth, or too large.
    pub fn from_decimal_parts(mantissa: i128, scale: u32) -> (r: Option<Fixed>)
        ensures
            r == match micros_of_decimal(mantissa as int, scale as nat) {
                Some(v) => Some(Fixed { micros: v as u128 }),
                None => None::<Fixed>,
            },
    {
        if mantissa < 0 {
            return None;
        }
        let m = mantissa as u128;
        if scale <= 6 {
            let f = pow10_u128(6 - scale);
            match m.checked_mul(f) {
                Some(v) => Some(Fixed { micros: v }),
                None => None,
            }
        } else if scale - 6 > 38 {
            proof {
                reveal_with_fuel(pow10, 39);
                assert(pow10(38) == 100_000_000_000_000_000_000_000_000_000_000_000_000);
                lemma_pow10_monotone(39, (scale - 6) as nat);
                assert(pow10(39) == 10 * pow10(38));
                vstd::arithmetic::div_mod::lemma_small_mod(m as nat, pow10((scale - 6) as nat) as nat);
                vstd::arithmetic::div_mod::lemma_basic_div(m as int, pow10((scale - 6) as nat));
            }
            if m == 0 {
                Some(Fixed { micros: 0 })
            } else {
                None
            }
        } else {
            let d = pow10_u128(scale - 6);
            proof {
                lemma_pow10_positive((scale - 6) as nat);
                vstd::arithmetic::div_mod::lemma_div_is_ordered_by_denominator(m as int, 1, d as int);
            }
            if m % d != 0 {
                None
            } else {
                Some(Fixed { micros: m / d })
            }
        }
    }

    /// The price written as decimal text in `text`, in millionths.
    pub fn parse_decimal_text(text: &str) -> (r: Option<Fixed>)
        ensures
            r == match decimal_parse_of(text@) {
                Some((m, e)) => match micros_of_decimal(m, e as nat) {
                    Some(v) => Some(Fixed { micros: v as u128 }),
                    None => None::<Fixed>,
                },
                None => None::<Fixed>,
            },
    {
        match parse_decimal(text) {
            Some((m, e)) => Fixed::from_decimal_parts(m, e),
            None => None,
        }
    }
}

} // verus!
