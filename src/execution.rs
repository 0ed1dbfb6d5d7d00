//! Turning one opportunity into two buy orders.

use crate::domain::{ArbitrageOpportunity, OrderRequest};
use crate::fixed::{Fixed, SCALE};
use crate::text::{decimal_text, digit_char};
use vstd::prelude::*;

verus! {

/// Seconds for which an order stays valid.
pub const ORDER_LIFETIME_SECS: u64 = 300;

/// Side code of a buy order.
pub const SIDE_BUY: u8 = 0;

/// Largest amount in millionths that decimal text can show.
pub const MAX_TEXT_MICROS: u128 = 0xffff_ffff_ffff_ffff_ffff_ffff;

/// The last `width` decimal digits of `n`, zero-padded on the left.
pub open spec fn padded_digits(n: nat, width: nat) -> Seq<char>
    decreases width,
{
    if width == 0 {
        Seq::empty()
    } else {
        padded_digits(n / 10, (width - 1) as nat).push(digit_char((n % 10) as int))
    }
}

/// The decimal text of `micros` millionths: the whole part, a point, and
/// all six fraction digits (`0.520000`, `10.000000`).
pub open spec fn fixed_text_of(micros: int) -> Seq<char> {
    decimal_text((micros / 1_000_000) as nat) + seq!['.'] + padded_digits((micros % 1_000_000) as nat, 6)
}

/// The keccak-256 digest of the UTF-8 bytes of `s`.
pub uninterp spec fn keccak_of(s: Seq<char>) -> Seq<u8>;

/// Relies on `rust_decimal::Decimal::from_i128_with_scale` and its `Display`:
/// the digits of the mantissa, with a point inserted before the last `scale`
/// of them, a `0` before the point when nothing else stands there, and no
/// sign for a non-negative value. The constructor panics above 2^96 - 1,
/// which `requires` leaves out.
#[verifier::external_body]
fn fixed_text(micros: u128) -> (r: String)
    requires
        micros <= MAX_TEXT_MICROS,
    ensures
        r@ == fixed_text_of(micros as int),
{
    rust_decimal::Decimal::from_i128_with_scale(micros as i128, 6).to_string()
}

/// Relies on `ethers::utils::keccak256`: the 32-byte digest of the bytes of `s`.
#[verifier::external_body]
fn keccak_text(s: &str) -> (r: Vec<u8>)
    ensures
        r@ == keccak_of(s@),
        r@.len() == 32,
{
    ethers::utils::keccak256(s.as_bytes()).to_vec()
}

/// The terms of one order leg, as they are signed.
#[derive(Clone, Debug)]
pub struct ClobOrder {
    /// Keccak-256 digest of the token id: the 32-byte handle that is signed.
    pub token_id: Vec<u8>,
    /// `SIDE_BUY` or 1 for a sell.
    pub side: u8,
    /// Price in millionths.
    pub price: u128,
    /// Size in millionths of a share.
    pub size: u128,
    /// Unix second after which the order lapses.
    pub expiration: u64,
    pub nonce: u64,
}

/// Both legs of one opportunity, ready to sign and submit.
#[derive(Clone, Debug)]
pub struct TradePlan {
    pub shares: u128,
    /// The nonce of the second leg: the last nonce this plan uses.
    pub last_nonce: u64,
    pub first: ClobOrder,
    pub second: ClobOrder,
    pub first_request: OrderRequest,
    pub second_request: OrderRequest,
}

/// Why an opportunity is not traded.
#[derive(Clone, Copy, Debug, PartialEq, Eq, Structural)]
pub enum TradeSkip {
    /// A market no longer accepts orders.
    MarketClosed,
    /// The position sizes to zero shares.
    ZeroSize,
    /// The position is too large to express as an order.
    TooLarge,
}

/// Bundles affordable with `max_position` millionths at bundle cost `cost`;
/// nothing when the cost is zero.
pub open spec fn position_size_of(max_position: int, cost: int) -> int {
    if cost <= 0 {
        0
    } else {
        max_position / cost
    }
}

/// Cost of one bundle of the opportunity: the sum of its two asks.
pub open spec fn bundle_cost_of(o: ArbitrageOpportunity) -> int {
    o.eth_up_price@ + o.btc_down_price@
}

/// Shares to buy under a position limit of `max_position`: the limit
/// divided by the bundle cost, rounded down; zero for a zero cost.
pub fn calculate_position_size(max_position: Fixed, opportunity: &ArbitrageOpportunity) -> (r: Option<u128>)
    ensures
        bundle_cost_of(*opportunity) <= u128::MAX ==> r == Some(
            position_size_of(max_position@, bundle_cost_of(*opportunity)) as u128,
        ),
        bundle_cost_of(*opportunity) > u128::MAX ==> r is None,
{
    let a = opportunity.eth_up_price.micros;
    let b = opportunity.btc_down_price.micros;
    if a > u128::MAX - b {
        return None;
    }
    let cost = a + b;
    if cost == 0 {
        return Some(0);
    }
    proof {
        vstd::arithmetic::div_mod::lemma_div_is_ordered_by_denominator(max_position@, 1, cost as int);
    }
    Some(max_position.micros / cost)
}

/// `t` is the buy leg of `token_id` at `price` for `shares` shares, signed
/// at second `now` with nonce `nonce`.
pub open spec fn leg_matches(t: ClobOrder, token_id: Seq<char>, price: Fixed, shares: int, now: int, nonce: int) -> bool {
    &&& t.token_id@ == keccak_of(token_id)
    &&& t.side == SIDE_BUY
    &&& t.price == price.micros
    &&& t.size == shares * SCALE
    &&& t.expiration == now + ORDER_LIFETIME_SECS
    &&& t.nonce == nonce
}

/// `q` is the wire form of a limit buy of `token_id` at `price` for `shares` shares.
pub open spec fn request_matches(q: OrderRequest, token_id: Seq<char>, price: Fixed, shares: int) -> bool {
    &&& q.token_id@ == token_id
    &&& q.side@ == seq!['B', 'U', 'Y']
    &&& q.order_type@ == seq!['L', 'I', 'M', 'I', 'T']
    &&& q.price@ == fixed_text_of(price@)
    &&& q.size@ == fixed_text_of(shares * SCALE)
}

/// The first nonce of a plan at second `now`, after `last` was used: the
/// second itself, or one above the last nonce if that is later.
pub open spec fn first_nonce(now: int, last: Option<u64>) -> int {
    match last {
        Some(l) => if l + 1 > now {
            l + 1
        } else {
            now
        },
        None => now,
    }
}

/// Whether the plan for `o` can be written: sizes, prices, stamps and nonces all fit.
pub open spec fn plan_fits(o: ArbitrageOpportunity, shares: int, now: int, last: Option<u64>) -> bool {
    &&& shares * SCALE <= MAX_TEXT_MICROS
    &&& o.eth_up_price@ <= MAX_TEXT_MICROS
    &&& o.btc_down_price@ <= MAX_TEXT_MICROS
    &&& now + ORDER_LIFETIME_SECS <= u64::MAX
    &&& first_nonce(now, last) + 1 <= u64::MAX
}

/// Nonces never repeat: a plan made after another, given the earlier plan's
/// last nonce, signs only nonces above every nonce of the earlier plan, and
/// within a plan the second leg's nonce is above the first's.
pub proof fn lemma_successive_plans_nonces_increase(now1: int, last1: Option<u64>, now2: int)
    requires
        first_nonce(now1, last1) + 1 <= u64::MAX,
    ensures
        ({
            let first1 = first_nonce(now1, last1);
            let last_of_plan1 = (first1 + 1) as u64;
            let first2 = first_nonce(now2, Some(last_of_plan1));
            &&& first1 < first1 + 1 < first2 < first2 + 1
            &&& first1 >= now1
            &&& first2 >= now2
        }),
{
}

/// Two buy orders for `opportunity` at second `now`, under a position limit
/// of `max_position`, provided both markets still accept orders.
///
/// Both legs take the same size and expiry. `last_nonce` is the last nonce
/// used so far, if any: the first leg's nonce is `now` or one above it,
/// whichever is later, and the second leg's is one above the first's.
pub fn plan_trade(
    opportunity: &ArbitrageOpportunity,
    max_position: Fixed,
    eth_accepting: bool,
    btc_accepting: bool,
    now: u64,
    last_nonce: Option<u64>,
) -> (r: Result<TradePlan, TradeSkip>)
    ensures
        !(eth_accepting && btc_accepting) ==> r == Err::<TradePlan, TradeSkip>(TradeSkip::MarketClosed),
        eth_accepting && btc_accepting ==> {
            let o = *opportunity;
            let cost = bundle_cost_of(o);
            let shares = position_size_of(max_position@, cost);
            let n = first_nonce(now as int, last_nonce);
            if cost > u128::MAX || !plan_fits(o, shares, now as int, last_nonce) {
                r == Err::<TradePlan, TradeSkip>(TradeSkip::TooLarge)
            } else if shares == 0 {
                r == Err::<TradePlan, TradeSkip>(TradeSkip::ZeroSize)
            } else {
                &&& r is Ok
                &&& r->Ok_0.shares == shares
                &&& r->Ok_0.last_nonce == n + 1
                &&& leg_matches(r->Ok_0.first, o.eth_up_token_id@, o.eth_up_price, shares, now as int, n)
                &&& leg_matches(r->Ok_0.second, o.btc_down_token_id@, o.btc_down_price, shares, now as int, n + 1)
                &&& request_matches(r->Ok_0.first_request, o.eth_up_token_id@, o.eth_up_price, shares)
                &&& request_matches(r->Ok_0.second_request, o.btc_down_token_id@, o.btc_down_price, shares)
            }
        },
{
    if !(eth_accepting && btc_accepting) {
        return Err(TradeSkip::MarketClosed);
    }
    let shares = match calculate_position_size(max_position, opportunity) {
        Some(s) => s,
        None => return Err(TradeSkip::TooLarge),
    };
    if shares > MAX_TEXT_MICROS / SCALE || opportunity.eth_up_price.micros > MAX_TEXT_MICROS
        || opportunity.btc_down_price.micros > MAX_TEXT_MICROS || now > u64::MAX - ORDER_LIFETIME_SECS {
        proof {
            if shares > MAX_TEXT_MICROS / SCALE {
                assert(shares * SCALE > MAX_TEXT_MICROS) by (nonlinear_arith)
                    requires shares > MAX_TEXT_MICROS / SCALE;
            }
        }
        return Err(TradeSkip::TooLarge);
    }
    proof {
        assert(shares * SCALE <= MAX_TEXT_MICROS) by (nonlinear_arith)
            requires shares <= MAX_TEXT_MICROS / SCALE;
    }
    let nonce: u64 = match last_nonce {
        Some(l) => if l == u64::MAX {
            return Err(TradeSkip::TooLarge);
        } else if l + 1 > now {
            l + 1
        } else {
            now
        },
        None => now,
    };
    if nonce == u64::MAX {
        return Err(TradeSkip::TooLarge);
    }
    if shares == 0 {
        return Err(TradeSkip::ZeroSize);
    }
    let size_scaled = shares * SCALE;
    let size_text = fixed_text(size_scaled);
    let expiration = now + ORDER_LIFETIME_SECS;
    let first = ClobOrder {
        token_id: keccak_text(opportunity.eth_up_token_id.as_str()),
        side: SIDE_BUY,
        price: opportunity.eth_up_price.micros,
        size: size_scaled,
        expiration,
        nonce,
    };
    let second = ClobOrder {
        token_id: keccak_text(opportunity.btc_down_token_id.as_str()),
        side: SIDE_BUY,
        price: opportunity.btc_down_price.micros,
        size: size_scaled,
        expiration,
        nonce: nonce + 1,
    };
    let first_request = buy_request(&opportunity.eth_up_token_id, opportunity.eth_up_price, size_text.clone());
    let second_request = buy_request(&opportunity.btc_down_token_id, opportunity.btc_down_price, size_text);
    Ok(TradePlan { shares, last_nonce: nonce + 1, first, second, first_request, second_request })
}

/// A limit buy of `token_id` at `price`, with the size already written out.
fn buy_request(token_id: &String, price: Fixed, size: String) -> (r: OrderRequest)
    requires
        price@ <= MAX_TEXT_MICROS,
    ensures
        r.token_id@ == token_id@,
        r.side@ == seq!['B', 'U', 'Y'],
        r.order_type@ == seq!['L', 'I', 'M', 'I', 'T'],
        r.price@ == fixed_text_of(price@),
        r.size@ == size@,
{
    proof {
        reveal_strlit("BUY");
        reveal_strlit("LIMIT");
        assert("BUY"@ =~= seq!['B', 'U', 'Y']);
        assert("LIMIT"@ =~= seq!['L', 'I', 'M', 'I', 'T']);
    }
    OrderRequest {
        token_id: token_id.clone(),
        side: "BUY".to_owned(),
        size,
        price: fixed_text(price.micros),
        order_type: "LIMIT".to_owned(),
    }
}

} // verus!
