//! Credentials, request signing and the order-submission gate of the
//! exchange client.

use crate::domain::{Balance, OrderRequest};
use crate::fixed::Fixed;
use crate::text::{to_upper, upper_of};
use base64::Engine;
use hmac::Mac;
use vstd::prelude::*;
use vstd::string::StringExecFns;

verus! {

/// The HMAC-SHA256 tag of the UTF-8 bytes of `msg` under the UTF-8 bytes of `key`.
pub uninterp spec fn hmac_sha256_of(key: Seq<char>, msg: Seq<char>) -> Seq<u8>;

/// The standard, padded base64 text of `bytes`.
pub uninterp spec fn base64_of(bytes: Seq<u8>) -> Seq<char>;

/// Relies on `hmac::Hmac<sha2::Sha256>`: `new_from_slice` accepts a key of
/// any length, and `finalize` yields the 32-byte tag of what was fed to `update`.
#[verifier::external_body]
fn hmac_sha256(key: &str, msg: &str) -> (r: Vec<u8>)
    ensures
        r@ == hmac_sha256_of(key@, msg@),
        r@.len() == 32,
{
    let mut mac = <hmac::Hmac<sha2::Sha256> as Mac>::new_from_slice(key.as_bytes()).expect("HMAC accepts keys of any length");
    mac.update(msg.as_bytes());
    mac.finalize().into_bytes().to_vec()
}

/// Relies on `base64::engine::general_purpose::STANDARD.encode`: standard
/// alphabet, with padding.
#[verifier::external_body]
fn base64_standard(bytes: &Vec<u8>) -> (r: String)
    ensures
        r@ == base64_of(bytes@),
{
    base64::engine::general_purpose::STANDARD.encode(bytes)
}

/// The code of `c` once an ASCII capital is lower-cased.
pub open spec fn ascii_lower_code(c: char) -> u32 {
    if 'A' <= c && c <= 'Z' {
        (c as u32 + 32) as u32
    } else {
        c as u32
    }
}

/// `a` and `b` are equal once ASCII letters are lower-cased.
pub open spec fn eq_ascii_nocase(a: Seq<char>, b: Seq<char>) -> bool {
    &&& a.len() == b.len()
    &&& forall|i: int| 0 <= i < a.len() ==> ascii_lower_code(#[trigger] a[i]) == ascii_lower_code(b[i])
}

fn lower_code(c: char) -> (r: u32)
    ensures
        r == ascii_lower_code(c),
{
    if 'A' <= c && c <= 'Z' {
        c as u32 + 32
    } else {
        c as u32
    }
}

/// Whether `a` and `b` are equal once ASCII letters are lower-cased.
fn eq_ignore_ascii_case(a: &str, b: &str) -> (r: bool)
    ensures
        r == eq_ascii_nocase(a@, b@),
{
    let n = a.unicode_len();
    if n != b.unicode_len() {
        return false;
    }
    let mut i: usize = 0;
    while i < n
        invariant
            n == a@.len() == b@.len(),
            0 <= i <= n,
            forall|k: int| 0 <= k < i ==> ascii_lower_code(#[trigger] a@[k]) == ascii_lower_code(b@[k]),
        decreases n - i,
    {
        if lower_code(a.get_char(i)) != lower_code(b.get_char(i)) {
            return false;
        }
        i = i + 1;
    }
    true
}

/// The text that a request signature covers.
pub open spec fn request_payload(method: Seq<char>, path: Seq<char>, body: Seq<char>, timestamp: Seq<char>) -> Seq<char> {
    timestamp + upper_of(method) + path + body
}

/// The signature of a request under `secret`.
pub open spec fn request_signature(
    secret: Seq<char>,
    method: Seq<char>,
    path: Seq<char>,
    body: Seq<char>,
    timestamp: Seq<char>,
) -> Seq<char> {
    base64_of(hmac_sha256_of(secret, request_payload(method, path, body, timestamp)))
}

/// Path of the order endpoint.
pub open spec fn orders_path() -> Seq<char> {
    seq!['/', 'o', 'r', 'd', 'e', 'r', 's']
}

pub open spec fn post_method() -> Seq<char> {
    seq!['P', 'O', 'S', 'T']
}

/// A signed order as it is submitted.
#[derive(Clone, Debug)]
pub struct SignedOrderPayload {
    pub order: OrderRequest,
    pub signature: String,
    pub address: String,
}

/// The authentication headers of one order submission.
#[derive(Clone, Debug)]
pub struct SubmissionHeaders {
    pub api_key: String,
    pub signature: String,
    pub timestamp: String,
    pub passphrase: String,
}

/// Why an order submission is refused before anything is sent.
#[derive(Clone, Copy, Debug, PartialEq, Eq, Structural)]
pub enum SubmitError {
    /// The client is in read-only mode.
    ReadOnly,
}

impl SubmitError {
    /// The text that reports the refusal.
    pub fn message(&self) -> (r: String)
        ensures
            *self == SubmitError::ReadOnly ==> r@ == "READ-ONLY MODE ENABLED"@,
    {
        match self {
            SubmitError::ReadOnly => "READ-ONLY MODE ENABLED".to_owned(),
        }
    }
}

/// Credentials of the exchange API and the read-only switch.
#[derive(Clone, Debug)]
pub struct ApiCredentials {
    pub api_key: String,
    pub api_secret: String,
    pub api_passphrase: String,
    pub read_only: bool,
}

/// The first balance whose asset reads `USDC` in any ASCII case, or zero.
pub open spec fn usdc_of(bs: Seq<Balance>) -> int
    decreases bs.len(),
{
    if bs.len() == 0 {
        0
    } else if eq_ascii_nocase(bs[0].asset@, seq!['U', 'S', 'D', 'C']) {
        bs[0].balance@
    } else {
        usdc_of(bs.drop_first())
    }
}

/// The USDC balance among `balances`: the first whose asset reads `USDC`
/// in any ASCII case, or zero when there is none.
pub fn usdc_balance(balances: &Vec<Balance>) -> (r: Fixed)
    ensures
        r@ == usdc_of(balances@),
{
    proof {
        reveal_strlit("USDC");
        assert("USDC"@ =~= seq!['U', 'S', 'D', 'C']);
    }
    let mut i: usize = 0;
    assert(balances@.subrange(0, balances@.len() as int) =~= balances@);
    while i < balances.len()
        invariant
            0 <= i <= balances.len(),
            "USDC"@ == seq!['U', 'S', 'D', 'C'],
            usdc_of(balances@) == usdc_of(balances@.subrange(i as int, balances@.len() as int)),
        decreases balances.len() - i,
    {
        let ghost rest = balances@.subrange(i as int, balances@.len() as int);
        assert(rest.len() > 0 && rest[0] == balances@[i as int]);
        if eq_ignore_ascii_case(balances[i].asset.as_str(), "USDC") {
            assert(usdc_of(rest) == rest[0].balance@);
            return balances[i].balance;
        }
        assert(usdc_of(rest) == usdc_of(rest.drop_first()));
        assert(rest.drop_first() =~= balances@.subrange(i + 1, balances@.len() as int));
        i = i + 1;
    }
    Fixed::zero()
}

impl ApiCredentials {
    /// The base64 HMAC-SHA256 signature of `timestamp`, the upper-cased
    /// `method`, `path` and `body`, in that order, under the API secret.
    pub fn sign_request(&self, method: &str, path: &str, body: &str, timestamp: &str) -> (r: String)
        ensures
            r@ == request_signature(self.api_secret@, method@, path@, body@, timestamp@),
    {
        let mut payload = String::from_str(timestamp);
        let upper = to_upper(method);
        payload.append(upper.as_str());
        payload.append(path);
        payload.append(body);
        let tag = hmac_sha256(self.api_secret.as_str(), payload.as_str());
        base64_standard(&tag)
    }

    /// The headers for submitting the order text `body` at `timestamp`;
    /// refused in read-only mode, before any request exists.
    pub fn prepare_order_submission(&self, body: &str, timestamp: &str) -> (r: Result<SubmissionHeaders, SubmitError>)
        ensures
            self.read_only <==> r == Err::<SubmissionHeaders, SubmitError>(SubmitError::ReadOnly),
            r is Ok ==> {
                let h = r->Ok_0;
                &&& h.api_key@ == self.api_key@
                &&& h.passphrase@ == self.api_passphrase@
                &&& h.timestamp@ == timestamp@
                &&& h.signature@ == request_signature(self.api_secret@, post_method(), orders_path(), body@, timestamp@)
            },
    {
        if self.read_only {
            return Err(SubmitError::ReadOnly);
        }
        proof {
            reveal_strlit("POST");
            reveal_strlit("/orders");
            assert("POST"@ =~= post_method());
            assert("/orders"@ =~= orders_path());
        }
        let signature = self.sign_request("POST", "/orders", body, timestamp);
        Ok(SubmissionHeaders {
            api_key: self.api_key.clone(),
            signature,
            timestamp: timestamp.to_owned(),
            passphrase: self.api_passphrase.clone(),
        })
    }
}

} // verus!
