//! Canonical order strings and their HMAC-SHA256 signature.

use vstd::prelude::*;
use vstd::string::*;
use hmac::{Mac, NewMac};
use crate::decimal::{digit_char, digits, nat_text};

verus! {

/// Which asset the caller holds.
#[derive(Clone, Copy, Debug, PartialEq, Eq, Structural)]
pub enum Side {
    /// The caller holds the base asset and sells it.
    Base,
    /// The caller holds the quote asset and buys the base asset with it.
    Quote,
}

/// The HMAC-SHA256 digest of the UTF-8 bytes of `message` under the UTF-8 bytes of `key`.
pub uninterp spec fn hmac_sha256_of(key: Seq<char>, message: Seq<char>) -> Seq<u8>;

pub open spec fn hex_digit(n: nat) -> char {
    if n < 10 {
        (n + 48) as char
    } else {
        (n + 87) as char
    }
}

/// Two lowercase hexadecimal digits for each byte.
pub open spec fn hex_text(b: Seq<u8>) -> Seq<char>
    decreases b.len(),
{
    if b.len() == 0 {
        Seq::empty()
    } else {
        hex_text(b.drop_last()) + seq![hex_digit(b.last() as nat / 16), hex_digit(b.last() as nat % 16)]
    }
}

/// Every character of `s` is a lowercase hexadecimal digit.
pub open spec fn is_lower_hex(s: Seq<char>) -> bool {
    forall|i: int| 0 <= i < s.len() ==> ('0' <= #[trigger] s[i] <= '9' || 'a' <= s[i] <= 'f')
}

pub proof fn lemma_hex_text(b: Seq<u8>)
    ensures
        hex_text(b).len() == 2 * b.len(),
        is_lower_hex(hex_text(b)),
    decreases b.len(),
{
    if b.len() > 0 {
        lemma_hex_text(b.drop_last());
        let hi = b.last() as nat / 16;
        let lo = b.last() as nat % 16;
        assert(hi < 16 && lo < 16);
        let t = hex_text(b);
        let p = hex_text(b.drop_last());
        assert(t == p + seq![hex_digit(hi), hex_digit(lo)]);
        assert forall|i: int| 0 <= i < t.len() implies ('0' <= #[trigger] t[i] <= '9' || 'a' <= t[i] <= 'f') by {
            if i < p.len() {
                assert(t[i] == p[i]);
            }
        }
    }
}

pub open spec fn side_word(side: Side) -> Seq<char> {
    match side {
        Side::Base => "SELL"@,
        Side::Quote => "BUY"@,
    }
}

pub open spec fn amount_key(side: Side) -> Seq<char> {
    match side {
        Side::Base => "quantity="@,
        Side::Quote => "quoteOrderQty="@,
    }
}

/// The order's parameters in the fixed order the exchange signs them in.
pub open spec fn unsigned_order(
    base: Seq<char>,
    quote: Seq<char>,
    side: Side,
    amount: Seq<char>,
    timestamp: u64,
) -> Seq<char> {
    "symbol="@ + base + quote + "&side="@ + side_word(side) + "&type=MARKET&"@ + amount_key(side)
        + amount + "&recvWindow=5000&timestamp="@ + nat_text(timestamp as nat)
}

pub open spec fn signature(secret: Seq<char>, unsigned: Seq<char>) -> Seq<char> {
    hex_text(hmac_sha256_of(secret, unsigned))
}

/// The unsigned order with its signature appended.
pub open spec fn signed_order(
    base: Seq<char>,
    quote: Seq<char>,
    side: Side,
    amount: Seq<char>,
    timestamp: u64,
    secret: Seq<char>,
) -> Seq<char> {
    let unsigned = unsigned_order(base, quote, side, amount, timestamp);
    unsigned + "&signature="@ + signature(secret, unsigned)
}

/// Relies on `hmac::Hmac<sha2::Sha256>`: any key length is accepted and the
/// digest is 32 bytes.
#[verifier::external_body]
fn hmac_sha256(key: &str, message: &str) -> (r: Vec<u8>)
    ensures
        r@ == hmac_sha256_of(key@, message@),
        r@.len() == 32,
{
    let mut mac = hmac::Hmac::<sha2::Sha256>::new_from_slice(key.as_bytes()).unwrap();
    mac.update(message.as_bytes());
    mac.finalize().into_bytes().to_vec()
}

/// Relies on `hex::encode`: two lowercase digits for each byte.
#[verifier::external_body]
fn hex_encode(b: &Vec<u8>) -> (r: String)
    ensures
        r@ == hex_text(b@),
{
    hex::encode(b)
}

/// The one-character text of the decimal digit `d`.
fn digit_str(d: u64) -> (r: &'static str)
    requires
        d < 10,
    ensures
        r@ == seq![digit_char(d as nat)],
{
    proof {
        reveal_strlit("0");
        reveal_strlit("1");
        reveal_strlit("2");
        reveal_strlit("3");
        reveal_strlit("4");
        reveal_strlit("5");
        reveal_strlit("6");
        reveal_strlit("7");
        reveal_strlit("8");
        reveal_strlit("9");
    }
    match d {
        0 => "0",
        1 => "1",
        2 => "2",
        3 => "3",
        4 => "4",
        5 => "5",
        6 => "6",
        7 => "7",
        8 => "8",
        _ => "9",
    }
}

/// Appends the decimal digits of `n` (none for zero).
fn append_digits(s: &mut String, n: u64)
    ensures
        final(s)@ == old(s)@ + digits(n as nat),
    decreases n,
{
    if n > 0 {
        append_digits(s, n / 10);
        s.append(digit_str(n % 10));
        assert(digits(n as nat) == digits((n / 10) as nat).push(digit_char((n % 10) as nat)));
        assert(s@ =~= old(s)@ + digits(n as nat));
    }
}

/// `n` written in decimal.
fn u64_text(n: u64) -> (r: String)
    ensures
        r@ == nat_text(n as nat),
{
    if n == 0 {
        proof {
            reveal_strlit("0");
        }
        String::from_str("0")
    } else {
        let mut s = String::new();
        append_digits(&mut s, n);
        assert(s@ =~= digits(n as nat));
        s
    }
}

/// The canonical order string for the pair `base`/`quote`, unsigned.
pub fn build_unsigned_order(base: &str, quote: &str, side: Side, amount: &str, timestamp: u64) -> (r: String)
    ensures
        r@ == unsigned_order(base@, quote@, side, amount@, timestamp),
{
    let mut s = String::from_str("symbol=");
    s.append(base);
    s.append(quote);
    s.append("&side=");
    match side {
        Side::Base => s.append("SELL"),
        Side::Quote => s.append("BUY"),
    }
    s.append("&type=MARKET&");
    match side {
        Side::Base => s.append("quantity="),
        Side::Quote => s.append("quoteOrderQty="),
    }
    s.append(amount);
    s.append("&recvWindow=5000&timestamp=");
    let ts = u64_text(timestamp);
    s.append(ts.as_str());
    s
}

/// The hexadecimal HMAC-SHA256 signature of `message` under `secret`.
pub fn sign(secret: &str, message: &str) -> (r: String)
    ensures
        r@ == signature(secret@, message@),
        r@.len() == 64,
        is_lower_hex(r@),
{
    let digest = hmac_sha256(secret, message);
    proof {
        lemma_hex_text(digest@);
    }
    hex_encode(&digest)
}

/// The signed order string: the canonical parameters, then `&signature=` and
/// the signature over exactly those parameters.
pub fn build_signed_order(
    base: &str,
    quote: &str,
    side: Side,
    amount: &str,
    timestamp: u64,
    secret: &str,
) -> (r: String)
    ensures
        r@ == signed_order(base@, quote@, side, amount@, timestamp, secret@),
        signature(secret@, unsigned_order(base@, quote@, side, amount@, timestamp)).len() == 64,
        is_lower_hex(signature(secret@, unsigned_order(base@, quote@, side, amount@, timestamp))),
{
    let unsigned = build_unsigned_order(base, quote, side, amount, timestamp);
    let sig = sign(secret, unsigned.as_str());
    let mut s = unsigned.clone();
    s.append("&signature=");
    s.append(sig.as_str());
    s
}

/// Signing is deterministic: the same inputs give the same signed string.
pub proof fn lemma_signing_deterministic(
    base: Seq<char>,
    quote: Seq<char>,
    side: Side,
    amount: Seq<char>,
    timestamp: u64,
    secret: Seq<char>,
    base2: Seq<char>,
    quote2: Seq<char>,
    side2: Side,
    amount2: Seq<char>,
    timestamp2: u64,
    secret2: Seq<char>,
)
    requires
        base == base2,
        quote == quote2,
        side == side2,
        amount == amount2,
        timestamp == timestamp2,
        secret == secret2,
    ensures
        signed_order(base, quote, side, amount, timestamp, secret)
            == signed_order(base2, quote2, side2, amount2, timestamp2, secret2),
{
}

/// A signed order is its unsigned prefix, then `&signature=`, then the
/// signature recomputed over that prefix with the same secret.
pub proof fn lemma_signature_round_trip(
    base: Seq<char>,
    quote: Seq<char>,
    side: Side,
    amount: Seq<char>,
    timestamp: u64,
    secret: Seq<char>,
)
    ensures
        ({
            let signed = signed_order(base, quote, side, amount, timestamp, secret);
            let prefix = unsigned_order(base, quote, side, amount, timestamp);
            let tail = "&signature="@;
            &&& signed.subrange(0, prefix.len() as int) == prefix
            &&& signed.subrange(prefix.len() as int, (prefix.len() + tail.len()) as int) == tail
            &&& signed.subrange((prefix.len() + tail.len()) as int, signed.len() as int)
                == signature(secret, signed.subrange(0, prefix.len() as int))
        }),
{
    let signed = signed_order(base, quote, side, amount, timestamp, secret);
    let prefix = unsigned_order(base, quote, side, amount, timestamp);
    let tail = "&signature="@;
    let sig = signature(secret, prefix);
    assert(signed == prefix + tail + sig);
    assert(signed.subrange(0, prefix.len() as int) =~= prefix);
    assert(signed.subrange(prefix.len() as int, (prefix.len() + tail.len()) as int) =~= tail);
    assert(signed.subrange((prefix.len() + tail.len()) as int, signed.len() as int) =~= sig);
}

} // verus!
