//! Exact decimal numbers as a mantissa and a scale, with the arithmetic of
//! `rust_decimal` behind small trusted wrappers.

use vstd::prelude::*;

verus! {

/// Largest magnitude of a mantissa: 2^96 - 1.
pub const MAX_MANTISSA: i128 = 0xFFFF_FFFF_FFFF_FFFF_FFFF_FFFF;

/// Largest number of fractional digits.
pub const MAX_SCALE: u32 = 28;

/// Number of fractional digits kept by truncation.
pub const TRADE_DECIMALS: u32 = 8;

/// The decimal number `mantissa / 10^scale`.
#[derive(Clone, Copy, Debug, PartialEq, Eq, Structural)]
pub struct Dec {
    pub mantissa: i128,
    pub scale: u32,
}

pub open spec fn pow10(n: nat) -> int
    decreases n,
{
    if n == 0 {
        1
    } else {
        10 * pow10((n - 1) as nat)
    }
}

pub proof fn lemma_pow10_positive(n: nat)
    ensures
        pow10(n) > 0,
    decreases n,
{
    if n > 0 {
        lemma_pow10_positive((n - 1) as nat);
    }
}

/// Integer division rounding toward zero.
pub open spec fn div_toward_zero(x: int, y: int) -> int {
    if x >= 0 {
        x / y
    } else {
        -((-x) / y)
    }
}

impl Dec {
    /// Representable by `rust_decimal`: 96-bit mantissa, at most 28 fractional digits.
    pub open spec fn wf(self) -> bool {
        -MAX_MANTISSA <= self.mantissa <= MAX_MANTISSA && self.scale <= MAX_SCALE
    }
}

/// `a` is numerically greater than `b`.
pub open spec fn value_gt(a: Dec, b: Dec) -> bool {
    a.mantissa * pow10(b.scale as nat) > b.mantissa * pow10(a.scale as nat)
}

/// `a` is numerically at most `b`.
pub open spec fn value_le(a: Dec, b: Dec) -> bool {
    !value_gt(a, b)
}

/// The product of `a` and `b` is held without rounding.
pub open spec fn product_is_exact(a: Dec, b: Dec) -> bool {
    -MAX_MANTISSA <= a.mantissa * b.mantissa <= MAX_MANTISSA && a.scale + b.scale <= MAX_SCALE
}

/// The product of `a` and `b` when it is held without rounding; zero has scale 0.
pub open spec fn exact_product(a: Dec, b: Dec) -> Dec {
    if a.mantissa * b.mantissa == 0 {
        Dec { mantissa: 0, scale: 0 }
    } else {
        Dec { mantissa: (a.mantissa * b.mantissa) as i128, scale: (a.scale + b.scale) as u32 }
    }
}

/// What `rust_decimal` gives for a product that it has to round, or `None` on overflow.
pub uninterp spec fn rounded_product(a: Dec, b: Dec) -> Option<Dec>;

pub open spec fn product(a: Dec, b: Dec) -> Option<Dec> {
    if product_is_exact(a, b) {
        Some(exact_product(a, b))
    } else {
        rounded_product(a, b)
    }
}

/// What `rust_decimal` gives for `a / b`, or `None` on division by zero or overflow.
pub uninterp spec fn quotient(a: Dec, b: Dec) -> Option<Dec>;

/// What `rust_decimal` parses from the text `s`, or `None` where it refuses it.
pub uninterp spec fn parsed(s: Seq<char>) -> Option<Dec>;

pub open spec fn all_digits(s: Seq<char>) -> bool {
    forall|i: int| 0 <= i < s.len() ==> '0' <= #[trigger] s[i] <= '9'
}

/// The number that the decimal digits `s` spell.
pub open spec fn digits_value(s: Seq<char>) -> int
    decreases s.len(),
{
    if s.len() == 0 {
        0
    } else {
        10 * digits_value(s.drop_last()) + (s.last() as int - 48)
    }
}

/// `s` is a plain decimal literal: a minus sign if `negative`, the digits
/// `whole`, and, where `fraction` is not empty, a point and the digits
/// `fraction`; at most 28 digits in all.
pub open spec fn plain_literal(s: Seq<char>, negative: bool, whole: Seq<char>, fraction: Seq<char>) -> bool {
    &&& whole.len() >= 1
    &&& all_digits(whole)
    &&& all_digits(fraction)
    &&& whole.len() + fraction.len() <= MAX_SCALE
    &&& s == (if negative { seq!['-'] } else { Seq::empty() }) + whole + (if fraction.len() == 0 {
        Seq::empty()
    } else {
        seq!['.'] + fraction
    })
}

/// The value of a plain decimal literal: its digits as the mantissa, the
/// number of fractional digits as the scale.
pub open spec fn literal_value(negative: bool, whole: Seq<char>, fraction: Seq<char>) -> Dec {
    let v = digits_value(whole + fraction);
    Dec { mantissa: (if negative { -v } else { v }) as i128, scale: fraction.len() as u32 }
}

/// `d` cut to `dp` fractional digits, rounding toward zero.
pub open spec fn truncated_to(d: Dec, dp: u32) -> Dec {
    if d.scale <= dp {
        d
    } else {
        Dec {
            mantissa: div_toward_zero(d.mantissa as int, pow10((d.scale - dp) as nat)) as i128,
            scale: dp,
        }
    }
}

/// `d` cut to `TRADE_DECIMALS` fractional digits, rounding toward zero.
pub open spec fn truncated(d: Dec) -> Dec {
    truncated_to(d, TRADE_DECIMALS)
}

pub open spec fn digit_char(d: nat) -> char {
    if d < 10 {
        (d + 48) as char
    } else {
        '?'
    }
}

/// The decimal digits of `n`, most significant first; empty for zero.
pub open spec fn digits(n: nat) -> Seq<char>
    decreases n,
{
    if n == 0 {
        Seq::empty()
    } else {
        digits(n / 10).push(digit_char(n % 10))
    }
}

/// `n` written in decimal.
pub open spec fn nat_text(n: nat) -> Seq<char> {
    if n == 0 {
        seq!['0']
    } else {
        digits(n)
    }
}

/// The digits of `d`'s magnitude, left-padded with zeros to at least `scale` digits.
pub open spec fn padded_digits(d: Dec) -> Seq<char> {
    let m = d.mantissa as int;
    let ds = digits(if m < 0 { -m } else { m } as nat);
    if ds.len() < d.scale {
        Seq::new((d.scale - ds.len()) as nat, |i: int| '0') + ds
    } else {
        ds
    }
}

/// How `rust_decimal` writes `d`: every fractional digit of the scale is shown.
pub open spec fn dec_text(d: Dec) -> Seq<char> {
    let p = padded_digits(d);
    let cut = p.len() - d.scale;
    let whole = if cut == 0 { seq!['0'] } else { p.subrange(0, cut) };
    let body = if d.scale == 0 { whole } else { whole + seq!['.'] + p.subrange(cut, p.len() as int) };
    if d.mantissa < 0 { seq!['-'] + body } else { body }
}

/// Relies on `<rust_decimal::Decimal as FromStr>::from_str`, which reads a
/// plain literal of at most 28 digits exactly, keeping trailing zeros in the
/// scale.
#[verifier::external_body]
pub(crate) fn parse_decimal(s: &str) -> (r: Option<Dec>)
    ensures
        r == parsed(s@),
        forall|negative: bool, whole: Seq<char>, fraction: Seq<char>|
            #[trigger] plain_literal(s@, negative, whole, fraction) ==> r == Some(
                literal_value(negative, whole, fraction),
            ),
        r matches Some(d) ==> d.wf(),
{
    match <rust_decimal::Decimal as std::str::FromStr>::from_str(s) {
        Ok(d) => Some(Dec { mantissa: d.mantissa(), scale: d.scale() }),
        Err(_) => None,
    }
}

/// Relies on `rust_decimal::Decimal::checked_mul`: exact while the product
/// fits 96 bits and 28 fractional digits, a zero product being plain zero.
#[verifier::external_body]
pub(crate) fn checked_product(a: Dec, b: Dec) -> (r: Option<Dec>)
    requires
        a.wf(),
        b.wf(),
    ensures
        r == product(a, b),
        !product_is_exact(a, b) ==> r == rounded_product(a, b),
        r matches Some(d) ==> d.wf(),
{
    let x = rust_decimal::Decimal::from_i128_with_scale(a.mantissa, a.scale);
    let y = rust_decimal::Decimal::from_i128_with_scale(b.mantissa, b.scale);
    match x.checked_mul(y) {
        Some(d) => Some(Dec { mantissa: d.mantissa(), scale: d.scale() }),
        None => None,
    }
}

/// Relies on `rust_decimal::Decimal::checked_div`, which refuses a zero divisor.
#[verifier::external_body]
pub(crate) fn checked_quotient(a: Dec, b: Dec) -> (r: Option<Dec>)
    requires
        a.wf(),
        b.wf(),
    ensures
        r == quotient(a, b),
        b.mantissa == 0 ==> r is None,
        r matches Some(d) ==> d.wf(),
{
    let x = rust_decimal::Decimal::from_i128_with_scale(a.mantissa, a.scale);
    let y = rust_decimal::Decimal::from_i128_with_scale(b.mantissa, b.scale);
    match x.checked_div(y) {
        Some(d) => Some(Dec { mantissa: d.mantissa(), scale: d.scale() }),
        None => None,
    }
}

/// Relies on `rust_decimal`'s numeric ordering of decimals.
#[verifier::external_body]
pub(crate) fn greater_than(a: Dec, b: Dec) -> (r: bool)
    requires
        a.wf(),
        b.wf(),
    ensures
        r == value_gt(a, b),
{
    let x = rust_decimal::Decimal::from_i128_with_scale(a.mantissa, a.scale);
    let y = rust_decimal::Decimal::from_i128_with_scale(b.mantissa, b.scale);
    x > y
}

/// Relies on `rust_decimal::Decimal::round_dp_with_strategy` with
/// `RoundingStrategy::ToZero`.
#[verifier::external_body]
pub(crate) fn truncate(d: Dec, dp: u32) -> (r: Dec)
    requires
        d.wf(),
    ensures
        r == truncated_to(d, dp),
        r.wf(),
{
    let x = rust_decimal::Decimal::from_i128_with_scale(d.mantissa, d.scale);
    let t = x.round_dp_with_strategy(dp, rust_decimal::RoundingStrategy::ToZero);
    Dec { mantissa: t.mantissa(), scale: t.scale() }
}

/// Relies on `rust_decimal`'s `Display`, which writes all digits of the scale.
#[verifier::external_body]
pub(crate) fn decimal_text(d: Dec) -> (r: String)
    requires
        d.wf(),
    ensures
        r@ == dec_text(d),
{
    rust_decimal::Decimal::from_i128_with_scale(d.mantissa, d.scale).to_string()
}

} // verus!
