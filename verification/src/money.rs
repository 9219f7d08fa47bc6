//! Money amounts: the decimal numbers of the order arithmetic, held as a
//! mantissa and a scale, with the arithmetic done by `rust_decimal`.

use vstd::prelude::*;
use rust_decimal::Decimal;
use crate::text::decimal_digits;

verus! {

/// Largest mantissa magnitude a decimal can hold (2^96 - 1).
pub const MAX_MANTISSA: i128 = 0xFFFF_FFFF_FFFF_FFFF_FFFF_FFFFi128;

/// Largest number of digits after the decimal point.
pub const MAX_SCALE: u32 = 28u32;

/// A decimal number `mantissa / 10^scale`.
#[derive(Clone, Copy, Debug, PartialEq, Eq, Structural)]
pub struct Amount {
    pub mantissa: i128,
    pub scale: u32,
}

impl Amount {
    /// The representable decimals: a mantissa of at most 96 bits and a
    /// scale of at most 28.
    pub open spec fn wf(self) -> bool {
        &&& -MAX_MANTISSA <= self.mantissa <= MAX_MANTISSA
        &&& self.scale <= MAX_SCALE
    }

    /// The amount as a pair of mathematical integers.
    pub open spec fn pair(self) -> (int, int) {
        (self.mantissa as int, self.scale as int)
    }

    /// `Decimal::from(n)` for an `i32`: mantissa `n`, scale 0.
    pub fn from_i32(n: i32) -> (r: Amount)
        ensures
            r.mantissa == n,
            r.scale == 0,
            r.wf(),
    {
        Amount { mantissa: n as i128, scale: 0 }
    }

    /// `Decimal::new(mantissa, scale)` for an in-range pair.
    pub fn new(mantissa: i64, scale: u32) -> (r: Amount)
        requires
            scale <= MAX_SCALE,
        ensures
            r.mantissa == mantissa,
            r.scale == scale,
            r.wf(),
    {
        Amount { mantissa: mantissa as i128, scale }
    }
}

/// Name for what `Decimal::checked_mul` returns on `(m1, s1)` and
/// `(m2, s2)` where its source rounds or overflows: `None` on overflow,
/// else the product as (mantissa, scale).
pub uninterp spec fn decimal_mul(m1: int, s1: int, m2: int, s2: int) -> Option<(int, int)>;

/// Name for what `Decimal::checked_add` returns on `(m1, s1)` and
/// `(m2, s2)` where its source rescales, rounds or overflows: `None` on
/// overflow, else the sum as (mantissa, scale).
pub uninterp spec fn decimal_add(m1: int, s1: int, m2: int, s2: int) -> Option<(int, int)>;

/// Whether an integer fits a 96-bit decimal mantissa.
pub open spec fn fits_mantissa(m: int) -> bool {
    -MAX_MANTISSA <= m <= MAX_MANTISSA
}

/// The product of two decimals as `Decimal::checked_mul` computes it: a
/// zero product is `Decimal::ZERO` (scale 0); a product whose mantissa fits
/// in 96 bits and whose scales add up to at most 28 is exact, with the
/// summed scale; beyond that the source rescales with rounding or reports
/// overflow, which `decimal_mul` names.
pub open spec fn product_of(m1: int, s1: int, m2: int, s2: int) -> Option<(int, int)> {
    if m1 * m2 == 0 {
        Some((0, 0))
    } else if product_is_exact(m1, s1, m2, s2) {
        Some((m1 * m2, s1 + s2))
    } else {
        decimal_mul(m1, s1, m2, s2)
    }
}

/// The case where a nonzero product keeps every digit.
pub open spec fn product_is_exact(m1: int, s1: int, m2: int, s2: int) -> bool {
    s1 + s2 <= MAX_SCALE && fits_mantissa(m1 * m2)
}

/// Ten to the power `n`.
pub open spec fn pow10(n: nat) -> int
    decreases n,
{
    if n == 0 {
        1
    } else {
        10 * pow10((n - 1) as nat)
    }
}

/// The larger of two scales.
pub open spec fn max_scale(s1: int, s2: int) -> int {
    if s1 >= s2 { s1 } else { s2 }
}

/// The mantissa of `m / 10^s` written with `to >= s` places.
pub open spec fn rescaled(m: int, s: int, to: int) -> int {
    m * pow10((to - s) as nat)
}

/// The sum of two decimals as `Decimal::checked_add` computes it: adding
/// to a zero gives back the other operand as it is, scale included; two
/// nonzero operands are brought to the larger of their scales, and where
/// both brought operands and their sum fit in 96 bits the sum is exact at
/// that scale; other cases (where the source rounds or overflows) are
/// named by `decimal_add`.
pub open spec fn sum_of(m1: int, s1: int, m2: int, s2: int) -> Option<(int, int)> {
    if m1 == 0 {
        Some((m2, s2))
    } else if m2 == 0 {
        Some((m1, s1))
    } else if sum_is_exact(m1, s1, m2, s2) {
        let s = max_scale(s1, s2);
        Some((rescaled(m1, s1, s) + rescaled(m2, s2, s), s))
    } else {
        decimal_add(m1, s1, m2, s2)
    }
}

/// The case where a sum of two nonzero operands keeps every digit: both
/// operands, brought to the larger scale, and their sum fit in 96 bits.
pub open spec fn sum_is_exact(m1: int, s1: int, m2: int, s2: int) -> bool {
    let s = max_scale(s1, s2);
    &&& fits_mantissa(rescaled(m1, s1, s))
    &&& fits_mantissa(rescaled(m2, s2, s))
    &&& fits_mantissa(rescaled(m1, s1, s) + rescaled(m2, s2, s))
}

/// Ten to a power is at least one.
pub proof fn lemma_pow10_positive(n: nat)
    ensures
        pow10(n) >= 1,
    decreases n,
{
    if n > 0 {
        lemma_pow10_positive((n - 1) as nat);
    }
}

/// Powers of ten multiply by adding exponents.
pub proof fn lemma_pow10_add(a: nat, b: nat)
    ensures
        pow10(a + b) == pow10(a) * pow10(b),
    decreases a,
{
    if a > 0 {
        lemma_pow10_add((a - 1) as nat, b);
        assert(pow10(a + b) == 10 * pow10((a - 1 + b) as nat));
        assert(10 * (pow10((a - 1) as nat) * pow10(b)) == (10 * pow10((a - 1) as nat)) * pow10(b))
            by (nonlinear_arith);
    }
}

/// The pair of an optional amount.
pub open spec fn opt_pair(r: Option<Amount>) -> Option<(int, int)> {
    match r {
        Some(c) => Some(c.pair()),
        None => None,
    }
}

/// `Decimal::checked_mul` on two representable decimals. Claims: the
/// result is `product_of` the operands (exact where the mantissa product
/// fits in 96 bits and the scales add up to at most 28, zero for a zero
/// factor, else the named result), and is representable.
#[verifier::external_body]
pub fn checked_mul(a: Amount, b: Amount) -> (r: Option<Amount>)
    requires
        a.wf(),
        b.wf(),
    ensures
        opt_pair(r) == product_of(a.mantissa as int, a.scale as int, b.mantissa as int, b.scale as int),
        (a.mantissa * b.mantissa != 0 && !product_is_exact(
            a.mantissa as int,
            a.scale as int,
            b.mantissa as int,
            b.scale as int,
        )) ==> opt_pair(r) == decimal_mul(a.mantissa as int, a.scale as int, b.mantissa as int, b.scale as int),
        r matches Some(c) ==> c.wf(),
{
    let x = Decimal::from_i128_with_scale(a.mantissa, a.scale);
    let y = Decimal::from_i128_with_scale(b.mantissa, b.scale);
    match x.checked_mul(y) {
        Some(d) => Some(Amount { mantissa: d.mantissa(), scale: d.scale() }),
        None => None,
    }
}

/// `Decimal::checked_add` on two representable decimals. Claims: the
/// result is `sum_of` the operands (the other operand where one is zero;
/// the exact sum at the larger scale where the operands brought to it and
/// their sum fit in 96 bits, as the source's fast paths, `unaligned_add`
/// and `aligned_add` compute it; else the named result), and is
/// representable.
#[verifier::external_body]
pub fn checked_add(a: Amount, b: Amount) -> (r: Option<Amount>)
    requires
        a.wf(),
        b.wf(),
    ensures
        opt_pair(r) == sum_of(a.mantissa as int, a.scale as int, b.mantissa as int, b.scale as int),
        (a.mantissa != 0 && b.mantissa != 0 && !sum_is_exact(
            a.mantissa as int,
            a.scale as int,
            b.mantissa as int,
            b.scale as int,
        )) ==> opt_pair(r) == decimal_add(a.mantissa as int, a.scale as int, b.mantissa as int, b.scale as int),
        r matches Some(c) ==> c.wf(),
{
    let x = Decimal::from_i128_with_scale(a.mantissa, a.scale);
    let y = Decimal::from_i128_with_scale(b.mantissa, b.scale);
    match x.checked_add(y) {
        Some(d) => Some(Amount { mantissa: d.mantissa(), scale: d.scale() }),
        None => None,
    }
}

/// `n` zero digits.
pub open spec fn zeros(n: nat) -> Seq<char> {
    Seq::new(n, |i: int| '0')
}

/// The digits of a magnitude (none for zero), padded with leading zeros
/// to at least `scale` digits.
pub open spec fn padded_digits(magnitude: nat, scale: nat) -> Seq<char> {
    let d = if magnitude == 0 { Seq::<char>::empty() } else { decimal_digits(magnitude) };
    if d.len() < scale {
        zeros((scale - d.len()) as nat) + d
    } else {
        d
    }
}

/// How `Decimal` displays `mantissa / 10^scale`: a minus sign for a
/// negative mantissa; the digits, with a point before the last `scale` of
/// them (and a `0` before the point when no digit is left for the whole
/// part); `0` for a zero without places.
pub open spec fn decimal_string(mantissa: int, scale: nat) -> Seq<char> {
    let p = padded_digits((if mantissa < 0 { -mantissa } else { mantissa }) as nat, scale);
    let whole = p.len() - scale;
    let body = if scale == 0 {
        if p.len() == 0 { seq!['0'] } else { p }
    } else if whole == 0 {
        seq!['0', '.'] + p
    } else {
        p.subrange(0, whole) + seq!['.'] + p.subrange(whole, p.len() as int)
    };
    if mantissa < 0 { seq!['-'] + body } else { body }
}

/// `Decimal`'s `to_string`. Claims the text that its source
/// (`to_str_internal` with no precision, signed by `pad_integral`) writes,
/// as `decimal_string` spells it out.
#[verifier::external_body]
pub fn amount_text(a: Amount) -> (r: String)
    requires
        a.wf(),
    ensures
        r@ == decimal_string(a.mantissa as int, a.scale as nat),
{
    Decimal::from_i128_with_scale(a.mantissa, a.scale).to_string()
}

} // verus!
