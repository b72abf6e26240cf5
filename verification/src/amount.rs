//! Decimal amounts as plain integers, and the calls into `rust_decimal`.

use rust_decimal::Decimal;
use vstd::prelude::*;

verus! {

/// The largest scale a decimal can carry.
pub const MAX_SCALE: u32 = 28;

/// The number of decimal places every balance is kept at.
pub const PRECISION: u32 = 4;

/// Mantissas lie strictly between `-LIMIT` and `LIMIT`, that is within 96 bits.
pub const LIMIT: i128 = 0x1_0000_0000_0000_0000_0000_0000;

/// `10^n`.
pub open spec fn pow10(n: nat) -> int
    decreases n,
{
    if n == 0 {
        1
    } else {
        10 * pow10((n - 1) as nat)
    }
}

/// Whether `m` is a mantissa a decimal can hold.
pub open spec fn fits(m: int) -> bool {
    -LIMIT < m < LIMIT
}

/// `m / p` rounded to the nearest integer, a tie going to the even neighbour.
/// The sign of `m` is put aside first, so `-2.5` rounds to `-2` as `2.5` to `2`.
pub open spec fn round_half_even(m: int, p: int) -> int {
    let a = if m < 0 { -m } else { m };
    let q = a / p;
    let r = a % p;
    let n = if 2 * r > p || (2 * r == p && q % 2 == 1) { q + 1 } else { q };
    if m < 0 { -n } else { n }
}

/// The parts of `mantissa / 10^scale` rounded to at most `dp` decimal places:
/// a number that has no more than `dp` places is kept as it is.
pub open spec fn rounded_parts(mantissa: int, scale: nat, dp: nat) -> (int, nat) {
    if scale <= dp {
        (mantissa, scale)
    } else {
        (round_half_even(mantissa, pow10((scale - dp) as nat)), dp)
    }
}

/// Calls `rust_decimal::Decimal::round_dp` on the decimal with the given
/// parts and hands back the parts of what it returns. Trusted: the result is
/// the argument unchanged where its scale is at most `dp`, and otherwise its
/// mantissa divided by `10^(scale - dp)`, rounded half to even on the
/// magnitude, at scale `dp`.
#[verifier::external_body]
fn decimal_round_dp(mantissa: i128, scale: u32, dp: u32) -> (r: (i128, u32))
    requires
        fits(mantissa as int),
        scale <= MAX_SCALE,
    ensures
        (r.0 as int, r.1 as nat) == rounded_parts(mantissa as int, scale as nat, dp as nat),
        fits(r.0 as int),
        r.1 <= MAX_SCALE,
{
    let d = Decimal::from_i128_with_scale(mantissa, scale).round_dp(dp);
    (d.mantissa(), d.scale())
}

/// Calls `rust_decimal::Decimal::checked_add` on two decimals of one common
/// scale. Trusted: where the exact sum of the mantissas fits, the result is
/// that sum at the same scale; and a result that comes back at that scale is
/// the exact sum. (A sum that does not fit comes back at a smaller scale,
/// rounded, or not at all.)
#[verifier::external_body]
fn decimal_checked_add(a: i128, b: i128, scale: u32) -> (r: Option<(i128, u32)>)
    requires
        fits(a as int),
        fits(b as int),
        scale <= MAX_SCALE,
    ensures
        fits(a + b) ==> r == Some(((a + b) as i128, scale)),
        r matches Some(p) ==> fits(p.0 as int) && p.1 <= MAX_SCALE && (p.1 == scale ==> p.0 == a
            + b),
{
    let x = Decimal::from_i128_with_scale(a, scale);
    let y = Decimal::from_i128_with_scale(b, scale);
    match x.checked_add(y) {
        Some(d) => Some((d.mantissa(), d.scale())),
        None => None,
    }
}

/// Calls `rust_decimal::Decimal::checked_sub` on two decimals of one common
/// scale. Trusted: where the exact difference of the mantissas fits, the
/// result is that difference at the same scale; and a result that comes back
/// at that scale is the exact difference.
#[verifier::external_body]
fn decimal_checked_sub(a: i128, b: i128, scale: u32) -> (r: Option<(i128, u32)>)
    requires
        fits(a as int),
        fits(b as int),
        scale <= MAX_SCALE,
    ensures
        fits(a - b) ==> r == Some(((a - b) as i128, scale)),
        r matches Some(p) ==> fits(p.0 as int) && p.1 <= MAX_SCALE && (p.1 == scale ==> p.0 == a
            - b),
{
    let x = Decimal::from_i128_with_scale(a, scale);
    let y = Decimal::from_i128_with_scale(b, scale);
    match x.checked_sub(y) {
        Some(d) => Some((d.mantissa(), d.scale())),
        None => None,
    }
}

/// The number of ten-thousandths in `mantissa / 10^scale` once it is rounded
/// to four decimal places.
pub open spec fn units_of(mantissa: int, scale: nat) -> int {
    let r = rounded_parts(mantissa, scale, PRECISION as nat);
    r.0 * pow10((PRECISION - r.1) as nat)
}

/// A decimal number `mantissa / 10^scale`, as it arrives with a transaction.
#[derive(Clone, Copy, Debug)]
pub struct Amount {
    mantissa: i128,
    scale: u32,
}

impl View for Amount {
    type V = (int, nat);

    /// The mantissa and the scale.
    closed spec fn view(&self) -> (int, nat) {
        (self.mantissa as int, self.scale as nat)
    }
}

impl Amount {
    /// What every amount satisfies: a mantissa within 96 bits and a scale of
    /// at most 28.
    pub open spec fn wf(self) -> bool {
        fits(self@.0) && self@.1 <= MAX_SCALE
    }

    #[verifier::type_invariant]
    spec fn inv(self) -> bool {
        self.wf()
    }

    /// The number of ten-thousandths this amount comes to after rounding to
    /// four decimal places.
    pub open spec fn units(self) -> int {
        units_of(self@.0, self@.1)
    }

    /// The amount `mantissa / 10^scale`, where a decimal can hold it.
    pub fn new(mantissa: i128, scale: u32) -> (r: Option<Amount>)
        ensures
            r is Some <==> fits(mantissa as int) && scale <= MAX_SCALE,
            r matches Some(a) ==> a@ == (mantissa as int, scale as nat) && a.wf(),
    {
        if -LIMIT < mantissa && mantissa < LIMIT && scale <= MAX_SCALE {
            Some(Amount { mantissa, scale })
        } else {
            None
        }
    }

    pub fn mantissa(&self) -> (r: i128)
        ensures
            r == self@.0,
            self.wf(),
    {
        proof {
            use_type_invariant(self);
        }
        self.mantissa
    }

    pub fn scale(&self) -> (r: u32)
        ensures
            r == self@.1,
            self.wf(),
    {
        proof {
            use_type_invariant(self);
        }
        self.scale
    }

    /// Whether the amount is below zero.
    pub fn is_sign_negative(&self) -> (r: bool)
        ensures
            r == (self@.0 < 0),
    {
        self.mantissa < 0
    }

    /// The amount rounded to at most `dp` decimal places, half to even.
    pub fn round_dp(&self, dp: u32) -> (r: Amount)
        ensures
            r@ == rounded_parts(self@.0, self@.1, dp as nat),
            r.wf(),
    {
        proof {
            use_type_invariant(self);
        }
        let p = decimal_round_dp(self.mantissa, self.scale, dp);
        Amount { mantissa: p.0, scale: p.1 }
    }

    /// The amount in ten-thousandths after rounding to four decimal places,
    /// or `None` where that number does not fit in 96 bits.
    pub fn to_units(&self) -> (r: Option<i128>)
        ensures
            r == if fits(self.units()) { Some(self.units() as i128) } else { None },
    {
        let rounded = self.round_dp(PRECISION);
        proof {
            use_type_invariant(rounded);
            reveal_with_fuel(pow10, 5);
        }
        let factor: i128 = if rounded.scale == 0 {
            10000
        } else if rounded.scale == 1 {
            1000
        } else if rounded.scale == 2 {
            100
        } else if rounded.scale == 3 {
            10
        } else {
            1
        };
        assert(factor == pow10((PRECISION - rounded.scale) as nat));
        let n: i128 = rounded.mantissa * factor;
        if -LIMIT < n && n < LIMIT {
            Some(n)
        } else {
            None
        }
    }
}

/// The exact sum of two numbers of ten-thousandths, or `None` where it does
/// not fit in 96 bits.
pub fn checked_add_units(a: i128, b: i128) -> (r: Option<i128>)
    requires
        fits(a as int),
        fits(b as int),
    ensures
        r == if fits(a + b) { Some((a + b) as i128) } else { None },
{
    match decimal_checked_add(a, b, PRECISION) {
        Some(p) => if p.1 == PRECISION { Some(p.0) } else { None },
        None => None,
    }
}

/// The exact difference of two numbers of ten-thousandths, or `None` where it
/// does not fit in 96 bits.
pub fn checked_sub_units(a: i128, b: i128) -> (r: Option<i128>)
    requires
        fits(a as int),
        fits(b as int),
    ensures
        r == if fits(a - b) { Some((a - b) as i128) } else { None },
{
    match decimal_checked_sub(a, b, PRECISION) {
        Some(p) => if p.1 == PRECISION { Some(p.0) } else { None },
        None => None,
    }
}

} // verus!
