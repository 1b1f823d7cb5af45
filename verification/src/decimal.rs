//! Decimal amounts. A value is held as its mantissa and scale (the value is
//! `mantissa / 10^scale`); `rust_decimal::Decimal` does the arithmetic.
use vstd::prelude::*;
use vstd::arithmetic::power::pow;

verus! {

/// The largest magnitude of a mantissa: 96 bits.
pub const MAX_MANTISSA: i128 = 0xFFFF_FFFF_FFFF_FFFF_FFFF_FFFFi128;

/// The largest scale.
pub const MAX_SCALE: u32 = 28;

/// A decimal number `mantissa / 10^scale`.
#[derive(Clone, Copy, Debug, PartialEq, Eq, Structural)]
pub struct Dec {
    pub mantissa: i128,
    pub scale: u32,
}

impl Dec {
    /// The mantissa fits in 96 bits and the scale is at most 28, as in a
    /// `rust_decimal::Decimal`.
    pub open spec fn wf(self) -> bool {
        &&& -MAX_MANTISSA <= self.mantissa <= MAX_MANTISSA
        &&& self.scale <= MAX_SCALE
    }

    /// Two decimals stand for the same number.
    pub open spec fn same_value(self, other: Dec) -> bool {
        self.mantissa * pow(10, other.scale as nat) == other.mantissa * pow(10, self.scale as nat)
    }

    /// The number is zero.
    pub open spec fn is_zero_value(self) -> bool {
        self.mantissa == 0
    }

    pub open spec fn zero() -> Dec {
        Dec { mantissa: 0, scale: 0 }
    }

    /// Zero, as `Decimal::ZERO` (and `Decimal::default()`).
    pub fn zero_value() -> (d: Dec)
        ensures
            d == Dec::zero(),
            d.wf(),
    {
        Dec { mantissa: 0, scale: 0 }
    }

    /// One, as `Decimal::ONE`.
    pub fn one() -> (d: Dec)
        ensures
            d == (Dec { mantissa: 1, scale: 0 }),
            d.wf(),
    {
        Dec { mantissa: 1, scale: 0 }
    }

    /// Minus one, as `Decimal::NEGATIVE_ONE`.
    pub fn negative_one() -> (d: Dec)
        ensures
            d == (Dec { mantissa: -1i128, scale: 0 }),
            d.wf(),
    {
        Dec { mantissa: -1i128, scale: 0 }
    }

    /// The number is zero (`Decimal::is_zero`: all mantissa bits are clear).
    pub fn is_zero(&self) -> (b: bool)
        ensures
            b == self.is_zero_value(),
    {
        self.mantissa == 0
    }
}

/// What `Decimal::checked_add` gives: `None` on overflow.
pub uninterp spec fn decimal_checked_add(a: Dec, b: Dec) -> Option<Dec>;

/// What `Decimal::checked_mul` gives: `None` on overflow.
pub uninterp spec fn decimal_checked_mul(a: Dec, b: Dec) -> Option<Dec>;

/// `Decimal::checked_add` of two decimals. Its result is named by
/// `decimal_checked_add`; a result is again a well-formed decimal.
#[verifier::external_body]
pub(crate) fn checked_add(a: Dec, b: Dec) -> (r: Option<Dec>)
    requires
        a.wf(),
        b.wf(),
    ensures
        r == decimal_checked_add(a, b),
        r matches Some(d) ==> d.wf(),
{
    let x = rust_decimal::Decimal::from_i128_with_scale(a.mantissa, a.scale);
    let y = rust_decimal::Decimal::from_i128_with_scale(b.mantissa, b.scale);
    x.checked_add(y).map(|d| Dec { mantissa: d.mantissa(), scale: d.scale() })
}

/// `Decimal::checked_mul` of two decimals. Its result is named by
/// `decimal_checked_mul`; a result is again a well-formed decimal.
#[verifier::external_body]
pub(crate) fn checked_mul(a: Dec, b: Dec) -> (r: Option<Dec>)
    requires
        a.wf(),
        b.wf(),
    ensures
        r == decimal_checked_mul(a, b),
        r matches Some(d) ==> d.wf(),
{
    let x = rust_decimal::Decimal::from_i128_with_scale(a.mantissa, a.scale);
    let y = rust_decimal::Decimal::from_i128_with_scale(b.mantissa, b.scale);
    x.checked_mul(y).map(|d| Dec { mantissa: d.mantissa(), scale: d.scale() })
}

/// `==` of `Decimal`, which compares the numbers (`1.0 == 1.00`).
#[verifier::external_body]
pub(crate) fn dec_eq(a: Dec, b: Dec) -> (r: bool)
    requires
        a.wf(),
        b.wf(),
    ensures
        r == a.same_value(b),
{
    rust_decimal::Decimal::from_i128_with_scale(a.mantissa, a.scale)
        == rust_decimal::Decimal::from_i128_with_scale(b.mantissa, b.scale)
}

} // verus!
