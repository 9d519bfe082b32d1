//! Decimal numbers, and the arithmetic that `rust_decimal` does on them.

use rust_decimal::prelude::ToPrimitive;
use vstd::prelude::*;

verus! {

/// The decimal number `mantissa / 10^scale`.
#[derive(Clone, Copy, Debug, PartialEq, Eq, Structural)]
pub struct Decimal {
    pub mantissa: i128,
    pub scale: u32,
}

/// What `rust_decimal::Decimal::checked_add` gives for two numbers.
pub uninterp spec fn decimal_sum(left: Decimal, right: Decimal) -> Option<Decimal>;

/// What `rust_decimal::Decimal::checked_sub` gives for two numbers.
pub uninterp spec fn decimal_difference(left: Decimal, right: Decimal) -> Option<Decimal>;

/// What `rust_decimal::Decimal::checked_mul` gives for two numbers.
pub uninterp spec fn decimal_product(left: Decimal, right: Decimal) -> Option<Decimal>;

/// What `rust_decimal::Decimal::checked_div` gives for two numbers.
pub uninterp spec fn decimal_quotient(left: Decimal, right: Decimal) -> Option<Decimal>;

/// The bit pattern of what `rust_decimal`'s `to_f64` gives for a number.
pub uninterp spec fn decimal_float_bits(value: Decimal) -> Option<u64>;

/// Adds with `rust_decimal::Decimal::checked_add`, which gives `None` on
/// overflow. Trusted: the result is a function of the two numbers. A number
/// that `rust_decimal` cannot hold gives `None`.
#[verifier::external_body]
pub(crate) fn checked_sum(left: Decimal, right: Decimal) -> (sum: Option<Decimal>)
    ensures
        sum == decimal_sum(left, right),
{
    let a = rust_decimal::Decimal::try_from_i128_with_scale(left.mantissa, left.scale).ok()?;
    let b = rust_decimal::Decimal::try_from_i128_with_scale(right.mantissa, right.scale).ok()?;
    a.checked_add(b).map(|d| Decimal { mantissa: d.mantissa(), scale: d.scale() })
}

/// Subtracts with `rust_decimal::Decimal::checked_sub`, which gives `None` on
/// overflow. Trusted: the result is a function of the two numbers. A number
/// that `rust_decimal` cannot hold gives `None`.
#[verifier::external_body]
pub(crate) fn checked_difference(left: Decimal, right: Decimal) -> (difference: Option<Decimal>)
    ensures
        difference == decimal_difference(left, right),
{
    let a = rust_decimal::Decimal::try_from_i128_with_scale(left.mantissa, left.scale).ok()?;
    let b = rust_decimal::Decimal::try_from_i128_with_scale(right.mantissa, right.scale).ok()?;
    a.checked_sub(b).map(|d| Decimal { mantissa: d.mantissa(), scale: d.scale() })
}

/// Multiplies with `rust_decimal::Decimal::checked_mul`, which gives `None` on
/// overflow. Trusted: the result is a function of the two numbers. A number
/// that `rust_decimal` cannot hold gives `None`.
#[verifier::external_body]
pub(crate) fn checked_product(left: Decimal, right: Decimal) -> (product: Option<Decimal>)
    ensures
        product == decimal_product(left, right),
{
    let a = rust_decimal::Decimal::try_from_i128_with_scale(left.mantissa, left.scale).ok()?;
    let b = rust_decimal::Decimal::try_from_i128_with_scale(right.mantissa, right.scale).ok()?;
    a.checked_mul(b).map(|d| Decimal { mantissa: d.mantissa(), scale: d.scale() })
}

/// Divides with `rust_decimal::Decimal::checked_div`, which gives `None` on
/// overflow and on division by zero. Trusted: the result is a function of the
/// two numbers. A number that `rust_decimal` cannot hold gives `None`.
#[verifier::external_body]
pub(crate) fn checked_quotient(left: Decimal, right: Decimal) -> (quotient: Option<Decimal>)
    ensures
        quotient == decimal_quotient(left, right),
{
    let a = rust_decimal::Decimal::try_from_i128_with_scale(left.mantissa, left.scale).ok()?;
    let b = rust_decimal::Decimal::try_from_i128_with_scale(right.mantissa, right.scale).ok()?;
    a.checked_div(b).map(|d| Decimal { mantissa: d.mantissa(), scale: d.scale() })
}

/// Converts with `rust_decimal`'s `to_f64` and hands out the bit pattern of
/// the floating-point number. Trusted: the result is a function of the number.
/// A number that `rust_decimal` cannot hold gives `None`.
#[verifier::external_body]
fn checked_float_bits(value: Decimal) -> (bits: Option<u64>)
    ensures
        bits == decimal_float_bits(value),
{
    let d = rust_decimal::Decimal::try_from_i128_with_scale(value.mantissa, value.scale).ok()?;
    d.to_f64().map(|x| x.to_bits())
}

/// Whether `bits` is the pattern of a finite floating-point number: neither
/// an infinity nor a NaN, whose exponent bits are all set.
pub open spec fn is_finite_bits(bits: u64) -> bool {
    (bits >> 52) & 0x7ff != 0x7ff
}

/// The floating-point number for `converted`, if there is one and it is finite.
pub open spec fn finite_bits(converted: Option<u64>) -> Option<u64> {
    match converted {
        Some(bits) if is_finite_bits(bits) => Some(bits),
        _ => None,
    }
}

/// Keeps the outcome of a conversion to floating point only where it is a
/// finite number.
pub fn keep_finite(converted: Option<u64>) -> (kept: Option<u64>)
    ensures
        kept == finite_bits(converted),
{
    match converted {
        Some(bits) => {
            if (bits >> 52) & 0x7ff != 0x7ff {
                Some(bits)
            } else {
                None
            }
        },
        None => None,
    }
}

impl Decimal {
    pub fn new(mantissa: i128, scale: u32) -> (value: Decimal)
        ensures
            value == (Decimal { mantissa, scale }),
    {
        Decimal { mantissa, scale }
    }

    /// The bit pattern of the finite 64-bit floating-point number that stands
    /// for this decimal in the output, `None` where there is none.
    pub open spec fn spec_to_float_bits(self) -> Option<u64> {
        finite_bits(decimal_float_bits(self))
    }

    /// Converts to a 64-bit floating-point number, handed out as its bit
    /// pattern. `None` where the number has no finite floating-point form.
    #[verifier::when_used_as_spec(spec_to_float_bits)]
    pub fn to_float_bits(self) -> (bits: Option<u64>)
        ensures
            bits == self.spec_to_float_bits(),
            bits matches Some(b) ==> is_finite_bits(b),
    {
        keep_finite(checked_float_bits(self))
    }
}

} // verus!
