//! The fixed-point convention of the feed: integers scaled by 10^18, handed
//! out as `rust_decimal::Decimal` values.

use crate::errors::OnDemandError;
use rust_decimal::Decimal;
use vstd::prelude::*;

verus! {

/// Number of fractional digits in every fixed-point value of the feed.
pub const PRECISION: u32 = 18;

/// Declares `rust_decimal::Decimal` so that it can stand in signatures.
#[verifier::external_type_specification]
#[verifier::external_body]
pub struct ExDecimal(Decimal);

/// Declares `rust_decimal::Error`, the failure type of the decimal crate.
#[verifier::external_type_specification]
#[verifier::external_body]
pub struct ExDecimalError(rust_decimal::Error);

/// Whether a mantissa is representable by the decimal type, whose
/// coefficient holds 96 bits.
pub open spec fn fits_decimal(num: int) -> bool {
    -0xFFFF_FFFF_FFFF_FFFF_FFFF_FFFF <= num <= 0xFFFF_FFFF_FFFF_FFFF_FFFF_FFFF
}

/// The decimal that the decimal crate builds from the mantissa `num` and the
/// fractional-digit count `scale`.
pub uninterp spec fn decimal_from_scaled(num: int, scale: int) -> Decimal;

/// Relies on `rust_decimal::Decimal::try_from_i128_with_scale`: it returns
/// `Ok` exactly when `scale` is at most 28 and the mantissa fits in 96 bits,
/// and the decimal it builds depends on the two arguments alone.
pub assume_specification[ Decimal::try_from_i128_with_scale ](
    num: i128,
    scale: u32,
) -> (r: Result<Decimal, rust_decimal::Error>)
    ensures
        r is Ok <==> (scale <= 28 && fits_decimal(num as int)),
        r is Ok ==> r->Ok_0 == decimal_from_scaled(num as int, scale as int),
;

/// Converts a fixed-point mantissa at the given scale into a decimal, and
/// fails with `DecimalConversionError` where the decimal type cannot
/// represent it.
pub fn try_decimal_from_scaled(num: i128, scale: u32) -> (r: Result<Decimal, OnDemandError>)
    ensures
        r is Ok <==> (scale <= 28 && fits_decimal(num as int)),
        r is Ok ==> r->Ok_0 == decimal_from_scaled(num as int, scale as int),
        r is Err ==> r->Err_0 is DecimalConversionError,
{
    match Decimal::try_from_i128_with_scale(num, scale) {
        Ok(d) => Ok(d),
        Err(_) => Err(OnDemandError::DecimalConversionError),
    }
}

} // verus!
