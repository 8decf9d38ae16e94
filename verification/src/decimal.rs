//! Decimal credit amounts, computed by `rust_decimal`.
//!
//! An amount is held as the mantissa and scale of a `rust_decimal::Decimal`
//! (value `mantissa / 10^scale`); parsing, subtraction and display are done
//! by that crate.

use std::str::FromStr;
use vstd::prelude::*;

verus! {

/// Largest scale a decimal can carry.
pub const MAX_SCALE: u32 = 28;

/// Largest magnitude of a decimal mantissa (96 bits).
pub const MAX_MANTISSA: i128 = 0xFFFF_FFFF_FFFF_FFFF_FFFF_FFFF;

/// A decimal number `mantissa / 10^scale`.
#[derive(Debug, Clone, Copy, PartialEq, Eq, Structural)]
pub struct Amount {
    pub mantissa: i128,
    pub scale: u32,
}

impl Amount {
    /// The amount names a decimal the crate can represent.
    pub open spec fn wf(self) -> bool {
        &&& self.scale <= MAX_SCALE
        &&& -MAX_MANTISSA <= self.mantissa <= MAX_MANTISSA
    }

    /// Whether the amount names a decimal the crate can represent.
    pub fn is_representable(&self) -> (r: bool)
        ensures
            r == self.wf(),
    {
        self.scale <= MAX_SCALE && -MAX_MANTISSA <= self.mantissa && self.mantissa <= MAX_MANTISSA
    }

    /// Zero.
    pub fn zero() -> (r: Amount)
        ensures
            r == (Amount { mantissa: 0, scale: 0 }),
            r.wf(),
    {
        Amount { mantissa: 0, scale: 0 }
    }
}

/// What `Decimal::from_str` gives for a string, as mantissa and scale.
pub uninterp spec fn spec_decimal_parse(s: Seq<char>) -> Option<Amount>;

/// What `Decimal::checked_sub` gives for two decimals.
pub uninterp spec fn spec_decimal_sub(a: Amount, b: Amount) -> Option<Amount>;

/// What the `Display` of a decimal writes.
pub uninterp spec fn spec_decimal_string(a: Amount) -> Seq<char>;

/// Parses a decimal with `rust_decimal::Decimal::from_str` (which also takes
/// scientific notation); the result, when there is one, is a representable
/// decimal.
#[verifier::external_body]
pub(crate) fn parse_decimal(s: &str) -> (r: Option<Amount>)
    ensures
        r == spec_decimal_parse(s@),
        r matches Some(a) ==> a.wf(),
{
    match rust_decimal::Decimal::from_str(s) {
        Ok(d) => Some(Amount { mantissa: d.mantissa(), scale: d.scale() }),
        Err(_) => None,
    }
}

/// `a - b` by `rust_decimal::Decimal::checked_sub`, which is `None` exactly
/// where the `-` operator panics (overflow); a result is representable.
#[verifier::external_body]
pub(crate) fn decimal_checked_sub(a: Amount, b: Amount) -> (r: Option<Amount>)
    requires
        a.wf(),
        b.wf(),
    ensures
        r == spec_decimal_sub(a, b),
        r matches Some(d) ==> d.wf(),
{
    let x = rust_decimal::Decimal::from_i128_with_scale(a.mantissa, a.scale);
    let y = rust_decimal::Decimal::from_i128_with_scale(b.mantissa, b.scale);
    x.checked_sub(y).map(|d| Amount { mantissa: d.mantissa(), scale: d.scale() })
}

/// The decimal text that `rust_decimal::Decimal`'s `Display` writes.
#[verifier::external_body]
pub(crate) fn decimal_to_string(a: Amount) -> (r: String)
    requires
        a.wf(),
    ensures
        r@ == spec_decimal_string(a),
{
    rust_decimal::Decimal::from_i128_with_scale(a.mantissa, a.scale).to_string()
}

} // verus!
