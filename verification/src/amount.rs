//! Exact decimal amounts, read from text by `rust_decimal`.

use std::str::FromStr;
use vstd::prelude::*;

verus! {

/// The largest magnitude of a mantissa: 96 bits.
pub const MAX_MANTISSA: i128 = 79_228_162_514_264_337_593_543_950_335i128;

/// The largest scale: the number of digits behind the decimal point.
pub const MAX_SCALE: u32 = 28u32;

/// An exact decimal number: `mantissa / 10^scale`.
#[derive(Debug, Clone, Copy, PartialEq, Eq, Structural)]
pub struct Amount {
    pub mantissa: i128,
    pub scale: u32,
}

impl View for Amount {
    type V = Amount;

    open spec fn view(&self) -> Amount {
        *self
    }
}

impl DeepView for Amount {
    type V = Amount;

    open spec fn deep_view(&self) -> Amount {
        *self
    }
}

impl Amount {
    /// Whether the number is one that `rust_decimal::Decimal` can hold.
    pub open spec fn is_valid(self) -> bool {
        &&& self.scale <= MAX_SCALE
        &&& -MAX_MANTISSA <= self.mantissa <= MAX_MANTISSA
    }

    /// Whether the number is one that `rust_decimal::Decimal` can hold.
    pub fn check_valid(&self) -> (r: bool)
        ensures
            r == self.is_valid(),
    {
        self.scale <= MAX_SCALE && -MAX_MANTISSA <= self.mantissa && self.mantissa <= MAX_MANTISSA
    }
}

/// What `Decimal::from_str` makes of a text.
pub uninterp spec fn decimal_of_text(text: Seq<char>) -> Option<Amount>;

/// What `Decimal::from_scientific` makes of a text.
pub uninterp spec fn decimal_of_scientific_text(text: Seq<char>) -> Option<Amount>;

/// The amount that a numeric literal denotes: plain notation first, then
/// scientific notation.
pub open spec fn spec_parse_amount(text: Seq<char>) -> Option<Amount> {
    match decimal_of_text(text) {
        Some(amount) => Some(amount),
        None => decimal_of_scientific_text(text),
    }
}

/// `Decimal::from_str`, with the parsed number given as its mantissa and
/// scale, which the `Decimal` type keeps within 96 bits and 28 digits; nothing
/// where the parser reports an error.
#[verifier::external_body]
fn decimal_from_str(text: &str) -> (r: Option<Amount>)
    ensures
        r == decimal_of_text(text@),
        r matches Some(amount) ==> amount.is_valid(),
{
    match rust_decimal::Decimal::from_str(text) {
        Ok(d) => Some(Amount { mantissa: d.mantissa(), scale: d.scale() }),
        Err(_) => None,
    }
}

/// `Decimal::from_scientific`, with the parsed number given as its mantissa
/// and scale, which the `Decimal` type keeps within 96 bits and 28 digits;
/// nothing where the parser reports an error.
#[verifier::external_body]
fn decimal_from_scientific(text: &str) -> (r: Option<Amount>)
    ensures
        r == decimal_of_scientific_text(text@),
        r matches Some(amount) ==> amount.is_valid(),
{
    match rust_decimal::Decimal::from_scientific(text) {
        Ok(d) => Some(Amount { mantissa: d.mantissa(), scale: d.scale() }),
        Err(_) => None,
    }
}

/// Reads a numeric literal as an exact decimal.
pub fn parse_amount(text: &str) -> (r: Option<Amount>)
    ensures
        r == spec_parse_amount(text@),
        r matches Some(amount) ==> amount.is_valid(),
{
    match decimal_from_str(text) {
        Some(amount) => Some(amount),
        None => decimal_from_scientific(text),
    }
}

} // verus!
