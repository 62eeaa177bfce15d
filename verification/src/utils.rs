//! Utility functions and helpers around external number, id and clock crates.

use vstd::prelude::*;
use crate::error::ArbitrageError;

verus! {

/// External fixed-point decimal type used for price and profit figures.
#[verifier::external_type_specification]
#[verifier::external_body]
pub struct ExDecimal(rust_decimal::Decimal);

/// Whether a string is accepted by the external decimal parser. The parser's
/// result depends on the characters of the string alone.
pub uninterp spec fn is_decimal_str(s: Seq<char>) -> bool;

/// Convert string to Decimal safely.
///
/// Relies on rust_decimal's `Decimal::from_str`: parsing succeeds exactly
/// when the string is a well-formed decimal literal in range, and depends on
/// the string alone.
#[verifier::external_body]
pub fn parse_decimal(s: &str) -> (r: Result<rust_decimal::Decimal, ArbitrageError>)
    ensures
        r is Ok <==> is_decimal_str(s@),
        r matches Err(e) ==> e is Calculation,
{
    <rust_decimal::Decimal as core::str::FromStr>::from_str(s)
        .map_err(|e| ArbitrageError::Calculation(format!("Invalid decimal: {}", e)))
}

/// Format decimal as percentage string.
///
/// Relies on rust_decimal's `Display` implementation for the digits.
#[verifier::external_body]
pub fn format_percentage(value: rust_decimal::Decimal) -> String {
    format!("{:.2}%", value)
}

/// Generate a unique ID.
///
/// Relies on uuid's `Uuid::new_v4`: the value is random, but its hyphenated
/// text form is always 36 characters long.
#[verifier::external_body]
pub fn generate_id() -> (r: String)
    ensures
        r@.len() == 36,
{
    uuid::Uuid::new_v4().to_string()
}

/// Get current timestamp in seconds.
///
/// Relies on std's `SystemTime::now` for the wall clock; returns whole
/// seconds since the Unix epoch, or zero if the clock reads before it.
#[verifier::external_body]
pub fn current_timestamp() -> u64 {
    std::time::SystemTime::now()
        .duration_since(std::time::UNIX_EPOCH)
        .unwrap_or_default()
        .as_secs()
}

} // verus!
