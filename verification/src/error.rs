//! The one way construction can fail.

use vstd::prelude::*;

verus! {

broadcast use vstd::string::group_string_axioms;

/// Error returned when a candidate bit pattern does not denote a
/// non-negative finite number: it is negative, a NaN, or an infinity.
#[derive(Debug, Clone, PartialEq, Eq, Structural)]
pub enum NonNegativeError {
    /// The value was negative or not finite.
    InvalidValue,
}

impl NonNegativeError {
    /// A human-readable description of the failure.
    pub fn message(&self) -> (r: String)
        ensures
            r@ == "Value must be non-negative and finite"@,
    {
        "Value must be non-negative and finite".to_string()
    }
}

} // verus!
