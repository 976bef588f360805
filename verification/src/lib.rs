//! Wrappers for floating-point bit patterns that are non-negative and finite.
//!
//! A value of [`NonNegative`] (IEEE-754 binary64) or [`NonNegative32`]
//! (binary32) holds the raw bit pattern of a floating-point number and
//! guarantees, from construction on, that the pattern denotes a number that
//! is at least zero and neither a NaN nor an infinity.  Construction is
//! either fallible ([`NonNegative::try_new`]), returning
//! [`NonNegativeError::InvalidValue`] on any other pattern, or asserting
//! ([`NonNegative::new`]), which demands a valid pattern from its caller.
//! Equality and ordering on the wrappers follow the denoted numbers: the two
//! zero patterns are equal, and larger numbers compare larger, which the
//! proofs here pin to an exact integer semantics of the bit patterns
//! ([`ieee::scaled_value`]).
//!
//! Conversion between a host float (`f64`, `f32`) and its bit pattern is a
//! bijection (`to_bits` / `from_bits`) and is left to the caller, so that
//! everything in this crate is plain integer logic.

pub mod binary32;
pub mod binary64;
pub mod error;
pub mod ieee;

pub use binary32::NonNegative32;
pub use binary64::NonNegative;
pub use error::NonNegativeError;
