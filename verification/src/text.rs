//! Textual forms of a wrapped scalar.
//!
//! The wrapper is invisible in text: each of the four forms is whatever
//! the scalar inside writes for that form, with the caller's width,
//! precision and flags handed on untouched.

use crate::fast::Fast;
use std::fmt::{Debug, Display, Formatter, LowerExp, UpperExp};
use vstd::prelude::*;

verus! {

/// `std::fmt::Formatter`, the sink that std hands to every formatting
/// trait. Nothing is known of what it holds.
#[verifier::external_type_specification]
#[verifier::external_body]
pub struct ExFormatter<'a>(std::fmt::Formatter<'a>);

/// `std::fmt::Error`, the error of a sink that could not be written to.
#[verifier::external_type_specification]
#[verifier::external_body]
pub struct ExFmtError(std::fmt::Error);

impl<F: Debug> Debug for Fast<F> {
    /// Hands the formatter to `F`'s `Debug::fmt` for the scalar inside.
    /// Nothing is claimed of what that writes or returns.
    #[verifier::external_body]
    fn fmt(&self, f: &mut Formatter<'_>) -> (r: Result<(), std::fmt::Error>) {
        Debug::fmt(&self.0, f)
    }
}

impl<F: Display> Display for Fast<F> {
    /// Hands the formatter to `F`'s `Display::fmt` for the scalar inside.
    /// Nothing is claimed of what that writes or returns.
    #[verifier::external_body]
    fn fmt(&self, f: &mut Formatter<'_>) -> (r: Result<(), std::fmt::Error>) {
        Display::fmt(&self.0, f)
    }
}

impl<F: LowerExp> LowerExp for Fast<F> {
    /// Hands the formatter to `F`'s `LowerExp::fmt` for the scalar inside.
    /// Nothing is claimed of what that writes or returns.
    #[verifier::external_body]
    fn fmt(&self, f: &mut Formatter<'_>) -> (r: Result<(), std::fmt::Error>) {
        LowerExp::fmt(&self.0, f)
    }
}

impl<F: UpperExp> UpperExp for Fast<F> {
    /// Hands the formatter to `F`'s `UpperExp::fmt` for the scalar inside.
    /// Nothing is claimed of what that writes or returns.
    #[verifier::external_body]
    fn fmt(&self, f: &mut Formatter<'_>) -> (r: Result<(), std::fmt::Error>) {
        UpperExp::fmt(&self.0, f)
    }
}

} // verus!
