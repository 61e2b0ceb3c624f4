//! Failure kinds of the markup serialiser.

use vstd::prelude::*;

verus! {

/// What can go wrong while serialising a markup document: an output-stream
/// failure, invalid bytes in the final string conversion, or a writer-level
/// emission failure. The verified builder writes valid characters into an
/// in-memory string, so it never actually produces one of these; the set is
/// kept so that callers of [`crate::twiml::Twiml::build`] see the same
/// failure taxonomy whatever backend writes the document.
#[derive(Clone, Copy, Debug, PartialEq, Eq, Structural)]
pub enum TwimlErr {
    Io,
    Utf8Err,
    EmitterErr,
}

pub type TwimlResult<T> = Result<T, TwimlErr>;

} // verus!
