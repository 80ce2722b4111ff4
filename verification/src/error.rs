//! The failures that the library reports.

use vstd::prelude::*;

verus! {

/// Why an operation of the library did not produce a value.
#[derive(Debug, Clone, Copy, PartialEq, Eq, Structural)]
pub enum Error {
    /// The bytes handed in are not valid UTF-8 text.
    InvalidEncoding,
}

} // verus!
