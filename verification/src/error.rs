//! The ways a resolution fails.

use vstd::prelude::*;

verus! {

/// Why a resolution was given up. An empty answer of a provider is no
/// failure: it sends the resolution on to its next step.
#[derive(Debug, Clone, Copy, PartialEq, Eq, Structural)]
pub enum Error {
    /// A provider could not be reached.
    Transport,
    /// A provider's answer did not have the expected shape.
    Schema,
    /// A field of an answer that should be a number or a title of two parts
    /// is not.
    Parse,
}

} // verus!
