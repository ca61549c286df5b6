//! The ways in which the emulator core can refuse its input.

use vstd::prelude::*;

verus! {

/// Everything the core can report instead of a reply.
///
/// None of these is worth retrying: the core is stateless, so the same input
/// fails in the same way until the input or the table is corrected.
#[derive(Clone, Copy, Debug, PartialEq, Eq, Structural)]
pub enum Error {
    /// The line is neither a key of the static table nor a data query.
    UnrecognizedCommand,
    /// A frame was requested for a payload that is not one or two bytes long.
    InvalidPayloadLength,
    /// Two entries of a static table have the same key once line endings are
    /// stripped.
    AmbiguousTableEntry,
}

} // verus!
