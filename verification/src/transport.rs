//! What the serial side has to decide: when the bytes received so far are a
//! line, and which port is the adapter.
//!
//! Reading and writing the port is left to the caller. The caller collects
//! bytes, asks [`line_state`] after each read whether to go on, and hands the
//! collected line to [`crate::dispatch`].

use vstd::prelude::*;
use crate::text::str_equal;

verus! {

/// The byte that ends a command line: carriage return.
pub const DELIMITER: u8 = 0x0D;

/// The number of bytes that are collected for one line at most.
pub const SERIAL_BUFFER_LEN: usize = 1024;

/// The speed of the serial line in bits per second.
pub const BAUD_RATE: u32 = 115_200;

/// Where the collection of a line stands.
#[derive(Clone, Copy, Debug, PartialEq, Eq, Structural)]
pub enum LineState {
    /// No delimiter yet, and room for more bytes: read on.
    Pending,
    /// A delimiter has arrived and the buffer is not full.
    Complete,
    /// The buffer is full. Reading stops whether a delimiter arrived or
    /// not, and what was collected is taken as the line.
    Overflow,
}

/// The state of a buffer of `capacity` bytes that holds `received`.
pub open spec fn line_state_of(received: Seq<u8>, capacity: nat) -> LineState {
    if received.len() >= capacity {
        LineState::Overflow
    } else if received.contains(DELIMITER) {
        LineState::Complete
    } else {
        LineState::Pending
    }
}

/// Tells whether `received`, collected in a buffer of `capacity` bytes,
/// is a line yet.
pub fn line_state(received: &[u8], capacity: usize) -> (state: LineState)
    ensures
        state == line_state_of(received@, capacity as nat),
{
    if received.len() >= capacity {
        return LineState::Overflow;
    }
    let mut i: usize = 0;
    while i < received.len()
        invariant
            i <= received@.len(),
            received@.len() < capacity,
            forall|k: int| 0 <= k < i ==> received@[k] != DELIMITER,
        decreases received@.len() - i,
    {
        if received[i] == DELIMITER {
            return LineState::Complete;
        }
        i += 1;
    }
    LineState::Pending
}

/// Whether a USB serial device made by `manufacturer` is the adapter.
pub fn is_adapter_manufacturer(manufacturer: &str) -> (found: bool)
    ensures
        found == (manufacturer@ == "Silicon Labs"@),
{
    str_equal(manufacturer, "Silicon Labs")
}

} // verus!
