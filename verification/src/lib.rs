//! Controller library for a USB serial power relay.
//!
//! The relay understands fixed 4-byte command frames sent over a 9600 baud
//! serial link.  This crate owns everything with a binary contract: the frame
//! encoding, the fixed multi-frame sequences behind each power operation, the
//! scan that picks the relay out of a list of serial devices, and the check
//! on a seconds argument.  Opening the physical device and pacing the writes
//! (50 ms of settling time after every frame) are left to the binary around
//! this library, which reads the frames back out of a [`Port`].

use vstd::prelude::*;

pub mod args;
pub mod frames;
pub mod locate;
pub mod port;

pub use args::is_number;
pub use port::Port;

verus! {

/// Why a relay operation could not be carried out.  Every value is terminal
/// for the current invocation: nothing is retried.
#[derive(Clone, Copy, Debug, PartialEq, Eq, Structural)]
pub enum RelayError {
    /// No explicit path was given and no attached serial device reports the
    /// relay's USB vendor/product identity.
    DeviceNotFound,
    /// The resolved path exists but the serial stream could not be opened.
    OpenFailed,
    /// A frame write failed part-way through an operation.
    WriteFailed,
}

} // verus!
