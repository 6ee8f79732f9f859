//! The typed failures of the layer.

use vstd::prelude::*;

verus! {

/// Everything that can go wrong in this layer.
///
/// The native library itself knows nothing of these: `BadFile` is detected
/// locally before any native call, `LowerLevel` carries the free-text
/// message the native library deposited in the process-wide error channel
/// at the moment of a failing call, and `UnknownTimescale` records a
/// timescale discriminant outside the documented set, kept recoverable
/// rather than treated as a fatal programming error.
#[derive(Debug, PartialEq)]
pub enum Error {
    /// The path (or constant name) cannot be represented in the form the
    /// native C API requires.
    BadFile,
    /// The native library reported a failure; the payload is the message
    /// read from the error channel immediately after the failing call.
    LowerLevel(String),
    /// The native library reported a timescale code outside the two
    /// documented values; the payload is the offending code.
    UnknownTimescale(i32),
}

} // verus!
