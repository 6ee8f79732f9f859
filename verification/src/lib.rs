//! A safe, typed layer over a native ephemeris-computation library.
//!
//! The native library hands out an opaque handle with a manual open/close
//! lifecycle, reports failures through a single process-wide callback, and
//! selects bodies and units through small integer codes.  This crate holds
//! the part of that layer that is pure logic, with machine-checked
//! contracts: the mapping from typed celestial targets and units onto the
//! native integer codes, the typed error taxonomy, the interpretation of
//! the native library's status values and of its last-error channel, and
//! the state machine that guarantees a handle is released exactly once.
//!
//! The unsafe foreign calls themselves, the process-wide error buffer and
//! the floating-point results live outside this crate, in a thin unverified
//! shell that consults the functions here for every decision.

pub mod codes;
pub mod error;
pub mod lifecycle;
pub mod outcome;
