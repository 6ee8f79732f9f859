//! The decisions of the computation facade: validating what is about to
//! be handed to the native library, and turning what it reports — a
//! status value plus the process-wide last-error snapshot — into a typed
//! result.
//!
//! The unverified shell makes each native call under one process-wide
//! lock, reads the error channel under the same lock, and hands the pair
//! to the functions here; everything that decides success or failure is
//! therefore verified.

use crate::codes::{
    combined_unit_code, combined_unit_code_spec, target_code_fits, target_code_spec,
    PositionTarget, PositionUnit, TimeUnit, Timescale,
};
use crate::error::Error;
use vstd::prelude::*;

verus! {

/// Whether a byte sequence holds an interior NUL, which the C string
/// representation of a path or a constant name cannot carry.
pub open spec fn has_nul_byte(s: Seq<u8>) -> bool {
    exists|i: int| 0 <= i < s.len() && s[i] == 0
}

/// Whether these bytes can be handed to the native C API as a
/// NUL-terminated string: true exactly when no byte is NUL.
pub fn bytes_representable(bytes: &Vec<u8>) -> (r: bool)
    ensures
        r <==> !has_nul_byte(bytes@),
{
    let mut i: usize = 0;
    while i < bytes.len()
        invariant
            0 <= i <= bytes.len(),
            forall|j: int| 0 <= j < i ==> bytes@[j] != 0,
        decreases bytes.len() - i,
    {
        if bytes[i] == 0 {
            return false;
        }
        i += 1;
    }
    true
}

/// Validates the native byte representation of a path before any native
/// call: a path whose bytes cannot form a C string is rejected locally
/// with `BadFile`, and no other path is rejected.
pub fn validate_path_bytes(bytes: &Vec<u8>) -> (r: Result<(), Error>)
    ensures
        r == if has_nul_byte(bytes@) {
            Err::<(), Error>(Error::BadFile)
        } else {
            Ok::<(), Error>(())
        },
{
    if bytes_representable(bytes) {
        Ok(())
    } else {
        Err(Error::BadFile)
    }
}

/// Interprets the native open call: a null handle means the open failed,
/// and the failure carries, verbatim, the message the error channel held
/// immediately after the call.
pub fn open_outcome(handle_is_null: bool, last_error: String) -> (r: Result<(), Error>)
    ensures
        r == if handle_is_null {
            Err::<(), Error>(Error::LowerLevel(last_error))
        } else {
            Ok::<(), Error>(())
        },
{
    if handle_is_null {
        Err(Error::LowerLevel(last_error))
    } else {
        Ok(())
    }
}

/// Interprets the status value of a native call that reports failure as
/// zero: zero becomes a `LowerLevel` failure carrying, verbatim, the
/// message the error channel held immediately after the call; any other
/// status is success.
pub fn status_outcome(status: i32, last_error: String) -> (r: Result<(), Error>)
    ensures
        r == if status == 0 {
            Err::<(), Error>(Error::LowerLevel(last_error))
        } else {
            Ok::<(), Error>(())
        },
{
    if status == 0 {
        Err(Error::LowerLevel(last_error))
    } else {
        Ok(())
    }
}

/// Decodes the timescale discriminant the native library reports for the
/// loaded file.  Only two values are documented; any other becomes a
/// recoverable `UnknownTimescale` error, never an abort.
pub fn timescale_from_code(code: i32) -> (r: Result<Timescale, Error>)
    ensures
        r == if code == 1 {
            Ok::<Timescale, Error>(Timescale::TDB)
        } else if code == 2 {
            Ok::<Timescale, Error>(Timescale::TCB)
        } else {
            Err::<Timescale, Error>(Error::UnknownTimescale(code))
        },
{
    match code {
        1 => Ok(Timescale::TDB),
        2 => Ok(Timescale::TCB),
        other => Err(Error::UnknownTimescale(other)),
    }
}

/// The three integer arguments of a position/velocity query, in the order
/// the native compute routine takes them after the epoch: target code,
/// center code, combined unit code.
pub fn compute_request_codes(
    target: PositionTarget,
    center: PositionTarget,
    pos_unit: PositionUnit,
    time_unit: TimeUnit,
) -> (r: Option<(i32, i32, i32)>)
    ensures
        r is Some <==> target_code_fits(target) && target_code_fits(center),
        r matches Some(codes) ==> {
            &&& codes.0 == target_code_spec(target)
            &&& codes.1 == target_code_spec(center)
            &&& codes.2 == combined_unit_code_spec(pos_unit, time_unit)
        },
{
    let t = target.checked_code();
    let c = center.checked_code();
    match (t, c) {
        (Some(tc), Some(cc)) => Some((tc, cc, combined_unit_code(pos_unit, time_unit))),
        _ => None,
    }
}

} // verus!
