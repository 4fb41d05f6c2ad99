//! Translation of the engine's raw status codes into a typed result.
//!
//! Every scan entry point of the native engine returns a signed 32-bit
//! status: zero for success, a dedicated code when the match callback asked
//! for early termination, and further codes for engine-reported failures.
//! Nothing is swallowed: every non-zero status surfaces as an error kind,
//! unknown codes pass through unchanged.

use vstd::prelude::*;

verus! {

/// Status returned by the engine when a scan ran to completion.
pub const STATUS_SUCCESS: i32 = 0;

/// Status returned by the engine when a parameter was invalid, for example
/// a scratch space that is incompatible with the database.
pub const STATUS_INVALID: i32 = -1;

/// Status returned by the engine when it ran out of memory during the scan.
pub const STATUS_NOMEM: i32 = -2;

/// Status returned by the engine when the match callback returned non-zero
/// and thereby halted the scan.
pub const STATUS_SCAN_TERMINATED: i32 = -3;

/// The error kinds a scan call can report.
///
/// `Terminated` is not an engine failure: it records that the caller's own
/// callback deliberately stopped the scan. It shares the error shape so that
/// callers must inspect the kind to tell deliberate termination from
/// genuine failure.
#[derive(Debug, Clone, Copy, PartialEq, Eq, Structural)]
pub enum ScanError {
    /// The match callback requested an early stop.
    Terminated,
    /// Malformed call parameters, such as a scratch/database mismatch.
    InvalidArgument,
    /// The engine failed to allocate working memory during the scan.
    ResourceExhausted,
    /// Any other engine-reported status code, passed through unchanged.
    Engine(i32),
}

/// Maps a raw engine status code to the typed scan result.
///
/// Exactly the zero status is success; the three documented failure codes
/// map to their kinds, and every other non-zero code passes through as
/// `Engine`.
pub fn scan_result(status: i32) -> (r: Result<(), ScanError>)
    ensures
        r is Ok <==> status == STATUS_SUCCESS,
        status == STATUS_SCAN_TERMINATED ==> r == Err::<(), ScanError>(ScanError::Terminated),
        status == STATUS_INVALID ==> r == Err::<(), ScanError>(ScanError::InvalidArgument),
        status == STATUS_NOMEM ==> r == Err::<(), ScanError>(ScanError::ResourceExhausted),
        (status != STATUS_SUCCESS && status != STATUS_INVALID && status != STATUS_NOMEM
            && status != STATUS_SCAN_TERMINATED) ==> r == Err::<(), ScanError>(
            ScanError::Engine(status),
        ),
{
    if status == STATUS_SUCCESS {
        Ok(())
    } else if status == STATUS_SCAN_TERMINATED {
        Err(ScanError::Terminated)
    } else if status == STATUS_INVALID {
        Err(ScanError::InvalidArgument)
    } else if status == STATUS_NOMEM {
        Err(ScanError::ResourceExhausted)
    } else {
        Err(ScanError::Engine(status))
    }
}

} // verus!
