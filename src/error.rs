//! Errors that the cipher engine reports.
use libc::c_int;
use vstd::prelude::*;

verus! {

/// The diagnostic codes that the primitive queued when a call failed.
#[derive(Clone, Debug, PartialEq, Eq)]
pub struct ErrorStack {
    pub codes: Vec<u64>,
}

/// A recoverable failure of an operation on a cipher context.
#[derive(Clone, Debug, PartialEq, Eq)]
pub enum CryptoError {
    /// The primitive rejected a parameter, a padding block, or another input.
    PrimitiveFailure(ErrorStack),
    /// The authentication tag of an AEAD message did not verify.
    AuthenticationFailure,
}

/// What the primitive reported for one call: its return code, the number of bytes
/// it wrote (zero for calls that write nothing), and its queued diagnostics.
#[derive(Clone, Debug)]
pub struct Report {
    pub rc: c_int,
    pub written: c_int,
    pub errors: ErrorStack,
}

/// The primitive signals success with a positive return code.
pub open spec fn succeeded(report: Report) -> bool {
    report.rc > 0
}

/// The result of an operation whose call the primitive reported on: `value` on
/// success, the queued diagnostics otherwise.
pub open spec fn outcome<T>(report: Report, value: T) -> Result<T, CryptoError> {
    if succeeded(report) {
        Ok(value)
    } else {
        Err(CryptoError::PrimitiveFailure(report.errors))
    }
}

/// Turns a report into a result: the return code on success, the queued
/// diagnostics otherwise.
pub fn cvt(report: Report) -> (r: Result<c_int, CryptoError>)
    ensures
        succeeded(report) ==> r == Ok::<c_int, CryptoError>(report.rc),
        !succeeded(report) ==> r == Err::<c_int, CryptoError>(CryptoError::PrimitiveFailure(report.errors)),
{
    if report.rc <= 0 {
        Err(CryptoError::PrimitiveFailure(report.errors))
    } else {
        Ok(report.rc)
    }
}

} // verus!
