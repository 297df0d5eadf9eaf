//! Win32 error codes that the decisions look at, and their HRESULT form.

use vstd::prelude::*;

verus! {

/// `ERROR_ACCESS_DENIED`.
pub const ERROR_ACCESS_DENIED: u32 = 5;
/// `ERROR_INVALID_PARAMETER`.
pub const ERROR_INVALID_PARAMETER: u32 = 87;
/// `ERROR_GEN_FAILURE`.
pub const ERROR_GEN_FAILURE: u32 = 31;
/// `ERROR_MORE_DATA`.
pub const ERROR_MORE_DATA: u32 = 234;
/// `ERROR_SERVICE_DOES_NOT_EXIST`.
pub const ERROR_SERVICE_DOES_NOT_EXIST: u32 = 1060;

/// The HRESULT that stands for a Win32 error code: codes that read as zero
/// or negative stay as they are, others keep their low 16 bits under the
/// facility `FACILITY_WIN32` with the failure bit set.
pub open spec fn hresult_of_win32(code: u32) -> i32 {
    if (code as i32) <= 0 {
        code as i32
    } else {
        ((code & 0xFFFF) | 0x70000 | 0x8000_0000) as i32
    }
}

/// `windows_result::HRESULT::from_win32`, whose source computes exactly
/// `hresult_of_win32`; the contract claims that of it.
#[verifier::external_body]
pub(crate) fn hresult_from_win32(code: u32) -> (h: i32)
    ensures
        h == hresult_of_win32(code),
{
    windows_result::HRESULT::from_win32(code).0
}

} // verus!
