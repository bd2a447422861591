//! The sentinel-to-result decisions behind fallible host acquisitions.
//!
//! Every fallible host call in the setup path — class registration, cursor
//! loading, window creation — reports failure as a null or zero sentinel,
//! and the failure code must be queried immediately afterwards, before any
//! other host call, because the code is process-global state the next call
//! may overwrite.  The unverified surroundings make the call and the query
//! back to back, then hand both results here; these functions turn the pair
//! into a structured result.  A failed acquisition is terminal for its
//! resource and is propagated, never retried.

use vstd::prelude::*;

use crate::diagnostics::Win32Error;
use crate::win32::ATOM;
use crate::win32::HANDLE;

verus! {

/// The outcome of a host acquisition that returns a handle: null means
/// failure, described by the failure code queried right after the call.
pub fn handle_acquisition(handle: HANDLE, failure_code: u32) -> (r: Result<HANDLE, Win32Error>)
    ensures
        handle != 0 ==> r == Ok::<HANDLE, Win32Error>(handle),
        handle == 0 ==> r == Err::<HANDLE, Win32Error>(Win32Error(failure_code)),
{
    if handle != 0 {
        Ok(handle)
    } else {
        Err(Win32Error(failure_code))
    }
}

/// The outcome of a class registration: a zero atom means failure,
/// described by the failure code queried right after the call.
pub fn registration_acquisition(atom: ATOM, failure_code: u32) -> (r: Result<ATOM, Win32Error>)
    ensures
        atom != 0 ==> r == Ok::<ATOM, Win32Error>(atom),
        atom == 0 ==> r == Err::<ATOM, Win32Error>(Win32Error(failure_code)),
{
    if atom != 0 {
        Ok(atom)
    } else {
        Err(Win32Error(failure_code))
    }
}

/// The outcome of the host's fill call inside a paint scope: zero means the
/// fill failed.  The paint context is released either way.
pub fn fill_acquisition(fill_return: i32) -> (r: Result<(), ()>)
    ensures
        fill_return != 0 ==> r == Ok::<(), ()>(()),
        fill_return == 0 ==> r == Err::<(), ()>(()),
{
    if fill_return != 0 {
        Ok(())
    } else {
        Err(())
    }
}

} // verus!
