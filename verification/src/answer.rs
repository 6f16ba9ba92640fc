//! What the engine's answers mean: each kind of return value as a result.
//!
//! Each kind has two functions. The one whose name ends in `_with` takes the
//! error number as an argument and says exactly what comes out. The other
//! reads the calling thread's current error number when the answer is a
//! failure, so it has to run right after the engine call, on the same thread.

use crate::error::last_errno;
use crate::error::Errno;
use vstd::prelude::*;

verus! {

/// What a return value that only reports success or failure means: negative is failure.
pub open spec fn spec_status(rval: i32, err: Errno) -> Result<(), Errno> {
    if rval < 0 {
        Err(err)
    } else {
        Ok(())
    }
}

/// What a return value that reports a setting means: negative is failure,
/// positive is on, zero is off.
pub open spec fn spec_setting(rval: i32, err: Errno) -> Result<bool, Errno> {
    if rval < 0 {
        Err(err)
    } else {
        Ok(rval > 0)
    }
}

/// What a return value that reports a number of bytes means: negative is failure.
pub open spec fn spec_count(rval: isize, err: Errno) -> Result<usize, Errno> {
    if rval < 0 {
        Err(err)
    } else {
        Ok(rval as usize)
    }
}

/// What a returned descriptor means: the null descriptor, zero, is failure.
pub open spec fn spec_descriptor(descriptor: usize, err: Errno) -> Result<usize, Errno> {
    if descriptor == 0 {
        Err(err)
    } else {
        Ok(descriptor)
    }
}

/// Interprets a return value that only reports success or failure, given the
/// error number that was current when the call returned.
pub fn status_with(rval: i32, err: Errno) -> (r: Result<(), Errno>)
    ensures
        r == spec_status(rval, err),
{
    if rval < 0 {
        Err(err)
    } else {
        Ok(())
    }
}

/// Interprets a return value that reports a setting, given the error number
/// that was current when the call returned.
pub fn setting_with(rval: i32, err: Errno) -> (r: Result<bool, Errno>)
    ensures
        r == spec_setting(rval, err),
{
    if rval < 0 {
        Err(err)
    } else if rval > 0 {
        Ok(true)
    } else {
        Ok(false)
    }
}

/// Interprets a return value that reports a number of bytes, given the error
/// number that was current when the call returned.
pub fn count_with(rval: isize, err: Errno) -> (r: Result<usize, Errno>)
    ensures
        r == spec_count(rval, err),
{
    if rval < 0 {
        Err(err)
    } else {
        Ok(rval as usize)
    }
}

/// Interprets a returned descriptor, given the error number that was current
/// when the call returned.
pub fn descriptor_with(descriptor: usize, err: Errno) -> (r: Result<usize, Errno>)
    ensures
        r == spec_descriptor(descriptor, err),
{
    if descriptor == 0 {
        Err(err)
    } else {
        Ok(descriptor)
    }
}

/// Interprets a return value that only reports success or failure. On failure
/// the error is the calling thread's current error number, so call this right
/// after the engine call and on the same thread.
pub fn status(rval: i32) -> (r: Result<(), Errno>)
    ensures
        r is Ok <==> rval >= 0,
        rval >= 0 ==> r == Ok::<(), Errno>(()),
{
    if rval < 0 {
        status_with(rval, last_errno())
    } else {
        Ok(())
    }
}

/// Interprets a return value that reports a setting. On failure the error is
/// the calling thread's current error number.
pub fn setting(rval: i32) -> (r: Result<bool, Errno>)
    ensures
        r is Ok <==> rval >= 0,
        r is Ok ==> r->Ok_0 == (rval > 0),
{
    if rval < 0 {
        setting_with(rval, last_errno())
    } else {
        Ok(rval > 0)
    }
}

/// Interprets a return value that reports a number of bytes. On failure the
/// error is the calling thread's current error number.
pub fn count(rval: isize) -> (r: Result<usize, Errno>)
    ensures
        r is Ok <==> rval >= 0,
        r is Ok ==> r->Ok_0 == rval,
{
    if rval < 0 {
        count_with(rval, last_errno())
    } else {
        Ok(rval as usize)
    }
}

/// Interprets a returned descriptor. On failure the error is the calling
/// thread's current error number.
pub fn descriptor(returned: usize) -> (r: Result<usize, Errno>)
    ensures
        r is Ok <==> returned != 0,
        r is Ok ==> r->Ok_0 == returned,
{
    if returned == 0 {
        descriptor_with(returned, last_errno())
    } else {
        Ok(returned)
    }
}

} // verus!
