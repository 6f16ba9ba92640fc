//! Error numbers of the engine.

use vstd::prelude::*;

verus! {

/// The error number with which a non-blocking operation says that it would have to wait.
pub const EWOULDBLOCK: u32 = 11;

/// The error number with which a non-blocking connect says that it has begun.
pub const EINPROGRESS: u32 = 115;

/// An error number of the engine.
#[derive(Clone, Copy, Debug, PartialEq, Eq, Structural)]
pub struct Errno(pub i32);

impl Errno {
    /// The error number.
    pub fn code(&self) -> (r: i32)
        ensures
            r == self.0,
    {
        self.0
    }

    /// Whether a non-blocking operation could not complete at once and should be tried again.
    pub fn is_would_block(&self) -> (r: bool)
        ensures
            r == (self.0 == EWOULDBLOCK),
    {
        self.0 == 11
    }

    /// Whether a non-blocking connect has been initiated and is still under way.
    pub fn is_in_progress(&self) -> (r: bool)
        ensures
            r == (self.0 == EINPROGRESS),
    {
        self.0 == 115
    }
}

impl From<Errno> for i32 {
    /// The error number.
    fn from(e: Errno) -> (r: i32) {
        e.0
    }
}

impl vstd::std_specs::convert::FromSpecImpl<Errno> for i32 {
    open spec fn obeys_from_spec() -> bool {
        true
    }

    open spec fn from_spec(e: Errno) -> i32 {
        e.0
    }
}

/// `errno::errno` of the errno crate: the error number that the calling
/// thread's last failed engine or system call left behind. Trusted, not
/// proved; the number depends on what ran before, so nothing is claimed of it.
#[verifier::external_body]
pub(crate) fn last_errno() -> Errno {
    Errno(errno::errno().0)
}

} // verus!
