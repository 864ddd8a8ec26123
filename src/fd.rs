//! Locking an already open descriptor.
//!
//! The descriptor belongs to the caller: nothing here opens or closes it.
//! It must stay open for as long as the lock is meant to hold, since closing
//! any descriptor of the same file releases the process's locks on it.
use vstd::prelude::*;

use crate::codec::{AccessMode, LockKind};
use crate::error::Error;
use crate::native::{
    answered, lock_request_for, request_for, set_record_lock, unlock_request_for, LockRequest,
};

verus! {

/// The two native operations that descriptor locking is built on. Each
/// returns 0 on success and a platform error code otherwise.
///
/// [`Fcntl`] is the real one; another implementation can stand in for it
/// where no real descriptor should be touched.
pub trait NativeLock {
    /// Locks the whole file behind `fd`: waits for the lock when `blocking`,
    /// takes it exclusively when `exclusive` and shared otherwise. The
    /// status answers the request `LockRequest::lock(blocking, exclusive)`.
    fn try_native_lock(&self, fd: i32, blocking: bool, exclusive: bool) -> (status: i32)
        ensures
            answered(fd, lock_request_for(blocking, exclusive), status),
    ;

    /// Releases the process's lock on the file behind `fd`. Releasing a lock
    /// that is not held succeeds. The status answers the request
    /// `LockRequest::unlock()`.
    fn native_unlock(&self, fd: i32) -> (status: i32)
        ensures
            answered(fd, unlock_request_for(), status),
    ;
}

/// The platform's record locks, through `fcntl`.
pub struct Fcntl;

impl NativeLock for Fcntl {
    /// One `fcntl` call with the request `LockRequest::lock(blocking, exclusive)`.
    fn try_native_lock(&self, fd: i32, blocking: bool, exclusive: bool) -> (status: i32) {
        set_record_lock(fd, LockRequest::lock(blocking, exclusive))
    }

    /// One `fcntl` call with the request `LockRequest::unlock()`.
    fn native_unlock(&self, fd: i32) -> (status: i32) {
        set_record_lock(fd, LockRequest::unlock())
    }
}

/// The outcome of a native call that reported `status`: success for 0, the
/// code itself as the error otherwise.
pub open spec fn status_outcome(status: i32) -> Result<(), Error> {
    if status == 0 {
        Ok(())
    } else {
        Err(Error::Errno(status))
    }
}

/// Turns the status of a native call into its outcome.
pub fn from_status(status: i32) -> (r: Result<(), Error>)
    ensures
        r == status_outcome(status),
{
    if status == 0 {
        Ok(())
    } else {
        Err(Error::Errno(status))
    }
}

/// Whether `r` is the outcome of a status that the platform answered to
/// `request` on `fd`.
pub open spec fn is_outcome_of(r: Result<(), Error>, fd: i32, request: LockRequest) -> bool {
    exists|status: i32| #[trigger] answered(fd, request, status) && r == status_outcome(status)
}

/// Locks the file behind `fd` through `native`, with one native call that
/// blocks when `kind` is `Blocking` and is exclusive when `mode` is `Write`.
pub fn lock_with<N: NativeLock>(native: &N, fd: i32, kind: LockKind, mode: AccessMode) -> (r:
    Result<(), Error>)
    ensures
        is_outcome_of(r, fd, request_for(kind, mode)),
{
    let status = native.try_native_lock(fd, kind.is_blocking(), mode.is_exclusive());
    let r = from_status(status);
    assert(answered(fd, request_for(kind, mode), status) && r == status_outcome(status));
    r
}

/// Releases the lock on the file behind `fd` through `native`, with one
/// native call.
pub fn unlock_with<N: NativeLock>(native: &N, fd: i32) -> (r: Result<(), Error>)
    ensures
        is_outcome_of(r, fd, unlock_request_for()),
{
    let status = native.native_unlock(fd);
    let r = from_status(status);
    assert(answered(fd, unlock_request_for(), status) && r == status_outcome(status));
    r
}

/// Locks the file behind `fd`: waits for the lock when `kind` is
/// `Blocking`, fails at once with the platform's code when it is
/// `NonBlocking` and the lock is held elsewhere. `Write` asks for an
/// exclusive lock, `Read` for a shared one.
pub fn lock(fd: i32, kind: LockKind, mode: AccessMode) -> (r: Result<(), Error>)
    ensures
        is_outcome_of(r, fd, request_for(kind, mode)),
{
    lock_with(&Fcntl, fd, kind, mode)
}

/// Releases the process's lock on the file behind `fd`. Releasing when no
/// lock is held is no error.
pub fn unlock(fd: i32) -> (r: Result<(), Error>)
    ensures
        is_outcome_of(r, fd, unlock_request_for()),
{
    unlock_with(&Fcntl, fd)
}

/// Releases the process's lock on the file behind `fd` where a failure has
/// nobody to go to: on teardown.
pub(crate) fn release(fd: i32)
    opens_invariants none
    no_unwind
{
    let _ = set_record_lock(fd, LockRequest::unlock());
}

/// A lock on the file behind a descriptor that the caller owns. Dropping it
/// releases the lock, and leaves the descriptor open.
#[derive(Debug, PartialEq, Eq)]
pub struct Lock {
    fd: i32,
}

impl View for Lock {
    type V = i32;

    /// The descriptor.
    closed spec fn view(&self) -> i32 {
        self.fd
    }
}

impl Lock {
    /// A lock on the file behind `fd`; no lock is taken yet.
    pub fn new(fd: i32) -> (l: Lock)
        ensures
            l@ == fd,
    {
        Lock { fd }
    }

    /// Locks the file, as [`lock`] does.
    pub fn lock(&self, kind: LockKind, mode: AccessMode) -> (r: Result<(), Error>)
        ensures
            is_outcome_of(r, self@, request_for(kind, mode)),
    {
        lock(self.fd, kind, mode)
    }

    /// Releases the lock, as [`unlock`] does. Releasing it again is no error.
    pub fn unlock(&self) -> (r: Result<(), Error>)
        ensures
            is_outcome_of(r, self@, unlock_request_for()),
    {
        unlock(self.fd)
    }
}

/// Dropping a `Lock` releases the lock, errors discarded; the descriptor
/// stays open.
impl Drop for Lock {
    fn drop(&mut self)
        opens_invariants none
        no_unwind
    {
        release(self.fd);
    }
}

} // verus!
