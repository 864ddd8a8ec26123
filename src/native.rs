//! Requests to the platform's record locks (`fcntl`), and the one call
//! that makes them.
use vstd::prelude::*;

use crate::codec::{AccessMode, LockKind};

use nix::fcntl::FcntlArg;

verus! {

/// What a record lock request does to the whole file.
#[derive(Clone, Copy, Debug, PartialEq, Eq, Structural)]
pub enum RecordLock {
    /// Take a shared (read) lock.
    Shared,
    /// Take an exclusive (write) lock.
    Exclusive,
    /// Release the process's lock.
    Release,
}

/// One request to the platform's record locks: what to do to the whole
/// file, and whether to wait until that can be done.
#[derive(Clone, Copy, Debug, PartialEq, Eq, Structural)]
pub struct LockRequest {
    pub lock: RecordLock,
    pub wait: bool,
}

/// The lock that a request takes: exclusive when `exclusive`, shared
/// otherwise.
pub open spec fn record_lock_for(exclusive: bool) -> RecordLock {
    if exclusive {
        RecordLock::Exclusive
    } else {
        RecordLock::Shared
    }
}

/// The request that takes a lock: exclusive when `exclusive`, waiting for
/// it when `blocking`.
pub open spec fn lock_request_for(blocking: bool, exclusive: bool) -> LockRequest {
    LockRequest { lock: record_lock_for(exclusive), wait: blocking }
}

/// The request that releases the process's lock; it never waits.
pub open spec fn unlock_request_for() -> LockRequest {
    LockRequest { lock: RecordLock::Release, wait: false }
}

/// The request that a lock of `kind` in `mode` makes: it waits exactly
/// when `kind` is `Blocking` and is exclusive exactly when `mode` is
/// `Write`.
pub open spec fn request_for(kind: LockKind, mode: AccessMode) -> LockRequest {
    lock_request_for(kind == LockKind::Blocking, mode == AccessMode::Write)
}

/// The lock that a request takes: exclusive when `exclusive`, shared
/// otherwise.
pub fn record_lock(exclusive: bool) -> (r: RecordLock)
    ensures
        r == record_lock_for(exclusive),
{
    if exclusive {
        RecordLock::Exclusive
    } else {
        RecordLock::Shared
    }
}

impl LockRequest {
    /// The request that takes a lock: exclusive when `exclusive`, waiting
    /// for it when `blocking`.
    pub fn lock(blocking: bool, exclusive: bool) -> (r: LockRequest)
        ensures
            r == lock_request_for(blocking, exclusive),
    {
        LockRequest { lock: record_lock(exclusive), wait: blocking }
    }

    /// The request that releases the process's lock.
    pub fn unlock() -> (r: LockRequest)
        ensures
            r == unlock_request_for(),
        opens_invariants none
        no_unwind
    {
        LockRequest { lock: RecordLock::Release, wait: false }
    }

    /// The request for a lock of `kind` in `mode`.
    pub fn for_lock(kind: LockKind, mode: AccessMode) -> (r: LockRequest)
        ensures
            r == request_for(kind, mode),
    {
        LockRequest::lock(kind.is_blocking(), mode.is_exclusive())
    }
}

/// Whether `status` is what the platform answered to `request` on `fd`.
///
/// This ties a status to the request it answers and to nothing else: what
/// the platform answers depends on the locks that other processes hold, so
/// nothing is said of the status itself. Only [`set_record_lock`] gives it.
pub closed spec fn answered(fd: i32, request: LockRequest, status: i32) -> bool {
    true
}

/// Relies on nix::fcntl::fcntl with `F_SETLK`, or with `F_SETLKW` when the
/// request waits: places (or releases) a record lock that spans the whole
/// file. The status is 0 on success and the raw errno value of a failure
/// otherwise.
#[verifier::external_body]
pub(crate) fn set_record_lock(fd: i32, request: LockRequest) -> (status: i32)
    ensures
        answered(fd, request, status),
    opens_invariants none
    no_unwind
{
    let l_type = match request.lock {
        RecordLock::Shared => libc::F_RDLCK,
        RecordLock::Exclusive => libc::F_WRLCK,
        RecordLock::Release => libc::F_UNLCK,
    };
    let whole_file = libc::flock {
        l_type: l_type as libc::c_short,
        l_whence: libc::SEEK_SET as libc::c_short,
        l_start: 0,
        l_len: 0,
        l_pid: 0,
    };
    let arg = if request.wait { FcntlArg::F_SETLKW(&whole_file) } else { FcntlArg::F_SETLK(&whole_file) };
    nix::fcntl::fcntl(fd, arg).err().map_or(0, |e| e as i32)
}

} // verus!
