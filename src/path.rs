//! A lock bound to a file by its path.
//!
//! The file is opened on the first `lock` or `try_lock`, and created there
//! when the lock is for writing. The handle keeps it open until it is
//! dropped, which releases the lock and closes the file.
use vstd::prelude::*;

use crate::codec::{AccessMode, LockKind};
use crate::error::{Error, IoCause};
use crate::backing::{open_file, opened};
use crate::fd;
use crate::fd::status_outcome;
use crate::native::{answered, request_for, unlock_request_for, LockRequest};

verus! {

/// How the backing file is opened.
#[derive(Clone, Copy, Debug, PartialEq, Eq, Structural)]
pub struct OpenOptions {
    pub read: bool,
    pub write: bool,
    pub create: bool,
}

/// The options for a lock in `mode`: a reader opens the file for reading
/// and never creates it; a writer opens it for writing and creates it when
/// it is missing.
pub open spec fn open_options_for(mode: AccessMode) -> OpenOptions {
    OpenOptions {
        read: mode == AccessMode::Read,
        write: mode == AccessMode::Write,
        create: mode == AccessMode::Write,
    }
}

impl OpenOptions {
    /// The options for a lock in `mode`.
    pub fn for_mode(mode: AccessMode) -> (r: OpenOptions)
        ensures
            r == open_options_for(mode),
    {
        OpenOptions {
            read: mode.is_read(),
            write: mode.is_exclusive(),
            create: mode.is_exclusive(),
        }
    }
}

/// Relies on nix::unistd::close: closes the descriptor `fd`.
#[verifier::external_body]
fn close_file(fd: i32) -> (r: Result<(), i32>)
    opens_invariants none
    no_unwind
{
    nix::unistd::close(fd).map_err(|e| e as i32)
}

/// What a [`FileLock`] is: its path, its mode and, once opened, the
/// descriptor of its file.
pub struct FileLockView {
    pub path: Seq<char>,
    pub mode: AccessMode,
    pub file: Option<i32>,
}

/// A lock on the file at a path, for reading (shared) or writing
/// (exclusive).
///
/// The file is opened on the first `lock` or `try_lock` and stays open,
/// owned by this handle, until the handle is dropped. Dropping it releases
/// the lock, errors discarded, and closes the file.
#[derive(Debug)]
pub struct FileLock {
    path: String,
    mode: AccessMode,
    file: Option<i32>,
}

impl View for FileLock {
    type V = FileLockView;

    closed spec fn view(&self) -> FileLockView {
        FileLockView { path: self.path@, mode: self.mode, file: self.file }
    }
}

/// Whether `r` is what a path lock at `path` gives for a native `status`:
/// success for 0, otherwise that code, unmodified, with the path.
pub open spec fn is_path_status_outcome(r: Result<(), Error>, status: i32, path: Seq<char>) -> bool {
    match r {
        Ok(()) => status == 0,
        Err(Error::LockError(p, code)) => status != 0 && code == status && p@ == path,
        Err(_) => false,
    }
}

/// Whether `r` is what a path lock at `path` gives for a status that the
/// platform answered to `request` on `fd`.
pub open spec fn is_path_outcome_of(
    r: Result<(), Error>,
    fd: i32,
    request: LockRequest,
    path: Seq<char>,
) -> bool {
    exists|status: i32| #[trigger]
        answered(fd, request, status) && is_path_status_outcome(r, status, path)
}

/// Whether `e` says that the file at `path` could not be opened.
pub open spec fn is_open_failure(e: Error, path: Seq<char>) -> bool {
    match e {
        Error::IoError(p, IoCause::Os(_)) => p@ == path,
        _ => false,
    }
}

/// Whether `e` says that the file at `path` could not be opened, with the
/// platform error code `code`.
pub open spec fn is_open_failure_with(e: Error, path: Seq<char>, code: i32) -> bool {
    match e {
        Error::IoError(p, IoCause::Os(c)) => p@ == path && c == code,
        _ => false,
    }
}

/// Whether the open that a first lock request makes, with outcome `o`,
/// leads from `before` to `after` and outcome `r`: the file at the path is
/// opened with the options of the mode; a new descriptor is kept, and a
/// failure is the outcome, with the path and the code unmodified.
pub open spec fn is_first_open(
    before: FileLockView,
    after: FileLockView,
    r: Result<(), Error>,
    o: Result<i32, i32>,
) -> bool {
    &&& opened(before.path, open_options_for(before.mode), o)
    &&& o is Ok ==> after.file == Some(o->Ok_0)
    &&& o is Err ==> r is Err && is_open_failure_with(r->Err_0, before.path, o->Err_0)
}

/// Whether `e` says that the lock at `path` was never taken.
pub open spec fn is_not_yet_locked(e: Error, path: Seq<char>) -> bool {
    match e {
        Error::IoError(p, IoCause::NotYetLocked) => p@ == path,
        _ => false,
    }
}

/// What a lock request of `kind` does to a path lock that was `before` and
/// is `after`, with outcome `r`. The path and the mode stay. A file that was
/// open stays open. The file is still unopened exactly when opening it
/// failed, which can only happen on the first request. Once it is open, the
/// outcome answers one request on its descriptor: to wait exactly when
/// `kind` is `Blocking`, and to be exclusive exactly when the mode is
/// `Write`. The first request opens the file with the options of the mode:
/// a reader reads and never creates it, a writer writes and creates it.
pub open spec fn is_lock_step(
    before: FileLockView,
    after: FileLockView,
    kind: LockKind,
    r: Result<(), Error>,
) -> bool {
    &&& after.path == before.path
    &&& after.mode == before.mode
    &&& before.file is Some ==> after.file == before.file
    &&& after.file is None <==> (r is Err && is_open_failure(r->Err_0, before.path))
    &&& before.file is None ==> exists|o: Result<i32, i32>| #[trigger]
        is_first_open(before, after, r, o)
    &&& after.file is Some ==> is_path_outcome_of(
        r,
        after.file->Some_0,
        request_for(kind, before.mode),
        before.path,
    )
}

/// The outcome of a descriptor operation, with `path` added to its error.
fn at_path(r: Result<(), Error>, path: &String) -> (out: Result<(), Error>)
    ensures
        forall|status: i32| r == status_outcome(status) ==> is_path_status_outcome(out, status, path@),
{
    match r {
        Ok(()) => Ok(()),
        Err(Error::Errno(code)) => Err(Error::LockError(path.clone(), code)),
        Err(e) => Err(e),
    }
}

impl FileLock {
    /// A lock on the file at `path` in `mode`. Nothing is opened yet.
    pub fn new(path: String, mode: AccessMode) -> (l: FileLock)
        ensures
            l@.path == path@,
            l@.mode == mode,
            l@.file is None,
    {
        FileLock { path, mode, file: None }
    }

    /// The descriptor of the file, which is opened (with the options of the
    /// mode) when it is not open yet.
    fn opened_fd(&mut self) -> (r: Result<i32, i32>)
        ensures
            final(self)@.path == old(self)@.path,
            final(self)@.mode == old(self)@.mode,
            old(self)@.file is Some ==> r == Ok::<i32, i32>(old(self)@.file->Some_0)
                && final(self)@ == old(self)@,
            old(self)@.file is None ==> opened(old(self)@.path, open_options_for(old(self)@.mode), r),
            old(self)@.file is None ==> (r is Ok ==> final(self)@.file == Some(r->Ok_0)) && (r is Err
                ==> final(self)@.file is None),
    {
        match self.file {
            Some(fd) => Ok(fd),
            None => {
                let options = OpenOptions::for_mode(self.mode);
                match open_file(self.path.as_str(), options) {
                    Ok(fd) => {
                        self.file = Some(fd);
                        Ok(fd)
                    },
                    Err(code) => Err(code),
                }
            },
        }
    }

    /// Locks the file, opening it first if this is the first lock: waits
    /// for the lock when `kind` is `Blocking`, fails at once when it is
    /// `NonBlocking` and the lock is held by another process. A failure to
    /// open is an `IoError`, a failure to lock a `LockError`; both carry the
    /// path.
    pub fn any_lock(&mut self, kind: LockKind) -> (r: Result<(), Error>)
        ensures
            is_lock_step(old(self)@, final(self)@, kind, r),
    {
        let ghost before = self@;
        let opening = self.opened_fd();
        let fd = match opening {
            Ok(fd) => fd,
            Err(code) => {
                let out = Err(Error::IoError(self.path.clone(), IoCause::Os(code)));
                assert(is_first_open(before, self@, out, opening));
                return out;
            },
        };
        let r = fd::lock(fd, kind, self.mode);
        let ghost status = choose|status: i32|
            answered(fd, request_for(kind, self.mode), status) && r == status_outcome(status);
        let out = at_path(r, &self.path);
        assert(answered(fd, request_for(kind, self.mode), status) && is_path_status_outcome(
            out,
            status,
            self.path@,
        ));
        assert(before.file is None ==> is_first_open(before, self@, out, opening));
        out
    }

    /// Locks the file, waiting until the lock is granted.
    pub fn lock(&mut self) -> (r: Result<(), Error>)
        ensures
            is_lock_step(old(self)@, final(self)@, LockKind::Blocking, r),
    {
        self.any_lock(LockKind::Blocking)
    }

    /// Locks the file if no other process holds a conflicting lock, and
    /// fails at once otherwise.
    pub fn try_lock(&mut self) -> (r: Result<(), Error>)
        ensures
            is_lock_step(old(self)@, final(self)@, LockKind::NonBlocking, r),
    {
        self.any_lock(LockKind::NonBlocking)
    }

    /// Releases the lock. Before any `lock` or `try_lock` has opened the
    /// file this is an error that says so; afterwards releasing a lock that
    /// is not held is no error.
    pub fn unlock(&mut self) -> (r: Result<(), Error>)
        ensures
            final(self)@ == old(self)@,
            old(self)@.file is None ==> r is Err && is_not_yet_locked(r->Err_0, old(self)@.path),
            old(self)@.file is Some ==> is_path_outcome_of(
                r,
                old(self)@.file->Some_0,
                unlock_request_for(),
                old(self)@.path,
            ),
    {
        match self.file {
            Some(fd) => {
                let r = fd::unlock(fd);
                let ghost status = choose|status: i32|
                    answered(fd, unlock_request_for(), status) && r == status_outcome(status);
                let out = at_path(r, &self.path);
                assert(answered(fd, unlock_request_for(), status) && is_path_status_outcome(
                    out,
                    status,
                    self.path@,
                ));
                out
            },
            None => Err(Error::IoError(self.path.clone(), IoCause::NotYetLocked)),
        }
    }

    /// The path of the file.
    pub fn path(&self) -> (r: &String)
        ensures
            r@ == self@.path,
    {
        &self.path
    }

    /// The descriptor of the open file, for the caller's own reads and
    /// writes; none before the first `lock` or `try_lock`.
    pub fn file(&self) -> (r: Option<i32>)
        ensures
            r == self@.file,
    {
        self.file
    }
}

/// Dropping a `FileLock` releases its lock, errors discarded, and closes its
/// file. Closing alone would release the process's locks on the file.
impl Drop for FileLock {
    fn drop(&mut self)
        opens_invariants none
        no_unwind
    {
        if let Some(fd) = self.file {
            fd::release(fd);
            let _ = close_file(fd);
        }
    }
}

} // verus!
