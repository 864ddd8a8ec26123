use file_lock::{AccessMode, Error, FileLock, Lock, LockKind};

use nix::fcntl::OFlag;
use nix::sys::stat::Mode;

/// A file under /tmp that is opened for the test and removed afterwards.
struct TempFile {
    path: String,
    fd: i32,
}

impl TempFile {
    fn new(name: &str, mode: AccessMode) -> TempFile {
        let path = format!("/tmp/{}", name);
        let access = match mode {
            AccessMode::Read => OFlag::O_RDONLY,
            AccessMode::Write => OFlag::O_WRONLY,
        };
        let fd = nix::fcntl::open(path.as_str(), access | OFlag::O_CREAT, Mode::from_bits_truncate(0o644))
            .unwrap();
        TempFile { path, fd }
    }

    fn fd(&self) -> i32 {
        self.fd
    }
}

impl Drop for TempFile {
    fn drop(&mut self) {
        nix::unistd::close(self.fd).ok();
        nix::unistd::unlink(self.path.as_str()).ok();
    }
}

#[test]
fn invalid_fd() {
    for fd in &[-1, 40125] {
        for kind in &[LockKind::Blocking, LockKind::NonBlocking] {
            assert_eq!(Lock::new(*fd).lock(*kind, AccessMode::Write), Err(Error::Errno(libc::EBADF)));
        }

        assert_eq!(Lock::new(*fd).unlock(), Err(Error::Errno(libc::EBADF)));
    }
}

#[test]
fn lock_ok() {
    let tmp = TempFile::new("file-lock-test", AccessMode::Write);
    for kind in &[LockKind::Blocking, LockKind::NonBlocking] {
        assert_eq!(Lock::new(tmp.fd()).lock(*kind, AccessMode::Write), Ok(()));
    }
}

#[test]
fn unlock_error() {
    let tmp = TempFile::new("file-lock-test", AccessMode::Write);
    for kind in &[LockKind::Blocking, LockKind::NonBlocking] {
        assert_eq!(Lock::new(tmp.fd()).lock(*kind, AccessMode::Write), Ok(()));

        // The process already holds the lock, so asking again succeeds.
        assert_eq!(Lock::new(tmp.fd()).lock(*kind, AccessMode::Write), Ok(()));

        // unlock without prior lock
        assert_eq!(Lock::new(tmp.fd()).unlock(), Ok(()));
    }
}

#[test]
fn unlock_ok() {
    let tmp = TempFile::new("file-lock-test", AccessMode::Write);
    for kind in &[LockKind::Blocking, LockKind::NonBlocking] {
        let l = Lock::new(tmp.fd());

        assert_eq!(l.lock(*kind, AccessMode::Write), Ok(()));
        assert_eq!(l.unlock(), Ok(()));
        assert!(l.unlock().is_ok(), "extra unlocks are fine");
    }
}

#[test]
fn file_lock_create_file() {
    let path = String::from("/tmp/file-lock-creation-test");
    nix::unistd::unlink(path.as_str()).ok();

    {
        let mut fl = FileLock::new(path.clone(), AccessMode::Write);
        fl.lock().unwrap();

        // The descriptor is open for writing, so the caller can write through it.
        let fd = fl.file().unwrap();
        let flags = OFlag::from_bits_truncate(nix::fcntl::fcntl(fd, nix::fcntl::FcntlArg::F_GETFL).unwrap());
        assert_eq!(flags & OFlag::O_ACCMODE, OFlag::O_WRONLY);
        assert!(nix::sys::stat::stat(path.as_str()).is_ok(), "File should have been created");
        fl.unlock().unwrap();
        assert!(nix::sys::stat::stat(path.as_str()).is_ok(), "File is still there after unlock");
    }

    assert!(
        nix::sys::stat::stat(path.as_str()).is_ok(),
        "File is still there after dropping FileLock instance"
    );
    nix::unistd::unlink(path.as_str()).ok();
}

#[test]
fn read_lock_on_open_descriptor() {
    let tmp = TempFile::new("file-lock-read-test", AccessMode::Read);
    let l = Lock::new(tmp.fd());
    assert_eq!(l.lock(LockKind::NonBlocking, AccessMode::Read), Ok(()));
    assert_eq!(l.unlock(), Ok(()));
}

#[test]
fn write_lock_on_read_only_descriptor_fails() {
    // An exclusive record lock needs a descriptor open for writing.
    let tmp = TempFile::new("file-lock-ro-test", AccessMode::Read);
    assert_eq!(
        file_lock::lock(tmp.fd(), LockKind::NonBlocking, AccessMode::Write),
        Err(Error::Errno(libc::EBADF))
    );
}

#[test]
fn free_functions_lock_and_unlock() {
    let tmp = TempFile::new("file-lock-free-test", AccessMode::Write);
    assert_eq!(file_lock::lock(tmp.fd(), LockKind::NonBlocking, AccessMode::Write), Ok(()));
    assert_eq!(file_lock::unlock(tmp.fd()), Ok(()));
}
