//! Advisory, cross-process file locking through POSIX record locks
//! (`fcntl`).
//!
//! [`fd`] locks an already open descriptor; [`path`] binds a lock to a
//! file by its path, opens (and for writing creates) that file on first
//! use, and releases the lock when the handle goes away.
//!
//! Record locks belong to a process and a file, not to a descriptor: a
//! process that asks again for a lock it holds is granted it at once, and
//! closing any descriptor of the file releases all of the process's locks
//! on it. Contention is only ever seen between separate processes.
pub mod backing;
pub mod codec;
pub mod error;
pub mod fd;
pub mod native;
pub mod path;

pub use codec::{AccessMode, LockKind, ParseError};
pub use error::{Error, IoCause};
pub use fd::{lock, unlock, Fcntl, Lock, NativeLock};
pub use path::FileLock;
