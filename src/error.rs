//! Failures of the lock operations, with the context needed to report them.
use vstd::prelude::*;
use vstd::string::StringExecFns;

verus! {

/// Why the backing file of a path lock could not be used.
#[derive(Clone, Copy, Debug, PartialEq, Eq, Structural)]
pub enum IoCause {
    /// Opening or creating the file failed with this platform error code.
    Os(i32),
    /// `unlock` was called before any `lock` or `try_lock` opened the file.
    NotYetLocked,
}

/// A failed lock operation.
#[derive(Debug, PartialEq, Eq)]
pub enum Error {
    /// Locking or unlocking a descriptor failed with this platform error
    /// code, unmodified.
    Errno(i32),
    /// Locking or unlocking the file at this path failed with this platform
    /// error code.
    LockError(String, i32),
    /// The file at this path could not be opened or created, or was never
    /// opened.
    IoError(String, IoCause),
}

/// The text that describes error `e`, where `description` is the platform's
/// description of its error code.
pub open spec fn message_text(e: Error, description: Seq<char>) -> Seq<char> {
    match e {
        Error::Errno(_) => "Lock operation failed: "@ + description,
        Error::LockError(path, _) => "Lock operation failed: "@ + description + " (at file '"@
            + path@ + "')"@,
        Error::IoError(path, IoCause::Os(_)) => "Couldn't open lock file at '"@ + path@ + "': "@
            + description,
        Error::IoError(path, IoCause::NotYetLocked) => "Couldn't open lock file at '"@ + path@
            + "': unlock() called before lock() or try_lock()"@,
    }
}

/// The platform error code that error `e` carries, if any.
pub open spec fn code_of(e: Error) -> Option<i32> {
    match e {
        Error::Errno(code) => Some(code),
        Error::LockError(_, code) => Some(code),
        Error::IoError(_, IoCause::Os(code)) => Some(code),
        Error::IoError(_, IoCause::NotYetLocked) => None,
    }
}

/// Relies on the `Display` of errno::Errno: the platform's description of an
/// error code. It may depend on the locale, so nothing is claimed of it.
#[verifier::external_body]
fn describe_code(code: i32) -> (r: String) {
    errno::Errno(code).to_string()
}

impl Error {
    /// The platform error code that this error carries; none for a path
    /// lock that was never locked.
    pub fn code(&self) -> (r: Option<i32>)
        ensures
            r == code_of(*self),
    {
        match self {
            Error::Errno(code) => Some(*code),
            Error::LockError(_, code) => Some(*code),
            Error::IoError(_, IoCause::Os(code)) => Some(*code),
            Error::IoError(_, IoCause::NotYetLocked) => None,
        }
    }

    /// The text that describes this error, given the description of its
    /// platform error code.
    pub fn message_with(&self, description: &str) -> (r: String)
        ensures
            r@ == message_text(*self, description@),
    {
        match self {
            Error::Errno(_) => {
                let mut m = String::from_str("Lock operation failed: ");
                m.append(description);
                m
            },
            Error::LockError(path, _) => {
                let mut m = String::from_str("Lock operation failed: ");
                m.append(description);
                m.append(" (at file '");
                m.append(path.as_str());
                m.append("')");
                m
            },
            Error::IoError(path, IoCause::Os(_)) => {
                let mut m = String::from_str("Couldn't open lock file at '");
                m.append(path.as_str());
                m.append("': ");
                m.append(description);
                m
            },
            Error::IoError(path, IoCause::NotYetLocked) => {
                let mut m = String::from_str("Couldn't open lock file at '");
                m.append(path.as_str());
                m.append("': unlock() called before lock() or try_lock()");
                m
            },
        }
    }

    /// The text that describes this error, with the platform's description
    /// of its error code.
    pub fn message(&self) -> (r: String)
        ensures
            exists|description: Seq<char>| r@ == message_text(*self, description),
    {
        let description = match self.code() {
            Some(code) => describe_code(code),
            None => String::new(),
        };
        self.message_with(description.as_str())
    }
}

} // verus!
