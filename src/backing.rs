//! Opening the backing file of a path lock: the one call that does it, and
//! what ties its outcome to the options it was asked with.
use vstd::prelude::*;

use crate::path::OpenOptions;

use nix::fcntl::OFlag;
use nix::sys::stat::Mode;

verus! {

/// Whether `r` is what the platform answered to opening the file at `path`
/// with `options`: a new descriptor, or the raw errno value of a failure.
///
/// This ties an outcome to the open it answers and to nothing else: whether
/// the file exists, and may be opened, is the file system's to say, so
/// nothing is said of the outcome itself. Only [`open_file`] gives it.
pub closed spec fn opened(path: Seq<char>, options: OpenOptions, r: Result<i32, i32>) -> bool {
    true
}

/// Relies on nix::fcntl::open: opens the file at `path` with the access
/// and creation that `options` ask for (close-on-exec, permissions 0o666
/// before the umask), and hands back the new descriptor or the raw errno
/// value of a failure.
#[verifier::external_body]
pub(crate) fn open_file(path: &str, options: OpenOptions) -> (r: Result<i32, i32>)
    ensures
        opened(path@, options, r),
{
    let mut flags = OFlag::O_CLOEXEC;
    flags.set(OFlag::O_RDWR, options.read && options.write);
    flags.set(OFlag::O_WRONLY, options.write && !options.read);
    flags.set(OFlag::O_CREAT, options.create);
    nix::fcntl::open(path, flags, Mode::from_bits_truncate(0o666)).map_err(|e| e as i32)
}

} // verus!
