//! Errors reported by the engine: a POSIX error number and a short cause.
use vstd::prelude::*;

verus! {

/// Linux `EBADF`: bad file (queue) descriptor.
pub const EBADF: i32 = 9;

/// Linux `EAGAIN`: resource temporarily unavailable.
pub const EAGAIN: i32 = 11;

/// Linux `ENFILE`: too many open descriptors.
pub const ENFILE: i32 = 23;

/// Linux `EINVAL`: invalid argument.
pub const EINVAL: i32 = 22;

/// Linux `EBADMSG`: malformed message.
pub const EBADMSG: i32 = 74;

/// Linux `ENOTSUP` (equal to `EOPNOTSUPP`): operation not supported.
pub const ENOTSUP: i32 = 95;

/// An error carrying a POSIX error number and a short description.
#[derive(Debug)]
pub struct Fail {
    pub errno: i32,
    pub cause: String,
}

/// `r` is an error with error number `errno`.
pub open spec fn fails_with<T>(r: Result<T, Fail>, errno: i32) -> bool {
    r matches Err(e) && e.errno == errno
}

impl Fail {
    /// Builds an error from an error number and a description.
    pub fn new(errno: i32, cause: &str) -> (r: Fail)
        ensures
            r.errno == errno,
            r.cause@ == cause@,
    {
        Fail { errno, cause: cause.to_owned() }
    }
}

} // verus!
