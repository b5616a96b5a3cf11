//! Structured errors for failed driver calls.
//!
//! Every call into the sound driver returns a signed integer; a negative
//! return carries a platform error code. This module gives all such calls
//! one uniform failure contract: the failing entry point's symbolic name
//! together with the platform error code, never one without the other.

use vstd::prelude::*;

verus! {

/// Platform error code: no such file or directory (`ENOENT`).
pub const ENOENT: i32 = 2;

/// Platform error code: device or resource busy (`EBUSY`).
pub const EBUSY: i32 = 16;

/// Platform error code: invalid argument (`EINVAL`).
pub const EINVAL: i32 = 22;

/// Platform error code: broken pipe (`EPIPE`). The sound driver reports a
/// playback buffer underrun with this code.
pub const EPIPE: i32 = 32;

/// Platform error code: file descriptor in bad state (`EBADFD`). The
/// simulated driver reports an out-of-order operation with this code.
pub const EBADFD: i32 = 77;

/// What a failed driver call reported: either a platform error code, or
/// the sentinel for an operation that no driver entry point backs.
#[derive(Clone, Copy, Debug, PartialEq, Eq, Structural)]
pub enum ErrorKind {
    /// The driver returned `-code`; `code` is the platform error code.
    Sys(i32),
    /// The requested feature is not expressible through any driver call.
    Unsupported,
}

/// A failed driver call.
///
/// Records the symbolic name of the entry point that failed and the
/// platform error code it reported; neither is ever lost or partially
/// constructed.
#[derive(Clone, Copy, Debug)]
pub struct Error {
    /// The name of the driver entry point that failed.
    pub func: &'static str,
    /// The code the entry point reported.
    pub kind: ErrorKind,
}

impl Error {
    /// Wrap a failed driver call: `func` is the entry point's name, `res`
    /// the positive platform error code it reported.
    pub fn new(func: &'static str, res: i32) -> (e: Error)
        ensures
            e.func@ == func@,
            e.kind == ErrorKind::Sys(res),
    {
        Error { func, kind: ErrorKind::Sys(res) }
    }

    /// An error for a feature not backed by any driver call.
    pub fn unsupported(func: &'static str) -> (e: Error)
        ensures
            e.func@ == func@,
            e.kind == ErrorKind::Unsupported,
    {
        Error { func, kind: ErrorKind::Unsupported }
    }

    /// The name of the driver entry point that failed.
    pub fn func(&self) -> (r: &'static str)
        ensures
            r@ == self.func@,
    {
        self.func
    }

    /// The platform error code, if the failure came from the driver.
    pub fn errno(&self) -> (r: Option<i32>)
        ensures
            r == (match self.kind {
                ErrorKind::Sys(c) => Some(c),
                ErrorKind::Unsupported => None::<i32>,
            }),
    {
        match self.kind {
            ErrorKind::Sys(c) => Some(c),
            ErrorKind::Unsupported => None,
        }
    }

    /// The underlying error kind.
    pub fn kind(&self) -> (r: ErrorKind)
        ensures
            r == self.kind,
    {
        self.kind
    }
}

/// The platform error code carried by a negative driver return `r`,
/// clamped into the range of an `i32`.
pub open spec fn code_of_return(r: int) -> int {
    if -r <= 0x7fff_ffff {
        -r
    } else {
        0x7fff_ffff
    }
}

/// Uniform failure translation for driver calls: a negative return becomes
/// a structured error naming the failing entry point; a non-negative
/// return passes through unchanged.
pub fn check_return(func: &'static str, r: i64) -> (res: Result<i64, Error>)
    ensures
        r >= 0 ==> res == Ok::<i64, Error>(r),
        r < 0 ==> (res matches Err(e) && e.func@ == func@ && e.kind == ErrorKind::Sys(
            code_of_return(r as int) as i32,
        )),
{
    if r >= 0 {
        Ok(r)
    } else {
        let code: i32 = if r >= -0x7fff_ffffi64 {
            (-r) as i32
        } else {
            0x7fff_ffff
        };
        Err(Error::new(func, code))
    }
}

} // verus!
