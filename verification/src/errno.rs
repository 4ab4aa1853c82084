//! Typed view of the operating system's error codes.
//!
//! The wrapper performs no recovery of its own: every failing call surfaces
//! the kernel's error number, mapped here onto a small typed value.

use vstd::prelude::*;

verus! {

/// An error code reported by the operating system.
#[derive(Clone, Copy, Debug, PartialEq, Eq, Structural)]
pub enum Errno {
    /// Operation not permitted.
    EPERM,
    /// No such object.
    ENOENT,
    /// Out of memory.
    ENOMEM,
    /// Permission denied.
    EACCES,
    /// Bad address.
    EFAULT,
    /// Object already exists.
    EEXIST,
    /// Invalid argument.
    EINVAL,
    /// Too many open objects in the system.
    ENFILE,
    /// No space left for the object.
    ENOSPC,
    /// Identifier removed.
    EIDRM,
    /// Value too large for its field.
    EOVERFLOW,
    /// A code this wrapper does not name.
    UnknownErrno,
}

/// The typed error named by a raw error number.
pub open spec fn errno_of_raw(e: i32) -> Errno {
    if e == 1 {
        Errno::EPERM
    } else if e == 2 {
        Errno::ENOENT
    } else if e == 12 {
        Errno::ENOMEM
    } else if e == 13 {
        Errno::EACCES
    } else if e == 14 {
        Errno::EFAULT
    } else if e == 17 {
        Errno::EEXIST
    } else if e == 22 {
        Errno::EINVAL
    } else if e == 23 {
        Errno::ENFILE
    } else if e == 28 {
        Errno::ENOSPC
    } else if e == 43 {
        Errno::EIDRM
    } else if e == 75 {
        Errno::EOVERFLOW
    } else {
        Errno::UnknownErrno
    }
}

impl Errno {
    /// Map a raw error number onto its typed error.
    pub fn from_raw(e: i32) -> (r: Errno)
        ensures
            r == errno_of_raw(e),
    {
        if e == 1 {
            Errno::EPERM
        } else if e == 2 {
            Errno::ENOENT
        } else if e == 12 {
            Errno::ENOMEM
        } else if e == 13 {
            Errno::EACCES
        } else if e == 14 {
            Errno::EFAULT
        } else if e == 17 {
            Errno::EEXIST
        } else if e == 22 {
            Errno::EINVAL
        } else if e == 23 {
            Errno::ENFILE
        } else if e == 28 {
            Errno::ENOSPC
        } else if e == 43 {
            Errno::EIDRM
        } else if e == 75 {
            Errno::EOVERFLOW
        } else {
            Errno::UnknownErrno
        }
    }

    /// Interpret a kernel return value: `-1` reports the error whose number
    /// the caller read from the error location, anything else is success.
    pub fn result(value: i32, errno_value: i32) -> (r: Result<i32, Errno>)
        ensures
            value == -1 ==> r == Err::<i32, Errno>(errno_of_raw(errno_value)),
            value != -1 ==> r == Ok::<i32, Errno>(value),
    {
        if value == -1 {
            Err(Errno::from_raw(errno_value))
        } else {
            Ok(value)
        }
    }

    /// As `result`, for calls whose return value is address-sized.
    pub fn result_isize(value: isize, errno_value: i32) -> (r: Result<isize, Errno>)
        ensures
            value == -1 ==> r == Err::<isize, Errno>(errno_of_raw(errno_value)),
            value != -1 ==> r == Ok::<isize, Errno>(value),
    {
        if value == -1 {
            Err(Errno::from_raw(errno_value))
        } else {
            Ok(value)
        }
    }
}

} // verus!
