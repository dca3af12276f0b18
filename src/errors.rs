use vstd::prelude::*;

verus! {

/// Kernel error code: no such file or directory.
pub const ENOENT: i32 = 2;

/// Kernel error code: permission denied.
pub const EACCES: i32 = 13;

/// Kernel error code: bad address.
pub const EFAULT: i32 = 14;

/// Kernel error code: is a directory.
pub const EISDIR: i32 = 21;

/// A failure that carries the kernel error code the tracee is to observe.
#[derive(Clone, Copy, Debug, PartialEq, Eq, Structural)]
pub struct Error {
    pub errno: i32,
}

impl Error {
    /// An error carrying the kernel code `errno`.
    pub fn sys(errno: i32) -> (e: Error)
        ensures
            e.errno == errno,
    {
        Error { errno }
    }

    pub fn get_errno(&self) -> (r: i32)
        ensures
            r == self.errno,
    {
        self.errno
    }
}

/// The value of `-errno` as a two's-complement machine word.
pub open spec fn errno_word(errno: i32) -> u64 {
    if errno <= 0 {
        (-errno) as u64
    } else {
        (0x1_0000_0000_0000_0000int - errno) as u64
    }
}

/// The result-register value that reports `errno` as a failed syscall.
pub fn errno_result(errno: i32) -> (w: u64)
    ensures
        w == errno_word(errno),
{
    if errno <= 0 {
        let n: i64 = -(errno as i64);
        n as u64
    } else {
        0u64.wrapping_sub(errno as u64)
    }
}

} // verus!
