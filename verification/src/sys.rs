//! Interpretation of raw operating-system call results.
//!
//! Every raw call follows the same convention: a sentinel return value
//! signals failure and the thread's last error code says why. The caller of
//! a raw call reads that code once, right after the call, and hands both
//! plain values here; these functions turn them into a `Result` exactly as
//! the convention prescribes. The raw calls themselves live outside the
//! library.

use vstd::prelude::*;

use crate::errno::Errno;

verus! {

/// The result of a successful fork: which side of the fork the caller is on.
#[derive(Clone, Copy, Debug, PartialEq, Eq, Structural)]
pub enum Fork {
    /// The current process is the parent.
    Parent {
        /// The identifier of the new child process.
        child_pid: i32,
    },
    /// The current process is the child.
    Child,
}

/// Decodes a `sysconf` return. The call reports failure by returning `-1`
/// *and* leaving an error code behind; since `-1` is also a valid result
/// for some queries, the error state must have been reset to success
/// immediately before the call, and only a lingering error after it means
/// genuine failure.
pub fn sysconf_result(ret: i64, errno: Errno) -> (r: Result<usize, Errno>)
    requires
        ret >= -1,
        0 <= ret ==> ret <= usize::MAX,
    ensures
        ret == -1 && !errno.is_success() ==> r == Err::<usize, Errno>(errno),
        ret == -1 && errno.is_success() ==> r == Ok::<usize, Errno>(usize::MAX),
        ret >= 0 ==> r == Ok::<usize, Errno>(ret as usize),
{
    if ret == -1 {
        if errno.code != 0 {
            return Err(errno);
        }
        // A true `-1` answer comes out as the all-ones value, exactly as
        // the raw return converts to the unsigned word size.
        return Ok(usize::MAX);
    }
    Ok(ret as usize)
}

/// Decodes an `mprotect` return: `-1` means failure with the given code,
/// anything else means the protection change was applied.
pub fn mprotect_result(ret: i32, errno: Errno) -> (r: Result<(), Errno>)
    ensures
        ret == -1 ==> r == Err::<(), Errno>(errno),
        ret != -1 ==> r == Ok::<(), Errno>(()),
{
    if ret == -1 {
        Err(errno)
    } else {
        Ok(())
    }
}

/// Decodes a `fork` return: `-1` means failure, `0` means the caller is the
/// new child, and any other value is the child's identifier seen from the
/// parent.
pub fn fork_result(ret: i32, errno: Errno) -> (r: Result<Fork, Errno>)
    ensures
        ret == -1 ==> r == Err::<Fork, Errno>(errno),
        ret == 0 ==> r == Ok::<Fork, Errno>(Fork::Child),
        ret != -1 && ret != 0 ==> r == Ok::<Fork, Errno>(Fork::Parent { child_pid: ret }),
{
    match ret {
        -1 => Err(errno),
        0 => Ok(Fork::Child),
        child_pid => Ok(Fork::Parent { child_pid }),
    }
}

/// Decodes a `waitpid` return: `-1` means failure, anything else means the
/// child terminated and `status` is its raw termination status.
pub fn waitpid_result(ret: i32, status: i32, errno: Errno) -> (r: Result<u32, Errno>)
    ensures
        ret == -1 ==> r == Err::<u32, Errno>(errno),
        ret != -1 ==> (r matches Ok(s) && (status >= 0 ==> s == status as u32)),
{
    if ret == -1 {
        Err(errno)
    } else {
        Ok(#[verifier::truncate] (status as u32))
    }
}

/// Decodes a raw `write` return: `-1` means failure, anything else is the
/// number of bytes written.
pub fn write_result(ret: isize, errno: Errno) -> (r: Result<usize, Errno>)
    requires
        ret >= -1,
    ensures
        ret == -1 ==> r == Err::<usize, Errno>(errno),
        ret >= 0 ==> r == Ok::<usize, Errno>(ret as usize),
{
    if ret == -1 {
        Err(errno)
    } else {
        Ok(ret as usize)
    }
}

} // verus!
