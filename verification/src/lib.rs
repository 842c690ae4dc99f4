//! Preload injection toolkit: the verified core.
//!
//! The library holds the decision logic of a small code-injection module:
//! resolving an operator-requested action from environment values, planning
//! an in-memory patch of the host's output primitive, building the argument
//! and environment lists for a spawned shell command, and interpreting the
//! raw return values of the operating-system calls involved. The raw calls
//! themselves (memory protection, fork, exec, wait) live outside the
//! library, which only ever works on plain values.

use std::io::Write;

use vstd::prelude::*;

pub mod bytes;
pub mod errno;
pub mod prot;
pub mod sys;
pub mod action;
pub mod mute;
pub mod spawn;

use crate::bytes::ascii_seq;
use crate::bytes::concat_bytes;
use crate::bytes::lit_bytes;
use crate::errno::Errno;

verus! {

/// The tag put in front of every diagnostic line.
pub open spec fn diagnostic_prefix() -> Seq<u8> {
    ascii_seq("ldtk: "@)
}

/// Relies on `std::io::Stderr::write_all` to put the diagnostic line on
/// the standard error; a failure to write is ignored, there is nowhere
/// left to report it.
#[verifier::external_body]
fn stderr_write(line: &[u8]) {
    let _ = std::io::stderr().write_all(line);
}

/// Writes an error message to the standard error, prefixed with the
/// module's tag.
///
/// Only debug builds report anything; the caller says which kind of build
/// is running, since the library itself is build-agnostic. Returns the
/// line written, `None` when nothing was.
pub fn print_error(err: &[u8], debug: bool) -> (r: Option<Vec<u8>>)
    ensures
        debug ==> (r matches Some(line) && line@ == diagnostic_prefix() + err@),
        !debug ==> r is None,
{
    if debug {
        proof {
            reveal_strlit("ldtk: ");
        }
        let prefix = lit_bytes("ldtk: ");
        let line = concat_bytes(prefix.as_slice(), err);
        stderr_write(line.as_slice());
        Some(line)
    } else {
        None
    }
}

/// Handles a panic coming from this module.
///
/// This is a bug: it should normally *never* run. It reports the panic's
/// message when there is one, and the caller must then terminate the
/// process at once — an unwind must never cross into the host, which has
/// no contract for it. Returns the line written, `None` when nothing was.
pub fn handle_panic(msg: Option<Vec<u8>>, debug: bool) -> (r: Option<Vec<u8>>)
    ensures
        msg matches Some(m) ==> (debug ==> (r matches Some(line) && line@ == diagnostic_prefix()
            + m@)),
        !debug || msg is None ==> r is None,
{
    match msg {
        Some(m) => print_error(m.as_slice(), debug),
        None => None,
    }
}

/// Converts a dispatched action's outcome into the module's only visible
/// report: nothing at all on success or in a release build, one prefixed
/// diagnostic line with the error's description otherwise. The host is
/// never told, through any return value, whether the action succeeded.
pub fn init_report(outcome: Result<(), Errno>, debug: bool) -> (r: Option<Vec<u8>>)
    ensures
        outcome is Ok ==> r is None,
        !debug ==> r is None,
        debug && outcome is Err ==> (r matches Some(line) && line@.len()
            >= diagnostic_prefix().len() && line@.take(diagnostic_prefix().len() as int)
            == diagnostic_prefix()),
{
    match outcome {
        Ok(_) => None,
        Err(e) => {
            let desc = e.description();
            let r = print_error(desc.as_slice(), debug);
            proof {
                if debug {
                    assert((diagnostic_prefix() + desc@).take(diagnostic_prefix().len() as int)
                        =~= diagnostic_prefix());
                }
            }
            r
        },
    }
}

} // verus!
