//! The spawner.
//!
//! Spawns a shell command, waits until it completes, then lets the host
//! continue as if nothing happened. The fork, wait and process-replacement
//! calls happen outside the library; this module decides, from which side
//! of the fork the caller landed on, what each side must do, and builds
//! the exact argument and environment lists the child hands to the shell.

use vstd::prelude::*;

use crate::bytes::ascii_seq;
use crate::bytes::lit_bytes;
use crate::errno::Errno;
use crate::sys::Fork;

verus! {

/// The path of the shell that runs the spawned command.
pub open spec fn shell_path() -> Seq<u8> {
    ascii_seq("/bin/sh"@)
}

/// The shell flag that makes the next argument a command string.
pub open spec fn shell_flag() -> Seq<u8> {
    ascii_seq("-c"@)
}

/// The process image the child replaces itself with: an interpreter path,
/// its argument list and its environment, each entry a plain byte string
/// (terminators are the concern of whoever makes the raw call).
#[derive(Debug, PartialEq, Eq)]
pub struct ExecImage {
    /// The path of the program to execute.
    pub path: Vec<u8>,
    /// The argument list, the program's own name first.
    pub args: Vec<Vec<u8>>,
    /// The environment entries.
    pub env: Vec<Vec<u8>>,
}

/// What one side of the fork must do next.
#[derive(Debug, PartialEq, Eq)]
pub enum SpawnStep {
    /// The parent blocks until the child terminates.
    Wait {
        /// The child to wait for.
        child_pid: i32,
    },
    /// The child replaces its image.
    Exec {
        /// The image to replace it with.
        image: ExecImage,
    },
}

/// Decides what the caller must do after a successful fork, and builds
/// the child's exec image.
///
/// The parent waits for the child. The child invokes the shell on
/// `command` with an environment stripped down to the `PATH` value when
/// the parent had one, and empty otherwise — never any other variable, in
/// particular not the variables that select this module's own action,
/// which would re-trigger injection in the child's descendants.
pub fn do_spawn(fork: Fork, command: Vec<u8>, path_value: Option<Vec<u8>>) -> (r: SpawnStep)
    ensures
        fork matches Fork::Parent { child_pid } ==> r == (SpawnStep::Wait { child_pid }),
        fork is Child ==> (r matches SpawnStep::Exec { image } && {
            &&& image.path@ == shell_path()
            &&& image.args@.len() == 3
            &&& image.args@[0]@ == shell_path()
            &&& image.args@[1]@ == shell_flag()
            &&& image.args@[2]@ == command@
            &&& (path_value matches Some(p) ==> image.env@.len() == 1 && image.env@[0]@ == p@)
            &&& (path_value is None ==> image.env@.len() == 0)
        }),
{
    match fork {
        Fork::Parent { child_pid } => SpawnStep::Wait { child_pid },
        Fork::Child => {
            proof {
                reveal_strlit("/bin/sh");
                reveal_strlit("-c");
            }
            let path = lit_bytes("/bin/sh");
            let mut args: Vec<Vec<u8>> = Vec::new();
            args.push(lit_bytes("/bin/sh"));
            args.push(lit_bytes("-c"));
            args.push(command);
            let mut env: Vec<Vec<u8>> = Vec::new();
            match path_value {
                Some(p) => env.push(p),
                None => (),
            }
            SpawnStep::Exec { image: ExecImage { path, args, env } }
        },
    }
}

/// Turns the parent's wait on the child into the spawn's outcome: once
/// the child has terminated, the spawn succeeded regardless of the
/// child's own exit status; a failure to wait is surfaced.
pub fn spawn_wait_outcome(wait: Result<u32, Errno>) -> (r: Result<(), Errno>)
    ensures
        wait is Ok ==> r == Ok::<(), Errno>(()),
        wait matches Err(e) ==> r == Err::<(), Errno>(e),
{
    match wait {
        Ok(_) => Ok(()),
        Err(e) => Err(e),
    }
}

/// Turns a process-replacement call that came back into the spawn's
/// outcome. On success that call does not return at all, so the very fact
/// that it returned means it failed, whatever the thread's error code
/// says.
pub fn exec_returned_outcome(errno: Errno) -> (r: Result<(), Errno>)
    ensures
        r == Err::<(), Errno>(errno),
        r is Err,
{
    Err(errno)
}

} // verus!
