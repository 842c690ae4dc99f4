//! The safety layer's decoding of raw call results, the error type, and
//! the spawner's argument and environment building.

use ldtk::bytes::bytes_eq;
use ldtk::bytes::concat_bytes;
use ldtk::errno::Errno;
use ldtk::prot::Prot;
use ldtk::spawn::do_spawn;
use ldtk::spawn::exec_returned_outcome;
use ldtk::spawn::spawn_wait_outcome;
use ldtk::spawn::SpawnStep;
use ldtk::sys::fork_result;
use ldtk::sys::mprotect_result;
use ldtk::sys::sysconf_result;
use ldtk::sys::waitpid_result;
use ldtk::sys::write_result;
use ldtk::sys::Fork;

#[test]
fn byte_string_utilities() {
    assert!(bytes_eq(b"mute", b"mute"));
    assert!(!bytes_eq(b"mute", b"mutd"));
    assert!(!bytes_eq(b"mute", b"mut"));
    assert!(bytes_eq(b"", b""));
    assert_eq!(concat_bytes(b"ldtk: ", b"oops"), b"ldtk: oops".to_vec());
}

#[test]
fn success_is_the_zero_code() {
    assert_eq!(Errno::success(), Errno { code: 0 });
}

#[test]
fn description_returns_the_canonical_message() {
    assert_eq!(Errno { code: 1 }.description(), b"Operation not permitted".to_vec());
    assert_eq!(Errno { code: 2 }.description(), b"No such file or directory".to_vec());
}

#[test]
fn protection_flag_sets() {
    assert_eq!(Prot::none(), Prot { readable: false, writable: false, executable: false });
    let wx = Prot::new(false, true, false).union(Prot::new(false, false, true));
    assert_eq!(wx, Prot { readable: false, writable: true, executable: true });
}

#[test]
fn sysconf_decoding_distinguishes_failure_from_a_true_minus_one() {
    let e = Errno { code: 22 };
    assert_eq!(sysconf_result(-1, e), Err(e));
    assert_eq!(sysconf_result(-1, Errno { code: 0 }), Ok(usize::MAX));
    assert_eq!(sysconf_result(4096, e), Ok(4096));
}

#[test]
fn mprotect_decoding() {
    let e = Errno { code: 13 };
    assert_eq!(mprotect_result(-1, e), Err(e));
    assert_eq!(mprotect_result(0, e), Ok(()));
}

#[test]
fn fork_decoding() {
    let e = Errno { code: 11 };
    assert_eq!(fork_result(-1, e), Err(e));
    assert_eq!(fork_result(0, e), Ok(Fork::Child));
    assert_eq!(fork_result(4321, e), Ok(Fork::Parent { child_pid: 4321 }));
}

#[test]
fn waitpid_decoding() {
    let e = Errno { code: 10 };
    assert_eq!(waitpid_result(-1, 0, e), Err(e));
    assert_eq!(waitpid_result(4321, 0x0200, e), Ok(0x0200));
}

#[test]
fn write_decoding() {
    let e = Errno { code: 9 };
    assert_eq!(write_result(-1, e), Err(e));
    assert_eq!(write_result(6, e), Ok(6));
}

#[test]
fn parent_waits_for_the_forked_child() {
    let step = do_spawn(Fork::Parent { child_pid: 4321 }, b"echo hi".to_vec(), None);
    assert_eq!(step, SpawnStep::Wait { child_pid: 4321 });
}

#[test]
fn child_invokes_the_shell_on_the_command() {
    let step = do_spawn(Fork::Child, b"echo hi".to_vec(), Some(b"/usr/bin:/bin".to_vec()));
    match step {
        SpawnStep::Exec { image } => {
            assert_eq!(image.path, b"/bin/sh".to_vec());
            assert_eq!(
                image.args,
                vec![b"/bin/sh".to_vec(), b"-c".to_vec(), b"echo hi".to_vec()]
            );
            assert_eq!(image.env, vec![b"/usr/bin:/bin".to_vec()]);
        }
        other => panic!("the child must exec, got {:?}", other),
    }
}

#[test]
fn child_environment_is_empty_without_a_path() {
    let step = do_spawn(Fork::Child, b"echo hi".to_vec(), None);
    match step {
        SpawnStep::Exec { image } => assert_eq!(image.env, Vec::<Vec<u8>>::new()),
        other => panic!("the child must exec, got {:?}", other),
    }
}

#[test]
fn child_environment_never_carries_the_selector_variables() {
    let step = do_spawn(
        Fork::Child,
        b"echo hi".to_vec(),
        Some(b"/usr/bin:/bin".to_vec()),
    );
    match step {
        SpawnStep::Exec { image } => {
            for entry in &image.env {
                assert!(!entry.starts_with(b"LDTK_ACTION"));
                assert!(!entry.starts_with(b"LDTK_SPAWN"));
            }
            assert_eq!(image.env.len(), 1);
        }
        other => panic!("the child must exec, got {:?}", other),
    }
}

#[test]
fn wait_outcome_ignores_the_child_exit_status() {
    assert_eq!(spawn_wait_outcome(Ok(0)), Ok(()));
    assert_eq!(spawn_wait_outcome(Ok(0x7f00)), Ok(()));
    let e = Errno { code: 4 };
    assert_eq!(spawn_wait_outcome(Err(e)), Err(e));
}

#[test]
fn a_returning_exec_is_a_failure() {
    let e = Errno { code: 2 };
    assert_eq!(exec_returned_outcome(e), Err(e));
}
