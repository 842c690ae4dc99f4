//! Action resolution.
//!
//! The module reads nothing itself: it is handed the values of the two
//! designated environment variables as plain byte strings and decides,
//! once, what the injected module is to do. The selector variable must
//! hold one of two recognized keywords; any other value, and the absent
//! variable, requests no action at all.

use vstd::prelude::*;

use crate::bytes::ascii_seq;
use crate::bytes::bytes_eq;
use crate::bytes::lit_bytes;

verus! {

/// Represents what the injected module is able to do.
#[derive(Debug, PartialEq, Eq)]
pub enum Action {
    /// Mute the host program by making its output primitive always report
    /// success without doing anything.
    Mute,
    /// Spawn a shell command, wait until it completes, then let the host
    /// continue as if nothing happened.
    Spawn(Vec<u8>),
}

/// The selector keyword that requests [`Action::Mute`].
pub open spec fn mute_keyword() -> Seq<u8> {
    ascii_seq("mute"@)
}

/// The selector keyword that requests [`Action::Spawn`].
pub open spec fn spawn_keyword() -> Seq<u8> {
    ascii_seq("spawn"@)
}

/// The name of the variable holding the action selector.
pub open spec fn action_variable() -> Seq<u8> {
    ascii_seq("LDTK_ACTION"@)
}

/// The name of the variable holding the command for [`Action::Spawn`].
pub open spec fn spawn_variable() -> Seq<u8> {
    ascii_seq("LDTK_SPAWN"@)
}

/// The default command executed by [`Action::Spawn`] when the command
/// variable is unset.
pub open spec fn default_spawn_command() -> Seq<u8> {
    ascii_seq("echo \"i'm in ur address space\""@)
}

/// Whether this selector value requests [`Action::Mute`].
pub open spec fn resolves_mute(selector: Option<Vec<u8>>) -> bool {
    selector matches Some(v) && v@ == mute_keyword()
}

/// Whether this selector value requests [`Action::Spawn`].
pub open spec fn resolves_spawn(selector: Option<Vec<u8>>) -> bool {
    selector matches Some(v) && v@ == spawn_keyword()
}

/// The command a spawn request carries: the command variable's value when
/// it is set, the fixed default otherwise.
pub open spec fn spawn_command(command: Option<Vec<u8>>) -> Seq<u8> {
    match command {
        Some(c) => c@,
        None => default_spawn_command(),
    }
}

/// The two keywords differ, so a selector value requests at most one action.
pub proof fn lemma_keywords_distinct()
    ensures
        mute_keyword() != spawn_keyword(),
{
    reveal_strlit("mute");
    reveal_strlit("spawn");
    assert(mute_keyword().len() == 4);
    assert(spawn_keyword().len() == 5);
}

/// Law: resolution is a function of the selector value alone and has a
/// single outcome per value. No value requests two actions, and the absent
/// selector requests none.
pub proof fn lemma_selector_classification(selector: Option<Vec<u8>>)
    ensures
        !(resolves_mute(selector) && resolves_spawn(selector)),
        selector is None ==> !resolves_mute(selector) && !resolves_spawn(selector),
{
    lemma_keywords_distinct();
}

impl Action {
    /// The name of the environment variable in which an [`Action`] can be
    /// parsed.
    pub fn env_action_name() -> (r: Vec<u8>)
        ensures
            r@ == action_variable(),
    {
        proof {
            reveal_strlit("LDTK_ACTION");
        }
        lit_bytes("LDTK_ACTION")
    }

    /// The name of the environment variable used to store the spawned
    /// command.
    pub fn env_spawn_name() -> (r: Vec<u8>)
        ensures
            r@ == spawn_variable(),
    {
        proof {
            reveal_strlit("LDTK_SPAWN");
        }
        lit_bytes("LDTK_SPAWN")
    }

    /// The default command executed by [`Action::Spawn`].
    pub fn default_spawn() -> (r: Vec<u8>)
        ensures
            r@ == default_spawn_command(),
    {
        proof {
            reveal_strlit("echo \"i'm in ur address space\"");
        }
        lit_bytes("echo \"i'm in ur address space\"")
    }

    /// Parses the selector variable's value and creates an instance of
    /// [`Action`].
    ///
    /// `selector` is the value of the action variable and `command` the
    /// value of the command variable, each `None` when the variable is
    /// unset. The `mute` keyword requests [`Action::Mute`]; the `spawn`
    /// keyword requests [`Action::Spawn`], carrying the command value or
    /// the fixed default when that variable is unset. Every other value,
    /// and the absent selector, yields `None`: no action is requested.
    pub fn from_env(selector: Option<Vec<u8>>, command: Option<Vec<u8>>) -> (r: Option<Action>)
        ensures
            resolves_mute(selector) ==> r == Some(Action::Mute),
            resolves_spawn(selector) ==> (r matches Some(a) && a matches Action::Spawn(c)
                && c@ == spawn_command(command)),
            !resolves_mute(selector) && !resolves_spawn(selector) ==> r is None,
    {
        proof {
            lemma_keywords_distinct();
        }
        match selector {
            None => None,
            Some(v) => {
                proof {
                    reveal_strlit("mute");
                    reveal_strlit("spawn");
                }
                let mute = lit_bytes("mute");
                if bytes_eq(v.as_slice(), mute.as_slice()) {
                    Some(Action::Mute)
                } else {
                    let spawn = lit_bytes("spawn");
                    if bytes_eq(v.as_slice(), spawn.as_slice()) {
                        let cmd = match command {
                            Some(c) => c,
                            None => Self::default_spawn(),
                        };
                        Some(Action::Spawn(cmd))
                    } else {
                        None
                    }
                }
            },
        }
    }
}

impl Default for Action {
    /// The historical fallback variant; resolution itself never falls back
    /// to it, an unrecognized selector requests no action instead.
    fn default() -> (r: Action)
        ensures
            r is Mute,
    {
        Action::Mute
    }
}

} // verus!
