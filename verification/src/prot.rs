//! Memory-page protection flags.
//!
//! A `Prot` value is the set of access rights requested for a memory page:
//! any combination of read, write and execute. The empty set stands for no
//! access at all. The library only ever decides which set to request; the
//! request itself is an operating-system call made outside the library,
//! which translates each flag to the platform's own encoding.

use vstd::prelude::*;

verus! {

/// The protection flags of a memory page.
#[derive(Clone, Copy, Debug, PartialEq, Eq, Structural)]
pub struct Prot {
    /// The page can be read from.
    pub readable: bool,
    /// The page can be written to.
    pub writable: bool,
    /// The page can be executed.
    pub executable: bool,
}

impl Prot {
    /// No access at all.
    pub fn none() -> (r: Prot)
        ensures
            r == (Prot { readable: false, writable: false, executable: false }),
    {
        Prot { readable: false, writable: false, executable: false }
    }

    /// The set holding exactly the given flags.
    pub fn new(readable: bool, writable: bool, executable: bool) -> (r: Prot)
        ensures
            r == (Prot { readable, writable, executable }),
    {
        Prot { readable, writable, executable }
    }

    /// The union of two flag sets.
    pub fn union(self, other: Prot) -> (r: Prot)
        ensures
            r == (Prot {
                readable: self.readable || other.readable,
                writable: self.writable || other.writable,
                executable: self.executable || other.executable,
            }),
    {
        Prot {
            readable: self.readable || other.readable,
            writable: self.writable || other.writable,
            executable: self.executable || other.executable,
        }
    }

    /// Whether execution is the only right in the set.
    pub open spec fn is_exec_only(self) -> bool {
        !self.readable && !self.writable && self.executable
    }
}

} // verus!
