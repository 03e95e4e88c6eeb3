//! One virtual CPU of a domain.

use vstd::prelude::*;

verus! {

/// What the backend reported of one virtual CPU.
#[derive(Clone, Copy, Debug, PartialEq, Eq, Structural)]
pub struct Vcpu {
    /// Nonzero while the virtual CPU is online.
    pub online: u32,
    /// Time the virtual CPU has run, in nanoseconds.
    pub ns: u64,
}

impl Vcpu {
    /// Whether the virtual CPU is online, as the backend put it.
    pub fn online(&self) -> (online: u32)
        ensures
            online == self.online,
    {
        self.online
    }

    /// Time the virtual CPU has run, in nanoseconds.
    pub fn ns(&self) -> (ns: u64)
        ensures
            ns == self.ns,
    {
        self.ns
    }
}

} // verus!
