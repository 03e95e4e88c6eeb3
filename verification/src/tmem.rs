//! The transcendent-memory counters of a domain.

use vstd::prelude::*;

verus! {

/// What the backend reported of a domain's use of transcendent memory.
/// There is one such record per domain.
#[derive(Clone, Copy, Debug, PartialEq, Eq, Structural)]
pub struct Tmem {
    /// Ephemeral pages held at the time of the snapshot.
    pub curr_eph_pages: u64,
    /// Gets from ephemeral pools that succeeded.
    pub succ_eph_gets: u64,
    /// Puts to persistent pools that succeeded.
    pub succ_pers_puts: u64,
    /// Gets from persistent pools that succeeded.
    pub succ_pers_gets: u64,
}

impl Tmem {
    /// Ephemeral pages held at the time of the snapshot.
    pub fn curr_eph_pages(&self) -> (pages: u64)
        ensures
            pages == self.curr_eph_pages,
    {
        self.curr_eph_pages
    }

    /// Gets from ephemeral pools that succeeded.
    pub fn succ_eph_gets(&self) -> (gets: u64)
        ensures
            gets == self.succ_eph_gets,
    {
        self.succ_eph_gets
    }

    /// Puts to persistent pools that succeeded.
    pub fn succ_pers_puts(&self) -> (puts: u64)
        ensures
            puts == self.succ_pers_puts,
    {
        self.succ_pers_puts
    }

    /// Gets from persistent pools that succeeded.
    pub fn succ_pers_gets(&self) -> (gets: u64)
        ensures
            gets == self.succ_pers_gets,
    {
        self.succ_pers_gets
    }
}

} // verus!
