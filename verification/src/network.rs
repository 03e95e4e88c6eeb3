//! One virtual network interface of a domain.

use vstd::prelude::*;

verus! {

/// What the backend reported of one virtual network interface: its
/// identifier and eight counters, receive and transmit.
#[derive(Clone, Copy, Debug, PartialEq, Eq, Structural)]
pub struct Network {
    pub id: u32,
    pub rbytes: u64,
    pub rpackets: u64,
    pub rerrs: u64,
    pub rdrop: u64,
    pub tbytes: u64,
    pub tpackets: u64,
    pub terrs: u64,
    pub tdrop: u64,
}

impl Network {
    /// The identifier of this network.
    pub fn id(&self) -> (id: u32)
        ensures
            id == self.id,
    {
        self.id
    }

    /// Bytes received.
    pub fn rbytes(&self) -> (n: u64)
        ensures
            n == self.rbytes,
    {
        self.rbytes
    }

    /// Packets received.
    pub fn rpackets(&self) -> (n: u64)
        ensures
            n == self.rpackets,
    {
        self.rpackets
    }

    /// Receive errors.
    pub fn rerrs(&self) -> (n: u64)
        ensures
            n == self.rerrs,
    {
        self.rerrs
    }

    /// Received packets that were dropped.
    pub fn rdrop(&self) -> (n: u64)
        ensures
            n == self.rdrop,
    {
        self.rdrop
    }

    /// Bytes transmitted.
    pub fn tbytes(&self) -> (n: u64)
        ensures
            n == self.tbytes,
    {
        self.tbytes
    }

    /// Packets transmitted.
    pub fn tpackets(&self) -> (n: u64)
        ensures
            n == self.tpackets,
    {
        self.tpackets
    }

    /// Transmit errors.
    pub fn terrs(&self) -> (n: u64)
        ensures
            n == self.terrs,
    {
        self.terrs
    }

    /// Packets dropped on transmit.
    pub fn tdrop(&self) -> (n: u64)
        ensures
            n == self.tdrop,
    {
        self.tdrop
    }
}

} // verus!
