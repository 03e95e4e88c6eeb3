//! One domain of a snapshot.

use crate::network::Network;
use crate::state::DomainState;
use crate::text::{decode_lossy, utf8_lossy};
use crate::tmem::Tmem;
use crate::vbd::Vbd;
use crate::vcpu::Vcpu;
use vstd::prelude::*;
use vstd::utf8::{decode_utf8, valid_utf8};

verus! {

/// What the backend reported of one domain, field by field and undecoded:
/// the name as bytes, each run-state predicate as the integer it returned,
/// the devices in the order the backend numbers them.
#[derive(Debug, PartialEq, Eq)]
pub struct DomainReport {
    pub id: u32,
    pub name: Vec<u8>,
    /// CPU time used, in nanoseconds.
    pub cpu_ns: u64,
    /// Current memory reservation, in bytes.
    pub cur_mem: u64,
    /// Maximum memory reservation, in bytes.
    pub max_mem: u64,
    pub ssid: u32,
    pub running: u32,
    pub blocked: u32,
    pub paused: u32,
    pub shutdown: u32,
    pub crashed: u32,
    pub dying: u32,
    pub vcpus: Vec<Vcpu>,
    pub networks: Vec<Network>,
    pub vbds: Vec<Vbd>,
    pub tmem: Tmem,
}

impl DomainReport {
    /// Whether each device list is short enough for its length to be
    /// reported as a `u32`, as the backend counts devices.
    pub open spec fn countable(&self) -> bool {
        &&& self.vcpus@.len() <= u32::MAX
        &&& self.networks@.len() <= u32::MAX
        &&& self.vbds@.len() <= u32::MAX
    }
}

/// One domain of a snapshot. Its accessors answer from the report the
/// domain was made of; a device is asked for by its position, and a position
/// past the end is answered with `None`.
#[derive(Debug, PartialEq, Eq)]
pub struct Domain {
    report: DomainReport,
}

impl Domain {
    #[verifier::type_invariant]
    spec fn well_formed(&self) -> bool {
        self.report.countable()
    }

    /// The report this domain answers from.
    pub closed spec fn report(&self) -> DomainReport {
        self.report
    }

    /// The run state the report's six predicates stand for.
    pub open spec fn state_spec(&self) -> DomainState {
        DomainState::decoded(
            self.report().running,
            self.report().blocked,
            self.report().paused,
            self.report().shutdown,
            self.report().crashed,
            self.report().dying,
        )
    }

    /// A domain that answers from `report`.
    pub fn new(report: DomainReport) -> (domain: Domain)
        requires
            report.countable(),
        ensures
            domain.report() == report,
    {
        Domain { report }
    }

    /// The ID of the domain.
    pub fn id(&self) -> (id: u32)
        ensures
            id == self.report().id,
    {
        self.report.id
    }

    /// The name of the domain. Bytes that are no UTF-8 are replaced, never
    /// refused.
    pub fn name(&self) -> (name: String)
        ensures
            name@ == utf8_lossy(self.report().name@),
            valid_utf8(self.report().name@) ==> name@ == decode_utf8(self.report().name@),
    {
        decode_lossy(self.report.name.as_slice())
    }

    /// CPU time the domain has used, in nanoseconds.
    pub fn cpu_ns(&self) -> (ns: u64)
        ensures
            ns == self.report().cpu_ns,
    {
        self.report.cpu_ns
    }

    /// The number of VCPUs of the domain.
    pub fn num_vcpus(&self) -> (n: u32)
        ensures
            n == self.report().vcpus@.len(),
    {
        proof {
            use_type_invariant(self);
        }
        self.report.vcpus.len() as u32
    }

    /// The VCPU at position `cpu`, for `cpu` below `num_vcpus()`.
    pub fn vcpu(&self, cpu: u32) -> (vcpu: Option<Vcpu>)
        ensures
            vcpu == if cpu < self.report().vcpus@.len() {
                Some(self.report().vcpus@[cpu as int])
            } else {
                None
            },
    {
        if (cpu as usize) < self.report.vcpus.len() {
            Some(self.report.vcpus[cpu as usize])
        } else {
            None
        }
    }

    /// Current memory reservation, in bytes.
    pub fn cur_mem(&self) -> (bytes: u64)
        ensures
            bytes == self.report().cur_mem,
    {
        self.report.cur_mem
    }

    /// Maximum memory reservation, in bytes.
    pub fn max_mem(&self) -> (bytes: u64)
        ensures
            bytes == self.report().max_mem,
    {
        self.report.max_mem
    }

    /// The security identifier of the domain.
    pub fn ssid(&self) -> (ssid: u32)
        ensures
            ssid == self.report().ssid,
    {
        self.report.ssid
    }

    /// The run state of the domain, decoded from the six predicates.
    pub fn state(&self) -> (state: DomainState)
        ensures
            state == self.state_spec(),
    {
        DomainState::decode(
            self.report.running,
            self.report.blocked,
            self.report.paused,
            self.report.shutdown,
            self.report.crashed,
            self.report.dying,
        )
    }

    /// The number of networks of the domain.
    pub fn num_networks(&self) -> (n: u32)
        ensures
            n == self.report().networks@.len(),
    {
        proof {
            use_type_invariant(self);
        }
        self.report.networks.len() as u32
    }

    /// The network at position `network`, for `network` below
    /// `num_networks()`.
    pub fn network(&self, network: u32) -> (found: Option<Network>)
        ensures
            found == if network < self.report().networks@.len() {
                Some(self.report().networks@[network as int])
            } else {
                None
            },
    {
        if (network as usize) < self.report.networks.len() {
            Some(self.report.networks[network as usize])
        } else {
            None
        }
    }

    /// The number of block devices of the domain.
    pub fn num_vbds(&self) -> (n: u32)
        ensures
            n == self.report().vbds@.len(),
    {
        proof {
            use_type_invariant(self);
        }
        self.report.vbds.len() as u32
    }

    /// The block device at position `vbd`, for `vbd` below `num_vbds()`.
    pub fn vbd(&self, vbd: u32) -> (found: Option<Vbd>)
        ensures
            found == if vbd < self.report().vbds@.len() {
                Some(self.report().vbds@[vbd as int])
            } else {
                None
            },
    {
        if (vbd as usize) < self.report.vbds.len() {
            Some(self.report.vbds[vbd as usize])
        } else {
            None
        }
    }

    /// The transcendent-memory counters of the domain.
    pub fn tmem(&self) -> (tmem: Tmem)
        ensures
            tmem == self.report().tmem,
    {
        self.report.tmem
    }
}

} // verus!
