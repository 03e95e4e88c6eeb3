//! The snapshot of a node: host-wide counters and the table of domains.

use crate::domain::Domain;
use crate::text::{decode_lossy, utf8_lossy};
use vstd::prelude::*;
use vstd::utf8::{decode_utf8, valid_utf8};

verus! {

/// What the backend reported of the node, undecoded: the version as bytes,
/// the domains in the order the backend enumerates them.
#[derive(Debug, PartialEq, Eq)]
pub struct NodeReport {
    pub xen_version: Vec<u8>,
    /// Total memory, in bytes.
    pub tot_mem: u64,
    /// Free memory, in bytes.
    pub free_mem: u64,
    /// Memory that transcendent memory could give back, in MiB. Negative
    /// where the figure does not apply.
    pub freeable_mb: i64,
    pub num_cpus: u32,
    /// CPU clock, in Hz.
    pub cpu_hz: u64,
    pub domains: Vec<Domain>,
}

/// What came of opening the backend and asking it for a snapshot.
#[derive(Debug, PartialEq, Eq)]
pub enum Capture {
    /// The backend could not be opened.
    Unavailable,
    /// The backend is open but handed back no snapshot.
    Empty,
    /// The backend is open and handed back this snapshot.
    Node(NodeReport),
}

impl Capture {
    /// The snapshot that was handed back, if one was.
    pub open spec fn report(&self) -> Option<NodeReport> {
        match self {
            Capture::Node(report) => Some(*report),
            _ => None,
        }
    }

    /// Whether the domain table is short enough for its length to be
    /// reported as a `u32`, as the backend counts domains.
    pub open spec fn countable(&self) -> bool {
        self matches Capture::Node(report) ==> report.domains@.len() <= u32::MAX
    }
}

/// Why a `Xen` has no host-wide figure to give.
#[derive(Clone, Copy, Debug, PartialEq, Eq, Structural)]
pub enum XenError {
    /// The backend handed back no snapshot.
    NoSnapshot,
    /// The snapshot has been released.
    Released,
}

/// One thing to give back to the backend when a snapshot is let go of.
#[derive(Clone, Copy, Debug, PartialEq, Eq, Structural)]
pub enum ReleaseStep {
    /// Free the snapshot object.
    FreeNode,
    /// Close the handle the snapshot was taken through.
    Uninit,
}

/// What is still to be given back, in the order it must happen: the
/// snapshot object while its handle is alive, then the handle; nothing once
/// that has been done.
pub open spec fn release_steps(released: bool) -> Seq<ReleaseStep> {
    if released {
        Seq::empty()
    } else {
        seq![ReleaseStep::FreeNode, ReleaseStep::Uninit]
    }
}

/// Whether `at` is the first position in `domains` that holds a domain with
/// the ID `domid`.
pub open spec fn first_with_id(domains: Seq<Domain>, domid: u32, at: int) -> bool {
    &&& 0 <= at < domains.len()
    &&& domains[at].report().id == domid
    &&& forall|before: int| 0 <= before < at ==> domains[before].report().id != domid
}

/// The domain a lookup found, as a value.
pub open spec fn found_domain(found: Option<&Domain>) -> Option<Domain> {
    match found {
        Some(domain) => Some(*domain),
        None => None,
    }
}

/// A snapshot of a node, taken through an open backend. It stands for the
/// backend's handle and snapshot object until it is released; from then on
/// it holds nothing and says so.
#[derive(Debug)]
pub struct Xen {
    node: Option<NodeReport>,
    released: bool,
}

impl Xen {
    #[verifier::type_invariant]
    spec fn well_formed(&self) -> bool {
        &&& self.released ==> self.node is None
        &&& self.node matches Some(report) ==> report.domains@.len() <= u32::MAX
    }

    /// Whether the snapshot has been released.
    pub closed spec fn released(&self) -> bool {
        self.released
    }

    /// The report this snapshot answers from; `None` where the backend
    /// handed back no snapshot, and once the snapshot has been released.
    pub closed spec fn node(&self) -> Option<NodeReport> {
        self.node
    }

    /// Why there is no report to answer from, where there is none.
    pub open spec fn absence(&self) -> XenError {
        if self.released() {
            XenError::Released
        } else {
            XenError::NoSnapshot
        }
    }

    /// The domains of the snapshot, in the order the backend enumerated
    /// them; none where there is no report.
    pub open spec fn domains(&self) -> Seq<Domain> {
        match self.node() {
            Some(report) => report.domains@,
            None => Seq::empty(),
        }
    }

    /// The domain at position `index` of the enumeration.
    pub open spec fn by_index(&self, index: int) -> Option<Domain> {
        if 0 <= index < self.domains().len() {
            Some(self.domains()[index])
        } else {
            None
        }
    }

    /// The first domain of the enumeration with the ID `domid`.
    pub open spec fn by_id(&self, domid: u32) -> Option<Domain> {
        if exists|at: int| first_with_id(self.domains(), domid, at) {
            Some(self.domains()[choose|at: int| first_with_id(self.domains(), domid, at)])
        } else {
            None
        }
    }

    /// The snapshot that `capture` stands for. There is none where the
    /// backend could not be opened; a backend that is open but handed back
    /// nothing gives a snapshot without a report.
    pub fn new(capture: Capture) -> (xen: Option<Xen>)
        requires
            capture.countable(),
        ensures
            xen is None <==> capture is Unavailable,
            xen matches Some(x) ==> !x.released() && x.node() == capture.report(),
    {
        match capture {
            Capture::Unavailable => None,
            Capture::Empty => Some(Xen { node: None, released: false }),
            Capture::Node(report) => Some(Xen { node: Some(report), released: false }),
        }
    }

    /// The domain with the ID `domid`: the first in the enumeration that
    /// has it, `None` where no domain has it.
    pub fn domain(&self, domid: u32) -> (found: Option<&Domain>)
        ensures
            found_domain(found) == self.by_id(domid),
            found is None <==> forall|at: int|
                0 <= at < self.domains().len() ==> self.domains()[at].report().id != domid,
    {
        match &self.node {
            None => None,
            Some(report) => {
                let mut at: usize = 0;
                while at < report.domains.len()
                    invariant
                        at <= report.domains@.len(),
                        self.domains() == report.domains@,
                        forall|before: int|
                            0 <= before < at ==> report.domains@[before].report().id != domid,
                    decreases report.domains@.len() - at,
                {
                    if report.domains[at].id() == domid {
                        proof {
                            lemma_first_with_id_unique(self.domains(), domid, at as int);
                        }
                        return Some(&report.domains[at]);
                    }
                    at += 1;
                }
                None
            },
        }
    }

    /// The domain at position `index` of the enumeration, for walking
    /// over all domains; `None` for an index that is not below
    /// `num_domains()`.
    pub fn domain_by_index(&self, index: u32) -> (found: Option<&Domain>)
        ensures
            found_domain(found) == self.by_index(index as int),
    {
        match &self.node {
            None => None,
            Some(report) => {
                if (index as usize) < report.domains.len() {
                    Some(&report.domains[index as usize])
                } else {
                    None
                }
            },
        }
    }

    /// The version of the hypervisor. Bytes that are no UTF-8 are
    /// replaced, never refused.
    pub fn xen_version(&self) -> (version: Result<String, XenError>)
        ensures
            match version {
                Ok(text) => {
                    &&& self.node() matches Some(report)
                    &&& text@ == utf8_lossy(report.xen_version@)
                    &&& valid_utf8(report.xen_version@) ==> text@ == decode_utf8(
                        report.xen_version@,
                    )
                },
                Err(why) => self.node() is None && why == self.absence(),
            },
    {
        match &self.node {
            Some(report) => Ok(decode_lossy(report.xen_version.as_slice())),
            None => Err(self.why_absent()),
        }
    }

    /// Total memory of the node, in bytes.
    pub fn total_memory(&self) -> (bytes: Result<u64, XenError>)
        ensures
            bytes == match self.node() {
                Some(report) => Ok::<u64, XenError>(report.tot_mem),
                None => Err(self.absence()),
            },
    {
        match &self.node {
            Some(report) => Ok(report.tot_mem),
            None => Err(self.why_absent()),
        }
    }

    /// Free memory of the node, in bytes.
    pub fn free_memory(&self) -> (bytes: Result<u64, XenError>)
        ensures
            bytes == match self.node() {
                Some(report) => Ok::<u64, XenError>(report.free_mem),
                None => Err(self.absence()),
            },
    {
        match &self.node {
            Some(report) => Ok(report.free_mem),
            None => Err(self.why_absent()),
        }
    }

    /// Memory that transcendent memory could give back, in MiB; negative
    /// where the figure does not apply.
    pub fn freeable_memory(&self) -> (mib: Result<i64, XenError>)
        ensures
            mib == match self.node() {
                Some(report) => Ok::<i64, XenError>(report.freeable_mb),
                None => Err(self.absence()),
            },
    {
        match &self.node {
            Some(report) => Ok(report.freeable_mb),
            None => Err(self.why_absent()),
        }
    }

    /// The number of domains in the snapshot.
    pub fn num_domains(&self) -> (n: Result<u32, XenError>)
        ensures
            match n {
                Ok(n) => self.node() is Some && n == self.domains().len(),
                Err(why) => self.node() is None && why == self.absence(),
            },
    {
        proof {
            use_type_invariant(self);
        }
        match &self.node {
            Some(report) => Ok(report.domains.len() as u32),
            None => Err(self.why_absent()),
        }
    }

    /// The number of CPUs of the node.
    pub fn num_cpus(&self) -> (n: Result<u32, XenError>)
        ensures
            n == match self.node() {
                Some(report) => Ok::<u32, XenError>(report.num_cpus),
                None => Err(self.absence()),
            },
    {
        match &self.node {
            Some(report) => Ok(report.num_cpus),
            None => Err(self.why_absent()),
        }
    }

    /// The CPU clock, in Hz.
    pub fn cpu_hz(&self) -> (hz: Result<u64, XenError>)
        ensures
            hz == match self.node() {
                Some(report) => Ok::<u64, XenError>(report.cpu_hz),
                None => Err(self.absence()),
            },
    {
        match &self.node {
            Some(report) => Ok(report.cpu_hz),
            None => Err(self.why_absent()),
        }
    }

    /// Lets go of the snapshot and says what to give back to the backend,
    /// in order. The first call names the snapshot object and then the
    /// handle; every later call names nothing. Afterwards the snapshot holds
    /// no report.
    pub fn release(&mut self) -> (steps: Vec<ReleaseStep>)
        ensures
            steps@ == release_steps(old(self).released()),
            final(self).released(),
            final(self).node() is None,
    {
        let mut steps: Vec<ReleaseStep> = Vec::new();
        if !self.released {
            steps.push(ReleaseStep::FreeNode);
            steps.push(ReleaseStep::Uninit);
        }
        *self = Xen { node: None, released: true };
        assert(steps@ =~= release_steps(old(self).released()));
        steps
    }

    fn why_absent(&self) -> (why: XenError)
        ensures
            why == self.absence(),
    {
        if self.released {
            XenError::Released
        } else {
            XenError::NoSnapshot
        }
    }
}

/// At most one position is the first with a given ID.
pub proof fn lemma_first_with_id_unique(domains: Seq<Domain>, domid: u32, at: int)
    requires
        first_with_id(domains, domid, at),
    ensures
        forall|other: int| first_with_id(domains, domid, other) ==> other == at,
{
    assert forall|other: int| first_with_id(domains, domid, other) implies other == at by {
        if other < at {
            assert(domains[other].report().id != domid);
        } else if at < other {
            assert(domains[at].report().id != domid);
        }
    }
}

/// Where some position holds a domain with the ID, some position at or
/// before it is the first to do so.
pub proof fn lemma_first_with_id_exists(domains: Seq<Domain>, domid: u32, at: int)
    requires
        0 <= at < domains.len(),
        domains[at].report().id == domid,
    ensures
        exists|first: int| 0 <= first <= at && first_with_id(domains, domid, first),
    decreases at,
{
    if exists|before: int| 0 <= before < at && domains[before].report().id == domid {
        let before = choose|before: int| 0 <= before < at && domains[before].report().id == domid;
        lemma_first_with_id_exists(domains, domid, before);
    } else {
        assert(first_with_id(domains, domid, at));
    }
}

/// A lookup misses exactly where there is nothing to find: by position,
/// for every position outside the enumeration; by ID, where no domain of
/// the enumeration has the ID. A snapshot without a report has no domains,
/// so there every lookup misses.
pub proof fn lemma_lookup_misses(xen: Xen, index: int, domid: u32)
    ensures
        xen.by_index(index) is None <==> !(0 <= index < xen.domains().len()),
        xen.by_id(domid) is None <==> forall|at: int|
            0 <= at < xen.domains().len() ==> xen.domains()[at].report().id != domid,
        xen.node() is None ==> xen.by_index(index) is None && xen.by_id(domid) is None,
{
    let domains = xen.domains();
    if exists|at: int| 0 <= at < domains.len() && domains[at].report().id == domid {
        let at = choose|at: int| 0 <= at < domains.len() && domains[at].report().id == domid;
        lemma_first_with_id_exists(domains, domid, at);
    }
}

/// Every domain that enumeration reaches is found by its position, and its
/// ID finds a domain with that ID, at its position or before it.
pub proof fn lemma_lookup_hits(xen: Xen, index: int)
    requires
        0 <= index < xen.domains().len(),
    ensures
        xen.by_index(index) == Some(xen.domains()[index]),
        xen.by_id(xen.domains()[index].report().id) matches Some(found)
            && found.report().id == xen.domains()[index].report().id,
        exists|first: int|
            0 <= first <= index && xen.by_id(xen.domains()[index].report().id) == Some(
                xen.domains()[first],
            ),
{
    let domains = xen.domains();
    let domid = domains[index].report().id;
    lemma_first_with_id_exists(domains, domid, index);
    let first = choose|first: int| 0 <= first <= index && first_with_id(domains, domid, first);
    lemma_first_with_id_unique(domains, domid, first);
    assert(xen.by_id(domid) == Some(domains[first]));
}

/// However often a snapshot is released, the backend is asked to free the
/// snapshot object at most once and to close the handle at most once, and
/// the snapshot object goes first. The release of a snapshot that was never
/// released names exactly these two steps; a release that follows another
/// names none, so the two together name no step twice.
pub proof fn lemma_release_at_most_once(first: Xen, later: Xen)
    requires
        later.released(),
    ensures
        !first.released() ==> release_steps(first.released()) == seq![
            ReleaseStep::FreeNode,
            ReleaseStep::Uninit,
        ],
        release_steps(later.released()).len() == 0,
        release_steps(first.released()) + release_steps(later.released()) == release_steps(
            first.released(),
        ),
        forall|i: int, j: int|
            0 <= i < j < release_steps(first.released()).len() ==> release_steps(
                first.released(),
            )[i] == ReleaseStep::FreeNode && release_steps(first.released())[j]
                == ReleaseStep::Uninit,
{
}

} // verus!
