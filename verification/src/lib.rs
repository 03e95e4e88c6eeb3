//! Host and per-domain statistics of a Xen node, as plain values.
//!
//! A [`Xen`] holds one point-in-time snapshot of a node: host-wide counters
//! and a table of domains, each with its virtual CPUs, networks, block
//! devices and transcendent-memory counters. The snapshot is built from what
//! the statistics backend reported. A lookup that finds nothing says so, and
//! so does a snapshot that holds no report.

pub mod domain;
pub mod flags;
pub mod network;
pub mod state;
pub mod text;
pub mod tmem;
pub mod vbd;
pub mod vcpu;
pub mod xen;

pub use domain::{Domain, DomainReport};
pub use flags::{NODE_FLAGS, XENSTAT_NETWORK, XENSTAT_VBD, XENSTAT_VCPU, XENSTAT_XEN_VERSION};
pub use network::Network;
pub use state::DomainState;
pub use tmem::Tmem;
pub use vbd::{Vbd, VbdType};
pub use vcpu::Vcpu;
pub use xen::{Capture, NodeReport, ReleaseStep, Xen, XenError};
