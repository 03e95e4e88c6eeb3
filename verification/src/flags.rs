//! The categories of statistics a snapshot can be asked to collect.

use vstd::prelude::*;

verus! {

/// Per-VCPU statistics.
pub const XENSTAT_VCPU: u32 = 0x1;

/// Per-network statistics.
pub const XENSTAT_NETWORK: u32 = 0x2;

/// The version of the hypervisor.
pub const XENSTAT_XEN_VERSION: u32 = 0x4;

/// Per-block-device statistics.
pub const XENSTAT_VBD: u32 = 0x8;

/// The mask every snapshot is requested with. It is fixed: callers cannot
/// choose which categories a snapshot holds.
pub const NODE_FLAGS: u32 = XENSTAT_VCPU | XENSTAT_NETWORK | XENSTAT_XEN_VERSION | XENSTAT_VBD;

/// Whether `mask` asks for every bit of `flag`.
pub open spec fn selects(mask: u32, flag: u32) -> bool {
    mask & flag == flag
}

/// The snapshot mask is the union of the four categories and of nothing
/// else: it selects each of them, and a flag that shares no bit with the
/// four shares none with the mask. So it is neither a single category nor
/// every bit a mask could hold.
pub proof fn lemma_node_flags_exact()
    ensures
        NODE_FLAGS == XENSTAT_VCPU | XENSTAT_NETWORK | XENSTAT_XEN_VERSION | XENSTAT_VBD,
        NODE_FLAGS == 0xF,
        selects(NODE_FLAGS, XENSTAT_VCPU),
        selects(NODE_FLAGS, XENSTAT_NETWORK),
        selects(NODE_FLAGS, XENSTAT_XEN_VERSION),
        selects(NODE_FLAGS, XENSTAT_VBD),
        forall|flag: u32|
            flag & XENSTAT_VCPU == 0 && flag & XENSTAT_NETWORK == 0 && flag & XENSTAT_XEN_VERSION
                == 0 && flag & XENSTAT_VBD == 0 ==> #[trigger] (NODE_FLAGS & flag) == 0,
        forall|flag: u32|
            #[trigger] selects(NODE_FLAGS, flag) ==> flag == (flag & XENSTAT_VCPU) | (flag
                & XENSTAT_NETWORK) | (flag & XENSTAT_XEN_VERSION) | (flag & XENSTAT_VBD),
        NODE_FLAGS != XENSTAT_VBD,
        NODE_FLAGS != u32::MAX,
{
    assert(0x1u32 | 0x2u32 | 0x4u32 | 0x8u32 == 0xFu32) by (bit_vector);
    assert(0xFu32 & 0x1u32 == 0x1u32) by (bit_vector);
    assert(0xFu32 & 0x2u32 == 0x2u32) by (bit_vector);
    assert(0xFu32 & 0x4u32 == 0x4u32) by (bit_vector);
    assert(0xFu32 & 0x8u32 == 0x8u32) by (bit_vector);
    assert forall|flag: u32|
        flag & 0x1u32 == 0 && flag & 0x2u32 == 0 && flag & 0x4u32 == 0 && flag & 0x8u32
            == 0 implies #[trigger] (0xFu32 & flag) == 0 by {
        assert(flag & 0x1u32 == 0 && flag & 0x2u32 == 0 && flag & 0x4u32 == 0 && flag & 0x8u32
            == 0 ==> 0xFu32 & flag == 0) by (bit_vector);
    }
    assert forall|flag: u32| 0xFu32 & flag == flag implies flag == (flag & 0x1u32) | (flag
        & 0x2u32) | (flag & 0x4u32) | (flag & 0x8u32) by {
        assert(0xFu32 & flag == flag ==> flag == (flag & 0x1u32) | (flag & 0x2u32) | (flag
            & 0x4u32) | (flag & 0x8u32)) by (bit_vector);
    }
}

} // verus!
