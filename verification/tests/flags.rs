use xenstat::{NODE_FLAGS, XENSTAT_NETWORK, XENSTAT_VBD, XENSTAT_VCPU, XENSTAT_XEN_VERSION};

#[test]
fn category_flags_have_their_values() {
    assert_eq!(XENSTAT_VCPU, 0x1);
    assert_eq!(XENSTAT_NETWORK, 0x2);
    assert_eq!(XENSTAT_XEN_VERSION, 0x4);
    assert_eq!(XENSTAT_VBD, 0x8);
}

#[test]
fn node_flags_is_the_union_of_the_four_categories() {
    assert_eq!(NODE_FLAGS, 0xF);
    assert_eq!(
        NODE_FLAGS,
        XENSTAT_VCPU | XENSTAT_NETWORK | XENSTAT_XEN_VERSION | XENSTAT_VBD
    );
}

#[test]
fn node_flags_selects_each_category() {
    for flag in [XENSTAT_VCPU, XENSTAT_NETWORK, XENSTAT_XEN_VERSION, XENSTAT_VBD] {
        assert_eq!(NODE_FLAGS & flag, flag);
    }
}

#[test]
fn node_flags_selects_nothing_else() {
    for bit in 4..32 {
        assert_eq!(NODE_FLAGS & (1u32 << bit), 0);
    }
    assert_ne!(NODE_FLAGS, XENSTAT_VBD);
    assert_ne!(NODE_FLAGS, u32::MAX);
}
