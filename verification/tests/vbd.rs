use xenstat::{Vbd, VbdType};

fn vbd_with_code(type_code: u32) -> Vbd {
    Vbd {
        type_code,
        dev: 51712,
        oo_reqs: 3,
        rd_reqs: 1000,
        wr_reqs: 2000,
        rd_sects: 80_000,
        wr_sects: 160_000,
    }
}

#[test]
fn from_code_decodes_the_three_codes() {
    assert_eq!(VbdType::from_code(0), Some(VbdType::Unidentified));
    assert_eq!(VbdType::from_code(1), Some(VbdType::BlkBack));
    assert_eq!(VbdType::from_code(2), Some(VbdType::BlkTap));
}

#[test]
fn from_code_refuses_every_other_code() {
    assert_eq!(VbdType::from_code(3), None);
    assert_eq!(VbdType::from_code(4), None);
    assert_eq!(VbdType::from_code(255), None);
    assert_eq!(VbdType::from_code(u32::MAX), None);
}

#[test]
fn from_code_is_one_to_one() {
    let kinds = [VbdType::Unidentified, VbdType::BlkBack, VbdType::BlkTap];
    for a in 0..3u32 {
        for b in 0..3u32 {
            assert_eq!(VbdType::from_code(a) == VbdType::from_code(b), a == b);
        }
    }
    for kind in kinds {
        let codes: Vec<u32> = (0..3u32)
            .filter(|code| VbdType::from_code(*code) == Some(kind))
            .collect();
        assert_eq!(codes.len(), 1);
    }
}

#[test]
fn get_type_follows_the_code() {
    assert_eq!(vbd_with_code(0).get_type(), VbdType::Unidentified);
    assert_eq!(vbd_with_code(1).get_type(), VbdType::BlkBack);
    assert_eq!(vbd_with_code(2).get_type(), VbdType::BlkTap);
}

#[test]
fn unknown_code_is_told_before_get_type() {
    let vbd = vbd_with_code(9);
    assert_eq!(VbdType::from_code(vbd.type_code), None);
}

#[test]
fn vbd_counters_are_reported_as_given() {
    let vbd = vbd_with_code(1);
    assert_eq!(vbd.vbd_dev(), 51712);
    assert_eq!(vbd.oo_reqs(), 3);
    assert_eq!(vbd.rd_reqs(), 1000);
    assert_eq!(vbd.wr_reqs(), 2000);
    assert_eq!(vbd.rd_sects(), 80_000);
    assert_eq!(vbd.wr_sects(), 160_000);
}
