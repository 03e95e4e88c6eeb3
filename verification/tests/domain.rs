use xenstat::{Domain, DomainReport, DomainState, Network, Tmem, Vbd, VbdType, Vcpu};

fn network(id: u32) -> Network {
    Network {
        id,
        rbytes: 100 + id as u64,
        rpackets: 200 + id as u64,
        rerrs: 0,
        rdrop: 1,
        tbytes: 300 + id as u64,
        tpackets: 400 + id as u64,
        terrs: 2,
        tdrop: 0,
    }
}

fn vbd(dev: u32, type_code: u32) -> Vbd {
    Vbd {
        type_code,
        dev,
        oo_reqs: 0,
        rd_reqs: 10,
        wr_reqs: 20,
        rd_sects: 30,
        wr_sects: 40,
    }
}

fn guest() -> Domain {
    Domain::new(DomainReport {
        id: 3,
        name: b"guest-3".to_vec(),
        cpu_ns: 5_000_000_000,
        cur_mem: 1_073_741_824,
        max_mem: 2_147_483_648,
        ssid: 42,
        running: 0,
        blocked: 1,
        paused: 0,
        shutdown: 0,
        crashed: 0,
        dying: 0,
        vcpus: vec![Vcpu { online: 1, ns: 3_000_000_000 }, Vcpu { online: 0, ns: 2_000_000_000 }],
        networks: vec![network(0)],
        vbds: vec![vbd(51712, 1), vbd(51728, 2), vbd(51744, 0)],
        tmem: Tmem {
            curr_eph_pages: 9,
            succ_eph_gets: 8,
            succ_pers_puts: 7,
            succ_pers_gets: 6,
        },
    })
}

#[test]
fn domain_scalars_are_reported_as_given() {
    let domain = guest();
    assert_eq!(domain.id(), 3);
    assert_eq!(domain.cpu_ns(), 5_000_000_000);
    assert_eq!(domain.cur_mem(), 1_073_741_824);
    assert_eq!(domain.max_mem(), 2_147_483_648);
    assert_eq!(domain.ssid(), 42);
}

#[test]
fn domain_name_is_decoded() {
    assert_eq!(guest().name(), "guest-3");
}

#[test]
fn domain_name_keeps_well_formed_utf8() {
    let mut report = empty_report(1);
    report.name = "dom\u{e4}ne-\u{65e5}".as_bytes().to_vec();
    assert_eq!(Domain::new(report).name(), "dom\u{e4}ne-\u{65e5}");
}

#[test]
fn domain_name_replaces_malformed_bytes() {
    let mut report = empty_report(1);
    report.name = vec![b'a', 0xFF, b'b'];
    assert_eq!(Domain::new(report).name(), "a\u{FFFD}b");
    let mut report = empty_report(1);
    report.name = vec![0xC3];
    assert_eq!(Domain::new(report).name(), "\u{FFFD}");
}

#[test]
fn domain_name_may_be_empty() {
    assert_eq!(Domain::new(empty_report(1)).name(), "");
}

#[test]
fn domain_state_decodes_the_six_predicates() {
    let state = guest().state();
    assert_eq!(
        state,
        DomainState {
            running: false,
            blocked: true,
            paused: false,
            shutdown: false,
            crashed: false,
            dying: false,
        }
    );
    assert_eq!(state.print(), "--b---");
}

#[test]
fn running_domain_prints_as_running() {
    let mut report = empty_report(1);
    report.running = 1;
    assert_eq!(Domain::new(report).state().print(), "-----r");
}

#[test]
fn domain_state_may_hold_several_flags() {
    let mut report = empty_report(1);
    report.dying = 1;
    report.running = 1;
    report.paused = 4;
    assert_eq!(Domain::new(report).state().print(), "d---pr");
}

#[test]
fn device_counts_are_the_lengths_of_the_lists() {
    let domain = guest();
    assert_eq!(domain.num_vcpus(), 2);
    assert_eq!(domain.num_networks(), 1);
    assert_eq!(domain.num_vbds(), 3);
    let bare = Domain::new(empty_report(1));
    assert_eq!(bare.num_vcpus(), 0);
    assert_eq!(bare.num_networks(), 0);
    assert_eq!(bare.num_vbds(), 0);
}

#[test]
fn devices_are_found_by_position() {
    let domain = guest();
    assert_eq!(domain.vcpu(0), Some(Vcpu { online: 1, ns: 3_000_000_000 }));
    assert_eq!(domain.vcpu(1), Some(Vcpu { online: 0, ns: 2_000_000_000 }));
    assert_eq!(domain.network(0), Some(network(0)));
    assert_eq!(domain.vbd(0), Some(vbd(51712, 1)));
    assert_eq!(domain.vbd(1), Some(vbd(51728, 2)));
    assert_eq!(domain.vbd(2), Some(vbd(51744, 0)));
    assert_eq!(domain.vbd(1).map(|found| found.get_type()), Some(VbdType::BlkTap));
}

#[test]
fn positions_below_the_count_are_all_found() {
    let domain = guest();
    for at in 0..domain.num_vcpus() {
        assert!(domain.vcpu(at).is_some());
    }
    for at in 0..domain.num_networks() {
        assert!(domain.network(at).is_some());
    }
    for at in 0..domain.num_vbds() {
        assert!(domain.vbd(at).is_some());
    }
}

#[test]
fn positions_past_the_end_find_nothing() {
    let domain = guest();
    assert_eq!(domain.vcpu(2), None);
    assert_eq!(domain.vcpu(u32::MAX), None);
    assert_eq!(domain.network(1), None);
    assert_eq!(domain.network(u32::MAX), None);
    assert_eq!(domain.vbd(3), None);
    assert_eq!(domain.vbd(u32::MAX), None);
    let bare = Domain::new(empty_report(1));
    assert_eq!(bare.vcpu(0), None);
    assert_eq!(bare.network(0), None);
    assert_eq!(bare.vbd(0), None);
}

#[test]
fn tmem_is_reported_as_given() {
    let tmem = guest().tmem();
    assert_eq!(tmem.curr_eph_pages(), 9);
    assert_eq!(tmem.succ_eph_gets(), 8);
    assert_eq!(tmem.succ_pers_puts(), 7);
    assert_eq!(tmem.succ_pers_gets(), 6);
}

fn empty_report(id: u32) -> DomainReport {
    DomainReport {
        id,
        name: Vec::new(),
        cpu_ns: 0,
        cur_mem: 0,
        max_mem: 0,
        ssid: 0,
        running: 0,
        blocked: 0,
        paused: 0,
        shutdown: 0,
        crashed: 0,
        dying: 0,
        vcpus: Vec::new(),
        networks: Vec::new(),
        vbds: Vec::new(),
        tmem: Tmem {
            curr_eph_pages: 0,
            succ_eph_gets: 0,
            succ_pers_puts: 0,
            succ_pers_gets: 0,
        },
    }
}
