use std::sync::Arc;

use rdma_verbs::connect::{ConnectStage, QpAttr};
use rdma_verbs::cq::Cq;
use rdma_verbs::device::{Context, Gid, Pd};
use rdma_verbs::ints::{c_int_to_u32, u32_to_c_int, usize_to_c_int, usize_to_u32};
use rdma_verbs::qp::{
    AhAttr, CreatedQp, GlobalRoute, IbvQpInitAttr, Qp, QpCaps, QpEndpoint, QpInitAttr, QpPeer,
    QpState, QpType, UdAddr, GLOBAL_QKEY,
};
use rdma_verbs::sys::OsError;

fn gid(b: u8) -> Gid {
    Gid { raw: [b; 16] }
}

fn pd() -> Pd {
    Pd {
        raw: 0x2000,
        ctx: Context {
            raw: 0x1000,
            max_cqe: 1000,
            gid: gid(1),
            gid_index: 3,
            port_num: 2,
            lid: 40,
            active_mtu: 5,
        },
    }
}

fn queue(raw: usize) -> Arc<Cq> {
    match Cq::new(&pd().ctx, 128).unwrap().complete(raw, 0) {
        Ok(cq) => Arc::new(cq),
        Err(_) => panic!("no queue"),
    }
}

fn attr(qp_type: QpType) -> QpInitAttr {
    QpInitAttr::new(queue(0xa0), queue(0xb0), QpCaps::default(), qp_type, true)
}

fn pair<'a>(pd: &'a Pd, qp_type: QpType) -> Qp<'a> {
    let created = CreatedQp { qp: 0x3000, qp_num: 77, qp_type: u32::from(qp_type) };
    match Qp::new(pd, attr(qp_type)).complete(created, 0) {
        Ok(qp) => qp,
        Err(_) => panic!("no queue pair"),
    }
}

fn peer_end() -> QpEndpoint {
    QpEndpoint::new(gid(9), 1, 50, 88, 5, 0x22)
}

#[test]
fn integers_wrap_as_casts_do() {
    assert_eq!(u32_to_c_int(0x8000_0000), i32::MIN);
    assert_eq!(u32_to_c_int(5), 5);
    assert_eq!(c_int_to_u32(-1), u32::MAX);
    assert_eq!(usize_to_u32(0x1_0000_0007), 7);
    assert_eq!(usize_to_c_int(0xffff_ffff), -1);
}

#[test]
fn types_and_numbers() {
    assert_eq!(u32::from(QpType::RC), 2);
    assert_eq!(u32::from(QpType::UD), 4);
    assert_eq!(QpType::from(2), QpType::RC);
    assert_eq!(QpType::from(4), QpType::UD);
    assert_eq!(QpType::from_code(3), None);
    for t in [QpType::RC, QpType::UD] {
        assert_eq!(QpType::from_code(u32::from(t)), Some(t));
    }
}

#[test]
fn states_and_numbers() {
    let states = [
        (QpState::Reset, 0),
        (QpState::Init, 1),
        (QpState::Rtr, 2),
        (QpState::Rts, 3),
        (QpState::Error, 6),
    ];
    for (state, code) in states {
        assert_eq!(u32::from(state), code);
        assert_eq!(QpState::from(code), state);
        assert_eq!(QpState::from_code(code), Some(state));
    }
    assert_eq!(QpState::from_code(4), None);
    assert_eq!(QpState::from_code(5), None);
    assert_eq!(QpState::from_code(7), None);
}

#[test]
fn capabilities() {
    assert_eq!(QpCaps::default(), QpCaps::new(128, 128, 16, 16, 64));
    let caps = QpCaps::new(1, 2, 3, 4, 5);
    assert_eq!(caps.max_send_wr, 1);
    assert_eq!(caps.max_recv_wr, 2);
    assert_eq!(caps.max_send_sge, 3);
    assert_eq!(caps.max_recv_sge, 4);
    assert_eq!(caps.max_inline_data, 5);
}

#[test]
fn initialization_attributes() {
    let expected = IbvQpInitAttr {
        qp_context: 0,
        send_cq: 0xa0,
        recv_cq: 0xb0,
        srq: 0,
        cap: QpCaps::default(),
        qp_type: 4,
        sq_sig_all: 1,
    };
    assert_eq!(IbvQpInitAttr::from(attr(QpType::UD)), expected);
    let mut quiet = attr(QpType::RC);
    quiet.sq_sig_all = false;
    assert_eq!(
        IbvQpInitAttr::from(quiet.clone()),
        IbvQpInitAttr { qp_type: 2, sq_sig_all: 0, ..expected }
    );
}

#[test]
fn creation_of_a_queue_pair() {
    let pd = pd();
    let call = Qp::new(&pd, attr(QpType::RC));
    assert_eq!(call.pd.raw, 0x2000);
    assert_eq!(call.init_attr, IbvQpInitAttr::from(attr(QpType::RC)));
    match call.complete(CreatedQp { qp: 0, qp_num: 0, qp_type: 0 }, 12) {
        Ok(_) => panic!("a queue pair out of nothing"),
        Err(e) => assert_eq!(e, OsError { code: 12 }),
    }
}

#[test]
fn a_queue_pair_knows_its_parts() {
    let pd = pd();
    let qp = pair(&pd, QpType::UD);
    assert_eq!(qp.as_ptr(), 0x3000);
    assert_eq!(*qp.pd(), pd);
    assert_eq!(qp.qp_type(), QpType::UD);
    assert_eq!(qp.qp_num(), 77);
    assert_eq!(qp.state(3), QpState::Rts);
    assert_eq!(qp.scq().as_raw(), 0xa0);
    assert_eq!(qp.rcq().as_raw(), 0xb0);
    assert_eq!(qp.scq_as_ref().as_raw(), 0xa0);
    assert_eq!(qp.rcq_as_ref().as_raw(), 0xb0);
    assert!(std::ptr::eq(&*qp.scq(), qp.scq_as_ref()));
    assert!(std::ptr::eq(&*qp.rcq(), qp.rcq_as_ref()));
}

#[test]
fn endpoint_of_a_queue_pair() {
    let pd = pd();
    let ep = QpEndpoint::from(&pair(&pd, QpType::UD));
    assert_eq!(ep, QpEndpoint::new(gid(1), 2, 40, 77, 0, 0x11111111));
    assert_eq!(GLOBAL_QKEY, 0x11111111);
}

#[test]
fn peers() {
    let call = QpPeer::new(&pd(), peer_end());
    assert_eq!(call.pd, 0x2000);
    assert_eq!(
        call.attr,
        AhAttr {
            grh: GlobalRoute {
                dgid: gid(9),
                flow_label: 0,
                sgid_index: 3,
                hop_limit: 255,
                traffic_class: 0,
            },
            dlid: 50,
            sl: 0,
            src_path_bits: 0,
            static_rate: 0,
            is_global: 1,
            port_num: 1,
        }
    );
    assert_eq!(call.complete(0, 12), Err(OsError { code: 12 }));
    let peer = call.complete(0x4000, 0).unwrap();
    assert_eq!(peer, QpPeer { ah: 0x4000, ep: peer_end() });
    assert_eq!(
        UdAddr::from(&peer),
        UdAddr { ah: 0x4000, remote_qpn: 88, remote_qkey: 0x22 }
    );
}

#[test]
fn reset_to_init() {
    let pd = pd();
    let rc = pair(&pd, QpType::RC).modify_reset_to_init(&peer_end());
    assert_eq!(rc.qp, 0x3000);
    assert_eq!(rc.attr_mask, 0b0011_1001);
    let common = QpAttr { qp_state: 1, port_num: 1, ..QpAttr::zeroed() };
    assert_eq!(rc.attr, QpAttr { qp_access_flags: 0b1110, ..common });
    let ud = pair(&pd, QpType::UD).modify_reset_to_init(&peer_end());
    assert_eq!(ud.attr_mask, 0b0111_0001);
    assert_eq!(ud.attr, QpAttr { qkey: 0x22, ..common });
}

#[test]
fn init_to_rtr() {
    let pd = pd();
    let rc = pair(&pd, QpType::RC).modify_init_to_rtr(&peer_end());
    assert_eq!(rc.attr_mask, 0x12_9181);
    assert_eq!(
        rc.attr,
        QpAttr {
            qp_state: 2,
            path_mtu: 5,
            dest_qp_num: 88,
            rq_psn: 5,
            max_dest_rd_atomic: 16,
            min_rnr_timer: 12,
            ah_attr: AhAttr {
                grh: GlobalRoute {
                    dgid: gid(9),
                    flow_label: 0,
                    sgid_index: 3,
                    hop_limit: 255,
                    traffic_class: 0,
                },
                dlid: 50,
                sl: 0,
                src_path_bits: 0,
                static_rate: 0,
                is_global: 1,
                port_num: 2,
            },
            ..QpAttr::zeroed()
        }
    );
    let ud = pair(&pd, QpType::UD).modify_init_to_rtr(&peer_end());
    assert_eq!(ud.attr_mask, 1);
    assert_eq!(ud.attr, QpAttr { qp_state: 2, ..QpAttr::zeroed() });
}

#[test]
fn rtr_to_rts() {
    let pd = pd();
    let rc = pair(&pd, QpType::RC).modify_rtr_to_rts(&peer_end());
    assert_eq!(rc.attr_mask, 0x1_2e01);
    let common = QpAttr { qp_state: 3, sq_psn: 5, ..QpAttr::zeroed() };
    assert_eq!(
        rc.attr,
        QpAttr { max_rd_atomic: 16, timeout: 14, retry_cnt: 6, rnr_retry: 6, ..common }
    );
    let ud = pair(&pd, QpType::UD).modify_rtr_to_rts(&peer_end());
    assert_eq!(ud.attr_mask, 0x1_0001);
    assert_eq!(ud.attr, common);
    assert_eq!(ud.complete(0, 5), Ok(()));
    assert_eq!(ud.complete(-1, 5), Err(OsError { code: 5 }));
}

#[test]
fn connection_from_reset_makes_all_transitions() {
    let pd = pd();
    let qp = pair(&pd, QpType::RC);
    let mut connect = qp.connect(&peer_end());
    assert!(!connect.connected());
    assert!(connect.due(QpState::Reset));
    assert!(!connect.due(QpState::Init));
    assert_eq!(connect.step(QpState::Reset), Some(qp.modify_reset_to_init(&peer_end())));
    assert_eq!(connect.step(QpState::Init), Some(qp.modify_init_to_rtr(&peer_end())));
    assert!(!connect.connected());
    assert_eq!(connect.step(QpState::Rtr), Some(qp.modify_rtr_to_rts(&peer_end())));
    assert!(connect.connected());
    assert_eq!(connect.step(QpState::Rts), None);
    assert!(connect.connected());
}

#[test]
fn connection_makes_the_missing_transitions_only() {
    let pd = pd();
    let qp = pair(&pd, QpType::UD);
    let mut connect = qp.connect(&peer_end());
    assert_eq!(connect.step(QpState::Init), None);
    assert_eq!(connect.stage, ConnectStage::ToRtr);
    assert_eq!(connect.step(QpState::Init), Some(qp.modify_init_to_rtr(&peer_end())));
    assert_eq!(connect.step(QpState::Rtr), Some(qp.modify_rtr_to_rts(&peer_end())));
    assert!(connect.connected());
    for state in [QpState::Rts, QpState::Error] {
        let mut connect = qp.connect(&peer_end());
        assert_eq!(connect.step(state), None);
        assert_eq!(connect.step(state), None);
        assert_eq!(connect.step(state), None);
        assert!(connect.connected());
    }
}

#[test]
fn datagram_keys_agree() {
    let pd = pd();
    let qp = pair(&pd, QpType::UD);
    let own = QpEndpoint::from(&qp);
    let installed = qp.modify_reset_to_init(&QpEndpoint::from(&pair(&pd, QpType::UD)));
    let peer = QpPeer::new(&pd, own).complete(1, 0).unwrap();
    assert_eq!(UdAddr::from(&peer).remote_qkey, installed.attr.qkey);
    assert_eq!(UdAddr::from(&peer).remote_qpn, qp.qp_num());
}

#[test]
fn connected_pairs_agree() {
    let (near, far) = (pd(), Pd { raw: 0x5000, ctx: Context { gid: gid(4), lid: 60, ..pd().ctx } });
    let (a, b) = (pair(&near, QpType::RC), pair(&far, QpType::RC));
    let receiver = a.modify_init_to_rtr(&QpEndpoint::from(&b)).attr;
    let sender = b.modify_rtr_to_rts(&QpEndpoint::from(&a)).attr;
    assert_eq!(receiver.dest_qp_num, b.qp_num());
    assert_eq!(receiver.ah_attr.grh.dgid, gid(4));
    assert_eq!(receiver.ah_attr.dlid, 60);
    assert_eq!(receiver.rq_psn, sender.sq_psn);
    assert_eq!(receiver.max_dest_rd_atomic, sender.max_rd_atomic);
}
