use std::sync::Arc;

use rdma_verbs::cq::Cq;
use rdma_verbs::device::{Context, Gid, Pd};
use rdma_verbs::mr::{build_sgl, Mr, MrSlice, RemoteMrSlice, Sge};
use rdma_verbs::post::{PostSend, RecvWr, SendDesc, SendOp, SendWr, WrTarget};
use rdma_verbs::qp::{CreatedQp, Qp, QpCaps, QpEndpoint, QpInitAttr, QpPeer, QpType, UdAddr};
use rdma_verbs::sys::OsError;

const GID: Gid = Gid { raw: [0; 16] };

fn pd() -> Pd {
    Pd {
        raw: 0x2000,
        ctx: Context {
            raw: 0x1000,
            max_cqe: 1000,
            gid: GID,
            gid_index: 3,
            port_num: 2,
            lid: 40,
            active_mtu: 5,
        },
    }
}

fn pair<'a>(pd: &'a Pd) -> Qp<'a> {
    let cq = match Cq::new(&pd.ctx, 1).unwrap().complete(1, 0) {
        Ok(cq) => Arc::new(cq),
        Err(_) => panic!("no queue"),
    };
    let attr = QpInitAttr::new(cq.clone(), cq, QpCaps::default(), QpType::RC, false);
    match Qp::new(pd, attr).complete(CreatedQp { qp: 0x3000, qp_num: 77, qp_type: 2 }, 0) {
        Ok(qp) => qp,
        Err(_) => panic!("no queue pair"),
    }
}

const MR: Mr = Mr { addr: 0x10_0000, lkey: 0xaa };

fn slices() -> [MrSlice<'static>; 2] {
    [MrSlice { mr: &MR, offset: 16, len: 8 }, MrSlice { mr: &MR, offset: 0, len: 4 }]
}

fn list() -> Vec<Sge> {
    vec![
        Sge { addr: 0x10_0010, length: 8, lkey: 0xaa },
        Sge { addr: 0x10_0000, length: 4, lkey: 0xaa },
    ]
}

const REMOTE: RemoteMrSlice = RemoteMrSlice { addr: 0xdead_0000, rkey: 0xbb };

fn only(post: &PostSend) -> &SendDesc {
    assert_eq!(post.qp, 0x3000);
    assert_eq!(post.wrs.len(), 1);
    assert_eq!(post.wrs[0].next, None);
    &post.wrs[0]
}

#[test]
fn scatter_gather_list() {
    assert_eq!(build_sgl(&slices()), list());
    assert_eq!(build_sgl(&[]), vec![]);
    let long = [MrSlice { mr: &MR, offset: 0, len: 0x1_0000_0003 }];
    assert_eq!(build_sgl(&long), vec![Sge { addr: 0x10_0000, length: 3, lkey: 0xaa }]);
}

#[test]
fn receive() {
    let pd = pd();
    let post = pair(&pd).recv(&slices(), 5);
    assert_eq!(post.qp, 0x3000);
    assert_eq!(post.wrs.len(), 1);
    assert_eq!(post.wrs[0].wr_id, 5);
    assert_eq!(post.wrs[0].next, None);
    assert_eq!(post.wrs[0].sg_list, Some(list()));
    assert_eq!(post.wrs[0].num_sge, 2);
    assert_eq!(post.complete(0, 3), Ok(()));
    assert_eq!(post.complete(12, 3), Err(OsError { code: 3 }));
}

#[test]
fn receive_without_buffers() {
    let pd = pd();
    let post = pair(&pd).recv(&[], 5);
    assert_eq!(post.wrs[0].sg_list, None);
    assert_eq!(post.wrs[0].num_sge, 0);
}

#[test]
fn plain_send() {
    let pd = pd();
    let qp = pair(&pd);
    let post = qp.send(&slices(), 6, true);
    let wr = only(&post);
    assert_eq!(wr.wr_id, 6);
    assert_eq!(wr.sg_list, Some(list()));
    assert_eq!(wr.num_sge, 2);
    assert_eq!(wr.opcode, 2);
    assert_eq!(wr.send_flags, 2);
    assert_eq!(wr.imm_data, 0);
    assert_eq!(wr.wr, WrTarget::Connected);
    let quiet = qp.send(&[], 6, false);
    assert_eq!(only(&quiet).send_flags, 0);
    assert_eq!(only(&quiet).sg_list, None);
    assert_eq!(only(&quiet).num_sge, 0);
    assert_eq!(quiet.complete(0, 3), Ok(()));
    assert_eq!(quiet.complete(22, 22), Err(OsError { code: 22 }));
}

#[test]
fn datagram_send() {
    let pd = pd();
    let peer = QpPeer { ah: 0x4000, ep: QpEndpoint::new(GID, 1, 2, 88, 0, 0x22) };
    let post = pair(&pd).send_to(&peer, &slices(), 7, false);
    let wr = only(&post);
    assert_eq!(wr.wr_id, 7);
    assert_eq!(wr.opcode, 2);
    assert_eq!(wr.send_flags, 0);
    let target = UdAddr { ah: 0x4000, remote_qpn: 88, remote_qkey: 0x22 };
    assert_eq!(wr.wr, WrTarget::Ud(target));
}

#[test]
fn remote_read() {
    let pd = pd();
    let post = pair(&pd).read(&slices(), &REMOTE, 8, true);
    let wr = only(&post);
    assert_eq!(wr.wr_id, 8);
    assert_eq!(wr.opcode, 4);
    assert_eq!(wr.send_flags, 2);
    assert_eq!(wr.imm_data, 0);
    assert_eq!(wr.wr, WrTarget::Rdma(REMOTE));
    assert_eq!(wr.sg_list, Some(list()));
}

#[test]
fn remote_write() {
    let pd = pd();
    let qp = pair(&pd);
    let plain = qp.write(&slices(), &REMOTE, 9, None, false);
    assert_eq!(only(&plain).opcode, 0);
    assert_eq!(only(&plain).imm_data, 0);
    assert_eq!(only(&plain).send_flags, 0);
    assert_eq!(only(&plain).wr, WrTarget::Rdma(REMOTE));
    let with_imm = qp.write(&slices(), &REMOTE, 9, Some(0x55), true);
    assert_eq!(only(&with_imm).opcode, 1);
    assert_eq!(only(&with_imm).imm_data, 0x55);
    assert_eq!(only(&with_imm).send_flags, 2);
    let with_zero = qp.write(&slices(), &REMOTE, 9, Some(0), true);
    assert_eq!(only(&with_zero).opcode, 1);
}

#[test]
fn posted_sends_are_linked_in_order() {
    let pd = pd();
    let local = slices();
    let peer = QpPeer { ah: 0x4000, ep: QpEndpoint::new(GID, 1, 2, 88, 0, 0x22) };
    let ops = [
        SendWr { op: SendOp::Send, local: &local, wr_id: 1, signal: false },
        SendWr { op: SendOp::SendTo(&peer), local: &[], wr_id: 2, signal: false },
        SendWr { op: SendOp::Read(REMOTE), local: &local, wr_id: 3, signal: false },
        SendWr { op: SendOp::Write(REMOTE, Some(6)), local: &local, wr_id: 4, signal: true },
    ];
    let post = pair(&pd).post_send(&ops);
    assert_eq!(post.qp, 0x3000);
    let mut seen: Vec<(u64, u32, u32)> = Vec::new();
    let mut at: Option<usize> = Some(0);
    while let Some(i) = at {
        let wr = &post.wrs[i];
        seen.push((wr.wr_id, wr.opcode, wr.send_flags));
        at = wr.next;
    }
    assert_eq!(seen, vec![(1, 2, 0), (2, 2, 0), (3, 4, 0), (4, 1, 2)]);
    assert_eq!(post.wrs.len(), 4);
    assert_eq!(post.wrs[1].sg_list, None);
}

#[test]
fn posting_one_operation_is_posting_a_list_of_one() {
    let pd = pd();
    let qp = pair(&pd);
    let local = slices();
    let ops = [SendWr { op: SendOp::Write(REMOTE, None), local: &local, wr_id: 9, signal: true }];
    let list = qp.post_send(&ops);
    let single = qp.write(&local, &REMOTE, 9, None, true);
    let (a, b) = (only(&list), only(&single));
    assert_eq!(a.wr_id, b.wr_id);
    assert_eq!(a.sg_list, b.sg_list);
    assert_eq!(a.num_sge, b.num_sge);
    assert_eq!(a.opcode, b.opcode);
    assert_eq!(a.send_flags, b.send_flags);
    assert_eq!(a.imm_data, b.imm_data);
    assert_eq!(a.wr, b.wr);
}

#[test]
fn posted_receives_are_linked_in_order() {
    let pd = pd();
    let local = slices();
    let ops = [
        RecvWr { local: &local, wr_id: 1 },
        RecvWr { local: &[], wr_id: 2 },
        RecvWr { local: &local, wr_id: 3 },
    ];
    let post = pair(&pd).post_recv(&ops);
    assert_eq!(post.wrs.len(), 3);
    assert_eq!(post.wrs[0].next, Some(1));
    assert_eq!(post.wrs[1].next, Some(2));
    assert_eq!(post.wrs[2].next, None);
    assert_eq!(post.wrs[0].wr_id, 1);
    assert_eq!(post.wrs[1].wr_id, 2);
    assert_eq!(post.wrs[2].wr_id, 3);
    assert_eq!(post.wrs[0].sg_list, Some(list()));
    assert_eq!(post.wrs[1].sg_list, None);
    assert_eq!(post.wrs[2].num_sge, 2);
}
