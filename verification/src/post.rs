//! Work requests and their posting.

use vstd::prelude::*;

use crate::ints::{c_int, usize_to_c_int};
use crate::mr::{all_addressable, build_sgl, sgl, MrSlice, RemoteMrSlice, Sge};
use crate::qp::{Qp, QpPeer, UdAddr};
use crate::sys::{
    check_ret, zero_or_errno, OsError, IBV_SEND_SIGNALED, IBV_WR_RDMA_READ, IBV_WR_RDMA_WRITE,
    IBV_WR_RDMA_WRITE_WITH_IMM, IBV_WR_SEND,
};

verus! {

/// The target of a work request that a send queue takes.
#[derive(Debug, Clone, Copy, PartialEq, Eq, Structural)]
pub enum WrTarget {
    /// The peer that the queue pair is connected to; all zero.
    Connected,
    /// A datagram peer.
    Ud(UdAddr),
    /// Remote memory.
    Rdma(RemoteMrSlice),
}

/// A work request of a receive queue, as `ibv_post_recv` takes it.
pub struct RecvDesc {
    pub wr_id: u64,
    /// Index of the next work request of the list, or `None` for the null
    /// pointer.
    pub next: Option<usize>,
    /// The scatter/gather list, or `None` for the null pointer.
    pub sg_list: Option<Vec<Sge>>,
    pub num_sge: i32,
}

/// What a work request of a receive queue stands for.
#[verifier::ext_equal]
pub struct RecvDescView {
    pub wr_id: u64,
    pub next: Option<usize>,
    pub sg_list: Option<Seq<Sge>>,
    pub num_sge: i32,
}

impl View for RecvDesc {
    type V = RecvDescView;

    open spec fn view(&self) -> RecvDescView {
        RecvDescView {
            wr_id: self.wr_id,
            next: self.next,
            sg_list: match self.sg_list {
                Some(list) => Some(list@),
                None => None,
            },
            num_sge: self.num_sge,
        }
    }
}

/// A work request of a send queue, as `ibv_post_send` takes it.
pub struct SendDesc {
    pub wr_id: u64,
    /// Index of the next work request of the list, or `None` for the null
    /// pointer.
    pub next: Option<usize>,
    /// The scatter/gather list, or `None` for the null pointer.
    pub sg_list: Option<Vec<Sge>>,
    pub num_sge: i32,
    pub opcode: u32,
    pub send_flags: u32,
    pub imm_data: u32,
    pub wr: WrTarget,
}

/// What a work request of a send queue stands for.
#[verifier::ext_equal]
pub struct SendDescView {
    pub wr_id: u64,
    pub next: Option<usize>,
    pub sg_list: Option<Seq<Sge>>,
    pub num_sge: i32,
    pub opcode: u32,
    pub send_flags: u32,
    pub imm_data: u32,
    pub wr: WrTarget,
}

impl View for SendDesc {
    type V = SendDescView;

    open spec fn view(&self) -> SendDescView {
        SendDescView {
            wr_id: self.wr_id,
            next: self.next,
            sg_list: match self.sg_list {
                Some(list) => Some(list@),
                None => None,
            },
            num_sge: self.num_sge,
            opcode: self.opcode,
            send_flags: self.send_flags,
            imm_data: self.imm_data,
            wr: self.wr,
        }
    }
}

/// The scatter/gather list of a work request on `local`: none at all if there
/// are no ranges.
pub open spec fn sg_list(local: Seq<MrSlice<'_>>) -> Option<Seq<Sge>> {
    if local.len() == 0 {
        None
    } else {
        Some(sgl(local))
    }
}

/// The work request that receives into `local`.
pub open spec fn recv_desc(local: Seq<MrSlice<'_>>, wr_id: u64) -> RecvDescView {
    RecvDescView {
        wr_id,
        next: None,
        sg_list: sg_list(local),
        num_sge: c_int(local.len() as int) as i32,
    }
}

/// What a work request of a send queue does.
pub enum SendOp<'a> {
    /// Send to the connected peer.
    Send,
    /// Send a datagram to a peer.
    SendTo(&'a QpPeer),
    /// Read remote memory.
    Read(RemoteMrSlice),
    /// Write remote memory, with immediate data or without.
    Write(RemoteMrSlice, Option<u32>),
}

impl<'a> SendOp<'a> {
    pub open spec fn opcode(self) -> u32 {
        match self {
            SendOp::Send => IBV_WR_SEND,
            SendOp::SendTo(_) => IBV_WR_SEND,
            SendOp::Read(_) => IBV_WR_RDMA_READ,
            SendOp::Write(_, None) => IBV_WR_RDMA_WRITE,
            SendOp::Write(_, Some(_)) => IBV_WR_RDMA_WRITE_WITH_IMM,
        }
    }

    pub open spec fn imm_data(self) -> u32 {
        match self {
            SendOp::Write(_, Some(imm)) => imm,
            _ => 0,
        }
    }

    pub open spec fn target(self) -> WrTarget {
        match self {
            SendOp::Send => WrTarget::Connected,
            SendOp::SendTo(peer) => WrTarget::Ud(peer.ud()),
            SendOp::Read(remote) => WrTarget::Rdma(remote),
            SendOp::Write(remote, _) => WrTarget::Rdma(remote),
        }
    }
}

/// The work request that does `op` with `local`. It leaves a completion if
/// `signal` is set.
pub open spec fn send_desc(
    op: SendOp<'_>,
    local: Seq<MrSlice<'_>>,
    wr_id: u64,
    signal: bool,
) -> SendDescView {
    SendDescView {
        wr_id,
        next: None,
        sg_list: sg_list(local),
        num_sge: c_int(local.len() as int) as i32,
        opcode: op.opcode(),
        send_flags: if signal {
            IBV_SEND_SIGNALED
        } else {
            0
        },
        imm_data: op.imm_data(),
        wr: op.target(),
    }
}

/// A work request never counts more scatter/gather elements than its list has,
/// and counts them all where a C `int` can hold the number.
pub proof fn law_element_count_stays_in_the_list(
    op: SendOp<'_>,
    local: Seq<MrSlice<'_>>,
    wr_id: u64,
    signal: bool,
)
    ensures
        ({
            let send = send_desc(op, local, wr_id, signal);
            let recv = recv_desc(local, wr_id);
            &&& send.sg_list == recv.sg_list
            &&& send.num_sge == recv.num_sge
            &&& match send.sg_list {
                None => local.len() == 0 && send.num_sge == 0,
                Some(list) => {
                    &&& list.len() == local.len()
                    &&& send.num_sge <= list.len()
                    &&& list.len() <= i32::MAX ==> send.num_sge == list.len()
                },
            }
        }),
{
}

/// A work request for a send queue.
pub struct SendWr<'a> {
    pub op: SendOp<'a>,
    pub local: &'a [MrSlice<'a>],
    pub wr_id: u64,
    pub signal: bool,
}

/// A work request for a receive queue.
pub struct RecvWr<'a> {
    pub local: &'a [MrSlice<'a>],
    pub wr_id: u64,
}

/// Builds the scatter/gather list of a work request on `local`.
fn build_sg_list(local: &[MrSlice<'_>]) -> (r: Option<Vec<Sge>>)
    requires
        all_addressable(local@),
    ensures
        match r {
            Some(list) => sg_list(local@) == Some(list@),
            None => sg_list(local@) == None::<Seq<Sge>>,
        },
{
    let list = build_sgl(local);
    if local.len() == 0 {
        None
    } else {
        Some(list)
    }
}

impl<'a> RecvWr<'a> {
    pub open spec fn desc(self) -> RecvDescView {
        recv_desc(self.local@, self.wr_id)
    }

    /// The work request as `ibv_post_recv` takes it.
    pub fn to_wr(&self) -> (r: RecvDesc)
        requires
            all_addressable(self.local@),
        ensures
            r@ == self.desc(),
    {
        RecvDesc {
            wr_id: self.wr_id,
            next: None,
            sg_list: build_sg_list(self.local),
            num_sge: usize_to_c_int(self.local.len()),
        }
    }
}

impl<'a> SendWr<'a> {
    pub open spec fn desc(self) -> SendDescView {
        send_desc(self.op, self.local@, self.wr_id, self.signal)
    }

    /// The work request as `ibv_post_send` takes it.
    pub fn to_wr(&self) -> (r: SendDesc)
        requires
            all_addressable(self.local@),
        ensures
            r@ == self.desc(),
    {
        let (opcode, imm_data, wr): (u32, u32, WrTarget) = match &self.op {
            SendOp::Send => (IBV_WR_SEND, 0, WrTarget::Connected),
            SendOp::SendTo(peer) => (IBV_WR_SEND, 0, WrTarget::Ud(UdAddr::from(*peer))),
            SendOp::Read(remote) => (IBV_WR_RDMA_READ, 0, WrTarget::Rdma(*remote)),
            SendOp::Write(remote, imm) => match imm {
                None => (IBV_WR_RDMA_WRITE, 0, WrTarget::Rdma(*remote)),
                Some(data) => (IBV_WR_RDMA_WRITE_WITH_IMM, *data, WrTarget::Rdma(*remote)),
            },
        };
        SendDesc {
            wr_id: self.wr_id,
            next: None,
            sg_list: build_sg_list(self.local),
            num_sge: usize_to_c_int(self.local.len()),
            opcode,
            send_flags: if self.signal {
                IBV_SEND_SIGNALED
            } else {
                0
            },
            imm_data,
            wr,
        }
    }
}

/// The index of the work request after the one at `i` in a list of `len`.
pub open spec fn next_index(i: int, len: nat) -> Option<usize> {
    if i + 1 < len {
        Some((i + 1) as usize)
    } else {
        None
    }
}

/// The list of the work requests `ops`, each linked to the next.
pub open spec fn send_list(ops: Seq<SendWr<'_>>) -> Seq<SendDescView> {
    Seq::new(
        ops.len(),
        |i: int| SendDescView { next: next_index(i, ops.len()), ..ops[i].desc() },
    )
}

/// The list of the work requests `ops`, each linked to the next.
pub open spec fn recv_list(ops: Seq<RecvWr<'_>>) -> Seq<RecvDescView> {
    Seq::new(
        ops.len(),
        |i: int| RecvDescView { next: next_index(i, ops.len()), ..ops[i].desc() },
    )
}

/// A call of `ibv_post_send`, which is handed the first of `wrs`.
pub struct PostSend {
    /// Address of the queue pair.
    pub qp: usize,
    pub wrs: Vec<SendDesc>,
}

/// A call of `ibv_post_recv`, which is handed the first of `wrs`.
pub struct PostRecv {
    /// Address of the queue pair.
    pub qp: usize,
    pub wrs: Vec<RecvDesc>,
}

impl PostSend {
    /// The work requests of the call.
    pub open spec fn list(self) -> Seq<SendDescView> {
        Seq::new(self.wrs@.len(), |i: int| self.wrs@[i]@)
    }

    /// The result of the call; `errno` is the code that the call left behind.
    pub fn complete(&self, ret: i32, errno: i32) -> (r: Result<(), OsError>)
        ensures
            r == zero_or_errno(ret, errno),
    {
        check_ret(ret, errno)
    }
}

impl PostRecv {
    /// The work requests of the call.
    pub open spec fn list(self) -> Seq<RecvDescView> {
        Seq::new(self.wrs@.len(), |i: int| self.wrs@[i]@)
    }

    /// The result of the call; `errno` is the code that the call left behind.
    pub fn complete(&self, ret: i32, errno: i32) -> (r: Result<(), OsError>)
        ensures
            r == zero_or_errno(ret, errno),
    {
        check_ret(ret, errno)
    }
}

impl<'a> Qp<'a> {
    /// Posts the one work request `wr`.
    fn post_one(&self, wr: SendWr<'_>) -> (r: PostSend)
        requires
            all_addressable(wr.local@),
        ensures
            r.qp == self@.created.qp,
            r.list() == seq![wr.desc()],
    {
        let mut wrs: Vec<SendDesc> = Vec::new();
        wrs.push(wr.to_wr());
        let r = PostSend { qp: self.as_ptr(), wrs };
        assert(r.list() =~= seq![wr.desc()]);
        r
    }

    /// Receives into the buffers `local`: the call to make. Once it has been
    /// made, the contents of the buffers can change at any time until the
    /// work request completes.
    pub fn recv(&self, local: &[MrSlice<'_>], wr_id: u64) -> (r: PostRecv)
        requires
            all_addressable(local@),
        ensures
            r.qp == self@.created.qp,
            r.list() == seq![recv_desc(local@, wr_id)],
    {
        let mut wrs: Vec<RecvDesc> = Vec::new();
        wrs.push(RecvWr { local, wr_id }.to_wr());
        let r = PostRecv { qp: self.as_ptr(), wrs };
        assert(r.list() =~= seq![recv_desc(local@, wr_id)]);
        r
    }

    /// Sends the buffers `local` to the connected peer: the call to make.
    pub fn send(&self, local: &[MrSlice<'_>], wr_id: u64, signal: bool) -> (r: PostSend)
        requires
            all_addressable(local@),
        ensures
            r.qp == self@.created.qp,
            r.list() == seq![send_desc(SendOp::Send, local@, wr_id, signal)],
    {
        self.post_one(SendWr { op: SendOp::Send, local, wr_id, signal })
    }

    /// Sends the buffers `local` to `peer` as a datagram: the call to make.
    pub fn send_to(
        &self,
        peer: &QpPeer,
        local: &[MrSlice<'_>],
        wr_id: u64,
        signal: bool,
    ) -> (r: PostSend)
        requires
            all_addressable(local@),
        ensures
            r.qp == self@.created.qp,
            r.list() == seq![send_desc(SendOp::SendTo(peer), local@, wr_id, signal)],
    {
        self.post_one(SendWr { op: SendOp::SendTo(peer), local, wr_id, signal })
    }

    /// Reads the remote memory `remote` into the buffers `local`: the call to
    /// make.
    pub fn read(
        &self,
        local: &[MrSlice<'_>],
        remote: &RemoteMrSlice,
        wr_id: u64,
        signal: bool,
    ) -> (r: PostSend)
        requires
            all_addressable(local@),
        ensures
            r.qp == self@.created.qp,
            r.list() == seq![send_desc(SendOp::Read(*remote), local@, wr_id, signal)],
    {
        self.post_one(SendWr { op: SendOp::Read(*remote), local, wr_id, signal })
    }

    /// Writes the buffers `local` to the remote memory `remote`, with the
    /// immediate data `imm` if there are any: the call to make.
    pub fn write(
        &self,
        local: &[MrSlice<'_>],
        remote: &RemoteMrSlice,
        wr_id: u64,
        imm: Option<u32>,
        signal: bool,
    ) -> (r: PostSend)
        requires
            all_addressable(local@),
        ensures
            r.qp == self@.created.qp,
            r.list() == seq![send_desc(SendOp::Write(*remote, imm), local@, wr_id, signal)],
    {
        self.post_one(SendWr { op: SendOp::Write(*remote, imm), local, wr_id, signal })
    }

    /// Posts the work requests `ops`, of which there must be at least one, to
    /// the send queue as one list: the call to make.
    pub fn post_send(&self, ops: &[SendWr<'_>]) -> (r: PostSend)
        requires
            ops@.len() > 0,
            forall|i: int| 0 <= i < ops@.len() ==> all_addressable((#[trigger] ops@[i]).local@),
        ensures
            r.qp == self@.created.qp,
            r.list() == send_list(ops@),
    {
        let mut wrs: Vec<SendDesc> = Vec::new();
        let mut i: usize = 0;
        while i < ops.len()
            invariant
                i <= ops@.len(),
                forall|j: int|
                    0 <= j < ops@.len() ==> all_addressable((#[trigger] ops@[j]).local@),
                wrs@.len() == i,
                forall|j: int| 0 <= j < i ==> (#[trigger] wrs@[j])@ == send_list(ops@)[j],
            decreases ops@.len() - i,
        {
            let mut wr = ops[i].to_wr();
            if i < ops.len() - 1 {
                wr.next = Some(i + 1);
            }
            assert(wr@ =~= send_list(ops@)[i as int]);
            wrs.push(wr);
            i += 1;
        }
        let r = PostSend { qp: self.as_ptr(), wrs };
        assert(r.list() =~= send_list(ops@));
        r
    }

    /// Posts the work requests `ops`, of which there must be at least one, to
    /// the receive queue as one list: the call to make.
    pub fn post_recv(&self, ops: &[RecvWr<'_>]) -> (r: PostRecv)
        requires
            ops@.len() > 0,
            forall|i: int| 0 <= i < ops@.len() ==> all_addressable((#[trigger] ops@[i]).local@),
        ensures
            r.qp == self@.created.qp,
            r.list() == recv_list(ops@),
    {
        let mut wrs: Vec<RecvDesc> = Vec::new();
        let mut i: usize = 0;
        while i < ops.len()
            invariant
                i <= ops@.len(),
                forall|j: int|
                    0 <= j < ops@.len() ==> all_addressable((#[trigger] ops@[j]).local@),
                wrs@.len() == i,
                forall|j: int| 0 <= j < i ==> (#[trigger] wrs@[j])@ == recv_list(ops@)[j],
            decreases ops@.len() - i,
        {
            let mut wr = ops[i].to_wr();
            if i < ops.len() - 1 {
                wr.next = Some(i + 1);
            }
            assert(wr@ =~= recv_list(ops@)[i as int]);
            wrs.push(wr);
            i += 1;
        }
        let r = PostRecv { qp: self.as_ptr(), wrs };
        assert(r.list() =~= recv_list(ops@));
        r
    }
}

/// The indices of the work requests that a device comes by that starts at the
/// one at `i` and follows the links `next`, `steps` of them at most.
pub open spec fn walk(next: Seq<Option<usize>>, i: usize, steps: nat) -> Seq<int>
    decreases steps,
{
    match next[i as int] {
        Some(j) if steps > 0 => seq![i as int] + walk(next, j, (steps - 1) as nat),
        _ => seq![i as int],
    }
}

/// The indices from `i` on of a list of `len`.
pub open spec fn indices_from(i: int, len: nat) -> Seq<int> {
    Seq::new((len - i) as nat, |k: int| i + k)
}

/// Links to the next index lead from any place through the rest of a list.
proof fn lemma_walk(next: Seq<Option<usize>>, i: usize, steps: nat)
    requires
        i < next.len() <= usize::MAX,
        steps + 1 >= next.len() - i,
        forall|k: int| 0 <= k < next.len() ==> #[trigger] next[k] == next_index(k, next.len()),
    ensures
        walk(next, i, steps) == indices_from(i as int, next.len()),
    decreases next.len() - i,
{
    assert(next[i as int] == next_index(i as int, next.len()));
    if i + 1 < next.len() {
        lemma_walk(next, (i + 1) as usize, (steps - 1) as nat);
    }
    assert(walk(next, i, steps) =~= indices_from(i as int, next.len()));
}

/// A device that follows the links of a list posted to the send queue, from
/// the first work request on, comes by every one, in order, and then to the
/// end.
pub proof fn law_send_list_is_linked(ops: Seq<SendWr<'_>>, steps: nat)
    requires
        0 < ops.len() <= usize::MAX,
        steps + 1 >= ops.len(),
    ensures
        walk(send_list(ops).map_values(|wr: SendDescView| wr.next), 0, steps) == indices_from(
            0,
            ops.len(),
        ),
{
    lemma_walk(send_list(ops).map_values(|wr: SendDescView| wr.next), 0, steps);
}

/// A device that follows the links of a list posted to the receive queue, from
/// the first work request on, comes by every one, in order, and then to the
/// end.
pub proof fn law_recv_list_is_linked(ops: Seq<RecvWr<'_>>, steps: nat)
    requires
        0 < ops.len() <= usize::MAX,
        steps + 1 >= ops.len(),
    ensures
        walk(recv_list(ops).map_values(|wr: RecvDescView| wr.next), 0, steps) == indices_from(
            0,
            ops.len(),
        ),
{
    lemma_walk(recv_list(ops).map_values(|wr: RecvDescView| wr.next), 0, steps);
}

/// Posting a single operation is posting the list of that operation.
pub proof fn law_single_post_is_list_of_one(send: SendWr<'_>, recv: RecvWr<'_>)
    ensures
        send_list(seq![send]) == seq![send.desc()],
        recv_list(seq![recv]) == seq![recv.desc()],
{
    assert(send_list(seq![send]) =~= seq![send.desc()]);
    assert(recv_list(seq![recv]) =~= seq![recv.desc()]);
}

/// A work request of a send queue says what the caller asked for: it has the
/// caller's identifier, leaves a completion if and only if the caller wants
/// one, has the code of its operation, and leads to the operation's own target.
/// Only a write with immediate data carries any, and those of the caller. It is
/// the only one of its list, on all of the caller's ranges.
pub proof fn law_send_request_says_what_was_asked(op: SendWr<'_>, wr: SendDesc)
    requires
        call_ensures(SendWr::to_wr, (&op,), wr),
    ensures
        wr@ == op.desc(),
        wr.wr_id == op.wr_id,
        wr.next is None,
        op.signal ==> wr.send_flags == 0x2,
        !op.signal ==> wr.send_flags == 0,
        match op.op {
            SendOp::Send => wr.opcode == 2 && wr.imm_data == 0 && wr.wr is Connected,
            SendOp::SendTo(peer) => {
                &&& wr.opcode == 2
                &&& wr.imm_data == 0
                &&& wr.wr == WrTarget::Ud(
                    UdAddr { ah: peer.ah, remote_qpn: peer.ep.qpn, remote_qkey: peer.ep.qkey },
                )
            },
            SendOp::Read(remote) => wr.opcode == 4 && wr.imm_data == 0 && wr.wr
                == WrTarget::Rdma(remote),
            SendOp::Write(remote, None) => wr.opcode == 0 && wr.imm_data == 0 && wr.wr
                == WrTarget::Rdma(remote),
            SendOp::Write(remote, Some(imm)) => wr.opcode == 1 && wr.imm_data == imm && wr.wr
                == WrTarget::Rdma(remote),
        },
        match wr.sg_list {
            None => op.local@.len() == 0,
            Some(list) => op.local@.len() > 0 && list@ == sgl(op.local@),
        },
        op.local@.len() <= i32::MAX ==> wr.num_sge == op.local@.len(),
        (wr.num_sge - op.local@.len()) % 0x1_0000_0000 == 0,
{
}

/// A work request of a receive queue says what the caller asked for: it has the
/// caller's identifier, and is the only one of its list, on all of the caller's
/// ranges.
pub proof fn law_recv_request_says_what_was_asked(op: RecvWr<'_>, wr: RecvDesc)
    requires
        call_ensures(RecvWr::to_wr, (&op,), wr),
    ensures
        wr@ == op.desc(),
        wr.wr_id == op.wr_id,
        wr.next is None,
        match wr.sg_list {
            None => op.local@.len() == 0,
            Some(list) => op.local@.len() > 0 && list@ == sgl(op.local@),
        },
        op.local@.len() <= i32::MAX ==> wr.num_sge == op.local@.len(),
        (wr.num_sge - op.local@.len()) % 0x1_0000_0000 == 0,
{
}

/// Each way to post a single operation posts the one work request of that
/// operation, with all of its arguments, to the queue pair itself: what
/// [`SendWr::to_wr`] makes of it.
pub proof fn law_single_post_is_its_request(
    qp: Qp<'_>,
    peer: &QpPeer,
    local: &[MrSlice<'_>],
    remote: &RemoteMrSlice,
    wr_id: u64,
    imm: Option<u32>,
    signal: bool,
    op: SendOp<'_>,
    wr: SendDesc,
    r: PostSend,
)
    requires
        call_ensures(SendWr::to_wr, (&SendWr { op, local, wr_id, signal },), wr),
        match op {
            SendOp::Send => call_ensures(Qp::send, (&qp, local, wr_id, signal), r),
            SendOp::SendTo(p) => p == peer && call_ensures(
                Qp::send_to,
                (&qp, peer, local, wr_id, signal),
                r,
            ),
            SendOp::Read(m) => m == *remote && call_ensures(
                Qp::read,
                (&qp, local, remote, wr_id, signal),
                r,
            ),
            SendOp::Write(m, i) => m == *remote && i == imm && call_ensures(
                Qp::write,
                (&qp, local, remote, wr_id, imm, signal),
                r,
            ),
        },
    ensures
        r.qp == qp@.created.qp,
        r.wrs@.len() == 1,
        r.wrs@[0].wr_id == wr.wr_id,
        r.wrs@[0].next == wr.next,
        r.wrs@[0].num_sge == wr.num_sge,
        r.wrs@[0].opcode == wr.opcode,
        r.wrs@[0].send_flags == wr.send_flags,
        r.wrs@[0].imm_data == wr.imm_data,
        r.wrs@[0].wr == wr.wr,
        match (r.wrs@[0].sg_list, wr.sg_list) {
            (None, None) => true,
            (Some(a), Some(b)) => a@ == b@,
            _ => false,
        },
{
    assert(r.list().len() == 1);
    assert(r.list()[0] == r.wrs@[0]@);
}

/// A receive posts the one work request of it to the queue pair itself: what
/// [`RecvWr::to_wr`] makes of it.
pub proof fn law_single_recv_is_its_request(
    qp: Qp<'_>,
    local: &[MrSlice<'_>],
    wr_id: u64,
    wr: RecvDesc,
    r: PostRecv,
)
    requires
        call_ensures(RecvWr::to_wr, (&RecvWr { local, wr_id },), wr),
        call_ensures(Qp::recv, (&qp, local, wr_id), r),
    ensures
        r.qp == qp@.created.qp,
        r.wrs@.len() == 1,
        r.wrs@[0].wr_id == wr.wr_id,
        r.wrs@[0].next == wr.next,
        r.wrs@[0].num_sge == wr.num_sge,
        match (r.wrs@[0].sg_list, wr.sg_list) {
            (None, None) => true,
            (Some(a), Some(b)) => a@ == b@,
            _ => false,
        },
{
    assert(r.list().len() == 1);
    assert(r.list()[0] == r.wrs@[0]@);
}

/// Posting a list changes nothing of a work request but its link. At every
/// place stands what [`SendWr::to_wr`] makes of the operation at that place, in
/// all but the link; that is the next place, or none at the end of the list.
pub proof fn law_send_list_only_links(
    qp: Qp<'_>,
    ops: &[SendWr<'_>],
    r: PostSend,
    i: int,
    wr: SendDesc,
)
    requires
        call_ensures(Qp::post_send, (&qp, ops), r),
        0 <= i < ops@.len() <= usize::MAX,
        call_ensures(SendWr::to_wr, (&ops@[i],), wr),
    ensures
        r.qp == qp@.created.qp,
        r.wrs@.len() == ops@.len(),
        r.wrs@[i].wr_id == wr.wr_id == ops@[i].wr_id,
        r.wrs@[i].num_sge == wr.num_sge,
        r.wrs@[i].opcode == wr.opcode,
        r.wrs@[i].send_flags == wr.send_flags,
        r.wrs@[i].send_flags == 0x2 <==> ops@[i].signal,
        r.wrs@[i].imm_data == wr.imm_data,
        r.wrs@[i].wr == wr.wr,
        match (r.wrs@[i].sg_list, wr.sg_list) {
            (None, None) => true,
            (Some(a), Some(b)) => a@ == b@,
            _ => false,
        },
        match r.wrs@[i].next {
            None => i + 1 == ops@.len(),
            Some(next) => next == i + 1 && next < ops@.len(),
        },
{
    assert(r.list().len() == r.wrs@.len());
    assert(r.list()[i] == r.wrs@[i]@);
}

/// Posting a list changes nothing of a work request but its link. At every
/// place stands what [`RecvWr::to_wr`] makes of the operation at that place, in
/// all but the link; that is the next place, or none at the end of the list.
pub proof fn law_recv_list_only_links(
    qp: Qp<'_>,
    ops: &[RecvWr<'_>],
    r: PostRecv,
    i: int,
    wr: RecvDesc,
)
    requires
        call_ensures(Qp::post_recv, (&qp, ops), r),
        0 <= i < ops@.len() <= usize::MAX,
        call_ensures(RecvWr::to_wr, (&ops@[i],), wr),
    ensures
        r.qp == qp@.created.qp,
        r.wrs@.len() == ops@.len(),
        r.wrs@[i].wr_id == wr.wr_id == ops@[i].wr_id,
        r.wrs@[i].num_sge == wr.num_sge,
        match (r.wrs@[i].sg_list, wr.sg_list) {
            (None, None) => true,
            (Some(a), Some(b)) => a@ == b@,
            _ => false,
        },
        match r.wrs@[i].next {
            None => i + 1 == ops@.len(),
            Some(next) => next == i + 1 && next < ops@.len(),
        },
{
    assert(r.list().len() == r.wrs@.len());
    assert(r.list()[i] == r.wrs@[i]@);
}

/// An operation can be posted whatever its number of ranges, their lengths and
/// its other arguments are, as long as each range starts at an address of 64
/// bits; a list of any such operations can, as long as it has one.
pub proof fn law_any_addressable_operation_can_be_posted(
    qp: Qp<'_>,
    local: &[MrSlice<'_>],
    sends: &[SendWr<'_>],
    recvs: &[RecvWr<'_>],
    peer: &QpPeer,
    remote: &RemoteMrSlice,
    wr_id: u64,
    imm: Option<u32>,
    signal: bool,
)
    requires
        forall|k: int|
            #![trigger local@[k]]
            0 <= k < local@.len() ==> local@[k].mr.addr + local@[k].offset <= u64::MAX,
        sends@.len() > 0,
        forall|i: int, k: int|
            #![trigger sends@[i].local@[k]]
            0 <= i < sends@.len() && 0 <= k < sends@[i].local@.len() ==> sends@[i].local@[k].mr.addr
                + sends@[i].local@[k].offset <= u64::MAX,
        recvs@.len() > 0,
        forall|i: int, k: int|
            #![trigger recvs@[i].local@[k]]
            0 <= i < recvs@.len() && 0 <= k < recvs@[i].local@.len() ==> recvs@[i].local@[k].mr.addr
                + recvs@[i].local@[k].offset <= u64::MAX,
    ensures
        call_requires(Qp::recv, (&qp, local, wr_id)),
        call_requires(Qp::send, (&qp, local, wr_id, signal)),
        call_requires(Qp::send_to, (&qp, peer, local, wr_id, signal)),
        call_requires(Qp::read, (&qp, local, remote, wr_id, signal)),
        call_requires(Qp::write, (&qp, local, remote, wr_id, imm, signal)),
        call_requires(Qp::post_send, (&qp, sends)),
        call_requires(Qp::post_recv, (&qp, recvs)),
{
}

} // verus!
