//! State transitions of queue pairs, and the way to a connected one.

use vstd::prelude::*;

use crate::device::Gid;
use crate::qp::{
    global_address, AhAttr, GlobalRoute, Qp, QpEndpoint, QpPeer, QpState, QpType, QpView,
};
use crate::sys::{
    check_ret, zero_or_errno, OsError, IBV_ACCESS_REMOTE_ATOMIC, IBV_ACCESS_REMOTE_READ,
    IBV_ACCESS_REMOTE_WRITE, IBV_QPS_INIT, IBV_QPS_RTR, IBV_QPS_RTS, IBV_QP_ACCESS_FLAGS,
    IBV_QP_AV, IBV_QP_DEST_QPN, IBV_QP_MAX_DEST_RD_ATOMIC, IBV_QP_MAX_QP_RD_ATOMIC,
    IBV_QP_MIN_RNR_TIMER, IBV_QP_PATH_MTU, IBV_QP_PKEY_INDEX, IBV_QP_PORT, IBV_QP_QKEY,
    IBV_QP_RETRY_CNT, IBV_QP_RNR_RETRY, IBV_QP_RQ_PSN, IBV_QP_SQ_PSN, IBV_QP_STATE,
    IBV_QP_TIMEOUT,
};

verus! {

/// Attributes of a queue pair, as `ibv_modify_qp` takes them: those that a
/// transition can set. All others are zero.
#[derive(Debug, Clone, Copy, PartialEq, Eq)]
pub struct QpAttr {
    pub qp_state: u32,
    pub path_mtu: u32,
    pub qkey: u32,
    pub rq_psn: u32,
    pub sq_psn: u32,
    pub dest_qp_num: u32,
    pub qp_access_flags: u32,
    pub ah_attr: AhAttr,
    pub pkey_index: u16,
    pub max_rd_atomic: u8,
    pub max_dest_rd_atomic: u8,
    pub min_rnr_timer: u8,
    pub port_num: u8,
    pub timeout: u8,
    pub retry_cnt: u8,
    pub rnr_retry: u8,
}

impl QpAttr {
    /// All attributes zero.
    pub open spec fn zero() -> QpAttr {
        QpAttr {
            qp_state: 0,
            path_mtu: 0,
            qkey: 0,
            rq_psn: 0,
            sq_psn: 0,
            dest_qp_num: 0,
            qp_access_flags: 0,
            ah_attr: AhAttr {
                grh: GlobalRoute {
                    dgid: Gid { raw: [0, 0, 0, 0, 0, 0, 0, 0, 0, 0, 0, 0, 0, 0, 0, 0] },
                    flow_label: 0,
                    sgid_index: 0,
                    hop_limit: 0,
                    traffic_class: 0,
                },
                dlid: 0,
                sl: 0,
                src_path_bits: 0,
                static_rate: 0,
                is_global: 0,
                port_num: 0,
            },
            pkey_index: 0,
            max_rd_atomic: 0,
            max_dest_rd_atomic: 0,
            min_rnr_timer: 0,
            port_num: 0,
            timeout: 0,
            retry_cnt: 0,
            rnr_retry: 0,
        }
    }

    /// All attributes zero.
    pub fn zeroed() -> (r: QpAttr)
        ensures
            r == QpAttr::zero(),
    {
        QpAttr {
            qp_state: 0,
            path_mtu: 0,
            qkey: 0,
            rq_psn: 0,
            sq_psn: 0,
            dest_qp_num: 0,
            qp_access_flags: 0,
            ah_attr: AhAttr {
                grh: GlobalRoute {
                    dgid: Gid { raw: [0, 0, 0, 0, 0, 0, 0, 0, 0, 0, 0, 0, 0, 0, 0, 0] },
                    flow_label: 0,
                    sgid_index: 0,
                    hop_limit: 0,
                    traffic_class: 0,
                },
                dlid: 0,
                sl: 0,
                src_path_bits: 0,
                static_rate: 0,
                is_global: 0,
                port_num: 0,
            },
            pkey_index: 0,
            max_rd_atomic: 0,
            max_dest_rd_atomic: 0,
            min_rnr_timer: 0,
            port_num: 0,
            timeout: 0,
            retry_cnt: 0,
            rnr_retry: 0,
        }
    }
}

/// A call of `ibv_modify_qp`.
#[derive(Debug, Clone, Copy, PartialEq, Eq)]
pub struct ModifyQp {
    /// Address of the queue pair.
    pub qp: usize,
    pub attr: QpAttr,
    /// The attributes that the call is to set.
    pub attr_mask: i32,
}

impl ModifyQp {
    /// The result of the call; `errno` is the code that the call left behind.
    pub fn complete(&self, ret: i32, errno: i32) -> (r: Result<(), OsError>)
        ensures
            r == zero_or_errno(ret, errno),
    {
        check_ret(ret, errno)
    }
}

/// The transition from reset to init: the port and the partition, and for a
/// reliable connection what the peer may do, for datagrams the queue key.
pub open spec fn reset_to_init(qp: QpView, ep: QpEndpoint) -> ModifyQp {
    let attr = QpAttr {
        qp_state: IBV_QPS_INIT,
        pkey_index: 0,
        port_num: ep.port_num,
        ..QpAttr::zero()
    };
    let mask = IBV_QP_STATE | IBV_QP_PKEY_INDEX | IBV_QP_PORT;
    match qp.qp_type() {
        QpType::RC => ModifyQp {
            qp: qp.created.qp,
            attr: QpAttr {
                qp_access_flags: IBV_ACCESS_REMOTE_WRITE | IBV_ACCESS_REMOTE_READ
                    | IBV_ACCESS_REMOTE_ATOMIC,
                ..attr
            },
            attr_mask: (mask | IBV_QP_ACCESS_FLAGS) as i32,
        },
        QpType::UD => ModifyQp {
            qp: qp.created.qp,
            attr: QpAttr { qkey: ep.qkey, ..attr },
            attr_mask: (mask | IBV_QP_QKEY) as i32,
        },
    }
}

/// The transition from init to ready-to-receive: for a reliable connection,
/// the path to the peer and what is expected from it.
pub open spec fn init_to_rtr(qp: QpView, ep: QpEndpoint) -> ModifyQp {
    let attr = QpAttr { qp_state: IBV_QPS_RTR, ..QpAttr::zero() };
    match qp.qp_type() {
        QpType::RC => ModifyQp {
            qp: qp.created.qp,
            attr: QpAttr {
                path_mtu: qp.pd.ctx.active_mtu,
                dest_qp_num: ep.qpn,
                rq_psn: ep.psn,
                max_dest_rd_atomic: 16,
                min_rnr_timer: 12,
                ah_attr: global_address(
                    ep.gid,
                    qp.pd.ctx.gid_index,
                    ep.lid,
                    qp.pd.ctx.port_num,
                ),
                ..attr
            },
            attr_mask: (IBV_QP_STATE | IBV_QP_AV | IBV_QP_PATH_MTU | IBV_QP_DEST_QPN
                | IBV_QP_RQ_PSN | IBV_QP_MAX_DEST_RD_ATOMIC | IBV_QP_MIN_RNR_TIMER) as i32,
        },
        QpType::UD => ModifyQp { qp: qp.created.qp, attr, attr_mask: IBV_QP_STATE as i32 },
    }
}

/// The transition from ready-to-receive to ready-to-send: the first packet
/// number, and for a reliable connection how to retry.
pub open spec fn rtr_to_rts(qp: QpView, ep: QpEndpoint) -> ModifyQp {
    let attr = QpAttr { qp_state: IBV_QPS_RTS, sq_psn: ep.psn, ..QpAttr::zero() };
    let mask = IBV_QP_STATE | IBV_QP_SQ_PSN;
    match qp.qp_type() {
        QpType::RC => ModifyQp {
            qp: qp.created.qp,
            attr: QpAttr { max_rd_atomic: 16, timeout: 14, retry_cnt: 6, rnr_retry: 6, ..attr },
            attr_mask: (mask | IBV_QP_MAX_QP_RD_ATOMIC | IBV_QP_TIMEOUT | IBV_QP_RETRY_CNT
                | IBV_QP_RNR_RETRY) as i32,
        },
        QpType::UD => ModifyQp { qp: qp.created.qp, attr, attr_mask: mask as i32 },
    }
}

impl<'a> Qp<'a> {
    /// Moves the queue pair from reset to init: the call to make.
    pub fn modify_reset_to_init(&self, ep: &QpEndpoint) -> (r: ModifyQp)
        requires
            self@.known_type(),
        ensures
            r == reset_to_init(self@, *ep),
    {
        let mut attr = QpAttr::zeroed();
        let mut attr_mask: u32 = IBV_QP_STATE | IBV_QP_PKEY_INDEX | IBV_QP_PORT;
        attr.qp_state = IBV_QPS_INIT;
        attr.pkey_index = 0;
        attr.port_num = ep.port_num;

        if self.qp_type() == QpType::RC {
            attr.qp_access_flags = IBV_ACCESS_REMOTE_WRITE | IBV_ACCESS_REMOTE_READ
                | IBV_ACCESS_REMOTE_ATOMIC;
            attr_mask = attr_mask | IBV_QP_ACCESS_FLAGS;
        } else {
            attr_mask = attr_mask | IBV_QP_QKEY;
            attr.qkey = ep.qkey;
        }

        ModifyQp { qp: self.as_ptr(), attr, attr_mask: attr_mask as i32 }
    }

    /// Moves the queue pair from init to ready-to-receive: the call to make.
    pub fn modify_init_to_rtr(&self, ep: &QpEndpoint) -> (r: ModifyQp)
        requires
            self@.known_type(),
        ensures
            r == init_to_rtr(self@, *ep),
    {
        let mut attr = QpAttr::zeroed();
        let mut attr_mask: u32 = IBV_QP_STATE;
        attr.qp_state = IBV_QPS_RTR;

        if self.qp_type() == QpType::RC {
            let ctx = self.pd().ctx;

            attr.path_mtu = ctx.active_mtu;
            attr.dest_qp_num = ep.qpn;
            attr.rq_psn = ep.psn;
            attr.max_dest_rd_atomic = 16;
            attr.min_rnr_timer = 12;

            attr.ah_attr.grh.dgid = ep.gid;
            attr.ah_attr.grh.flow_label = 0;
            attr.ah_attr.grh.sgid_index = ctx.gid_index;
            attr.ah_attr.grh.hop_limit = 0xFF;
            attr.ah_attr.grh.traffic_class = 0;
            attr.ah_attr.dlid = ep.lid;
            attr.ah_attr.sl = 0;
            attr.ah_attr.src_path_bits = 0;
            attr.ah_attr.port_num = ctx.port_num;
            attr.ah_attr.is_global = 1;

            attr_mask = attr_mask | IBV_QP_AV | IBV_QP_PATH_MTU | IBV_QP_DEST_QPN | IBV_QP_RQ_PSN
                | IBV_QP_MAX_DEST_RD_ATOMIC | IBV_QP_MIN_RNR_TIMER;
        }

        ModifyQp { qp: self.as_ptr(), attr, attr_mask: attr_mask as i32 }
    }

    /// Moves the queue pair from ready-to-receive to ready-to-send: the call
    /// to make.
    pub fn modify_rtr_to_rts(&self, ep: &QpEndpoint) -> (r: ModifyQp)
        requires
            self@.known_type(),
        ensures
            r == rtr_to_rts(self@, *ep),
    {
        let mut attr = QpAttr::zeroed();
        let mut attr_mask: u32 = IBV_QP_STATE | IBV_QP_SQ_PSN;
        attr.qp_state = IBV_QPS_RTS;
        attr.sq_psn = ep.psn;

        if self.qp_type() == QpType::RC {
            attr.max_rd_atomic = 16;
            attr.timeout = 14;
            attr.retry_cnt = 6;
            attr.rnr_retry = 6;
            attr_mask = attr_mask | IBV_QP_MAX_QP_RD_ATOMIC | IBV_QP_TIMEOUT | IBV_QP_RETRY_CNT
                | IBV_QP_RNR_RETRY;
        }

        ModifyQp { qp: self.as_ptr(), attr, attr_mask: attr_mask as i32 }
    }
}

/// Whether the call sets the attribute of `flag`.
pub open spec fn selects(call: ModifyQp, flag: u32) -> bool {
    (call.attr_mask as u32) & flag != 0
}

/// The call moves the queue pair to another state, and every attribute with a
/// value but zero is one that it sets.
pub open spec fn nothing_ignored(call: ModifyQp) -> bool {
    &&& selects(call, IBV_QP_STATE)
    &&& call.attr.qp_access_flags != 0 ==> selects(call, IBV_QP_ACCESS_FLAGS)
    &&& call.attr.pkey_index != 0 ==> selects(call, IBV_QP_PKEY_INDEX)
    &&& call.attr.port_num != 0 ==> selects(call, IBV_QP_PORT)
    &&& call.attr.qkey != 0 ==> selects(call, IBV_QP_QKEY)
    &&& call.attr.ah_attr != QpAttr::zero().ah_attr ==> selects(call, IBV_QP_AV)
    &&& call.attr.path_mtu != 0 ==> selects(call, IBV_QP_PATH_MTU)
    &&& call.attr.timeout != 0 ==> selects(call, IBV_QP_TIMEOUT)
    &&& call.attr.retry_cnt != 0 ==> selects(call, IBV_QP_RETRY_CNT)
    &&& call.attr.rnr_retry != 0 ==> selects(call, IBV_QP_RNR_RETRY)
    &&& call.attr.rq_psn != 0 ==> selects(call, IBV_QP_RQ_PSN)
    &&& call.attr.max_rd_atomic != 0 ==> selects(call, IBV_QP_MAX_QP_RD_ATOMIC)
    &&& call.attr.min_rnr_timer != 0 ==> selects(call, IBV_QP_MIN_RNR_TIMER)
    &&& call.attr.sq_psn != 0 ==> selects(call, IBV_QP_SQ_PSN)
    &&& call.attr.max_dest_rd_atomic != 0 ==> selects(call, IBV_QP_MAX_DEST_RD_ATOMIC)
    &&& call.attr.dest_qp_num != 0 ==> selects(call, IBV_QP_DEST_QPN)
}

/// No transition computes an attribute that its call then ignores.
pub proof fn law_transitions_set_what_they_compute(qp: QpView, ep: QpEndpoint)
    ensures
        nothing_ignored(reset_to_init(qp, ep)),
        nothing_ignored(init_to_rtr(qp, ep)),
        nothing_ignored(rtr_to_rts(qp, ep)),
{
    assert({
        let m = ((IBV_QP_STATE | IBV_QP_PKEY_INDEX | IBV_QP_PORT | IBV_QP_ACCESS_FLAGS) as i32)
            as u32;
        m & IBV_QP_STATE != 0 && m & IBV_QP_PORT != 0 && m & IBV_QP_ACCESS_FLAGS != 0
    }) by (bit_vector);
    assert({
        let m = ((IBV_QP_STATE | IBV_QP_PKEY_INDEX | IBV_QP_PORT | IBV_QP_QKEY) as i32) as u32;
        m & IBV_QP_STATE != 0 && m & IBV_QP_PORT != 0 && m & IBV_QP_QKEY != 0
    }) by (bit_vector);
    assert({
        let m = ((IBV_QP_STATE | IBV_QP_AV | IBV_QP_PATH_MTU | IBV_QP_DEST_QPN | IBV_QP_RQ_PSN
            | IBV_QP_MAX_DEST_RD_ATOMIC | IBV_QP_MIN_RNR_TIMER) as i32) as u32;
        m & IBV_QP_STATE != 0 && m & IBV_QP_AV != 0 && m & IBV_QP_PATH_MTU != 0 && m
            & IBV_QP_DEST_QPN != 0 && m & IBV_QP_RQ_PSN != 0 && m & IBV_QP_MAX_DEST_RD_ATOMIC
            != 0 && m & IBV_QP_MIN_RNR_TIMER != 0
    }) by (bit_vector);
    assert({
        let m = (IBV_QP_STATE as i32) as u32;
        m & IBV_QP_STATE != 0
    }) by (bit_vector);
    assert({
        let m = ((IBV_QP_STATE | IBV_QP_SQ_PSN | IBV_QP_MAX_QP_RD_ATOMIC | IBV_QP_TIMEOUT
            | IBV_QP_RETRY_CNT | IBV_QP_RNR_RETRY) as i32) as u32;
        m & IBV_QP_STATE != 0 && m & IBV_QP_SQ_PSN != 0 && m & IBV_QP_MAX_QP_RD_ATOMIC != 0 && m
            & IBV_QP_TIMEOUT != 0 && m & IBV_QP_RETRY_CNT != 0 && m & IBV_QP_RNR_RETRY != 0
    }) by (bit_vector);
    assert({
        let m = ((IBV_QP_STATE | IBV_QP_SQ_PSN) as i32) as u32;
        m & IBV_QP_STATE != 0 && m & IBV_QP_SQ_PSN != 0
    }) by (bit_vector);
}

/// A datagram queue pair accepts the queue key that its peers address it with,
/// whichever queue pair it was connected to.
pub proof fn law_queue_keys_agree(qp: QpView, other: QpView, ah: usize)
    requires
        qp.known_type(),
        qp.qp_type() == QpType::UD,
    ensures
        reset_to_init(qp, other.endpoint()).attr.qkey == (QpPeer {
            ah,
            ep: qp.endpoint(),
        }).ud().remote_qkey,
        (QpPeer { ah, ep: qp.endpoint() }).ud().remote_qpn == qp.created.qp_num,
{
}

/// Two queue pairs that are connected to each other's endpoints agree: each is
/// told to talk to the other, expects the packet number that the other starts
/// with, and answers as many reads and atomics at a time as the other makes.
pub proof fn law_connected_pairs_agree(a: QpView, b: QpView)
    requires
        a.known_type(),
        b.known_type(),
        a.qp_type() == QpType::RC,
        b.qp_type() == QpType::RC,
    ensures
        ({
            let receiver = init_to_rtr(a, b.endpoint()).attr;
            let sender = rtr_to_rts(b, a.endpoint()).attr;
            &&& receiver.dest_qp_num == b.created.qp_num
            &&& receiver.ah_attr.grh.dgid == b.pd.ctx.gid
            &&& receiver.ah_attr.dlid == b.pd.ctx.lid
            &&& receiver.rq_psn == sender.sq_psn
            &&& receiver.max_dest_rd_atomic >= sender.max_rd_atomic
        }),
{
}

/// The checks of a connection, in the order in which they are made. Each looks
/// at the state that the queue pair then has.
#[derive(Debug, Clone, Copy, PartialEq, Eq, Structural)]
pub enum ConnectStage {
    /// Leave the reset state.
    ToInit,
    /// Get ready to receive.
    ToRtr,
    /// Get ready to send.
    ToRts,
    /// No check is left.
    Connected,
}

impl ConnectStage {
    /// The stage after this one.
    pub open spec fn next(self) -> ConnectStage {
        match self {
            ConnectStage::ToInit => ConnectStage::ToRtr,
            ConnectStage::ToRtr => ConnectStage::ToRts,
            ConnectStage::ToRts => ConnectStage::Connected,
            ConnectStage::Connected => ConnectStage::Connected,
        }
    }

    /// The transition that the stage makes of a queue pair in `state`.
    pub open spec fn transition(self, state: QpState, qp: QpView, ep: QpEndpoint) -> Option<
        ModifyQp,
    > {
        match (self, state) {
            (ConnectStage::ToInit, QpState::Reset) => Some(reset_to_init(qp, ep)),
            (ConnectStage::ToRtr, QpState::Init) => Some(init_to_rtr(qp, ep)),
            (ConnectStage::ToRts, QpState::Rtr) => Some(rtr_to_rts(qp, ep)),
            _ => None,
        }
    }
}

/// A connection of a queue pair to an endpoint, under way.
pub struct Connect<'q, 'a> {
    pub qp: &'q Qp<'a>,
    pub ep: QpEndpoint,
    pub stage: ConnectStage,
}

impl<'a> Qp<'a> {
    /// Connects the queue pair to the endpoint `ep`, by one [`Connect::step`]
    /// after the other until [`Connect::connected`], or until a transition
    /// fails.
    pub fn connect<'q>(&'q self, ep: &QpEndpoint) -> (r: Connect<'q, 'a>)
        ensures
            *r.qp == *self,
            r.ep == *ep,
            r.stage == ConnectStage::ToInit,
    {
        Connect { qp: self, ep: *ep, stage: ConnectStage::ToInit }
    }
}

impl<'q, 'a> Connect<'q, 'a> {
    /// Whether all checks have been made.
    pub fn connected(&self) -> (r: bool)
        ensures
            r == (self.stage == ConnectStage::Connected),
    {
        self.stage == ConnectStage::Connected
    }

    /// Whether the next check finds a transition due; `state` is the state of
    /// the queue pair now.
    pub fn due(&self, state: QpState) -> (r: bool)
        ensures
            r == (self.stage.transition(state, self.qp@, self.ep) is Some),
    {
        match self.stage {
            ConnectStage::ToInit => state == QpState::Reset,
            ConnectStage::ToRtr => state == QpState::Init,
            ConnectStage::ToRts => state == QpState::Rtr,
            ConnectStage::Connected => false,
        }
    }

    /// Makes the next check; `state` is the state of the queue pair now. If a
    /// transition is due, the call must be made and succeed before the next
    /// step.
    pub fn step(&mut self, state: QpState) -> (r: Option<ModifyQp>)
        requires
            old(self).stage.transition(state, old(self).qp@, old(self).ep) is Some ==> old(
                self,
            ).qp@.known_type(),
        ensures
            r == old(self).stage.transition(state, old(self).qp@, old(self).ep),
            final(self).stage == old(self).stage.next(),
            final(self).qp == old(self).qp,
            final(self).ep == old(self).ep,
    {
        let due: bool = self.due(state);
        match self.stage {
            ConnectStage::ToInit => {
                self.stage = ConnectStage::ToRtr;
                if due {
                    Some(self.qp.modify_reset_to_init(&self.ep))
                } else {
                    None
                }
            },
            ConnectStage::ToRtr => {
                self.stage = ConnectStage::ToRts;
                if due {
                    Some(self.qp.modify_init_to_rtr(&self.ep))
                } else {
                    None
                }
            },
            ConnectStage::ToRts => {
                self.stage = ConnectStage::Connected;
                if due {
                    Some(self.qp.modify_rtr_to_rts(&self.ep))
                } else {
                    None
                }
            },
            ConnectStage::Connected => None,
        }
    }
}

/// What becomes of a connection.
#[verifier::ext_equal]
pub struct Connection {
    /// The calls that were made, in order.
    pub calls: Seq<ModifyQp>,
    /// The state that the queue pair is in at the end.
    pub state: QpState,
    pub result: Result<(), OsError>,
}

/// What becomes of a connection from `stage` on, of a queue pair in `state`.
/// The device answers a transition to a state with what `reply` says of that
/// state, a return value and an `errno`; it makes the transition if it returns
/// zero, and leaves the queue pair as it is if not.
pub open spec fn connection(
    stage: ConnectStage,
    state: QpState,
    qp: QpView,
    ep: QpEndpoint,
    reply: spec_fn(QpState) -> (i32, i32),
) -> Connection
    decreases
            match stage {
                ConnectStage::ToInit => 3int,
                ConnectStage::ToRtr => 2,
                ConnectStage::ToRts => 1,
                ConnectStage::Connected => 0,
            },
{
    if stage == ConnectStage::Connected {
        Connection { calls: Seq::empty(), state, result: Ok(()) }
    } else {
        match stage.transition(state, qp, ep) {
            None => connection(stage.next(), state, qp, ep, reply),
            Some(call) => {
                let target = following(state);
                let (ret, errno) = reply(target);
                match zero_or_errno(ret, errno) {
                    Err(e) => Connection { calls: seq![call], state, result: Err(e) },
                    Ok(_) => {
                        let rest = connection(stage.next(), target, qp, ep, reply);
                        Connection { calls: seq![call] + rest.calls, ..rest }
                    },
                }
            },
        }
    }
}

/// The place of a state on the way to ready-to-send.
pub open spec fn rank(state: QpState) -> int {
    match state {
        QpState::Reset => 0,
        QpState::Init => 1,
        QpState::Rtr => 2,
        QpState::Rts => 3,
        QpState::Error => 4,
    }
}

/// The state after `state` on the way to ready-to-send.
pub open spec fn following(state: QpState) -> QpState {
    match state {
        QpState::Reset => QpState::Init,
        QpState::Init => QpState::Rtr,
        _ => QpState::Rts,
    }
}

/// A connection brings a queue pair that is not in error to ready-to-send, if
/// the device makes the transitions, by those that are missing, in their
/// order. One that is ready already, or in error, is left as it is.
pub proof fn law_connect_reaches_ready_to_send(
    state: QpState,
    qp: QpView,
    ep: QpEndpoint,
    reply: spec_fn(QpState) -> (i32, i32),
)
    requires
        forall|to: QpState| rank(state) < rank(to) <= 3 ==> (#[trigger] reply(to)).0 == 0,
    ensures
        ({
            let way = seq![reset_to_init(qp, ep), init_to_rtr(qp, ep), rtr_to_rts(qp, ep)];
            let c = connection(ConnectStage::ToInit, state, qp, ep, reply);
            &&& c.result == Ok::<(), OsError>(())
            &&& state == QpState::Error ==> c.state == QpState::Error && c.calls.len() == 0
            &&& state != QpState::Error ==> c.state == QpState::Rts && c.calls == way.skip(
                rank(state),
            )
        }),
{
    reveal_with_fuel(connection, 4);
    assert(reply(QpState::Init).0 == 0 || rank(state) >= 1);
    assert(reply(QpState::Rtr).0 == 0 || rank(state) >= 2);
    assert(reply(QpState::Rts).0 == 0 || rank(state) >= 3);
    let way = seq![reset_to_init(qp, ep), init_to_rtr(qp, ep), rtr_to_rts(qp, ep)];
    let c = connection(ConnectStage::ToInit, state, qp, ep, reply);
    if state != QpState::Error {
        assert(c.calls =~= way.skip(rank(state)));
    }
}

/// A connection ends with the error of the first transition that the device
/// refuses, with the queue pair in the state before it, and no further call is
/// made.
pub proof fn law_connect_stops_at_a_refusal(
    state: QpState,
    refused: QpState,
    qp: QpView,
    ep: QpEndpoint,
    reply: spec_fn(QpState) -> (i32, i32),
)
    requires
        rank(state) < rank(refused) <= 3,
        reply(refused).0 != 0,
        forall|to: QpState|
            rank(state) < rank(to) < rank(refused) ==> (#[trigger] reply(to)).0 == 0,
    ensures
        ({
            let way = seq![reset_to_init(qp, ep), init_to_rtr(qp, ep), rtr_to_rts(qp, ep)];
            let c = connection(ConnectStage::ToInit, state, qp, ep, reply);
            &&& c.result == Err::<(), OsError>(OsError { code: reply(refused).1 })
            &&& rank(c.state) == rank(refused) - 1
            &&& c.calls == way.subrange(rank(state), rank(refused))
        }),
{
    reveal_with_fuel(connection, 4);
    let way = seq![reset_to_init(qp, ep), init_to_rtr(qp, ep), rtr_to_rts(qp, ep)];
    let c = connection(ConnectStage::ToInit, state, qp, ep, reply);
    assert(reply(QpState::Init).0 == 0 || rank(refused) == 1 || rank(state) >= 1);
    assert(reply(QpState::Rtr).0 == 0 || rank(refused) <= 2 || rank(state) >= 2);
    assert(c.calls =~= way.subrange(rank(state), rank(refused)));
}

/// Every transition is one of the queue pair itself, to the state that its
/// name says.
pub proof fn law_transitions_lead_to_their_states(qp: QpView, ep: QpEndpoint)
    ensures
        reset_to_init(qp, ep).attr.qp_state == QpState::Init.code(),
        init_to_rtr(qp, ep).attr.qp_state == QpState::Rtr.code(),
        rtr_to_rts(qp, ep).attr.qp_state == QpState::Rts.code(),
        reset_to_init(qp, ep).qp == qp.created.qp,
        init_to_rtr(qp, ep).qp == qp.created.qp,
        rtr_to_rts(qp, ep).qp == qp.created.qp,
{
}

/// Attributes that no transition sets are zero, each of them.
pub proof fn law_zeroed_attributes_are_zero(r: QpAttr)
    requires
        call_ensures(QpAttr::zeroed, (), r),
    ensures
        r == QpAttr::zero(),
        r.qp_state == 0,
        r.path_mtu == 0,
        r.qkey == 0,
        r.rq_psn == 0,
        r.sq_psn == 0,
        r.dest_qp_num == 0,
        r.qp_access_flags == 0,
        r.pkey_index == 0,
        r.max_rd_atomic == 0,
        r.max_dest_rd_atomic == 0,
        r.min_rnr_timer == 0,
        r.port_num == 0,
        r.timeout == 0,
        r.retry_cnt == 0,
        r.rnr_retry == 0,
        forall|i: int| 0 <= i < 16 ==> #[trigger] r.ah_attr.grh.dgid.raw@[i] == 0,
        r.ah_attr.grh.flow_label == 0,
        r.ah_attr.grh.sgid_index == 0,
        r.ah_attr.grh.hop_limit == 0,
        r.ah_attr.grh.traffic_class == 0,
        r.ah_attr.dlid == 0,
        r.ah_attr.sl == 0,
        r.ah_attr.src_path_bits == 0,
        r.ah_attr.static_rate == 0,
        r.ah_attr.is_global == 0,
        r.ah_attr.port_num == 0,
{
}

/// The call to init is one of the queue pair itself and takes the port of the
/// endpoint and the first partition. A reliable connection lets its peer write,
/// read and do atomics, and has no queue key; a datagram queue pair takes the
/// queue key of the endpoint and grants nothing. No other attribute is set.
pub proof fn law_init_takes_port_and_rights(qp: Qp<'_>, ep: QpEndpoint, r: ModifyQp)
    requires
        call_ensures(Qp::modify_reset_to_init, (&qp, &ep), r),
        qp@.created.qp_type == 2 || qp@.created.qp_type == 4,
    ensures
        r.qp == qp@.created.qp,
        r.attr.qp_state == 1,
        r.attr.port_num == ep.port_num,
        r.attr.pkey_index == 0,
        qp@.created.qp_type == 2 ==> {
            &&& r.attr.qp_access_flags == 0x2 + 0x4 + 0x8
            &&& r.attr.qkey == 0
            &&& r.attr_mask == 0x1 + 0x8 + 0x10 + 0x20
        },
        qp@.created.qp_type == 4 ==> {
            &&& r.attr.qp_access_flags == 0
            &&& r.attr.qkey == ep.qkey
            &&& r.attr_mask == 0x1 + 0x10 + 0x20 + 0x40
        },
        r.attr.path_mtu == 0,
        r.attr.rq_psn == 0,
        r.attr.sq_psn == 0,
        r.attr.dest_qp_num == 0,
        r.attr.ah_attr == QpAttr::zero().ah_attr,
        r.attr.max_rd_atomic == 0,
        r.attr.max_dest_rd_atomic == 0,
        r.attr.min_rnr_timer == 0,
        r.attr.timeout == 0,
        r.attr.retry_cnt == 0,
        r.attr.rnr_retry == 0,
{
    assert((IBV_ACCESS_REMOTE_WRITE | IBV_ACCESS_REMOTE_READ | IBV_ACCESS_REMOTE_ATOMIC) == 0xe)
        by (bit_vector);
    assert(((IBV_QP_STATE | IBV_QP_PKEY_INDEX | IBV_QP_PORT | IBV_QP_ACCESS_FLAGS) as i32) == 0x39)
        by (bit_vector);
    assert(((IBV_QP_STATE | IBV_QP_PKEY_INDEX | IBV_QP_PORT | IBV_QP_QKEY) as i32) == 0x71)
        by (bit_vector);
}

/// The call to ready-to-receive is one of the queue pair itself. For a reliable
/// connection it carries the active MTU of the queue pair's own device as the
/// path MTU, the endpoint's number as the destination and its packet number as
/// the one to expect, and the address of the endpoint from the GID entry and
/// the port of the own device. A datagram queue pair only changes its state.
pub proof fn law_ready_to_receive_takes_the_path(qp: Qp<'_>, ep: QpEndpoint, r: ModifyQp)
    requires
        call_ensures(Qp::modify_init_to_rtr, (&qp, &ep), r),
        qp@.created.qp_type == 2 || qp@.created.qp_type == 4,
    ensures
        r.qp == qp@.created.qp,
        r.attr.qp_state == 2,
        qp@.created.qp_type == 2 ==> {
            &&& r.attr.path_mtu == qp@.pd.ctx.active_mtu
            &&& r.attr.dest_qp_num == ep.qpn
            &&& r.attr.rq_psn == ep.psn
            &&& r.attr.max_dest_rd_atomic == 16
            &&& r.attr.min_rnr_timer == 12
            &&& r.attr.ah_attr.grh.dgid == ep.gid
            &&& r.attr.ah_attr.grh.sgid_index == qp@.pd.ctx.gid_index
            &&& r.attr.ah_attr.grh.hop_limit == 255
            &&& r.attr.ah_attr.grh.flow_label == 0
            &&& r.attr.ah_attr.grh.traffic_class == 0
            &&& r.attr.ah_attr.dlid == ep.lid
            &&& r.attr.ah_attr.port_num == qp@.pd.ctx.port_num
            &&& r.attr.ah_attr.is_global == 1
            &&& r.attr.ah_attr.sl == 0
            &&& r.attr.ah_attr.src_path_bits == 0
            &&& r.attr.ah_attr.static_rate == 0
            &&& r.attr_mask == 0x1 + 0x80 + 0x100 + 0x1000 + 0x8000 + 0x2_0000 + 0x10_0000
        },
        qp@.created.qp_type == 4 ==> {
            &&& r.attr.path_mtu == 0
            &&& r.attr.dest_qp_num == 0
            &&& r.attr.rq_psn == 0
            &&& r.attr.max_dest_rd_atomic == 0
            &&& r.attr.min_rnr_timer == 0
            &&& r.attr.ah_attr == QpAttr::zero().ah_attr
            &&& r.attr_mask == 0x1
        },
        r.attr.qkey == 0,
        r.attr.sq_psn == 0,
        r.attr.qp_access_flags == 0,
        r.attr.pkey_index == 0,
        r.attr.max_rd_atomic == 0,
        r.attr.port_num == 0,
        r.attr.timeout == 0,
        r.attr.retry_cnt == 0,
        r.attr.rnr_retry == 0,
{
    assert(((IBV_QP_STATE | IBV_QP_AV | IBV_QP_PATH_MTU | IBV_QP_DEST_QPN | IBV_QP_RQ_PSN
        | IBV_QP_MAX_DEST_RD_ATOMIC | IBV_QP_MIN_RNR_TIMER) as i32) == 0x12_9181) by (bit_vector);
    assert((IBV_QP_STATE as i32) == 0x1) by (bit_vector);
}

/// Queue pairs on devices whose active MTUs differ are told different path
/// MTUs, whatever endpoints they are connected to.
pub proof fn law_path_mtu_follows_the_device(
    a: Qp<'_>,
    b: Qp<'_>,
    to: QpEndpoint,
    ep: QpEndpoint,
    r: ModifyQp,
    s: ModifyQp,
)
    requires
        call_ensures(Qp::modify_init_to_rtr, (&a, &to), r),
        call_ensures(Qp::modify_init_to_rtr, (&b, &ep), s),
        a@.created.qp_type == 2,
        b@.created.qp_type == 2,
    ensures
        r.attr.path_mtu == s.attr.path_mtu <==> a@.pd.ctx.active_mtu == b@.pd.ctx.active_mtu,
{
}

/// The call to ready-to-send is one of the queue pair itself and starts at the
/// packet number of the endpoint. A reliable connection also learns how many
/// reads and atomics it may have under way, how long to wait and how often to
/// retry. No other attribute is set.
pub proof fn law_ready_to_send_takes_the_first_packet(qp: Qp<'_>, ep: QpEndpoint, r: ModifyQp)
    requires
        call_ensures(Qp::modify_rtr_to_rts, (&qp, &ep), r),
        qp@.created.qp_type == 2 || qp@.created.qp_type == 4,
    ensures
        r.qp == qp@.created.qp,
        r.attr.qp_state == 3,
        r.attr.sq_psn == ep.psn,
        qp@.created.qp_type == 2 ==> {
            &&& r.attr.max_rd_atomic == 16
            &&& r.attr.timeout == 14
            &&& r.attr.retry_cnt == 6
            &&& r.attr.rnr_retry == 6
            &&& r.attr_mask == 0x1 + 0x200 + 0x400 + 0x800 + 0x2000 + 0x1_0000
        },
        qp@.created.qp_type == 4 ==> {
            &&& r.attr.max_rd_atomic == 0
            &&& r.attr.timeout == 0
            &&& r.attr.retry_cnt == 0
            &&& r.attr.rnr_retry == 0
            &&& r.attr_mask == 0x1 + 0x1_0000
        },
        r.attr.path_mtu == 0,
        r.attr.qkey == 0,
        r.attr.rq_psn == 0,
        r.attr.dest_qp_num == 0,
        r.attr.qp_access_flags == 0,
        r.attr.ah_attr == QpAttr::zero().ah_attr,
        r.attr.pkey_index == 0,
        r.attr.max_dest_rd_atomic == 0,
        r.attr.min_rnr_timer == 0,
        r.attr.port_num == 0,
{
    assert(((IBV_QP_STATE | IBV_QP_SQ_PSN | IBV_QP_MAX_QP_RD_ATOMIC | IBV_QP_TIMEOUT
        | IBV_QP_RETRY_CNT | IBV_QP_RNR_RETRY) as i32) == 0x1_2e01) by (bit_vector);
    assert(((IBV_QP_STATE | IBV_QP_SQ_PSN) as i32) == 0x1_0001) by (bit_vector);
}

/// A check of a connection asks for a transition exactly if the queue pair is
/// in the state that the check looks for, and then for the one that leads a
/// single state further. The checks follow each other in that order.
pub proof fn law_checks_look_for_their_state(
    stage: ConnectStage,
    state: QpState,
    qp: Qp<'_>,
    ep: QpEndpoint,
)
    ensures
        ({
            let due = match stage {
                ConnectStage::ToInit => state == QpState::Reset,
                ConnectStage::ToRtr => state == QpState::Init,
                ConnectStage::ToRts => state == QpState::Rtr,
                ConnectStage::Connected => false,
            };
            match stage.transition(state, qp@, ep) {
                None => !due,
                Some(call) => {
                    &&& due
                    &&& call.qp == qp@.created.qp
                    &&& call.attr.qp_state == state.code() + 1
                    &&& stage == ConnectStage::ToInit ==> call == reset_to_init(qp@, ep)
                    &&& stage == ConnectStage::ToRtr ==> call == init_to_rtr(qp@, ep)
                    &&& stage == ConnectStage::ToRts ==> call == rtr_to_rts(qp@, ep)
                },
            }
        }),
        ConnectStage::ToInit.next() == ConnectStage::ToRtr,
        ConnectStage::ToRtr.next() == ConnectStage::ToRts,
        ConnectStage::ToRts.next() == ConnectStage::Connected,
        ConnectStage::Connected.next() == ConnectStage::Connected,
{
}

} // verus!
