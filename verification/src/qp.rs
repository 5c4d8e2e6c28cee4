//! Queue pairs and their attributes.

use std::sync::Arc;

use vstd::prelude::*;
use vstd::std_specs::convert::FromSpecImpl;

use crate::cq::{arc_clone, Cq};
use crate::device::{Gid, Pd};
use crate::sys::{
    OsError, IBV_QPS_ERR, IBV_QPS_INIT, IBV_QPS_RESET, IBV_QPS_RTR, IBV_QPS_RTS, IBV_QPT_RC,
    IBV_QPT_UD,
};

verus! {

/// Queue pair type.
#[derive(Debug, Clone, Copy, PartialEq, Eq, Structural)]
pub enum QpType {
    /// Reliable connection
    RC,
    /// Unreliable datagram
    UD,
}

impl From<QpType> for u32 {
    fn from(qp_type: QpType) -> (r: Self) {
        match qp_type {
            QpType::RC => IBV_QPT_RC,
            QpType::UD => IBV_QPT_UD,
        }
    }
}

impl FromSpecImpl<QpType> for u32 {
    open spec fn obeys_from_spec() -> bool {
        true
    }

    open spec fn from_spec(qp_type: QpType) -> Self {
        qp_type.code()
    }
}

impl QpType {
    /// The type as a number of the verbs interface.
    pub open spec fn code(self) -> u32 {
        match self {
            QpType::RC => IBV_QPT_RC,
            QpType::UD => IBV_QPT_UD,
        }
    }

    /// The type with the number `code`, if there is one.
    pub open spec fn of_code(code: u32) -> Option<QpType> {
        if code == IBV_QPT_RC {
            Some(QpType::RC)
        } else if code == IBV_QPT_UD {
            Some(QpType::UD)
        } else {
            None
        }
    }

    /// The type with the number `code`, if there is one.
    pub fn from_code(code: u32) -> (r: Option<QpType>)
        ensures
            r == QpType::of_code(code),
    {
        if code == IBV_QPT_RC {
            Some(QpType::RC)
        } else if code == IBV_QPT_UD {
            Some(QpType::UD)
        } else {
            None
        }
    }

    /// The type with the number `code`, which must be that of one.
    pub fn from(code: u32) -> (r: QpType)
        requires
            QpType::of_code(code) is Some,
        ensures
            Some(r) == QpType::of_code(code),
    {
        if code == IBV_QPT_RC {
            QpType::RC
        } else {
            QpType::UD
        }
    }
}

/// Queue pair state.
#[derive(Debug, Clone, Copy, PartialEq, Eq, Structural)]
pub enum QpState {
    /// Reset
    Reset,
    /// Init
    Init,
    /// Ready to receive
    Rtr,
    /// Ready to send
    Rts,
    /// Error
    Error,
}

impl From<QpState> for u32 {
    fn from(qp_state: QpState) -> (r: Self) {
        match qp_state {
            QpState::Reset => IBV_QPS_RESET,
            QpState::Init => IBV_QPS_INIT,
            QpState::Rtr => IBV_QPS_RTR,
            QpState::Rts => IBV_QPS_RTS,
            QpState::Error => IBV_QPS_ERR,
        }
    }
}

impl FromSpecImpl<QpState> for u32 {
    open spec fn obeys_from_spec() -> bool {
        true
    }

    open spec fn from_spec(qp_state: QpState) -> Self {
        qp_state.code()
    }
}

impl QpState {
    /// The state as a number of the verbs interface.
    pub open spec fn code(self) -> u32 {
        match self {
            QpState::Reset => IBV_QPS_RESET,
            QpState::Init => IBV_QPS_INIT,
            QpState::Rtr => IBV_QPS_RTR,
            QpState::Rts => IBV_QPS_RTS,
            QpState::Error => IBV_QPS_ERR,
        }
    }

    /// The state with the number `code`, if the library knows it.
    pub open spec fn of_code(code: u32) -> Option<QpState> {
        if code == IBV_QPS_RESET {
            Some(QpState::Reset)
        } else if code == IBV_QPS_INIT {
            Some(QpState::Init)
        } else if code == IBV_QPS_RTR {
            Some(QpState::Rtr)
        } else if code == IBV_QPS_RTS {
            Some(QpState::Rts)
        } else if code == IBV_QPS_ERR {
            Some(QpState::Error)
        } else {
            None
        }
    }

    /// The state with the number `code`, if the library knows it.
    pub fn from_code(code: u32) -> (r: Option<QpState>)
        ensures
            r == QpState::of_code(code),
    {
        if code == IBV_QPS_RESET {
            Some(QpState::Reset)
        } else if code == IBV_QPS_INIT {
            Some(QpState::Init)
        } else if code == IBV_QPS_RTR {
            Some(QpState::Rtr)
        } else if code == IBV_QPS_RTS {
            Some(QpState::Rts)
        } else if code == IBV_QPS_ERR {
            Some(QpState::Error)
        } else {
            None
        }
    }

    /// The state with the number `code`, which must be that of one.
    pub fn from(code: u32) -> (r: QpState)
        requires
            QpState::of_code(code) is Some,
        ensures
            Some(r) == QpState::of_code(code),
    {
        if code == IBV_QPS_RESET {
            QpState::Reset
        } else if code == IBV_QPS_INIT {
            QpState::Init
        } else if code == IBV_QPS_RTR {
            QpState::Rtr
        } else if code == IBV_QPS_RTS {
            QpState::Rts
        } else {
            QpState::Error
        }
    }
}

/// A queue pair type and its number determine each other.
pub proof fn law_qp_type_round_trip(qp_type: QpType, code: u32)
    ensures
        QpType::of_code(qp_type.code()) == Some(qp_type),
        QpType::of_code(code) matches Some(t) ==> t.code() == code,
{
}

/// A queue pair state and its number determine each other.
pub proof fn law_qp_state_round_trip(qp_state: QpState, code: u32)
    ensures
        QpState::of_code(qp_state.code()) == Some(qp_state),
        QpState::of_code(code) matches Some(s) ==> s.code() == code,
{
}

/// Queue pair capability attributes.
#[derive(Debug, Clone, Copy, PartialEq, Eq, Structural)]
pub struct QpCaps {
    /// The maximum number of outstanding work requests that can be posted to
    /// the send queue.
    pub max_send_wr: u32,
    /// The maximum number of outstanding work requests that can be posted to
    /// the receive queue. Ignored if the queue pair is associated with an SRQ.
    pub max_recv_wr: u32,
    /// The maximum number of scatter/gather elements in any work request that
    /// can be posted to the send queue.
    pub max_send_sge: u32,
    /// The maximum number of scatter/gather elements in any work request that
    /// can be posted to the receive queue. Ignored if the queue pair is
    /// associated with an SRQ.
    pub max_recv_sge: u32,
    /// The maximum message size (in bytes) that can be posted inline to the
    /// send queue. If no inline message is requested, the value can be 0.
    pub max_inline_data: u32,
}

/// The default queue pair can:
/// - maintain up to 128 outstanding send/recv work requests each,
/// - set a SGE of up to 16 entries per send/recv work request, and
/// - send up to 64 bytes of inline data.
impl Default for QpCaps {
    fn default() -> (r: Self)
        ensures
            r == (QpCaps {
                max_send_wr: 128,
                max_recv_wr: 128,
                max_send_sge: 16,
                max_recv_sge: 16,
                max_inline_data: 64,
            }),
    {
        QpCaps {
            max_send_wr: 128,
            max_recv_wr: 128,
            max_send_sge: 16,
            max_recv_sge: 16,
            max_inline_data: 64,
        }
    }
}

impl QpCaps {
    pub fn new(
        max_send_wr: u32,
        max_recv_wr: u32,
        max_send_sge: u32,
        max_recv_sge: u32,
        max_inline_data: u32,
    ) -> (r: Self)
        ensures
            r == (QpCaps {
                max_send_wr,
                max_recv_wr,
                max_send_sge,
                max_recv_sge,
                max_inline_data,
            }),
    {
        QpCaps { max_send_wr, max_recv_wr, max_send_sge, max_recv_sge, max_inline_data }
    }
}

/// Queue pair initialization attributes.
pub struct QpInitAttr {
    pub send_cq: Arc<Cq>,
    pub recv_cq: Arc<Cq>,
    pub cap: QpCaps,
    pub qp_type: QpType,
    pub sq_sig_all: bool,
}

impl Clone for QpInitAttr {
    fn clone(&self) -> (r: Self)
        ensures
            r == *self,
    {
        QpInitAttr {
            send_cq: arc_clone(&self.send_cq),
            recv_cq: arc_clone(&self.recv_cq),
            cap: self.cap,
            qp_type: self.qp_type,
            sq_sig_all: self.sq_sig_all,
        }
    }
}

impl QpInitAttr {
    /// The attributes as `ibv_create_qp` takes them.
    pub open spec fn ibv(self) -> IbvQpInitAttr {
        IbvQpInitAttr {
            qp_context: 0,
            send_cq: self.send_cq@.raw,
            recv_cq: self.recv_cq@.raw,
            srq: 0,
            cap: self.cap,
            qp_type: self.qp_type.code(),
            sq_sig_all: if self.sq_sig_all {
                1
            } else {
                0
            },
        }
    }

    pub fn new(
        send_cq: Arc<Cq>,
        recv_cq: Arc<Cq>,
        cap: QpCaps,
        qp_type: QpType,
        sq_sig_all: bool,
    ) -> (r: Self)
        ensures
            r == (QpInitAttr { send_cq, recv_cq, cap, qp_type, sq_sig_all }),
    {
        QpInitAttr { send_cq, recv_cq, cap, qp_type, sq_sig_all }
    }
}

/// Queue pair initialization attributes as `ibv_create_qp` takes them, with
/// pointers by their addresses.
#[derive(Debug, Clone, Copy, PartialEq, Eq, Structural)]
pub struct IbvQpInitAttr {
    pub qp_context: usize,
    pub send_cq: usize,
    pub recv_cq: usize,
    pub srq: usize,
    pub cap: QpCaps,
    pub qp_type: u32,
    pub sq_sig_all: i32,
}

impl From<QpInitAttr> for IbvQpInitAttr {
    fn from(value: QpInitAttr) -> (r: Self) {
        IbvQpInitAttr {
            qp_context: 0,
            send_cq: value.send_cq.as_raw(),
            recv_cq: value.recv_cq.as_raw(),
            srq: 0,
            cap: value.cap,
            qp_type: <u32 as From<QpType>>::from(value.qp_type),
            sq_sig_all: if value.sq_sig_all {
                1
            } else {
                0
            },
        }
    }
}

impl FromSpecImpl<QpInitAttr> for IbvQpInitAttr {
    open spec fn obeys_from_spec() -> bool {
        true
    }

    open spec fn from_spec(value: QpInitAttr) -> Self {
        value.ibv()
    }
}

/// Endpoint (NIC port & queue pair) data.
#[derive(Debug, Clone, Copy, PartialEq, Eq)]
pub struct QpEndpoint {
    pub gid: Gid,
    pub port_num: u8,
    pub lid: u16,
    pub qpn: u32,
    pub psn: u32,
    pub qkey: u32,
}

impl QpEndpoint {
    pub fn new(gid: Gid, port_num: u8, lid: u16, qpn: u32, psn: u32, qkey: u32) -> (r: Self)
        ensures
            r == (QpEndpoint { gid, port_num, lid, qpn, psn, qkey }),
    {
        QpEndpoint { gid, port_num, lid, qpn, psn, qkey }
    }
}

/// Global routing header of an address, as the verbs interface takes it.
#[derive(Debug, Clone, Copy, PartialEq, Eq)]
pub struct GlobalRoute {
    pub dgid: Gid,
    pub flow_label: u32,
    pub sgid_index: u8,
    pub hop_limit: u8,
    pub traffic_class: u8,
}

/// An address, as the verbs interface takes it.
#[derive(Debug, Clone, Copy, PartialEq, Eq)]
pub struct AhAttr {
    pub grh: GlobalRoute,
    pub dlid: u16,
    pub sl: u8,
    pub src_path_bits: u8,
    pub static_rate: u8,
    pub is_global: u8,
    pub port_num: u8,
}

/// The address at `gid` and `lid`, reached from the entry `sgid_index` of the
/// GID table by the port `port_num`.
pub open spec fn global_address(gid: Gid, sgid_index: u8, lid: u16, port_num: u8) -> AhAttr {
    AhAttr {
        grh: GlobalRoute {
            dgid: gid,
            flow_label: 0,
            sgid_index,
            hop_limit: 0xFF,
            traffic_class: 0,
        },
        dlid: lid,
        sl: 0,
        src_path_bits: 0,
        static_rate: 0,
        is_global: 1,
        port_num,
    }
}

/// A call of `ibv_create_ah`.
#[derive(Debug, Clone, Copy, PartialEq, Eq)]
pub struct CreateAh {
    /// Address of the protection domain.
    pub pd: usize,
    pub attr: AhAttr,
    /// The endpoint that is addressed.
    pub ep: QpEndpoint,
}

/// The call that makes an address handle of `ep` in `pd`.
pub open spec fn create_ah(pd: Pd, ep: QpEndpoint) -> CreateAh {
    CreateAh {
        pd: pd.raw,
        attr: global_address(ep.gid, pd.ctx.gid_index, ep.lid, ep.port_num),
        ep,
    }
}

impl CreateAh {
    /// The peer with the address handle at `ah`, which is zero if the call
    /// failed; `errno` is the code that the call left behind.
    pub fn complete(self, ah: usize, errno: i32) -> (r: Result<QpPeer, OsError>)
        ensures
            ah != 0 ==> r == Ok::<QpPeer, OsError>(QpPeer { ah, ep: self.ep }),
            ah == 0 ==> r == Err::<QpPeer, OsError>(OsError { code: errno }),
    {
        if ah == 0 {
            Err(OsError { code: errno })
        } else {
            Ok(QpPeer { ah, ep: self.ep })
        }
    }
}

/// Peer queue pair information that can be used in sends.
#[derive(Debug, PartialEq, Eq)]
pub struct QpPeer {
    /// Address of the address handle.
    pub ah: usize,
    pub ep: QpEndpoint,
}

impl QpPeer {
    /// The peer as the target of a datagram.
    pub open spec fn ud(self) -> UdAddr {
        UdAddr { ah: self.ah, remote_qpn: self.ep.qpn, remote_qkey: self.ep.qkey }
    }

    /// Makes a peer of `ep`: the call to make.
    pub fn new(pd: &Pd, ep: QpEndpoint) -> (r: CreateAh)
        ensures
            r == create_ah(*pd, ep),
    {
        CreateAh {
            pd: pd.raw,
            attr: AhAttr {
                grh: GlobalRoute {
                    dgid: ep.gid,
                    flow_label: 0,
                    sgid_index: pd.ctx.gid_index,
                    hop_limit: 0xFF,
                    traffic_class: 0,
                },
                dlid: ep.lid,
                sl: 0,
                src_path_bits: 0,
                static_rate: 0,
                is_global: 1,
                port_num: ep.port_num,
            },
            ep,
        }
    }
}

/// The target of a datagram.
#[derive(Debug, Clone, Copy, PartialEq, Eq, Structural)]
pub struct UdAddr {
    /// Address of the address handle.
    pub ah: usize,
    pub remote_qpn: u32,
    pub remote_qkey: u32,
}

impl From<&QpPeer> for UdAddr {
    fn from(peer: &QpPeer) -> (r: Self) {
        UdAddr { ah: peer.ah, remote_qpn: peer.ep.qpn, remote_qkey: peer.ep.qkey }
    }
}

impl FromSpecImpl<&QpPeer> for UdAddr {
    open spec fn obeys_from_spec() -> bool {
        true
    }

    open spec fn from_spec(peer: &QpPeer) -> Self {
        peer.ud()
    }
}

/// A call of `ibv_create_qp`.
pub struct CreateQp<'a> {
    /// The protection domain; its address is handed to the call.
    pub pd: &'a Pd,
    /// The attributes that are handed to the call.
    pub init_attr: IbvQpInitAttr,
    /// The attributes that the queue pair keeps.
    pub attr: QpInitAttr,
}

/// A queue pair that the device has created.
#[derive(Debug, Clone, Copy, PartialEq, Eq, Structural)]
pub struct CreatedQp {
    /// Address of the queue pair; zero if there is none.
    pub qp: usize,
    pub qp_num: u32,
    /// The number of the queue pair's type.
    pub qp_type: u32,
}

impl<'a> CreateQp<'a> {
    /// The queue pair that the call created; `errno` is the code that the call
    /// left behind.
    pub fn complete(self, created: CreatedQp, errno: i32) -> (r: Result<Qp<'a>, OsError>)
        ensures
            match r {
                Ok(qp) => created.qp != 0 && qp@ == (QpView {
                    created,
                    pd: *self.pd,
                    init_attr: self.attr,
                }),
                Err(e) => created.qp == 0 && e == (OsError { code: errno }),
            },
    {
        if created.qp == 0 {
            Err(OsError { code: errno })
        } else {
            Ok(Qp { pd: self.pd, created, init_attr: self.attr })
        }
    }
}

/// Queue pair.
pub struct Qp<'a> {
    pd: &'a Pd,
    created: CreatedQp,
    init_attr: QpInitAttr,
}

/// What a queue pair stands for.
pub struct QpView {
    /// The queue pair as the device created it.
    pub created: CreatedQp,
    /// The protection domain that it belongs to.
    pub pd: Pd,
    /// The attributes that it was created with.
    pub init_attr: QpInitAttr,
}

impl QpView {
    /// Whether the type of the queue pair is one that the library knows.
    pub open spec fn known_type(self) -> bool {
        QpType::of_code(self.created.qp_type) is Some
    }

    /// The type of the queue pair.
    pub open spec fn qp_type(self) -> QpType {
        QpType::of_code(self.created.qp_type)->0
    }

    /// The endpoint that peers reach the queue pair at.
    pub open spec fn endpoint(self) -> QpEndpoint {
        QpEndpoint {
            gid: self.pd.ctx.gid,
            port_num: self.pd.ctx.port_num,
            lid: self.pd.ctx.lid,
            qpn: self.created.qp_num,
            psn: 0,
            qkey: GLOBAL_QKEY,
        }
    }
}

impl<'a> View for Qp<'a> {
    type V = QpView;

    closed spec fn view(&self) -> QpView {
        QpView { created: self.created, pd: *self.pd, init_attr: self.init_attr }
    }
}

/// The queue key of all queue pairs.
pub const GLOBAL_QKEY: u32 = 0x11111111;

impl<'a> From<&Qp<'a>> for QpEndpoint {
    fn from(qp: &Qp<'a>) -> (r: Self) {
        QpEndpoint {
            gid: qp.pd().ctx.gid,
            port_num: qp.pd().ctx.port_num,
            lid: qp.pd().ctx.lid,
            qpn: qp.qp_num(),
            psn: 0,
            qkey: GLOBAL_QKEY,
        }
    }
}

impl<'a> FromSpecImpl<&Qp<'a>> for QpEndpoint {
    open spec fn obeys_from_spec() -> bool {
        true
    }

    open spec fn from_spec(qp: &Qp<'a>) -> Self {
        qp@.endpoint()
    }
}

impl<'a> Qp<'a> {
    /// Creates a queue pair: the call to make.
    pub fn new(pd: &'a Pd, attr: QpInitAttr) -> (r: CreateQp<'a>)
        ensures
            r == (CreateQp { pd, init_attr: attr.ibv(), attr }),
    {
        CreateQp { pd, init_attr: IbvQpInitAttr::from(attr.clone()), attr }
    }

    /// The address of the underlying queue pair.
    pub fn as_ptr(&self) -> (r: usize)
        ensures
            r == self@.created.qp,
    {
        self.created.qp
    }

    /// The protection domain of the queue pair.
    pub fn pd(&self) -> (r: &Pd)
        ensures
            *r == self@.pd,
    {
        self.pd
    }

    /// The type of the queue pair, which must be one that the library knows.
    pub fn qp_type(&self) -> (r: QpType)
        requires
            self@.known_type(),
        ensures
            r == self@.qp_type(),
    {
        QpType::from(self.created.qp_type)
    }

    /// The number of the queue pair.
    pub fn qp_num(&self) -> (r: u32)
        ensures
            r == self@.created.qp_num,
    {
        self.created.qp_num
    }

    /// The state of the queue pair. `code` is the state's number as the
    /// device reports it now, which must be one that the library knows.
    pub fn state(&self, code: u32) -> (r: QpState)
        requires
            QpState::of_code(code) is Some,
        ensures
            Some(r) == QpState::of_code(code),
    {
        QpState::from(code)
    }

    /// The send completion queue.
    pub fn scq(&self) -> (r: Arc<Cq>)
        ensures
            r == self@.init_attr.send_cq,
    {
        arc_clone(&self.init_attr.send_cq)
    }

    /// The receive completion queue.
    pub fn rcq(&self) -> (r: Arc<Cq>)
        ensures
            r == self@.init_attr.recv_cq,
    {
        arc_clone(&self.init_attr.recv_cq)
    }

    /// The send completion queue, borrowed.
    pub fn scq_as_ref(&self) -> (r: &Cq)
        ensures
            *r == *self@.init_attr.send_cq,
    {
        &self.init_attr.send_cq
    }

    /// The receive completion queue, borrowed.
    pub fn rcq_as_ref(&self) -> (r: &Cq)
        ensures
            *r == *self@.init_attr.recv_cq,
    {
        &self.init_attr.recv_cq
    }
}

/// A queue pair type has the number that the verbs interface gives it, and a
/// number is that of the type whose number it is.
pub proof fn law_qp_types_have_their_numbers(qp_type: QpType, code: u32, r: u32, back: QpType)
    requires
        call_ensures(<u32 as From<QpType>>::from, (qp_type,), r),
        code == 2 || code == 4,
        call_ensures(QpType::from, (code,), back),
    ensures
        r == qp_type.code(),
        r == (match qp_type {
            QpType::RC => 2u32,
            QpType::UD => 4u32,
        }),
        back == QpType::RC <==> code == 2,
        back == QpType::UD <==> code == 4,
        QpType::of_code(code) == Some(back),
        call_requires(QpType::from, (code,)),
{
}

/// A queue pair state has the number that the verbs interface gives it, and a
/// number is that of the state whose number it is.
pub proof fn law_qp_states_have_their_numbers(
    qp_state: QpState,
    code: u32,
    r: u32,
    back: QpState,
)
    requires
        call_ensures(<u32 as From<QpState>>::from, (qp_state,), r),
        code <= 3 || code == 6,
        call_ensures(QpState::from, (code,), back),
    ensures
        r == qp_state.code(),
        r == (match qp_state {
            QpState::Reset => 0u32,
            QpState::Init => 1u32,
            QpState::Rtr => 2u32,
            QpState::Rts => 3u32,
            QpState::Error => 6u32,
        }),
        back.code() == code,
        call_requires(QpState::from, (code,)),
{
}

/// A number that is that of no type, or of no state that the library knows, is
/// taken for none.
pub proof fn law_other_numbers_are_refused(
    code: u32,
    qp_type: Option<QpType>,
    qp_state: Option<QpState>,
)
    requires
        call_ensures(QpType::from_code, (code,), qp_type),
        call_ensures(QpState::from_code, (code,), qp_state),
    ensures
        qp_type is Some <==> code == 2 || code == 4,
        qp_type matches Some(t) ==> t.code() == code,
        qp_state is Some <==> code <= 3 || code == 6,
        qp_state matches Some(s) ==> s.code() == code,
{
}

/// The device is asked for what the caller asked for: each capability is that
/// of the same name, each completion queue the one for its direction, the type
/// the number of the type, and the signalling that of the caller. There is
/// neither a user pointer nor a shared receive queue.
pub proof fn law_creation_asks_for_the_attributes(attr: QpInitAttr, r: IbvQpInitAttr)
    requires
        call_ensures(<IbvQpInitAttr as From<QpInitAttr>>::from, (attr,), r),
    ensures
        r == attr.ibv(),
        r.cap.max_send_wr == attr.cap.max_send_wr,
        r.cap.max_recv_wr == attr.cap.max_recv_wr,
        r.cap.max_send_sge == attr.cap.max_send_sge,
        r.cap.max_recv_sge == attr.cap.max_recv_sge,
        r.cap.max_inline_data == attr.cap.max_inline_data,
        r.send_cq == attr.send_cq@.raw,
        r.recv_cq == attr.recv_cq@.raw,
        r.qp_type == (match attr.qp_type {
            QpType::RC => 2u32,
            QpType::UD => 4u32,
        }),
        r.sq_sig_all == (if attr.sq_sig_all {
            1i32
        } else {
            0i32
        }),
        r.qp_context == 0,
        r.srq == 0,
{
}

/// A queue pair that was created is the one that the call returned, in the
/// domain and with the completion queues that the caller named, each for its
/// direction. There is none exactly if the call returned no address; then
/// `errno` tells why.
pub proof fn law_created_queue_pair_is_the_returned_one<'a>(
    pd: &'a Pd,
    attr: QpInitAttr,
    call: CreateQp<'a>,
    created: CreatedQp,
    errno: i32,
    r: Result<Qp<'a>, OsError>,
)
    requires
        call_ensures(Qp::<'a>::new, (pd, attr), call),
        call_ensures(CreateQp::<'a>::complete, (call, created, errno), r),
    ensures
        *call.pd == *pd,
        call.init_attr == attr.ibv(),
        r is Ok <==> created.qp != 0,
        r matches Err(e) ==> e.code == errno,
        r matches Ok(qp) ==> {
            &&& forall|p: usize| #[trigger]
                call_ensures(Qp::<'a>::as_ptr, (&qp,), p) ==> p == created.qp
            &&& forall|n: u32| #[trigger]
                call_ensures(Qp::<'a>::qp_num, (&qp,), n) ==> n == created.qp_num
            &&& forall|d: &Pd| #[trigger] call_ensures(Qp::<'a>::pd, (&qp,), d) ==> *d == *pd
            &&& forall|cq: Arc<Cq>| #[trigger]
                call_ensures(Qp::<'a>::scq, (&qp,), cq) ==> cq == attr.send_cq
            &&& forall|cq: Arc<Cq>| #[trigger]
                call_ensures(Qp::<'a>::rcq, (&qp,), cq) ==> cq == attr.recv_cq
            &&& forall|cq: &Cq| #[trigger]
                call_ensures(Qp::<'a>::scq_as_ref, (&qp,), cq) ==> *cq == *attr.send_cq
            &&& forall|cq: &Cq| #[trigger]
                call_ensures(Qp::<'a>::rcq_as_ref, (&qp,), cq) ==> *cq == *attr.recv_cq
            &&& created.qp_type == 2 ==> qp@.known_type() && qp@.qp_type() == QpType::RC
            &&& created.qp_type == 4 ==> qp@.known_type() && qp@.qp_type() == QpType::UD
        },
{
}

/// The endpoint of a queue pair is the port that its domain's device uses, with
/// the number of the queue pair itself. Packet numbers start at zero, and the
/// queue key is the same for all.
pub proof fn law_endpoint_is_where_peers_reach_it(qp: Qp<'_>, other: Qp<'_>, r: QpEndpoint)
    requires
        call_ensures(<QpEndpoint as From<&Qp<'_>>>::from, (&qp,), r),
    ensures
        r == qp@.endpoint(),
        r.gid == qp@.pd.ctx.gid,
        r.port_num == qp@.pd.ctx.port_num,
        r.lid == qp@.pd.ctx.lid,
        r.qpn == qp@.created.qp_num,
        r.psn == 0,
        r.qkey == 0x1111_1111,
        r.qkey == other@.endpoint().qkey,
{
}

/// An address handle is made in the domain that was named, for the endpoint
/// that was named: it leads to the endpoint's identifiers by the endpoint's
/// port, from the entry of the GID table that the domain's device uses, over
/// any number of hops. The peer has that handle and that endpoint.
pub proof fn law_address_leads_to_the_endpoint(
    pd: Pd,
    ep: QpEndpoint,
    call: CreateAh,
    ah: usize,
    errno: i32,
    r: Result<QpPeer, OsError>,
)
    requires
        call_ensures(QpPeer::new, (&pd, ep), call),
        call_ensures(CreateAh::complete, (call, ah, errno), r),
    ensures
        call.pd == pd.raw,
        call.attr.grh.dgid == ep.gid,
        call.attr.grh.sgid_index == pd.ctx.gid_index,
        call.attr.grh.hop_limit == 255,
        call.attr.grh.flow_label == 0,
        call.attr.grh.traffic_class == 0,
        call.attr.dlid == ep.lid,
        call.attr.port_num == ep.port_num,
        call.attr.is_global == 1,
        call.attr.sl == 0,
        call.attr.src_path_bits == 0,
        call.attr.static_rate == 0,
        r is Ok <==> ah != 0,
        r matches Ok(peer) ==> peer.ah == ah && peer.ep == ep,
        r matches Err(e) ==> e.code == errno,
{
}

/// A datagram goes to the peer by its own address handle, queue pair number and
/// queue key.
pub proof fn law_datagram_is_addressed_to_the_peer(peer: QpPeer, r: UdAddr)
    requires
        call_ensures(<UdAddr as From<&QpPeer>>::from, (&peer,), r),
    ensures
        r == peer.ud(),
        r.ah == peer.ah,
        r.remote_qpn == peer.ep.qpn,
        r.remote_qkey == peer.ep.qkey,
{
}

} // verus!
