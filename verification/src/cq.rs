//! Completion queues.

use std::sync::Arc;

use vstd::prelude::*;
use vstd::std_specs::convert::FromSpecImpl;
use vstd::string::StringExecFns;

use crate::blocking::{Gathering, PollBlocking, PollBlockingInto, PollOneBlocking};
use crate::device::Context;
use crate::ints::{c_int, c_int_to_u32, c_uint, u32_to_c_int};
use crate::poll::{poll_call, PollCq, PollInto};
use crate::sys::OsError;
use crate::text::{append_digits, digits, law_digits_read_as_their_number, reading};
use crate::wc::Wc;

verus! {

/// `Clone::clone` of `Arc`: another pointer to the same value.
#[verifier::external_body]
pub(crate) fn arc_clone<T>(arc: &Arc<T>) -> (r: Arc<T>)
    ensures
        r == *arc,
{
    arc.clone()
}

/// A completion queue by its address; zero is the null pointer.
#[derive(Debug, Clone, Copy, PartialEq, Eq, PartialOrd, Ord, Structural)]
pub struct IbvCq {
    pub addr: usize,
}

/// A call of `ibv_destroy_cq`.
#[derive(Debug, Clone, Copy, PartialEq, Eq, Structural)]
pub struct DestroyCq {
    /// Address of the completion queue.
    pub cq: usize,
}

impl IbvCq {
    /// Destroys the queue. A queue must not be destroyed more than once, nor
    /// used after that.
    pub fn destroy(self) -> (r: DestroyCq)
        ensures
            r == (DestroyCq { cq: self.addr }),
    {
        DestroyCq { cq: self.addr }
    }
}

impl DestroyCq {
    /// The result of the call, which returns zero or an error code.
    pub fn complete(self, ret: i32) -> (r: Result<(), OsError>)
        ensures
            ret == 0 ==> r == Ok::<(), OsError>(()),
            ret != 0 ==> r == Err::<(), OsError>(OsError { code: ret }),
    {
        if ret == 0 {
            Ok(())
        } else {
            Err(OsError { code: ret })
        }
    }
}

/// Why a completion queue could not be created.
#[derive(Debug, Clone, Copy, PartialEq, Eq, Structural)]
pub enum CqCreationError {
    /// `libibverbs` interfaces returned an error.
    IoError(OsError),
    /// The capacity of the CQ is larger than the device's maximum allowed
    /// capacity, which is contained in the error.
    TooManyCqes(u32),
}

impl From<OsError> for CqCreationError {
    fn from(e: OsError) -> (r: Self) {
        CqCreationError::IoError(e)
    }
}

impl FromSpecImpl<OsError> for CqCreationError {
    open spec fn obeys_from_spec() -> bool {
        true
    }

    open spec fn from_spec(e: OsError) -> Self {
        CqCreationError::IoError(e)
    }
}

impl CqCreationError {
    pub open spec fn message_spec(self) -> Seq<char> {
        match self {
            CqCreationError::IoError(_) => "I/O error from ibverbs"@,
            CqCreationError::TooManyCqes(max) => "CQ capacity too large (maximum: "@ + digits(
                max as nat,
                10,
            ) + ")"@,
        }
    }

    /// The error in words.
    pub fn message(&self) -> (r: String)
        ensures
            r@ == self.message_spec(),
    {
        let mut text = String::new();
        match self {
            CqCreationError::IoError(_) => {
                text.append("I/O error from ibverbs");
            },
            CqCreationError::TooManyCqes(max) => {
                text.append("CQ capacity too large (maximum: ");
                append_digits(&mut text, *max as u64, 10);
                text.append(")");
            },
        }
        assert(text@ =~= self.message_spec());
        text
    }
}

/// Optional features of a completion queue.
#[derive(Debug, Clone, Copy, PartialEq, Eq, Structural)]
pub struct CqInitAttr {
    /// Whether the flags count.
    pub with_flags: bool,
    /// The flag for completion timestamps.
    pub timestamp: bool,
}

/// A call that creates a completion queue: `ibv_create_cq`, or
/// `ibv_exp_create_cq` where there are optional features.
#[derive(Debug, Clone, Copy, PartialEq, Eq)]
pub struct CreateCq {
    /// The context of the device; its address is handed to the call.
    pub ctx: Context,
    /// The number of entries, as the call takes it.
    pub cqe: i32,
    /// A pointer for the user, by its address.
    pub cq_context: usize,
    /// Address of the completion event channel.
    pub channel: usize,
    pub comp_vector: i32,
    pub init_attr: Option<CqInitAttr>,
}

/// The largest capacity that the device allows.
pub open spec fn max_capacity(ctx: Context) -> int {
    c_uint(ctx.max_cqe as int)
}

/// What comes of asking `ctx` for a queue of `capacity` entries: the call to
/// make, or an error.
pub open spec fn create_cq(ctx: Context, capacity: u32, init_attr: Option<CqInitAttr>) -> Result<
    CreateCq,
    CqCreationError,
> {
    if capacity > max_capacity(ctx) {
        Err(CqCreationError::TooManyCqes(max_capacity(ctx) as u32))
    } else {
        Ok(
            CreateCq {
                ctx,
                cqe: c_int(capacity as int) as i32,
                cq_context: 0,
                channel: 0,
                comp_vector: 0,
                init_attr,
            },
        )
    }
}

/// A queue is refused without a call exactly if its capacity is over the
/// maximum of the device, and a device that reports its maximum as a
/// nonnegative number is never asked for another capacity than the caller's.
pub proof fn law_capacity_is_bounded(
    ctx: Context,
    capacity: u32,
    init_attr: Option<CqInitAttr>,
)
    requires
        ctx.max_cqe >= 0,
    ensures
        match create_cq(ctx, capacity, init_attr) {
            Ok(call) => capacity <= ctx.max_cqe && call.cqe == capacity,
            Err(e) => capacity > ctx.max_cqe && e == CqCreationError::TooManyCqes(
                ctx.max_cqe as u32,
            ),
        },
{
}

/// A queue belongs to the device context that it was asked of, by all that the
/// library knows of it, its address among them.
pub proof fn law_queue_keeps_its_context(
    ctx: Context,
    capacity: u32,
    init_attr: Option<CqInitAttr>,
    cq: usize,
)
    ensures
        create_cq(ctx, capacity, init_attr) matches Ok(call) ==> call.queue(cq).ctx == ctx
            && call.queue(cq).raw == cq,
{
}

impl CreateCq {
    /// The queue at `cq`, if the call returns that address.
    pub open spec fn queue(self, cq: usize) -> CqView {
        CqView { raw: cq, ctx: self.ctx }
    }

    /// The queue that the call created. `cq` is its address, zero if the call
    /// failed; `errno` is the code that the call left behind.
    pub fn complete(self, cq: usize, errno: i32) -> (r: Result<Cq, CqCreationError>)
        ensures
            match r {
                Ok(queue) => cq != 0 && queue@ == self.queue(cq),
                Err(e) => cq == 0 && e == CqCreationError::IoError(OsError { code: errno }),
            },
    {
        if cq == 0 {
            return Err(CqCreationError::from(OsError { code: errno }));
        }
        let cq = IbvCq { addr: cq };
        Ok(Cq { cq, inner: Arc::new(CqInner { ctx: self.ctx, cq }) })
    }
}

/// What the clones of a completion queue share.
struct CqInner {
    ctx: Context,
    cq: IbvCq,
}

/// Completion queue.
pub struct Cq {
    /// Cached CQ pointer.
    cq: IbvCq,
    /// CQ body.
    inner: Arc<CqInner>,
}

/// What a completion queue stands for.
pub struct CqView {
    /// Address of the queue.
    pub raw: usize,
    /// The device that the queue belongs to.
    pub ctx: Context,
}

impl View for Cq {
    type V = CqView;

    closed spec fn view(&self) -> CqView {
        CqView { raw: self.inner.cq.addr, ctx: self.inner.ctx }
    }
}

impl Clone for Cq {
    /// Another handle of the same queue.
    fn clone(&self) -> (r: Cq)
        ensures
            r@ == self@,
    {
        proof {
            use_type_invariant(self);
        }
        Cq { cq: self.cq, inner: arc_clone(&self.inner) }
    }
}

impl Cq {
    /// The cached pointer is that of the body.
    #[verifier::type_invariant]
    spec fn cached(self) -> bool {
        self.cq == self.inner.cq
    }

    /// The default CQ depth.
    pub const DEFAULT_CQ_DEPTH: u32 = 128;

    /// Creates a completion queue: the call to make.
    pub fn new(ctx: &Context, capacity: u32) -> (r: Result<CreateCq, CqCreationError>)
        ensures
            r == create_cq(*ctx, capacity, None),
    {
        Self::create(ctx, capacity, None)
    }

    /// Creates a completion queue with experimental features: the call to
    /// make.
    pub fn new_exp(ctx: &Context, capacity: u32) -> (r: Result<CreateCq, CqCreationError>)
        ensures
            r == create_cq(
                *ctx,
                capacity,
                Some(CqInitAttr { with_flags: true, timestamp: true }),
            ),
    {
        Self::create(ctx, capacity, Some(CqInitAttr { with_flags: true, timestamp: true }))
    }

    fn create(ctx: &Context, capacity: u32, init_attr: Option<CqInitAttr>) -> (r: Result<
        CreateCq,
        CqCreationError,
    >)
        ensures
            r == create_cq(*ctx, capacity, init_attr),
    {
        let max_capacity: u32 = c_int_to_u32(ctx.max_cqe);
        if capacity > max_capacity {
            return Err(CqCreationError::TooManyCqes(max_capacity));
        }
        Ok(
            CreateCq {
                ctx: *ctx,
                cqe: u32_to_c_int(capacity),
                cq_context: 0,
                channel: 0,
                comp_vector: 0,
                init_attr,
            },
        )
    }

    /// The address of the underlying queue.
    pub fn as_raw(&self) -> (r: usize)
        ensures
            r == self@.raw,
    {
        proof {
            use_type_invariant(self);
        }
        self.cq.addr
    }

    /// The queue in words, for debugging: by its address.
    pub fn debug_text(&self) -> (r: String)
        ensures
            r@ == "Cq<0x"@ + digits(self@.raw as nat, 16) + ">"@,
    {
        let mut text = String::new();
        text.append("Cq<0x");
        append_digits(&mut text, self.as_raw() as u64, 16);
        text.append(">");
        assert(text@ =~= "Cq<0x"@ + digits(self@.raw as nat, 16) + ">"@);
        text
    }

    /// The underlying [`Context`].
    pub fn context(&self) -> (r: &Context)
        ensures
            *r == self@.ctx,
    {
        &self.inner.ctx
    }

    /// The capacity of the completion queue. `cqe` is the number of entries
    /// that the queue has room for, as the device reports it now.
    pub fn capacity(&self, cqe: i32) -> (r: u32)
        ensures
            r == c_uint(cqe as int),
    {
        c_int_to_u32(cqe)
    }

    /// Non-blockingly poll as many work completions as the queue can hold: the
    /// call to make. Its result is that of [`PollCq::into_entries`]. `cqe` is
    /// the number of entries that the queue has room for, as the device reports
    /// it now.
    pub fn poll(&self, cqe: i32) -> (r: PollCq)
        ensures
            r == poll_call(self@.raw, c_uint(cqe as int)),
    {
        self.poll_some(self.capacity(cqe))
    }

    /// Non-blockingly poll up to `num` work completions: the call to make. Its
    /// result is that of [`PollCq::into_entries`].
    pub fn poll_some(&self, num: u32) -> (r: PollCq)
        ensures
            r == poll_call(self@.raw, num as int),
    {
        PollCq::new(self.as_raw(), num)
    }

    /// Non-blockingly poll one work completion: the call to make. Its result
    /// is that of [`PollCq::into_one`].
    pub fn poll_one(&self) -> (r: PollCq)
        ensures
            r == poll_call(self@.raw, 1),
    {
        PollCq::new(self.as_raw(), 1)
    }

    /// Non-blockingly poll into the buffer `wc`: the call to make, whose result
    /// is that of [`PollCq::into_buffer`]. For an empty buffer no call is made,
    /// and no work completion is polled.
    pub fn poll_into(&self, wc: &[Wc]) -> (r: PollInto)
        ensures
            wc@.len() == 0 ==> r == PollInto::Polled(0),
            wc@.len() > 0 ==> r == PollInto::Call(poll_call(self@.raw, wc@.len() as int)),
    {
        if wc.is_empty() {
            return PollInto::Polled(0);
        }
        PollInto::Call(PollCq::filling(self.as_raw(), wc.len()))
    }

    /// Non-blockingly poll into one work completion of the caller: the call to
    /// make. Its result is that of [`PollCq::into_slot`].
    pub fn poll_one_into(&self) -> (r: PollCq)
        ensures
            r == poll_call(self@.raw, 1),
    {
        PollCq::new(self.as_raw(), 1)
    }

    /// Blockingly poll until `num` work completions are polled.
    pub fn poll_blocking(&self, num: u32) -> (r: PollBlocking)
        ensures
            r@ == (Gathering { cq: self@.raw, num: num as nat, got: Seq::empty() }),
            r@.wf(),
    {
        PollBlocking::new(self.as_raw(), num)
    }

    /// Blockingly poll one work completion; it comes from
    /// [`PollOneBlocking::absorb`] or [`PollOneBlocking::absorb_into`].
    pub fn poll_one_blocking(&self) -> (r: PollOneBlocking)
        ensures
            r == (PollOneBlocking { cq: self@.raw }),
    {
        PollOneBlocking { cq: self.as_raw() }
    }

    /// Blockingly wait until a work completion occurs; its status comes from
    /// [`PollOneBlocking::absorb_consumed`], and must be a success.
    pub fn poll_one_blocking_consumed(&self) -> (r: PollOneBlocking)
        ensures
            r == (PollOneBlocking { cq: self@.raw }),
    {
        PollOneBlocking { cq: self.as_raw() }
    }

    /// Blockingly poll until the buffer `wc` is filled.
    pub fn poll_blocking_into(&self, wc: &[Wc]) -> (r: PollBlockingInto)
        ensures
            r.fits(wc@),
            r.filled() == 0,
            forall|buf: Seq<Wc>| #[trigger]
                r.gathering(buf) == (Gathering {
                    cq: self@.raw,
                    num: wc@.len(),
                    got: Seq::empty(),
                }),
    {
        PollBlockingInto::new(self.as_raw(), wc.len())
    }

    /// Blockingly poll one work completion into one of the caller; see
    /// [`PollOneBlocking::absorb_into`].
    pub fn poll_one_blocking_into(&self) -> (r: PollOneBlocking)
        ensures
            r == (PollOneBlocking { cq: self@.raw }),
    {
        PollOneBlocking { cq: self.as_raw() }
    }
}

/// What a device is asked for is the capacity that the caller asked for, by its
/// low 32 bits, and a queue of the device itself, with no user pointer, no
/// event channel and the first completion vector. The maximum that bounds it,
/// and that a refusal reports, is the number of the device read as unsigned.
pub proof fn law_creation_asks_for_the_capacity(
    ctx: Context,
    capacity: u32,
    r: Result<CreateCq, CqCreationError>,
    exp: Result<CreateCq, CqCreationError>,
)
    requires
        call_ensures(Cq::new, (&ctx, capacity), r),
        call_ensures(Cq::new_exp, (&ctx, capacity), exp),
    ensures
        ({
            let max = if ctx.max_cqe >= 0 {
                ctx.max_cqe as int
            } else {
                ctx.max_cqe + 0x1_0000_0000
            };
            match (r, exp) {
                (Ok(call), Ok(with)) => {
                    &&& capacity <= max
                    &&& capacity <= i32::MAX ==> call.cqe == capacity
                    &&& (call.cqe - capacity) % 0x1_0000_0000 == 0
                    &&& call.ctx == ctx
                    &&& call.cq_context == 0
                    &&& call.channel == 0
                    &&& call.comp_vector == 0
                    &&& call.init_attr is None
                    &&& with == CreateCq {
                        init_attr: Some(CqInitAttr { with_flags: true, timestamp: true }),
                        ..call
                    }
                },
                (Err(CqCreationError::TooManyCqes(reported)), Err(same)) => capacity > max
                    && reported == max && same == r->Err_0,
                _ => false,
            }
        }),
{
}

/// A queue that was created is the one at the address that the call returned,
/// of the context that it was asked of, and so is every clone of it. There is
/// none exactly if the call returned no address; then `errno` tells why.
pub proof fn law_created_queue_is_the_returned_one(
    call: CreateCq,
    addr: usize,
    errno: i32,
    r: Result<Cq, CqCreationError>,
)
    requires
        call_ensures(CreateCq::complete, (call, addr, errno), r),
    ensures
        r is Ok <==> addr != 0,
        r matches Err(e) ==> e == CqCreationError::IoError(OsError { code: errno }),
        r matches Ok(cq) ==> {
            &&& forall|raw: usize| #[trigger] call_ensures(Cq::as_raw, (&cq,), raw) ==> raw == addr
            &&& forall|ctx: &Context| #[trigger]
                call_ensures(Cq::context, (&cq,), ctx) ==> *ctx == call.ctx
            &&& forall|other: Cq, raw: usize|
                call_ensures(Cq::clone, (&cq,), other) && #[trigger] call_ensures(
                    Cq::as_raw,
                    (&other,),
                    raw,
                ) ==> raw == addr
        },
{
}

/// A poll is one of the queue itself. One for a number of entries asks for that
/// number, one for as many as the queue can hold for the capacity, one for a
/// single entry for one, and one into a buffer for the length of the buffer, if
/// it has any; and the buffer has room for what is asked for.
pub proof fn law_polls_ask_for_their_number(
    cq: Cq,
    num: u32,
    cqe: i32,
    some: PollCq,
    all: PollCq,
    one: PollCq,
    slot: PollCq,
    capacity: u32,
)
    requires
        call_ensures(Cq::poll_some, (&cq, num), some),
        call_ensures(Cq::poll, (&cq, cqe), all),
        call_ensures(Cq::poll_one, (&cq,), one),
        call_ensures(Cq::poll_one_into, (&cq,), slot),
        call_ensures(Cq::capacity, (&cq, cqe), capacity),
    ensures
        some.cq == cq@.raw,
        some.room == num,
        num <= i32::MAX ==> some.num_entries == num,
        (some.num_entries - num) % 0x1_0000_0000 == 0,
        cqe >= 0 ==> capacity == cqe,
        (capacity - cqe) % 0x1_0000_0000 == 0,
        all.cq == cq@.raw,
        all.num_entries == cqe,
        all.room == capacity,
        one == (PollCq { cq: cq@.raw, num_entries: 1, room: 1 }),
        slot == one,
{
}

/// A poll into a buffer asks the queue itself for as many entries as the buffer
/// has, and makes no call for an empty one.
pub proof fn law_poll_into_asks_for_the_buffer(cq: Cq, wc: &[Wc], r: PollInto)
    requires
        wc@.len() <= usize::MAX,
        call_ensures(Cq::poll_into, (&cq, wc), r),
    ensures
        match r {
            PollInto::Polled(n) => wc@.len() == 0 && n == 0,
            PollInto::Call(call) => {
                &&& wc@.len() > 0
                &&& call.cq == cq@.raw
                &&& call.room == wc@.len()
                &&& wc@.len() <= i32::MAX ==> call.num_entries == wc@.len()
                &&& (call.num_entries - wc@.len()) % 0x1_0000_0000 == 0
            },
        },
{
}

/// The message of a refusal names the maximum, in decimal digits and between
/// the words for it. The message of an error of the system is the same for all.
pub proof fn law_message_names_the_maximum(max: u32, e: OsError, refused: String, failed: String)
    requires
        call_ensures(CqCreationError::message, (&CqCreationError::TooManyCqes(max),), refused),
        call_ensures(CqCreationError::message, (&CqCreationError::IoError(e),), failed),
    ensures
        ({
            let before = "CQ capacity too large (maximum: "@;
            let end = refused@.len() - 1;
            &&& before.len() < end
            &&& refused@.take(before.len() as int) == before
            &&& reading(refused@.subrange(before.len() as int, end), 10) == max
            &&& refused@[end] == ')'
        }),
        failed@ == "I/O error from ibverbs"@,
{
    reveal_strlit("CQ capacity too large (maximum: ");
    reveal_strlit(")");
    law_digits_read_as_their_number(max as nat, 10);
    let before = "CQ capacity too large (maximum: "@;
    assert(refused@.take(before.len() as int) =~= before);
    assert(refused@.subrange(before.len() as int, refused@.len() - 1) =~= digits(max as nat, 10));
}

/// A queue is shown by its address, in hexadecimal digits.
pub proof fn law_debug_text_names_the_address(cq: Cq, r: String)
    requires
        call_ensures(Cq::debug_text, (&cq,), r),
    ensures
        ({
            let end = r@.len() - 1;
            &&& 5 < end
            &&& r@.take(5) == seq!['C', 'q', '<', '0', 'x']
            &&& reading(r@.subrange(5, end), 16) == cq@.raw
            &&& r@[end] == '>'
        }),
{
    reveal_strlit("Cq<0x");
    reveal_strlit(">");
    law_digits_read_as_their_number(cq@.raw as nat, 16);
    assert(r@.take(5) =~= seq!['C', 'q', '<', '0', 'x']);
    assert(r@.subrange(5, r@.len() - 1) =~= digits(cq@.raw as nat, 16));
}

} // verus!
