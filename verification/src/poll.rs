//! Polling of completion queues.

use vstd::prelude::*;

use crate::ints::{c_int, c_int_to_u32, u32_to_c_int, usize_to_c_int};
use crate::sys::OsError;
use crate::wc::Wc;

verus! {

/// A call of `ibv_poll_cq`.
#[derive(Clone, Copy, Debug, PartialEq, Eq, Structural)]
pub struct PollCq {
    /// Address of the completion queue.
    pub cq: usize,
    /// The number of entries asked for, as the call takes it.
    pub num_entries: i32,
    /// The number of entries that the buffer must have room for.
    pub room: usize,
}

/// A poll into a buffer.
#[derive(Clone, Copy, Debug, PartialEq, Eq, Structural)]
pub enum PollInto {
    /// The poll is over; this is the number of completions polled.
    Polled(u32),
    /// The call to make.
    Call(PollCq),
}

/// The call that polls `num` entries of the queue at `cq`.
pub open spec fn poll_call(cq: usize, num: int) -> PollCq {
    PollCq { cq, num_entries: c_int(num) as i32, room: num as usize }
}

/// A poll is one of the queue that it was asked of. It never asks for more
/// entries than its buffer has room for, and for exactly as many where a C
/// `int` can hold the number; where it cannot, the call gets the low 32 bits.
pub proof fn law_poll_stays_in_its_buffer(cq: usize, num: int)
    requires
        0 <= num <= usize::MAX,
    ensures
        poll_call(cq, num).cq == cq,
        poll_call(cq, num).num_entries <= poll_call(cq, num).room,
        (poll_call(cq, num).num_entries - num) % 0x1_0000_0000 == 0,
        poll_call(cq, num).room == num,
        num <= i32::MAX ==> poll_call(cq, num).num_entries == num,
{
}

/// What a poll gives its caller: the entries polled, or the negative return
/// value as the error code.
pub open spec fn polled(ret: i32, buf: Seq<Wc>) -> Result<Seq<Wc>, OsError> {
    if ret >= 0 {
        Ok(buf.take(ret as int))
    } else {
        Err(OsError { code: ret })
    }
}

/// `wc` with its entries from `at` on overwritten by `batch`.
pub open spec fn stored(wc: Seq<Wc>, at: int, batch: Seq<Wc>) -> Seq<Wc> {
    wc.take(at) + batch + wc.skip(at + batch.len())
}

/// Writes the first `n` entries of `buf` into `wc`, from index `at` on.
pub(crate) fn store(wc: &mut [Wc], at: usize, buf: &[Wc], n: usize)
    requires
        n <= buf@.len(),
        at + n <= old(wc)@.len(),
    ensures
        final(wc)@ == stored(old(wc)@, at as int, buf@.take(n as int)),
{
    let ghost before = wc@;
    let len: usize = wc.len();
    let mut i: usize = 0;
    while i < n
        invariant
            i <= n,
            n <= buf@.len(),
            at + n <= before.len() == len,
            wc@ == stored(before, at as int, buf@.take(i as int)),
        decreases n - i,
    {
        wc[at + i] = buf[i];
        i += 1;
        assert(wc@ =~= stored(before, at as int, buf@.take(i as int)));
    }
}

impl PollCq {
    /// The call that polls `num` entries of the queue at `cq`.
    pub fn new(cq: usize, num: u32) -> (r: PollCq)
        ensures
            r == poll_call(cq, num as int),
    {
        PollCq { cq, num_entries: u32_to_c_int(num), room: num as usize }
    }

    /// The call that polls as many entries of the queue at `cq` as a buffer of
    /// `len` entries can hold.
    pub fn filling(cq: usize, len: usize) -> (r: PollCq)
        ensures
            r == poll_call(cq, len as int),
    {
        PollCq { cq, num_entries: usize_to_c_int(len), room: len }
    }

    /// The result of a poll that hands out a vector. `ret` is what the call
    /// returned and `buf` what the buffer holds after it.
    pub fn into_entries(self, ret: i32, buf: Vec<Wc>) -> (r: Result<Vec<Wc>, OsError>)
        requires
            ret <= buf@.len(),
        ensures
            match r {
                Ok(wc) => polled(ret, buf@) == Ok::<Seq<Wc>, OsError>(wc@),
                Err(e) => polled(ret, buf@) == Err::<Seq<Wc>, OsError>(e),
            },
    {
        if ret >= 0 {
            let mut wc = buf;
            wc.truncate(ret as usize);
            Ok(wc)
        } else {
            Err(OsError { code: ret })
        }
    }

    /// The result of a poll of one entry. `ret` is what the call returned and
    /// `wc` what the entry holds after it.
    pub fn into_one(self, ret: i32, wc: Wc) -> (r: Result<Option<Wc>, OsError>)
        ensures
            ret < 0 ==> r == Err::<Option<Wc>, OsError>(OsError { code: ret }),
            ret == 0 ==> r == Ok::<Option<Wc>, OsError>(None),
            ret > 0 ==> r == Ok::<Option<Wc>, OsError>(Some(wc)),
    {
        if ret >= 0 {
            Ok(
                if ret == 0 {
                    None
                } else {
                    Some(wc)
                },
            )
        } else {
            Err(OsError { code: ret })
        }
    }

    /// The result of a poll into the buffer `wc` of the caller. `ret` is what
    /// the call returned and `buf` holds the entries that it wrote.
    pub fn into_buffer(self, ret: i32, buf: &[Wc], wc: &mut [Wc]) -> (r: Result<u32, OsError>)
        requires
            ret <= buf@.len(),
            ret <= old(wc)@.len(),
        ensures
            ret < 0 ==> r == Err::<u32, OsError>(OsError { code: ret }) && final(wc)@ == old(wc)@,
            ret >= 0 ==> r == Ok::<u32, OsError>(ret as u32) && final(wc)@ == stored(
                old(wc)@,
                0,
                buf@.take(ret as int),
            ),
            final(wc)@.len() == old(wc)@.len(),
            forall|i: int|
                #![trigger final(wc)@[i]]
                0 <= i < old(wc)@.len() ==> final(wc)@[i] == (if i < ret {
                    buf@[i]
                } else {
                    old(wc)@[i]
                }),
    {
        if ret >= 0 {
            store(wc, 0, buf, ret as usize);
            Ok(c_int_to_u32(ret))
        } else {
            Err(OsError { code: ret })
        }
    }

    /// The result of a poll into the one entry `wc` of the caller. `ret` is
    /// what the call returned and `polled` the entry that it wrote.
    pub fn into_slot(self, ret: i32, polled: Wc, wc: &mut Wc) -> (r: Result<u32, OsError>)
        ensures
            ret < 0 ==> r == Err::<u32, OsError>(OsError { code: ret }),
            ret >= 0 ==> r == Ok::<u32, OsError>(ret as u32),
            *final(wc) == (if ret > 0 {
                polled
            } else {
                *old(wc)
            }),
    {
        if ret >= 0 {
            if ret > 0 {
                *wc = polled;
            }
            Ok(c_int_to_u32(ret))
        } else {
            Err(OsError { code: ret })
        }
    }
}

/// A poll that succeeds hands out as many entries as the call returned, also
/// where that is all that the buffer holds, and each is the one at its place in
/// the buffer. A poll that fails hands out the return value and nothing else.
pub proof fn law_poll_hands_out_what_was_polled(
    call: PollCq,
    ret: i32,
    buf: Vec<Wc>,
    r: Result<Vec<Wc>, OsError>,
)
    requires
        ret <= buf@.len(),
        call_ensures(PollCq::into_entries, (call, ret, buf), r),
    ensures
        r is Ok <==> ret >= 0,
        r matches Ok(wc) ==> {
            &&& wc@.len() == ret
            &&& forall|i: int| #![trigger wc@[i]] 0 <= i < ret ==> wc@[i] == buf@[i]
        },
        r matches Err(e) ==> e.code == ret,
{
}

/// A poll of one entry agrees with the poll of a number of entries that is one:
/// on whether it succeeds, on its error, on whether an entry came and on which
/// one it is.
pub proof fn law_polls_of_one_agree(
    call: PollCq,
    ret: i32,
    wc: Wc,
    buf: Vec<Wc>,
    one: Result<Option<Wc>, OsError>,
    all: Result<Vec<Wc>, OsError>,
)
    requires
        ret <= 1,
        buf@ == seq![wc],
        call_ensures(PollCq::into_one, (call, ret, wc), one),
        call_ensures(PollCq::into_entries, (call, ret, buf), all),
    ensures
        match (one, all) {
            (Ok(entry), Ok(entries)) => match entry {
                None => entries@.len() == 0,
                Some(polled) => entries@.len() == 1 && polled == entries@[0] && polled
                    == wc,
            },
            (Err(e), Err(f)) => e == f,
            _ => false,
        },
{
}

/// Writing a batch into a buffer leaves its length as it is, puts each entry of
/// the batch at its place, and touches no other entry.
pub proof fn law_storing_overwrites_in_place(wc: Seq<Wc>, at: int, batch: Seq<Wc>)
    requires
        0 <= at,
        at + batch.len() <= wc.len(),
    ensures
        stored(wc, at, batch).len() == wc.len(),
        forall|i: int|
            #![trigger stored(wc, at, batch)[i]]
            0 <= i < wc.len() ==> stored(wc, at, batch)[i] == (if at <= i < at + batch.len() {
                batch[i - at]
            } else {
                wc[i]
            }),
{
}

} // verus!
