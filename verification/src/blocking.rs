//! Polls that wait until enough work completions have arrived.

use vstd::prelude::*;

use crate::poll::{poll_call, store, stored, PollCq};
use crate::spin::{end_round, watched, SpinWatch};
use crate::sys::OsError;
use crate::wc::{Wc, WcStatus};

verus! {

/// A poll of the queue at `cq` that waits for `num` entries and has `got`.
#[verifier::ext_equal]
pub struct Gathering {
    pub cq: usize,
    pub num: nat,
    pub got: Seq<Wc>,
}

impl Gathering {
    /// No more entries have been taken than were asked for.
    pub open spec fn wf(self) -> bool {
        self.got.len() <= self.num
    }

    pub open spec fn done(self) -> bool {
        self.got.len() >= self.num
    }

    /// The next call: it asks for all that is missing.
    pub open spec fn call(self) -> Option<PollCq> {
        if self.done() {
            None
        } else {
            Some(poll_call(self.cq, self.num - self.got.len()))
        }
    }

    /// A reply that a poll can get: the call returned `ret` and left `buf`, and
    /// it does not hand out more than it was asked for.
    pub open spec fn admits(self, ret: i32, buf: Seq<Wc>) -> bool {
        ret <= buf.len() && ret <= self.num - self.got.len()
    }

    /// The poll after a reply; one that reports a failure adds nothing.
    pub open spec fn after(self, ret: i32, buf: Seq<Wc>) -> Gathering {
        if ret >= 0 {
            Gathering { got: self.got + buf.take(ret as int), ..self }
        } else {
            self
        }
    }
}

/// A reply to one call of `ibv_poll_cq`: what it returned, and the buffer.
pub type Reply = (i32, Seq<Wc>);

/// How far a sequence of replies takes a blocking poll.
pub enum Progress {
    /// More replies are needed.
    Waiting(Gathering),
    /// The poll returned these entries.
    Finished(Seq<Wc>),
    /// The poll returned this error.
    Failed(OsError),
}

/// What becomes of `poll` when its calls get `replies`, one after the other.
pub open spec fn progress(poll: Gathering, replies: Seq<Reply>) -> Progress
    decreases replies.len(),
{
    if poll.done() {
        Progress::Finished(poll.got)
    } else if replies.len() == 0 {
        Progress::Waiting(poll)
    } else if replies[0].0 < 0 {
        Progress::Failed(OsError { code: replies[0].0 })
    } else {
        progress(poll.after(replies[0].0, replies[0].1), replies.skip(1))
    }
}

/// The number of calls that `poll` makes when it gets `replies`.
pub open spec fn calls(poll: Gathering, replies: Seq<Reply>) -> nat
    decreases replies.len(),
{
    if poll.done() || replies.len() == 0 {
        0
    } else if replies[0].0 < 0 {
        1
    } else {
        1 + calls(poll.after(replies[0].0, replies[0].1), replies.skip(1))
    }
}

/// Every call that `poll` makes gets a reply that it can get.
pub open spec fn admissible(poll: Gathering, replies: Seq<Reply>) -> bool
    decreases replies.len(),
{
    poll.done() || replies.len() == 0 || {
        &&& poll.admits(replies[0].0, replies[0].1)
        &&& replies[0].0 >= 0 ==> admissible(
            poll.after(replies[0].0, replies[0].1),
            replies.skip(1),
        )
    }
}

/// The entries that `replies` deliver, in the order of their arrival.
pub open spec fn arrivals(replies: Seq<Reply>) -> Seq<Wc>
    decreases replies.len(),
{
    if replies.len() == 0 {
        Seq::empty()
    } else {
        replies[0].1.take(replies[0].0 as int) + arrivals(replies.skip(1))
    }
}

/// A blocking poll returns exactly the number of entries that it was asked
/// for, and these are all entries that its calls delivered, in the order of
/// their arrival.
pub proof fn law_blocking_poll_is_complete(poll: Gathering, replies: Seq<Reply>)
    requires
        poll.wf(),
        admissible(poll, replies),
    ensures
        calls(poll, replies) <= replies.len(),
        progress(poll, replies) matches Progress::Finished(wc) ==> {
            &&& wc.len() == poll.num
            &&& wc == poll.got + arrivals(replies.take(calls(poll, replies) as int))
        },
    decreases replies.len(),
{
    if poll.done() || replies.len() == 0 || replies[0].0 < 0 {
        assert(replies.take(0) =~= Seq::empty());
    } else {
        let next = poll.after(replies[0].0, replies[0].1);
        let rest = replies.skip(1);
        law_blocking_poll_is_complete(next, rest);
        let n = calls(next, rest) as int;
        assert(replies.take(n + 1).skip(1) =~= rest.take(n));
        assert(replies.take(n + 1)[0] == replies[0]);
    }
}

/// A blocking poll fails as soon as one of its calls fails, with the return
/// value of that call as the error code, and with no other.
pub proof fn law_blocking_poll_fails_with_the_call(poll: Gathering, replies: Seq<Reply>)
    ensures
        progress(poll, replies) matches Progress::Failed(e) ==> {
            let last = calls(poll, replies) - 1;
            &&& 0 <= last < replies.len()
            &&& replies[last].0 < 0
            &&& e.code == replies[last].0
            &&& forall|i: int| 0 <= i < last ==> replies[i].0 >= 0
        },
        !(progress(poll, replies) is Failed) ==> forall|i: int|
            0 <= i < calls(poll, replies) && i < replies.len() ==> replies[i].0 >= 0,
    decreases replies.len(),
{
    if !(poll.done() || replies.len() == 0 || replies[0].0 < 0) {
        let next = poll.after(replies[0].0, replies[0].1);
        let rest = replies.skip(1);
        law_blocking_poll_fails_with_the_call(next, rest);
        assert(forall|i: int| 0 < i < replies.len() ==> replies[i] == rest[i - 1]);
    }
}

/// A blocking poll ends once the entries it asked for have arrived.
pub proof fn law_blocking_poll_ends(poll: Gathering, replies: Seq<Reply>)
    requires
        poll.wf(),
        admissible(poll, replies),
        forall|i: int| 0 <= i < replies.len() ==> (#[trigger] replies[i]).0 >= 0,
        arrivals(replies).len() >= poll.num - poll.got.len(),
    ensures
        progress(poll, replies) is Finished,
    decreases replies.len(),
{
    if !poll.done() && replies.len() > 0 {
        let next = poll.after(replies[0].0, replies[0].1);
        let rest = replies.skip(1);
        assert(forall|i: int| 0 <= i < rest.len() ==> rest[i] == replies[i + 1]);
        law_blocking_poll_ends(next, rest);
    }
}

/// A poll for a number of entries that waits until all have arrived.
pub struct PollBlocking {
    cq: usize,
    num: u32,
    wc: Vec<Wc>,
}

impl View for PollBlocking {
    type V = Gathering;

    closed spec fn view(&self) -> Gathering {
        Gathering { cq: self.cq, num: self.num as nat, got: self.wc@ }
    }
}

impl PollBlocking {
    /// A poll of the queue at `cq` for `num` entries.
    pub fn new(cq: usize, num: u32) -> (r: PollBlocking)
        ensures
            r@ == (Gathering { cq, num: num as nat, got: Seq::empty() }),
            r@.wf(),
    {
        PollBlocking { cq, num, wc: Vec::new() }
    }

    /// The next call to make, or `None` when all entries have arrived.
    pub fn next_call(&self) -> (r: Option<PollCq>)
        ensures
            r == self@.call(),
    {
        let len: usize = self.wc.len();
        if len < self.num as usize {
            Some(PollCq::new(self.cq, self.num - len as u32))
        } else {
            None
        }
    }

    /// Takes the reply to the call: `ret` is what it returned and `buf` what
    /// the buffer holds after it. An error ends the poll.
    pub fn absorb(&mut self, ret: i32, buf: Vec<Wc>) -> (r: Result<(), OsError>)
        requires
            old(self)@.wf(),
            old(self)@.admits(ret, buf@),
        ensures
            final(self)@ == old(self)@.after(ret, buf@),
            final(self)@.wf(),
            ret >= 0 ==> r == Ok::<(), OsError>(()),
            ret < 0 ==> r == Err::<(), OsError>(OsError { code: ret }),
    {
        if ret >= 0 {
            let mut extra = buf;
            extra.truncate(ret as usize);
            self.wc.append(&mut extra);
            Ok(())
        } else {
            Err(OsError { code: ret })
        }
    }

    /// Takes the reply to the call as [`PollBlocking::absorb`] does, for a poll
    /// that may be watched. Every successful call is a round of the watch. Also
    /// tells whether to warn.
    pub fn absorb_watched(
        &mut self,
        ret: i32,
        buf: Vec<Wc>,
        watch: &Option<SpinWatch>,
    ) -> (r: (Result<(), OsError>, bool))
        requires
            old(self)@.wf(),
            old(self)@.admits(ret, buf@),
        ensures
            final(self)@ == old(self)@.after(ret, buf@),
            final(self)@.wf(),
            ret >= 0 ==> r.0 == Ok::<(), OsError>(()),
            ret < 0 ==> r.0 == Err::<(), OsError>(OsError { code: ret }),
            watched(*watch, ret >= 0, r.1),
    {
        let result = self.absorb(ret, buf);
        (result, end_round(watch, ret >= 0))
    }

    /// The entries that have arrived.
    pub fn into_entries(self) -> (r: Vec<Wc>)
        ensures
            r@ == self@.got,
    {
        self.wc
    }
}

/// A poll into a buffer that waits until the buffer is filled.
#[derive(Clone, Copy, Debug, PartialEq, Eq, Structural)]
pub struct PollBlockingInto {
    cq: usize,
    len: usize,
    polled: usize,
}

impl PollBlockingInto {
    /// The poll as one that gathers entries: those in the filled part of `wc`.
    pub closed spec fn gathering(self, wc: Seq<Wc>) -> Gathering {
        Gathering { cq: self.cq, num: self.len as nat, got: wc.take(self.polled as int) }
    }

    /// The number of entries at the start of the buffer that have been filled.
    pub closed spec fn filled(self) -> nat {
        self.polled as nat
    }

    /// The poll is one into a buffer of the length of `wc`.
    pub closed spec fn fits(self, wc: Seq<Wc>) -> bool {
        self.polled <= self.len == wc.len()
    }

    /// A poll of the queue at `cq` into a buffer of `len` entries.
    pub fn new(cq: usize, len: usize) -> (r: PollBlockingInto)
        ensures
            forall|wc: Seq<Wc>| #[trigger]
                r.fits(wc) <==> wc.len() == len,
            forall|wc: Seq<Wc>| #[trigger]
                r.gathering(wc) == (Gathering { cq, num: len as nat, got: Seq::empty() }),
            r.filled() == 0,
    {
        let r = PollBlockingInto { cq, len, polled: 0 };
        assert forall|wc: Seq<Wc>| #[trigger]
            r.gathering(wc) == (Gathering { cq, num: len as nat, got: Seq::empty() }) by {
            assert(wc.take(0) =~= Seq::empty());
        }
        r
    }

    /// The next call to make, or `None` when the buffer `wc` is filled.
    pub fn next_call(&self, wc: &[Wc]) -> (r: Option<PollCq>)
        requires
            self.fits(wc@),
        ensures
            r == self.gathering(wc@).call(),
    {
        if self.polled < wc.len() {
            Some(PollCq::filling(self.cq, wc.len() - self.polled))
        } else {
            None
        }
    }

    /// Takes the reply to the call: `ret` is what it returned and `buf` holds
    /// the entries that it wrote. They go to the part of `wc` that is not
    /// filled yet. An error ends the poll.
    pub fn absorb(&mut self, ret: i32, buf: &[Wc], wc: &mut [Wc]) -> (r: Result<(), OsError>)
        requires
            old(self).fits(old(wc)@),
            old(self).gathering(old(wc)@).admits(ret, buf@),
        ensures
            final(self).fits(final(wc)@),
            final(self).gathering(final(wc)@) == old(self).gathering(old(wc)@).after(ret, buf@),
            final(self).filled() == old(self).filled() + (if ret >= 0 {
                ret as int
            } else {
                0
            }),
            final(wc)@ == (if ret >= 0 {
                stored(old(wc)@, old(self).filled() as int, buf@.take(ret as int))
            } else {
                old(wc)@
            }),
            ret >= 0 ==> r == Ok::<(), OsError>(()),
            ret < 0 ==> r == Err::<(), OsError>(OsError { code: ret }),
    {
        if ret >= 0 {
            let n: usize = ret as usize;
            store(wc, self.polled, buf, n);
            self.polled += n;
            assert(self.gathering(wc@).got =~= old(self).gathering(old(wc)@).after(ret, buf@).got);
            Ok(())
        } else {
            Err(OsError { code: ret })
        }
    }
}

impl PollBlockingInto {
    /// Takes the reply to the call as [`PollBlockingInto::absorb`] does, for a
    /// poll that may be watched. Every successful call is a round of the watch.
    /// Also tells whether to warn.
    pub fn absorb_watched(
        &mut self,
        ret: i32,
        buf: &[Wc],
        wc: &mut [Wc],
        watch: &Option<SpinWatch>,
    ) -> (r: (Result<(), OsError>, bool))
        requires
            old(self).fits(old(wc)@),
            old(self).gathering(old(wc)@).admits(ret, buf@),
        ensures
            final(self).fits(final(wc)@),
            final(self).gathering(final(wc)@) == old(self).gathering(old(wc)@).after(ret, buf@),
            final(self).filled() == old(self).filled() + (if ret >= 0 {
                ret as int
            } else {
                0
            }),
            final(wc)@ == (if ret >= 0 {
                stored(old(wc)@, old(self).filled() as int, buf@.take(ret as int))
            } else {
                old(wc)@
            }),
            ret >= 0 ==> r.0 == Ok::<(), OsError>(()),
            ret < 0 ==> r.0 == Err::<(), OsError>(OsError { code: ret }),
            watched(*watch, ret >= 0, r.1),
    {
        let result = self.absorb(ret, buf, wc);
        (result, end_round(watch, ret >= 0))
    }
}

/// A blocking poll into a buffer that is done has filled the whole buffer with
/// the entries that it gathered.
pub proof fn law_filled_buffer_is_gathered(poll: PollBlockingInto, wc: Seq<Wc>)
    requires
        poll.fits(wc),
        poll.gathering(wc).done(),
    ensures
        poll.gathering(wc).got == wc,
{
    assert(wc.take(poll.polled as int) =~= wc);
}

/// What becomes of a poll that waits for one entry when its calls get
/// `replies`: its result, or `None` while it waits.
pub open spec fn first_arrival(replies: Seq<(i32, Wc)>) -> Option<Result<Wc, OsError>>
    decreases replies.len(),
{
    if replies.len() == 0 {
        None
    } else if replies[0].0 < 0 {
        Some(Err(OsError { code: replies[0].0 }))
    } else if replies[0].0 > 0 {
        Some(Ok(replies[0].1))
    } else {
        first_arrival(replies.skip(1))
    }
}

/// The number of calls that return zero before any other.
pub open spec fn idle_calls(replies: Seq<(i32, Wc)>) -> nat
    decreases replies.len(),
{
    if replies.len() == 0 || replies[0].0 != 0 {
        0
    } else {
        1 + idle_calls(replies.skip(1))
    }
}

/// A wait for one entry goes on as long as the calls return zero. It ends with
/// an entry only if a call has polled it, and with an error, that of the call,
/// if the first call that does not return zero fails.
pub proof fn law_wait_ends_with_the_first_arrival(replies: Seq<(i32, Wc)>)
    ensures
        ({
            let n = idle_calls(replies);
            &&& n <= replies.len()
            &&& forall|i: int| 0 <= i < n ==> (#[trigger] replies[i]).0 == 0
            &&& match first_arrival(replies) {
                None => n == replies.len(),
                Some(Ok(wc)) => n < replies.len() && replies[n as int].0 > 0
                    && wc == replies[n as int].1,
                Some(Err(e)) => n < replies.len() && replies[n as int].0 < 0
                    && e.code == replies[n as int].0,
            }
        }),
    decreases replies.len(),
{
    if replies.len() > 0 && replies[0].0 == 0 {
        let rest = replies.skip(1);
        law_wait_ends_with_the_first_arrival(rest);
        assert(forall|i: int| 0 < i < replies.len() ==> replies[i] == rest[i - 1]);
    }
}

/// A poll that waits for one entry.
#[derive(Clone, Copy, Debug, PartialEq, Eq, Structural)]
pub struct PollOneBlocking {
    pub cq: usize,
}

impl PollOneBlocking {
    /// The call to make, again and again until the poll is over.
    pub fn next_call(&self) -> (r: PollCq)
        ensures
            r == poll_call(self.cq, 1),
    {
        PollCq::new(self.cq, 1)
    }

    /// Takes the reply to the call: the entry that arrived, an error, or
    /// `None` when the call is to be made again.
    pub fn absorb(&self, ret: i32, wc: Wc) -> (r: Result<Option<Wc>, OsError>)
        ensures
            ret < 0 ==> r == Err::<Option<Wc>, OsError>(OsError { code: ret }),
            ret == 0 ==> r == Ok::<Option<Wc>, OsError>(None),
            ret > 0 ==> r == Ok::<Option<Wc>, OsError>(Some(wc)),
    {
        self.next_call().into_one(ret, wc)
    }

    /// Takes the reply to the call and writes the entry that arrived to `wc`.
    /// Tells whether one did; if none did, the call is to be made again.
    pub fn absorb_into(&self, ret: i32, polled: Wc, wc: &mut Wc) -> (r: Result<bool, OsError>)
        ensures
            ret < 0 ==> r == Err::<bool, OsError>(OsError { code: ret }),
            ret >= 0 ==> r == Ok::<bool, OsError>(ret > 0),
            *final(wc) == (if ret > 0 {
                polled
            } else {
                *old(wc)
            }),
    {
        match self.next_call().into_slot(ret, polled, wc) {
            Ok(n) => Ok(n != 0),
            Err(e) => Err(e),
        }
    }

    /// Takes the reply to the call as [`PollOneBlocking::absorb_into`] does, for
    /// a poll that may be watched. Every successful call is a round of the
    /// watch. Also tells whether to warn.
    pub fn absorb_into_watched(
        &self,
        ret: i32,
        polled: Wc,
        wc: &mut Wc,
        watch: &Option<SpinWatch>,
    ) -> (r: (Result<bool, OsError>, bool))
        ensures
            ret < 0 ==> r.0 == Err::<bool, OsError>(OsError { code: ret }),
            ret >= 0 ==> r.0 == Ok::<bool, OsError>(ret > 0),
            *final(wc) == (if ret > 0 {
                polled
            } else {
                *old(wc)
            }),
            watched(*watch, ret >= 0, r.1),
    {
        let result = self.absorb_into(ret, polled, wc);
        (result, end_round(watch, ret >= 0))
    }

    /// Takes the reply to the call for a caller that only wants to see the
    /// work request succeed: the status of the entry that arrived, an error, or
    /// `None` when the call is to be made again. The entry is looked at only if
    /// the call has written it.
    pub fn absorb_consumed(&self, ret: i32, wc: &Wc) -> (r: Result<Option<WcStatus>, OsError>)
        ensures
            ret < 0 ==> r == Err::<Option<WcStatus>, OsError>(OsError { code: ret }),
            ret == 0 ==> r == Ok::<Option<WcStatus>, OsError>(None),
            ret > 0 ==> r == Ok::<Option<WcStatus>, OsError>(Some(wc.status_spec())),
    {
        if ret < 0 {
            Err(OsError { code: ret })
        } else if ret == 0 {
            Ok(None)
        } else {
            Ok(Some(wc.status()))
        }
    }

    /// Takes the reply to the call as [`PollOneBlocking::absorb_consumed`] does,
    /// for a poll that may be watched. Every call that is to be made again is a
    /// round of the watch. Also tells whether to warn.
    pub fn absorb_consumed_watched(
        &self,
        ret: i32,
        wc: &Wc,
        watch: &Option<SpinWatch>,
    ) -> (r: (Result<Option<WcStatus>, OsError>, bool))
        ensures
            ret < 0 ==> r.0 == Err::<Option<WcStatus>, OsError>(OsError { code: ret }),
            ret == 0 ==> r.0 == Ok::<Option<WcStatus>, OsError>(None),
            ret > 0 ==> r.0 == Ok::<Option<WcStatus>, OsError>(Some(wc.status_spec())),
            watched(*watch, ret == 0, r.1),
    {
        let result = self.absorb_consumed(ret, wc);
        (result, end_round(watch, ret == 0))
    }
}

/// Waiting for one entry is the blocking poll for a number of one.
pub proof fn law_one_is_blocking_poll_of_one(cq: usize, replies: Seq<(i32, Wc)>)
    requires
        forall|i: int| 0 <= i < replies.len() ==> (#[trigger] replies[i]).0 <= 1,
    ensures
        ({
            let poll = Gathering { cq, num: 1, got: Seq::empty() };
            let batches = replies.map_values(|r: (i32, Wc)| (r.0, seq![r.1]));
            match first_arrival(replies) {
                None => progress(poll, batches) == Progress::Waiting(poll),
                Some(Ok(wc)) => progress(poll, batches) == Progress::Finished(seq![wc]),
                Some(Err(e)) => progress(poll, batches) == Progress::Failed(e),
            }
        }),
    decreases replies.len(),
{
    let poll = Gathering { cq, num: 1, got: Seq::empty() };
    let f = |r: (i32, Wc)| (r.0, seq![r.1]);
    let batches = replies.map_values(f);
    if replies.len() > 0 && replies[0].0 >= 0 {
        let rest = replies.skip(1);
        assert(batches.skip(1) =~= rest.map_values(f));
        let next = poll.after(batches[0].0, batches[0].1);
        if replies[0].0 == 0 {
            assert(next =~= poll);
            law_one_is_blocking_poll_of_one(cq, rest);
        } else {
            assert(next.got =~= seq![replies[0].1]);
            assert(progress(next, batches.skip(1)) == Progress::Finished(next.got));
        }
    }
}

/// What a blocking poll does in the view of a caller that may have it watched.
#[verifier::ext_equal]
pub struct Run {
    /// The calls that it makes, in order.
    pub calls: Seq<PollCq>,
    /// What becomes of it.
    pub progress: Progress,
    /// Whether it warns, for each of its successful calls.
    pub warnings: Seq<bool>,
}

/// What `poll` does when its calls get `replies`. With each reply stands the
/// number of whole seconds that the clock gives after it.
pub open spec fn run(poll: Gathering, watching: bool, replies: Seq<(Reply, u64)>) -> Run
    decreases replies.len(),
{
    if poll.done() {
        Run { calls: Seq::empty(), progress: Progress::Finished(poll.got), warnings: Seq::empty() }
    } else if replies.len() == 0 {
        Run { calls: Seq::empty(), progress: Progress::Waiting(poll), warnings: Seq::empty() }
    } else {
        let ((ret, buf), secs) = replies[0];
        let call = seq![poll.call()->0];
        if ret < 0 {
            Run {
                calls: call,
                progress: Progress::Failed(OsError { code: ret }),
                warnings: Seq::empty(),
            }
        } else {
            let rest = run(poll.after(ret, buf), watching, replies.skip(1));
            Run {
                calls: call + rest.calls,
                warnings: seq![watching && secs >= 1] + rest.warnings,
                ..rest
            }
        }
    }
}

/// The replies without the readings of the clock.
pub open spec fn unclocked(replies: Seq<(Reply, u64)>) -> Seq<Reply> {
    replies.map_values(|r: (Reply, u64)| r.0)
}

/// Watching a blocking poll changes neither its calls nor its result. A poll
/// that is not watched never warns; one that is watched warns after a
/// successful call if and only if the clock then gives a second or more.
pub proof fn law_watching_only_warns(poll: Gathering, replies: Seq<(Reply, u64)>)
    ensures
        ({
            let on = run(poll, true, replies);
            let off = run(poll, false, replies);
            &&& on.calls == off.calls
            &&& on.progress == off.progress
            &&& on.progress == progress(poll, unclocked(replies))
            &&& on.calls.len() == calls(poll, unclocked(replies))
            &&& on.warnings.len() == off.warnings.len() <= on.calls.len() <= replies.len()
            &&& forall|i: int| 0 <= i < off.warnings.len() ==> !off.warnings[i]
            &&& forall|i: int|
                0 <= i < on.warnings.len() ==> #[trigger] on.warnings[i] == (replies[i].1 >= 1)
        }),
    decreases replies.len(),
{
    if !poll.done() && replies.len() > 0 {
        let plain = unclocked(replies);
        assert(plain[0] == replies[0].0);
        if replies[0].0.0 >= 0 {
            let rest = replies.skip(1);
            let next = poll.after(replies[0].0.0, replies[0].0.1);
            assert(plain.skip(1) =~= unclocked(rest));
            law_watching_only_warns(next, rest);
            assert(forall|i: int| 0 < i < replies.len() ==> replies[i] == rest[i - 1]);
        }
    }
}

/// What a blocking poll into a buffer does in the view of a caller that may
/// have it watched.
#[verifier::ext_equal]
pub struct RunInto {
    /// The calls that it makes, in order.
    pub calls: Seq<PollCq>,
    /// The buffer at the end.
    pub wc: Seq<Wc>,
    /// Its result, or `None` if it needs more replies.
    pub result: Option<Result<(), OsError>>,
    /// Whether it warns, for each of its successful calls.
    pub warnings: Seq<bool>,
}

/// What a poll of the queue at `cq` into `wc`, filled up to `at`, does when its
/// calls get `replies`. With each reply stands the number of whole seconds that
/// the clock gives after it.
pub open spec fn run_into(
    cq: usize,
    wc: Seq<Wc>,
    at: int,
    watching: bool,
    replies: Seq<(Reply, u64)>,
) -> RunInto
    decreases replies.len(),
{
    let poll = Gathering { cq, num: wc.len(), got: wc.take(at) };
    if poll.done() {
        RunInto { calls: Seq::empty(), wc, result: Some(Ok(())), warnings: Seq::empty() }
    } else if replies.len() == 0 {
        RunInto { calls: Seq::empty(), wc, result: None, warnings: Seq::empty() }
    } else {
        let ((ret, buf), secs) = replies[0];
        let call = seq![poll.call()->0];
        if ret < 0 {
            RunInto {
                calls: call,
                wc,
                result: Some(Err(OsError { code: ret })),
                warnings: Seq::empty(),
            }
        } else {
            let rest = run_into(
                cq,
                stored(wc, at, buf.take(ret as int)),
                at + ret,
                watching,
                replies.skip(1),
            );
            RunInto {
                calls: call + rest.calls,
                warnings: seq![watching && secs >= 1] + rest.warnings,
                ..rest
            }
        }
    }
}

/// The number of successful calls that `poll` makes when it gets `replies`.
pub open spec fn successes(poll: Gathering, replies: Seq<Reply>) -> nat
    decreases replies.len(),
{
    if poll.done() || replies.len() == 0 || replies[0].0 < 0 {
        0
    } else {
        1 + successes(poll.after(replies[0].0, replies[0].1), replies.skip(1))
    }
}

/// A blocking poll into a buffer puts the entries that its successful calls
/// delivered there, in the order of their arrival, and touches nothing of the
/// buffer beyond them. This holds of a poll that fails too, by the calls before
/// the failing one, which is its last.
pub proof fn law_blocking_poll_fills_in_order(
    cq: usize,
    wc: Seq<Wc>,
    at: int,
    watching: bool,
    replies: Seq<(Reply, u64)>,
)
    requires
        0 <= at <= wc.len(),
        admissible(Gathering { cq, num: wc.len(), got: wc.take(at) }, unclocked(replies)),
    ensures
        ({
            let plain = unclocked(replies);
            let poll = Gathering { cq, num: wc.len(), got: wc.take(at) };
            let n = successes(poll, plain);
            let got = arrivals(plain.take(n as int));
            let end = run_into(cq, wc, at, watching, replies);
            &&& n <= replies.len()
            &&& at + got.len() <= wc.len()
            &&& end.wc == stored(wc, at, got)
            &&& end.wc.len() == wc.len()
            &&& end.wc.take(at + got.len()) == wc.take(at) + got
            &&& end.wc.skip(at + got.len()) == wc.skip(at + got.len())
            &&& match end.result {
                Some(Err(e)) => n < replies.len() && end.calls.len() == n + 1 && e.code
                    == plain[n as int].0 < 0,
                Some(Ok(_)) => end.calls.len() == n && at + got.len() == wc.len(),
                None => end.calls.len() == n == replies.len(),
            }
        }),
    decreases replies.len(),
{
    let plain = unclocked(replies);
    let poll = Gathering { cq, num: wc.len(), got: wc.take(at) };
    let n = successes(poll, plain) as int;
    let end = run_into(cq, wc, at, watching, replies);
    if poll.done() || replies.len() == 0 || plain[0].0 < 0 {
        assert(plain.take(0) =~= Seq::empty());
        assert(stored(wc, at, Seq::empty()) =~= wc);
    } else {
        let (ret, buf) = plain[0];
        let batch = buf.take(ret as int);
        let next = stored(wc, at, batch);
        let rest = replies.skip(1);
        assert(plain.skip(1) =~= unclocked(rest));
        assert(next.take(at + ret) =~= wc.take(at) + batch);
        assert(poll.after(ret, buf) == (Gathering {
            cq,
            num: next.len(),
            got: next.take(at + ret),
        }));
        law_blocking_poll_fills_in_order(cq, next, at + ret, watching, rest);
        assert(plain.take(n).skip(1) =~= unclocked(rest).take(n - 1));
        assert(plain.take(n)[0] == plain[0]);
        let later = arrivals(unclocked(rest).take(n - 1));
        assert(arrivals(plain.take(n)) == batch + later);
        assert(stored(next, at + ret, later) =~= stored(wc, at, batch + later));
    }
    let got = arrivals(plain.take(n));
    assert(end.wc.take(at + got.len()) =~= wc.take(at) + got);
    assert(end.wc.skip(at + got.len()) =~= wc.skip(at + got.len()));
}

/// Watching a blocking poll into a buffer changes neither its calls nor the
/// buffer nor its result. A poll that is not watched never warns; one that is
/// watched warns after a successful call if and only if the clock then gives a
/// second or more. And it goes as the poll that hands out a vector: by the same
/// calls, to the same end, with the same entries.
pub proof fn law_watching_into_only_warns(
    cq: usize,
    wc: Seq<Wc>,
    at: int,
    replies: Seq<(Reply, u64)>,
)
    requires
        0 <= at <= wc.len(),
        admissible(Gathering { cq, num: wc.len(), got: wc.take(at) }, unclocked(replies)),
    ensures
        ({
            let on = run_into(cq, wc, at, true, replies);
            let off = run_into(cq, wc, at, false, replies);
            let gathered = run(Gathering { cq, num: wc.len(), got: wc.take(at) }, true, replies);
            &&& on.calls == off.calls
            &&& on.wc == off.wc
            &&& on.result == off.result
            &&& on.calls == gathered.calls
            &&& match gathered.progress {
                Progress::Waiting(_) => on.result is None,
                Progress::Finished(got) => on.result == Some(Ok::<(), OsError>(())) && on.wc == got,
                Progress::Failed(e) => on.result == Some(Err::<(), OsError>(e)),
            }
            &&& on.warnings == gathered.warnings
            &&& on.warnings.len() == off.warnings.len() <= on.calls.len() <= replies.len()
            &&& forall|i: int| 0 <= i < off.warnings.len() ==> !off.warnings[i]
            &&& forall|i: int|
                0 <= i < on.warnings.len() ==> #[trigger] on.warnings[i] == (replies[i].1 >= 1)
        }),
    decreases replies.len(),
{
    let poll = Gathering { cq, num: wc.len(), got: wc.take(at) };
    if poll.done() {
        assert(wc.take(at) =~= wc);
    } else if replies.len() > 0 {
        let plain = unclocked(replies);
        assert(plain[0] == replies[0].0);
        let (ret, buf) = replies[0].0;
        if ret >= 0 {
            let batch = buf.take(ret as int);
            let next = stored(wc, at, batch);
            let rest = replies.skip(1);
            assert(plain.skip(1) =~= unclocked(rest));
            assert(next.take(at + ret) =~= wc.take(at) + batch);
            assert(poll.after(ret, buf) == (Gathering {
                cq,
                num: next.len(),
                got: next.take(at + ret),
            }));
            law_watching_into_only_warns(cq, next, at + ret, rest);
            assert(forall|i: int| 0 < i < replies.len() ==> replies[i] == rest[i - 1]);
        }
    }
}

/// A blocking poll asks the queue for all that is missing, and makes a call
/// exactly as long as something is.
pub proof fn law_blocking_poll_asks_for_the_rest(poll: PollBlocking, r: Option<PollCq>)
    requires
        call_ensures(PollBlocking::next_call, (&poll,), r),
    ensures
        match r {
            None => poll@.got.len() >= poll@.num,
            Some(call) => {
                &&& poll@.got.len() < poll@.num
                &&& call.cq == poll@.cq
                &&& call.room == poll@.num - poll@.got.len()
                &&& call.room <= i32::MAX ==> call.num_entries == call.room
                &&& (call.num_entries - call.room) % 0x1_0000_0000 == 0
            },
        },
{
}

/// A blocking poll into a buffer asks the queue for all entries that the buffer
/// still has room for, and makes a call exactly as long as it has room. What it
/// has gathered is what stands in the filled part.
pub proof fn law_blocking_poll_into_asks_for_the_rest(
    poll: PollBlockingInto,
    wc: &[Wc],
    r: Option<PollCq>,
)
    requires
        poll.fits(wc@),
        call_ensures(PollBlockingInto::next_call, (&poll, wc), r),
    ensures
        poll.filled() <= wc@.len(),
        poll.gathering(wc@).num == wc@.len(),
        poll.gathering(wc@).got == wc@.take(poll.filled() as int),
        match r {
            None => poll.filled() == wc@.len(),
            Some(call) => {
                &&& poll.filled() < wc@.len()
                &&& call.cq == poll.gathering(wc@).cq
                &&& call.room == wc@.len() - poll.filled()
                &&& call.room <= i32::MAX ==> call.num_entries == call.room
                &&& (call.num_entries - call.room) % 0x1_0000_0000 == 0
            },
        },
{
}

/// A reply adds as many entries as the call returned, the first of its buffer,
/// behind those that the poll has; one that reports a failure adds nothing. The
/// poll stays one of the same queue for the same number. Every reply that does
/// not hand out more than the buffer holds and the poll asked for will do.
pub proof fn law_reply_adds_its_entries(poll: Gathering, ret: i32, buf: Seq<Wc>)
    ensures
        poll.admits(ret, buf) <==> ret <= buf.len() && poll.got.len() + ret <= poll.num,
        poll.wf() <==> poll.got.len() <= poll.num,
        poll.after(ret, buf).cq == poll.cq,
        poll.after(ret, buf).num == poll.num,
        ret < 0 ==> poll.after(ret, buf) == poll,
        0 <= ret <= buf.len() ==> {
            let got = poll.after(ret, buf).got;
            &&& got.len() == poll.got.len() + ret
            &&& forall|i: int|
                #![trigger got[i]]
                0 <= i < got.len() ==> got[i] == (if i < poll.got.len() {
                    poll.got[i]
                } else {
                    buf[i - poll.got.len()]
                })
        },
{
}

/// A poll that waits for one entry asks its queue for one.
pub proof fn law_wait_asks_for_one(poll: PollOneBlocking, r: PollCq)
    requires
        call_ensures(PollOneBlocking::next_call, (&poll,), r),
    ensures
        r.cq == poll.cq,
        r.num_entries == 1,
        r.room == 1,
{
}

/// A work request is consumed once its completion has arrived, and it has
/// succeeded if and only if the completion has the status code zero.
pub proof fn law_consumed_request_tells_its_status(
    poll: PollOneBlocking,
    ret: i32,
    wc: Wc,
    r: Result<Option<WcStatus>, OsError>,
    one: Result<Option<Wc>, OsError>,
)
    requires
        call_ensures(PollOneBlocking::absorb_consumed, (&poll, ret, &wc), r),
        call_ensures(PollOneBlocking::absorb, (&poll, ret, wc), one),
    ensures
        match (r, one) {
            (Ok(status), Ok(entry)) => {
                &&& status is Some <==> ret > 0
                &&& entry is Some <==> ret > 0
                &&& entry matches Some(e) ==> e == wc
                &&& status matches Some(s) ==> (s == WcStatus::Success <==> wc.status == 0)
                &&& status matches Some(WcStatus::Failure(code)) ==> code == wc.status
            },
            (Err(e), Err(f)) => ret < 0 && e.code == ret && f.code == ret,
            _ => false,
        },
{
}

} // verus!
