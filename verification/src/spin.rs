//! Warnings about polls that spin for long.

use vstd::prelude::*;

verus! {

/// A point in time of the `quanta` clock.
#[verifier::external_type_specification]
#[verifier::external_body]
pub struct ExInstant(quanta::Instant);

/// `quanta::Instant::now`. Nothing is claimed of the time that it reads.
pub assume_specification[ quanta::Instant::now ]() -> (now: quanta::Instant)
;

/// `quanta::Instant::elapsed`, as the whole seconds of the duration. Nothing
/// is claimed of the number: it depends on the clock.
#[verifier::external_body]
fn elapsed_secs(since: &quanta::Instant) -> (secs: u64) {
    since.elapsed().as_secs()
}

/// Paces the warnings of a poll that spins: the next one is due when a second
/// has passed since the end of the last.
pub struct SpinWatch {
    last_warn: quanta::Instant,
}

impl SpinWatch {
    /// The watch counts from a time that was read from the clock.
    pub closed spec fn counts_from_a_reading(self) -> bool {
        call_ensures(quanta::Instant::now, (), self.last_warn)
    }

    /// `secs` is a number of whole seconds that the clock can give for the time
    /// since the one that the watch counts from.
    pub closed spec fn can_have_passed(self, secs: u64) -> bool {
        call_ensures(elapsed_secs, (&self.last_warn,), secs)
    }

    /// What a tick tells: it goes by a number of seconds that the clock can
    /// give, and says to warn if that is one or more.
    pub open spec fn ticked(self, warn: bool) -> bool {
        exists|secs: u64| #[trigger] self.can_have_passed(secs) && warn == (secs >= 1)
    }

    /// Starts a watch; the first warning is due a second from now.
    pub fn new() -> (r: SpinWatch)
        ensures
            r.counts_from_a_reading(),
    {
        SpinWatch { last_warn: quanta::Instant::now() }
    }

    /// Tells, after a round of polling, whether to warn. It goes by the seconds
    /// that the clock gives for the time since the watch was started, or
    /// restarted.
    pub fn tick(&self) -> (warn: bool)
        ensures
            self.ticked(warn),
    {
        let secs: u64 = elapsed_secs(&self.last_warn);
        assert(self.can_have_passed(secs));
        self.tick_after(secs)
    }

    /// What `tick` tells when `secs` whole seconds have passed: to warn from the
    /// first full second on.
    pub fn tick_after(&self, secs: u64) -> (warn: bool)
        ensures
            warn == (secs >= 1),
    {
        secs >= 1
    }

    /// Restarts the watch, once a warning has been given; the next one is due a
    /// second from now.
    pub fn restart(&mut self)
        ensures
            final(self).counts_from_a_reading(),
    {
        self.last_warn = quanta::Instant::now();
    }
}

/// Whether to warn after a round of a poll that may be watched. Without a watch
/// there is no warning; a watch ticks in the rounds that count.
pub open spec fn watched(watch: Option<SpinWatch>, counts: bool, warn: bool) -> bool {
    match watch {
        Some(watch) if counts => watch.ticked(warn),
        _ => !warn,
    }
}

/// Ends a round of a poll, which is watched if there is a watch: ticks it if
/// the round counts, and tells whether to warn. After the warning the watch is
/// to be restarted.
pub fn end_round(watch: &Option<SpinWatch>, counts: bool) -> (warn: bool)
    ensures
        watched(*watch, counts, warn),
{
    match watch {
        Some(watch) if counts => watch.tick(),
        _ => false,
    }
}

/// A watch warns if a second has passed and does not warn if none has, whatever
/// the clock gives between these.
pub proof fn law_watch_warns_by_the_second(watch: SpinWatch, warn: bool)
    requires
        call_ensures(SpinWatch::tick, (&watch,), warn),
    ensures
        (forall|secs: u64| #[trigger] watch.can_have_passed(secs) ==> secs > 0) ==> warn,
        (forall|secs: u64| #[trigger] watch.can_have_passed(secs) ==> secs == 0) ==> !warn,
{
}

/// Only a poll that is watched warns, only in a round that counts, and then by
/// its watch.
pub proof fn law_only_watched_rounds_warn(watch: Option<SpinWatch>, counts: bool, warn: bool)
    requires
        call_ensures(end_round, (&watch, counts), warn),
    ensures
        watch is None ==> !warn,
        !counts ==> !warn,
        counts ==> (watch matches Some(w) ==> w.ticked(warn)),
{
}

} // verus!
