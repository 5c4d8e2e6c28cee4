use std::time::Duration;

use rdma_verbs::cq::Cq;
use rdma_verbs::device::{Context, Gid};
use rdma_verbs::spin::{end_round, SpinWatch};
use rdma_verbs::sys::OsError;
use rdma_verbs::wc::{Wc, WcStatus};

fn queue() -> Cq {
    let ctx = Context {
        raw: 0x1000,
        max_cqe: 1000,
        gid: Gid { raw: [0; 16] },
        gid_index: 0,
        port_num: 1,
        lid: 0,
        active_mtu: 5,
    };
    match Cq::new(&ctx, 128).unwrap().complete(0x77, 0) {
        Ok(cq) => cq,
        Err(_) => panic!("no queue"),
    }
}

fn wc(wr_id: u64) -> Wc {
    Wc {
        wr_id,
        status: 0,
        opcode: 0,
        vendor_err: 0,
        byte_len: 0,
        imm_data: 0,
        qp_num: 0,
        src_qp: 0,
        wc_flags: 0,
        pkey_index: 0,
        slid: 0,
        sl: 0,
        dlid_path_bits: 0,
    }
}

#[test]
fn warnings_are_a_second_apart() {
    let (clock, time) = quanta::Clock::mock();
    quanta::with_clock(&clock, || {
        time.increment(Duration::from_secs(100));
        let mut watch = SpinWatch::new();
        assert!(!watch.tick());
        time.increment(Duration::from_millis(999));
        assert!(!watch.tick());
        time.increment(Duration::from_millis(1));
        assert!(watch.tick());
        watch.restart();
        assert!(!watch.tick());
        time.increment(Duration::from_millis(999));
        assert!(!watch.tick());
        time.increment(Duration::from_secs(3));
        assert!(watch.tick());
        watch.restart();
        assert!(!watch.tick());
    });
}

#[test]
fn the_next_second_counts_from_the_end_of_the_warning() {
    let (clock, time) = quanta::Clock::mock();
    quanta::with_clock(&clock, || {
        let mut watch = SpinWatch::new();
        time.increment(Duration::from_secs(1));
        assert!(watch.tick());
        time.increment(Duration::from_secs(5));
        assert!(watch.tick());
        watch.restart();
        assert!(!watch.tick());
        time.increment(Duration::from_millis(999));
        assert!(!watch.tick());
        time.increment(Duration::from_millis(1));
        assert!(watch.tick());
    });
}

#[test]
fn a_warning_is_due_from_the_first_full_second_on() {
    let watch = SpinWatch::new();
    assert!(!watch.tick_after(0));
    assert!(watch.tick_after(1));
    assert!(watch.tick_after(u64::MAX));
}

#[test]
fn rounds_without_a_watch_or_that_do_not_count() {
    let (clock, time) = quanta::Clock::mock();
    quanta::with_clock(&clock, || {
        let watch = Some(SpinWatch::new());
        time.increment(Duration::from_secs(2));
        assert!(!end_round(&None, true));
        assert!(!end_round(&watch, false));
        assert!(end_round(&watch, true));
    });
}

fn restart_if(warn: bool, watch: &mut Option<SpinWatch>) {
    if let (true, Some(watch)) = (warn, watch) {
        watch.restart();
    }
}

#[test]
fn watching_a_blocking_poll_only_warns() {
    let (clock, time) = quanta::Clock::mock();
    quanta::with_clock(&clock, || {
        let mut watch = Some(SpinWatch::new());
        let (mut off, mut on) = (queue().poll_blocking(2), queue().poll_blocking(2));
        let rounds = [(0, 1500, true), (1, 999, false), (1, 1, true)];
        for (ret, millis, warn) in rounds {
            time.increment(Duration::from_millis(millis));
            assert_eq!(on.next_call(), off.next_call());
            let buf = vec![wc(millis)];
            assert_eq!(off.absorb_watched(ret, buf.clone(), &None), (Ok(()), false));
            assert_eq!(on.absorb_watched(ret, buf, &watch), (Ok(()), warn));
            restart_if(warn, &mut watch);
        }
        assert_eq!(on.next_call(), None);
        assert_eq!(off.next_call(), None);
        assert_eq!(on.into_entries(), vec![wc(999), wc(1)]);
        assert_eq!(off.into_entries(), vec![wc(999), wc(1)]);
    });
}

#[test]
fn a_failed_call_is_no_round() {
    let (clock, time) = quanta::Clock::mock();
    quanta::with_clock(&clock, || {
        let watch = Some(SpinWatch::new());
        time.increment(Duration::from_secs(5));
        let mut poll = queue().poll_blocking(2);
        let failed = poll.absorb_watched(-3, vec![], &watch);
        assert_eq!(failed, (Err(OsError { code: -3 }), false));
        assert_eq!(poll.absorb_watched(0, vec![], &watch), (Ok(()), true));
    });
}

#[test]
fn watching_a_blocking_poll_into_a_buffer_only_warns() {
    let (clock, time) = quanta::Clock::mock();
    quanta::with_clock(&clock, || {
        let mut watch = Some(SpinWatch::new());
        let (mut a, mut b) = ([wc(0); 2], [wc(0); 2]);
        let mut off = queue().poll_blocking_into(&a);
        let mut on = queue().poll_blocking_into(&b);
        for (ret, millis, warn) in [(1, 1500, true), (0, 999, false), (1, 1, true)] {
            time.increment(Duration::from_millis(millis));
            assert_eq!(on.next_call(&b), off.next_call(&a));
            let buf = [wc(millis)];
            assert_eq!(off.absorb_watched(ret, &buf, &mut a, &None), (Ok(()), false));
            assert_eq!(on.absorb_watched(ret, &buf, &mut b, &watch), (Ok(()), warn));
            restart_if(warn, &mut watch);
        }
        time.increment(Duration::from_secs(5));
        let failed = on.absorb_watched(-3, &[], &mut b, &watch);
        assert_eq!(failed, (Err(OsError { code: -3 }), false));
        assert_eq!(on.next_call(&b), None);
        assert_eq!(a, [wc(1500), wc(1)]);
        assert_eq!(b, a);
    });
}

#[test]
fn watched_waits_for_one() {
    let (clock, time) = quanta::Clock::mock();
    quanta::with_clock(&clock, || {
        let watch = Some(SpinWatch::new());
        let mut slot = wc(90);
        let poll = queue().poll_one_blocking_into();
        assert_eq!(poll.absorb_into_watched(0, wc(1), &mut slot, &watch), (Ok(false), false));
        time.increment(Duration::from_secs(1));
        assert_eq!(poll.absorb_into_watched(0, wc(1), &mut slot, &watch), (Ok(false), true));
        assert_eq!(slot, wc(90));
        let failed = poll.absorb_into_watched(-1, wc(1), &mut slot, &watch);
        assert_eq!(failed, (Err(OsError { code: -1 }), false));
        assert_eq!(poll.absorb_into_watched(1, wc(1), &mut slot, &watch), (Ok(true), true));
        assert_eq!(slot, wc(1));
        let done = poll.absorb_consumed_watched(1, &wc(1), &watch);
        assert_eq!(done, (Ok(Some(WcStatus::Success)), false));
        let failed = poll.absorb_consumed_watched(-2, &wc(1), &watch);
        assert_eq!(failed, (Err(OsError { code: -2 }), false));
        assert_eq!(poll.absorb_consumed_watched(0, &wc(1), &watch), (Ok(None), true));
    });
}
