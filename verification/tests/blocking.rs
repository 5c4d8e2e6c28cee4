use rdma_verbs::cq::Cq;
use rdma_verbs::device::{Context, Gid};
use rdma_verbs::poll::PollCq;
use rdma_verbs::sys::OsError;
use rdma_verbs::wc::{Wc, WcStatus};

fn queue() -> Cq {
    let ctx = Context {
        raw: 0x1000,
        max_cqe: 1000,
        gid: Gid { raw: [0; 16] },
        gid_index: 0,
        port_num: 1,
        lid: 0,
        active_mtu: 5,
    };
    match Cq::new(&ctx, 128).unwrap().complete(0x77, 0) {
        Ok(cq) => cq,
        Err(_) => panic!("no queue"),
    }
}

fn wc(wr_id: u64, status: u32) -> Wc {
    Wc {
        wr_id,
        status,
        opcode: 0,
        vendor_err: 0,
        byte_len: 0,
        imm_data: 0,
        qp_num: 0,
        src_qp: 0,
        wc_flags: 0,
        pkey_index: 0,
        slid: 0,
        sl: 0,
        dlid_path_bits: 0,
    }
}

fn call(num: usize) -> PollCq {
    PollCq { cq: 0x77, num_entries: num as i32, room: num }
}

#[test]
fn blocking_poll_gathers_in_order() {
    let mut poll = queue().poll_blocking(5);
    assert_eq!(poll.next_call(), Some(call(5)));
    assert_eq!(poll.absorb(2, vec![wc(1, 0), wc(2, 0), wc(0, 0)]), Ok(()));
    assert_eq!(poll.next_call(), Some(call(3)));
    assert_eq!(poll.absorb(0, vec![wc(0, 0)]), Ok(()));
    assert_eq!(poll.next_call(), Some(call(3)));
    assert_eq!(poll.absorb(3, vec![wc(3, 0), wc(4, 9), wc(5, 0)]), Ok(()));
    assert_eq!(poll.next_call(), None);
    assert_eq!(
        poll.into_entries(),
        vec![wc(1, 0), wc(2, 0), wc(3, 0), wc(4, 9), wc(5, 0)]
    );
}

#[test]
fn blocking_poll_for_nothing_makes_no_call() {
    let poll = queue().poll_blocking(0);
    assert_eq!(poll.next_call(), None);
    assert_eq!(poll.into_entries(), vec![]);
}

#[test]
fn blocking_poll_fails_with_the_call() {
    let mut poll = queue().poll_blocking(2);
    assert_eq!(poll.absorb(1, vec![wc(1, 0)]), Ok(()));
    assert_eq!(poll.absorb(-22, vec![]), Err(OsError { code: -22 }));
}

#[test]
fn blocking_poll_fills_the_buffer_in_order() {
    let mut buf = [wc(0, 0); 4];
    let mut poll = queue().poll_blocking_into(&buf);
    assert_eq!(poll.next_call(&buf), Some(call(4)));
    assert_eq!(poll.absorb(1, &[wc(1, 0), wc(9, 9)], &mut buf), Ok(()));
    assert_eq!(buf, [wc(1, 0), wc(0, 0), wc(0, 0), wc(0, 0)]);
    assert_eq!(poll.next_call(&buf), Some(call(3)));
    assert_eq!(poll.absorb(-7, &[], &mut buf), Err(OsError { code: -7 }));
    assert_eq!(poll.next_call(&buf), Some(call(3)));
    assert_eq!(poll.absorb(0, &[], &mut buf), Ok(()));
    assert_eq!(poll.absorb(3, &[wc(2, 0), wc(3, 0), wc(4, 0)], &mut buf), Ok(()));
    assert_eq!(poll.next_call(&buf), None);
    assert_eq!(buf, [wc(1, 0), wc(2, 0), wc(3, 0), wc(4, 0)]);
}

#[test]
fn a_failed_poll_leaves_what_arrived_before() {
    let mut buf = [wc(90, 0); 3];
    let mut poll = queue().poll_blocking_into(&buf);
    assert_eq!(poll.absorb(1, &[wc(1, 0)], &mut buf), Ok(()));
    assert_eq!(poll.absorb(1, &[wc(2, 0)], &mut buf), Ok(()));
    assert_eq!(poll.absorb(-7, &[wc(3, 0)], &mut buf), Err(OsError { code: -7 }));
    assert_eq!(buf, [wc(1, 0), wc(2, 0), wc(90, 0)]);
}

#[test]
fn blocking_poll_into_an_empty_buffer_makes_no_call() {
    assert_eq!(queue().poll_blocking_into(&[]).next_call(&[]), None);
}

#[test]
fn waiting_for_one() {
    let poll = queue().poll_one_blocking();
    assert_eq!(poll.next_call(), call(1));
    assert_eq!(poll.absorb(0, wc(3, 0)), Ok(None));
    assert_eq!(poll.absorb(1, wc(3, 0)), Ok(Some(wc(3, 0))));
    assert_eq!(poll.absorb(-9, wc(3, 0)), Err(OsError { code: -9 }));
}

#[test]
fn waiting_for_one_is_the_blocking_poll_of_one() {
    let one = queue().poll_one_blocking();
    let mut many = queue().poll_blocking(1);
    assert_eq!(many.next_call(), Some(one.next_call()));
    assert_eq!(one.absorb(0, wc(3, 0)), Ok(None));
    assert_eq!(many.absorb(0, vec![wc(3, 0)]), Ok(()));
    assert_eq!(many.next_call(), Some(one.next_call()));
    assert_eq!(one.absorb(1, wc(4, 0)), Ok(Some(wc(4, 0))));
    assert_eq!(many.absorb(1, vec![wc(4, 0)]), Ok(()));
    assert_eq!(many.next_call(), None);
    assert_eq!(many.into_entries(), vec![wc(4, 0)]);
}

#[test]
fn waiting_for_one_into_a_slot() {
    let poll = queue().poll_one_blocking_into();
    let mut slot = wc(90, 0);
    assert_eq!(poll.absorb_into(0, wc(3, 0), &mut slot), Ok(false));
    assert_eq!(slot, wc(90, 0));
    assert_eq!(poll.absorb_into(-2, wc(3, 0), &mut slot), Err(OsError { code: -2 }));
    assert_eq!(slot, wc(90, 0));
    assert_eq!(poll.absorb_into(1, wc(3, 0), &mut slot), Ok(true));
    assert_eq!(slot, wc(3, 0));
}

#[test]
fn waiting_for_a_success() {
    let poll = queue().poll_one_blocking_consumed();
    assert_eq!(poll.next_call(), call(1));
    assert_eq!(poll.absorb_consumed(0, &wc(0, 0)), Ok(None));
    assert_eq!(poll.absorb_consumed(1, &wc(0, 0)), Ok(Some(WcStatus::Success)));
    assert_eq!(poll.absorb_consumed(1, &wc(0, 4)), Ok(Some(WcStatus::Failure(4))));
}

#[test]
fn a_failed_wait_is_no_success() {
    let poll = queue().poll_one_blocking_consumed();
    assert_eq!(poll.absorb_consumed(-1, &wc(0, 0)), Err(OsError { code: -1 }));
    assert_eq!(poll.absorb_consumed(-1, &wc(0, 21)), Err(OsError { code: -1 }));
}
