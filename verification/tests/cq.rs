use rdma_verbs::cq::{
    Cq, CqCreationError, CqInitAttr, CreateCq, DestroyCq, IbvCq,
};
use rdma_verbs::device::{Context, Gid};
use rdma_verbs::poll::{PollCq, PollInto};
use rdma_verbs::sys::OsError;
use rdma_verbs::wc::{Wc, WcStatus};

fn context(max_cqe: i32) -> Context {
    Context {
        raw: 0x1000,
        max_cqe,
        gid: Gid { raw: [7; 16] },
        gid_index: 3,
        port_num: 1,
        lid: 9,
        active_mtu: 5,
    }
}

fn queue() -> Cq {
    match Cq::new(&context(1000), 128).unwrap().complete(0xabc0, 0) {
        Ok(cq) => cq,
        Err(_) => panic!("no queue"),
    }
}

fn wc(wr_id: u64, status: u32) -> Wc {
    Wc {
        wr_id,
        status,
        opcode: 0,
        vendor_err: 0,
        byte_len: 0,
        imm_data: 0,
        qp_num: 0,
        src_qp: 0,
        wc_flags: 0,
        pkey_index: 0,
        slid: 0,
        sl: 0,
        dlid_path_bits: 0,
    }
}

#[test]
fn creation_asks_for_the_capacity() {
    let ctx = context(1000);
    let plain = CreateCq {
        ctx,
        cqe: 1000,
        cq_context: 0,
        channel: 0,
        comp_vector: 0,
        init_attr: None,
    };
    assert_eq!(Cq::new(&ctx, 1000), Ok(plain));
    let exp = CqInitAttr { with_flags: true, timestamp: true };
    assert_eq!(Cq::new_exp(&ctx, 1000), Ok(CreateCq { init_attr: Some(exp), ..plain }));
}

#[test]
fn creation_refuses_too_large_a_capacity() {
    assert_eq!(Cq::new(&context(1000), 1001), Err(CqCreationError::TooManyCqes(1000)));
    assert_eq!(Cq::new_exp(&context(1000), 1001), Err(CqCreationError::TooManyCqes(1000)));
    assert_eq!(Cq::new(&context(0), 1), Err(CqCreationError::TooManyCqes(0)));
}

#[test]
fn a_negative_maximum_is_read_as_unsigned() {
    let call = Cq::new(&context(-1), u32::MAX).unwrap();
    assert_eq!(call.cqe, -1);
    assert_eq!(
        Cq::new(&context(i32::MIN), 0x8000_0001),
        Err(CqCreationError::TooManyCqes(0x8000_0000))
    );
}

#[test]
fn creation_fails_with_errno() {
    let call = Cq::new(&context(1000), 10).unwrap();
    match call.complete(0, 12) {
        Ok(_) => panic!("a queue out of nothing"),
        Err(e) => assert_eq!(e, CqCreationError::IoError(OsError { code: 12 })),
    }
}

#[test]
fn a_queue_knows_where_it_comes_from() {
    let cq = queue();
    assert_eq!(cq.as_raw(), 0xabc0);
    assert_eq!(*cq.context(), context(1000));
    assert_eq!(cq.capacity(255), 255);
    assert_eq!(cq.capacity(511), 511);
    assert_eq!(cq.capacity(-1), u32::MAX);
    assert_eq!(cq.debug_text(), "Cq<0xabc0>");
    assert_eq!(Cq::DEFAULT_CQ_DEPTH, 128);
}

#[test]
fn clones_share_the_queue() {
    let cq = queue();
    let other = cq.clone();
    assert_eq!(other.as_raw(), cq.as_raw());
    assert_eq!(other.context(), cq.context());
    assert_eq!(other.poll(255), cq.poll(255));
    assert!(std::ptr::eq(other.context(), cq.context()));
}

#[test]
fn errors_in_words() {
    let too_many = CqCreationError::TooManyCqes(4194303);
    assert_eq!(too_many.message(), "CQ capacity too large (maximum: 4194303)");
    assert_eq!(CqCreationError::TooManyCqes(0).message(), "CQ capacity too large (maximum: 0)");
    let io = CqCreationError::from(OsError { code: 22 });
    assert_eq!(io, CqCreationError::IoError(OsError { code: 22 }));
    assert_eq!(io.message(), "I/O error from ibverbs");
}

#[test]
fn destruction() {
    let call = IbvCq { addr: 0xabc0 }.destroy();
    assert_eq!(call, DestroyCq { cq: 0xabc0 });
    assert_eq!(call.complete(0), Ok(()));
    assert_eq!(call.complete(16), Err(OsError { code: 16 }));
}

#[test]
fn poll_asks_for_the_whole_capacity() {
    let cq = queue();
    assert_eq!(cq.poll(255), PollCq { cq: 0xabc0, num_entries: 255, room: 255 });
    assert_eq!(cq.poll(511), PollCq { cq: 0xabc0, num_entries: 511, room: 511 });
    assert_eq!(cq.poll(255), cq.poll_some(cq.capacity(255)));
}

#[test]
fn poll_some_hands_the_number_on() {
    let cq = queue();
    assert_eq!(cq.poll_some(0), PollCq { cq: 0xabc0, num_entries: 0, room: 0 });
    assert_eq!(cq.poll_some(7), PollCq { cq: 0xabc0, num_entries: 7, room: 7 });
    assert_eq!(
        cq.poll_some(0x8000_0000),
        PollCq { cq: 0xabc0, num_entries: i32::MIN, room: 0x8000_0000 }
    );
}

#[test]
fn poll_some_returns_what_was_polled() {
    let call = queue().poll_some(3);
    let buf = vec![wc(1, 0), wc(2, 5), wc(0, 0)];
    assert_eq!(call.into_entries(2, buf.clone()), Ok(vec![wc(1, 0), wc(2, 5)]));
    assert_eq!(call.into_entries(0, buf.clone()), Ok(vec![]));
    assert_eq!(call.into_entries(-11, buf), Err(OsError { code: -11 }));
}

#[test]
fn poll_one_returns_at_most_one() {
    let call = queue().poll_one();
    assert_eq!(call, PollCq { cq: 0xabc0, num_entries: 1, room: 1 });
    assert_eq!(call.into_one(1, wc(8, 0)), Ok(Some(wc(8, 0))));
    assert_eq!(call.into_one(0, wc(8, 0)), Ok(None));
    assert_eq!(call.into_one(-5, wc(8, 0)), Err(OsError { code: -5 }));
}

#[test]
fn poll_into_an_empty_buffer_makes_no_call() {
    assert_eq!(queue().poll_into(&[]), PollInto::Polled(0));
}

#[test]
fn poll_into_writes_the_front_of_the_buffer() {
    let cq = queue();
    let mut buf = [wc(90, 0), wc(91, 0), wc(92, 0)];
    let call = match cq.poll_into(&buf) {
        PollInto::Call(call) => call,
        PollInto::Polled(_) => panic!("no call"),
    };
    assert_eq!(call, PollCq { cq: 0xabc0, num_entries: 3, room: 3 });
    assert_eq!(call.into_buffer(2, &[wc(1, 0), wc(2, 0), wc(3, 0)], &mut buf), Ok(2));
    assert_eq!(buf, [wc(1, 0), wc(2, 0), wc(92, 0)]);
    assert_eq!(call.into_buffer(-3, &[], &mut buf), Err(OsError { code: -3 }));
    assert_eq!(buf, [wc(1, 0), wc(2, 0), wc(92, 0)]);
}

#[test]
fn poll_one_into_writes_what_arrived() {
    let call = queue().poll_one_into();
    assert_eq!(call, PollCq { cq: 0xabc0, num_entries: 1, room: 1 });
    let mut slot = wc(90, 0);
    assert_eq!(call.into_slot(0, wc(1, 0), &mut slot), Ok(0));
    assert_eq!(slot, wc(90, 0));
    assert_eq!(call.into_slot(-1, wc(1, 0), &mut slot), Err(OsError { code: -1 }));
    assert_eq!(slot, wc(90, 0));
    assert_eq!(call.into_slot(1, wc(1, 0), &mut slot), Ok(1));
    assert_eq!(slot, wc(1, 0));
}

#[test]
fn status_of_a_completion() {
    assert_eq!(wc(1, 0).status(), WcStatus::Success);
    assert_eq!(wc(1, 12).status(), WcStatus::Failure(12));
}
