use bundler::inbox::{FeedbackOutcome, Runtime};
use bundler::qdisc::Qdisc;
use bundler::serialize::{OutBoxFeedbackMsg, QDiscFeedbackMsg, QDISC_FEEDBACK_MSG_TYPE};

const MS: u64 = 1_000_000;

fn mark(hash: u32, time: u64, bytes: u64, qlen: u32) -> QDiscFeedbackMsg {
    QDiscFeedbackMsg {
        msg_type: QDISC_FEEDBACK_MSG_TYPE,
        bundle_id: 42,
        marked_packet_hash: hash,
        curr_qlen: qlen,
        epoch_bytes: bytes,
        epoch_time: time,
    }
}

fn feedback(hash: u32, time: u64, bytes: u64) -> OutBoxFeedbackMsg {
    OutBoxFeedbackMsg {
        bundle_id: 42,
        marked_packet_hash: hash,
        epoch_bytes: bytes,
        epoch_time: time,
    }
}

fn runtime() -> Runtime {
    Runtime::new(Qdisc::new(false, 0))
}

#[test]
fn steady_matched_pairs() {
    let mut rt = runtime();

    rt.on_mark(&mark(0x11, 0, 0, 10));
    let out1 = rt.on_feedback(50 * MS, &feedback(0x11, 50 * MS, 0));
    assert!(matches!(out1, FeedbackOutcome::Matched(_)));

    rt.on_mark(&mark(0x22, 100 * MS, 125_000, 10));
    let out2 = rt.on_feedback(150 * MS, &feedback(0x22, 150 * MS, 125_000));
    assert!(matches!(out2, FeedbackOutcome::Matched(_)));

    assert_eq!(rt.flow_state.rtt_estimate, 50_000_000);
    assert_eq!(rt.flow_state.send_rate, 1_250_000);
    assert_eq!(rt.flow_state.recv_rate, 1_250_000);
    assert_eq!(rt.flow_state.acked_bytes, 125_000);
    assert_eq!(rt.flow_state.lost_bytes, 0);
}

#[test]
fn loss_shows_in_the_deltas() {
    let mut rt = runtime();

    rt.on_mark(&mark(0x11, 0, 0, 10));
    rt.on_feedback(50 * MS, &feedback(0x11, 50 * MS, 0));

    rt.on_mark(&mark(0x22, 100 * MS, 125_000, 10));
    let out = rt.on_feedback(150 * MS, &feedback(0x22, 150 * MS, 100_000));
    assert!(matches!(out, FeedbackOutcome::Matched(_)));

    assert_eq!(rt.flow_state.acked_bytes, 100_000);
    assert_eq!(rt.flow_state.lost_bytes, 25_000);
}

#[test]
fn algorithm_gate_holds_back_the_tick() {
    let mut rt = runtime();

    rt.on_mark(&mark(0x11, 0, 0, 10));
    rt.on_feedback(50 * MS, &feedback(0x11, 50 * MS, 1000));
    assert!(rt.ready_to_invoke);

    // A measurement is ready, but the algorithm has not signalled yet:
    // the tick must not invoke.
    assert!(rt.on_tick().is_none());

    rt.on_algorithm_ready();
    let prims = rt.on_tick().expect("gate open, measurement ready");
    assert_eq!(prims.rtt_sample_us, 50_000);

    // The one-shot deltas are cleared by the invocation.
    assert_eq!(rt.flow_state.acked_bytes, 0);
    assert_eq!(rt.flow_state.lost_bytes, 0);
}

#[test]
fn tick_without_a_match_does_nothing() {
    let mut rt = runtime();
    rt.on_algorithm_ready();
    assert!(rt.on_tick().is_none());
}

#[test]
fn tick_retunes_the_epoch_window() {
    let mut rt = runtime();

    rt.on_mark(&mark(0x11, 0, 0, 10));
    rt.on_feedback(50 * MS, &feedback(0x11, 50 * MS, 0));
    rt.on_mark(&mark(0x22, 100 * MS, 125_000, 10));
    rt.on_feedback(150 * MS, &feedback(0x22, 150 * MS, 125_000));
    rt.on_algorithm_ready();
    rt.on_tick().expect("invokes");

    // send_rate 1.25 MB/s over rtt 50 ms is 62500 bytes in flight, 41
    // packets of 1500 B; rounded down to 32 and divided by the epoch
    // length 4 that makes a window of 8 pairs.
    assert_eq!(rt.flow_state.epoch_history.window, 8);
}

#[test]
fn late_feedback_is_discarded() {
    let mut rt = runtime();

    rt.on_mark(&mark(0xa, 0, 0, 1));
    rt.on_mark(&mark(0xb, 50 * MS, 1000, 1));
    rt.on_mark(&mark(0xc, 100 * MS, 2000, 1));

    // The youngest matches first; the overtaken marks are late.
    let out_c = rt.on_feedback(150 * MS, &feedback(0xc, 150 * MS, 2000));
    assert!(matches!(out_c, FeedbackOutcome::Matched(_)));
    let rtt_after_c = rt.flow_state.rtt_estimate;

    let out_b = rt.on_feedback(200 * MS, &feedback(0xb, 200 * MS, 1000));
    assert!(matches!(out_b, FeedbackOutcome::Late));
    // A late sample does not disturb the running estimate.
    assert_eq!(rt.flow_state.rtt_estimate, rtt_after_c);

    let out_a = rt.on_feedback(250 * MS, &feedback(0xa, 250 * MS, 0));
    assert!(matches!(out_a, FeedbackOutcome::Late));
}

#[test]
fn unmatched_feedback_is_dropped() {
    let mut rt = runtime();
    rt.on_mark(&mark(0x11, 0, 0, 1));
    let out = rt.on_feedback(10 * MS, &feedback(0x99, 10 * MS, 0));
    assert!(matches!(out, FeedbackOutcome::NoMatch));
    assert!(!rt.ready_to_invoke);
}

#[test]
fn ttl_expired_mark_gives_no_match() {
    let mut rt = runtime();
    rt.on_mark(&mark(0x11, 0, 0, 1));
    let out = rt.on_feedback(2_500 * MS, &feedback(0x11, 2_500 * MS, 0));
    assert!(matches!(out, FeedbackOutcome::NoMatch));
    // The state is undisturbed.
    assert_eq!(rt.flow_state.rtt_estimate, 0);
    assert!(!rt.ready_to_invoke);
}

#[test]
fn mark_records_queue_length() {
    let mut rt = runtime();
    rt.on_mark(&mark(0x11, 0, 0, 77));
    assert_eq!(rt.flow_state.curr_qlen, 77);
}
