use bundler::qdisc::{get_epoch_length, EpochMsgs, Qdisc, UNSET};
use bundler::serialize::{OutBoxReportMsg, QDiscUpdateMsg, UPDATE_QDISC_MSG_TYPE};

#[test]
fn epoch_length_adjustment() {
    // Observed sending rate 12 MB/s with a 10 ms minimum RTT: 80 packets
    // in flight, rounded down to 64, quartered to 16.
    assert_eq!(get_epoch_length(12_000_000, 10_000_000), 16);

    let mut q = Qdisc::new(true, 0);
    q.note_outbox_found();
    q.update_rtt(10_000_000);
    let msgs = q.update_send_rate(12_000_000).expect("the length moves from 4 to 16");
    assert_eq!(
        msgs,
        EpochMsgs {
            to_outbox: Some(OutBoxReportMsg { bundle_id: 42, epoch_length_packets: 16 }),
            to_shaper: QDiscUpdateMsg {
                msg_type: UPDATE_QDISC_MSG_TYPE,
                bundle_id: 42,
                sample_rate: 16,
            },
        }
    );
    assert_eq!(q.get_curr_epoch_length(), 16);
}

#[test]
fn epoch_length_stays_in_bounds() {
    // A tiny BDP clamps to the minimum ...
    assert_eq!(get_epoch_length(0, 0), 4);
    assert_eq!(get_epoch_length(1_000, 1_000), 4);
    // ... and a huge one to the maximum.
    assert_eq!(get_epoch_length(u64::MAX, u64::MAX), 1024);
}

#[test]
fn epoch_report_waits_for_outbox_address() {
    let mut q = Qdisc::new(true, 0);
    q.update_rtt(10_000_000);
    let msgs = q.update_send_rate(12_000_000).expect("the length changes");
    // The outbox address is still unknown: only the shaper is told.
    assert!(msgs.to_outbox.is_none());
    assert_eq!(msgs.to_shaper.sample_rate, 16);
}

#[test]
fn static_epoch_never_moves() {
    let mut q = Qdisc::new(false, 0);
    q.note_outbox_found();
    q.update_rtt(10_000_000);
    assert!(q.update_send_rate(12_000_000).is_none());
    assert_eq!(q.get_curr_epoch_length(), 4);
    assert!(q.set_epoch_length(128).is_none());
    assert_eq!(q.get_curr_epoch_length(), 4);
}

#[test]
fn unchanged_epoch_length_sends_nothing() {
    let mut q = Qdisc::new(true, 0);
    q.note_outbox_found();
    let first = q.set_epoch_length(64);
    assert!(first.is_some());
    let second = q.set_epoch_length(64);
    assert!(second.is_none());
}

#[test]
fn effective_rate_is_the_minimum() {
    let mut q = Qdisc::new(false, 0);
    // Only a rate request: it is pushed as-is.
    let push = q.set_rate(1_000_000);
    assert_eq!(push, Some(1_000_000));
    assert_eq!(q.curr_set_rate, 1_000_000);

    // A 100 ms RTT with a 150 kB cwnd sustains 1.5 MB/s: the rate
    // request stays the binding term.
    q.update_rtt(100_000_000);
    let r = q.set_approx_cwnd(150_000).expect("cwnd accepted");
    assert!(r.is_none(), "effective rate unchanged, nothing pushed");
    assert_eq!(q.curr_set_rate, 1_000_000);

    // Raise the request beyond what the cwnd sustains: the cwnd term
    // binds.
    let push = q.set_rate(2_000_000);
    assert_eq!(push, Some(1_500_000));
    assert_eq!(q.curr_set_rate, 1_500_000);
    assert!(q.curr_set_rate <= 2_000_000);
}

#[test]
fn no_push_before_any_request() {
    let mut q = Qdisc::new(false, 0);
    // Only RTT samples, no rate and no cwnd: nothing to push.
    assert!(q.update_rtt(5_000_000).is_none());
    assert_eq!(q.curr_set_rate, UNSET);
}

#[test]
fn rate_floor_lifts_the_push() {
    let mut q = Qdisc::new(false, 125_000);
    let push = q.set_rate(1_000);
    assert_eq!(push, Some(125_000));
    // The register keeps the true effective rate; only the push is
    // lifted.
    assert_eq!(q.curr_set_rate, 1_000);
}

#[test]
fn cwnd_below_one_packet_is_refused() {
    let mut q = Qdisc::new(false, 0);
    q.update_rtt(100_000_000);
    assert!(q.set_approx_cwnd(1_499).is_err());
    assert!(q.set_approx_cwnd(1_500).is_ok());
}

#[test]
fn cwnd_without_rtt_is_refused() {
    let mut q = Qdisc::new(false, 0);
    q.update_rtt(0);
    assert!(q.set_approx_cwnd(150_000).is_err());
}

#[test]
fn min_rtt_only_falls() {
    let mut q = Qdisc::new(false, 0);
    q.update_rtt(50_000_000);
    assert_eq!(q.min_rtt_ns, 50_000_000);
    q.update_rtt(80_000_000);
    assert_eq!(q.min_rtt_ns, 50_000_000);
    assert_eq!(q.rtt_ns, 80_000_000);
    q.update_rtt(20_000_000);
    assert_eq!(q.min_rtt_ns, 20_000_000);
}
