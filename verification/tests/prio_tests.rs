use bundler::inbox::Runtime;
use bundler::prio::{flow_priority_response, DefaultPrioritizer, FlowInfo, Prioritizer};
use bundler::qdisc::Qdisc;
use bundler::serialize::{QDiscPrioMsg, QDISC_PRIO_MSG_TYPE, UPDATE_PRIO_MSG_TYPE};

fn announcement() -> QDiscPrioMsg {
    QDiscPrioMsg {
        msg_type: QDISC_PRIO_MSG_TYPE,
        bundle_id: 42,
        flow_id: 12,
        src_ip: 0x0a00_0001,
        src_port: 40_000,
        dst_ip: 0x0a00_0002,
        dst_port: 443,
    }
}

#[test]
fn default_priority_is_one() {
    let mut p = DefaultPrioritizer;
    let flow = FlowInfo::new(1, 2, 3, 4);
    assert_eq!(p.assign_priority(flow), 1);
}

#[test]
fn flow_info_from_announcement() {
    let msg = announcement();
    let flow = FlowInfo::from_announcement(&msg);
    assert_eq!(flow, FlowInfo::new(0x0a00_0001, 40_000, 0x0a00_0002, 443));
}

#[test]
fn priority_response_echoes_the_flow() {
    let msg = announcement();
    let r = flow_priority_response(&msg, 2);
    assert_eq!(r.msg_type, UPDATE_PRIO_MSG_TYPE);
    assert_eq!(r.bundle_id, 42);
    assert_eq!(r.flow_id, 12);
    assert_eq!(r.flow_prio, 2);
}

#[test]
fn algorithm_rate_directive_reaches_the_adapter() {
    let mut rt = Runtime::new(Qdisc::new(false, 0));
    let push = rt.on_algorithm_set_rate(800_000);
    assert_eq!(push, Some(800_000));
    assert_eq!(rt.qdisc.curr_set_rate, 800_000);
}

#[test]
fn zero_cwnd_falls_back_to_the_default() {
    let mut rt = Runtime::new(Qdisc::new(false, 0));
    rt.qdisc.update_rtt(100_000_000);
    let push = rt.on_algorithm_set_cwnd(0);
    // 15 kB over 100 ms sustains 150 kB/s.
    assert_eq!(push, Some(150_000));
    assert_eq!(rt.qdisc.cwnd_bytes, 15_000);
}

#[test]
fn rejected_cwnd_directive_is_swallowed() {
    let mut rt = Runtime::new(Qdisc::new(false, 0));
    rt.qdisc.update_rtt(100_000_000);
    let push = rt.on_algorithm_set_cwnd(100);
    assert!(push.is_none());
    // The adapter is untouched.
    assert_eq!(rt.qdisc.cwnd_bytes, bundler::qdisc::UNSET);
}
