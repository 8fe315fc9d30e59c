use bundler::serialize::{
    OutBoxFeedbackMsg, OutBoxReportMsg, QDiscFeedbackMsg, QDiscPrioMsg, QDiscRecvMsgs,
    QDiscUpdateMsg, UpdatePrioMsg, QDISC_FEEDBACK_MSG_TYPE, QDISC_PRIO_MSG_TYPE,
    UPDATE_PRIO_MSG_TYPE, UPDATE_QDISC_MSG_TYPE,
};

#[test]
fn check_outbox_msg() {
    let m = OutBoxFeedbackMsg {
        bundle_id: 3,
        marked_packet_hash: 0x3fff_ffff,
        epoch_bytes: 0xe,
        epoch_time: 0xf0f0_f0f0,
    };

    let buf = m.as_bytes();
    let ms = OutBoxFeedbackMsg::from_slice(&buf);
    assert_eq!(m, ms);
}

#[test]
fn check_qdisc_msg() {
    let m = QDiscFeedbackMsg {
        msg_type: QDISC_FEEDBACK_MSG_TYPE,
        bundle_id: 3,
        marked_packet_hash: 0x3fff_ffff,
        curr_qlen: 24,
        epoch_bytes: 0xe,
        epoch_time: 0x3030_3030,
    };

    let buf = m.as_bytes();
    let ms = QDiscFeedbackMsg::from_slice(&buf);
    assert_eq!(m, ms);
}

#[test]
fn check_update_msg() {
    let m = QDiscUpdateMsg {
        msg_type: UPDATE_QDISC_MSG_TYPE,
        bundle_id: 4,
        sample_rate: 128,
    };
    let buf = m.as_bytes();
    let ms = QDiscUpdateMsg::from_slice(&buf);
    assert_eq!(m, ms);
}

#[test]
fn mod_check_outbox_msg() {
    let m = OutBoxFeedbackMsg {
        bundle_id: 3,
        marked_packet_hash: 0x3fff_ffff,
        epoch_bytes: 0xe,
        epoch_time: 0xf0f0_f0f0,
    };

    let buf = m.as_bytes();
    let ms = OutBoxFeedbackMsg::from_slice(&buf);
    assert_eq!(m, ms);
}

#[test]
fn check_report_msg() {
    let m = OutBoxReportMsg {
        bundle_id: 42,
        epoch_length_packets: 256,
    };
    let buf = m.as_bytes();
    assert_eq!(buf.len(), 8);
    let ms = OutBoxReportMsg::from_slice(&buf);
    assert_eq!(m, ms);
}

#[test]
fn check_update_prio_msg() {
    let m = UpdatePrioMsg {
        msg_type: UPDATE_PRIO_MSG_TYPE,
        bundle_id: 42,
        flow_id: 7,
        flow_prio: 2,
    };
    let buf = m.as_bytes();
    assert_eq!(buf.len(), 16);
    let ms = UpdatePrioMsg::from_slice(&buf);
    assert_eq!(m, ms);
}

#[test]
fn check_qdisc_prio_msg() {
    let m = QDiscPrioMsg {
        msg_type: QDISC_PRIO_MSG_TYPE,
        bundle_id: 42,
        flow_id: 9,
        src_ip: 0x0a00_0001,
        src_port: 443,
        dst_ip: 0x0a00_0002,
        dst_port: 55_112,
    };
    let buf = m.as_bytes();
    assert_eq!(buf.len(), 24);
    let ms = QDiscPrioMsg::from_slice(&buf);
    assert_eq!(m, ms);
}

#[test]
fn feedback_wire_layout_is_little_endian() {
    let m = OutBoxFeedbackMsg {
        bundle_id: 0x0102_0304,
        marked_packet_hash: 0x1122_3344,
        epoch_bytes: 0x0506_0708_090a_0b0c,
        epoch_time: 1,
    };
    let buf = m.as_bytes();
    assert_eq!(buf.len(), 24);
    assert_eq!(&buf[0..4], &[0x04, 0x03, 0x02, 0x01]);
    assert_eq!(&buf[4..8], &[0x44, 0x33, 0x22, 0x11]);
    assert_eq!(&buf[8..16], &[0x0c, 0x0b, 0x0a, 0x09, 0x08, 0x07, 0x06, 0x05]);
    assert_eq!(&buf[16..24], &[1, 0, 0, 0, 0, 0, 0, 0]);
}

#[test]
fn update_msg_writes_its_tag() {
    let m = QDiscUpdateMsg {
        msg_type: UPDATE_QDISC_MSG_TYPE,
        bundle_id: 1,
        sample_rate: 2,
    };
    let buf = m.as_bytes();
    assert_eq!(buf.len(), 12);
    assert_eq!(&buf[0..4], &[2, 0, 0, 0]);
}

#[test]
fn recv_dispatch_feedback() {
    let m = QDiscFeedbackMsg {
        msg_type: QDISC_FEEDBACK_MSG_TYPE,
        bundle_id: 42,
        marked_packet_hash: 0xdead_beef,
        curr_qlen: 5,
        epoch_bytes: 1000,
        epoch_time: 2000,
    };
    let buf = m.as_bytes();
    match QDiscRecvMsgs::from_slice(&buf) {
        Some(QDiscRecvMsgs::BundleFeedback(got)) => assert_eq!(got, m),
        other => panic!("expected bundle feedback, got {:?}", other),
    }
}

#[test]
fn recv_dispatch_flow_prio() {
    let m = QDiscPrioMsg {
        msg_type: QDISC_PRIO_MSG_TYPE,
        bundle_id: 42,
        flow_id: 3,
        src_ip: 1,
        src_port: 2,
        dst_ip: 3,
        dst_port: 4,
    };
    let buf = m.as_bytes();
    match QDiscRecvMsgs::from_slice(&buf) {
        Some(QDiscRecvMsgs::FlowPrio(got)) => assert_eq!(got, m),
        other => panic!("expected flow announcement, got {:?}", other),
    }
}

#[test]
fn recv_dispatch_refuses_unknown_tag() {
    let buf = [9u8, 0, 0, 0, 1, 2, 3, 4, 5, 6, 7, 8, 9, 10, 11, 12, 13, 14, 15, 16, 17, 18, 19,
        20, 21, 22, 23, 24, 25, 26, 27, 28];
    assert!(QDiscRecvMsgs::from_slice(&buf).is_none());
}

#[test]
fn recv_dispatch_refuses_short_buffers() {
    assert!(QDiscRecvMsgs::from_slice(&[]).is_none());
    assert!(QDiscRecvMsgs::from_slice(&[1, 0, 0]).is_none());
    // A feedback tag on fewer than 32 bytes is refused too.
    let buf = [1u8, 0, 0, 0, 1, 2, 3, 4, 5, 6, 7, 8];
    assert!(QDiscRecvMsgs::from_slice(&buf).is_none());
}
