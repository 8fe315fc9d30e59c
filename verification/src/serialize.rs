//! Wire codecs for the side-channel and shaper control messages.
//!
//! All messages are little-endian.  The side channel between inbox and
//! outbox carries [`OutBoxFeedbackMsg`] (outbox to inbox, 24 bytes) and
//! [`OutBoxReportMsg`] (inbox to outbox, 8 bytes).  The shaper control
//! channel carries datagrams tagged by a leading `msg_type` word:
//! [`QDiscFeedbackMsg`] (type 1), [`QDiscUpdateMsg`] (type 2),
//! [`UpdatePrioMsg`] (type 3) and [`QDiscPrioMsg`] (type 4).

use vstd::prelude::*;
use vstd::assert_seqs_equal;
use vstd::bytes::*;

verus! {

/// Shaper feedback datagrams carry this leading `msg_type`.
pub const QDISC_FEEDBACK_MSG_TYPE: u32 = 1;

/// Sample-rate update datagrams carry this leading `msg_type`.
pub const UPDATE_QDISC_MSG_TYPE: u32 = 2;

/// Flow-priority update datagrams carry this leading `msg_type`.
pub const UPDATE_PRIO_MSG_TYPE: u32 = 3;

/// Flow-announcement datagrams carry this leading `msg_type`.
pub const QDISC_PRIO_MSG_TYPE: u32 = 4;

/// Inbox-to-outbox side-channel message announcing the epoch length
/// (the sampling period, in packets) that the outbox should use.
#[derive(Clone, Copy, Debug, PartialEq, Eq, Structural)]
pub struct OutBoxReportMsg {
    pub bundle_id: u32,
    pub epoch_length_packets: u32,
}

impl OutBoxReportMsg {
    /// The 8-byte little-endian encoding.
    pub open spec fn spec_bytes(self) -> Seq<u8> {
        spec_u32_to_le_bytes(self.bundle_id) + spec_u32_to_le_bytes(self.epoch_length_packets)
    }

    /// The message read back from the first 8 bytes of `s`.
    pub open spec fn spec_from(s: Seq<u8>) -> Self
        recommends
            s.len() >= 8,
    {
        OutBoxReportMsg {
            bundle_id: spec_u32_from_le_bytes(s.subrange(0, 4)),
            epoch_length_packets: spec_u32_from_le_bytes(s.subrange(4, 8)),
        }
    }

    pub fn as_bytes(&self) -> (r: Vec<u8>)
        ensures
            r@ == self.spec_bytes(),
            r@.len() == 8,
    {
        let mut buf = u32_to_le_bytes(self.bundle_id);
        let mut b1 = u32_to_le_bytes(self.epoch_length_packets);
        buf.append(&mut b1);
        buf
    }

    pub fn from_slice(buf: &[u8]) -> (r: Self)
        requires
            buf@.len() >= 8,
        ensures
            r == Self::spec_from(buf@),
    {
        OutBoxReportMsg {
            bundle_id: u32_from_le_bytes(vstd::slice::slice_subrange(buf, 0, 4)),
            epoch_length_packets: u32_from_le_bytes(vstd::slice::slice_subrange(buf, 4, 8)),
        }
    }
}

/// Decoding an encoded [`OutBoxReportMsg`] gives the message back.
pub proof fn lemma_outbox_report_msg_roundtrip(m: OutBoxReportMsg)
    ensures
        OutBoxReportMsg::spec_from(m.spec_bytes()) == m,
{
    lemma_auto_spec_u32_to_from_le_bytes();
    let s = m.spec_bytes();
    assert_seqs_equal!(s.subrange(0, 4) == spec_u32_to_le_bytes(m.bundle_id));
    assert_seqs_equal!(s.subrange(4, 8) == spec_u32_to_le_bytes(m.epoch_length_packets));
}

/// Outbox-to-inbox side-channel feedback: a marked packet was observed at
/// the receiver.  The receive time of this message, combined with the send
/// time of the corresponding marked packet, gives the RTT.
#[derive(Clone, Copy, Debug, PartialEq, Eq, Structural)]
pub struct OutBoxFeedbackMsg {
    pub bundle_id: u32,
    pub marked_packet_hash: u32,
    pub epoch_bytes: u64,
    pub epoch_time: u64,
}

impl OutBoxFeedbackMsg {
    /// The 24-byte little-endian encoding.
    pub open spec fn spec_bytes(self) -> Seq<u8> {
        spec_u32_to_le_bytes(self.bundle_id) + spec_u32_to_le_bytes(self.marked_packet_hash)
            + spec_u64_to_le_bytes(self.epoch_bytes) + spec_u64_to_le_bytes(self.epoch_time)
    }

    /// The message read back from the first 24 bytes of `s`.
    pub open spec fn spec_from(s: Seq<u8>) -> Self
        recommends
            s.len() >= 24,
    {
        OutBoxFeedbackMsg {
            bundle_id: spec_u32_from_le_bytes(s.subrange(0, 4)),
            marked_packet_hash: spec_u32_from_le_bytes(s.subrange(4, 8)),
            epoch_bytes: spec_u64_from_le_bytes(s.subrange(8, 16)),
            epoch_time: spec_u64_from_le_bytes(s.subrange(16, 24)),
        }
    }

    pub fn as_bytes(&self) -> (r: Vec<u8>)
        ensures
            r@ == self.spec_bytes(),
            r@.len() == 24,
    {
        let mut buf = u32_to_le_bytes(self.bundle_id);
        let mut b1 = u32_to_le_bytes(self.marked_packet_hash);
        let mut b2 = u64_to_le_bytes(self.epoch_bytes);
        let mut b3 = u64_to_le_bytes(self.epoch_time);
        buf.append(&mut b1);
        buf.append(&mut b2);
        buf.append(&mut b3);
        buf
    }

    pub fn from_slice(buf: &[u8]) -> (r: Self)
        requires
            buf@.len() >= 24,
        ensures
            r == Self::spec_from(buf@),
    {
        OutBoxFeedbackMsg {
            bundle_id: u32_from_le_bytes(vstd::slice::slice_subrange(buf, 0, 4)),
            marked_packet_hash: u32_from_le_bytes(vstd::slice::slice_subrange(buf, 4, 8)),
            epoch_bytes: u64_from_le_bytes(vstd::slice::slice_subrange(buf, 8, 16)),
            epoch_time: u64_from_le_bytes(vstd::slice::slice_subrange(buf, 16, 24)),
        }
    }
}

/// Decoding an encoded [`OutBoxFeedbackMsg`] gives the message back.
pub proof fn lemma_outbox_feedback_msg_roundtrip(m: OutBoxFeedbackMsg)
    ensures
        OutBoxFeedbackMsg::spec_from(m.spec_bytes()) == m,
{
    lemma_auto_spec_u32_to_from_le_bytes();
    lemma_auto_spec_u64_to_from_le_bytes();
    let s = m.spec_bytes();
    assert_seqs_equal!(s.subrange(0, 4) == spec_u32_to_le_bytes(m.bundle_id));
    assert_seqs_equal!(s.subrange(4, 8) == spec_u32_to_le_bytes(m.marked_packet_hash));
    assert_seqs_equal!(s.subrange(8, 16) == spec_u64_to_le_bytes(m.epoch_bytes));
    assert_seqs_equal!(s.subrange(16, 24) == spec_u64_to_le_bytes(m.epoch_time));
}

/// Shaper feedback: a marked packet crossed the pacing queue.  Carries the
/// fingerprint, the cumulative byte counter, the send timestamp and the
/// current queue length.
#[derive(Clone, Copy, Debug, PartialEq, Eq, Structural)]
pub struct QDiscFeedbackMsg {
    pub msg_type: u32,
    pub bundle_id: u32,
    pub marked_packet_hash: u32,
    pub curr_qlen: u32,
    pub epoch_bytes: u64,
    pub epoch_time: u64,
}

impl QDiscFeedbackMsg {
    /// The 32-byte little-endian encoding.
    pub open spec fn spec_bytes(self) -> Seq<u8> {
        spec_u32_to_le_bytes(self.msg_type) + spec_u32_to_le_bytes(self.bundle_id)
            + spec_u32_to_le_bytes(self.marked_packet_hash) + spec_u32_to_le_bytes(self.curr_qlen)
            + spec_u64_to_le_bytes(self.epoch_bytes) + spec_u64_to_le_bytes(self.epoch_time)
    }

    /// The message read back from the first 32 bytes of `s`.
    pub open spec fn spec_from(s: Seq<u8>) -> Self
        recommends
            s.len() >= 32,
    {
        QDiscFeedbackMsg {
            msg_type: spec_u32_from_le_bytes(s.subrange(0, 4)),
            bundle_id: spec_u32_from_le_bytes(s.subrange(4, 8)),
            marked_packet_hash: spec_u32_from_le_bytes(s.subrange(8, 12)),
            curr_qlen: spec_u32_from_le_bytes(s.subrange(12, 16)),
            epoch_bytes: spec_u64_from_le_bytes(s.subrange(16, 24)),
            epoch_time: spec_u64_from_le_bytes(s.subrange(24, 32)),
        }
    }

    pub fn as_bytes(&self) -> (r: Vec<u8>)
        ensures
            r@ == self.spec_bytes(),
            r@.len() == 32,
    {
        let mut buf = u32_to_le_bytes(self.msg_type);
        let mut b1 = u32_to_le_bytes(self.bundle_id);
        let mut b2 = u32_to_le_bytes(self.marked_packet_hash);
        let mut b3 = u32_to_le_bytes(self.curr_qlen);
        let mut b4 = u64_to_le_bytes(self.epoch_bytes);
        let mut b5 = u64_to_le_bytes(self.epoch_time);
        buf.append(&mut b1);
        buf.append(&mut b2);
        buf.append(&mut b3);
        buf.append(&mut b4);
        buf.append(&mut b5);
        buf
    }

    pub fn from_slice(buf: &[u8]) -> (r: Self)
        requires
            buf@.len() >= 32,
        ensures
            r == Self::spec_from(buf@),
    {
        QDiscFeedbackMsg {
            msg_type: u32_from_le_bytes(vstd::slice::slice_subrange(buf, 0, 4)),
            bundle_id: u32_from_le_bytes(vstd::slice::slice_subrange(buf, 4, 8)),
            marked_packet_hash: u32_from_le_bytes(vstd::slice::slice_subrange(buf, 8, 12)),
            curr_qlen: u32_from_le_bytes(vstd::slice::slice_subrange(buf, 12, 16)),
            epoch_bytes: u64_from_le_bytes(vstd::slice::slice_subrange(buf, 16, 24)),
            epoch_time: u64_from_le_bytes(vstd::slice::slice_subrange(buf, 24, 32)),
        }
    }
}

/// Decoding an encoded [`QDiscFeedbackMsg`] gives the message back.
pub proof fn lemma_qdisc_feedback_msg_roundtrip(m: QDiscFeedbackMsg)
    ensures
        QDiscFeedbackMsg::spec_from(m.spec_bytes()) == m,
{
    lemma_auto_spec_u32_to_from_le_bytes();
    lemma_auto_spec_u64_to_from_le_bytes();
    let s = m.spec_bytes();
    assert_seqs_equal!(s.subrange(0, 4) == spec_u32_to_le_bytes(m.msg_type));
    assert_seqs_equal!(s.subrange(4, 8) == spec_u32_to_le_bytes(m.bundle_id));
    assert_seqs_equal!(s.subrange(8, 12) == spec_u32_to_le_bytes(m.marked_packet_hash));
    assert_seqs_equal!(s.subrange(12, 16) == spec_u32_to_le_bytes(m.curr_qlen));
    assert_seqs_equal!(s.subrange(16, 24) == spec_u64_to_le_bytes(m.epoch_bytes));
    assert_seqs_equal!(s.subrange(24, 32) == spec_u64_to_le_bytes(m.epoch_time));
}

/// Inbox-to-shaper request to change the rate at which the shaper samples
/// packets for a bundle.  The rate is the epoch length in packets.
#[derive(Clone, Copy, Debug, PartialEq, Eq, Structural)]
pub struct QDiscUpdateMsg {
    pub msg_type: u32,
    pub bundle_id: u32,
    pub sample_rate: u32,
}

impl QDiscUpdateMsg {
    /// The 12-byte little-endian encoding.  The leading word is always
    /// [`UPDATE_QDISC_MSG_TYPE`], whatever `msg_type` holds.
    pub open spec fn spec_bytes(self) -> Seq<u8> {
        spec_u32_to_le_bytes(UPDATE_QDISC_MSG_TYPE) + spec_u32_to_le_bytes(self.bundle_id)
            + spec_u32_to_le_bytes(self.sample_rate)
    }

    /// The message read back from the first 12 bytes of `s`.  The decoder
    /// trusts the dispatcher and pins `msg_type` to [`UPDATE_QDISC_MSG_TYPE`]
    /// without reading the leading word.
    pub open spec fn spec_from(s: Seq<u8>) -> Self
        recommends
            s.len() >= 12,
    {
        QDiscUpdateMsg {
            msg_type: UPDATE_QDISC_MSG_TYPE,
            bundle_id: spec_u32_from_le_bytes(s.subrange(4, 8)),
            sample_rate: spec_u32_from_le_bytes(s.subrange(8, 12)),
        }
    }

    pub fn as_bytes(&self) -> (r: Vec<u8>)
        ensures
            r@ == self.spec_bytes(),
            r@.len() == 12,
    {
        let mut buf = u32_to_le_bytes(UPDATE_QDISC_MSG_TYPE);
        let mut b1 = u32_to_le_bytes(self.bundle_id);
        let mut b2 = u32_to_le_bytes(self.sample_rate);
        buf.append(&mut b1);
        buf.append(&mut b2);
        buf
    }

    pub fn from_slice(buf: &[u8]) -> (r: Self)
        requires
            buf@.len() >= 12,
        ensures
            r == Self::spec_from(buf@),
    {
        QDiscUpdateMsg {
            msg_type: UPDATE_QDISC_MSG_TYPE,
            bundle_id: u32_from_le_bytes(vstd::slice::slice_subrange(buf, 4, 8)),
            sample_rate: u32_from_le_bytes(vstd::slice::slice_subrange(buf, 8, 12)),
        }
    }
}

/// Decoding an encoded [`QDiscUpdateMsg`] gives the message back, for
/// messages that carry the tag the encoder writes.
pub proof fn lemma_qdisc_update_msg_roundtrip(m: QDiscUpdateMsg)
    requires
        m.msg_type == UPDATE_QDISC_MSG_TYPE,
    ensures
        QDiscUpdateMsg::spec_from(m.spec_bytes()) == m,
{
    lemma_auto_spec_u32_to_from_le_bytes();
    let s = m.spec_bytes();
    assert_seqs_equal!(s.subrange(4, 8) == spec_u32_to_le_bytes(m.bundle_id));
    assert_seqs_equal!(s.subrange(8, 12) == spec_u32_to_le_bytes(m.sample_rate));
}

/// Inbox-to-shaper request to set the priority of one flow of the bundle.
#[derive(Clone, Copy, Debug, PartialEq, Eq, Structural)]
pub struct UpdatePrioMsg {
    pub msg_type: u32,
    pub bundle_id: u32,
    pub flow_id: u32,
    pub flow_prio: u16,
}

impl UpdatePrioMsg {
    /// The 16-byte little-endian encoding.  The leading word is always
    /// [`UPDATE_PRIO_MSG_TYPE`]; the last two bytes are padding.
    pub open spec fn spec_bytes(self) -> Seq<u8> {
        spec_u32_to_le_bytes(UPDATE_PRIO_MSG_TYPE) + spec_u32_to_le_bytes(self.bundle_id)
            + spec_u32_to_le_bytes(self.flow_id) + spec_u16_to_le_bytes(self.flow_prio)
            + seq![0u8, 0u8]
    }

    /// The message read back from the first 14 bytes of `s`.  The decoder
    /// trusts the dispatcher and pins `msg_type` to [`UPDATE_PRIO_MSG_TYPE`]
    /// without reading the leading word.
    pub open spec fn spec_from(s: Seq<u8>) -> Self
        recommends
            s.len() >= 14,
    {
        UpdatePrioMsg {
            msg_type: UPDATE_PRIO_MSG_TYPE,
            bundle_id: spec_u32_from_le_bytes(s.subrange(4, 8)),
            flow_id: spec_u32_from_le_bytes(s.subrange(8, 12)),
            flow_prio: spec_u16_from_le_bytes(s.subrange(12, 14)),
        }
    }

    pub fn as_bytes(&self) -> (r: Vec<u8>)
        ensures
            r@ == self.spec_bytes(),
            r@.len() == 16,
    {
        let mut buf = u32_to_le_bytes(UPDATE_PRIO_MSG_TYPE);
        let mut b1 = u32_to_le_bytes(self.bundle_id);
        let mut b2 = u32_to_le_bytes(self.flow_id);
        let mut b3 = u16_to_le_bytes(self.flow_prio);
        buf.append(&mut b1);
        buf.append(&mut b2);
        buf.append(&mut b3);
        buf.push(0u8);
        buf.push(0u8);
        proof {
            assert_seqs_equal!(buf@ == self.spec_bytes());
        }
        buf
    }

    pub fn from_slice(buf: &[u8]) -> (r: Self)
        requires
            buf@.len() >= 14,
        ensures
            r == Self::spec_from(buf@),
    {
        UpdatePrioMsg {
            msg_type: UPDATE_PRIO_MSG_TYPE,
            bundle_id: u32_from_le_bytes(vstd::slice::slice_subrange(buf, 4, 8)),
            flow_id: u32_from_le_bytes(vstd::slice::slice_subrange(buf, 8, 12)),
            flow_prio: u16_from_le_bytes(vstd::slice::slice_subrange(buf, 12, 14)),
        }
    }
}

/// Decoding an encoded [`UpdatePrioMsg`] gives the message back, for
/// messages that carry the tag the encoder writes.
pub proof fn lemma_update_prio_msg_roundtrip(m: UpdatePrioMsg)
    requires
        m.msg_type == UPDATE_PRIO_MSG_TYPE,
    ensures
        UpdatePrioMsg::spec_from(m.spec_bytes()) == m,
{
    lemma_auto_spec_u16_to_from_le_bytes();
    lemma_auto_spec_u32_to_from_le_bytes();
    let s = m.spec_bytes();
    assert_seqs_equal!(s.subrange(4, 8) == spec_u32_to_le_bytes(m.bundle_id));
    assert_seqs_equal!(s.subrange(8, 12) == spec_u32_to_le_bytes(m.flow_id));
    assert_seqs_equal!(s.subrange(12, 14) == spec_u16_to_le_bytes(m.flow_prio));
}

/// Shaper-to-inbox announcement of a newly classified flow inside the
/// bundle, so that a priority can be assigned to it.
#[derive(Clone, Copy, Debug, PartialEq, Eq, Structural)]
pub struct QDiscPrioMsg {
    pub msg_type: u32,
    pub bundle_id: u32,
    pub flow_id: u32,
    pub src_ip: u32,
    pub src_port: u16,
    pub dst_ip: u32,
    pub dst_port: u16,
}

impl QDiscPrioMsg {
    /// The 24-byte little-endian encoding.  The leading word is always
    /// [`QDISC_PRIO_MSG_TYPE`], whatever `msg_type` holds.
    pub open spec fn spec_bytes(self) -> Seq<u8> {
        spec_u32_to_le_bytes(QDISC_PRIO_MSG_TYPE) + spec_u32_to_le_bytes(self.bundle_id)
            + spec_u32_to_le_bytes(self.flow_id) + spec_u32_to_le_bytes(self.src_ip)
            + spec_u16_to_le_bytes(self.src_port) + spec_u32_to_le_bytes(self.dst_ip)
            + spec_u16_to_le_bytes(self.dst_port)
    }

    /// The message read back from the first 24 bytes of `s`.
    pub open spec fn spec_from(s: Seq<u8>) -> Self
        recommends
            s.len() >= 24,
    {
        QDiscPrioMsg {
            msg_type: spec_u32_from_le_bytes(s.subrange(0, 4)),
            bundle_id: spec_u32_from_le_bytes(s.subrange(4, 8)),
            flow_id: spec_u32_from_le_bytes(s.subrange(8, 12)),
            src_ip: spec_u32_from_le_bytes(s.subrange(12, 16)),
            src_port: spec_u16_from_le_bytes(s.subrange(16, 18)),
            dst_ip: spec_u32_from_le_bytes(s.subrange(18, 22)),
            dst_port: spec_u16_from_le_bytes(s.subrange(22, 24)),
        }
    }

    pub fn as_bytes(&self) -> (r: Vec<u8>)
        ensures
            r@ == self.spec_bytes(),
            r@.len() == 24,
    {
        let mut buf = u32_to_le_bytes(QDISC_PRIO_MSG_TYPE);
        let mut b1 = u32_to_le_bytes(self.bundle_id);
        let mut b2 = u32_to_le_bytes(self.flow_id);
        let mut b3 = u32_to_le_bytes(self.src_ip);
        let mut b4 = u16_to_le_bytes(self.src_port);
        let mut b5 = u32_to_le_bytes(self.dst_ip);
        let mut b6 = u16_to_le_bytes(self.dst_port);
        buf.append(&mut b1);
        buf.append(&mut b2);
        buf.append(&mut b3);
        buf.append(&mut b4);
        buf.append(&mut b5);
        buf.append(&mut b6);
        buf
    }

    pub fn from_slice(buf: &[u8]) -> (r: Self)
        requires
            buf@.len() >= 24,
        ensures
            r == Self::spec_from(buf@),
    {
        QDiscPrioMsg {
            msg_type: u32_from_le_bytes(vstd::slice::slice_subrange(buf, 0, 4)),
            bundle_id: u32_from_le_bytes(vstd::slice::slice_subrange(buf, 4, 8)),
            flow_id: u32_from_le_bytes(vstd::slice::slice_subrange(buf, 8, 12)),
            src_ip: u32_from_le_bytes(vstd::slice::slice_subrange(buf, 12, 16)),
            src_port: u16_from_le_bytes(vstd::slice::slice_subrange(buf, 16, 18)),
            dst_ip: u32_from_le_bytes(vstd::slice::slice_subrange(buf, 18, 22)),
            dst_port: u16_from_le_bytes(vstd::slice::slice_subrange(buf, 22, 24)),
        }
    }
}

/// Decoding an encoded [`QDiscPrioMsg`] gives the message back, for
/// messages that carry the tag the encoder writes.
pub proof fn lemma_qdisc_prio_msg_roundtrip(m: QDiscPrioMsg)
    requires
        m.msg_type == QDISC_PRIO_MSG_TYPE,
    ensures
        QDiscPrioMsg::spec_from(m.spec_bytes()) == m,
{
    lemma_auto_spec_u16_to_from_le_bytes();
    lemma_auto_spec_u32_to_from_le_bytes();
    let s = m.spec_bytes();
    assert_seqs_equal!(s.subrange(0, 4) == spec_u32_to_le_bytes(QDISC_PRIO_MSG_TYPE));
    assert_seqs_equal!(s.subrange(4, 8) == spec_u32_to_le_bytes(m.bundle_id));
    assert_seqs_equal!(s.subrange(8, 12) == spec_u32_to_le_bytes(m.flow_id));
    assert_seqs_equal!(s.subrange(12, 16) == spec_u32_to_le_bytes(m.src_ip));
    assert_seqs_equal!(s.subrange(16, 18) == spec_u16_to_le_bytes(m.src_port));
    assert_seqs_equal!(s.subrange(18, 22) == spec_u32_to_le_bytes(m.dst_ip));
    assert_seqs_equal!(s.subrange(22, 24) == spec_u16_to_le_bytes(m.dst_port));
}

/// The messages the shaper sends to the inbox, told apart by the leading
/// `msg_type` word.
#[derive(Clone, Copy, Debug, PartialEq, Eq, Structural)]
pub enum QDiscRecvMsgs {
    BundleFeedback(QDiscFeedbackMsg),
    FlowPrio(QDiscPrioMsg),
}

impl QDiscRecvMsgs {
    /// Dispatch a shaper datagram by its leading word: feedback messages
    /// are 32 bytes and tagged [`QDISC_FEEDBACK_MSG_TYPE`], flow
    /// announcements 24 bytes and tagged [`QDISC_PRIO_MSG_TYPE`]; anything
    /// else is refused.
    pub fn from_slice(buf: &[u8]) -> (r: Option<QDiscRecvMsgs>)
        ensures
            r matches Some(m) ==> buf@.len() >= 4,
            buf@.len() >= 4 ==> {
                let tag = spec_u32_from_le_bytes(buf@.subrange(0, 4));
                if tag == QDISC_FEEDBACK_MSG_TYPE && buf@.len() >= 32 {
                    r == Some(QDiscRecvMsgs::BundleFeedback(QDiscFeedbackMsg::spec_from(buf@)))
                } else if tag == QDISC_PRIO_MSG_TYPE && buf@.len() >= 24 {
                    r == Some(QDiscRecvMsgs::FlowPrio(QDiscPrioMsg::spec_from(buf@)))
                } else {
                    r is None
                }
            },
            buf@.len() < 4 ==> r is None,
    {
        if buf.len() < 4 {
            return None;
        }
        let tag = u32_from_le_bytes(vstd::slice::slice_subrange(buf, 0, 4));
        if tag == QDISC_FEEDBACK_MSG_TYPE && buf.len() >= 32 {
            Some(QDiscRecvMsgs::BundleFeedback(QDiscFeedbackMsg::from_slice(buf)))
        } else if tag == QDISC_PRIO_MSG_TYPE && buf.len() >= 24 {
            Some(QDiscRecvMsgs::FlowPrio(QDiscPrioMsg::from_slice(buf)))
        } else {
            None
        }
    }
}

} // verus!
