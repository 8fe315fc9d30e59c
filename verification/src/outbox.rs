//! The receiver-side epoch detector.
//!
//! The outbox taps the egress of the receiver, counts TCP bytes, and
//! selects the same boundary packets the sender's shaper marks: those
//! whose fingerprint is divisible by the sample rate.  Each selected
//! packet yields a feedback record carrying the cumulative byte counter
//! and the capture timestamp, sent back to the inbox over the side
//! channel.

use vstd::prelude::*;
use crate::hash::{hash_packet, spec_hash_packet};
use crate::qdisc::BUNDLE_ID;
use crate::serialize::OutBoxFeedbackMsg;
use crate::{IP_HEADER_LENGTH, IP_PROTO_TCP, MAC_HEADER_LENGTH, PROTO_IN_IP_HEADER};

verus! {

/// Where the IP header starts in the captured bytes: at the front when
/// the capture carries no link-layer header, else after the MAC header.
pub open spec fn spec_ip_start(no_ethernet: bool) -> int {
    if no_ethernet {
        0
    } else {
        MAC_HEADER_LENGTH as int
    }
}

/// The detector's state: the cumulative TCP byte counter, the sampling
/// period in packets, and when the last feedback was emitted.
#[derive(Clone, Copy, Debug, PartialEq, Eq, Structural)]
pub struct EpochDetector {
    pub cumulative_bytes: u64,
    pub sample_rate: u32,
    pub last_report_time: u64,
}

impl EpochDetector {
    /// The sample rate is never zero, so the divisibility test cannot
    /// fault.
    pub open spec fn wf(self) -> bool {
        self.sample_rate >= 1
    }

    /// A fresh detector with the given sampling period.
    pub fn new(sample_rate: u32) -> (r: Self)
        requires
            sample_rate >= 1,
        ensures
            r.cumulative_bytes == 0,
            r.sample_rate == sample_rate,
            r.last_report_time == 0,
            r.wf(),
    {
        EpochDetector { cumulative_bytes: 0, sample_rate, last_report_time: 0 }
    }

    /// Apply a sample-rate update from the inbox; a zero value is
    /// ignored.
    pub fn update_sample_rate(&mut self, epoch_length_packets: u32)
        ensures
            epoch_length_packets > 0 ==> *final(self) == (EpochDetector {
                sample_rate: epoch_length_packets,
                ..*old(self)
            }),
            epoch_length_packets == 0 ==> *final(self) == *old(self),
            old(self).wf() ==> final(self).wf(),
    {
        if epoch_length_packets > 0 {
            self.sample_rate = epoch_length_packets;
        }
    }

    /// Observe one captured packet of `wire_len` bytes on the wire.
    ///
    /// Non-TCP packets change nothing.  A TCP packet advances the byte
    /// counter by its wire length — plus one MAC header when the capture
    /// carries none, to count what the wire carried — and, when its
    /// fingerprint is divisible by the sample rate, produces the feedback
    /// record to send to the inbox.
    pub fn on_packet(&mut self, now: u64, pkt: &[u8], wire_len: u32, no_ethernet: bool) -> (r:
        Option<OutBoxFeedbackMsg>)
        requires
            old(self).wf(),
            pkt@.len() >= spec_ip_start(no_ethernet) + IP_HEADER_LENGTH + 4,
            old(self).cumulative_bytes + wire_len + MAC_HEADER_LENGTH <= u64::MAX,
        ensures
            final(self).wf(),
            final(self).sample_rate == old(self).sample_rate,
            ({
                let ip = spec_ip_start(no_ethernet);
                let tcp = ip + IP_HEADER_LENGTH;
                if pkt@[ip + PROTO_IN_IP_HEADER] != IP_PROTO_TCP {
                    *final(self) == *old(self) && r is None
                } else {
                    let extra: u64 = if no_ethernet {
                        MAC_HEADER_LENGTH as u64
                    } else {
                        0
                    };
                    let new_bytes = (old(self).cumulative_bytes + wire_len + extra) as u64;
                    let h = spec_hash_packet(pkt@, ip, tcp);
                    &&& final(self).cumulative_bytes == new_bytes
                    &&& if h % old(self).sample_rate == 0 {
                        r == Some(
                            OutBoxFeedbackMsg {
                                bundle_id: BUNDLE_ID,
                                marked_packet_hash: h,
                                epoch_bytes: new_bytes,
                                epoch_time: now,
                            },
                        ) && final(self).last_report_time == now
                    } else {
                        r is None && final(self).last_report_time == old(self).last_report_time
                    }
                }
            }),
    {
        let ip_header_start: usize = if no_ethernet {
            0
        } else {
            MAC_HEADER_LENGTH
        };
        let tcp_header_start = ip_header_start + IP_HEADER_LENGTH;
        if pkt[ip_header_start + PROTO_IN_IP_HEADER] != IP_PROTO_TCP {
            return None;
        }
        self.cumulative_bytes = self.cumulative_bytes + wire_len as u64;
        if no_ethernet {
            self.cumulative_bytes = self.cumulative_bytes + MAC_HEADER_LENGTH as u64;
        }
        let h = hash_packet(ip_header_start, tcp_header_start, pkt);
        if h % self.sample_rate == 0 {
            self.last_report_time = now;
            Some(
                OutBoxFeedbackMsg {
                    bundle_id: BUNDLE_ID,
                    marked_packet_hash: h,
                    epoch_bytes: self.cumulative_bytes,
                    epoch_time: now,
                },
            )
        } else {
            None
        }
    }
}

} // verus!
