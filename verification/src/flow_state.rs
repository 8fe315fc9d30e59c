//! Per-bundle flow measurements.
//!
//! A [`BundleFlowState`] folds each matched mark/feedback pair into the
//! bundle's running primitives: smoothed sending and receiving rates, the
//! RTT estimate, the bytes acked and lost in the last epoch, and a BDP
//! estimate in packets.  One instance exists per bundle; the core treats
//! the whole bundle as a single logical flow.

use vstd::prelude::*;
use crate::epochs::{Epoch, EpochHistory, spec_rate, spec_trim};
use crate::marks::{MarkHistory, MarkedInstant};
use crate::serialize::OutBoxFeedbackMsg;

verus! {

/// One full-sized segment, used to convert byte counts to packet counts.
pub const MSS_BYTES: u32 = 1514;

/// `a - b`, clamped at zero.
pub open spec fn spec_sat_sub_u64(a: u64, b: u64) -> u64 {
    if a >= b {
        (a - b) as u64
    } else {
        0
    }
}

/// `x` reduced modulo 2^32, as the kernel-facing 32-bit counters keep it.
pub open spec fn spec_low32(x: u64) -> u32 {
    (x % 0x1_0000_0000) as u32
}

/// The BDP estimate in packets: `rate * rtt / 1 s / MSS`, clamped at the
/// top of `u32`.
pub open spec fn spec_bdp_packets(rate: u64, rtt_ns: u64) -> u32 {
    let p = (rate as int) * (rtt_ns as int) / 1_000_000_000 / (MSS_BYTES as int);
    if p > u32::MAX {
        u32::MAX
    } else {
        p as u32
    }
}

/// The measurements handed to the congestion-control algorithm on each
/// invocation.  `bytes_acked` and `lost_pkts_sample` are one-shot deltas,
/// cleared after the algorithm consumes them.
#[derive(Clone, Copy, Debug, PartialEq, Eq, Structural)]
pub struct Primitives {
    pub rtt_sample_us: u64,
    pub rate_outgoing: u64,
    pub rate_incoming: u64,
    pub bytes_acked: u32,
    pub packets_acked: u32,
    pub lost_pkts_sample: u32,
    pub bytes_pending: u32,
}

/// Calculate and maintain flow measurements.
#[derive(Debug)]
pub struct BundleFlowState {
    pub marked_packets: MarkHistory,
    pub epoch_history: EpochHistory,
    pub prev_send_time: u64,
    pub prev_send_byte_clock: u64,
    pub prev_recv_time: u64,
    pub prev_recv_byte_clock: u64,
    pub send_rate: u64,
    pub recv_rate: u64,
    pub rtt_estimate: u64,
    pub bdp_estimate_packets: u32,
    pub acked_bytes: u32,
    pub lost_bytes: u32,
    pub curr_qlen: u32,
    pub last_id: u64,
}

/// The mathematical value of a [`BundleFlowState`]: its counters together
/// with the contents of the mark history and the two epoch windows.
#[verifier::ext_equal]
pub struct FlowView {
    pub marks: Seq<MarkedInstant>,
    pub next_mark_id: u64,
    pub window: usize,
    pub sending: Seq<Epoch>,
    pub receiving: Seq<Epoch>,
    pub prev_send_time: u64,
    pub prev_send_byte_clock: u64,
    pub prev_recv_time: u64,
    pub prev_recv_byte_clock: u64,
    pub send_rate: u64,
    pub recv_rate: u64,
    pub rtt_estimate: u64,
    pub bdp_estimate_packets: u32,
    pub acked_bytes: u32,
    pub lost_bytes: u32,
    pub curr_qlen: u32,
    pub last_id: u64,
}

impl View for BundleFlowState {
    type V = FlowView;

    open spec fn view(&self) -> FlowView {
        FlowView {
            marks: self.marked_packets.marks@,
            next_mark_id: self.marked_packets.next_id,
            window: self.epoch_history.window,
            sending: self.epoch_history.sending@,
            receiving: self.epoch_history.receiving@,
            prev_send_time: self.prev_send_time,
            prev_send_byte_clock: self.prev_send_byte_clock,
            prev_recv_time: self.prev_recv_time,
            prev_recv_byte_clock: self.prev_recv_byte_clock,
            send_rate: self.send_rate,
            recv_rate: self.recv_rate,
            rtt_estimate: self.rtt_estimate,
            bdp_estimate_packets: self.bdp_estimate_packets,
            acked_bytes: self.acked_bytes,
            lost_bytes: self.lost_bytes,
            curr_qlen: self.curr_qlen,
            last_id: self.last_id,
        }
    }
}

/// The send epoch a matched pair closes: from the previous mark's
/// endpoints to this mark's.
pub open spec fn spec_send_epoch(v: FlowView, sent_mark: MarkedInstant) -> Epoch {
    Epoch {
        elapsed_ns: spec_sat_sub_u64(sent_mark.time, v.prev_send_time),
        bytes: spec_sat_sub_u64(sent_mark.send_byte_clock, v.prev_send_byte_clock),
    }
}

/// The receive epoch a matched pair closes: from the previous feedback's
/// endpoints to this feedback's.
pub open spec fn spec_recv_epoch(v: FlowView, recv_mark: OutBoxFeedbackMsg) -> Epoch {
    Epoch {
        elapsed_ns: spec_sat_sub_u64(recv_mark.epoch_time, v.prev_recv_time),
        bytes: spec_sat_sub_u64(recv_mark.epoch_bytes, v.prev_recv_byte_clock),
    }
}

/// What one matched pair does to the flow state at wall-clock `now`:
/// close both epochs, push them through the sliding window, refresh the
/// smoothed rates, the RTT, the BDP and the acked/lost deltas, and move
/// the previous-endpoint clocks forward to this pair.
pub open spec fn spec_updated_flow(
    v: FlowView,
    now: u64,
    sent_mark: MarkedInstant,
    recv_mark: OutBoxFeedbackMsg,
) -> FlowView {
    let send_ep = spec_send_epoch(v, sent_mark);
    let recv_ep = spec_recv_epoch(v, recv_mark);
    let sending = spec_trim(v.sending.push(send_ep), v.window as int);
    let receiving = spec_trim(v.receiving.push(recv_ep), v.window as int);
    let rtt = spec_sat_sub_u64(now, sent_mark.time);
    let send_rate = spec_rate(sending);
    FlowView {
        marks: v.marks,
        next_mark_id: v.next_mark_id,
        window: v.window,
        sending: sending,
        receiving: receiving,
        prev_send_time: sent_mark.time,
        prev_send_byte_clock: sent_mark.send_byte_clock,
        prev_recv_time: recv_mark.epoch_time,
        prev_recv_byte_clock: recv_mark.epoch_bytes,
        send_rate: send_rate,
        recv_rate: spec_rate(receiving),
        rtt_estimate: rtt,
        bdp_estimate_packets: spec_bdp_packets(send_rate, rtt),
        acked_bytes: spec_low32(recv_ep.bytes),
        lost_bytes: spec_low32(spec_sat_sub_u64(send_ep.bytes, recv_ep.bytes)),
        curr_qlen: v.curr_qlen,
        last_id: sent_mark.id,
    }
}

/// After a matched pair on the in-order path — a mark and a feedback both
/// younger than the previous pair's endpoints — the previous-endpoint
/// clocks advance strictly, and the RTT estimate is never negative.
pub proof fn lemma_update_advances_clocks(
    v: FlowView,
    now: u64,
    sent_mark: MarkedInstant,
    recv_mark: OutBoxFeedbackMsg,
)
    requires
        sent_mark.time > v.prev_send_time,
        recv_mark.epoch_time > v.prev_recv_time,
    ensures
        spec_updated_flow(v, now, sent_mark, recv_mark).prev_send_time > v.prev_send_time,
        spec_updated_flow(v, now, sent_mark, recv_mark).prev_recv_time > v.prev_recv_time,
        spec_updated_flow(v, now, sent_mark, recv_mark).rtt_estimate >= 0,
{
}

/// Loss accounting: the acked counter equals the receive epoch's bytes
/// whenever they fit the counter, and no loss is charged whenever the
/// receive epoch covers at least the send epoch's bytes.
pub proof fn lemma_update_loss_accounting(
    v: FlowView,
    now: u64,
    sent_mark: MarkedInstant,
    recv_mark: OutBoxFeedbackMsg,
)
    ensures
        spec_updated_flow(v, now, sent_mark, recv_mark).acked_bytes <= spec_recv_epoch(
            v,
            recv_mark,
        ).bytes,
        spec_recv_epoch(v, recv_mark).bytes <= u32::MAX ==> spec_updated_flow(
            v,
            now,
            sent_mark,
            recv_mark,
        ).acked_bytes == spec_recv_epoch(v, recv_mark).bytes,
        spec_recv_epoch(v, recv_mark).bytes >= spec_send_epoch(v, sent_mark).bytes
            ==> spec_updated_flow(v, now, sent_mark, recv_mark).lost_bytes == 0,
{
}

impl BundleFlowState {
    /// Fold one matched pair into the running measurements.
    ///
    /// `sent_mark` is the mark the feedback `recv_mark` was matched to,
    /// and `now` is the wall clock at the match; the RTT estimate is the
    /// mark's age.  All differences saturate at zero, so reordered clocks
    /// cannot underflow the counters.
    pub fn update_measurements(
        &mut self,
        now: u64,
        sent_mark: MarkedInstant,
        recv_mark: OutBoxFeedbackMsg,
    )
        requires
            old(self).epoch_history.window >= 1,
            old(self).epoch_history.wf(),
        ensures
            final(self)@ == spec_updated_flow(old(self)@, now, sent_mark, recv_mark),
            final(self).epoch_history.wf(),
            final(self).epoch_history.sending@.len() <= old(self).epoch_history.window,
    {
        let s1 = self.prev_send_time;
        let s1_bytes = self.prev_send_byte_clock;
        let s2 = sent_mark.time;
        let s2_bytes = sent_mark.send_byte_clock;
        let r1 = self.prev_recv_time;
        let r1_bytes = self.prev_recv_byte_clock;
        let r2 = recv_mark.epoch_time;
        let r2_bytes = recv_mark.epoch_bytes;

        let rtt_estimate = if now >= s2 {
            now - s2
        } else {
            0
        };
        let send_epoch_ns = if s2 >= s1 {
            s2 - s1
        } else {
            0
        };
        let recv_epoch_ns = if r2 >= r1 {
            r2 - r1
        } else {
            0
        };
        let send_epoch_bytes = if s2_bytes >= s1_bytes {
            s2_bytes - s1_bytes
        } else {
            0
        };
        let recv_epoch_bytes = if r2_bytes >= r1_bytes {
            r2_bytes - r1_bytes
        } else {
            0
        };

        let rates = self.epoch_history.got_epoch(
            Epoch { elapsed_ns: send_epoch_ns, bytes: send_epoch_bytes },
            Epoch { elapsed_ns: recv_epoch_ns, bytes: recv_epoch_bytes },
        );
        self.send_rate = rates.0;
        self.recv_rate = rates.1;

        proof {
            assert((rates.0 as int) * (rtt_estimate as int) <= u64::MAX * u64::MAX)
                by (nonlinear_arith)
                requires
                    0 <= rates.0 <= u64::MAX,
                    0 <= rtt_estimate <= u64::MAX,
            ;
        }
        let bdp_pkts = (rates.0 as u128) * (rtt_estimate as u128) / 1_000_000_000u128 / (
        MSS_BYTES as u128);
        self.bdp_estimate_packets = if bdp_pkts > u32::MAX as u128 {
            u32::MAX
        } else {
            bdp_pkts as u32
        };

        self.acked_bytes = (recv_epoch_bytes % 0x1_0000_0000) as u32;
        let delta = if send_epoch_bytes >= recv_epoch_bytes {
            send_epoch_bytes - recv_epoch_bytes
        } else {
            0
        };
        self.lost_bytes = (delta % 0x1_0000_0000) as u32;

        self.rtt_estimate = rtt_estimate;
        self.prev_send_time = s2;
        self.prev_send_byte_clock = s2_bytes;
        self.prev_recv_time = r2;
        self.prev_recv_byte_clock = r2_bytes;
        self.last_id = sent_mark.id;

        proof {
            assert(self@ =~= spec_updated_flow(old(self)@, now, sent_mark, recv_mark));
        }
    }

    /// Clear the one-shot deltas after the algorithm consumed them; the
    /// rest of the state is untouched.
    pub fn did_invoke(&mut self)
        ensures
            final(self)@ == (FlowView { acked_bytes: 0, lost_bytes: 0, ..old(self)@ }),
    {
        self.acked_bytes = 0;
        self.lost_bytes = 0;
        proof {
            assert(self@ =~= (FlowView { acked_bytes: 0, lost_bytes: 0, ..old(self)@ }));
        }
    }

    /// The measurements as the algorithm expects them: the RTT in
    /// microseconds, the rates in bytes per second, and the acked/lost
    /// deltas converted to packets at one MSS each.
    pub fn primitives(&self) -> (p: Primitives)
        ensures
            p == spec_primitives(self@),
    {
        Primitives {
            rtt_sample_us: self.rtt_estimate / 1_000,
            rate_outgoing: self.send_rate,
            rate_incoming: self.recv_rate,
            bytes_acked: self.acked_bytes,
            packets_acked: self.acked_bytes / MSS_BYTES,
            lost_pkts_sample: self.lost_bytes / MSS_BYTES,
            bytes_pending: self.curr_qlen,
        }
    }
}

/// The primitives derived from a flow state.
pub open spec fn spec_primitives(v: FlowView) -> Primitives {
    Primitives {
        rtt_sample_us: (v.rtt_estimate / 1_000) as u64,
        rate_outgoing: v.send_rate,
        rate_incoming: v.recv_rate,
        bytes_acked: v.acked_bytes,
        packets_acked: (v.acked_bytes / MSS_BYTES) as u32,
        lost_pkts_sample: (v.lost_bytes / MSS_BYTES) as u32,
        bytes_pending: v.curr_qlen,
    }
}

impl Default for BundleFlowState {
    /// A fresh flow state: empty histories, a zero-size epoch window and
    /// every counter at zero.
    fn default() -> (r: Self)
        ensures
            r.marked_packets.marks@ == Seq::<MarkedInstant>::empty(),
            r.marked_packets.next_id == 0,
            r.marked_packets.wf(),
            r.epoch_history.window == 0,
            r.epoch_history.sending@ == Seq::<Epoch>::empty(),
            r.epoch_history.receiving@ == Seq::<Epoch>::empty(),
            r.epoch_history.wf(),
            r.prev_send_time == 0,
            r.prev_send_byte_clock == 0,
            r.prev_recv_time == 0,
            r.prev_recv_byte_clock == 0,
            r.send_rate == 0,
            r.recv_rate == 0,
            r.rtt_estimate == 0,
            r.bdp_estimate_packets == 0,
            r.acked_bytes == 0,
            r.lost_bytes == 0,
            r.curr_qlen == 0,
            r.last_id == 0,
    {
        BundleFlowState {
            marked_packets: MarkHistory::new(),
            epoch_history: EpochHistory::new(),
            prev_send_time: 0,
            prev_send_byte_clock: 0,
            prev_recv_time: 0,
            prev_recv_byte_clock: 0,
            send_rate: 0,
            recv_rate: 0,
            rtt_estimate: 0,
            bdp_estimate_packets: 0,
            acked_bytes: 0,
            lost_bytes: 0,
            curr_qlen: 0,
            last_id: 0,
        }
    }
}

} // verus!
