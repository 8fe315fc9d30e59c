//! The sender-side control loop.
//!
//! The runtime reacts to three inputs: shaper reports (a marked packet
//! left the sender), outbox feedback (a marked packet reached the
//! receiver), and a periodic tick.  Reports are remembered in the mark
//! history; feedback is matched against it and folded into the flow
//! state, and the resulting RTT and sending rate are pushed into the
//! shaper adapter; the tick hands the accumulated primitives to the
//! congestion-control algorithm — but never before the algorithm has
//! signalled that it is ready.  Each step returns the directives to emit
//! so the caller can perform the sends and the algorithm invocation.

use vstd::prelude::*;
use crate::flow_state::{
    spec_primitives, spec_updated_flow, BundleFlowState, FlowView, Primitives,
};
use crate::marks::{spec_find_first, spec_fresh_only, spec_mark_late, MarkedInstant};
use crate::qdisc::{
    spec_after_set_cwnd, spec_after_set_rate, spec_after_update_rtt, spec_after_update_send_rate,
    spec_set_cwnd_push, spec_set_rate_push, spec_update_rtt_push, spec_update_send_rate_msgs,
    EpochMsgs, Qdisc,
};
use crate::serialize::{OutBoxFeedbackMsg, QDiscFeedbackMsg};
use crate::spec_round_down_power_of_2;
use crate::round_down_power_of_2;
use crate::lemma_round_down_power_of_2_bounds;

verus! {

/// The control tick period, in milliseconds.
pub const INVOKE_TICK_MS: u64 = 10;

/// The cwnd assumed when the algorithm sets zero: it has no estimate yet.
pub const FALLBACK_CWND_BYTES: u32 = 15_000;

/// What an in-order match asks the caller to do: push a rate to the
/// shaper, and send the epoch-length messages, if any changed.
#[derive(Clone, Copy, Debug, PartialEq, Eq)]
pub struct FeedbackActions {
    pub rate_push: Option<u32>,
    pub epoch_msgs: Option<EpochMsgs>,
}

/// How one feedback report was handled.
#[derive(Clone, Copy, Debug, PartialEq, Eq)]
pub enum FeedbackOutcome {
    /// No fresh mark carried the feedback's fingerprint; the report is
    /// dropped.
    NoMatch,
    /// The matched mark had been overtaken by a younger match; the
    /// sample is discarded rather than fed into the running estimate.
    Late,
    /// An in-order match: the flow state absorbed the pair and these
    /// directives follow from it.
    Matched(FeedbackActions),
}

/// The epoch window implied by the current sending rate and RTT: the
/// in-flight BDP in packets, rounded down to a power of two, divided by
/// the epoch length — at least 1.
pub open spec fn spec_epoch_window(send_rate: u64, rtt_ns: u64, epoch_length: u32) -> usize
    recommends
        epoch_length >= 1,
{
    let bdp_int = (send_rate as int) * (rtt_ns as int) / 1_000_000_000 / 1500;
    let bdp: u32 = if bdp_int > u32::MAX {
        u32::MAX
    } else {
        bdp_int as u32
    };
    let w = spec_round_down_power_of_2(bdp as nat) as int / (epoch_length as int);
    if w < 1 {
        1usize
    } else {
        w as usize
    }
}

/// The sender-side runtime: the bundle's flow state, the shaper adapter,
/// and the two gates the tick respects.
#[derive(Debug)]
pub struct Runtime {
    pub flow_state: BundleFlowState,
    pub qdisc: Qdisc,
    pub ready_to_invoke: bool,
    pub algorithm_ready: bool,
}

impl Runtime {
    /// The runtime's invariant: the mark history hands out increasing
    /// ids, the epoch windows pair up and hold at least one slot, and
    /// the epoch length is positive.
    pub open spec fn wf(self) -> bool {
        &&& self.flow_state.marked_packets.wf()
        &&& self.flow_state.epoch_history.wf()
        &&& self.flow_state.epoch_history.window >= 1
        &&& self.qdisc.wf()
    }

    /// A fresh runtime around a shaper adapter: empty histories, a
    /// window of one pair, and both gates closed.
    pub fn new(qdisc: Qdisc) -> (r: Self)
        requires
            qdisc.wf(),
        ensures
            r.wf(),
            r.qdisc == qdisc,
            !r.ready_to_invoke,
            !r.algorithm_ready,
            r.flow_state@ == (FlowView {
                marks: Seq::<MarkedInstant>::empty(),
                next_mark_id: 0,
                window: 1,
                sending: Seq::empty(),
                receiving: Seq::empty(),
                prev_send_time: 0,
                prev_send_byte_clock: 0,
                prev_recv_time: 0,
                prev_recv_byte_clock: 0,
                send_rate: 0,
                recv_rate: 0,
                rtt_estimate: 0,
                bdp_estimate_packets: 0,
                acked_bytes: 0,
                lost_bytes: 0,
                curr_qlen: 0,
                last_id: 0,
            }),
    {
        let mut flow_state = BundleFlowState::default();
        flow_state.epoch_history.window = 1;
        proof {
            assert(flow_state@ =~= (FlowView {
                marks: Seq::<MarkedInstant>::empty(),
                next_mark_id: 0,
                window: 1,
                sending: Seq::empty(),
                receiving: Seq::empty(),
                prev_send_time: 0,
                prev_send_byte_clock: 0,
                prev_recv_time: 0,
                prev_recv_byte_clock: 0,
                send_rate: 0,
                recv_rate: 0,
                rtt_estimate: 0,
                bdp_estimate_packets: 0,
                acked_bytes: 0,
                lost_bytes: 0,
                curr_qlen: 0,
                last_id: 0,
            }));
        }
        Runtime { flow_state, qdisc, ready_to_invoke: false, algorithm_ready: false }
    }

    /// The algorithm's first message arrived: open the invoke gate.
    pub fn on_algorithm_ready(&mut self)
        ensures
            final(self).algorithm_ready,
            final(self).flow_state@ == old(self).flow_state@,
            final(self).qdisc == old(self).qdisc,
            final(self).ready_to_invoke == old(self).ready_to_invoke,
            old(self).wf() ==> final(self).wf(),
    {
        self.algorithm_ready = true;
    }

    /// A shaper report arrived: remember the marked packet so its RTT
    /// can be taken when the feedback comes, and note the queue length.
    pub fn on_mark(&mut self, msg: &QDiscFeedbackMsg) -> (id: u64)
        requires
            old(self).wf(),
            old(self).flow_state.marked_packets.next_id < u64::MAX,
        ensures
            final(self).wf(),
            id == old(self).flow_state.marked_packets.next_id,
            final(self).flow_state@ == (FlowView {
                marks: old(self).flow_state.marked_packets.marks@.push(
                    MarkedInstant {
                        time: msg.epoch_time,
                        pkt_hash: msg.marked_packet_hash,
                        send_byte_clock: msg.epoch_bytes,
                        id: id,
                        late: false,
                    },
                ),
                next_mark_id: (id + 1) as u64,
                curr_qlen: msg.curr_qlen,
                ..old(self).flow_state@
            }),
            final(self).qdisc == old(self).qdisc,
            final(self).ready_to_invoke == old(self).ready_to_invoke,
            final(self).algorithm_ready == old(self).algorithm_ready,
    {
        let id = self.flow_state.marked_packets.insert(
            msg.marked_packet_hash,
            msg.epoch_time,
            msg.epoch_bytes,
        );
        self.flow_state.curr_qlen = msg.curr_qlen;
        proof {
            assert(self.flow_state@ =~= (FlowView {
                marks: old(self).flow_state.marked_packets.marks@.push(
                    MarkedInstant {
                        time: msg.epoch_time,
                        pkt_hash: msg.marked_packet_hash,
                        send_byte_clock: msg.epoch_bytes,
                        id: id,
                        late: false,
                    },
                ),
                next_mark_id: (id + 1) as u64,
                curr_qlen: msg.curr_qlen,
                ..old(self).flow_state@
            }));
        }
        id
    }

    /// Outbox feedback arrived at wall-clock `now`: match it against the
    /// mark history.  A miss drops the report; a late match is
    /// discarded; an in-order match folds the pair into the flow state,
    /// pushes the new RTT and sending rate into the shaper adapter, and
    /// opens the ready-to-invoke gate.
    pub fn on_feedback(&mut self, now: u64, msg: &OutBoxFeedbackMsg) -> (out: FeedbackOutcome)
        requires
            old(self).wf(),
        ensures
            final(self).wf(),
            final(self).algorithm_ready == old(self).algorithm_ready,
            ({
                let fresh = spec_fresh_only(old(self).flow_state.marked_packets.marks@, now);
                let f = spec_find_first(fresh, msg.marked_packet_hash);
                if f == -1 {
                    &&& out == FeedbackOutcome::NoMatch
                    &&& final(self).flow_state@ == (FlowView {
                        marks: fresh,
                        ..old(self).flow_state@
                    })
                    &&& final(self).qdisc == old(self).qdisc
                    &&& final(self).ready_to_invoke == old(self).ready_to_invoke
                } else {
                    let remaining = spec_mark_late(fresh.take(f)) + fresh.skip(f + 1);
                    let mark = fresh[f];
                    if mark.late {
                        &&& out == FeedbackOutcome::Late
                        &&& final(self).flow_state@ == (FlowView {
                            marks: remaining,
                            ..old(self).flow_state@
                        })
                        &&& final(self).qdisc == old(self).qdisc
                        &&& final(self).ready_to_invoke == old(self).ready_to_invoke
                    } else {
                        let v1 = (FlowView { marks: remaining, ..old(self).flow_state@ });
                        let u = spec_updated_flow(v1, now, mark, *msg);
                        let q1 = spec_after_update_rtt(old(self).qdisc, u.rtt_estimate);
                        &&& out == FeedbackOutcome::Matched(
                            FeedbackActions {
                                rate_push: spec_update_rtt_push(old(self).qdisc, u.rtt_estimate),
                                epoch_msgs: spec_update_send_rate_msgs(q1, u.send_rate),
                            },
                        )
                        &&& final(self).flow_state@ == u
                        &&& final(self).qdisc == spec_after_update_send_rate(q1, u.send_rate)
                        &&& final(self).ready_to_invoke
                    }
                }
            }),
    {
        let ghost fresh = spec_fresh_only(old(self).flow_state.marked_packets.marks@, now);
        let ghost f = spec_find_first(fresh, msg.marked_packet_hash);
        match self.flow_state.marked_packets.get(now, msg.marked_packet_hash) {
            None => {
                proof {
                    assert(self.flow_state@ =~= (FlowView {
                        marks: fresh,
                        ..old(self).flow_state@
                    }));
                }
                FeedbackOutcome::NoMatch
            },
            Some(mi) => {
                proof {
                    assert(self.flow_state@ =~= (FlowView {
                        marks: spec_mark_late(fresh.take(f)) + fresh.skip(f + 1),
                        ..old(self).flow_state@
                    }));
                }
                if mi.late {
                    FeedbackOutcome::Late
                } else {
                    self.flow_state.update_measurements(now, mi, *msg);
                    let rate_push = self.qdisc.update_rtt(self.flow_state.rtt_estimate);
                    let epoch_msgs = self.qdisc.update_send_rate(self.flow_state.send_rate);
                    self.ready_to_invoke = true;
                    FeedbackOutcome::Matched(FeedbackActions { rate_push, epoch_msgs })
                }
            },
        }
    }

    /// A tick fired.  While a match has been absorbed and the algorithm
    /// is ready, hand it the primitives, clear the one-shot deltas, and
    /// retune the epoch window to the current BDP; otherwise do nothing.
    /// In particular no invocation happens before the algorithm-ready
    /// signal.
    pub fn on_tick(&mut self) -> (inv: Option<Primitives>)
        requires
            old(self).wf(),
        ensures
            final(self).wf(),
            !(old(self).ready_to_invoke && old(self).algorithm_ready) ==> inv is None
                && *final(self) == *old(self),
            old(self).ready_to_invoke && old(self).algorithm_ready ==> {
                &&& inv == Some(spec_primitives(old(self).flow_state@))
                &&& final(self).flow_state@ == (FlowView {
                    acked_bytes: 0,
                    lost_bytes: 0,
                    window: spec_epoch_window(
                        old(self).flow_state.send_rate,
                        old(self).flow_state.rtt_estimate,
                        old(self).qdisc.curr_epoch_length,
                    ),
                    ..old(self).flow_state@
                })
                &&& final(self).qdisc == old(self).qdisc
                &&& final(self).ready_to_invoke
                &&& final(self).algorithm_ready
            },
    {
        if !(self.ready_to_invoke && self.algorithm_ready) {
            return None;
        }
        let prims = self.flow_state.primitives();
        self.flow_state.did_invoke();

        let epoch_length = self.qdisc.get_curr_epoch_length();
        proof {
            assert((self.flow_state.send_rate as int) * (self.flow_state.rtt_estimate as int)
                <= u64::MAX * u64::MAX) by (nonlinear_arith)
                requires
                    0 <= self.flow_state.send_rate <= u64::MAX,
                    0 <= self.flow_state.rtt_estimate <= u64::MAX,
            ;
        }
        let bdp_wide = (self.flow_state.send_rate as u128) * (self.flow_state.rtt_estimate as u128)
            / 1_000_000_000u128 / 1500u128;
        let bdp = if bdp_wide > u32::MAX as u128 {
            u32::MAX
        } else {
            bdp_wide as u32
        };
        let rounded = round_down_power_of_2(bdp);
        let window = rounded / epoch_length;
        let window_size: usize = if window < 1 {
            1
        } else {
            window as usize
        };
        self.flow_state.epoch_history.window = window_size;
        proof {
            assert(self.flow_state@ =~= (FlowView {
                acked_bytes: 0,
                lost_bytes: 0,
                window: spec_epoch_window(
                    old(self).flow_state.send_rate,
                    old(self).flow_state.rtt_estimate,
                    old(self).qdisc.curr_epoch_length,
                ),
                ..old(self).flow_state@
            }));
        }
        Some(prims)
    }

    /// The algorithm asked for an absolute rate: record it and say what
    /// to push to the shaper.
    pub fn on_algorithm_set_rate(&mut self, rate: u32) -> (push: Option<u32>)
        requires
            old(self).wf(),
        ensures
            final(self).wf(),
            final(self).qdisc == spec_after_set_rate(old(self).qdisc, rate),
            push == spec_set_rate_push(old(self).qdisc, rate),
            final(self).flow_state@ == old(self).flow_state@,
            final(self).ready_to_invoke == old(self).ready_to_invoke,
            final(self).algorithm_ready == old(self).algorithm_ready,
    {
        self.qdisc.set_rate(rate)
    }

    /// The algorithm asked for a cwnd; zero means it has no estimate yet
    /// and falls back to [`FALLBACK_CWND_BYTES`].  A refused directive
    /// (no RTT known, or a cwnd below one packet) is swallowed, as the
    /// algorithm is advisory.
    pub fn on_algorithm_set_cwnd(&mut self, cwnd: u32) -> (push: Option<u32>)
        requires
            old(self).wf(),
        ensures
            final(self).wf(),
            ({
                let set: u32 = if cwnd == 0 {
                    FALLBACK_CWND_BYTES
                } else {
                    cwnd
                };
                final(self).qdisc == spec_after_set_cwnd(old(self).qdisc, set) && push
                    == spec_set_cwnd_push(old(self).qdisc, set)
            }),
            final(self).flow_state@ == old(self).flow_state@,
            final(self).ready_to_invoke == old(self).ready_to_invoke,
            final(self).algorithm_ready == old(self).algorithm_ready,
    {
        let set = if cwnd == 0 {
            FALLBACK_CWND_BYTES
        } else {
            cwnd
        };
        match self.qdisc.set_approx_cwnd(set) {
            Ok(push) => push,
            Err(()) => None,
        }
    }
}

} // verus!
