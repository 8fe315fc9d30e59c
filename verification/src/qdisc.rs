//! The shaper adapter: the decision half of the kernel-shaper handle.
//!
//! The adapter records the algorithm's requested rate and cwnd and the
//! measured RTT, and derives the effective rate actually pushed to the
//! token-bucket shaper: the minimum of the requested rate and the rate the
//! cwnd sustains over the current RTT.  It also keeps the epoch length
//! (the sampling period in packets) tracking the bundle's BDP.  Methods
//! return the directives to emit — a rate to push, messages for the
//! shaper and the outbox — and the caller performs the sends.

use vstd::prelude::*;
use crate::serialize::{OutBoxReportMsg, QDiscUpdateMsg, UPDATE_QDISC_MSG_TYPE};
use crate::spec_round_down_power_of_2;
use crate::round_down_power_of_2;

verus! {

/// The single bundle this runtime manages.
pub const BUNDLE_ID: u32 = 42;

/// Sentinel for "not set yet" in the rate and cwnd registers.
pub const UNSET: u32 = 0x3fff_ffff;

/// Sentinel for "not measured yet" in the RTT registers, in nanoseconds.
pub const UNSET_NS: u64 = 0x3fff_ffff;

/// Packet size used by the shaper-side BDP arithmetic, in bytes.
pub const SHAPER_MSS_BYTES: u32 = 1500;

/// Smallest epoch length the controller will set, in packets.
pub const MIN_EPOCH_LENGTH: u32 = 4;

/// Largest epoch length the controller will set, in packets.
pub const MAX_EPOCH_LENGTH: u32 = 1024;

/// What one epoch-length change asks the caller to send: a report to the
/// outbox (once its address is known) and a sample-rate update to the
/// shaper.
#[derive(Clone, Copy, Debug, PartialEq, Eq)]
pub struct EpochMsgs {
    pub to_outbox: Option<OutBoxReportMsg>,
    pub to_shaper: QDiscUpdateMsg,
}

/// The shaper adapter's state: measured RTTs, the algorithm's requests,
/// the rate last pushed, and the epoch-length controller's registers.
#[derive(Clone, Copy, Debug, PartialEq, Eq, Structural)]
pub struct Qdisc {
    pub rtt_ns: u64,
    pub min_rtt_ns: u64,
    pub observed_sending_bytes_per_sec: u64,
    pub rate_bytes_per_sec: u32,
    pub cwnd_bytes: u32,
    pub curr_set_rate: u32,
    pub use_dynamic_epoch: bool,
    pub curr_epoch_length: u32,
    pub rate_floor_bytes_per_sec: u32,
    pub outbox_addr_known: bool,
}

/// The rate the cwnd sustains over the given RTT, `cwnd / rtt` in bytes
/// per second, clamped at the top of `u32`; unlimited while no RTT is
/// known.
pub open spec fn spec_cwnd_rate(cwnd_bytes: u32, rtt_ns: u64) -> u32 {
    if rtt_ns == 0 {
        u32::MAX
    } else {
        let r = (cwnd_bytes as int) * 1_000_000_000 / (rtt_ns as int);
        if r > u32::MAX {
            u32::MAX
        } else {
            r as u32
        }
    }
}

/// The effective rate: the smaller of the requested rate and the rate the
/// cwnd sustains.
pub open spec fn spec_effective_rate(rate: u32, cwnd_bytes: u32, rtt_ns: u64) -> u32 {
    if rate <= spec_cwnd_rate(cwnd_bytes, rtt_ns) {
        rate
    } else {
        spec_cwnd_rate(cwnd_bytes, rtt_ns)
    }
}

/// The effective rate never exceeds the algorithm's requested rate, and,
/// once an RTT is known, never exceeds `cwnd / rtt`.
pub proof fn lemma_effective_rate_bounded(rate: u32, cwnd_bytes: u32, rtt_ns: u64)
    ensures
        spec_effective_rate(rate, cwnd_bytes, rtt_ns) <= rate,
        spec_effective_rate(rate, cwnd_bytes, rtt_ns) <= spec_cwnd_rate(cwnd_bytes, rtt_ns),
        rtt_ns > 0 ==> spec_effective_rate(rate, cwnd_bytes, rtt_ns) <= (cwnd_bytes as int)
            * 1_000_000_000 / (rtt_ns as int),
{
}

/// The adapter state after one effective-rate recomputation: only the
/// pushed-rate register can move, and only while a rate or cwnd request
/// is in place.
pub open spec fn spec_after_recompute(q: Qdisc) -> Qdisc {
    if q.cwnd_bytes == UNSET && q.rate_bytes_per_sec == UNSET {
        q
    } else {
        Qdisc {
            curr_set_rate: spec_effective_rate(q.rate_bytes_per_sec, q.cwnd_bytes, q.rtt_ns),
            ..q
        }
    }
}

/// The rate one recomputation pushes to the shaper: the new effective
/// rate, lifted to the configured floor — or nothing, while no request is
/// in place or while the effective rate did not change.
pub open spec fn spec_recompute_push(q: Qdisc) -> Option<u32> {
    if q.cwnd_bytes == UNSET && q.rate_bytes_per_sec == UNSET {
        None
    } else {
        let eff = spec_effective_rate(q.rate_bytes_per_sec, q.cwnd_bytes, q.rtt_ns);
        if eff == q.curr_set_rate {
            None
        } else if eff > q.rate_floor_bytes_per_sec {
            Some(eff)
        } else {
            Some(q.rate_floor_bytes_per_sec)
        }
    }
}

/// The adapter state after recording a requested rate.
pub open spec fn spec_after_set_rate(q: Qdisc, rate: u32) -> Qdisc {
    spec_after_recompute(Qdisc { rate_bytes_per_sec: rate, ..q })
}

/// The rate pushed when recording a requested rate.
pub open spec fn spec_set_rate_push(q: Qdisc, rate: u32) -> Option<u32> {
    spec_recompute_push(Qdisc { rate_bytes_per_sec: rate, ..q })
}

/// A cwnd directive is refused while it covers less than one packet or
/// no RTT is known.
pub open spec fn spec_cwnd_rejected(q: Qdisc, cwnd_bytes: u32) -> bool {
    cwnd_bytes < SHAPER_MSS_BYTES || q.rtt_ns == 0
}

/// The adapter state after recording a cwnd directive.
pub open spec fn spec_after_set_cwnd(q: Qdisc, cwnd_bytes: u32) -> Qdisc {
    if spec_cwnd_rejected(q, cwnd_bytes) {
        q
    } else {
        spec_after_recompute(Qdisc { cwnd_bytes: cwnd_bytes, ..q })
    }
}

/// The rate pushed when recording a cwnd directive.
pub open spec fn spec_set_cwnd_push(q: Qdisc, cwnd_bytes: u32) -> Option<u32> {
    if spec_cwnd_rejected(q, cwnd_bytes) {
        None
    } else {
        spec_recompute_push(Qdisc { cwnd_bytes: cwnd_bytes, ..q })
    }
}

/// The running minimum RTT after one more sample.
pub open spec fn spec_min_rtt(q: Qdisc, rtt_ns: u64) -> u64 {
    if rtt_ns <= q.min_rtt_ns {
        rtt_ns
    } else {
        q.min_rtt_ns
    }
}

/// The adapter state after recording an RTT sample.
pub open spec fn spec_after_update_rtt(q: Qdisc, rtt_ns: u64) -> Qdisc {
    spec_after_recompute(Qdisc { rtt_ns: rtt_ns, min_rtt_ns: spec_min_rtt(q, rtt_ns), ..q })
}

/// The rate pushed when recording an RTT sample.
pub open spec fn spec_update_rtt_push(q: Qdisc, rtt_ns: u64) -> Option<u32> {
    spec_recompute_push(Qdisc { rtt_ns: rtt_ns, min_rtt_ns: spec_min_rtt(q, rtt_ns), ..q })
}

/// The adapter state after an epoch-length change: a no-op while the
/// dynamic epoch is disabled or the length already matches.
pub open spec fn spec_after_set_epoch_length(q: Qdisc, epoch_length_packets: u32) -> Qdisc {
    if !q.use_dynamic_epoch || q.curr_epoch_length == epoch_length_packets {
        q
    } else {
        Qdisc { curr_epoch_length: epoch_length_packets, ..q }
    }
}

/// What an epoch-length change sends: a report to the outbox once its
/// address is known, and a sample-rate update to the shaper.
pub open spec fn spec_epoch_msgs(q: Qdisc, epoch_length_packets: u32) -> Option<EpochMsgs> {
    if !q.use_dynamic_epoch || q.curr_epoch_length == epoch_length_packets {
        None
    } else {
        Some(
            EpochMsgs {
                to_outbox: if q.outbox_addr_known {
                    Some(
                        OutBoxReportMsg {
                            bundle_id: BUNDLE_ID,
                            epoch_length_packets: epoch_length_packets,
                        },
                    )
                } else {
                    None
                },
                to_shaper: QDiscUpdateMsg {
                    msg_type: UPDATE_QDISC_MSG_TYPE,
                    bundle_id: BUNDLE_ID,
                    sample_rate: epoch_length_packets,
                },
            },
        )
    }
}

/// The adapter state after recording an observed sending rate and moving
/// the epoch length to what it implies over the minimum RTT.
pub open spec fn spec_after_update_send_rate(q: Qdisc, observed: u64) -> Qdisc {
    spec_after_set_epoch_length(
        Qdisc { observed_sending_bytes_per_sec: observed, ..q },
        spec_epoch_length(observed, q.min_rtt_ns),
    )
}

/// What recording an observed sending rate sends.
pub open spec fn spec_update_send_rate_msgs(q: Qdisc, observed: u64) -> Option<EpochMsgs> {
    spec_epoch_msgs(
        Qdisc { observed_sending_bytes_per_sec: observed, ..q },
        spec_epoch_length(observed, q.min_rtt_ns),
    )
}

/// The epoch length for an observed sending rate and a minimum RTT: the
/// in-flight BDP in packets, rounded down to a power of two, divided by
/// four, clamped to `[MIN_EPOCH_LENGTH, MAX_EPOCH_LENGTH]`.
pub open spec fn spec_epoch_length(rate_bytes_per_sec: u64, rtt_ns: u64) -> u32 {
    let bdp_int = (rate_bytes_per_sec as int) * (rtt_ns as int) / 1_000_000_000 / (
    SHAPER_MSS_BYTES as int);
    let bdp = if bdp_int > u32::MAX {
        u32::MAX
    } else {
        bdp_int as u32
    };
    let quarter = spec_round_down_power_of_2(bdp as nat) / 4;
    if quarter < MIN_EPOCH_LENGTH {
        MIN_EPOCH_LENGTH
    } else if quarter > MAX_EPOCH_LENGTH {
        MAX_EPOCH_LENGTH
    } else {
        quarter as u32
    }
}

/// The epoch length tracking an observed sending rate over the minimum
/// RTT, always within `[MIN_EPOCH_LENGTH, MAX_EPOCH_LENGTH]`.
pub fn get_epoch_length(rate_bytes_per_sec: u64, rtt_ns: u64) -> (r: u32)
    ensures
        r == spec_epoch_length(rate_bytes_per_sec, rtt_ns),
        MIN_EPOCH_LENGTH <= r <= MAX_EPOCH_LENGTH,
{
    proof {
        assert((rate_bytes_per_sec as int) * (rtt_ns as int) <= u64::MAX * u64::MAX)
            by (nonlinear_arith)
            requires
                0 <= rate_bytes_per_sec <= u64::MAX,
                0 <= rtt_ns <= u64::MAX,
        ;
    }
    let bdp_wide = (rate_bytes_per_sec as u128) * (rtt_ns as u128) / 1_000_000_000u128 / (
    SHAPER_MSS_BYTES as u128);
    let bdp = if bdp_wide > u32::MAX as u128 {
        u32::MAX
    } else {
        bdp_wide as u32
    };
    let quarter = round_down_power_of_2(bdp) / 4;
    if quarter < MIN_EPOCH_LENGTH {
        MIN_EPOCH_LENGTH
    } else if quarter > MAX_EPOCH_LENGTH {
        MAX_EPOCH_LENGTH
    } else {
        quarter
    }
}

impl Qdisc {
    /// The epoch length is always positive, so window arithmetic that
    /// divides by it cannot fault.
    pub open spec fn wf(self) -> bool {
        self.curr_epoch_length >= 1
    }

    /// A fresh adapter: nothing measured, nothing requested, the epoch
    /// length at its minimum and the outbox address still unknown.
    pub fn new(use_dynamic_epoch: bool, rate_floor_bytes_per_sec: u32) -> (r: Self)
        ensures
            r.rtt_ns == UNSET_NS,
            r.min_rtt_ns == UNSET_NS,
            r.observed_sending_bytes_per_sec == UNSET_NS,
            r.rate_bytes_per_sec == UNSET,
            r.cwnd_bytes == UNSET,
            r.curr_set_rate == UNSET,
            r.use_dynamic_epoch == use_dynamic_epoch,
            r.curr_epoch_length == MIN_EPOCH_LENGTH,
            r.rate_floor_bytes_per_sec == rate_floor_bytes_per_sec,
            !r.outbox_addr_known,
            r.wf(),
    {
        Qdisc {
            rtt_ns: UNSET_NS,
            min_rtt_ns: UNSET_NS,
            observed_sending_bytes_per_sec: UNSET_NS,
            rate_bytes_per_sec: UNSET,
            cwnd_bytes: UNSET,
            curr_set_rate: UNSET,
            use_dynamic_epoch,
            curr_epoch_length: MIN_EPOCH_LENGTH,
            rate_floor_bytes_per_sec,
            outbox_addr_known: false,
        }
    }

    /// Record that the outbox's address has been learned, so epoch-length
    /// changes can be reported to it from now on.
    pub fn note_outbox_found(&mut self)
        ensures
            *final(self) == (Qdisc { outbox_addr_known: true, ..*old(self) }),
    {
        self.outbox_addr_known = true;
    }

    /// Recompute the effective rate and say what to push to the shaper.
    fn recompute(&mut self) -> (push: Option<u32>)
        ensures
            *final(self) == spec_after_recompute(*old(self)),
            push == spec_recompute_push(*old(self)),
    {
        if self.cwnd_bytes == UNSET && self.rate_bytes_per_sec == UNSET {
            return None;
        }
        let cwnd_rate = if self.rtt_ns == 0 {
            u32::MAX
        } else {
            let r = (self.cwnd_bytes as u64) * 1_000_000_000 / self.rtt_ns;
            if r > u32::MAX as u64 {
                u32::MAX
            } else {
                r as u32
            }
        };
        let eff = if self.rate_bytes_per_sec <= cwnd_rate {
            self.rate_bytes_per_sec
        } else {
            cwnd_rate
        };
        if eff == self.curr_set_rate {
            return None;
        }
        self.curr_set_rate = eff;
        if eff > self.rate_floor_bytes_per_sec {
            Some(eff)
        } else {
            Some(self.rate_floor_bytes_per_sec)
        }
    }

    /// Record the algorithm's requested rate and say what to push.
    pub fn set_rate(&mut self, rate: u32) -> (push: Option<u32>)
        ensures
            *final(self) == spec_after_set_rate(*old(self), rate),
            push == spec_set_rate_push(*old(self), rate),
            final(self).curr_epoch_length == old(self).curr_epoch_length,
    {
        self.rate_bytes_per_sec = rate;
        self.recompute()
    }

    /// Record the algorithm's approximate cwnd and say what to push.
    /// Refused unless an RTT is known and the cwnd covers at least one
    /// packet of [`SHAPER_MSS_BYTES`].
    pub fn set_approx_cwnd(&mut self, cwnd_bytes: u32) -> (r: Result<Option<u32>, ()>)
        ensures
            spec_cwnd_rejected(*old(self), cwnd_bytes) <==> r is Err,
            *final(self) == spec_after_set_cwnd(*old(self), cwnd_bytes),
            r matches Ok(push) ==> push == spec_set_cwnd_push(*old(self), cwnd_bytes),
            final(self).curr_epoch_length == old(self).curr_epoch_length,
    {
        if cwnd_bytes / SHAPER_MSS_BYTES == 0 || self.rtt_ns == 0 {
            return Err(());
        }
        self.cwnd_bytes = cwnd_bytes;
        Ok(self.recompute())
    }

    /// Record a new RTT sample, fold it into the minimum RTT, and say
    /// what to push.
    pub fn update_rtt(&mut self, rtt_ns: u64) -> (push: Option<u32>)
        ensures
            *final(self) == spec_after_update_rtt(*old(self), rtt_ns),
            push == spec_update_rtt_push(*old(self), rtt_ns),
            final(self).curr_epoch_length == old(self).curr_epoch_length,
    {
        self.rtt_ns = rtt_ns;
        if rtt_ns <= self.min_rtt_ns {
            self.min_rtt_ns = rtt_ns;
        }
        self.recompute()
    }

    /// Move the epoch length to `epoch_length_packets` and say what to
    /// send: a report to the outbox once its address is known, and a
    /// sample-rate update to the shaper.  A no-op while the dynamic epoch
    /// is disabled, or when the length already matches.
    pub fn set_epoch_length(&mut self, epoch_length_packets: u32) -> (msgs: Option<EpochMsgs>)
        requires
            epoch_length_packets >= 1,
        ensures
            old(self).wf() ==> final(self).wf(),
            *final(self) == spec_after_set_epoch_length(*old(self), epoch_length_packets),
            msgs == spec_epoch_msgs(*old(self), epoch_length_packets),
    {
        if !self.use_dynamic_epoch {
            return None;
        }
        if self.curr_epoch_length == epoch_length_packets {
            return None;
        }
        self.curr_epoch_length = epoch_length_packets;
        let to_outbox = if self.outbox_addr_known {
            Some(OutBoxReportMsg { bundle_id: BUNDLE_ID, epoch_length_packets })
        } else {
            None
        };
        let to_shaper = QDiscUpdateMsg {
            msg_type: UPDATE_QDISC_MSG_TYPE,
            bundle_id: BUNDLE_ID,
            sample_rate: epoch_length_packets,
        };
        Some(EpochMsgs { to_outbox, to_shaper })
    }

    /// Record the observed aggregate sending rate, derive the epoch
    /// length it implies over the minimum RTT, and move to it.  With the
    /// dynamic epoch enabled the length always lands in
    /// `[MIN_EPOCH_LENGTH, MAX_EPOCH_LENGTH]`.
    pub fn update_send_rate(&mut self, observed_sending_bytes_per_sec: u64) -> (msgs: Option<
        EpochMsgs,
    >)
        ensures
            *final(self) == spec_after_update_send_rate(*old(self), observed_sending_bytes_per_sec),
            msgs == spec_update_send_rate_msgs(*old(self), observed_sending_bytes_per_sec),
            old(self).use_dynamic_epoch ==> MIN_EPOCH_LENGTH <= final(self).curr_epoch_length
                <= MAX_EPOCH_LENGTH,
            old(self).wf() ==> final(self).wf(),
    {
        self.observed_sending_bytes_per_sec = observed_sending_bytes_per_sec;
        let epoch_length = get_epoch_length(observed_sending_bytes_per_sec, self.min_rtt_ns);
        self.set_epoch_length(epoch_length)
    }

    /// The epoch length currently in force.
    pub fn get_curr_epoch_length(&self) -> (r: u32)
        ensures
            r == self.curr_epoch_length,
    {
        self.curr_epoch_length
    }
}

} // verus!
