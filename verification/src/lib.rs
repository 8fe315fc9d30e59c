//! Sender-side coordination core of a bundled congestion-control tunnel.
//!
//! A *bundle* is an aggregate of TCP flows crossing a shared bottleneck that
//! this library treats as one logical connection.  The inbox (sender side)
//! matches shaper reports against receiver-side feedback by per-packet
//! fingerprint, reconstructs send and receive epochs, derives rate, RTT and
//! loss primitives for an external congestion-control algorithm, and turns
//! the algorithm's rate and cwnd decisions into shaper directives.  The
//! outbox (receiver side) independently selects the same boundary packets by
//! fingerprint and reports byte counters back over a UDP side channel.
//!
//! This crate holds the coordination logic itself: the wire codecs, the
//! fingerprint, the mark history, the epoch aggregator, the flow-state
//! update protocol, the shaper adapter and the control-loop transition
//! functions, all verified.  Socket I/O, packet capture and the external
//! algorithm runtime live outside the library and hand plain values in.

use vstd::prelude::*;

pub mod epochs;
pub mod flow_state;
pub mod hash;
pub mod inbox;
pub mod marks;
pub mod outbox;
pub mod prio;
pub mod qdisc;
pub mod serialize;

verus! {

/// Length in bytes of an Ethernet (MAC) header.
pub const MAC_HEADER_LENGTH: usize = 14;

/// Length in bytes of an IPv4 header without options.
pub const IP_HEADER_LENGTH: usize = 20;

/// Offset of the protocol field within the IPv4 header.
pub const PROTO_IN_IP_HEADER: usize = 9;

/// IPv4 protocol number for TCP.
pub const IP_PROTO_TCP: u8 = 6;

/// The largest power of two that is at most `x`, and `0` for `x == 0`.
pub open spec fn spec_round_down_power_of_2(x: nat) -> nat
    decreases x,
{
    if x == 0 {
        0
    } else if x == 1 {
        1
    } else {
        2 * spec_round_down_power_of_2(x / 2)
    }
}

/// For positive `x`, rounding down to a power of two lands in `(x/2, x]`.
pub proof fn lemma_round_down_power_of_2_bounds(x: nat)
    requires
        x >= 1,
    ensures
        1 <= spec_round_down_power_of_2(x) <= x,
        x < 2 * spec_round_down_power_of_2(x),
    decreases x,
{
    if x > 1 {
        lemma_round_down_power_of_2_bounds(x / 2);
    }
}

/// Round `x` down to the nearest power of two; `0` stays `0`.
pub fn round_down_power_of_2(x: u32) -> (r: u32)
    ensures
        r == spec_round_down_power_of_2(x as nat),
        x >= 1 ==> 1 <= r <= x && x < 2 * r,
    decreases x,
{
    if x == 0 {
        0
    } else if x == 1 {
        1
    } else {
        proof {
            lemma_round_down_power_of_2_bounds((x / 2) as nat);
        }
        2 * round_down_power_of_2(x / 2)
    }
}

} // verus!
