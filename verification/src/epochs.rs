//! Sliding window of paired send and receive epochs.
//!
//! Every matched mark/feedback pair contributes one send epoch and one
//! receive epoch.  The window keeps the most recent `window` pairs and
//! smooths the bundle's sending and receiving rates over them.

use vstd::prelude::*;
use vstd::assert_seqs_equal;

verus! {

/// One epoch: the interval between two consecutive matched marks,
/// characterized by its duration and the bytes transferred in it.
#[derive(Clone, Copy, Debug, PartialEq, Eq, Structural)]
pub struct Epoch {
    pub elapsed_ns: u64,
    pub bytes: u64,
}

/// The paired sliding windows of send and receive epochs.
#[derive(Debug)]
pub struct EpochHistory {
    pub window: usize,
    pub sending: Vec<Epoch>,
    pub receiving: Vec<Epoch>,
}

/// `a + b`, clamped at the top of `u64`.
pub open spec fn spec_sat_add_u64(a: u64, b: u64) -> u64 {
    if a + b > u64::MAX {
        u64::MAX
    } else {
        (a + b) as u64
    }
}

/// The bytes of all epochs of `s`, summed with saturation.
pub open spec fn spec_total_bytes(s: Seq<Epoch>) -> u64
    decreases s.len(),
{
    if s.len() == 0 {
        0
    } else {
        spec_sat_add_u64(spec_total_bytes(s.drop_last()), s.last().bytes)
    }
}

/// The durations of all epochs of `s`, summed with saturation.
pub open spec fn spec_total_elapsed(s: Seq<Epoch>) -> u64
    decreases s.len(),
{
    if s.len() == 0 {
        0
    } else {
        spec_sat_add_u64(spec_total_elapsed(s.drop_last()), s.last().elapsed_ns)
    }
}

/// The smoothed rate over `s` in bytes per second: total bytes divided by
/// total elapsed time, clamped at the top of `u64`, and `0` when no time
/// has elapsed.
pub open spec fn spec_rate(s: Seq<Epoch>) -> u64 {
    let b = spec_total_bytes(s);
    let t = spec_total_elapsed(s);
    if t == 0 {
        0
    } else {
        let q = (b as int) * 1_000_000_000 / (t as int);
        if q > u64::MAX {
            u64::MAX
        } else {
            q as u64
        }
    }
}

/// The last `w` elements of `s`, or all of `s` when it is shorter.
pub open spec fn spec_trim(s: Seq<Epoch>, w: int) -> Seq<Epoch> {
    if s.len() <= w {
        s
    } else {
        s.skip(s.len() - w)
    }
}

/// The smoothed rate over a queue of epochs, in bytes per second.
pub fn rate(epochs: &Vec<Epoch>) -> (r: u64)
    ensures
        r == spec_rate(epochs@),
{
    let ghost all = epochs@;
    let mut bytes: u64 = 0;
    let mut elapsed: u64 = 0;
    let n = epochs.len();
    let mut i: usize = 0;
    while i < n
        invariant
            i <= n,
            n == all.len(),
            epochs@ == all,
            bytes == spec_total_bytes(all.take(i as int)),
            elapsed == spec_total_elapsed(all.take(i as int)),
        decreases n - i,
    {
        let e = epochs[i];
        bytes = if bytes <= u64::MAX - e.bytes {
            bytes + e.bytes
        } else {
            u64::MAX
        };
        elapsed = if elapsed <= u64::MAX - e.elapsed_ns {
            elapsed + e.elapsed_ns
        } else {
            u64::MAX
        };
        proof {
            assert_seqs_equal!(all.take(i + 1).drop_last() == all.take(i as int));
            assert(all.take(i + 1).last() == all[i as int]);
        }
        i += 1;
    }
    proof {
        assert_seqs_equal!(all.take(n as int) == all);
    }
    if elapsed == 0 {
        0
    } else {
        let q = (bytes as u128) * 1_000_000_000u128 / (elapsed as u128);
        if q > u64::MAX as u128 {
            u64::MAX
        } else {
            q as u64
        }
    }
}

impl EpochHistory {
    /// The two windows always pair up: one send epoch per receive epoch.
    pub open spec fn wf(self) -> bool {
        self.sending@.len() == self.receiving@.len()
    }

    /// Empty windows.  The window size starts at 0 and must be set to at
    /// least 1 before the first pair arrives.
    pub fn new() -> (r: Self)
        ensures
            r.window == 0,
            r.sending@ == Seq::<Epoch>::empty(),
            r.receiving@ == Seq::<Epoch>::empty(),
            r.wf(),
    {
        EpochHistory { window: 0, sending: Vec::new(), receiving: Vec::new() }
    }

    /// Record one matched pair: push both epochs, trim both queues to the
    /// window, and return the smoothed `(send, receive)` rates over what
    /// remains.
    pub fn got_epoch(&mut self, send_epoch: Epoch, recv_epoch: Epoch) -> (rates: (u64, u64))
        requires
            old(self).window >= 1,
            old(self).wf(),
        ensures
            final(self).window == old(self).window,
            final(self).sending@ == spec_trim(
                old(self).sending@.push(send_epoch),
                old(self).window as int,
            ),
            final(self).receiving@ == spec_trim(
                old(self).receiving@.push(recv_epoch),
                old(self).window as int,
            ),
            final(self).wf(),
            final(self).sending@.len() <= old(self).window,
            rates.0 == spec_rate(final(self).sending@),
            rates.1 == spec_rate(final(self).receiving@),
    {
        self.sending.push(send_epoch);
        self.receiving.push(recv_epoch);
        let ghost sent = self.sending@;
        let ghost recvd = self.receiving@;
        if self.sending.len() > self.window {
            let excess = self.sending.len() - self.window;
            let trimmed = self.sending.split_off(excess);
            self.sending = trimmed;
        }
        if self.receiving.len() > self.window {
            let excess = self.receiving.len() - self.window;
            let trimmed = self.receiving.split_off(excess);
            self.receiving = trimmed;
        }
        proof {
            assert(self.sending@ == spec_trim(sent, self.window as int));
            assert(self.receiving@ == spec_trim(recvd, self.window as int));
        }
        let send_rate = rate(&self.sending);
        let recv_rate = rate(&self.receiving);
        (send_rate, recv_rate)
    }
}

impl Default for EpochHistory {
    /// Empty windows with window size 0.
    fn default() -> (r: Self)
        ensures
            r.window == 0,
            r.sending@ == Seq::<Epoch>::empty(),
            r.receiving@ == Seq::<Epoch>::empty(),
            r.wf(),
    {
        EpochHistory::new()
    }
}

} // verus!
