//! History of marked packets awaiting a matching feedback report.
//!
//! Every shaper report appends a [`MarkedInstant`]; a feedback report
//! consumes the oldest entry with the same fingerprint.  Entries that were
//! overtaken by a younger match are flagged late (their own feedback was
//! lost or reordered), and entries older than [`MARK_TTL_NS`] are evicted
//! on each lookup.

use vstd::prelude::*;
use vstd::assert_seqs_equal;

verus! {

/// Entries older than this (2 seconds, in nanoseconds) are evicted on
/// each lookup.
pub const MARK_TTL_NS: u64 = 2_000_000_000;

/// One marked packet: when the shaper reported it, its fingerprint, the
/// cumulative byte counter at that moment, its epoch id, and whether a
/// younger mark has already been matched past it.
#[derive(Clone, Copy, Debug, PartialEq, Eq, Structural)]
pub struct MarkedInstant {
    pub time: u64,
    pub pkt_hash: u32,
    pub send_byte_clock: u64,
    pub id: u64,
    pub late: bool,
}

/// Outstanding marks in insertion order, with the next epoch id to hand out.
#[derive(Debug)]
pub struct MarkHistory {
    pub marks: Vec<MarkedInstant>,
    pub next_id: u64,
}

/// An entry is fresh at `now` when it is younger than [`MARK_TTL_NS`].
pub open spec fn spec_is_fresh(e: MarkedInstant, now: u64) -> bool {
    (now as int) < e.time + MARK_TTL_NS
}

/// The subsequence of `s` that is still fresh at `now`, in order.
pub open spec fn spec_fresh_only(s: Seq<MarkedInstant>, now: u64) -> Seq<MarkedInstant>
    decreases s.len(),
{
    if s.len() == 0 {
        Seq::empty()
    } else {
        let rest = spec_fresh_only(s.drop_last(), now);
        if spec_is_fresh(s.last(), now) {
            rest.push(s.last())
        } else {
            rest
        }
    }
}

/// The index of the first entry of `s` with fingerprint `h`, or `-1`.
pub open spec fn spec_find_first(s: Seq<MarkedInstant>, h: u32) -> int
    decreases s.len(),
{
    if s.len() == 0 {
        -1
    } else if s[0].pkt_hash == h {
        0
    } else {
        let r = spec_find_first(s.subrange(1, s.len() as int), h);
        if r < 0 {
            -1
        } else {
            r + 1
        }
    }
}

/// `s` with every entry flagged late.
pub open spec fn spec_mark_late(s: Seq<MarkedInstant>) -> Seq<MarkedInstant> {
    s.map_values(
        |e: MarkedInstant|
            MarkedInstant {
                time: e.time,
                pkt_hash: e.pkt_hash,
                send_byte_clock: e.send_byte_clock,
                id: e.id,
                late: true,
            },
    )
}

/// Epoch ids strictly increase along `s`.
pub open spec fn spec_ids_increasing(s: Seq<MarkedInstant>) -> bool {
    forall|i: int, j: int| 0 <= i < j < s.len() ==> s[i].id < s[j].id
}

/// Every epoch id in `s` is below `bound`.
pub open spec fn spec_ids_below(s: Seq<MarkedInstant>, bound: u64) -> bool {
    forall|i: int| 0 <= i < s.len() ==> s[i].id < bound
}

/// Eviction keeps a subsequence: it cannot grow the history, every
/// surviving entry was already there, and strictly increasing ids stay
/// strictly increasing.
pub proof fn lemma_fresh_only_wf(s: Seq<MarkedInstant>, now: u64)
    ensures
        spec_fresh_only(s, now).len() <= s.len(),
        forall|i: int|
            0 <= i < spec_fresh_only(s, now).len() ==> s.contains(
                #[trigger] spec_fresh_only(s, now)[i],
            ),
        spec_ids_increasing(s) ==> spec_ids_increasing(spec_fresh_only(s, now)),
    decreases s.len(),
{
    if s.len() > 0 {
        let head = s.drop_last();
        lemma_fresh_only_wf(head, now);
        let rest = spec_fresh_only(head, now);
        let out = spec_fresh_only(s, now);
        assert forall|i: int| 0 <= i < out.len() implies s.contains(#[trigger] out[i]) by {
            if i < rest.len() {
                assert(head.contains(rest[i]));
                let k = choose|k: int| 0 <= k < head.len() && head[k] == rest[i];
                assert(s[k] == out[i]);
            } else {
                assert(out[i] == s.last());
                assert(s[s.len() - 1] == s.last());
            }
        }
        if spec_ids_increasing(s) {
            assert(spec_ids_increasing(head));
            if spec_is_fresh(s.last(), now) {
                assert forall|i: int, j: int| 0 <= i < j < out.len() implies out[i].id
                    < out[j].id by {
                    if j < rest.len() {
                    } else {
                        assert(head.contains(rest[i]));
                        let k = choose|k: int| 0 <= k < head.len() && head[k] == rest[i];
                        assert(s[k].id < s[s.len() - 1].id);
                    }
                }
            }
        }
    }
}

/// A position that hits the fingerprint, with nothing before it hitting,
/// is the first match.
pub proof fn lemma_find_first_char(s: Seq<MarkedInstant>, h: u32, i: int)
    requires
        0 <= i < s.len(),
        s[i].pkt_hash == h,
        forall|j: int| 0 <= j < i ==> s[j].pkt_hash != h,
    ensures
        spec_find_first(s, h) == i,
    decreases i,
{
    if i > 0 {
        let tail = s.subrange(1, s.len() as int);
        lemma_find_first_char(tail, h, i - 1);
    }
}

/// A sequence without the fingerprint has no first match.
pub proof fn lemma_find_first_none(s: Seq<MarkedInstant>, h: u32)
    requires
        forall|j: int| 0 <= j < s.len() ==> s[j].pkt_hash != h,
    ensures
        spec_find_first(s, h) == -1,
    decreases s.len(),
{
    if s.len() > 0 {
        lemma_find_first_none(s.subrange(1, s.len() as int), h);
    }
}

/// What a non-negative first-match index means: it is in range, it hits
/// the fingerprint, and nothing before it does.
pub proof fn lemma_find_first_props(s: Seq<MarkedInstant>, h: u32)
    ensures
        spec_find_first(s, h) >= 0 ==> {
            let f = spec_find_first(s, h);
            &&& f < s.len()
            &&& s[f].pkt_hash == h
            &&& forall|j: int| 0 <= j < f ==> s[j].pkt_hash != h
        },
        spec_find_first(s, h) == -1 ==> forall|j: int| 0 <= j < s.len() ==> s[j].pkt_hash != h,
        spec_find_first(s, h) >= 0 || spec_find_first(s, h) == -1,
    decreases s.len(),
{
    if s.len() > 0 && s[0].pkt_hash != h {
        let tail = s.subrange(1, s.len() as int);
        lemma_find_first_props(tail, h);
        let ft = spec_find_first(tail, h);
        if ft >= 0 {
            let f = spec_find_first(s, h);
            assert(f == ft + 1);
            assert(s[f] == tail[ft]);
            assert forall|j: int| 0 <= j < f implies s[j].pkt_hash != h by {
                if j > 0 {
                    assert(s[j] == tail[j - 1]);
                }
            }
        } else {
            assert forall|j: int| 0 <= j < s.len() implies s[j].pkt_hash != h by {
                if j > 0 {
                    assert(s[j] == tail[j - 1]);
                }
            }
        }
    }
}

/// A lookup leaves the history well formed: evicting, late-marking and
/// removing the match keep ids strictly increasing and below the bound.
proof fn lemma_get_result_wf(orig: Seq<MarkedInstant>, now: u64, h: u32, bound: u64)
    requires
        spec_ids_increasing(orig),
        spec_ids_below(orig, bound),
    ensures
        ({
            let fresh = spec_fresh_only(orig, now);
            let f = spec_find_first(fresh, h);
            let result = if f == -1 {
                fresh
            } else {
                spec_mark_late(fresh.take(f)) + fresh.skip(f + 1)
            };
            spec_ids_increasing(result) && spec_ids_below(result, bound)
        }),
{
    lemma_fresh_only_wf(orig, now);
    let fresh = spec_fresh_only(orig, now);
    assert forall|k: int| 0 <= k < fresh.len() implies fresh[k].id < bound by {
        assert(orig.contains(fresh[k]));
    }
    let f = spec_find_first(fresh, h);
    lemma_find_first_props(fresh, h);
    if f >= 0 {
        let result = spec_mark_late(fresh.take(f)) + fresh.skip(f + 1);
        assert forall|a: int, b: int| 0 <= a < b < result.len() implies result[a].id
            < result[b].id by {
            let a0 = if a < f {
                a
            } else {
                a + 1
            };
            let b0 = if b < f {
                b
            } else {
                b + 1
            };
            assert(result[a].id == fresh[a0].id);
            assert(result[b].id == fresh[b0].id);
        }
        assert forall|k: int| 0 <= k < result.len() implies result[k].id < bound by {
            let k0 = if k < f {
                k
            } else {
                k + 1
            };
            assert(result[k].id == fresh[k0].id);
        }
    }
}

impl MarkHistory {
    /// The history hands out strictly increasing epoch ids, all below the
    /// id the next insertion will take.
    pub open spec fn wf(self) -> bool {
        &&& spec_ids_increasing(self.marks@)
        &&& spec_ids_below(self.marks@, self.next_id)
    }

    /// An empty history whose first epoch id will be 0.
    pub fn new() -> (r: Self)
        ensures
            r.marks@ == Seq::<MarkedInstant>::empty(),
            r.next_id == 0,
            r.wf(),
    {
        MarkHistory { marks: Vec::new(), next_id: 0 }
    }

    /// Append a new mark and hand out its epoch id, the next id in the
    /// monotonic sequence.
    pub fn insert(&mut self, pkt_hash: u32, time: u64, send_byte_clock: u64) -> (id: u64)
        requires
            old(self).next_id < u64::MAX,
        ensures
            id == old(self).next_id,
            final(self).next_id == old(self).next_id + 1,
            final(self).marks@ == old(self).marks@.push(
                MarkedInstant { time, pkt_hash, send_byte_clock, id, late: false },
            ),
            old(self).wf() ==> final(self).wf(),
    {
        let id = self.next_id;
        self.marks.push(MarkedInstant { time, pkt_hash, send_byte_clock, id, late: false });
        self.next_id = id + 1;
        id
    }

    /// Drop every entry older than [`MARK_TTL_NS`], keeping the rest in
    /// order.
    fn evict_stale(&mut self, now: u64)
        ensures
            final(self).marks@ == spec_fresh_only(old(self).marks@, now),
            final(self).next_id == old(self).next_id,
    {
        let ghost all = self.marks@;
        let mut kept: Vec<MarkedInstant> = Vec::new();
        let n = self.marks.len();
        let mut i: usize = 0;
        while i < n
            invariant
                i <= n,
                n == all.len(),
                self.marks@ == all,
                kept@ == spec_fresh_only(all.take(i as int), now),
            decreases n - i,
        {
            let e = self.marks[i];
            let fresh = if now >= e.time {
                now - e.time < MARK_TTL_NS
            } else {
                true
            };
            if fresh {
                kept.push(e);
            }
            proof {
                assert_seqs_equal!(all.take(i + 1).drop_last() == all.take(i as int));
                assert(all.take(i + 1).last() == all[i as int]);
            }
            i += 1;
        }
        proof {
            assert_seqs_equal!(all.take(n as int) == all);
        }
        self.marks = kept;
    }

    /// The position of the first entry with fingerprint `pkt_hash`, if any.
    pub fn find_idx(&self, pkt_hash: u32) -> (r: Option<usize>)
        ensures
            match r {
                Some(i) => spec_find_first(self.marks@, pkt_hash) == i,
                None => spec_find_first(self.marks@, pkt_hash) == -1,
            },
    {
        let n = self.marks.len();
        let mut i: usize = 0;
        while i < n
            invariant
                i <= n,
                n == self.marks@.len(),
                forall|j: int| 0 <= j < i ==> self.marks@[j].pkt_hash != pkt_hash,
            decreases n - i,
        {
            if self.marks[i].pkt_hash == pkt_hash {
                proof {
                    lemma_find_first_char(self.marks@, pkt_hash, i as int);
                }
                return Some(i);
            }
            i += 1;
        }
        proof {
            lemma_find_first_none(self.marks@, pkt_hash);
        }
        None
    }

    /// Match a feedback report against the history.
    ///
    /// Entries older than [`MARK_TTL_NS`] are evicted first.  The oldest
    /// fresh entry with the given fingerprint is removed and returned with
    /// the late flag earlier lookups gave it; every entry before it is
    /// flagged late, since its own feedback has been overtaken.  Without a
    /// fresh match the history keeps exactly its fresh entries and `None`
    /// comes back.
    pub fn get(&mut self, now: u64, pkt_hash: u32) -> (r: Option<MarkedInstant>)
        ensures
            final(self).next_id == old(self).next_id,
            ({
                let fresh = spec_fresh_only(old(self).marks@, now);
                let f = spec_find_first(fresh, pkt_hash);
                &&& (f == -1 ==> r is None && final(self).marks@ == fresh)
                &&& (f >= 0 ==> r == Some(fresh[f]) && final(self).marks@ == spec_mark_late(
                    fresh.take(f),
                ) + fresh.skip(f + 1))
            }),
            old(self).wf() ==> final(self).wf(),
    {
        proof {
            if old(self).wf() {
                lemma_get_result_wf(old(self).marks@, now, pkt_hash, old(self).next_id);
            }
        }
        let ghost fresh = spec_fresh_only(old(self).marks@, now);
        self.evict_stale(now);
        match self.find_idx(pkt_hash) {
            None => None,
            Some(i) => {
                proof {
                    lemma_find_first_props(fresh, pkt_hash);
                    assert_seqs_equal!(
                        self.marks@ == spec_mark_late(fresh.take(0)) + fresh.skip(0)
                    );
                }
                let mut j: usize = 0;
                while j < i
                    invariant
                        j <= i,
                        i < self.marks@.len(),
                        self.marks@.len() == fresh.len(),
                        spec_find_first(fresh, pkt_hash) == i,
                        self.marks@ == spec_mark_late(fresh.take(j as int)) + fresh.skip(j as int),
                        self.next_id == old(self).next_id,
                    decreases i - j,
                {
                    let mut e = self.marks[j];
                    e.late = true;
                    self.marks.set(j, e);
                    proof {
                        assert_seqs_equal!(
                            self.marks@ == spec_mark_late(fresh.take(j + 1)) + fresh.skip(j + 1)
                        );
                    }
                    j += 1;
                }
                let m = self.marks.remove(i);
                proof {
                    assert_seqs_equal!(
                        self.marks@ == spec_mark_late(fresh.take(i as int)) + fresh.skip(i as int + 1)
                    );
                    assert(m == fresh[i as int]);
                }
                Some(m)
            },
        }
    }
}

impl Default for MarkHistory {
    /// An empty history whose first epoch id will be 0.
    fn default() -> (r: Self)
        ensures
            r.marks@ == Seq::<MarkedInstant>::empty(),
            r.next_id == 0,
            r.wf(),
    {
        MarkHistory::new()
    }
}

} // verus!
