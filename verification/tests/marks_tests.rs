use bundler::marks::MarkHistory;

const MS: u64 = 1_000_000;

#[test]
fn out_of_order_feedback() {
    let mut h = MarkHistory::default();
    let id_a = h.insert(0xa, 0, 0);
    let id_b = h.insert(0xb, 50 * MS, 1000);
    let id_c = h.insert(0xc, 100 * MS, 2000);

    // Feedback for the youngest mark arrives first: it matches in order,
    // and the two overtaken marks are flagged late.
    let c = h.get(150 * MS, 0xc).expect("c must match");
    assert_eq!(c.id, id_c);
    assert!(!c.late);

    // The overtaken marks still match, exactly once each, and carry the
    // late flag.
    let b = h.get(200 * MS, 0xb).expect("b must still match");
    assert_eq!(b.id, id_b);
    assert!(b.late);

    let a = h.get(250 * MS, 0xa).expect("a must still match");
    assert_eq!(a.id, id_a);
    assert!(a.late);

    // Each was consumed by its match: nothing is left.
    assert!(h.get(260 * MS, 0xa).is_none());
    assert!(h.get(260 * MS, 0xb).is_none());
    assert!(h.get(260 * MS, 0xc).is_none());
}

#[test]
fn ttl_expiry() {
    let mut h = MarkHistory::default();
    h.insert(0x5, 0, 0);
    // The feedback arrives after the 2-second TTL: the mark has been
    // evicted and the lookup fails.
    assert!(h.get(2_500 * MS, 0x5).is_none());
}

#[test]
fn ttl_keeps_young_marks() {
    let mut h = MarkHistory::default();
    h.insert(0x5, 0, 0);
    let m = h.get(1_999 * MS, 0x5).expect("one nanosecond under the TTL survives");
    assert_eq!(m.pkt_hash, 0x5);
}

#[test]
fn collision_matches_oldest_first() {
    let mut h = MarkHistory::default();
    let first = h.insert(0x7, 10, 100);
    let second = h.insert(0x7, 20, 200);

    let m1 = h.get(30, 0x7).expect("first lookup");
    assert_eq!(m1.id, first);
    assert_eq!(m1.send_byte_clock, 100);

    let m2 = h.get(40, 0x7).expect("second lookup");
    assert_eq!(m2.id, second);
    assert_eq!(m2.send_byte_clock, 200);

    assert!(h.get(50, 0x7).is_none());
}

#[test]
fn insert_hands_out_increasing_ids() {
    let mut h = MarkHistory::default();
    let i0 = h.insert(1, 0, 0);
    let i1 = h.insert(2, 1, 1);
    let i2 = h.insert(3, 2, 2);
    assert_eq!(i0, 0);
    assert_eq!(i1, 1);
    assert_eq!(i2, 2);
}

#[test]
fn miss_leaves_fresh_marks_alone() {
    let mut h = MarkHistory::default();
    h.insert(0x1, 0, 0);
    assert!(h.get(10, 0x9).is_none());
    // The unrelated mark is still there.
    assert!(h.get(20, 0x1).is_some());
}
