use std::hash::Hasher;

use bundler::hash::{hash_packet, unpack_ips, unpack_ports};
use bundler::outbox::EpochDetector;

/// A minimal IPv4+TCP packet without a link-layer header: the IP header
/// occupies bytes 0..20 and the TCP header starts at 20.
fn tcp_packet() -> Vec<u8> {
    let mut pkt = vec![0u8; 40];
    pkt[0] = 0x45; // version + header length
    pkt[4] = 0xab; // identification
    pkt[5] = 0xcd;
    pkt[9] = 6; // protocol: TCP
    pkt[12] = 10; // source 10.0.0.1
    pkt[15] = 1;
    pkt[16] = 10; // destination 10.0.0.2
    pkt[19] = 2;
    pkt[20] = 0xd8; // source port 55299
    pkt[21] = 0x03;
    pkt[22] = 0x01; // destination port 443
    pkt[23] = 0xbb;
    pkt
}

/// The fingerprint the fnv crate computes over the same three fields, the
/// way the runtime hashes them: dst-ip, dst-port, IP-ID.
fn fnv_fingerprint(pkt: &[u8], ip_start: usize, tcp_start: usize) -> u32 {
    let mut h = fnv::FnvHasher::default();
    h.write(&pkt[ip_start + 16..ip_start + 20]);
    h.write(&pkt[tcp_start + 2..tcp_start + 4]);
    h.write(&pkt[ip_start + 4..ip_start + 6]);
    h.finish() as u32
}

#[test]
fn fingerprint_agrees_with_fnv() {
    let pkt = tcp_packet();
    assert_eq!(hash_packet(0, 20, &pkt), fnv_fingerprint(&pkt, 0, 20));

    // And over a spread of byte patterns.
    for seed in 0u32..32 {
        let mut p = vec![0u8; 48];
        for (i, b) in p.iter_mut().enumerate() {
            *b = (seed.wrapping_mul(31).wrapping_add(i as u32 * 7)) as u8;
        }
        assert_eq!(hash_packet(0, 20, &p), fnv_fingerprint(&p, 0, 20));
        assert_eq!(hash_packet(14, 34, &p), fnv_fingerprint(&p, 14, 34));
    }
}

#[test]
fn fingerprint_ignores_the_link_layer() {
    // The same packet captured with and without an Ethernet header gets
    // the same fingerprint, so inbox and outbox agree on it.
    let bare = tcp_packet();
    let mut framed = vec![0u8; 14];
    framed.extend_from_slice(&bare);
    assert_eq!(hash_packet(0, 20, &bare), hash_packet(14, 34, &framed));
}

#[test]
fn fingerprint_depends_on_the_ip_id() {
    let a = tcp_packet();
    let mut b = tcp_packet();
    b[4] = b[4].wrapping_add(1);
    assert_ne!(hash_packet(0, 20, &a), hash_packet(0, 20, &b));
}

#[test]
fn unpack_fields() {
    let pkt = tcp_packet();
    let (src, dst) = unpack_ips(&pkt, 0);
    assert_eq!(src, 0x0a00_0001);
    assert_eq!(dst, 0x0a00_0002);
    let (sport, dport) = unpack_ports(&pkt, 20);
    assert_eq!(sport, 55_299);
    assert_eq!(dport, 443);
}

#[test]
fn detector_reports_sampled_tcp_packets() {
    // Sample rate 1: every TCP packet is a boundary.
    let mut d = EpochDetector::new(1);
    let pkt = tcp_packet();
    let msg = d.on_packet(777, &pkt, 1000, true).expect("sampled");
    assert_eq!(msg.bundle_id, 42);
    assert_eq!(msg.marked_packet_hash, hash_packet(0, 20, &pkt));
    // Without a link-layer header the MAC length is added back.
    assert_eq!(msg.epoch_bytes, 1014);
    assert_eq!(msg.epoch_time, 777);
    assert_eq!(d.cumulative_bytes, 1014);
    assert_eq!(d.last_report_time, 777);
}

#[test]
fn detector_counts_framed_captures_as_is() {
    let mut d = EpochDetector::new(1);
    let bare = tcp_packet();
    let mut framed = vec![0u8; 14];
    framed.extend_from_slice(&bare);
    let msg = d.on_packet(5, &framed, 1000, false).expect("sampled");
    assert_eq!(msg.epoch_bytes, 1000);
}

#[test]
fn detector_ignores_non_tcp() {
    let mut d = EpochDetector::new(1);
    let mut pkt = tcp_packet();
    pkt[9] = 17; // UDP
    assert!(d.on_packet(1, &pkt, 500, true).is_none());
    assert_eq!(d.cumulative_bytes, 0);
}

#[test]
fn detector_skips_unsampled_fingerprints() {
    let pkt = tcp_packet();
    let h = hash_packet(0, 20, &pkt);
    // Pick a rate that does not divide this fingerprint.
    let rate = (3u32..100).find(|r| h % r != 0).unwrap();
    let mut d = EpochDetector::new(rate);
    assert!(d.on_packet(1, &pkt, 500, true).is_none());
    // The byte counter still advanced.
    assert_eq!(d.cumulative_bytes, 514);
}

#[test]
fn detector_ignores_zero_sample_rate() {
    let mut d = EpochDetector::new(8);
    d.update_sample_rate(0);
    assert_eq!(d.sample_rate, 8);
    d.update_sample_rate(16);
    assert_eq!(d.sample_rate, 16);
}
