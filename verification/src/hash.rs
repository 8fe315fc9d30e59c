//! Packet fingerprints for epoch boundary identification.
//!
//! The fingerprint is the FNV-1a hash of {destination IPv4 address (4 B),
//! destination TCP port (2 B), IPv4 identification field (2 B)}, in network
//! byte order, truncated to 32 bits.  Those fields are untouched along the
//! path, so the sender-side shaper and the receiver-side observer compute
//! the same fingerprint for the same packet and can match their reports.

use vstd::prelude::*;
use vstd::assert_seqs_equal;

verus! {

/// The FNV-1a 64-bit offset basis.
pub const FNV_OFFSET_BASIS: u64 = 0xcbf2_9ce4_8422_2325;

/// The FNV-1a 64-bit prime.
pub const FNV_PRIME: u64 = 0x0000_0100_0000_01b3;

/// One FNV-1a round: fold one byte into the running hash.
pub open spec fn spec_fnv1a_step(h: u64, b: u8) -> u64 {
    (((h ^ (b as u64)) as nat * FNV_PRIME as nat) % 0x1_0000_0000_0000_0000) as u64
}

/// The FNV-1a 64-bit hash of a byte sequence.
pub open spec fn spec_fnv1a(s: Seq<u8>) -> u64
    decreases s.len(),
{
    if s.len() == 0 {
        FNV_OFFSET_BASIS
    } else {
        spec_fnv1a_step(spec_fnv1a(s.drop_last()), s.last())
    }
}

/// The eight bytes a packet is fingerprinted over: destination address,
/// destination port, IP identification.
pub open spec fn spec_hash_input(pkt: Seq<u8>, ip_start: int, tcp_start: int) -> Seq<u8> {
    pkt.subrange(ip_start + 16, ip_start + 20) + pkt.subrange(tcp_start + 2, tcp_start + 4)
        + pkt.subrange(ip_start + 4, ip_start + 6)
}

/// The packet's fingerprint: FNV-1a over the eight header bytes,
/// truncated to 32 bits.
pub open spec fn spec_hash_packet(pkt: Seq<u8>, ip_start: int, tcp_start: int) -> u32 {
    (spec_fnv1a(spec_hash_input(pkt, ip_start, tcp_start)) % 0x1_0000_0000) as u32
}

/// Two packets whose destination address, destination port and IP
/// identification bytes agree get the same fingerprint, whatever else
/// differs — in particular the same packet seen at the sender's shaper
/// and at the receiver's tap, even when only one capture carries a
/// link-layer header.
pub proof fn lemma_fingerprint_agreement(
    pkt_a: Seq<u8>,
    ip_a: int,
    tcp_a: int,
    pkt_b: Seq<u8>,
    ip_b: int,
    tcp_b: int,
)
    requires
        pkt_a.subrange(ip_a + 16, ip_a + 20) == pkt_b.subrange(ip_b + 16, ip_b + 20),
        pkt_a.subrange(tcp_a + 2, tcp_a + 4) == pkt_b.subrange(tcp_b + 2, tcp_b + 4),
        pkt_a.subrange(ip_a + 4, ip_a + 6) == pkt_b.subrange(ip_b + 4, ip_b + 6),
    ensures
        spec_hash_packet(pkt_a, ip_a, tcp_a) == spec_hash_packet(pkt_b, ip_b, tcp_b),
{
}

/// The FNV-1a 64-bit hash of a byte slice.
fn fnv1a_hash(bytes: &[u8]) -> (r: u64)
    ensures
        r == spec_fnv1a(bytes@),
{
    let ghost all = bytes@;
    let mut h: u64 = FNV_OFFSET_BASIS;
    let n = bytes.len();
    let mut i: usize = 0;
    while i < n
        invariant
            i <= n,
            n == all.len(),
            bytes@ == all,
            h == spec_fnv1a(all.take(i as int)),
        decreases n - i,
    {
        let b = bytes[i];
        h = (h ^ (b as u64)).wrapping_mul(FNV_PRIME);
        proof {
            assert_seqs_equal!(all.take(i + 1).drop_last() == all.take(i as int));
            assert(all.take(i + 1).last() == all[i as int]);
        }
        i += 1;
    }
    proof {
        assert_seqs_equal!(all.take(n as int) == all);
    }
    h
}

/// Fingerprint a packet given the offsets of its IP and TCP headers.
pub fn hash_packet(ip_header_start: usize, tcp_header_start: usize, pkt: &[u8]) -> (r: u32)
    requires
        ip_header_start + 20 <= pkt@.len(),
        tcp_header_start + 4 <= pkt@.len(),
    ensures
        r == spec_hash_packet(pkt@, ip_header_start as int, tcp_header_start as int),
{
    // Knowing the slice's length pins every header index below usize::MAX.
    let _pkt_len: usize = pkt.len();
    let mut input: Vec<u8> = Vec::new();
    input.push(pkt[ip_header_start + 16]);
    input.push(pkt[ip_header_start + 17]);
    input.push(pkt[ip_header_start + 18]);
    input.push(pkt[ip_header_start + 19]);
    input.push(pkt[tcp_header_start + 2]);
    input.push(pkt[tcp_header_start + 3]);
    input.push(pkt[ip_header_start + 4]);
    input.push(pkt[ip_header_start + 5]);
    proof {
        assert_seqs_equal!(
            input@ == spec_hash_input(pkt@, ip_header_start as int, tcp_header_start as int)
        );
    }
    let h = fnv1a_hash(input.as_slice());
    (h % 0x1_0000_0000) as u32
}

/// The big-endian 16-bit value of two bytes.
pub open spec fn spec_u16_from_be(hi: u8, lo: u8) -> u16 {
    ((hi as int) * 256 + lo as int) as u16
}

/// The big-endian 32-bit value of four bytes.
pub open spec fn spec_u32_from_be(b0: u8, b1: u8, b2: u8, b3: u8) -> u32 {
    ((b0 as int) * 0x100_0000 + (b1 as int) * 0x1_0000 + (b2 as int) * 0x100 + b3 as int) as u32
}

/// The source and destination IPv4 addresses of a packet, as host-order
/// integers.
pub fn unpack_ips(pkt: &[u8], ip_header_start: usize) -> (r: (u32, u32))
    requires
        ip_header_start + 20 <= pkt@.len(),
    ensures
        r.0 == spec_u32_from_be(
            pkt@[ip_header_start + 12],
            pkt@[ip_header_start + 13],
            pkt@[ip_header_start + 14],
            pkt@[ip_header_start + 15],
        ),
        r.1 == spec_u32_from_be(
            pkt@[ip_header_start + 16],
            pkt@[ip_header_start + 17],
            pkt@[ip_header_start + 18],
            pkt@[ip_header_start + 19],
        ),
{
    // Knowing the slice's length pins every header index below usize::MAX.
    let _pkt_len: usize = pkt.len();
    let src = (pkt[ip_header_start + 12] as u32) * 0x100_0000 + (pkt[ip_header_start + 13] as u32)
        * 0x1_0000 + (pkt[ip_header_start + 14] as u32) * 0x100 + pkt[ip_header_start + 15] as u32;
    let dst = (pkt[ip_header_start + 16] as u32) * 0x100_0000 + (pkt[ip_header_start + 17] as u32)
        * 0x1_0000 + (pkt[ip_header_start + 18] as u32) * 0x100 + pkt[ip_header_start + 19] as u32;
    (src, dst)
}

/// The source and destination TCP ports of a packet.
pub fn unpack_ports(pkt: &[u8], tcp_header_start: usize) -> (r: (u16, u16))
    requires
        tcp_header_start + 4 <= pkt@.len(),
    ensures
        r.0 == spec_u16_from_be(pkt@[tcp_header_start as int], pkt@[tcp_header_start + 1]),
        r.1 == spec_u16_from_be(pkt@[tcp_header_start + 2], pkt@[tcp_header_start + 3]),
{
    let src = (pkt[tcp_header_start] as u16) * 256 + pkt[tcp_header_start + 1] as u16;
    let dst = (pkt[tcp_header_start + 2] as u16) * 256 + pkt[tcp_header_start + 3] as u16;
    (src, dst)
}

} // verus!
