//! Conversion between the host's byte order and network byte order.

use vstd::endian::endianness;
use vstd::endian::Endian;
use vstd::prelude::*;

verus! {

/// The two bytes of `v`, most significant first: the order in which a network carries them.
pub open spec fn be_bytes16(v: u16) -> Seq<u8> {
    seq![(v / 256) as u8, (v % 256) as u8]
}

/// The four bytes of `v`, most significant first.
pub open spec fn be_bytes32(v: u32) -> Seq<u8> {
    seq![
        (v / 16777216) as u8,
        ((v / 65536) % 256) as u8,
        ((v / 256) % 256) as u8,
        (v % 256) as u8,
    ]
}

/// The bytes that this host's memory holds for `v`, lowest address first.
pub open spec fn host_bytes16(v: u16) -> Seq<u8> {
    match endianness() {
        Endian::Big => be_bytes16(v),
        Endian::Little => be_bytes16(v).reverse(),
    }
}

/// The bytes that this host's memory holds for `v`, lowest address first.
pub open spec fn host_bytes32(v: u32) -> Seq<u8> {
    match endianness() {
        Endian::Big => be_bytes32(v),
        Endian::Little => be_bytes32(v).reverse(),
    }
}

/// `v` with its two bytes exchanged.
pub open spec fn swap16(v: u16) -> u16 {
    ((v % 256) * 256 + v / 256) as u16
}

/// `v` with its four bytes in the opposite order.
pub open spec fn swap32(v: u32) -> u32 {
    ((v % 256) * 16777216 + ((v / 256) % 256) * 65536 + ((v / 65536) % 256) * 256 + v
        / 16777216) as u32
}

/// The value whose image in this host's memory is `v` in network byte order.
pub open spec fn spec_u16be(v: u16) -> u16 {
    match endianness() {
        Endian::Big => v,
        Endian::Little => swap16(v),
    }
}

/// The value whose image in this host's memory is `v` in network byte order.
pub open spec fn spec_u32be(v: u32) -> u32 {
    match endianness() {
        Endian::Big => v,
        Endian::Little => swap32(v),
    }
}

/// The value that this host reads from two bytes of memory, lowest address first.
pub open spec fn host_value16(b0: u8, b1: u8) -> u16 {
    match endianness() {
        Endian::Big => (b0 * 256 + b1) as u16,
        Endian::Little => (b1 * 256 + b0) as u16,
    }
}

/// `u16::from_ne_bytes` of std: the integer that the host reads from two bytes
/// of its memory. Trusted, not proved: on a little-endian host the first byte
/// is the low one, on a big-endian host the high one, where vstd's
/// `endianness()` stands for the byte order of the host that runs the code.
#[verifier::external_body]
fn u16_from_host_bytes(b0: u8, b1: u8) -> (r: u16)
    ensures
        r == host_value16(b0, b1),
{
    u16::from_ne_bytes([b0, b1])
}

/// Whether this host stores the low byte of an integer first.
pub fn host_is_little_endian() -> (r: bool)
    ensures
        r == (endianness() is Little),
{
    u16_from_host_bytes(1, 0) == 1
}

/// Exchanging the bytes of a 16-bit value twice gives the value back.
pub proof fn lemma_swap16_involution(v: u16)
    ensures
        swap16(swap16(v)) == v,
{
    assert(((((v % 256) * 256 + v / 256) as u16) % 256) * 256 + (((v % 256) * 256 + v / 256) as u16)
        / 256 == v) by (bit_vector);
}

/// Reversing the bytes of a 32-bit value twice gives the value back.
pub proof fn lemma_swap32_involution(v: u32)
    ensures
        swap32(swap32(v)) == v,
{
    let w = swap32(v);
    assert(w % 256 == v / 16777216 && (w / 256) % 256 == (v / 65536) % 256 && (w / 65536) % 256
        == (v / 256) % 256 && w / 16777216 == v % 256 && v == (v / 16777216) * 16777216 + ((v
        / 65536) % 256) * 65536 + ((v / 256) % 256) * 256 + v % 256) by (bit_vector)
        requires
            w == ((v % 256) * 16777216 + ((v / 256) % 256) * 65536 + ((v / 65536) % 256) * 256 + v
                / 16777216) as u32,
    ;
}

/// Converts a 16-bit value from host to network byte order.
pub fn u16be(v: u16) -> (r: u16)
    ensures
        r == spec_u16be(v),
        host_bytes16(r) == be_bytes16(v),
{
    if host_is_little_endian() {
        let r: u16 = ((v & 0x00FF) << 8) | ((v & 0xFF00) >> 8);
        proof {
            assert(((v & 0x00FF) << 8) | ((v & 0xFF00) >> 8) == ((v % 256) * 256 + v / 256) as u16)
                by (bit_vector);
            assert(r / 256 == v % 256 && r % 256 == v / 256) by (bit_vector)
                requires
                    r == ((v & 0x00FF) << 8) | ((v & 0xFF00) >> 8),
            ;
            assert(be_bytes16(r).reverse() =~= be_bytes16(v));
        }
        r
    } else {
        v
    }
}

/// Converts a 32-bit value from host to network byte order.
pub fn u32be(v: u32) -> (r: u32)
    ensures
        r == spec_u32be(v),
        host_bytes32(r) == be_bytes32(v),
{
    if host_is_little_endian() {
        let r: u32 = ((v & 0x000000FF) << 24) | ((v & 0x0000FF00) << 8) | ((v & 0x00FF0000) >> 8) | ((v
            & 0xFF000000) >> 24);
        proof {
            assert(r == ((v % 256) * 16777216 + ((v / 256) % 256) * 65536 + ((v / 65536) % 256) * 256
                + v / 16777216) as u32 && r % 256 == v / 16777216 && (r / 256) % 256 == (v / 65536)
                % 256 && (r / 65536) % 256 == (v / 256) % 256 && r / 16777216 == v % 256)
                by (bit_vector)
                requires
                    r == ((v & 0x000000FF) << 24) | ((v & 0x0000FF00) << 8) | ((v & 0x00FF0000) >> 8)
                        | ((v & 0xFF000000) >> 24),
            ;
            assert(be_bytes32(r).reverse() =~= be_bytes32(v));
        }
        r
    } else {
        v
    }
}

/// Converting to network byte order twice gives the value back, on either kind of host.
pub proof fn lemma_u16be_involution(v: u16)
    ensures
        spec_u16be(spec_u16be(v)) == v,
{
    lemma_swap16_involution(v);
}

/// Converting to network byte order twice gives the value back, on either kind of host.
pub proof fn lemma_u32be_involution(v: u32)
    ensures
        spec_u32be(spec_u32be(v)) == v,
{
    lemma_swap32_involution(v);
}

} // verus!
