//! Socket addresses of the two address families, and their layout for the engine.

use crate::byteorder::lemma_u16be_involution;
use crate::byteorder::lemma_u32be_involution;
use crate::byteorder::spec_u16be;
use crate::byteorder::spec_u32be;
use crate::byteorder::u16be;
use crate::byteorder::u32be;
use crate::sealed::Sealed;
use vstd::prelude::*;

verus! {

/// Address family of IPv4, as the engine numbers it.
pub const AF_INET: u16 = 2;

/// Address family of IPv6, as the engine numbers it.
pub const AF_INET6: u16 = 10;

/// Protocol family of IPv4.
pub const PF_INET: i32 = 2;

/// Protocol family of IPv6.
pub const PF_INET6: i32 = 10;

/// Size in bytes of the engine's IPv4 socket-address structure.
pub const SOCKADDR_IN_LEN: u32 = 16;

/// Size in bytes of the engine's IPv6 socket-address structure.
pub const SOCKADDR_IN6_LEN: u32 = 28;

/// An IPv4 address. Its view is the address as one number, first octet most significant.
#[derive(Clone, Copy, Debug, PartialEq, Eq, Structural)]
pub struct Ipv4Addr {
    bits: u32,
}

impl View for Ipv4Addr {
    type V = u32;

    closed spec fn view(&self) -> u32 {
        self.bits
    }
}

/// The number that four octets stand for, first octet most significant.
pub open spec fn octets_value(a: u8, b: u8, c: u8, d: u8) -> u32 {
    (a * 16777216 + b * 65536 + c * 256 + d) as u32
}

impl Ipv4Addr {
    /// The address `a.b.c.d`.
    pub fn new(a: u8, b: u8, c: u8, d: u8) -> (r: Ipv4Addr)
        ensures
            r@ == octets_value(a, b, c, d),
    {
        let bits: u32 = ((a as u32) << 24) | ((b as u32) << 16) | ((c as u32) << 8) | (d as u32);
        proof {
            assert(((a as u32) << 24) | ((b as u32) << 16) | ((c as u32) << 8) | (d as u32) == (a
                * 16777216 + b * 65536 + c * 256 + d) as u32) by (bit_vector);
        }
        Ipv4Addr { bits }
    }

    /// The unspecified address `0.0.0.0`.
    pub fn unspecified() -> (r: Ipv4Addr)
        ensures
            r@ == 0,
    {
        Ipv4Addr { bits: 0 }
    }

    /// The address that the number `bits` stands for.
    pub fn from_bits(bits: u32) -> (r: Ipv4Addr)
        ensures
            r@ == bits,
    {
        Ipv4Addr { bits }
    }

    /// The address as one number.
    pub fn to_bits(&self) -> (r: u32)
        ensures
            r == self@,
    {
        self.bits
    }

    /// The four octets of the address, first octet first.
    pub fn octets(&self) -> (r: [u8; 4])
        ensures
            octets_value(r[0], r[1], r[2], r[3]) == self@,
    {
        let v: u32 = self.bits;
        let a: u8 = (v >> 24) as u8;
        let b: u8 = ((v >> 16) & 0xFF) as u8;
        let c: u8 = ((v >> 8) & 0xFF) as u8;
        let d: u8 = (v & 0xFF) as u8;
        proof {
            assert((((v >> 24) as u8) * 16777216 + (((v >> 16) & 0xFF) as u8) * 65536 + (((v >> 8)
                & 0xFF) as u8) * 256 + ((v & 0xFF) as u8)) as u32 == v) by (bit_vector);
        }
        [a, b, c, d]
    }

    /// Two addresses with the same view are the same address.
    pub proof fn lemma_view_injective(a: Ipv4Addr, b: Ipv4Addr)
        requires
            a@ == b@,
        ensures
            a == b,
    {
    }
}

/// An IPv6 address. Its view is the sequence of its eight 16-bit segments.
#[derive(Clone, Copy, Debug, PartialEq, Eq)]
pub struct Ipv6Addr {
    segments: [u16; 8],
}

impl View for Ipv6Addr {
    type V = Seq<u16>;

    closed spec fn view(&self) -> Seq<u16> {
        self.segments@
    }
}

impl Ipv6Addr {
    /// The address `a:b:c:d:e:f:g:h`.
    pub fn new(a: u16, b: u16, c: u16, d: u16, e: u16, f: u16, g: u16, h: u16) -> (r: Ipv6Addr)
        ensures
            r@ == seq![a, b, c, d, e, f, g, h],
    {
        let r = Ipv6Addr { segments: [a, b, c, d, e, f, g, h] };
        assert(r@ =~= seq![a, b, c, d, e, f, g, h]);
        r
    }

    /// The unspecified address `::`.
    pub fn unspecified() -> (r: Ipv6Addr)
        ensures
            r@ == Seq::new(8, |i: int| 0u16),
    {
        let r = Ipv6Addr { segments: [0, 0, 0, 0, 0, 0, 0, 0] };
        assert(r@ =~= Seq::new(8, |i: int| 0u16));
        r
    }

    /// The address with the given segments.
    pub fn from_segments(segments: [u16; 8]) -> (r: Ipv6Addr)
        ensures
            r@ == segments@,
    {
        Ipv6Addr { segments }
    }

    /// The eight segments of the address.
    pub fn segments(&self) -> (r: [u16; 8])
        ensures
            r@ == self@,
    {
        self.segments
    }

    /// An address has eight segments.
    pub proof fn lemma_view_len(self)
        ensures
            self@.len() == 8,
    {
    }

    /// Two addresses with the same view are the same address.
    pub proof fn lemma_view_injective(a: Ipv6Addr, b: Ipv6Addr)
        requires
            a@ == b@,
        ensures
            a == b,
    {
        assert(a.segments =~= b.segments);
    }
}

/// The address part of an IPv4 socket address, in network byte order.
#[derive(Clone, Copy, Debug, PartialEq, Eq)]
pub struct InAddr {
    pub s_addr: u32,
}

/// An IPv4 socket address as the engine takes it: family in host order, port
/// and address in network byte order, padding zeroed.
#[derive(Clone, Copy, Debug, PartialEq, Eq)]
pub struct SockaddrIn {
    pub sin_family: u16,
    pub sin_port: u16,
    pub sin_addr: InAddr,
    pub sin_zero: [u8; 8],
}

/// What a [`SockaddrIn`] holds.
pub ghost struct SockaddrInView {
    pub family: u16,
    pub port: u16,
    pub addr: u32,
    pub zero: Seq<u8>,
}

impl View for SockaddrIn {
    type V = SockaddrInView;

    open spec fn view(&self) -> SockaddrInView {
        SockaddrInView {
            family: self.sin_family,
            port: self.sin_port,
            addr: self.sin_addr.s_addr,
            zero: self.sin_zero@,
        }
    }
}

/// The address part of an IPv6 socket address: eight segments, each in network byte order.
#[derive(Clone, Copy, Debug, PartialEq, Eq)]
pub struct In6Addr {
    pub addr16: [u16; 8],
}

/// An IPv6 socket address as the engine takes it: family in host order, port
/// and address segments in network byte order, flow information and scope zero.
#[derive(Clone, Copy, Debug, PartialEq, Eq)]
pub struct SockaddrIn6 {
    pub sin6_family: u16,
    pub sin6_port: u16,
    pub sin6_flowinfo: u32,
    pub sin6_addr: In6Addr,
    pub sin6_scope_id: u32,
}

/// What a [`SockaddrIn6`] holds.
pub ghost struct SockaddrIn6View {
    pub family: u16,
    pub port: u16,
    pub flowinfo: u32,
    pub addr: Seq<u16>,
    pub scope_id: u32,
}

impl View for SockaddrIn6 {
    type V = SockaddrIn6View;

    open spec fn view(&self) -> SockaddrIn6View {
        SockaddrIn6View {
            family: self.sin6_family,
            port: self.sin6_port,
            flowinfo: self.sin6_flowinfo,
            addr: self.sin6_addr.addr16@,
            scope_id: self.sin6_scope_id,
        }
    }
}

/// An address family: its address type, its socket-address layout, and the
/// conversions between the two. There are two, [`Ipv4`] and [`Ipv6`], and no
/// other type can implement the trait.
pub trait Ip: Sealed {
    /// An address of the family.
    type Addr: View;

    /// A socket address of the family, laid out for the engine.
    type Sockaddr: View;

    /// The protocol family's number.
    spec fn spec_pf() -> i32;

    /// The size in bytes of the engine's socket-address structure.
    spec fn spec_sockaddr_len() -> u32;

    /// The family's unspecified address.
    spec fn unspecified() -> <Self::Addr as View>::V;

    /// The socket address that stands for `addr` and `port`.
    spec fn encode(addr: <Self::Addr as View>::V, port: u16) -> <Self::Sockaddr as View>::V;

    /// The address and port that `sockaddr` stands for.
    spec fn decode(sockaddr: <Self::Sockaddr as View>::V) -> (<Self::Addr as View>::V, u16);

    /// Decoding what was encoded gives the address and port back.
    proof fn lemma_decode_encode(addr: Self::Addr, port: u16)
        ensures
            Self::decode(Self::encode(addr@, port)) == (addr@, port),
    ;

    /// The protocol family's number.
    fn pf() -> (r: i32)
        ensures
            r == Self::spec_pf(),
    ;

    /// The size in bytes of the engine's socket-address structure.
    fn sockaddr_len() -> (r: u32)
        ensures
            r == Self::spec_sockaddr_len(),
    ;

    /// Lays `addr` and `port` out for the engine.
    fn to_sockaddr(addr: Self::Addr, port: u16) -> (r: Self::Sockaddr)
        ensures
            r@ == Self::encode(addr@, port),
    ;

    /// The socket address of the unspecified address and port zero.
    fn to_sockaddr_wildcard() -> (r: Self::Sockaddr)
        ensures
            r@ == Self::encode(Self::unspecified(), 0),
    ;

    /// Reads address and port back out of a socket address.
    fn from_sockaddr(sockaddr: Self::Sockaddr) -> (r: (Self::Addr, u16))
        ensures
            (r.0@, r.1) == Self::decode(sockaddr@),
    ;
}

/// The IPv4 address family.
#[derive(Debug)]
pub struct Ipv4;

impl Sealed for Ipv4 {

}

impl Ip for Ipv4 {
    type Addr = Ipv4Addr;

    type Sockaddr = SockaddrIn;

    open spec fn spec_pf() -> i32 {
        PF_INET
    }

    open spec fn spec_sockaddr_len() -> u32 {
        SOCKADDR_IN_LEN
    }

    open spec fn unspecified() -> u32 {
        0
    }

    open spec fn encode(addr: u32, port: u16) -> SockaddrInView {
        SockaddrInView {
            family: AF_INET,
            port: spec_u16be(port),
            addr: spec_u32be(addr),
            zero: Seq::new(8, |i: int| 0u8),
        }
    }

    open spec fn decode(sockaddr: SockaddrInView) -> (u32, u16) {
        (spec_u32be(sockaddr.addr), spec_u16be(sockaddr.port))
    }

    proof fn lemma_decode_encode(addr: Ipv4Addr, port: u16) {
        lemma_u16be_involution(port);
        lemma_u32be_involution(addr@);
    }

    fn pf() -> (r: i32) {
        PF_INET
    }

    fn sockaddr_len() -> (r: u32) {
        SOCKADDR_IN_LEN
    }

    fn to_sockaddr(addr: Ipv4Addr, port: u16) -> (r: SockaddrIn) {
        let r = SockaddrIn {
            sin_family: AF_INET,
            sin_port: u16be(port),
            sin_addr: InAddr { s_addr: u32be(addr.to_bits()) },
            sin_zero: [0, 0, 0, 0, 0, 0, 0, 0],
        };
        assert(r@.zero =~= Seq::new(8, |i: int| 0u8));
        r
    }

    fn to_sockaddr_wildcard() -> (r: SockaddrIn) {
        Self::to_sockaddr(Ipv4Addr::unspecified(), 0)
    }

    fn from_sockaddr(sockaddr: SockaddrIn) -> (r: (Ipv4Addr, u16)) {
        (Ipv4Addr::from_bits(u32be(sockaddr.sin_addr.s_addr)), u16be(sockaddr.sin_port))
    }
}

/// Each of the segments `s` converted between host and network byte order.
pub open spec fn segments_be(s: Seq<u16>) -> Seq<u16> {
    Seq::new(s.len(), |i: int| spec_u16be(s[i]))
}

/// Converts each of eight segments between host and network byte order.
fn segments_to_be(segments: [u16; 8]) -> (r: [u16; 8])
    ensures
        r@ == segments_be(segments@),
{
    let mut out = segments;
    let mut i: usize = 0;
    while i < 8
        invariant
            i <= 8,
            forall|j: int| 0 <= j < i ==> out@[j] == spec_u16be(#[trigger] segments@[j]),
            forall|j: int| i <= j < 8 ==> out@[j] == #[trigger] segments@[j],
        decreases 8 - i,
    {
        out[i] = u16be(out[i]);
        i += 1;
    }
    assert(out@ =~= segments_be(segments@));
    out
}

/// The IPv6 address family.
#[derive(Debug)]
pub struct Ipv6;

impl Sealed for Ipv6 {

}

impl Ip for Ipv6 {
    type Addr = Ipv6Addr;

    type Sockaddr = SockaddrIn6;

    open spec fn spec_pf() -> i32 {
        PF_INET6
    }

    open spec fn spec_sockaddr_len() -> u32 {
        SOCKADDR_IN6_LEN
    }

    open spec fn unspecified() -> Seq<u16> {
        Seq::new(8, |i: int| 0u16)
    }

    open spec fn encode(addr: Seq<u16>, port: u16) -> SockaddrIn6View {
        SockaddrIn6View {
            family: AF_INET6,
            port: spec_u16be(port),
            flowinfo: 0,
            addr: segments_be(addr),
            scope_id: 0,
        }
    }

    open spec fn decode(sockaddr: SockaddrIn6View) -> (Seq<u16>, u16) {
        (segments_be(sockaddr.addr), spec_u16be(sockaddr.port))
    }

    proof fn lemma_decode_encode(addr: Ipv6Addr, port: u16) {
        lemma_u16be_involution(port);
        assert forall|i: int| 0 <= i < addr@.len() implies spec_u16be(spec_u16be(#[trigger] addr@[i]))
            == addr@[i] by {
            lemma_u16be_involution(addr@[i]);
        }
        assert(segments_be(segments_be(addr@)) =~= addr@);
    }

    fn pf() -> (r: i32) {
        PF_INET6
    }

    fn sockaddr_len() -> (r: u32) {
        SOCKADDR_IN6_LEN
    }

    fn to_sockaddr(addr: Ipv6Addr, port: u16) -> (r: SockaddrIn6) {
        SockaddrIn6 {
            sin6_family: AF_INET6,
            sin6_port: u16be(port),
            sin6_flowinfo: 0,
            sin6_addr: In6Addr { addr16: segments_to_be(addr.segments()) },
            sin6_scope_id: 0,
        }
    }

    fn to_sockaddr_wildcard() -> (r: SockaddrIn6) {
        Self::to_sockaddr(Ipv6Addr::unspecified(), 0)
    }

    fn from_sockaddr(sockaddr: SockaddrIn6) -> (r: (Ipv6Addr, u16)) {
        (
            Ipv6Addr::from_segments(segments_to_be(sockaddr.sin6_addr.addr16)),
            u16be(sockaddr.sin6_port),
        )
    }
}

/// The wildcard socket address of IPv4 holds zero for port and address on
/// every host, whatever its byte order.
pub proof fn lemma_ipv4_wildcard_is_zero()
    ensures
        Ipv4::encode(Ipv4::unspecified(), 0).port == 0,
        Ipv4::encode(Ipv4::unspecified(), 0).addr == 0,
{
}

/// The wildcard socket address of IPv6 holds zero for port and for each
/// segment of the address on every host, whatever its byte order.
pub proof fn lemma_ipv6_wildcard_is_zero()
    ensures
        Ipv6::encode(Ipv6::unspecified(), 0).port == 0,
        Ipv6::encode(Ipv6::unspecified(), 0).addr == Seq::new(8, |i: int| 0u16),
{
    assert(Ipv6::encode(Ipv6::unspecified(), 0).addr =~= Seq::new(8, |i: int| 0u16));
}

} // verus!
