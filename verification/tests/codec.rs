use rusrsctp::byteorder::{host_is_little_endian, u16be, u32be};
use rusrsctp::ip::{AF_INET, AF_INET6, PF_INET, PF_INET6};
use rusrsctp::{Ip, Ipv4, Ipv4Addr, Ipv6, Ipv6Addr};

#[test]
fn host_byte_order_is_detected() {
    assert_eq!(host_is_little_endian(), 1u16.to_le() == 1);
    assert_eq!(host_is_little_endian(), 1u16.to_be() != 1);
}

#[test]
fn u16be_puts_the_high_byte_first() {
    assert_eq!(u16be(0x1234).to_ne_bytes(), [0x12, 0x34]);
    assert_eq!(u16be(10000).to_ne_bytes(), [0x27, 0x10]);
    assert_eq!(u16be(0).to_ne_bytes(), [0, 0]);
    assert_eq!(u16be(65535), 65535);
    assert_eq!(u16be(0x00FF), 0x00FFu16.to_be());
}

#[test]
fn u32be_puts_the_high_byte_first() {
    assert_eq!(u32be(0x1234_5678).to_ne_bytes(), [0x12, 0x34, 0x56, 0x78]);
    assert_eq!(u32be(0x7F00_0001).to_ne_bytes(), [127, 0, 0, 1]);
    assert_eq!(u32be(0), 0);
    assert_eq!(u32be(0xFFFF_FFFF), 0xFFFF_FFFF);
    assert_eq!(u32be(0x0000_00FF), 0x0000_00FFu32.to_be());
}

#[test]
fn byte_order_conversion_is_its_own_inverse() {
    let mut v: u32 = 1;
    for _ in 0..200 {
        v = v.wrapping_mul(1_664_525).wrapping_add(1_013_904_223);
        assert_eq!(u32be(u32be(v)), v);
        let h = (v >> 16) as u16;
        assert_eq!(u16be(u16be(h)), h);
    }
}

#[test]
fn ipv4_address_parts() {
    let a = Ipv4Addr::new(127, 0, 0, 1);
    assert_eq!(a.to_bits(), 0x7F00_0001);
    assert_eq!(a.octets(), [127, 0, 0, 1]);
    assert_eq!(Ipv4Addr::from_bits(0xC0A8_0102), Ipv4Addr::new(192, 168, 1, 2));
    assert_eq!(Ipv4Addr::unspecified(), Ipv4Addr::new(0, 0, 0, 0));
    assert_eq!(Ipv4Addr::new(255, 255, 255, 255).to_bits(), u32::MAX);
}

#[test]
fn ipv6_address_parts() {
    let a = Ipv6Addr::new(0x2001, 0xdb8, 0, 0, 0, 0, 0, 1);
    assert_eq!(a.segments(), [0x2001, 0xdb8, 0, 0, 0, 0, 0, 1]);
    assert_eq!(Ipv6Addr::from_segments([0, 0, 0, 0, 0, 0, 0, 1]), Ipv6Addr::new(0, 0, 0, 0, 0, 0, 0, 1));
    assert_eq!(Ipv6Addr::unspecified(), Ipv6Addr::new(0, 0, 0, 0, 0, 0, 0, 0));
}

#[test]
fn families_are_numbered() {
    assert_eq!(Ipv4::pf(), 2);
    assert_eq!(Ipv4::sockaddr_len(), 16);
    assert_eq!(Ipv6::sockaddr_len(), 28);
    assert_eq!(Ipv6::pf(), 10);
    assert_eq!(PF_INET, 2);
    assert_eq!(PF_INET6, 10);
    assert_eq!(AF_INET, 2);
    assert_eq!(AF_INET6, 10);
}

#[test]
fn ipv4_sockaddr_layout() {
    let sa = Ipv4::to_sockaddr(Ipv4Addr::new(127, 0, 0, 1), 10000);
    assert_eq!(sa.sin_family, 2);
    assert_eq!(sa.sin_port.to_ne_bytes(), [0x27, 0x10]);
    assert_eq!(sa.sin_addr.s_addr.to_ne_bytes(), [127, 0, 0, 1]);
    assert_eq!(sa.sin_zero, [0u8; 8]);
}

#[test]
fn ipv6_sockaddr_layout() {
    let sa = Ipv6::to_sockaddr(Ipv6Addr::new(0x2001, 0xdb8, 0, 0, 0, 0, 0x1234, 1), 5000);
    assert_eq!(sa.sin6_family, 10);
    assert_eq!(sa.sin6_port.to_ne_bytes(), [0x13, 0x88]);
    assert_eq!(sa.sin6_flowinfo, 0);
    assert_eq!(sa.sin6_scope_id, 0);
    let mut bytes = Vec::new();
    for s in sa.sin6_addr.addr16 {
        bytes.extend_from_slice(&s.to_ne_bytes());
    }
    assert_eq!(bytes, vec![0x20, 0x01, 0x0d, 0xb8, 0, 0, 0, 0, 0, 0, 0, 0, 0x12, 0x34, 0, 1]);
}

#[test]
fn ipv4_decode_inverts_encode() {
    let cases = [
        (Ipv4Addr::new(0, 0, 0, 0), 0u16),
        (Ipv4Addr::new(127, 0, 0, 1), 10000),
        (Ipv4Addr::new(255, 255, 255, 255), 65535),
        (Ipv4Addr::new(192, 168, 1, 2), 1),
        (Ipv4Addr::new(1, 2, 3, 4), 0x1234),
    ];
    for (addr, port) in cases {
        assert_eq!(Ipv4::from_sockaddr(Ipv4::to_sockaddr(addr, port)), (addr, port));
    }
}

#[test]
fn ipv6_decode_inverts_encode() {
    let cases = [
        (Ipv6Addr::new(0, 0, 0, 0, 0, 0, 0, 0), 0u16),
        (Ipv6Addr::new(0, 0, 0, 0, 0, 0, 0, 1), 10000),
        (Ipv6Addr::new(0xffff, 0xffff, 0xffff, 0xffff, 0xffff, 0xffff, 0xffff, 0xffff), 65535),
        (Ipv6Addr::new(0x2001, 0xdb8, 1, 2, 3, 4, 5, 0x00ff), 0x00ff),
    ];
    for (addr, port) in cases {
        assert_eq!(Ipv6::from_sockaddr(Ipv6::to_sockaddr(addr, port)), (addr, port));
    }
}

#[test]
fn wildcard_is_the_unspecified_address_and_port_zero() {
    assert_eq!(Ipv4::to_sockaddr_wildcard(), Ipv4::to_sockaddr(Ipv4Addr::unspecified(), 0));
    assert_eq!(Ipv4::to_sockaddr_wildcard(), Ipv4::to_sockaddr(Ipv4Addr::new(0, 0, 0, 0), 0));
    assert_eq!(Ipv6::to_sockaddr_wildcard(), Ipv6::to_sockaddr(Ipv6Addr::unspecified(), 0));
    let w4 = Ipv4::to_sockaddr_wildcard();
    assert_eq!((w4.sin_family, w4.sin_port, w4.sin_addr.s_addr), (2, 0, 0));
    let w6 = Ipv6::to_sockaddr_wildcard();
    assert_eq!((w6.sin6_family, w6.sin6_port, w6.sin6_addr.addr16), (10, 0, [0u16; 8]));
    assert_eq!(Ipv4::from_sockaddr(w4), (Ipv4Addr::unspecified(), 0));
    assert_eq!(Ipv6::from_sockaddr(w6), (Ipv6Addr::unspecified(), 0));
}
