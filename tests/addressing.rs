use cyphernet_noise::addr::{parse_socket_addr, parse_universal, AddrParseError, ProxiedAddr, ProxyError, SocketAddr, UniversalAddr};

fn v4(a: u8, b: u8, c: u8, d: u8, port: u16) -> SocketAddr {
    SocketAddr::V4(u32::from_be_bytes([a, b, c, d]), port)
}

#[test]
fn try_proxy_on_direct_gives_proxied() {
    let direct = UniversalAddr::Direct(v4(1, 2, 3, 4, 9735));
    let proxy = v4(127, 0, 0, 1, 9050);
    let proxied = direct.try_proxy(proxy).unwrap();
    assert!(proxied.has_proxy());
    assert_eq!(
        proxied,
        UniversalAddr::Proxied(ProxiedAddr { proxy_addr: proxy, remote_addr: v4(1, 2, 3, 4, 9735) })
    );
}

#[test]
fn try_proxy_on_proxied_fails() {
    let proxied = UniversalAddr::Direct(v4(1, 2, 3, 4, 9735)).try_proxy(v4(127, 0, 0, 1, 9050)).unwrap();
    assert_eq!(proxied.try_proxy(v4(10, 0, 0, 1, 1080)), Err(ProxyError::ProxyPresent));
}

#[test]
fn replace_proxy_overwrites() {
    let proxied = UniversalAddr::Direct(v4(1, 2, 3, 4, 9735)).replace_proxy(v4(127, 0, 0, 1, 9050));
    let again = proxied.replace_proxy(v4(10, 0, 0, 1, 1080));
    assert_eq!(again.to_socket_addr(), v4(10, 0, 0, 1, 1080));
    assert_eq!(*again.as_remote_addr(), v4(1, 2, 3, 4, 9735));
    assert_eq!(again.port(), 9735);
    assert_eq!(again.into_remote_addr(), v4(1, 2, 3, 4, 9735));
}

#[test]
fn direct_address_accessors() {
    let d = UniversalAddr::Direct(v4(8, 8, 4, 4, 53));
    assert!(!d.has_proxy());
    assert_eq!(d.to_socket_addr(), v4(8, 8, 4, 4, 53));
    assert_eq!(d.port(), 53);
}

#[test]
fn parses_direct_address() {
    let a: UniversalAddr = "1.2.3.4:9735".parse().unwrap();
    assert_eq!(a, UniversalAddr::Direct(v4(1, 2, 3, 4, 9735)));
}

#[test]
fn malformed_address_is_unknown_format() {
    for s in ["", "1.2.3:9735", "1.2.3.4", "1.2.3.4:", "256.1.1.1:1", "1.2.3.4:65536", "a.b.c.d:1", "1..2.3:4", "1.2.3.4:5:6", "1.2.3.4:9735@"] {
        let r: Result<UniversalAddr, AddrParseError> = s.parse();
        assert_eq!(r, Err(AddrParseError::UnknownAddressFormat), "{}", s);
    }
}

#[test]
fn parses_proxied_address() {
    let a = parse_universal(b"1.2.3.4:9735@127.0.0.1:9050").unwrap();
    assert_eq!(
        a,
        UniversalAddr::Proxied(ProxiedAddr { proxy_addr: v4(127, 0, 0, 1, 9050), remote_addr: v4(1, 2, 3, 4, 9735) })
    );
}

#[test]
fn socket_address_edges() {
    assert_eq!(parse_socket_addr(b"255.255.255.255:65535"), Some(v4(255, 255, 255, 255, 65535)));
    assert_eq!(parse_socket_addr(b"0.0.0.0:0"), Some(v4(0, 0, 0, 0, 0)));
    assert_eq!(parse_socket_addr(b"10.0.0.1:080"), Some(v4(10, 0, 0, 1, 80)));
    assert_eq!(parse_socket_addr(b"10.0.0.1:000080"), None);
}

#[test]
fn octets_with_leading_zeros_are_refused() {
    assert_eq!(parse_socket_addr(b"01.2.3.4:80"), None);
    assert_eq!(parse_socket_addr(b"1.2.3.00:80"), None);
    assert_eq!(parse_socket_addr(b"1.2.0.4:80"), Some(v4(1, 2, 0, 4, 80)));
}

#[test]
fn parses_ipv6_direct_addresses() {
    assert_eq!(parse_socket_addr(b"[::1]:9735"), Some(SocketAddr::V6(1, 9735)));
    assert_eq!(parse_socket_addr(b"[::]:0"), Some(SocketAddr::V6(0, 0)));
    assert_eq!(parse_socket_addr(b"[1:2:3:4:5:6:7:8]:1"), Some(SocketAddr::V6(0x0001_0002_0003_0004_0005_0006_0007_0008, 1)));
    assert_eq!(parse_socket_addr(b"[2001:DB8::8a2e:370:7334]:443"), Some(SocketAddr::V6(0x2001_0db8_0000_0000_0000_8a2e_0370_7334, 443)));
    assert_eq!(parse_socket_addr(b"[fe80::]:22"), Some(SocketAddr::V6(0xfe80 << 112, 22)));
    assert_eq!(parse_socket_addr(b"[1::2:3:4:5:6:7]:22"), Some(SocketAddr::V6(0x0001_0000_0002_0003_0004_0005_0006_0007, 22)));
    let a: UniversalAddr = "[::1]:9735".parse().unwrap();
    assert_eq!(a, UniversalAddr::Direct(SocketAddr::V6(1, 9735)));
}

#[test]
fn malformed_ipv6_is_refused() {
    for s in [
        "[1:2:3:4:5:6:7:8:9]:1", "[1::2::3]:1", "[:1]:1", "[1:]:1", "[12345::]:1", "[::1]:",
        "[::1]9735", "[]:1", "[:::]:1", "[1:2:3:4:5:6:7]:1", "[::g]:1", "[::1]:65536", "[::1",
    ] {
        assert_eq!(parse_socket_addr(s.as_bytes()), None, "{}", s);
    }
}

#[test]
fn printed_forms_parse_back() {
    let cases: [(&str, SocketAddr); 5] = [
        ("1.2.3.4:9735", v4(1, 2, 3, 4, 9735)),
        ("[::1]:9735", SocketAddr::V6(1, 9735)),
        ("[2001:db8::1]:80", SocketAddr::V6(0x2001_0db8_0000_0000_0000_0000_0000_0001, 80)),
        ("[fe80::1:2]:65535", SocketAddr::V6(0xfe80_0000_0000_0000_0000_0000_0001_0002, 65535)),
        ("[::]:0", SocketAddr::V6(0, 0)),
    ];
    for (text, expected) in cases {
        assert_eq!(parse_universal(text.as_bytes()), Ok(UniversalAddr::Direct(expected)), "{}", text);
    }
}

#[test]
fn proxied_ipv6_address_parses() {
    let a = parse_universal(b"[::1]:9735@127.0.0.1:9050").unwrap();
    assert_eq!(
        a,
        UniversalAddr::Proxied(ProxiedAddr { proxy_addr: v4(127, 0, 0, 1, 9050), remote_addr: SocketAddr::V6(1, 9735) })
    );
}

#[test]
fn from_str_prefers_direct_then_proxied() {
    let d: Result<UniversalAddr, AddrParseError> = "1.2.3.4:9735".parse();
    assert_eq!(d, Ok(UniversalAddr::Direct(v4(1, 2, 3, 4, 9735))));
    let p: Result<UniversalAddr, AddrParseError> = "1.2.3.4:9735@10.0.0.1:1080".parse();
    assert_eq!(
        p,
        Ok(UniversalAddr::Proxied(ProxiedAddr { proxy_addr: v4(10, 0, 0, 1, 1080), remote_addr: v4(1, 2, 3, 4, 9735) }))
    );
    let bad: Result<UniversalAddr, AddrParseError> = "not an address".parse();
    assert_eq!(bad, Err(AddrParseError::UnknownAddressFormat));
}

#[test]
fn ipv6_with_embedded_ipv4_parses() {
    assert_eq!(parse_socket_addr(b"[::ffff:1.2.3.4]:80"), Some(SocketAddr::V6(0xffff_0102_0304, 80)));
    assert_eq!(
        parse_socket_addr(b"[64:ff9b::192.0.2.33]:1"),
        Some(SocketAddr::V6(0x0064_ff9b_0000_0000_0000_0000_c000_0221, 1))
    );
    assert_eq!(parse_socket_addr(b"[::1.2.3.4]:5"), Some(SocketAddr::V6(0x0102_0304, 5)));
    assert_eq!(
        parse_socket_addr(b"[1:2:3:4:5:6:1.2.3.4]:1"),
        Some(SocketAddr::V6(0x0001_0002_0003_0004_0005_0006_0102_0304, 1))
    );
    for s in ["[::ffff:1.2.3]:80", "[1.2.3.4]:80", "[::ffff:01.2.3.4]:80", "[1:2:3:4:5:6:7:1.2.3.4]:1", "[::1.2.3.4:5]:1", "[:1.2.3.4]:1"] {
        assert_eq!(parse_socket_addr(s.as_bytes()), None, "{}", s);
    }
}
