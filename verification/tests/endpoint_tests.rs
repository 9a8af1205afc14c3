use va_tool::endpoint::{
    is_multicast_ipv4, parse_ipv4_literal, Endpoint, Ipv4Octets, DEFAULT_PORT,
};

#[test]
fn parse_ipv4_literal_accepts_dotted_quads() {
    assert_eq!(
        parse_ipv4_literal("230.1.2.3"),
        Some(Ipv4Octets { a: 230, b: 1, c: 2, d: 3 })
    );
    assert_eq!(
        parse_ipv4_literal("0.0.0.0"),
        Some(Ipv4Octets { a: 0, b: 0, c: 0, d: 0 })
    );
    assert_eq!(
        parse_ipv4_literal("255.255.255.255"),
        Some(Ipv4Octets { a: 255, b: 255, c: 255, d: 255 })
    );
}

#[test]
fn parse_ipv4_literal_rejects_everything_else() {
    assert_eq!(parse_ipv4_literal(""), None);
    assert_eq!(parse_ipv4_literal("example.com"), None);
    assert_eq!(parse_ipv4_literal("1.2.3"), None);
    assert_eq!(parse_ipv4_literal("1.2.3.4.5"), None);
    assert_eq!(parse_ipv4_literal("256.1.1.1"), None);
    assert_eq!(parse_ipv4_literal("01.2.3.4"), None);
    assert_eq!(parse_ipv4_literal("1..2.3"), None);
    assert_eq!(parse_ipv4_literal("1.2.3."), None);
    assert_eq!(parse_ipv4_literal(".1.2.3"), None);
    assert_eq!(parse_ipv4_literal("1.2.3.x"), None);
    assert_eq!(parse_ipv4_literal("1234.1.1.1"), None);
}

#[test]
fn multicast_range_is_224_through_239() {
    assert!(is_multicast_ipv4(&Ipv4Octets { a: 224, b: 0, c: 0, d: 0 }));
    assert!(is_multicast_ipv4(&Ipv4Octets { a: 230, b: 1, c: 2, d: 3 }));
    assert!(is_multicast_ipv4(&Ipv4Octets { a: 239, b: 255, c: 255, d: 255 }));
    assert!(!is_multicast_ipv4(&Ipv4Octets { a: 223, b: 0, c: 0, d: 1 }));
    assert!(!is_multicast_ipv4(&Ipv4Octets { a: 240, b: 0, c: 0, d: 1 }));
    assert!(!is_multicast_ipv4(&Ipv4Octets { a: 192, b: 168, c: 1, d: 10 }));
}

#[test]
fn effective_port_defaults_to_5500() {
    let e = Endpoint::new(None, None);
    assert_eq!(e.effective_port(), DEFAULT_PORT);
    assert_eq!(e.effective_port(), 5500);
    let e = Endpoint::new(None, Some(1234));
    assert_eq!(e.effective_port(), 1234);
}
