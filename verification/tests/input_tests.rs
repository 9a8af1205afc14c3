use va_tool::endpoint::{Endpoint, HostAddr, Ipv4Octets, Ipv6Segments};
use va_tool::error::ErrorKind;
use va_tool::input::{Input, InputFile, InputUdp, OpenAction};
use va_tool::packet::PACKET_SZ;

fn v4(a: u8, b: u8, c: u8, d: u8) -> Option<HostAddr> {
    Some(HostAddr::V4(Ipv4Octets { a, b, c, d }))
}

#[test]
fn open_multicast_v4_joins_on_wildcard_interface() {
    // Host 230.1.2.3: an IPv4 multicast join with interface 0.0.0.0.
    let mut udp = InputUdp::new(Endpoint::new(v4(230, 1, 2, 3), None));
    match udp.open() {
        Ok(OpenAction::JoinV4 { group, iface, port }) => {
            assert_eq!(group, Ipv4Octets { a: 230, b: 1, c: 2, d: 3 });
            assert_eq!(iface, Ipv4Octets { a: 0, b: 0, c: 0, d: 0 });
            assert_eq!(port, 5500);
        }
        other => panic!("expected an IPv4 join, got {:?}", other.is_ok()),
    }
}

#[test]
fn open_non_multicast_v4_still_joins() {
    // Host 192.168.1.10 lies outside the multicast range; the open
    // still decides a join — the range check is configuration's call.
    let mut udp = InputUdp::new(Endpoint::new(v4(192, 168, 1, 10), Some(9000)));
    match udp.open() {
        Ok(OpenAction::JoinV4 { group, iface, port }) => {
            assert_eq!(group, Ipv4Octets { a: 192, b: 168, c: 1, d: 10 });
            assert_eq!(iface, Ipv4Octets { a: 0, b: 0, c: 0, d: 0 });
            assert_eq!(port, 9000);
        }
        other => panic!("expected an IPv4 join, got {:?}", other.is_ok()),
    }
}

#[test]
fn open_v6_joins_on_interface_zero() {
    let host = Some(HostAddr::V6(Ipv6Segments::new(vec![0xff02, 0, 0, 0, 0, 0, 0, 1])));
    let mut udp = InputUdp::new(Endpoint::new(host, None));
    match udp.open() {
        Ok(OpenAction::JoinV6 { group, iface, port }) => {
            assert_eq!(group.segment(0), 0xff02);
            assert_eq!(group.segment(7), 1);
            assert_eq!(iface, 0);
            assert_eq!(port, 5500);
        }
        other => panic!("expected an IPv6 join, got {:?}", other.is_ok()),
    }
}

#[test]
fn open_domain_that_is_an_ipv4_literal_joins_as_v4() {
    let host = Some(HostAddr::Domain("230.9.8.7".to_string()));
    let mut udp = InputUdp::new(Endpoint::new(host, None));
    match udp.open() {
        Ok(OpenAction::JoinV4 { group, iface, .. }) => {
            assert_eq!(group, Ipv4Octets { a: 230, b: 9, c: 8, d: 7 });
            assert_eq!(iface, Ipv4Octets { a: 0, b: 0, c: 0, d: 0 });
        }
        other => panic!("expected an IPv4 join, got {:?}", other.is_ok()),
    }
}

#[test]
fn open_domain_that_is_no_literal_fails() {
    let host = Some(HostAddr::Domain("example.com".to_string()));
    let mut udp = InputUdp::new(Endpoint::new(host, None));
    match udp.open() {
        Err(e) => assert_eq!(e.kind, ErrorKind::UdpDomainToIpV4("example.com".to_string())),
        Ok(_) => panic!("a bare domain must not open"),
    }
}

#[test]
fn open_without_host_fails_and_leaves_nothing_open() {
    // A URL with no host: the missing-host error, and no active state
    // — a read right after still finds the fifo uninitialized.
    let mut udp = InputUdp::new(Endpoint::new(None, None));
    match udp.open() {
        Err(e) => assert_eq!(e.kind, ErrorKind::UdpUrlMissingHost),
        Ok(_) => panic!("a host-less URL must not open"),
    }
    match udp.read() {
        Err(e) => assert_eq!(e.kind, ErrorKind::UdpFifoNotInitialized),
        Ok(_) => panic!("read before open must fail"),
    }
}

#[test]
fn read_before_open_fails() {
    let mut udp = InputUdp::new(Endpoint::new(v4(230, 0, 0, 1), None));
    match udp.read() {
        Err(e) => assert_eq!(e.kind, ErrorKind::UdpFifoNotInitialized),
        Ok(_) => panic!("read before open must fail"),
    }
}

#[test]
fn push_datagram_before_open_fails() {
    let mut udp = InputUdp::new(Endpoint::new(v4(230, 0, 0, 1), None));
    match udp.push_datagram(&vec![0u8; PACKET_SZ]) {
        Err(e) => assert_eq!(e.kind, ErrorKind::UdpFifoNotInitialized),
        Ok(_) => panic!("delivery before open must fail"),
    }
}

#[test]
fn open_then_deliver_then_read_round_trip() {
    let mut udp = InputUdp::new(Endpoint::new(v4(230, 1, 1, 1), None));
    udp.fifo_sz(16);
    udp.open().expect("open");
    let mut buf = Vec::new();
    for u in 0..3 {
        for k in 0..PACKET_SZ {
            buf.push((u + k) as u8);
        }
    }
    let accepted = udp.push_datagram(&buf).expect("deliver");
    assert_eq!(accepted, 3);
    let batch = udp.read().expect("read");
    assert_eq!(batch.len(), 3);
    for (i, p) in batch.iter().enumerate() {
        assert_eq!(p.bytes().as_slice(), &buf[i * PACKET_SZ..(i + 1) * PACKET_SZ]);
    }
    // The drain leaves the fifo empty.
    assert_eq!(udp.read().expect("read").len(), 0);
}

#[test]
fn close_releases_the_fifo() {
    let mut udp = InputUdp::new(Endpoint::new(v4(230, 1, 1, 1), None));
    udp.open().expect("open");
    udp.close().expect("close");
    match udp.read() {
        Err(e) => assert_eq!(e.kind, ErrorKind::UdpFifoNotInitialized),
        Ok(_) => panic!("read after close must fail"),
    }
    // Closing again is a no-op.
    udp.close().expect("close");
}

#[test]
fn file_input_carries_its_locator_through() {
    let mut f = InputFile::new("/tmp/stream.ts".to_string());
    match f.open() {
        Ok(OpenAction::OpenResource { path }) => assert_eq!(path, "/tmp/stream.ts"),
        _ => panic!("file open must ask for its resource"),
    }
    assert_eq!(f.read().expect("read").len(), 0);
    f.close().expect("close");
}
