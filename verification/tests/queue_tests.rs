use va_tool::packet::{split_datagram, Packet, PACKETS_PER_DATAGRAM, PACKET_SZ};
use va_tool::queue::PacketQueue;

fn patterned_datagram(units: usize) -> Vec<u8> {
    let mut buf = Vec::new();
    for u in 0..units {
        for k in 0..PACKET_SZ {
            buf.push((u * 31 + k) as u8);
        }
    }
    buf
}

#[test]
fn batch_integrity_seven_units() {
    // A datagram of exactly 7 consecutive 188-byte units, delivered to
    // an empty queue, drains as exactly 7 packets, in order.
    let buf = patterned_datagram(PACKETS_PER_DATAGRAM);
    assert_eq!(buf.len(), 1316);
    let mut q = PacketQueue::new(1000);
    let accepted = q.push_datagram(&buf);
    assert_eq!(accepted, PACKETS_PER_DATAGRAM);
    let batch = q.drain();
    assert_eq!(batch.len(), PACKETS_PER_DATAGRAM);
    for (i, p) in batch.iter().enumerate() {
        assert_eq!(p.len(), PACKET_SZ);
        assert_eq!(p.bytes().as_slice(), &buf[i * PACKET_SZ..(i + 1) * PACKET_SZ]);
    }
    assert!(q.is_empty());
}

#[test]
fn no_loss_across_interleaved_drains() {
    // N pushes interleaved with drains: the consumer observes exactly N.
    let mut q = PacketQueue::new(16);
    let mut observed = 0;
    let mut pushed = 0;
    for round in 0..4 {
        for k in 0..3 {
            let ok = q.push(Packet::new(vec![(round * 3 + k) as u8; PACKET_SZ]));
            assert!(ok);
            pushed += 1;
        }
        observed += q.drain().len();
    }
    observed += q.drain().len();
    assert_eq!(pushed, 12);
    assert_eq!(observed, 12);
}

#[test]
fn full_queue_rejects_newest() {
    let mut q = PacketQueue::new(2);
    assert!(q.push(Packet::new(vec![1u8; PACKET_SZ])));
    assert!(q.push(Packet::new(vec![2u8; PACKET_SZ])));
    assert!(!q.push(Packet::new(vec![3u8; PACKET_SZ])));
    let batch = q.drain();
    assert_eq!(batch.len(), 2);
    assert_eq!(batch[0].get(0), 1);
    assert_eq!(batch[1].get(0), 2);
}

#[test]
fn push_datagram_respects_capacity() {
    let buf = patterned_datagram(PACKETS_PER_DATAGRAM);
    let mut q = PacketQueue::new(4);
    let accepted = q.push_datagram(&buf);
    assert_eq!(accepted, 4);
    assert_eq!(q.len(), 4);
}

#[test]
fn split_datagram_ignores_trailing_fragment() {
    let mut buf = patterned_datagram(2);
    buf.extend_from_slice(&[7u8; 10]);
    let pkts = split_datagram(&buf);
    assert_eq!(pkts.len(), 2);
    for p in &pkts {
        assert_eq!(p.len(), PACKET_SZ);
    }
}

#[test]
fn drain_of_empty_queue_is_empty() {
    let mut q = PacketQueue::new(8);
    assert!(q.drain().is_empty());
    assert_eq!(q.capacity(), 8);
}
