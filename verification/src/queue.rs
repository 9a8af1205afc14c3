//! The bounded FIFO of transport packets shared between the receive
//! loop (producer) and a reader (consumer).
//!
//! The queue itself is single-threaded data: the embedding program puts
//! it behind its lock and condition variable. Every content-changing
//! operation is specified exactly, so whatever interleaving the lock
//! admits, the contents evolve by these contracts alone.
//!
//! Capacity policy: the queue is bounded and rejects the newest packet
//! when full (`push` returns `false` and leaves the queue unchanged).

use crate::packet::{split_packets, Packet, PACKETS_PER_DATAGRAM, PACKET_SZ};
use vstd::prelude::*;

verus! {

/// A bounded FIFO of fixed-size packets. The view is the sequence of
/// queued packets' byte sequences, oldest first.
pub struct PacketQueue {
    items: Vec<Packet>,
    cap: usize,
}

impl View for PacketQueue {
    type V = Seq<Seq<u8>>;

    closed spec fn view(&self) -> Seq<Seq<u8>> {
        Seq::new(self.items@.len(), |i: int| self.items@[i]@)
    }
}

impl PacketQueue {
    /// The configured capacity, in packets.
    pub closed spec fn cap(&self) -> nat {
        self.cap as nat
    }

    /// The queue never exceeds its capacity and holds only whole packets.
    pub open spec fn wf(&self) -> bool {
        &&& self@.len() <= self.cap()
        &&& self.cap() >= 1
        &&& forall|i: int| 0 <= i < self@.len() ==> (#[trigger] self@[i]).len() == PACKET_SZ
    }

    pub fn new(cap: usize) -> (r: PacketQueue)
        requires
            cap >= 1,
        ensures
            r@ =~= Seq::<Seq<u8>>::empty(),
            r.cap() == cap,
            r.wf(),
    {
        PacketQueue { items: Vec::new(), cap }
    }

    pub fn capacity(&self) -> (r: usize)
        ensures
            r == self.cap(),
    {
        self.cap
    }

    pub fn len(&self) -> (r: usize)
        ensures
            r == self@.len(),
    {
        self.items.len()
    }

    pub fn is_empty(&self) -> (r: bool)
        ensures
            r == (self@.len() == 0),
    {
        self.items.len() == 0
    }

    /// Append one packet, oldest first; when the queue is full the
    /// packet is rejected and nothing changes.
    pub fn push(&mut self, p: Packet) -> (accepted: bool)
        requires
            old(self).wf(),
            p.wf(),
        ensures
            accepted == (old(self)@.len() < old(self).cap()),
            accepted ==> final(self)@ =~= old(self)@.push(p@),
            !accepted ==> final(self)@ =~= old(self)@,
            final(self).cap() == old(self).cap(),
            final(self).wf(),
    {
        if self.items.len() < self.cap {
            self.items.push(p);
            true
        } else {
            false
        }
    }

    /// Atomically remove and return all queued packets as one ordered
    /// batch, leaving the queue empty.
    pub fn drain(&mut self) -> (batch: Vec<Packet>)
        requires
            old(self).wf(),
        ensures
            batch@.len() == old(self)@.len(),
            forall|i: int| 0 <= i < batch@.len() ==> (#[trigger] batch@[i])@ == old(self)@[i],
            forall|i: int| 0 <= i < batch@.len() ==> (#[trigger] batch@[i]).wf(),
            final(self)@ =~= Seq::<Seq<u8>>::empty(),
            final(self).cap() == old(self).cap(),
            final(self).wf(),
    {
        let batch = self.items.split_off(0);
        proof {
            assert forall|i: int| 0 <= i < batch@.len() implies (#[trigger] batch@[i]).wf() by {
                assert(batch@[i]@ == old(self)@[i]);
                assert(old(self)@[i].len() == PACKET_SZ);
            }
        }
        batch
    }

    /// Split one datagram into packets and push them in wire order;
    /// packets that find the queue full are rejected. Returns how many
    /// were accepted.
    pub fn push_datagram(&mut self, buf: &Vec<u8>) -> (accepted: usize)
        requires
            old(self).wf(),
        ensures
            final(self)@ =~= after_datagram(old(self)@, old(self).cap(), buf@),
            accepted == after_datagram(old(self)@, old(self).cap(), buf@).len() - old(self)@.len(),
            final(self).cap() == old(self).cap(),
            final(self).wf(),
    {
        let pkts = crate::packet::split_datagram(buf);
        let ghost all = split_packets(buf@);
        let mut accepted: usize = 0;
        let mut i: usize = 0;
        while i < pkts.len()
            invariant
                old(self).wf(),
                self.wf(),
                self.cap() == old(self).cap(),
                i <= pkts@.len(),
                pkts@.len() == all.len(),
                forall|j: int| 0 <= j < all.len() ==> (#[trigger] pkts@[j])@ == all[j],
                forall|j: int| 0 <= j < all.len() ==> (#[trigger] pkts@[j]).wf(),
                accepted == room_for(old(self)@, old(self).cap(), i as nat),
                accepted <= i,
                self@ =~= old(self)@ + all.take(
                    room_for(old(self)@, old(self).cap(), i as nat) as int,
                ),
            decreases pkts@.len() - i,
        {
            let p = pkts[i].clone_packet();
            let ok = self.push(p);
            proof {
                let r_i = room_for(old(self)@, old(self).cap(), i as nat);
                let r_i1 = room_for(old(self)@, old(self).cap(), (i + 1) as nat);
                if old(self)@.len() + r_i < old(self).cap() {
                    assert(r_i1 == r_i + 1);
                    assert(all.take(r_i1 as int) =~= all.take(r_i as int).push(all[i as int]));
                } else {
                    assert(r_i1 == r_i);
                }
            }
            if ok {
                accepted += 1;
            }
            i += 1;
        }
        accepted
    }
}

/// How many of `n` offered packets a queue with contents `q` and
/// capacity `cap` accepts.
pub open spec fn room_for(q: Seq<Seq<u8>>, cap: nat, n: nat) -> nat {
    if q.len() + n <= cap {
        n
    } else if q.len() <= cap {
        (cap - q.len()) as nat
    } else {
        0
    }
}

/// The queue contents after one datagram is delivered: the datagram's
/// packets are appended in wire order until the queue is full.
pub open spec fn after_datagram(q: Seq<Seq<u8>>, cap: nat, buf: Seq<u8>) -> Seq<Seq<u8>> {
    q + split_packets(buf).take(room_for(q, cap, split_packets(buf).len()) as int)
}

/// One operation on the queue, as `push` and `drain` specify them:
/// the model over which the conservation laws below are proved.
pub enum QueueOp {
    Push(Seq<u8>),
    Drain,
}

/// The queue contents after running `ops` against an initially empty
/// queue of capacity `cap`: each push appends when there is room, each
/// drain empties the queue.
pub open spec fn queue_after(cap: nat, ops: Seq<QueueOp>) -> Seq<Seq<u8>>
    decreases ops.len(),
{
    if ops.len() == 0 {
        Seq::empty()
    } else {
        let prev = queue_after(cap, ops.drop_last());
        match ops.last() {
            QueueOp::Push(p) => if prev.len() < cap {
                prev.push(p)
            } else {
                prev
            },
            QueueOp::Drain => Seq::empty(),
        }
    }
}

/// How many packets the consumer observes across all drains of `ops`.
pub open spec fn observed_total(cap: nat, ops: Seq<QueueOp>) -> nat
    decreases ops.len(),
{
    if ops.len() == 0 {
        0
    } else {
        let prev = observed_total(cap, ops.drop_last());
        match ops.last() {
            QueueOp::Push(_) => prev,
            QueueOp::Drain => prev + queue_after(cap, ops.drop_last()).len(),
        }
    }
}

/// How many pushes of `ops` the queue accepts.
pub open spec fn accepted_total(cap: nat, ops: Seq<QueueOp>) -> nat
    decreases ops.len(),
{
    if ops.len() == 0 {
        0
    } else {
        let prev = accepted_total(cap, ops.drop_last());
        match ops.last() {
            QueueOp::Push(_) => if queue_after(cap, ops.drop_last()).len() < cap {
                prev + 1
            } else {
                prev
            },
            QueueOp::Drain => prev,
        }
    }
}

/// How many pushes `ops` holds, accepted or not.
pub open spec fn push_count(ops: Seq<QueueOp>) -> nat
    decreases ops.len(),
{
    if ops.len() == 0 {
        0
    } else {
        push_count(ops.drop_last()) + match ops.last() {
            QueueOp::Push(_) => 1nat,
            QueueOp::Drain => 0nat,
        }
    }
}

/// Every packet the consumer has observed across the drains of `ops`,
/// in the order observed.
pub open spec fn observed_seq(cap: nat, ops: Seq<QueueOp>) -> Seq<Seq<u8>>
    decreases ops.len(),
{
    if ops.len() == 0 {
        Seq::empty()
    } else {
        let prev = observed_seq(cap, ops.drop_last());
        match ops.last() {
            QueueOp::Push(_) => prev,
            QueueOp::Drain => prev + queue_after(cap, ops.drop_last()),
        }
    }
}

/// Every packet the queue accepted across the pushes of `ops`, in
/// push order.
pub open spec fn accepted_seq(cap: nat, ops: Seq<QueueOp>) -> Seq<Seq<u8>>
    decreases ops.len(),
{
    if ops.len() == 0 {
        Seq::empty()
    } else {
        let prev = accepted_seq(cap, ops.drop_last());
        match ops.last() {
            QueueOp::Push(p) => if queue_after(cap, ops.drop_last()).len() < cap {
                prev.push(p)
            } else {
                prev
            },
            QueueOp::Drain => prev,
        }
    }
}

/// Push order equals pop order: across any interleaving of pushes and
/// drains, what the consumer has observed, followed by what is still
/// queued, is exactly the accepted packets in the order they were
/// pushed — none lost, none duplicated, none reordered.
pub proof fn lemma_fifo_conservation(cap: nat, ops: Seq<QueueOp>)
    ensures
        observed_seq(cap, ops) + queue_after(cap, ops) == accepted_seq(cap, ops),
    decreases ops.len(),
{
    if ops.len() == 0 {
        assert(observed_seq(cap, ops) + queue_after(cap, ops) =~= accepted_seq(cap, ops));
    } else {
        lemma_fifo_conservation(cap, ops.drop_last());
        assert(observed_seq(cap, ops) + queue_after(cap, ops) =~= accepted_seq(cap, ops));
    }
}

/// Conservation: across any interleaving of pushes and drains, every
/// accepted packet is either already observed by the consumer or still
/// queued — none is lost and none is duplicated.
pub proof fn lemma_conservation(cap: nat, ops: Seq<QueueOp>)
    ensures
        observed_total(cap, ops) + queue_after(cap, ops).len() == accepted_total(cap, ops),
    decreases ops.len(),
{
    if ops.len() > 0 {
        lemma_conservation(cap, ops.drop_last());
    }
}

/// The queue never holds more than the pushes so far.
proof fn lemma_queue_len_le_push_count(cap: nat, ops: Seq<QueueOp>)
    ensures
        queue_after(cap, ops).len() <= push_count(ops),
    decreases ops.len(),
{
    if ops.len() > 0 {
        lemma_queue_len_le_push_count(cap, ops.drop_last());
    }
}

/// While the pushes stay within the capacity, none is rejected.
pub proof fn lemma_all_accepted(cap: nat, ops: Seq<QueueOp>)
    requires
        push_count(ops) <= cap,
    ensures
        accepted_total(cap, ops) == push_count(ops),
    decreases ops.len(),
{
    if ops.len() > 0 {
        lemma_all_accepted(cap, ops.drop_last());
        lemma_queue_len_le_push_count(cap, ops.drop_last());
        lemma_conservation(cap, ops.drop_last());
    }
}

/// No loss under single-consumer load: for any sequence of N pushes
/// interleaved with drains in which no push found the queue full, a
/// final drain brings the total number of packets the consumer has
/// observed to exactly N. (`lemma_all_accepted` gives one sufficient
/// condition; with more than `cap` pushes between drains the queue
/// rejects the overflow instead — by the chosen bounded policy — and
/// the hypothesis fails.)
pub proof fn lemma_no_loss(cap: nat, ops: Seq<QueueOp>)
    requires
        accepted_total(cap, ops) == push_count(ops),
    ensures
        observed_total(cap, ops.push(QueueOp::Drain)) == push_count(ops),
{
    let run = ops.push(QueueOp::Drain);
    assert(run.drop_last() =~= ops);
    lemma_conservation(cap, ops);
}

/// Batch integrity: a datagram carrying exactly `PACKETS_PER_DATAGRAM`
/// consecutive `PACKET_SZ`-byte units, delivered to an empty queue with
/// room for them, leaves as the queue's whole contents exactly those
/// units, in the order they were written — which is what the next
/// `drain` returns.
pub proof fn lemma_batch_integrity(cap: nat, buf: Seq<u8>)
    requires
        buf.len() == PACKETS_PER_DATAGRAM * PACKET_SZ,
        cap >= PACKETS_PER_DATAGRAM,
    ensures
        after_datagram(Seq::empty(), cap, buf) == split_packets(buf),
        split_packets(buf).len() == PACKETS_PER_DATAGRAM,
        forall|i: int|
            0 <= i < PACKETS_PER_DATAGRAM ==> split_packets(buf)[i] == buf.subrange(
                i * PACKET_SZ,
                (i + 1) * PACKET_SZ,
            ),
        forall|i: int|
            0 <= i < PACKETS_PER_DATAGRAM ==> split_packets(buf)[i].len() == PACKET_SZ,
{
    assert(buf.len() / PACKET_SZ as nat == PACKETS_PER_DATAGRAM);
    let pkts = split_packets(buf);
    assert(after_datagram(Seq::empty(), cap, buf) =~= pkts);
}

} // verus!
