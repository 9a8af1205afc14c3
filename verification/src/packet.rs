//! Fixed-size transport packets and the splitting of a datagram into them.

use vstd::prelude::*;

verus! {

/// Size in bytes of one transport packet on the wire.
pub const PACKET_SZ: usize = 188;

/// How many packets one datagram carries: 7 * 188 = 1316 bytes,
/// comfortably under a 1500-byte network frame.
pub const PACKETS_PER_DATAGRAM: usize = 7;

/// One immutable fixed-size transport packet.
pub struct Packet {
    data: Vec<u8>,
}

impl View for Packet {
    type V = Seq<u8>;

    closed spec fn view(&self) -> Seq<u8> {
        self.data@
    }
}

impl Packet {
    /// A packet is well formed when it holds exactly one protocol unit.
    pub open spec fn wf(&self) -> bool {
        self@.len() == PACKET_SZ
    }

    pub fn new(data: Vec<u8>) -> (r: Packet)
        requires
            data@.len() == PACKET_SZ,
        ensures
            r@ == data@,
            r.wf(),
    {
        Packet { data }
    }

    pub fn len(&self) -> (r: usize)
        ensures
            r == self@.len(),
    {
        self.data.len()
    }

    pub fn get(&self, i: usize) -> (r: u8)
        requires
            i < self@.len(),
        ensures
            r == self@[i as int],
    {
        self.data[i]
    }

    /// The packet's bytes, in wire order.
    pub fn bytes(&self) -> (r: &Vec<u8>)
        ensures
            r@ == self@,
    {
        &self.data
    }

    /// An owned copy of the packet.
    pub fn clone_packet(&self) -> (r: Packet)
        ensures
            r@ == self@,
    {
        let mut data: Vec<u8> = Vec::new();
        let mut k: usize = 0;
        let n = self.len();
        while k < n
            invariant
                k <= n,
                n == self@.len(),
                data@.len() == k,
                forall|j: int| 0 <= j < k ==> data@[j] == self@[j],
            decreases n - k,
        {
            data.push(self.get(k));
            k += 1;
        }
        assert(data@ =~= self@);
        Packet { data }
    }
}

/// The packets a datagram's payload decomposes into: consecutive
/// `PACKET_SZ`-byte units, in wire order. A trailing fragment that is
/// shorter than one packet is not part of the decomposition.
pub open spec fn split_packets(buf: Seq<u8>) -> Seq<Seq<u8>> {
    Seq::new(
        buf.len() / PACKET_SZ as nat,
        |i: int| buf.subrange(i * PACKET_SZ, (i + 1) * PACKET_SZ),
    )
}

/// Split a datagram payload into its fixed-size packets, in order.
pub fn split_datagram(buf: &Vec<u8>) -> (r: Vec<Packet>)
    ensures
        r@.len() == split_packets(buf@).len(),
        forall|i: int| 0 <= i < r@.len() ==> r@[i]@ == split_packets(buf@)[i],
        forall|i: int| 0 <= i < r@.len() ==> r@[i].wf(),
{
    let n = buf.len() / PACKET_SZ;
    proof {
        vstd::arithmetic::div_mod::lemma_fundamental_div_mod(
            buf@.len() as int,
            PACKET_SZ as int,
        );
        vstd::arithmetic::div_mod::lemma_mod_bound(buf@.len() as int, PACKET_SZ as int);
    }
    let mut r: Vec<Packet> = Vec::new();
    let mut i: usize = 0;
    while i < n
        invariant
            i <= n,
            n == buf@.len() / PACKET_SZ as nat,
            n * PACKET_SZ <= buf@.len() <= usize::MAX,
            r@.len() == i,
            forall|j: int| 0 <= j < i ==> r@[j]@ == split_packets(buf@)[j],
            forall|j: int| 0 <= j < i ==> r@[j].wf(),
        decreases n - i,
    {
        let mut one: Vec<u8> = Vec::new();
        let mut k: usize = 0;
        while k < PACKET_SZ
            invariant
                k <= PACKET_SZ,
                i * PACKET_SZ + PACKET_SZ <= buf@.len() <= usize::MAX,
                one@.len() == k,
                forall|j: int| 0 <= j < k ==> one@[j] == buf@[i * PACKET_SZ + j],
            decreases PACKET_SZ - k,
        {
            one.push(buf[i * PACKET_SZ + k]);
            k += 1;
        }
        assert(one@ =~= split_packets(buf@)[i as int]);
        r.push(Packet::new(one));
        i += 1;
    }
    r
}

} // verus!
