//! The `Input` capability: three operations — open, read, close —
//! implemented by a network-backed variant and a file-backed variant.
//!
//! Opening decides everything that does not touch the operating
//! system: which address family to join, on which interface, on which
//! port, or that the endpoint is unusable. The decided `OpenAction` is
//! what the embedding program performs against its sockets; the fifo
//! and every decision around it live here, verified.

use crate::endpoint::{
    parse_ipv4_spec, spec_effective_port, Endpoint, HostAddr, Ipv4Octets, Ipv6Segments,
};
use crate::error::{Error, ErrorKind};
use crate::packet::Packet;
use crate::queue::{after_datagram, PacketQueue};
use vstd::prelude::*;

verus! {

/// The default fifo capacity, in packets, when none is configured.
pub const DEFAULT_FIFO_SZ: usize = 1000;

/// The host part of an endpoint, by value: what the join decision is
/// a function of.
pub enum HostView {
    V4(Ipv4Octets),
    V6(Seq<u16>),
    Domain(Seq<char>),
}

impl View for HostAddr {
    type V = HostView;

    open spec fn view(&self) -> HostView {
        match self {
            HostAddr::V4(o) => HostView::V4(*o),
            HostAddr::V6(v) => HostView::V6(v@),
            HostAddr::Domain(d) => HostView::Domain(d@),
        }
    }
}

/// What the embedding program must do to finish an `open`: join a
/// multicast group over a bound socket, or open a local resource.
pub enum OpenAction {
    JoinV4 { group: Ipv4Octets, iface: Ipv4Octets, port: u16 },
    JoinV6 { group: Ipv6Segments, iface: u32, port: u16 },
    OpenResource { path: String },
}

/// The wildcard IPv4 interface, `0.0.0.0`: "any".
pub open spec fn spec_ipv4_any() -> Ipv4Octets {
    Ipv4Octets { a: 0, b: 0, c: 0, d: 0 }
}

pub fn ipv4_any() -> (r: Ipv4Octets)
    ensures
        r == spec_ipv4_any(),
{
    Ipv4Octets { a: 0, b: 0, c: 0, d: 0 }
}

/// What opening a network endpoint decides, as a function of the host
/// and port alone.
pub enum OpenOutcome {
    /// Join this IPv4 group, on the wildcard interface.
    PlanV4 { group: Ipv4Octets, port: u16 },
    /// Join this IPv6 group, on interface index 0.
    PlanV6 { group: Seq<u16>, port: u16 },
    /// The URL carries no host.
    MissingHost,
    /// The host is a name that is not an IPv4 literal.
    BadDomain { domain: Seq<char> },
}

/// The join decision: an IPv4 literal joins as IPv4 on the wildcard
/// interface — whatever its range, multicast or not: whether an
/// address is multicast-worthy is its configurer's decision; an IPv6
/// literal joins as IPv6 on interface index 0; a domain name joins as
/// IPv4 when it parses as a dotted-quad literal and fails otherwise;
/// a missing host fails before anything is bound.
pub open spec fn spec_open(host: Option<HostView>, port: Option<u16>) -> OpenOutcome {
    let p = spec_effective_port(port);
    match host {
        Option::None => OpenOutcome::MissingHost,
        Option::Some(HostView::V4(o)) => OpenOutcome::PlanV4 { group: o, port: p },
        Option::Some(HostView::V6(v)) => OpenOutcome::PlanV6 { group: v, port: p },
        Option::Some(HostView::Domain(d)) => match parse_ipv4_spec(d) {
            Option::Some(o) => OpenOutcome::PlanV4 { group: o, port: p },
            Option::None => OpenOutcome::BadDomain { domain: d },
        },
    }
}

/// Multicast join selection: any IPv4 literal host — inside the
/// multicast range or not — is joined as IPv4 on the wildcard
/// interface `0.0.0.0`; an IPv6 literal is joined as IPv6 on
/// interface index 0; a URL without a host fails before any socket
/// exists. Joining without a range test mirrors the component's
/// place: the range decision belongs to configuration, which has
/// `is_multicast_ipv4` for it.
pub proof fn lemma_join_selection(o: Ipv4Octets, v: Seq<u16>, port: Option<u16>)
    ensures
        spec_open(Option::Some(HostView::V4(o)), port) == (OpenOutcome::PlanV4 {
            group: o,
            port: spec_effective_port(port),
        }),
        spec_open(Option::Some(HostView::V6(v)), port) == (OpenOutcome::PlanV6 {
            group: v,
            port: spec_effective_port(port),
        }),
        spec_open(Option::None, port) == OpenOutcome::MissingHost,
{
}

/// A capability that acquires packets: open it, read batches from it,
/// close it. Each implementation fixes its exact contract through the
/// three `*_post` relations.
pub trait Input: Sized {
    /// The implementation's internal invariant.
    spec fn inv(&self) -> bool;

    /// Exactly how `open` changes the state and what it returns.
    spec fn open_post(pre: Self, post: Self, r: Result<OpenAction, Error>) -> bool;

    /// Exactly how `read` changes the state and what it returns.
    spec fn read_post(pre: Self, post: Self, r: Result<Vec<Packet>, Error>) -> bool;

    /// Exactly how `close` changes the state and what it returns.
    spec fn close_post(pre: Self, post: Self, r: Result<(), Error>) -> bool;

    fn open(&mut self) -> (r: Result<OpenAction, Error>)
        requires
            old(self).inv(),
        ensures
            final(self).inv(),
            Self::open_post(*old(self), *final(self), r),
    ;

    fn read(&mut self) -> (r: Result<Vec<Packet>, Error>)
        requires
            old(self).inv(),
        ensures
            final(self).inv(),
            Self::read_post(*old(self), *final(self), r),
    ;

    fn close(&mut self) -> (r: Result<(), Error>)
        requires
            old(self).inv(),
        ensures
            final(self).inv(),
            Self::close_post(*old(self), *final(self), r),
    ;
}

/// The network-backed input: an endpoint, a configured fifo capacity,
/// and — between `open` and `close` — the live fifo itself.
pub struct InputUdp {
    url: Endpoint,
    fifo_sz: usize,
    fifo: Option<PacketQueue>,
}

impl InputUdp {
    pub closed spec fn spec_url(&self) -> Endpoint {
        self.url
    }

    pub open spec fn host_view(&self) -> Option<HostView> {
        match self.spec_url().host {
            Option::Some(h) => Option::Some(h@),
            Option::None => Option::None,
        }
    }

    /// The configured fifo capacity, in packets.
    pub closed spec fn spec_fifo_sz(&self) -> nat {
        self.fifo_sz as nat
    }

    /// The live fifo, present only between `open` and `close`.
    pub closed spec fn spec_fifo(&self) -> Option<PacketQueue> {
        self.fifo
    }

    pub open spec fn is_open(&self) -> bool {
        self.spec_fifo() is Some
    }

    pub open spec fn inv(&self) -> bool {
        &&& self.spec_fifo_sz() >= 1
        &&& match self.spec_fifo() {
            Option::Some(q) => q.wf() && q.cap() == self.spec_fifo_sz(),
            Option::None => true,
        }
    }

    pub fn new(url: Endpoint) -> (r: InputUdp)
        ensures
            r.spec_url() == url,
            r.spec_fifo_sz() == DEFAULT_FIFO_SZ,
            !r.is_open(),
            r.inv(),
    {
        InputUdp { url, fifo_sz: DEFAULT_FIFO_SZ, fifo: Option::None }
    }

    /// Configure the fifo capacity; takes effect at the next `open`.
    pub fn fifo_sz(&mut self, fifo_sz: usize) -> (r: &InputUdp)
        requires
            fifo_sz >= 1,
        ensures
            final(self).spec_fifo_sz() == fifo_sz,
            final(self).spec_url() == old(self).spec_url(),
            final(self).spec_fifo() == old(self).spec_fifo(),
            *r == *final(self),
    {
        self.fifo_sz = fifo_sz;
        self
    }

    /// Deliver one datagram into the fifo: split it into packets and
    /// append them in wire order until the fifo is full. Returns how
    /// many packets were accepted, or the not-initialized error when
    /// the input is not open.
    pub fn push_datagram(&mut self, buf: &Vec<u8>) -> (r: Result<usize, Error>)
        requires
            old(self).inv(),
        ensures
            final(self).inv(),
            final(self).spec_url() == old(self).spec_url(),
            final(self).spec_fifo_sz() == old(self).spec_fifo_sz(),
            match old(self).spec_fifo() {
                Option::Some(q) => {
                    &&& final(self).spec_fifo() matches Some(q2) && q2@ =~= after_datagram(
                        q@,
                        q.cap(),
                        buf@,
                    ) && q2.cap() == q.cap()
                    &&& r matches Ok(n) && n == after_datagram(q@, q.cap(), buf@).len() - q@.len()
                },
                Option::None => {
                    &&& r matches Err(e) && e.kind == ErrorKind::UdpFifoNotInitialized
                    &&& *final(self) == *old(self)
                },
            },
    {
        match &mut self.fifo {
            Option::Some(q) => {
                let n = q.push_datagram(buf);
                Ok(n)
            },
            Option::None => Err(Error::udp_fifo_not_initialized()),
        }
    }
}

impl Input for InputUdp {
    open spec fn inv(&self) -> bool {
        InputUdp::inv(self)
    }

    /// Opening resolves the endpoint and allocates the fifo; nothing
    /// is changed when the endpoint is unusable. The returned action
    /// is exactly what `spec_open` decides of the host and port.
    open spec fn open_post(pre: InputUdp, post: InputUdp, r: Result<OpenAction, Error>) -> bool {
        let outcome = spec_open(pre.host_view(), pre.spec_url().port);
        &&& post.spec_url() == pre.spec_url()
        &&& post.spec_fifo_sz() == pre.spec_fifo_sz()
        &&& match r {
            Result::Ok(a) => {
                &&& match a {
                    OpenAction::JoinV4 { group, iface, port } => {
                        &&& outcome == (OpenOutcome::PlanV4 { group, port })
                        &&& iface == spec_ipv4_any()
                    },
                    OpenAction::JoinV6 { group, iface, port } => {
                        &&& outcome == (OpenOutcome::PlanV6 { group: group@, port })
                        &&& iface == 0
                    },
                    OpenAction::OpenResource { .. } => false,
                }
                &&& post.spec_fifo() matches Some(q) && q@ =~= Seq::<Seq<u8>>::empty()
                    && q.cap() == pre.spec_fifo_sz()
            },
            Result::Err(e) => {
                &&& match e.kind {
                    ErrorKind::UdpUrlMissingHost => outcome == OpenOutcome::MissingHost,
                    ErrorKind::UdpDomainToIpV4(d) => outcome == (OpenOutcome::BadDomain {
                        domain: d@,
                    }),
                    _ => false,
                }
                &&& post == pre
            },
        }
    }

    /// Reading drains the whole fifo as one ordered batch; before
    /// `open` it fails with the not-initialized error.
    open spec fn read_post(pre: InputUdp, post: InputUdp, r: Result<Vec<Packet>, Error>) -> bool {
        &&& post.spec_url() == pre.spec_url()
        &&& post.spec_fifo_sz() == pre.spec_fifo_sz()
        &&& match pre.spec_fifo() {
            Option::Some(q) => {
                &&& r matches Ok(batch) && batch@.len() == q@.len() && (forall|i: int|
                    0 <= i < q@.len() ==> (#[trigger] batch@[i])@ == q@[i])
                &&& post.spec_fifo() matches Some(q2) && q2@ =~= Seq::<Seq<u8>>::empty()
                    && q2.cap() == q.cap()
            },
            Option::None => {
                &&& r matches Err(e) && e.kind == ErrorKind::UdpFifoNotInitialized
                &&& post == pre
            },
        }
    }

    /// Closing releases the fifo; it is idempotent and cannot fail.
    open spec fn close_post(pre: InputUdp, post: InputUdp, r: Result<(), Error>) -> bool {
        &&& post.spec_url() == pre.spec_url()
        &&& post.spec_fifo_sz() == pre.spec_fifo_sz()
        &&& !post.is_open()
        &&& r is Ok
    }

    fn open(&mut self) -> (r: Result<OpenAction, Error>) {
        let port = self.url.effective_port();
        match &self.url.host {
            Option::None => Err(Error::udp_url_missing_host()),
            Option::Some(HostAddr::V4(o)) => {
                let action = OpenAction::JoinV4 { group: *o, iface: ipv4_any(), port };
                self.fifo = Option::Some(PacketQueue::new(self.fifo_sz));
                Ok(action)
            },
            Option::Some(HostAddr::V6(v)) => {
                let action = OpenAction::JoinV6 { group: v.clone_segments(), iface: 0, port };
                self.fifo = Option::Some(PacketQueue::new(self.fifo_sz));
                Ok(action)
            },
            Option::Some(HostAddr::Domain(d)) => {
                match crate::endpoint::parse_ipv4_literal(d.as_str()) {
                    Option::Some(o) => {
                        let action = OpenAction::JoinV4 { group: o, iface: ipv4_any(), port };
                        self.fifo = Option::Some(PacketQueue::new(self.fifo_sz));
                        Ok(action)
                    },
                    Option::None => Err(Error::udp_domain_to_ipv4(d.clone())),
                }
            },
        }
    }

    fn read(&mut self) -> (r: Result<Vec<Packet>, Error>) {
        match &mut self.fifo {
            Option::Some(q) => Ok(q.drain()),
            Option::None => Err(Error::udp_fifo_not_initialized()),
        }
    }

    fn close(&mut self) -> (r: Result<(), Error>) {
        self.fifo = Option::None;
        Ok(())
    }
}

/// The file-backed input: a resource locator. The acquisition of file
/// bytes is the embedding program's; this variant only carries the
/// locator through the shared lifecycle.
pub struct InputFile {
    url: String,
}

impl InputFile {
    pub closed spec fn spec_url(&self) -> Seq<char> {
        self.url@
    }

    pub fn new(url: String) -> (r: InputFile)
        ensures
            r.spec_url() == url@,
    {
        InputFile { url }
    }
}

impl Input for InputFile {
    open spec fn inv(&self) -> bool {
        true
    }

    /// Opening asks the embedding program to establish access to the
    /// resource; the locator itself never changes.
    open spec fn open_post(pre: InputFile, post: InputFile, r: Result<OpenAction, Error>) -> bool {
        &&& post.spec_url() == pre.spec_url()
        &&& r matches Ok(a) && a matches OpenAction::OpenResource { path } && path@
            == pre.spec_url()
    }

    /// One read step of the file variant acquires no packets here: the
    /// byte acquisition is the embedding program's.
    open spec fn read_post(pre: InputFile, post: InputFile, r: Result<Vec<Packet>, Error>) -> bool {
        &&& post.spec_url() == pre.spec_url()
        &&& r matches Ok(batch) && batch@.len() == 0
    }

    open spec fn close_post(pre: InputFile, post: InputFile, r: Result<(), Error>) -> bool {
        &&& post.spec_url() == pre.spec_url()
        &&& r is Ok
    }

    fn open(&mut self) -> (r: Result<OpenAction, Error>) {
        Ok(OpenAction::OpenResource { path: self.url.clone() })
    }

    fn read(&mut self) -> (r: Result<Vec<Packet>, Error>) {
        Ok(Vec::new())
    }

    fn close(&mut self) -> (r: Result<(), Error>) {
        Ok(())
    }
}

} // verus!
