//! The error taxonomy of the acquisition subsystem, with the exact
//! text each error renders to.

use vstd::prelude::*;
use vstd::string::*;

verus! {

/// Everything that can go wrong, from configuration to the fifo.
#[derive(Clone, Debug, PartialEq, Eq)]
pub enum ErrorKind {
    Logger,
    Config,
    URLParse(String),
    Signal,
    SourceSpawn,
    SourceInputLock(String),
    SourceStop,
    SourceJoin(String),
    UdpUrlMissingHost,
    UdpSocketBind(String, u16),
    UdpJoinMulticastV4(String, u16, String),
    UdpJoinMulticastV6(String, u16, u32),
    UdpDomainToIpV4(String),
    UdpFifoNotInitialized,
    UdpFifoLock(String),
    UdpFifoCvarWait(String),
    UdpFifoPopEmpty,
}

/// An error of this crate: a kind, nothing more.
#[derive(Clone, Debug, PartialEq, Eq)]
pub struct Error {
    pub kind: ErrorKind,
}

/// The digit character for one decimal digit.
pub open spec fn digit_char(d: nat) -> char {
    if d == 0 {
        '0'
    } else if d == 1 {
        '1'
    } else if d == 2 {
        '2'
    } else if d == 3 {
        '3'
    } else if d == 4 {
        '4'
    } else if d == 5 {
        '5'
    } else if d == 6 {
        '6'
    } else if d == 7 {
        '7'
    } else if d == 8 {
        '8'
    } else {
        '9'
    }
}

/// The decimal rendering of `n`, most significant digit first, without
/// leading zeros.
pub open spec fn dec_seq(n: nat) -> Seq<char>
    decreases n,
{
    if n < 10 {
        seq![digit_char(n)]
    } else {
        dec_seq(n / 10).push(digit_char(n % 10))
    }
}

/// One decimal digit as text.
fn digit_str(d: u64) -> (r: &'static str)
    requires
        d < 10,
    ensures
        r@ =~= seq![digit_char(d as nat)],
{
    let r = if d == 0 {
        "0"
    } else if d == 1 {
        "1"
    } else if d == 2 {
        "2"
    } else if d == 3 {
        "3"
    } else if d == 4 {
        "4"
    } else if d == 5 {
        "5"
    } else if d == 6 {
        "6"
    } else if d == 7 {
        "7"
    } else if d == 8 {
        "8"
    } else {
        "9"
    };
    proof {
        reveal_strlit("0");
        reveal_strlit("1");
        reveal_strlit("2");
        reveal_strlit("3");
        reveal_strlit("4");
        reveal_strlit("5");
        reveal_strlit("6");
        reveal_strlit("7");
        reveal_strlit("8");
        reveal_strlit("9");
    }
    r
}

/// Append the decimal rendering of `n`.
fn push_dec(s: &mut String, n: u64)
    ensures
        final(s)@ == old(s)@ + dec_seq(n as nat),
    decreases n,
{
    if n >= 10 {
        push_dec(s, n / 10);
    }
    s.append(digit_str(n % 10));
    proof {
        assert(s@ =~= old(s)@ + dec_seq(n as nat));
    }
}

/// The message each kind renders to.
pub open spec fn spec_message(k: ErrorKind) -> Seq<char> {
    match k {
        ErrorKind::Logger => "logger error"@,
        ErrorKind::Config => "config parse error"@,
        ErrorKind::URLParse(u) => "url-parse error (:url-raw "@ + u@ + ")"@,
        ErrorKind::Signal => "subscription to signals failed"@,
        ErrorKind::SourceSpawn => "source-spawn thread error"@,
        ErrorKind::SourceInputLock(r) => "lock input inside source to read data failed (:reason "@
            + r@ + ")"@,
        ErrorKind::SourceStop => "source stop error"@,
        ErrorKind::SourceJoin(r) => "source-join error (:reason "@ + r@ + ")"@,
        ErrorKind::UdpUrlMissingHost => "source-udp - missing url host"@,
        ErrorKind::UdpSocketBind(h, p) => "source-udp - bind error (:host "@ + h@ + " :port "@
            + dec_seq(p as nat) + ")"@,
        ErrorKind::UdpJoinMulticastV4(h, p, g) => "source-udp - join multicast v4 error (:host "@
            + h@ + " :port "@ + dec_seq(p as nat) + " :group "@ + g@ + ")"@,
        ErrorKind::UdpJoinMulticastV6(h, p, g) => "source-udp - join multicast v6 error (:host "@
            + h@ + " :port "@ + dec_seq(p as nat) + " :group "@ + dec_seq(g as nat) + ")"@,
        ErrorKind::UdpDomainToIpV4(d) => "source-udp - domain to ipv4 conversion error (:domain "@
            + d@ + ")"@,
        ErrorKind::UdpFifoNotInitialized => "source-udp - fifo is not initializer. call open first"@,
        ErrorKind::UdpFifoLock(r) => "source-udp - fifo lock error (:reason "@ + r@ + ")"@,
        ErrorKind::UdpFifoCvarWait(r) => "source-udp - condvar wait error (:reason "@ + r@ + ")"@,
        ErrorKind::UdpFifoPopEmpty => "source-udp - no data after fifo pop"@,
    }
}

impl Error {
    /// The message this error renders to, for the logging sink.
    pub fn message(&self) -> (r: String)
        ensures
            r@ == spec_message(self.kind),
    {
        match &self.kind {
            ErrorKind::Logger => String::from_str("logger error"),
            ErrorKind::Config => String::from_str("config parse error"),
            ErrorKind::URLParse(u) => {
                let mut s = String::from_str("url-parse error (:url-raw ");
                s.append(u.as_str());
                s.append(")");
                proof {
                    assert(s@ =~= spec_message(self.kind));
                }
                s
            },
            ErrorKind::Signal => String::from_str("subscription to signals failed"),
            ErrorKind::SourceSpawn => String::from_str("source-spawn thread error"),
            ErrorKind::SourceInputLock(reason) => {
                let mut s = String::from_str(
                    "lock input inside source to read data failed (:reason ",
                );
                s.append(reason.as_str());
                s.append(")");
                proof {
                    assert(s@ =~= spec_message(self.kind));
                }
                s
            },
            ErrorKind::SourceStop => String::from_str("source stop error"),
            ErrorKind::SourceJoin(reason) => {
                let mut s = String::from_str("source-join error (:reason ");
                s.append(reason.as_str());
                s.append(")");
                proof {
                    assert(s@ =~= spec_message(self.kind));
                }
                s
            },
            ErrorKind::UdpUrlMissingHost => String::from_str("source-udp - missing url host"),
            ErrorKind::UdpSocketBind(h, p) => {
                let mut s = String::from_str("source-udp - bind error (:host ");
                s.append(h.as_str());
                s.append(" :port ");
                push_dec(&mut s, *p as u64);
                s.append(")");
                proof {
                    assert(s@ =~= spec_message(self.kind));
                }
                s
            },
            ErrorKind::UdpJoinMulticastV4(h, p, g) => {
                let mut s = String::from_str("source-udp - join multicast v4 error (:host ");
                s.append(h.as_str());
                s.append(" :port ");
                push_dec(&mut s, *p as u64);
                s.append(" :group ");
                s.append(g.as_str());
                s.append(")");
                proof {
                    assert(s@ =~= spec_message(self.kind));
                }
                s
            },
            ErrorKind::UdpJoinMulticastV6(h, p, g) => {
                let mut s = String::from_str("source-udp - join multicast v6 error (:host ");
                s.append(h.as_str());
                s.append(" :port ");
                push_dec(&mut s, *p as u64);
                s.append(" :group ");
                push_dec(&mut s, *g as u64);
                s.append(")");
                proof {
                    assert(s@ =~= spec_message(self.kind));
                }
                s
            },
            ErrorKind::UdpDomainToIpV4(d) => {
                let mut s = String::from_str(
                    "source-udp - domain to ipv4 conversion error (:domain ",
                );
                s.append(d.as_str());
                s.append(")");
                proof {
                    assert(s@ =~= spec_message(self.kind));
                }
                s
            },
            ErrorKind::UdpFifoNotInitialized => String::from_str(
                "source-udp - fifo is not initializer. call open first",
            ),
            ErrorKind::UdpFifoLock(reason) => {
                let mut s = String::from_str("source-udp - fifo lock error (:reason ");
                s.append(reason.as_str());
                s.append(")");
                proof {
                    assert(s@ =~= spec_message(self.kind));
                }
                s
            },
            ErrorKind::UdpFifoCvarWait(reason) => {
                let mut s = String::from_str("source-udp - condvar wait error (:reason ");
                s.append(reason.as_str());
                s.append(")");
                proof {
                    assert(s@ =~= spec_message(self.kind));
                }
                s
            },
            ErrorKind::UdpFifoPopEmpty => String::from_str("source-udp - no data after fifo pop"),
        }
    }

    pub fn logger() -> (r: Error)
        ensures
            r.kind == ErrorKind::Logger,
    {
        Error { kind: ErrorKind::Logger }
    }

    pub fn config() -> (r: Error)
        ensures
            r.kind == ErrorKind::Config,
    {
        Error { kind: ErrorKind::Config }
    }

    pub fn url_parse(url_raw: String) -> (r: Error)
        ensures
            r.kind == ErrorKind::URLParse(url_raw),
    {
        Error { kind: ErrorKind::URLParse(url_raw) }
    }

    pub fn signal() -> (r: Error)
        ensures
            r.kind == ErrorKind::Signal,
    {
        Error { kind: ErrorKind::Signal }
    }

    pub fn source_spawn() -> (r: Error)
        ensures
            r.kind == ErrorKind::SourceSpawn,
    {
        Error { kind: ErrorKind::SourceSpawn }
    }

    pub fn source_join(reason: String) -> (r: Error)
        ensures
            r.kind == ErrorKind::SourceJoin(reason),
    {
        Error { kind: ErrorKind::SourceJoin(reason) }
    }

    pub fn source_input_lock(reason: String) -> (r: Error)
        ensures
            r.kind == ErrorKind::SourceInputLock(reason),
    {
        Error { kind: ErrorKind::SourceInputLock(reason) }
    }

    pub fn source_stop() -> (r: Error)
        ensures
            r.kind == ErrorKind::SourceStop,
    {
        Error { kind: ErrorKind::SourceStop }
    }

    pub fn udp_url_missing_host() -> (r: Error)
        ensures
            r.kind == ErrorKind::UdpUrlMissingHost,
    {
        Error { kind: ErrorKind::UdpUrlMissingHost }
    }

    pub fn udp_socket_bind(host: String, port: u16) -> (r: Error)
        ensures
            r.kind == ErrorKind::UdpSocketBind(host, port),
    {
        Error { kind: ErrorKind::UdpSocketBind(host, port) }
    }

    pub fn udp_join_multicast_v4(host: String, port: u16, group: String) -> (r: Error)
        ensures
            r.kind == ErrorKind::UdpJoinMulticastV4(host, port, group),
    {
        Error { kind: ErrorKind::UdpJoinMulticastV4(host, port, group) }
    }

    pub fn udp_join_multicast_v6(host: String, port: u16, group: u32) -> (r: Error)
        ensures
            r.kind == ErrorKind::UdpJoinMulticastV6(host, port, group),
    {
        Error { kind: ErrorKind::UdpJoinMulticastV6(host, port, group) }
    }

    pub fn udp_domain_to_ipv4(domain: String) -> (r: Error)
        ensures
            r.kind == ErrorKind::UdpDomainToIpV4(domain),
    {
        Error { kind: ErrorKind::UdpDomainToIpV4(domain) }
    }

    pub fn udp_fifo_not_initialized() -> (r: Error)
        ensures
            r.kind == ErrorKind::UdpFifoNotInitialized,
    {
        Error { kind: ErrorKind::UdpFifoNotInitialized }
    }

    pub fn udp_fifo_lock(reason: String) -> (r: Error)
        ensures
            r.kind == ErrorKind::UdpFifoLock(reason),
    {
        Error { kind: ErrorKind::UdpFifoLock(reason) }
    }

    pub fn udp_fifo_cvar_wait(reason: String) -> (r: Error)
        ensures
            r.kind == ErrorKind::UdpFifoCvarWait(reason),
    {
        Error { kind: ErrorKind::UdpFifoCvarWait(reason) }
    }

    pub fn udp_fifo_pop_empty() -> (r: Error)
        ensures
            r.kind == ErrorKind::UdpFifoPopEmpty,
    {
        Error { kind: ErrorKind::UdpFifoPopEmpty }
    }
}

} // verus!
