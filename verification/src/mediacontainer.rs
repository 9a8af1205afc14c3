//! Which media container a URL's stream is expected to carry.

use crate::endpoint::Endpoint;
use vstd::prelude::*;

verus! {

/// The container formats the pipeline distinguishes.
#[derive(Debug, Eq, PartialEq, Structural)]
pub enum Mediacontainer {
    Ts,
    Mp4 { fragmented: bool },
    WebM,
    Rtp,
    Rtsp,
}

impl Mediacontainer {
    /// The container an endpoint's stream is taken to carry. Today
    /// every endpoint is treated as a transport stream.
    pub fn from_endpoint(url: &Endpoint) -> (r: Mediacontainer)
        ensures
            r == Mediacontainer::Ts,
    {
        let _ = url;
        Mediacontainer::Ts
    }
}

} // verus!
