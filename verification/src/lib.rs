//! Packet-acquisition front-end for a media-processing pipeline.
//!
//! The crate buffers fixed-size transport packets arriving from a
//! multicast network feed or a local resource, and supervises the
//! open/read lifecycle of each input so that a flaky feed is retried
//! forever without operator intervention.

pub mod compression_standard;
pub mod endpoint;
pub mod error;
pub mod input;
pub mod mediacontainer;
pub mod opt;
pub mod packet;
pub mod queue;
pub mod source;
