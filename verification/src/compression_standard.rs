//! The compression standards the pipeline distinguishes.

use vstd::prelude::*;

verus! {

/// Video codecs.
#[derive(Debug, Eq, PartialEq, Structural)]
pub enum Video {
    Mpeg2,
    Mpeg4,
    H264,
    H265,
    Vp8,
    Vp9,
    AV1,
}

/// The broad classes of compressed elementary streams.
#[derive(Debug, Eq, PartialEq, Structural)]
pub enum CompressionStandard {
    Video,
    Audio,
    Image,
    Subtitle,
    Cc,
    Teletext,
}

} // verus!
