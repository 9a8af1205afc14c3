use va_tool::compression_standard::{CompressionStandard, Video};
use va_tool::endpoint::Endpoint;
use va_tool::mediacontainer::Mediacontainer;

#[test]
fn every_endpoint_is_a_transport_stream_today() {
    let e = Endpoint::new(None, None);
    assert_eq!(Mediacontainer::from_endpoint(&e), Mediacontainer::Ts);
    let e = Endpoint::new(None, Some(5500));
    assert_eq!(Mediacontainer::from_endpoint(&e), Mediacontainer::Ts);
}

#[test]
fn containers_are_distinguished() {
    assert_ne!(Mediacontainer::Ts, Mediacontainer::WebM);
    assert_ne!(
        Mediacontainer::Mp4 { fragmented: true },
        Mediacontainer::Mp4 { fragmented: false }
    );
}

#[test]
fn compression_standards_are_distinguished() {
    assert_ne!(Video::Mpeg2, Video::H264);
    assert_eq!(Video::AV1, Video::AV1);
    assert_ne!(CompressionStandard::Video, CompressionStandard::Audio);
    assert_eq!(CompressionStandard::Cc, CompressionStandard::Cc);
}
