use bytes::Bytes;
use rabbit_infra::rtp_packet::{buffer_pts, rtp_marker, AccessUnitBatcher, GStreamerRtpPacket, RtpPacketError};

fn packet(marker: bool, len: usize) -> Vec<u8> {
    let mut bytes = vec![0u8; len];
    bytes[0] = 0x80;
    bytes[1] = if marker { 0x80 | 96 } else { 96 };
    bytes
}

#[test]
fn accepts_h264_rtp_packet_samples() {
    let frame_end = GStreamerRtpPacket::from_payload(Bytes::from(packet(true, 20)), Some(42)).unwrap();
    assert!(frame_end.is_frame_end());
    assert_eq!(frame_end.pts_ns(), Some(42));
    assert_eq!(frame_end.payload_len(), 20);
    assert_eq!(frame_end.into_payload().len(), 20);

    let middle = GStreamerRtpPacket::from_payload(Bytes::from(packet(false, 12)), None).unwrap();
    assert!(!middle.is_frame_end());
}

#[test]
fn rejects_non_rtp_packet_bytes() {
    assert_eq!(rtp_marker(&[0x80; 11]), Err(RtpPacketError::ShorterThanHeader { len: 11 }));
    let mut version_one = packet(true, 12);
    version_one[0] = 0x40;
    assert_eq!(rtp_marker(&version_one), Err(RtpPacketError::UnsupportedVersion { version: 1 }));
    assert!(GStreamerRtpPacket::from_payload(Bytes::from(version_one), None).is_err());
}

#[test]
fn packets_are_sent_one_frame_at_a_time() {
    let mut batcher = AccessUnitBatcher::new();

    assert_eq!(batcher.push(1, false), None);
    assert_eq!(batcher.push(2, false), None);
    assert_eq!(batcher.push(3, true), Some(vec![1, 2, 3]));
    assert_eq!(batcher.incomplete_len(), 0);
    assert_eq!(batcher.push(4, true), Some(vec![4]));
    assert_eq!(batcher.push(5, false), None);
    assert_eq!(batcher.incomplete_len(), 1);
}

#[test]
fn probe_timestamps_come_from_the_buffer() {
    assert_eq!(buffer_pts(Some(Some(7))), Some(7));
    assert_eq!(buffer_pts(Some(None)), None);
    assert_eq!(buffer_pts(None), None);
}
