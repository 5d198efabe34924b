use rabbit_infra::encoder_probe::{EncoderProbeTracker, PacketOutcome, VideoProbeEvent};
use rabbit_infra::video_probe::{VideoCaptureTiming, VideoProbeClock};

fn probe_at(clock: &mut VideoProbeClock, capture_started: u64) -> rabbit_infra::video_probe::VideoFrameProbe {
    clock.frame(VideoCaptureTiming {
        vblank_wait_started: capture_started - 5,
        capture_started,
        capture_completed: capture_started + 5,
    })
}

#[test]
fn encoded_frame_is_matched_with_the_probe_that_entered_first() {
    let mut clock = VideoProbeClock::new(0);
    let mut tracker = EncoderProbeTracker::new();
    let first = probe_at(&mut clock, 1_000);
    tracker.submit_frame(first, 1_100);

    tracker.apply_event(VideoProbeEvent::PipelineInput { pts_ns: 1_000 });
    tracker.apply_event(VideoProbeEvent::VppEntered { pts_ns: 1_000, at: 1_200 });
    tracker.apply_event(VideoProbeEvent::VppCompleted { pts_ns: 1_000, at: 1_300 });
    tracker.apply_event(VideoProbeEvent::EncoderEntered { pts_ns: 1_000, at: 1_400 });
    // The encoder may rewrite timestamps; its output is matched by order.
    tracker.apply_event(VideoProbeEvent::EncoderCompleted { pts_ns: 77, at: 1_500 });

    assert_eq!(tracker.record_packet(Some(77), 1_200, false), PacketOutcome::FrameContinues);
    match tracker.record_packet(Some(77), 300, true) {
        PacketOutcome::FrameEncoded { probe, rtp_packets, rtp_bytes } => {
            assert_eq!(probe.frame_id, 0);
            assert_eq!(probe.timestamps.encoder_submitted, Some(1_100));
            assert_eq!(probe.timestamps.vpp_entered, Some(1_200));
            assert_eq!(probe.timestamps.vpp_completed, Some(1_300));
            assert_eq!(probe.timestamps.encoder_entered, Some(1_400));
            assert_eq!(probe.timestamps.encoder_completed, Some(1_500));
            assert_eq!(rtp_packets, 2);
            assert_eq!(rtp_bytes, 1_500);
        },
        other => panic!("unexpected outcome {other:?}"),
    }
    assert!(tracker.encoded_order.is_empty());
    assert!(tracker.pending_rtp.is_empty());
}

#[test]
fn a_frame_entering_the_pipeline_drops_earlier_waiting_probes() {
    let mut clock = VideoProbeClock::new(0);
    let mut tracker = EncoderProbeTracker::new();
    tracker.submit_frame(probe_at(&mut clock, 100), 1);
    tracker.submit_frame(probe_at(&mut clock, 200), 2);
    tracker.submit_frame(probe_at(&mut clock, 300), 3);

    tracker.apply_event(VideoProbeEvent::PipelineInput { pts_ns: 200 });

    let waiting: Vec<u64> = tracker.submitted.iter().map(|probe| probe.pts_ns).collect();
    assert_eq!(waiting, vec![300]);
    assert_eq!(tracker.encoded_order, vec![200]);
    assert!(tracker.encoding.contains_key(&200));
    assert!(!tracker.encoding.contains_key(&100));
}

#[test]
fn unmatched_packets_are_reported() {
    let mut tracker = EncoderProbeTracker::new();
    assert_eq!(tracker.record_packet(None, 10, true), PacketOutcome::MissingPts);
    assert_eq!(tracker.record_packet(Some(9), 10, true), PacketOutcome::MissingInputOrder { output_pts_ns: 9 });

    // A frame without a submitted probe enters: no order entry is made.
    tracker.apply_event(VideoProbeEvent::PipelineInput { pts_ns: 5 });
    assert!(tracker.encoded_order.is_empty());

    let mut clock = VideoProbeClock::new(0);
    tracker.submit_frame(probe_at(&mut clock, 50), 51);
    tracker.apply_event(VideoProbeEvent::PipelineInput { pts_ns: 50 });
    tracker.encoding.clear();
    assert_eq!(
        tracker.record_packet(Some(50), 10, true),
        PacketOutcome::MissingProbe { input_pts_ns: 50, output_pts_ns: 50 }
    );
}
