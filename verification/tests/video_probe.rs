use rabbit_infra::video_probe::{
    duration_ns, VideoCaptureTiming, VideoProbeClock, VideoProbeReporter, VideoRecordOutcome, REPORT_WINDOW_NS,
};

fn probed_frame(clock: &mut VideoProbeClock, start: u64, with_vpp: bool) -> rabbit_infra::video_probe::VideoFrameProbe {
    let mut probe = clock.frame(VideoCaptureTiming {
        vblank_wait_started: start,
        capture_started: start + 10,
        capture_completed: start + 30,
    });
    probe.mark_gpu_received(start + 40);
    probe.mark_gpu_submitted(start + 70);
    probe.mark_pipeline_ready(start + 100);
    probe.mark_encoder_submitted(start + 110);
    if with_vpp {
        probe.mark_vpp_entered(start + 120);
        probe.mark_vpp_completed(start + 150);
    }
    probe.mark_encoder_entered(start + 160);
    probe.mark_encoder_completed(Some(start + 200));
    probe
}

#[test]
fn host_frame_timings_cover_every_stage() {
    let mut clock = VideoProbeClock::new(1_000);
    let probe = probed_frame(&mut clock, 1_000, true);
    assert_eq!(probe.frame_id(), 0);
    assert_eq!(probe.pts_ns(), 10);

    let timings = probe.finish(1_250).expect("a complete probe has timings");
    assert_eq!(timings.vblank_wait, 10);
    assert_eq!(timings.capture, 20);
    assert_eq!(timings.capture_queue, 10);
    assert_eq!(timings.gpu_process, 30);
    assert_eq!(timings.gpu_fence, 30);
    assert_eq!(timings.encoder_queue, 10);
    assert_eq!(timings.vpp_queue, 10);
    assert_eq!(timings.vpp, 30);
    assert_eq!(timings.encode_queue, 10);
    assert_eq!(timings.encode, 40);
    assert_eq!(timings.rtp_packetize, 50);
    assert_eq!(timings.host_latency, 240);

    let second = probed_frame(&mut clock, 2_000, false);
    assert_eq!(second.frame_id(), 1);
    let timings = second.finish(2_200).unwrap();
    assert_eq!(timings.vpp_queue, 0);
    assert_eq!(timings.vpp, 0);
    assert_eq!(timings.encode_queue, 50);
}

#[test]
fn incomplete_host_probes_name_their_missing_stage() {
    let mut clock = VideoProbeClock::new(0);
    let mut probe = clock.frame(VideoCaptureTiming { vblank_wait_started: 0, capture_started: 1, capture_completed: 2 });
    assert_eq!(probe.finish(5), Err("gpu_received"));
    probe.mark_gpu_received(3);
    probe.mark_gpu_submitted(4);
    probe.mark_pipeline_ready(5);
    probe.mark_encoder_submitted(6);
    probe.mark_vpp_entered(7);
    assert_eq!(probe.finish(9), Err("vpp_completed"));
}

#[test]
fn host_reporter_closes_a_window_after_two_seconds() {
    let mut clock = VideoProbeClock::new(0);
    let mut reporter = VideoProbeReporter::default();

    match reporter.record_frame(probed_frame(&mut clock, 0, false), 3, 3_000, 300) {
        VideoRecordOutcome::Recorded { frame_id, report, .. } => {
            assert_eq!(frame_id, 0);
            assert!(report.is_none());
        },
        other => panic!("unexpected outcome {other:?}"),
    }
    let late = REPORT_WINDOW_NS + 300;
    match reporter.record_frame(probed_frame(&mut clock, late - 300, false), 2, 1_000, late) {
        VideoRecordOutcome::Recorded { report: Some(report), .. } => {
            assert!(!report.partial);
            assert_eq!(report.frames, 2);
            assert_eq!(report.rtp_packets, 5);
            assert_eq!(report.rtp_bytes, 4_000);
            assert_eq!(report.window_ns, REPORT_WINDOW_NS);
        },
        other => panic!("unexpected outcome {other:?}"),
    }
    assert_eq!(reporter.frames, 0);
    assert_eq!(reporter.finish(late + 1), None);
    assert_eq!(duration_ns(u128::from(u64::MAX) + 1), u64::MAX);
    assert_eq!(duration_ns(42), 42);
}
