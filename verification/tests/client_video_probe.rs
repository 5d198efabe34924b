use rabbit_infra::client_video_probe::{
    ClientDecodeProbeQueue, ClientVideoFrameProbe, ClientVideoProbeClock, ClientVideoProbeReporter,
    ClientVideoRecordOutcome,
};
use rabbit_infra::geometry::ScreenId;

const MS: u64 = 1_000_000;
const SECOND: u64 = 1_000 * MS;

fn completed_probe(start: u64) -> ClientVideoFrameProbe {
    let mut probe = ClientVideoFrameProbe::new(7, 3, 1_800, start);
    probe.timestamps.decoder_entered = Some(start + 2 * MS);
    probe.timestamps.decoder_completed = Some(start + 5 * MS);
    probe.timestamps.gui_received = Some(start + 10 * MS);
    probe.timestamps.dma_buf_import_started = Some(start + 17 * MS);
    probe.timestamps.dma_buf_import_completed = Some(start + 28 * MS);
    probe.timestamps.render_started = Some(start + 41 * MS);
    probe.timestamps.render_completed = Some(start + 58 * MS);
    probe
}

#[test]
fn assigns_monotonic_client_frame_ids() {
    let mut clock = ClientVideoProbeClock::default();

    let first = clock.frame(2, 1_200, 5 * SECOND);
    let second = clock.frame(3, 1_800, 5 * SECOND + MS);

    assert_eq!(first.frame_id, 0);
    assert_eq!(second.frame_id, 1);
    assert_eq!(second.rtp_packets, 3);
    assert_eq!(second.rtp_bytes, 1_800);
}

#[test]
fn calculates_complete_client_video_stage_timings() {
    let start = 10 * SECOND;
    let probe = completed_probe(start);

    let timings = probe
        .finish()
        .expect("A complete client video probe should produce timings");

    assert_eq!(timings.decoder_queue, 2 * MS);
    assert_eq!(timings.decode, 3 * MS);
    assert_eq!(timings.presentation_queue, 5 * MS);
    assert_eq!(timings.dma_buf_import_queue, 7 * MS);
    assert_eq!(timings.dma_buf_import, 11 * MS);
    assert_eq!(timings.render_queue, 13 * MS);
    assert_eq!(timings.render, 17 * MS);
    assert_eq!(timings.client_latency, 58 * MS);
}

#[test]
fn rejects_an_incomplete_client_video_probe() {
    let probe = ClientVideoFrameProbe::new(0, 1, 600, 10 * SECOND);

    assert_eq!(probe.finish().err(), Some("decoder_entered"));
}

#[test]
fn reporter_accumulates_completed_client_frames() {
    let now = 10 * SECOND;
    let start = now - 100 * MS;
    let mut reporter = ClientVideoProbeReporter::new(2 * SECOND);

    reporter.record_frame(ScreenId(2), completed_probe(start), now);

    assert_eq!(reporter.frames, 1);
    assert_eq!(reporter.rtp_packets, 3);
    assert_eq!(reporter.rtp_bytes, 1_800);
    assert_eq!(reporter.totals.decode, 3 * MS as u128);
    assert_eq!(reporter.totals.client_latency, 58 * MS as u128);
}

#[test]
fn finishing_a_client_video_probe_window_resets_its_start() {
    let now = 10 * SECOND;
    let start = now - 100 * MS;
    let mut reporter = ClientVideoProbeReporter::new(2 * SECOND);
    reporter.record_frame(ScreenId(2), completed_probe(start), now);

    reporter.finish(now);

    assert!(reporter.window_started.is_none());
    assert_eq!(reporter.frames, 0);
}

#[test]
fn reports_after_the_configured_client_video_interval() {
    let now = 10 * SECOND;
    let start = now - 100 * MS;
    let mut reporter = ClientVideoProbeReporter::new(50 * MS);
    reporter.record_frame(ScreenId(2), completed_probe(start), now);
    reporter.window_started = Some(now - 100 * MS);

    reporter.record_frame(ScreenId(2), completed_probe(start), now);

    assert_eq!(reporter.frames, 0);
}

#[test]
fn an_incomplete_probe_leaves_the_reporter_unchanged() {
    let mut reporter = ClientVideoProbeReporter::new(2 * SECOND);
    let before = reporter.frames;

    let outcome = reporter.record_frame(ScreenId(4), ClientVideoFrameProbe::new(9, 1, 10, SECOND), SECOND);

    assert!(matches!(
        outcome,
        ClientVideoRecordOutcome::Incomplete { frame_id: 9, missing_stage: "decoder_entered", .. }
    ));
    assert_eq!(reporter.frames, before);
    assert!(reporter.window_started.is_none());
}

#[test]
fn a_due_window_is_reported_with_its_totals() {
    let now = 10 * SECOND;
    let mut reporter = ClientVideoProbeReporter::new(50 * MS);
    reporter.record_frame(ScreenId(1), completed_probe(now - 100 * MS), now - 60 * MS);

    let outcome = reporter.record_frame(ScreenId(1), completed_probe(now - 100 * MS), now);

    match outcome {
        ClientVideoRecordOutcome::Recorded { report: Some(report), .. } => {
            assert_eq!(report.frames, 2);
            assert_eq!(report.rtp_packets, 6);
            assert_eq!(report.rtp_bytes, 3_600);
            assert_eq!(report.window_ns, 60 * MS);
            assert_eq!(report.totals.client_latency, 116 * MS as u128);
            assert!(!report.partial);
        }
        other => panic!("expected a window report, got {other:?}"),
    }
}

#[test]
fn moves_a_client_probe_through_decoder_pads() {
    let mut queue = ClientDecodeProbeQueue::new();

    queue.submit_frame(2, 1_200, 100);
    assert!(queue.decoder_entered(150));
    let completed = queue.decoder_completed(400).expect("The client decode probe should leave the decoder with its frame");

    assert_eq!(completed.frame_id(), 0);
    assert!(completed.timestamps.decoder_entered.is_some());
    assert!(completed.timestamps.decoder_completed.is_some());
    assert_eq!(completed.timestamps.decoder_entered, Some(150));
    assert_eq!(completed.timestamps.decoder_completed, Some(400));
}

#[test]
fn decoder_buffers_without_a_probe_are_reported() {
    let mut queue = ClientDecodeProbeQueue::new();
    assert!(!queue.decoder_entered(1));
    assert!(queue.decoder_completed(2).is_none());

    queue.submit_frame(1, 10, 5);
    queue.submit_frame(1, 20, 6);
    assert!(queue.decoder_entered(7));
    assert!(queue.decoder_entered(8));
    assert_eq!(queue.decoder_completed(9).map(|probe| probe.frame_id()), Some(0));
    assert_eq!(queue.decoder_completed(10).map(|probe| probe.rtp_bytes), Some(20));
}
