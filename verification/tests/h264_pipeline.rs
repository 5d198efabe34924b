use rabbit_infra::geometry::FrameRate;
use rabbit_infra::h264_pipeline::{
    configure_low_latency_encoder, configure_recording_encoder, frame_duration_ns, h264_decoder_pipeline,
    h264_encoder_pipeline, h264_input_kind, h264_recorder_pipeline, is_hardware_video_decoder,
    is_hardware_video_encoder, is_nv12_dmabuf_input_caps, is_xrgb_dmabuf_input_caps, recording_key_int_max,
    recording_pts, rtp_mtu, select_h264_profile, CapsRole, ElementSetting, FrameDurationError, H264InputKind,
    InputCapsSummary, RecordedFrameTiming, RecordingClock, RecordingError, RtpMtuError, SettingValue,
    StageElement,
};
use rabbit_infra::dma_buf::DmaBufInputSignature;
use rabbit_infra::geometry::PixelSize;

fn caps(drm_format: &str) -> InputCapsSummary {
    InputCapsSummary {
        structure_count: 1,
        fixed: true,
        dma_buf_memory: true,
        format: Some(String::from("DMA_DRM")),
        drm_format: Some(String::from(drm_format)),
    }
}

fn setting(element: &'static str, property: &'static str, value: SettingValue) -> ElementSetting {
    ElementSetting { element, property, value }
}

#[test]
fn rejects_rtp_packet_size_below_payloader_minimum() {
    assert_eq!(rtp_mtu(27), Err(RtpMtuError::TooSmall { size: 27 }));
    assert_eq!(rtp_mtu(28), Ok(28));
    assert_eq!(rtp_mtu(1_200), Ok(1_200));
    assert_eq!(rtp_mtu(u32::MAX as usize + 1), Err(RtpMtuError::TooLarge { size: u32::MAX as usize + 1 }));
}

#[test]
fn vaapi_encoders_get_low_latency_settings() {
    let settings = configure_low_latency_encoder("vah264enc", true);
    assert_eq!(
        settings,
        vec![
            setting("h264-encoder", "b-frames", SettingValue::UInt(0)),
            setting("h264-encoder", "ref-frames", SettingValue::UInt(1)),
            setting("h264-encoder", "target-usage", SettingValue::UInt(7)),
            setting("h264-encoder", "mbbrc", SettingValue::Choice("disabled")),
            setting("h264-encoder", "rate-control", SettingValue::Choice("cbr")),
            setting("h264-encoder", "bitrate", SettingValue::UInt(50_000)),
            setting("h264-encoder", "cpb-size", SettingValue::UInt(5_000)),
            setting("h264-encoder", "key-int-max", SettingValue::UInt(1_024)),
        ]
    );
    assert_eq!(configure_low_latency_encoder("vah264enc", false).len(), 7);
    assert!(configure_low_latency_encoder("nvh264enc", true).is_empty());
    assert!(configure_low_latency_encoder("v", true).is_empty());
}

#[test]
fn recording_settings_favor_quality_and_scale_the_key_interval() {
    let rate = FrameRate::new(144, 1).unwrap();
    let settings = configure_recording_encoder("vah264lpenc", false, true, rate);
    assert_eq!(
        settings,
        vec![
            setting("h264-encoder", "b-frames", SettingValue::UInt(0)),
            setting("h264-encoder", "ref-frames", SettingValue::UInt(2)),
            setting("h264-encoder", "target-usage", SettingValue::UInt(4)),
            setting("h264-encoder", "rate-control", SettingValue::Choice("vbr")),
            setting("h264-encoder", "bitrate", SettingValue::UInt(80_000)),
            setting("h264-encoder", "target-percentage", SettingValue::UInt(95)),
            setting("h264-encoder", "cpb-size", SettingValue::UInt(40_000)),
            setting("h264-encoder", "key-int-max", SettingValue::UInt(288)),
        ]
    );
    assert!(configure_recording_encoder("x264enc", true, true, rate).is_empty());
    assert_eq!(recording_key_int_max(FrameRate::new(60, 1).unwrap()), 120);
    assert_eq!(recording_key_int_max(FrameRate::new(10, 1).unwrap()), 30);
    assert_eq!(recording_key_int_max(FrameRate::new(240, 1).unwrap()), 288);
    assert_eq!(recording_key_int_max(FrameRate::new(60_000, 1_001).unwrap()), 119);
    assert_eq!(recording_key_int_max(FrameRate { numerator: 60, denominator: 0 }), 120);
}

#[test]
fn frame_durations_round_down_to_nanoseconds() {
    assert_eq!(frame_duration_ns(FrameRate::new(60, 1).unwrap()), Ok(16_666_666));
    assert_eq!(frame_duration_ns(FrameRate::new(30_000, 1_001).unwrap()), Ok(33_366_666));
    assert_eq!(frame_duration_ns(FrameRate { numerator: 0, denominator: 1 }), Err(FrameDurationError::InvalidFrameRate));
    assert_eq!(frame_duration_ns(FrameRate::new(u32::MAX, 1).unwrap()), Err(FrameDurationError::ZeroDuration));
    assert_eq!(recording_pts(16_666_666, 3), Some(49_999_998));
    assert_eq!(recording_pts(u64::MAX, 2), None);
}

#[test]
fn hardware_elements_are_recognized_by_their_classification() {
    assert!(is_hardware_video_encoder(Some("Codec/Encoder/Video/Hardware")));
    assert!(!is_hardware_video_encoder(Some("Codec/Encoder/Video")));
    assert!(!is_hardware_video_encoder(Some("Codec/Encoder/VideoX/Hardware")));
    assert!(!is_hardware_video_encoder(None));
    assert!(is_hardware_video_decoder(Some("Hardware/Video/Decoder")));
    assert!(!is_hardware_video_decoder(Some("Codec/Encoder/Video/Hardware")));
    assert!(!is_hardware_video_decoder(Some("Codec/Decoder/Video/Hardwares")));
}

#[test]
fn rejects_p010_dmabuf_input() {
    assert_eq!(h264_input_kind(&caps("P010")), None);
    assert_eq!(h264_input_kind(&caps("NV12")), Some(H264InputKind::Nv12));
    assert_eq!(h264_input_kind(&caps("NV12:0x0100000000000002")), Some(H264InputKind::Nv12));
    assert_eq!(h264_input_kind(&caps("XR24")), Some(H264InputKind::Xrgb));
    assert!(!is_nv12_dmabuf_input_caps(&caps("NV120")));
    assert!(is_xrgb_dmabuf_input_caps(&caps("XR24:0x0")));
}

#[test]
fn rejects_system_memory_video_frames() {
    let mut system_memory = caps("NV12");
    system_memory.dma_buf_memory = false;
    assert!(!is_nv12_dmabuf_input_caps(&system_memory));

    let mut unfixed = caps("NV12");
    unfixed.fixed = false;
    assert!(!is_nv12_dmabuf_input_caps(&unfixed));

    let mut raw_format = caps("NV12");
    raw_format.format = Some(String::from("NV12"));
    assert!(!is_nv12_dmabuf_input_caps(&raw_format));
}

#[test]
fn the_most_preferred_supported_profile_is_selected() {
    assert_eq!(select_h264_profile([true, true, true, true]).unwrap().name, "high");
    let constrained = select_h264_profile([false, false, true, true]).unwrap();
    assert_eq!((constrained.name, constrained.caps_profile), ("baseline", "constrained-baseline"));
    assert_eq!(select_h264_profile([false, false, false, true]).unwrap().caps_profile, "baseline");
    assert!(select_h264_profile([false; 4]).is_none());
}

#[test]
fn creates_a_hardware_h264_rtp_pipeline_for_nv12_dmabuf_input() {
    let plan = h264_encoder_pipeline(H264InputKind::Nv12, 1_200);
    let names: Vec<&str> = plan.stages.iter().map(|stage| stage.name).collect();
    assert_eq!(
        names,
        vec!["video-input", "h264-encoder", "h264-profile", "encoded-output-queue", "h264-parser", "rtp-payloader", "rtp-output"]
    );
    assert_eq!(plan.stages[1].element, StageElement::HardwareEncoder);
    assert!(plan.settings.contains(&setting("rtp-payloader", "mtu", SettingValue::UInt(1_200))));
    assert!(plan.settings.contains(&setting("rtp-output", "caps", SettingValue::Caps(CapsRole::Rtp))));
    assert!(!plan.settings.iter().any(|s| s.element == "processed-frame-queue"));
}

#[test]
fn xrgb_input_is_converted_by_the_video_postprocessor() {
    let plan = h264_encoder_pipeline(H264InputKind::Xrgb, 1_200);
    let names: Vec<&str> = plan.stages.iter().map(|stage| stage.name).collect();
    assert_eq!(&names[..5], &["video-input", "video-postprocessor", "video-postprocessor-output", "processed-frame-queue", "h264-encoder"]);
    assert!(plan.settings.contains(&setting("processed-frame-queue", "leaky", SettingValue::Choice("downstream"))));
}

#[test]
fn recording_pipelines_never_drop_frames() {
    let plan = h264_recorder_pipeline(H264InputKind::Xrgb, true, false);
    let names: Vec<&str> = plan.stages.iter().map(|stage| stage.name).collect();
    assert_eq!(
        names,
        vec!["video-input", "video-postprocessor", "video-postprocessor-output", "processed-frame-queue", "h264-encoder", "encoded-output-queue", "h264-parser", "mp4-mux", "file-output"]
    );
    assert!(plan.settings.contains(&setting("video-input", "leaky-type", SettingValue::Choice("none"))));
    assert!(plan.settings.contains(&setting("video-input", "block", SettingValue::Bool(true))));
    assert!(plan.settings.contains(&setting("mp4-mux", "fragment-duration", SettingValue::UInt(0))));
    assert!(!plan.settings.iter().any(|s| s.property == "streamable"));
    assert!(!plan.settings.iter().any(|s| s.property == "leaky"));
}

#[test]
fn decoding_pipeline_keeps_only_the_newest_frame() {
    let plan = h264_decoder_pipeline();
    let names: Vec<&str> = plan.stages.iter().map(|stage| stage.name).collect();
    assert_eq!(names, vec!["rtp-input", "rtp-depayloader", "h264-parser", "h264-decoder", "decoded-output"]);
    assert_eq!(plan.stages[3].element, StageElement::HardwareDecoder);
    assert!(plan.settings.contains(&setting("decoded-output", "drop", SettingValue::Bool(true))));
    assert!(plan.settings.contains(&setting("decoded-output", "max-buffers", SettingValue::UInt(1))));
}

fn recording_signature(width: u32) -> DmaBufInputSignature {
    DmaBufInputSignature {
        size: PixelSize { width, height: 1080 },
        format: 0x3432_5258,
        modifier: 0,
        frame_rate: FrameRate { numerator: 30, denominator: 1 },
    }
}

#[test]
fn recorder_stamps_frames_and_refuses_changed_input() {
    let rate = FrameRate { numerator: 30, denominator: 1 };
    let mut clock = RecordingClock::new(rate, recording_signature(1920), 33_333_333);
    assert_eq!(clock.check_source_frame_rate(rate), Ok(()));
    assert_eq!(
        clock.check_source_frame_rate(FrameRate { numerator: 60, denominator: 1 }),
        Err(RecordingError::SourceFrameRateChanged)
    );
    assert_eq!(
        clock.frame_timing(recording_signature(1920)),
        Ok(RecordedFrameTiming { pts_ns: 0, duration_ns: 33_333_333 })
    );
    assert_eq!(clock.frame_timing(recording_signature(1280)), Err(RecordingError::InputChanged));
    assert_eq!(clock.frame_submitted(), Ok(()));
    assert_eq!(clock.frame_submitted(), Ok(()));
    assert_eq!(
        clock.frame_timing(recording_signature(1920)),
        Ok(RecordedFrameTiming { pts_ns: 66_666_666, duration_ns: 33_333_333 })
    );
}

#[test]
fn recorder_reports_counter_and_timestamp_overflow() {
    let rate = FrameRate { numerator: 30, denominator: 1 };
    let mut clock = RecordingClock::new(rate, recording_signature(1920), 33_333_333);
    clock.next_frame_index = u64::MAX / 2;
    assert_eq!(clock.frame_timing(recording_signature(1920)), Err(RecordingError::PtsOverflow));
    clock.next_frame_index = u64::MAX;
    assert_eq!(clock.frame_submitted(), Err(RecordingError::FrameIndexOverflow));
    assert_eq!(clock.next_frame_index, u64::MAX);
}

#[test]
fn classification_matches_whole_components_only() {
    assert!(is_hardware_video_decoder(Some("Codec/Decoder/Video/Hardware")));
    assert!(!is_hardware_video_decoder(Some("Codec/Decoder/Video")));
    assert!(!is_hardware_video_decoder(Some("Codec/Decoder/VideoHardware")));
    assert!(is_hardware_video_encoder(Some("Hardware/Encoder/Codec/Video")));
    assert!(!is_hardware_video_encoder(Some("")));
}
