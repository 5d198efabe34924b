use rabbit_infra::stream_drive::{
    DecoderDrive, DecoderDriveAction, DecoderDriveEvent, DriveSources, EncoderDrive, EncoderDriveAction,
    EncoderDriveEvent, RecorderDrive, RecorderDriveAction, RecorderDriveEvent, bind_decoder_screen, rtp_payload_total,
    DecoderScreenMismatch,
};
use rabbit_infra::geometry::ScreenId;

#[test]
fn empty_decoder_accepts_its_platform_boundary() {
    let mut drive = DecoderDrive::new();
    assert_eq!(drive.sources(), DriveSources::Inputs);

    // No input ever arrives: the loop ends cleanly without a pipeline.
    assert_eq!(drive.step(DecoderDriveEvent::InputsEnded), DecoderDriveAction::Stop);
    assert!(!drive.started);
    assert_eq!(drive.sources(), DriveSources::Nothing);
}

#[test]
fn decoder_drains_its_frames_after_the_input_ends() {
    let mut drive = DecoderDrive::new();
    assert_eq!(drive.step(DecoderDriveEvent::Input), DecoderDriveAction::StartPipeline);
    assert_eq!(drive.sources(), DriveSources::InputsAndOutputs);
    assert_eq!(drive.step(DecoderDriveEvent::Input), DecoderDriveAction::SubmitInput);
    assert_eq!(drive.step(DecoderDriveEvent::Decoded), DecoderDriveAction::PresentFrame);
    assert_eq!(drive.step(DecoderDriveEvent::InputsEnded), DecoderDriveAction::FinishInput);
    assert_eq!(drive.sources(), DriveSources::Outputs);
    assert_eq!(drive.step(DecoderDriveEvent::Input), DecoderDriveAction::Wait);
    assert_eq!(drive.step(DecoderDriveEvent::Decoded), DecoderDriveAction::PresentFrame);
    assert_eq!(drive.step(DecoderDriveEvent::DecodedEnded), DecoderDriveAction::Stop);
    assert_eq!(drive.step(DecoderDriveEvent::Decoded), DecoderDriveAction::Wait);
}

#[test]
fn decoder_failures_end_the_loop() {
    let mut drive = DecoderDrive::new();
    assert_eq!(drive.step(DecoderDriveEvent::InputFailed), DecoderDriveAction::Fail);
    assert!(drive.ended);

    let mut drive = DecoderDrive::new();
    drive.step(DecoderDriveEvent::Input);
    assert_eq!(drive.step(DecoderDriveEvent::DecodeFailed), DecoderDriveAction::Fail);
    assert_eq!(drive.sources(), DriveSources::Nothing);
}

#[test]
fn encoder_starts_from_the_first_frame_and_follows_commands() {
    let mut drive = EncoderDrive::new();
    assert_eq!(drive.sources(), DriveSources::Inputs);
    assert_eq!(drive.step(EncoderDriveEvent::KeyFrameRequested), EncoderDriveAction::Wait);
    assert_eq!(drive.step(EncoderDriveEvent::Frame), EncoderDriveAction::StartPipeline);
    assert_eq!(drive.sources(), DriveSources::InputsCommandsAndOutputs);
    assert_eq!(drive.step(EncoderDriveEvent::Frame), EncoderDriveAction::SubmitFrame);
    assert_eq!(drive.step(EncoderDriveEvent::KeyFrameRequested), EncoderDriveAction::RequestKeyFrame);
    assert_eq!(
        drive.step(EncoderDriveEvent::BitrateChanged { bits_per_second: 8_000_000 }),
        EncoderDriveAction::SetBitrate { bits_per_second: 8_000_000 }
    );
    assert_eq!(drive.step(EncoderDriveEvent::Packet), EncoderDriveAction::SendPacket);
    assert_eq!(drive.step(EncoderDriveEvent::CommandsEnded), EncoderDriveAction::Wait);
    assert_eq!(drive.sources(), DriveSources::InputsAndOutputs);
    assert_eq!(drive.step(EncoderDriveEvent::FramesEnded), EncoderDriveAction::FinishInput);
    assert_eq!(drive.sources(), DriveSources::Outputs);
    assert_eq!(drive.step(EncoderDriveEvent::Packet), EncoderDriveAction::SendPacket);
    assert_eq!(drive.step(EncoderDriveEvent::PacketsEnded), EncoderDriveAction::Stop);
    assert_eq!(drive.sources(), DriveSources::Nothing);
}

#[test]
fn encoder_without_frames_ends_cleanly() {
    let mut drive = EncoderDrive::new();
    assert_eq!(drive.step(EncoderDriveEvent::FramesEnded), EncoderDriveAction::Stop);
    assert!(!drive.started);

    let mut drive = EncoderDrive::new();
    drive.step(EncoderDriveEvent::Frame);
    assert_eq!(drive.step(EncoderDriveEvent::PacketFailed), EncoderDriveAction::Fail);
    assert_eq!(drive.step(EncoderDriveEvent::Frame), EncoderDriveAction::Wait);
}

#[test]
fn recording_needs_a_first_frame_and_stops_on_request() {
    let mut drive = RecorderDrive::new();
    assert_eq!(drive.step(RecorderDriveEvent::Cancelled), RecorderDriveAction::Wait);
    assert_eq!(drive.step(RecorderDriveEvent::FramesEnded), RecorderDriveAction::FailWithoutFrames);

    let mut drive = RecorderDrive::new();
    assert_eq!(drive.step(RecorderDriveEvent::Frame), RecorderDriveAction::StartPipeline);
    assert_eq!(drive.sources(), DriveSources::InputsCommandsAndOutputs);
    assert_eq!(drive.step(RecorderDriveEvent::Frame), RecorderDriveAction::SubmitFrame);
    assert_eq!(drive.step(RecorderDriveEvent::Cancelled), RecorderDriveAction::Stop);
    assert_eq!(drive.step(RecorderDriveEvent::Frame), RecorderDriveAction::Wait);

    let mut drive = RecorderDrive::new();
    drive.step(RecorderDriveEvent::Frame);
    assert_eq!(drive.step(RecorderDriveEvent::PipelineFailed), RecorderDriveAction::Fail);
    assert_eq!(drive.sources(), DriveSources::Nothing);
}

#[test]
fn a_decoder_stays_with_the_screen_of_its_first_input() {
    assert_eq!(bind_decoder_screen(None, ScreenId(2)), Ok(ScreenId(2)));
    assert_eq!(bind_decoder_screen(Some(ScreenId(2)), ScreenId(2)), Ok(ScreenId(2)));
    assert_eq!(
        bind_decoder_screen(Some(ScreenId(2)), ScreenId(3)),
        Err(DecoderScreenMismatch { bound: ScreenId(2), input: ScreenId(3) })
    );
    assert_eq!(rtp_payload_total(&[1200, 1200, 300]), 2700);
    assert_eq!(rtp_payload_total(&[]), 0);
    assert_eq!(rtp_payload_total(&[usize::MAX, 5]), usize::MAX);
}
