//! The event loops that drive the hardware encoder and decoder pipelines,
//! as state machines: what the loop waits for, and what it does with the
//! next event. The caller performs the actions (submitting frames, sending
//! packets, presenting decoded frames) and reports the next event.
use vstd::prelude::*;
use crate::geometry::ScreenId;

verus! {

/// The event sources a drive loop waits on.
#[derive(Debug, Clone, Copy, PartialEq, Eq)]
pub enum DriveSources {
    /// The loop ended.
    Nothing,
    /// Only the input stream: the pipeline is made from the first input.
    Inputs,
    /// Only the pipeline's output: its input has ended and it drains.
    Outputs,
    /// The input stream and the pipeline's output.
    InputsAndOutputs,
    /// The input stream, the command stream and the pipeline's output.
    InputsCommandsAndOutputs,
}

/// What the encoder loop observed.
#[derive(Debug, Clone, Copy, PartialEq, Eq)]
pub enum EncoderDriveEvent {
    Frame,
    FrameFailed,
    FramesEnded,
    KeyFrameRequested,
    BitrateChanged { bits_per_second: u64 },
    CommandsEnded,
    Packet,
    PacketFailed,
    PacketsEnded,
}

/// What the encoder loop does next.
#[derive(Debug, Clone, Copy, PartialEq, Eq)]
pub enum EncoderDriveAction {
    /// Wait for the next event.
    Wait,
    /// Build and start the pipeline for the first frame, which it encodes.
    StartPipeline,
    /// Prepare the frame and hand it to the pipeline.
    SubmitFrame,
    /// Signal the end of input to the pipeline; its remaining output drains.
    FinishInput,
    /// Ask the encoder for a key frame and submit the latest frame again.
    RequestKeyFrame,
    SetBitrate { bits_per_second: u64 },
    /// Add the packet to the current access unit; a complete unit is sent.
    SendPacket,
    /// End the loop with the error that was observed.
    Fail,
    /// End the loop; an incomplete access unit is dropped.
    Stop,
}

/// The encoder loop: whether frames and commands may still arrive, and
/// whether it ended.
#[derive(Debug, Clone, Copy, PartialEq, Eq)]
pub struct EncoderDrive {
    /// The pipeline exists: the first frame arrived.
    pub started: bool,
    pub input_open: bool,
    pub commands_open: bool,
    pub ended: bool,
}

/// The sources an encoder loop in state `d` waits on.
pub open spec fn spec_encoder_sources(d: EncoderDrive) -> DriveSources {
    if d.ended {
        DriveSources::Nothing
    } else if !d.started {
        DriveSources::Inputs
    } else if !d.input_open {
        DriveSources::Outputs
    } else if d.commands_open {
        DriveSources::InputsCommandsAndOutputs
    } else {
        DriveSources::InputsAndOutputs
    }
}

/// Whether the encoder loop in state `d` can observe `event`.
pub open spec fn spec_encoder_awaits(d: EncoderDrive, event: EncoderDriveEvent) -> bool {
    match event {
        EncoderDriveEvent::Packet | EncoderDriveEvent::PacketFailed | EncoderDriveEvent::PacketsEnded => !d.ended
            && d.started,
        EncoderDriveEvent::Frame | EncoderDriveEvent::FrameFailed | EncoderDriveEvent::FramesEnded => !d.ended
            && d.input_open,
        _ => !d.ended && d.started && d.input_open && d.commands_open,
    }
}

impl EncoderDrive {
    pub fn new() -> (d: Self)
        ensures
            d == (EncoderDrive { started: false, input_open: true, commands_open: true, ended: false }),
    {
        EncoderDrive { started: false, input_open: true, commands_open: true, ended: false }
    }

    /// The sources to wait on; see `spec_encoder_sources`.
    pub fn sources(&self) -> (s: DriveSources)
        ensures
            s == spec_encoder_sources(*self),
    {
        if self.ended {
            DriveSources::Nothing
        } else if !self.started {
            DriveSources::Inputs
        } else if !self.input_open {
            DriveSources::Outputs
        } else if self.commands_open {
            DriveSources::InputsCommandsAndOutputs
        } else {
            DriveSources::InputsAndOutputs
        }
    }

    /// Takes the next event. An event the loop does not wait on changes
    /// nothing.
    pub fn step(&mut self, event: EncoderDriveEvent) -> (action: EncoderDriveAction)
        ensures
            !spec_encoder_awaits(*old(self), event) ==> action == EncoderDriveAction::Wait && *final(self)
                == *old(self),
            spec_encoder_awaits(*old(self), event) && !old(self).started ==> match event {
                EncoderDriveEvent::Frame => action == EncoderDriveAction::StartPipeline && *final(self)
                    == (EncoderDrive { started: true, ..*old(self) }),
                EncoderDriveEvent::FrameFailed => action == EncoderDriveAction::Fail && *final(self)
                    == (EncoderDrive { ended: true, ..*old(self) }),
                _ => action == EncoderDriveAction::Stop && *final(self) == (EncoderDrive {
                    ended: true,
                    ..*old(self)
                }),
            },
            spec_encoder_awaits(*old(self), event) && old(self).started ==> match event {
                EncoderDriveEvent::Frame => action == EncoderDriveAction::SubmitFrame && *final(self)
                    == *old(self),
                EncoderDriveEvent::FrameFailed | EncoderDriveEvent::PacketFailed => action
                    == EncoderDriveAction::Fail && *final(self) == (EncoderDrive { ended: true, ..*old(self) }),
                EncoderDriveEvent::FramesEnded => action == EncoderDriveAction::FinishInput && *final(self)
                    == (EncoderDrive { input_open: false, ..*old(self) }),
                EncoderDriveEvent::KeyFrameRequested => action == EncoderDriveAction::RequestKeyFrame
                    && *final(self) == *old(self),
                EncoderDriveEvent::BitrateChanged { bits_per_second } => action
                    == (EncoderDriveAction::SetBitrate { bits_per_second }) && *final(self) == *old(self),
                EncoderDriveEvent::CommandsEnded => action == EncoderDriveAction::Wait && *final(self)
                    == (EncoderDrive { commands_open: false, ..*old(self) }),
                EncoderDriveEvent::Packet => action == EncoderDriveAction::SendPacket && *final(self)
                    == *old(self),
                EncoderDriveEvent::PacketsEnded => action == EncoderDriveAction::Stop && *final(self)
                    == (EncoderDrive { ended: true, ..*old(self) }),
            },
    {
        let awaited = match event {
            EncoderDriveEvent::Packet | EncoderDriveEvent::PacketFailed | EncoderDriveEvent::PacketsEnded => !self.ended
                && self.started,
            EncoderDriveEvent::Frame | EncoderDriveEvent::FrameFailed | EncoderDriveEvent::FramesEnded => !self.ended
                && self.input_open,
            _ => !self.ended && self.started && self.input_open && self.commands_open,
        };
        if !awaited {
            return EncoderDriveAction::Wait;
        }
        if !self.started {
            return match event {
                EncoderDriveEvent::Frame => {
                    self.started = true;
                    EncoderDriveAction::StartPipeline
                },
                EncoderDriveEvent::FrameFailed => {
                    self.ended = true;
                    EncoderDriveAction::Fail
                },
                _ => {
                    self.ended = true;
                    EncoderDriveAction::Stop
                },
            };
        }
        match event {
            EncoderDriveEvent::Frame => EncoderDriveAction::SubmitFrame,
            EncoderDriveEvent::FrameFailed | EncoderDriveEvent::PacketFailed => {
                self.ended = true;
                EncoderDriveAction::Fail
            },
            EncoderDriveEvent::FramesEnded => {
                self.input_open = false;
                EncoderDriveAction::FinishInput
            },
            EncoderDriveEvent::KeyFrameRequested => EncoderDriveAction::RequestKeyFrame,
            EncoderDriveEvent::BitrateChanged { bits_per_second } => EncoderDriveAction::SetBitrate {
                bits_per_second,
            },
            EncoderDriveEvent::CommandsEnded => {
                self.commands_open = false;
                EncoderDriveAction::Wait
            },
            EncoderDriveEvent::Packet => EncoderDriveAction::SendPacket,
            EncoderDriveEvent::PacketsEnded => {
                self.ended = true;
                EncoderDriveAction::Stop
            },
        }
    }
}

/// What the decoder loop observed.
#[derive(Debug, Clone, Copy, PartialEq, Eq)]
pub enum DecoderDriveEvent {
    Input,
    InputFailed,
    InputsEnded,
    Decoded,
    DecodeFailed,
    DecodedEnded,
}

/// What the decoder loop does next.
#[derive(Debug, Clone, Copy, PartialEq, Eq)]
pub enum DecoderDriveAction {
    Wait,
    /// Build and start the pipeline, and hand it the first input.
    StartPipeline,
    /// Hand the encoded input to the pipeline.
    SubmitInput,
    /// Signal the end of input to the pipeline; its remaining frames drain.
    FinishInput,
    /// Present the decoded frame.
    PresentFrame,
    Fail,
    Stop,
}

/// The decoder loop: whether input may still arrive, and whether it ended.
#[derive(Debug, Clone, Copy, PartialEq, Eq)]
pub struct DecoderDrive {
    /// The pipeline exists: the first input arrived.
    pub started: bool,
    pub input_open: bool,
    pub ended: bool,
}

/// The sources a decoder loop in state `d` waits on.
pub open spec fn spec_decoder_sources(d: DecoderDrive) -> DriveSources {
    if d.ended {
        DriveSources::Nothing
    } else if !d.started {
        DriveSources::Inputs
    } else if d.input_open {
        DriveSources::InputsAndOutputs
    } else {
        DriveSources::Outputs
    }
}

/// Whether the decoder loop in state `d` can observe `event`.
pub open spec fn spec_decoder_awaits(d: DecoderDrive, event: DecoderDriveEvent) -> bool {
    match event {
        DecoderDriveEvent::Input | DecoderDriveEvent::InputFailed | DecoderDriveEvent::InputsEnded => !d.ended
            && d.input_open,
        _ => !d.ended && d.started,
    }
}

impl DecoderDrive {
    pub fn new() -> (d: Self)
        ensures
            d == (DecoderDrive { started: false, input_open: true, ended: false }),
    {
        DecoderDrive { started: false, input_open: true, ended: false }
    }

    /// The sources to wait on; see `spec_decoder_sources`.
    pub fn sources(&self) -> (s: DriveSources)
        ensures
            s == spec_decoder_sources(*self),
    {
        if self.ended {
            DriveSources::Nothing
        } else if !self.started {
            DriveSources::Inputs
        } else if self.input_open {
            DriveSources::InputsAndOutputs
        } else {
            DriveSources::Outputs
        }
    }

    /// Takes the next event. An event the loop does not wait on changes
    /// nothing.
    pub fn step(&mut self, event: DecoderDriveEvent) -> (action: DecoderDriveAction)
        ensures
            !spec_decoder_awaits(*old(self), event) ==> action == DecoderDriveAction::Wait && *final(self)
                == *old(self),
            spec_decoder_awaits(*old(self), event) && !old(self).started ==> match event {
                DecoderDriveEvent::Input => action == DecoderDriveAction::StartPipeline && *final(self)
                    == (DecoderDrive { started: true, ..*old(self) }),
                DecoderDriveEvent::InputFailed => action == DecoderDriveAction::Fail && *final(self)
                    == (DecoderDrive { ended: true, ..*old(self) }),
                _ => action == DecoderDriveAction::Stop && *final(self) == (DecoderDrive {
                    ended: true,
                    ..*old(self)
                }),
            },
            spec_decoder_awaits(*old(self), event) && old(self).started ==> match event {
                DecoderDriveEvent::Input => action == DecoderDriveAction::SubmitInput && *final(self)
                    == *old(self),
                DecoderDriveEvent::InputFailed | DecoderDriveEvent::DecodeFailed => action
                    == DecoderDriveAction::Fail && *final(self) == (DecoderDrive { ended: true, ..*old(self) }),
                DecoderDriveEvent::InputsEnded => action == DecoderDriveAction::FinishInput && *final(self)
                    == (DecoderDrive { input_open: false, ..*old(self) }),
                DecoderDriveEvent::Decoded => action == DecoderDriveAction::PresentFrame && *final(self)
                    == *old(self),
                DecoderDriveEvent::DecodedEnded => action == DecoderDriveAction::Stop && *final(self)
                    == (DecoderDrive { ended: true, ..*old(self) }),
            },
    {
        let awaited = match event {
            DecoderDriveEvent::Input | DecoderDriveEvent::InputFailed | DecoderDriveEvent::InputsEnded => !self.ended
                && self.input_open,
            _ => !self.ended && self.started,
        };
        if !awaited {
            return DecoderDriveAction::Wait;
        }
        if !self.started {
            return match event {
                DecoderDriveEvent::Input => {
                    self.started = true;
                    DecoderDriveAction::StartPipeline
                },
                DecoderDriveEvent::InputFailed => {
                    self.ended = true;
                    DecoderDriveAction::Fail
                },
                _ => {
                    self.ended = true;
                    DecoderDriveAction::Stop
                },
            };
        }
        match event {
            DecoderDriveEvent::Input => DecoderDriveAction::SubmitInput,
            DecoderDriveEvent::InputFailed | DecoderDriveEvent::DecodeFailed => {
                self.ended = true;
                DecoderDriveAction::Fail
            },
            DecoderDriveEvent::InputsEnded => {
                self.input_open = false;
                DecoderDriveAction::FinishInput
            },
            DecoderDriveEvent::Decoded => DecoderDriveAction::PresentFrame,
            DecoderDriveEvent::DecodedEnded => {
                self.ended = true;
                DecoderDriveAction::Stop
            },
        }
    }
}

/// What the recording loop observed.
#[derive(Debug, Clone, Copy, PartialEq, Eq)]
pub enum RecorderDriveEvent {
    Frame,
    FrameFailed,
    FramesEnded,
    /// The user asked to stop recording.
    Cancelled,
    /// The pipeline reached its end of stream.
    PipelineEnded,
    /// The pipeline posted an error, or its message channel closed.
    PipelineFailed,
}

/// What the recording loop does next.
#[derive(Debug, Clone, Copy, PartialEq, Eq)]
pub enum RecorderDriveAction {
    Wait,
    /// Build and start the recording pipeline for the first frame.
    StartPipeline,
    /// Time-stamp the frame and hand it to the pipeline.
    SubmitFrame,
    /// Finish the recording.
    Stop,
    Fail,
    /// The frames ended before the first one arrived: nothing was recorded.
    FailWithoutFrames,
}

/// The recording loop: whether the pipeline exists, and whether it ended.
#[derive(Debug, Clone, Copy, PartialEq, Eq)]
pub struct RecorderDrive {
    pub started: bool,
    pub ended: bool,
}

/// Whether the recording loop in state `d` can observe `event`: before the
/// first frame only the frame stream is watched.
pub open spec fn spec_recorder_awaits(d: RecorderDrive, event: RecorderDriveEvent) -> bool {
    match event {
        RecorderDriveEvent::Frame | RecorderDriveEvent::FrameFailed | RecorderDriveEvent::FramesEnded => !d.ended,
        _ => !d.ended && d.started,
    }
}

impl RecorderDrive {
    pub fn new() -> (d: Self)
        ensures
            d == (RecorderDrive { started: false, ended: false }),
    {
        RecorderDrive { started: false, ended: false }
    }

    /// The sources to wait on: only frames before the pipeline exists.
    pub fn sources(&self) -> (s: DriveSources)
        ensures
            s == (if self.ended {
                DriveSources::Nothing
            } else if !self.started {
                DriveSources::Inputs
            } else {
                DriveSources::InputsCommandsAndOutputs
            }),
    {
        if self.ended {
            DriveSources::Nothing
        } else if !self.started {
            DriveSources::Inputs
        } else {
            DriveSources::InputsCommandsAndOutputs
        }
    }

    /// Takes the next event. An event the loop does not wait on changes
    /// nothing.
    pub fn step(&mut self, event: RecorderDriveEvent) -> (action: RecorderDriveAction)
        ensures
            !spec_recorder_awaits(*old(self), event) ==> action == RecorderDriveAction::Wait && *final(self)
                == *old(self),
            spec_recorder_awaits(*old(self), event) && !old(self).started ==> match event {
                RecorderDriveEvent::Frame => action == RecorderDriveAction::StartPipeline && *final(self)
                    == (RecorderDrive { started: true, ended: false }),
                RecorderDriveEvent::FrameFailed => action == RecorderDriveAction::Fail && *final(self)
                    == (RecorderDrive { started: false, ended: true }),
                _ => action == RecorderDriveAction::FailWithoutFrames && *final(self) == (RecorderDrive {
                    started: false,
                    ended: true,
                }),
            },
            spec_recorder_awaits(*old(self), event) && old(self).started ==> match event {
                RecorderDriveEvent::Frame => action == RecorderDriveAction::SubmitFrame && *final(self)
                    == *old(self),
                RecorderDriveEvent::FrameFailed | RecorderDriveEvent::PipelineFailed => action
                    == RecorderDriveAction::Fail && *final(self) == (RecorderDrive { started: true, ended: true }),
                _ => action == RecorderDriveAction::Stop && *final(self) == (RecorderDrive {
                    started: true,
                    ended: true,
                }),
            },
    {
        let awaited = match event {
            RecorderDriveEvent::Frame | RecorderDriveEvent::FrameFailed | RecorderDriveEvent::FramesEnded => !self.ended,
            _ => !self.ended && self.started,
        };
        if !awaited {
            return RecorderDriveAction::Wait;
        }
        if !self.started {
            self.ended = match event {
                RecorderDriveEvent::Frame => false,
                _ => true,
            };
            return match event {
                RecorderDriveEvent::Frame => {
                    self.started = true;
                    RecorderDriveAction::StartPipeline
                },
                RecorderDriveEvent::FrameFailed => RecorderDriveAction::Fail,
                _ => RecorderDriveAction::FailWithoutFrames,
            };
        }
        match event {
            RecorderDriveEvent::Frame => RecorderDriveAction::SubmitFrame,
            RecorderDriveEvent::FrameFailed | RecorderDriveEvent::PipelineFailed => {
                self.ended = true;
                RecorderDriveAction::Fail
            },
            _ => {
                self.ended = true;
                RecorderDriveAction::Stop
            },
        }
    }
}

/// A decoder received input of another screen than the one it decodes.
#[derive(Debug, Clone, Copy, PartialEq, Eq)]
pub struct DecoderScreenMismatch {
    pub bound: ScreenId,
    pub input: ScreenId,
}

/// The screen a decoder decodes after taking input of `input`: the first
/// input binds it; later input must be of the same screen.
pub fn bind_decoder_screen(bound: Option<ScreenId>, input: ScreenId) -> (r: Result<ScreenId, DecoderScreenMismatch>)
    ensures
        r == (match bound {
            None => Ok::<ScreenId, DecoderScreenMismatch>(input),
            Some(b) => if b == input {
                Ok(b)
            } else {
                Err(DecoderScreenMismatch { bound: b, input })
            },
        }),
{
    match bound {
        None => Ok(input),
        Some(b) => {
            if b.0 == input.0 {
                Ok(b)
            } else {
                Err(DecoderScreenMismatch { bound: b, input })
            }
        },
    }
}

/// The sum of the first `n` lengths, saturating at `usize::MAX` at each step.
pub open spec fn spec_saturating_total(lengths: Seq<usize>, n: int) -> usize
    decreases n,
{
    if n <= 0 {
        0
    } else {
        let before = spec_saturating_total(lengths, n - 1);
        if before + lengths[n - 1] > usize::MAX {
            usize::MAX
        } else {
            (before + lengths[n - 1]) as usize
        }
    }
}

/// The payload bytes of a received frame's RTP packets, saturating at
/// `usize::MAX`.
pub fn rtp_payload_total(lengths: &[usize]) -> (total: usize)
    ensures
        total == spec_saturating_total(lengths@, lengths@.len() as int),
{
    let mut total: usize = 0;
    let mut i: usize = 0;
    while i < lengths.len()
        invariant
            i <= lengths@.len(),
            total == spec_saturating_total(lengths@, i as int),
        decreases lengths@.len() - i,
    {
        total = total.saturating_add(lengths[i]);
        i = i + 1;
    }
    total
}

/// Once the encoder's input ended, the loop waits only for the pipeline's
/// remaining output, and ends with it.
pub proof fn encoder_drains_after_input_ends(d: EncoderDrive)
    requires
        !d.ended,
        d.started,
    ensures
        spec_encoder_sources(EncoderDrive { input_open: false, ..d }) == DriveSources::Outputs,
        !spec_encoder_awaits(EncoderDrive { input_open: false, ..d }, EncoderDriveEvent::Frame),
        !spec_encoder_awaits(EncoderDrive { input_open: false, ..d }, EncoderDriveEvent::KeyFrameRequested),
        spec_encoder_awaits(EncoderDrive { input_open: false, ..d }, EncoderDriveEvent::PacketsEnded),
        spec_encoder_sources(EncoderDrive { ended: true, ..d }) == DriveSources::Nothing,
{
}

} // verus!
