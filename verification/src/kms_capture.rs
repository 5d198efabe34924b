//! The KMS capture loop of one screen as a state machine: the capture thread
//! performs each action (drain commands, wait for damage, capture, publish)
//! and reports what happened; the machine decides what comes next.
use vstd::prelude::*;

verus! {

/// How a full capture queue behaves when the consumer is slower than vblank.
#[derive(Debug, Clone, Copy, PartialEq, Eq, Structural)]
pub enum FrameQueuePolicy {
    /// Streaming: one slot, older frames are dropped.
    Latest,
    /// Recording: a deep queue; the capture thread blocks instead of dropping.
    Reliable { capacity: usize },
}

/// Capacity of the frame queue for `policy`: one for `Latest`, at least one
/// for `Reliable`.
pub fn queue_capacity(policy: FrameQueuePolicy) -> (c: usize)
    ensures
        c == match policy {
            FrameQueuePolicy::Latest => 1,
            FrameQueuePolicy::Reliable { capacity } => if capacity == 0 { 1 } else { capacity },
        },
        c >= 1,
{
    match policy {
        FrameQueuePolicy::Latest => 1,
        FrameQueuePolicy::Reliable { capacity } => if capacity == 0 { 1 } else { capacity },
    }
}

/// How often frames are captured.
#[derive(Debug, Clone, Copy, PartialEq, Eq, Structural)]
pub enum FrameRateMode {
    /// Every vblank.
    Fixed,
    /// When the compositor reports damage, falling back to every vblank.
    Dynamic,
}

/// The name of what triggers captures, as reported when capture starts.
pub fn dynamic_update_source(mode: FrameRateMode, has_damage_notifier: bool) -> (s: &'static str)
    ensures
        s@ == match mode {
            FrameRateMode::Fixed => "disabled"@,
            FrameRateMode::Dynamic => if has_damage_notifier {
                "wayland-wlr-screencopy-damage"@
            } else {
                "drm-vblank-fallback"@
            },
        },
{
    match mode {
        FrameRateMode::Fixed => "disabled",
        FrameRateMode::Dynamic => if has_damage_notifier {
            "wayland-wlr-screencopy-damage"
        } else {
            "drm-vblank-fallback"
        },
    }
}

/// What the capture thread does next.
#[derive(Debug, Clone, Copy, PartialEq, Eq, Structural)]
pub enum KmsCaptureAction {
    /// Take one command from the command queue without blocking.
    PollCommand,
    /// Wait up to 100 ms for compositor damage.
    WaitForDamage,
    /// Capture a frame, composing the planes on the GPU when `composed`.
    Capture { composed: bool },
    /// Hand the captured frame or capture error to the consumer, replacing an
    /// unconsumed frame when `drop_to_latest`, else blocking until there is room.
    Publish { drop_to_latest: bool },
    /// Hand the damage-wait error to the consumer, blocking until there is room.
    PublishDamageFailure,
    /// End the capture thread.
    Stop,
}

/// What happened when the capture thread performed an action.
#[derive(Debug, Clone, Copy, PartialEq, Eq, Structural)]
pub enum KmsCaptureEvent {
    /// The consumer asked for GPU composition instead of plane export.
    UseComposedFallback,
    /// The consumer asked the thread to stop.
    Shutdown,
    /// Every command sender is gone.
    CommandsDisconnected,
    /// No command is queued.
    NoCommand,
    /// The compositor reported damage.
    Damaged,
    /// No damage arrived in time.
    NoDamage,
    /// Waiting for damage failed.
    DamageFailed,
    /// A frame was captured.
    Captured,
    /// Nothing new to capture.
    NothingCaptured,
    /// Capturing failed.
    CaptureFailed,
    /// Publishing finished; `delivered` is false when the consumer is gone.
    Published { delivered: bool },
}

/// The capture loop's state.
#[derive(Debug, Clone, Copy, PartialEq, Eq, Structural)]
pub struct KmsCaptureLoop {
    pub use_composed_fallback: bool,
    pub has_damage_notifier: bool,
    pub drop_to_latest: bool,
    /// The frame being published is a capture error.
    pub publishing_failure: bool,
    pub stopped: bool,
}

/// The capture to perform next.
pub open spec fn spec_capture(s: KmsCaptureLoop) -> KmsCaptureAction {
    KmsCaptureAction::Capture { composed: s.use_composed_fallback }
}

/// The state and action after `event`.
pub open spec fn spec_capture_step(s: KmsCaptureLoop, event: KmsCaptureEvent) -> (
    KmsCaptureLoop,
    KmsCaptureAction,
) {
    let stop = (KmsCaptureLoop { stopped: true, ..s }, KmsCaptureAction::Stop);
    if s.stopped {
        stop
    } else {
        match event {
            KmsCaptureEvent::UseComposedFallback => (
                KmsCaptureLoop { use_composed_fallback: true, ..s },
                KmsCaptureAction::PollCommand,
            ),
            KmsCaptureEvent::Shutdown => stop,
            KmsCaptureEvent::CommandsDisconnected => stop,
            KmsCaptureEvent::NoCommand => if s.has_damage_notifier {
                (s, KmsCaptureAction::WaitForDamage)
            } else {
                (s, spec_capture(s))
            },
            KmsCaptureEvent::Damaged => (s, spec_capture(s)),
            KmsCaptureEvent::NoDamage => (s, KmsCaptureAction::PollCommand),
            KmsCaptureEvent::DamageFailed => (
                KmsCaptureLoop { publishing_failure: true, ..s },
                KmsCaptureAction::PublishDamageFailure,
            ),
            KmsCaptureEvent::Captured => (
                KmsCaptureLoop { publishing_failure: false, ..s },
                KmsCaptureAction::Publish { drop_to_latest: s.drop_to_latest },
            ),
            KmsCaptureEvent::NothingCaptured => (s, KmsCaptureAction::PollCommand),
            KmsCaptureEvent::CaptureFailed => (
                KmsCaptureLoop { publishing_failure: true, ..s },
                KmsCaptureAction::Publish { drop_to_latest: s.drop_to_latest },
            ),
            KmsCaptureEvent::Published { delivered } => if !delivered || s.publishing_failure {
                stop
            } else {
                (s, KmsCaptureAction::PollCommand)
            },
        }
    }
}

impl KmsCaptureLoop {
    /// A loop that has not captured yet; its first action is `PollCommand`.
    pub fn new(has_damage_notifier: bool, drop_to_latest: bool) -> (s: Self)
        ensures
            s == (KmsCaptureLoop {
                use_composed_fallback: false,
                has_damage_notifier,
                drop_to_latest,
                publishing_failure: false,
                stopped: false,
            }),
    {
        KmsCaptureLoop {
            use_composed_fallback: false,
            has_damage_notifier,
            drop_to_latest,
            publishing_failure: false,
            stopped: false,
        }
    }

    /// Takes what happened and returns the next action.
    pub fn step(&mut self, event: KmsCaptureEvent) -> (action: KmsCaptureAction)
        ensures
            (*final(self), action) == spec_capture_step(*old(self), event),
    {
        if self.stopped {
            return KmsCaptureAction::Stop;
        }
        match event {
            KmsCaptureEvent::UseComposedFallback => {
                self.use_composed_fallback = true;
                KmsCaptureAction::PollCommand
            },
            KmsCaptureEvent::Shutdown | KmsCaptureEvent::CommandsDisconnected => {
                self.stopped = true;
                KmsCaptureAction::Stop
            },
            KmsCaptureEvent::NoCommand => {
                if self.has_damage_notifier {
                    KmsCaptureAction::WaitForDamage
                } else {
                    KmsCaptureAction::Capture { composed: self.use_composed_fallback }
                }
            },
            KmsCaptureEvent::Damaged => KmsCaptureAction::Capture {
                composed: self.use_composed_fallback,
            },
            KmsCaptureEvent::NoDamage => KmsCaptureAction::PollCommand,
            KmsCaptureEvent::DamageFailed => {
                self.publishing_failure = true;
                KmsCaptureAction::PublishDamageFailure
            },
            KmsCaptureEvent::Captured => {
                self.publishing_failure = false;
                KmsCaptureAction::Publish { drop_to_latest: self.drop_to_latest }
            },
            KmsCaptureEvent::NothingCaptured => KmsCaptureAction::PollCommand,
            KmsCaptureEvent::CaptureFailed => {
                self.publishing_failure = true;
                KmsCaptureAction::Publish { drop_to_latest: self.drop_to_latest }
            },
            KmsCaptureEvent::Published { delivered } => {
                if !delivered || self.publishing_failure {
                    self.stopped = true;
                    KmsCaptureAction::Stop
                } else {
                    KmsCaptureAction::PollCommand
                }
            },
        }
    }
}

/// Once requested, GPU composition stays selected, and every later capture
/// composes: no event turns the fallback off.
pub proof fn composed_fallback_is_sticky(s: KmsCaptureLoop, event: KmsCaptureEvent)
    requires
        s.use_composed_fallback,
    ensures
        spec_capture_step(s, event).0.use_composed_fallback,
        spec_capture_step(s, event).1 is Capture ==> spec_capture_step(s, event).1
            == (KmsCaptureAction::Capture { composed: true }),
{
}

/// A stopped loop stays stopped, and a shutdown request, a lost command
/// queue, or a consumer that is gone stops it.
pub proof fn capture_loop_stops(s: KmsCaptureLoop, event: KmsCaptureEvent)
    ensures
        s.stopped ==> spec_capture_step(s, event).1 == KmsCaptureAction::Stop && spec_capture_step(
            s,
            event,
        ).0.stopped,
        (event == KmsCaptureEvent::Shutdown || event == KmsCaptureEvent::CommandsDisconnected
            || event == (KmsCaptureEvent::Published { delivered: false })) ==> spec_capture_step(
            s,
            event,
        ).1 == KmsCaptureAction::Stop,
{
}

/// A capture error is published to the consumer, and the loop stops right
/// after, whether or not the consumer received it.
pub proof fn capture_failure_is_published_then_stops(s: KmsCaptureLoop, delivered: bool)
    requires
        !s.stopped,
    ensures
        ({
            let (failed, action) = spec_capture_step(s, KmsCaptureEvent::CaptureFailed);
            &&& action == (KmsCaptureAction::Publish { drop_to_latest: s.drop_to_latest })
            &&& spec_capture_step(failed, KmsCaptureEvent::Published { delivered }).1
                == KmsCaptureAction::Stop
        }),
{
}

/// A captured frame that reached the consumer leads back to the command queue:
/// the loop keeps capturing.
pub proof fn delivered_frame_continues(s: KmsCaptureLoop)
    requires
        !s.stopped,
    ensures
        ({
            let (captured, _) = spec_capture_step(s, KmsCaptureEvent::Captured);
            spec_capture_step(captured, KmsCaptureEvent::Published { delivered: true }).1
                == KmsCaptureAction::PollCommand
        }),
{
}

} // verus!
