use rabbit_infra::kms_capture::{
    dynamic_update_source, queue_capacity, FrameQueuePolicy, FrameRateMode, KmsCaptureAction, KmsCaptureEvent,
    KmsCaptureLoop,
};

#[test]
fn queue_policies_size_the_frame_queue() {
    assert_eq!(queue_capacity(FrameQueuePolicy::Latest), 1);
    assert_eq!(queue_capacity(FrameQueuePolicy::Reliable { capacity: 0 }), 1);
    assert_eq!(queue_capacity(FrameQueuePolicy::Reliable { capacity: 8 }), 8);
}

#[test]
fn reports_what_triggers_captures() {
    assert_eq!(dynamic_update_source(FrameRateMode::Fixed, true), "disabled");
    assert_eq!(dynamic_update_source(FrameRateMode::Dynamic, true), "wayland-wlr-screencopy-damage");
    assert_eq!(dynamic_update_source(FrameRateMode::Dynamic, false), "drm-vblank-fallback");
}

#[test]
fn captures_on_every_vblank_without_damage_events() {
    let mut capture = KmsCaptureLoop::new(false, true);
    assert_eq!(capture.step(KmsCaptureEvent::NoCommand), KmsCaptureAction::Capture { composed: false });
    assert_eq!(capture.step(KmsCaptureEvent::Captured), KmsCaptureAction::Publish { drop_to_latest: true });
    assert_eq!(capture.step(KmsCaptureEvent::Published { delivered: true }), KmsCaptureAction::PollCommand);
    assert_eq!(capture.step(KmsCaptureEvent::NoCommand), KmsCaptureAction::Capture { composed: false });
    assert_eq!(capture.step(KmsCaptureEvent::NothingCaptured), KmsCaptureAction::PollCommand);
}

#[test]
fn composed_fallback_applies_to_every_later_capture() {
    let mut capture = KmsCaptureLoop::new(true, false);
    assert_eq!(capture.step(KmsCaptureEvent::UseComposedFallback), KmsCaptureAction::PollCommand);
    assert_eq!(capture.step(KmsCaptureEvent::NoCommand), KmsCaptureAction::WaitForDamage);
    assert_eq!(capture.step(KmsCaptureEvent::NoDamage), KmsCaptureAction::PollCommand);
    assert_eq!(capture.step(KmsCaptureEvent::NoCommand), KmsCaptureAction::WaitForDamage);
    assert_eq!(capture.step(KmsCaptureEvent::Damaged), KmsCaptureAction::Capture { composed: true });
    assert_eq!(capture.step(KmsCaptureEvent::Captured), KmsCaptureAction::Publish { drop_to_latest: false });
}

#[test]
fn failures_are_published_then_the_loop_stops() {
    let mut capture = KmsCaptureLoop::new(false, true);
    assert_eq!(capture.step(KmsCaptureEvent::CaptureFailed), KmsCaptureAction::Publish { drop_to_latest: true });
    assert_eq!(capture.step(KmsCaptureEvent::Published { delivered: true }), KmsCaptureAction::Stop);
    assert_eq!(capture.step(KmsCaptureEvent::NoCommand), KmsCaptureAction::Stop);

    let mut damaged = KmsCaptureLoop::new(true, true);
    assert_eq!(damaged.step(KmsCaptureEvent::DamageFailed), KmsCaptureAction::PublishDamageFailure);
    assert_eq!(damaged.step(KmsCaptureEvent::Published { delivered: false }), KmsCaptureAction::Stop);
}

#[test]
fn shutdown_and_lost_consumers_stop_the_loop() {
    let mut capture = KmsCaptureLoop::new(false, true);
    assert_eq!(capture.step(KmsCaptureEvent::Shutdown), KmsCaptureAction::Stop);
    let mut orphaned = KmsCaptureLoop::new(false, true);
    assert_eq!(orphaned.step(KmsCaptureEvent::CommandsDisconnected), KmsCaptureAction::Stop);
    let mut unread = KmsCaptureLoop::new(false, true);
    unread.step(KmsCaptureEvent::Captured);
    assert_eq!(unread.step(KmsCaptureEvent::Published { delivered: false }), KmsCaptureAction::Stop);
}
