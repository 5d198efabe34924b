use rabbit_infra::damage_notifier::{DamageRequestError, DamageRequestState, ScreencopyAction, ScreencopyEvent};

fn buffer() -> ScreencopyEvent {
    ScreencopyEvent::Buffer { format_known: true, width: 1920, height: 1080, stride: 7680 }
}

#[test]
fn first_request_copies_a_full_baseline_then_copies_with_damage() {
    let mut state = DamageRequestState::new();
    assert!(state.begin_wait());
    assert!(!state.begin_wait());

    assert_eq!(state.on_event(buffer()), ScreencopyAction::CreateBuffer { width: 1920, height: 1080, stride: 7680 });
    assert_eq!(state.on_event(ScreencopyEvent::BufferCreated { succeeded: true }), ScreencopyAction::Copy { with_damage: false });
    assert_eq!(state.finish_request(), Ok(false));
    assert_eq!(state.on_event(ScreencopyEvent::Ready), ScreencopyAction::DestroyFrame);
    assert_eq!(state.finish_request(), Ok(true));
    assert!(!state.request_pending);

    assert!(state.begin_wait());
    state.on_event(buffer());
    assert_eq!(state.on_event(ScreencopyEvent::BufferCreated { succeeded: true }), ScreencopyAction::Copy { with_damage: true });
    assert_eq!(state.on_event(ScreencopyEvent::Damage), ScreencopyAction::Nothing);
    assert_eq!(state.finish_request(), Ok(true));
}

#[test]
fn failures_end_the_request_with_an_error() {
    let mut state = DamageRequestState::new();
    state.begin_wait();
    assert_eq!(
        state.on_event(ScreencopyEvent::Buffer { format_known: false, width: 1, height: 1, stride: 4 }),
        ScreencopyAction::Nothing
    );
    assert_eq!(state.finish_request(), Err(DamageRequestError::RequestFailed));

    let mut state = DamageRequestState::new();
    state.begin_wait();
    state.on_event(ScreencopyEvent::Buffer { format_known: true, width: u32::MAX, height: 1, stride: 4 });
    assert_eq!(state.finish_request(), Err(DamageRequestError::RequestFailed));

    let mut state = DamageRequestState::new();
    state.begin_wait();
    assert_eq!(state.on_event(ScreencopyEvent::Failed), ScreencopyAction::DestroyFrame);
    assert_eq!(state.finish_request(), Err(DamageRequestError::RequestFailed));

    let mut state = DamageRequestState::new();
    state.begin_wait();
    assert_eq!(state.on_event(ScreencopyEvent::OutputDestroyed { ours: false }), ScreencopyAction::Nothing);
    assert_eq!(state.finish_request(), Ok(false));
    state.on_event(ScreencopyEvent::OutputDestroyed { ours: true });
    assert_eq!(state.finish_request(), Err(DamageRequestError::RequestFailed));
}
