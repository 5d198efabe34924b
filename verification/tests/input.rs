use rabbit_infra::input::{
    absolute_pointer_setup_steps, absolute_move_events, all_keyboard_keys, ioctl_none, ioctl_write, keyboard_events, keyboard_value,
    linux_button_code, linux_key_code, mouse_button_events, relative_move_events, uinput_setup_steps, InputEvent,
    InputState, KeyboardInput, KeyboardKey, MouseButton, MouseButtonInput, RelativePointerMove, UInputSetupStep,
    EV_ABS, EV_KEY, EV_REL, EV_SYN,
};

const SYNC: InputEvent = InputEvent { event_type: EV_SYN, code: 0, value: 0 };

#[test]
fn maps_keys_and_buttons_to_linux_codes() {
    assert_eq!(linux_key_code(KeyboardKey::A), 30);
    assert_eq!(linux_key_code(KeyboardKey::Digit0), 11);
    assert_eq!(linux_key_code(KeyboardKey::Enter), 28);
    assert_eq!(linux_key_code(KeyboardKey::MetaRight), 126);
    assert_eq!(linux_key_code(KeyboardKey::F24), 194);
    assert_eq!(linux_button_code(MouseButton::Left), 0x110);
    assert_eq!(linux_button_code(MouseButton::Back), 0x116);
    assert_eq!(linux_button_code(MouseButton::Forward), 0x115);
}

#[test]
fn every_key_has_its_own_code() {
    let keys = all_keyboard_keys();
    let mut codes: Vec<i32> = keys.iter().map(|key| linux_key_code(*key)).collect();
    codes.sort();
    codes.dedup();
    assert_eq!(codes.len(), keys.len());
}

#[test]
fn keyboard_events_distinguish_press_repeat_and_release() {
    assert_eq!(keyboard_value(InputState::Pressed, false), 1);
    assert_eq!(keyboard_value(InputState::Pressed, true), 2);
    assert_eq!(keyboard_value(InputState::Released, true), 0);
    let events = keyboard_events(KeyboardInput { key: KeyboardKey::Space, state: InputState::Pressed, repeat: true });
    assert_eq!(events, [InputEvent { event_type: EV_KEY, code: 57, value: 2 }, SYNC]);
}

#[test]
fn pointer_events_end_with_a_report() {
    assert_eq!(
        mouse_button_events(MouseButtonInput { button: MouseButton::Right, state: InputState::Released }),
        [InputEvent { event_type: EV_KEY, code: 0x111, value: 0 }, SYNC]
    );
    assert_eq!(
        absolute_move_events(100, 65_535),
        [
            InputEvent { event_type: EV_ABS, code: 0, value: 100 },
            InputEvent { event_type: EV_ABS, code: 1, value: 65_535 },
            SYNC
        ]
    );
    assert_eq!(
        relative_move_events(RelativePointerMove { delta_x: -3, delta_y: 4 }),
        [
            InputEvent { event_type: EV_REL, code: 0, value: -3 },
            InputEvent { event_type: EV_REL, code: 1, value: 4 },
            SYNC
        ]
    );
}

#[test]
fn encodes_uinput_ioctl_requests() {
    assert_eq!(ioctl_none(0x55, 1), 0x5501);
    assert_eq!(ioctl_none(0x55, 2), 0x5502);
    assert_eq!(ioctl_write(0x55, 100, 4), 0x4004_5564);
    assert_eq!(ioctl_write(0x55, 3, 92), 0x405c_5503);
}

#[test]
fn device_setup_enables_every_key_then_creates_the_device() {
    let steps = uinput_setup_steps(92, 28);
    assert_eq!(steps.len(), 1 + 5 + all_keyboard_keys().len() + 9);
    assert_eq!(steps[0], UInputSetupStep::SetBit { request: 0x4004_5564, value: 1 });
    assert_eq!(steps[1], UInputSetupStep::SetBit { request: 0x4004_5565, value: 0x110 });
    assert_eq!(steps[6], UInputSetupStep::SetBit { request: 0x4004_5565, value: 30 });
    assert_eq!(steps[steps.len() - 2], UInputSetupStep::SetupDevice { request: 0x405c_5503 });
    assert_eq!(steps[steps.len() - 1], UInputSetupStep::CreateDevice { request: 0x5501 });
}

#[test]
fn absolute_pointer_device_enables_only_the_left_button_and_both_axes() {
    let steps = absolute_pointer_setup_steps(92, 28);
    assert_eq!(steps.len(), 8);
    assert_eq!(steps[0], UInputSetupStep::SetBit { request: 0x4004_5564, value: 1 });
    assert_eq!(steps[1], UInputSetupStep::SetBit { request: 0x4004_5565, value: 0x110 });
    assert_eq!(steps[2], UInputSetupStep::SetBit { request: 0x4004_5564, value: 3 });
    assert_eq!(steps[3], UInputSetupStep::SetBit { request: 0x4004_556e, value: 0 });
    assert_eq!(steps[4], UInputSetupStep::SetupAxis { request: 0x401c_5504, code: 0 });
    assert_eq!(steps[5], UInputSetupStep::SetupAxis { request: 0x401c_5504, code: 1 });
    assert_eq!(steps[6], UInputSetupStep::SetupDevice { request: 0x405c_5503 });
    assert_eq!(steps[7], UInputSetupStep::CreateDevice { request: 0x5501 });
}
