//! Remote keyboard and pointer input as Linux uinput events: the key and
//! button codes, the event sequences written for each input, and the ioctl
//! requests that set up the virtual device.
use vstd::prelude::*;

verus! {

/// Event type of synchronization reports.
pub const EV_SYN: u16 = 0x00;
/// Event type of keys and buttons.
pub const EV_KEY: u16 = 0x01;
/// Event type of relative axes.
pub const EV_REL: u16 = 0x02;
/// Event type of absolute axes.
pub const EV_ABS: u16 = 0x03;
/// Code of the report that ends a group of events.
pub const SYN_REPORT: u16 = 0;
pub const ABS_X: u16 = 0x00;
pub const ABS_Y: u16 = 0x01;
pub const REL_X: u16 = 0x00;
pub const REL_Y: u16 = 0x01;
/// Device property of pointing devices.
pub const INPUT_PROP_POINTER: i32 = 0x00;
/// Bus type reported for the virtual device.
pub const BUS_USB: u16 = 0x03;
/// Vendor identifier reported for the virtual device.
pub const UINPUT_VENDOR: u16 = 0x5242;
/// Product identifier reported for the virtual device.
pub const UINPUT_PRODUCT: u16 = 0x0001;
/// Version reported for the virtual device.
pub const UINPUT_VERSION: u16 = 1;
/// The ioctl type of uinput requests (`'U'`).
pub const UINPUT_IOCTL_BASE: u64 = 0x55;

/// A key of the remote keyboard.
#[derive(Debug, Clone, Copy, PartialEq, Eq, Hash, Structural)]
pub enum KeyboardKey {
    A,
    B,
    C,
    D,
    E,
    F,
    G,
    H,
    I,
    J,
    K,
    L,
    M,
    N,
    O,
    P,
    Q,
    R,
    S,
    T,
    U,
    V,
    W,
    X,
    Y,
    Z,
    Digit0,
    Digit1,
    Digit2,
    Digit3,
    Digit4,
    Digit5,
    Digit6,
    Digit7,
    Digit8,
    Digit9,
    Space,
    Minus,
    Equal,
    LeftBracket,
    RightBracket,
    Backslash,
    Semicolon,
    Quote,
    Backquote,
    Comma,
    Period,
    Slash,
    Escape,
    Tab,
    Enter,
    Backspace,
    Delete,
    Insert,
    Home,
    End,
    PageUp,
    PageDown,
    ArrowUp,
    ArrowDown,
    ArrowLeft,
    ArrowRight,
    ShiftLeft,
    ShiftRight,
    ControlLeft,
    ControlRight,
    AltLeft,
    AltRight,
    MetaLeft,
    MetaRight,
    CapsLock,
    ScrollLock,
    Pause,
    PrintScreen,
    Menu,
    F1,
    F2,
    F3,
    F4,
    F5,
    F6,
    F7,
    F8,
    F9,
    F10,
    F11,
    F12,
    F13,
    F14,
    F15,
    F16,
    F17,
    F18,
    F19,
    F20,
    F21,
    F22,
    F23,
    F24,
}

/// A button of the remote pointer.
#[derive(Debug, Clone, Copy, PartialEq, Eq, Hash, Structural)]
pub enum MouseButton {
    Left,
    Right,
    Middle,
    Back,
    Forward,
}

/// Whether a key or button went down or up.
#[derive(Debug, Clone, Copy, PartialEq, Eq, Hash, Structural)]
pub enum InputState {
    Pressed,
    Released,
}

/// The Linux key code of a keyboard key.
pub open spec fn spec_linux_key_code(key: KeyboardKey) -> i32 {
    match key {
        KeyboardKey::A => 30,
        KeyboardKey::B => 48,
        KeyboardKey::C => 46,
        KeyboardKey::D => 32,
        KeyboardKey::E => 18,
        KeyboardKey::F => 33,
        KeyboardKey::G => 34,
        KeyboardKey::H => 35,
        KeyboardKey::I => 23,
        KeyboardKey::J => 36,
        KeyboardKey::K => 37,
        KeyboardKey::L => 38,
        KeyboardKey::M => 50,
        KeyboardKey::N => 49,
        KeyboardKey::O => 24,
        KeyboardKey::P => 25,
        KeyboardKey::Q => 16,
        KeyboardKey::R => 19,
        KeyboardKey::S => 31,
        KeyboardKey::T => 20,
        KeyboardKey::U => 22,
        KeyboardKey::V => 47,
        KeyboardKey::W => 17,
        KeyboardKey::X => 45,
        KeyboardKey::Y => 21,
        KeyboardKey::Z => 44,
        KeyboardKey::Digit0 => 11,
        KeyboardKey::Digit1 => 2,
        KeyboardKey::Digit2 => 3,
        KeyboardKey::Digit3 => 4,
        KeyboardKey::Digit4 => 5,
        KeyboardKey::Digit5 => 6,
        KeyboardKey::Digit6 => 7,
        KeyboardKey::Digit7 => 8,
        KeyboardKey::Digit8 => 9,
        KeyboardKey::Digit9 => 10,
        KeyboardKey::Space => 57,
        KeyboardKey::Minus => 12,
        KeyboardKey::Equal => 13,
        KeyboardKey::LeftBracket => 26,
        KeyboardKey::RightBracket => 27,
        KeyboardKey::Backslash => 43,
        KeyboardKey::Semicolon => 39,
        KeyboardKey::Quote => 40,
        KeyboardKey::Backquote => 41,
        KeyboardKey::Comma => 51,
        KeyboardKey::Period => 52,
        KeyboardKey::Slash => 53,
        KeyboardKey::Escape => 1,
        KeyboardKey::Tab => 15,
        KeyboardKey::Enter => 28,
        KeyboardKey::Backspace => 14,
        KeyboardKey::Delete => 111,
        KeyboardKey::Insert => 110,
        KeyboardKey::Home => 102,
        KeyboardKey::End => 107,
        KeyboardKey::PageUp => 104,
        KeyboardKey::PageDown => 109,
        KeyboardKey::ArrowUp => 103,
        KeyboardKey::ArrowDown => 108,
        KeyboardKey::ArrowLeft => 105,
        KeyboardKey::ArrowRight => 106,
        KeyboardKey::ShiftLeft => 42,
        KeyboardKey::ShiftRight => 54,
        KeyboardKey::ControlLeft => 29,
        KeyboardKey::ControlRight => 97,
        KeyboardKey::AltLeft => 56,
        KeyboardKey::AltRight => 100,
        KeyboardKey::MetaLeft => 125,
        KeyboardKey::MetaRight => 126,
        KeyboardKey::CapsLock => 58,
        KeyboardKey::ScrollLock => 70,
        KeyboardKey::Pause => 119,
        KeyboardKey::PrintScreen => 99,
        KeyboardKey::Menu => 139,
        KeyboardKey::F1 => 59,
        KeyboardKey::F2 => 60,
        KeyboardKey::F3 => 61,
        KeyboardKey::F4 => 62,
        KeyboardKey::F5 => 63,
        KeyboardKey::F6 => 64,
        KeyboardKey::F7 => 65,
        KeyboardKey::F8 => 66,
        KeyboardKey::F9 => 67,
        KeyboardKey::F10 => 68,
        KeyboardKey::F11 => 87,
        KeyboardKey::F12 => 88,
        KeyboardKey::F13 => 183,
        KeyboardKey::F14 => 184,
        KeyboardKey::F15 => 185,
        KeyboardKey::F16 => 186,
        KeyboardKey::F17 => 187,
        KeyboardKey::F18 => 188,
        KeyboardKey::F19 => 189,
        KeyboardKey::F20 => 190,
        KeyboardKey::F21 => 191,
        KeyboardKey::F22 => 192,
        KeyboardKey::F23 => 193,
        KeyboardKey::F24 => 194,
    }
}

/// The keyboard key with Linux key code `code`, if the remote keyboard has one.
pub open spec fn spec_key_for_code(code: i32) -> Option<KeyboardKey> {
    match code {
        30 => Some(KeyboardKey::A),
        48 => Some(KeyboardKey::B),
        46 => Some(KeyboardKey::C),
        32 => Some(KeyboardKey::D),
        18 => Some(KeyboardKey::E),
        33 => Some(KeyboardKey::F),
        34 => Some(KeyboardKey::G),
        35 => Some(KeyboardKey::H),
        23 => Some(KeyboardKey::I),
        36 => Some(KeyboardKey::J),
        37 => Some(KeyboardKey::K),
        38 => Some(KeyboardKey::L),
        50 => Some(KeyboardKey::M),
        49 => Some(KeyboardKey::N),
        24 => Some(KeyboardKey::O),
        25 => Some(KeyboardKey::P),
        16 => Some(KeyboardKey::Q),
        19 => Some(KeyboardKey::R),
        31 => Some(KeyboardKey::S),
        20 => Some(KeyboardKey::T),
        22 => Some(KeyboardKey::U),
        47 => Some(KeyboardKey::V),
        17 => Some(KeyboardKey::W),
        45 => Some(KeyboardKey::X),
        21 => Some(KeyboardKey::Y),
        44 => Some(KeyboardKey::Z),
        11 => Some(KeyboardKey::Digit0),
        2 => Some(KeyboardKey::Digit1),
        3 => Some(KeyboardKey::Digit2),
        4 => Some(KeyboardKey::Digit3),
        5 => Some(KeyboardKey::Digit4),
        6 => Some(KeyboardKey::Digit5),
        7 => Some(KeyboardKey::Digit6),
        8 => Some(KeyboardKey::Digit7),
        9 => Some(KeyboardKey::Digit8),
        10 => Some(KeyboardKey::Digit9),
        57 => Some(KeyboardKey::Space),
        12 => Some(KeyboardKey::Minus),
        13 => Some(KeyboardKey::Equal),
        26 => Some(KeyboardKey::LeftBracket),
        27 => Some(KeyboardKey::RightBracket),
        43 => Some(KeyboardKey::Backslash),
        39 => Some(KeyboardKey::Semicolon),
        40 => Some(KeyboardKey::Quote),
        41 => Some(KeyboardKey::Backquote),
        51 => Some(KeyboardKey::Comma),
        52 => Some(KeyboardKey::Period),
        53 => Some(KeyboardKey::Slash),
        1 => Some(KeyboardKey::Escape),
        15 => Some(KeyboardKey::Tab),
        28 => Some(KeyboardKey::Enter),
        14 => Some(KeyboardKey::Backspace),
        111 => Some(KeyboardKey::Delete),
        110 => Some(KeyboardKey::Insert),
        102 => Some(KeyboardKey::Home),
        107 => Some(KeyboardKey::End),
        104 => Some(KeyboardKey::PageUp),
        109 => Some(KeyboardKey::PageDown),
        103 => Some(KeyboardKey::ArrowUp),
        108 => Some(KeyboardKey::ArrowDown),
        105 => Some(KeyboardKey::ArrowLeft),
        106 => Some(KeyboardKey::ArrowRight),
        42 => Some(KeyboardKey::ShiftLeft),
        54 => Some(KeyboardKey::ShiftRight),
        29 => Some(KeyboardKey::ControlLeft),
        97 => Some(KeyboardKey::ControlRight),
        56 => Some(KeyboardKey::AltLeft),
        100 => Some(KeyboardKey::AltRight),
        125 => Some(KeyboardKey::MetaLeft),
        126 => Some(KeyboardKey::MetaRight),
        58 => Some(KeyboardKey::CapsLock),
        70 => Some(KeyboardKey::ScrollLock),
        119 => Some(KeyboardKey::Pause),
        99 => Some(KeyboardKey::PrintScreen),
        139 => Some(KeyboardKey::Menu),
        59 => Some(KeyboardKey::F1),
        60 => Some(KeyboardKey::F2),
        61 => Some(KeyboardKey::F3),
        62 => Some(KeyboardKey::F4),
        63 => Some(KeyboardKey::F5),
        64 => Some(KeyboardKey::F6),
        65 => Some(KeyboardKey::F7),
        66 => Some(KeyboardKey::F8),
        67 => Some(KeyboardKey::F9),
        68 => Some(KeyboardKey::F10),
        87 => Some(KeyboardKey::F11),
        88 => Some(KeyboardKey::F12),
        183 => Some(KeyboardKey::F13),
        184 => Some(KeyboardKey::F14),
        185 => Some(KeyboardKey::F15),
        186 => Some(KeyboardKey::F16),
        187 => Some(KeyboardKey::F17),
        188 => Some(KeyboardKey::F18),
        189 => Some(KeyboardKey::F19),
        190 => Some(KeyboardKey::F20),
        191 => Some(KeyboardKey::F21),
        192 => Some(KeyboardKey::F22),
        193 => Some(KeyboardKey::F23),
        194 => Some(KeyboardKey::F24),
        _ => None,
    }
}

/// The Linux key code the virtual device reports for `key`.
pub fn linux_key_code(key: KeyboardKey) -> (code: i32)
    ensures
        code == spec_linux_key_code(key),
        0 < code < 0x100,
{
    match key {
        KeyboardKey::A => 30,
        KeyboardKey::B => 48,
        KeyboardKey::C => 46,
        KeyboardKey::D => 32,
        KeyboardKey::E => 18,
        KeyboardKey::F => 33,
        KeyboardKey::G => 34,
        KeyboardKey::H => 35,
        KeyboardKey::I => 23,
        KeyboardKey::J => 36,
        KeyboardKey::K => 37,
        KeyboardKey::L => 38,
        KeyboardKey::M => 50,
        KeyboardKey::N => 49,
        KeyboardKey::O => 24,
        KeyboardKey::P => 25,
        KeyboardKey::Q => 16,
        KeyboardKey::R => 19,
        KeyboardKey::S => 31,
        KeyboardKey::T => 20,
        KeyboardKey::U => 22,
        KeyboardKey::V => 47,
        KeyboardKey::W => 17,
        KeyboardKey::X => 45,
        KeyboardKey::Y => 21,
        KeyboardKey::Z => 44,
        KeyboardKey::Digit0 => 11,
        KeyboardKey::Digit1 => 2,
        KeyboardKey::Digit2 => 3,
        KeyboardKey::Digit3 => 4,
        KeyboardKey::Digit4 => 5,
        KeyboardKey::Digit5 => 6,
        KeyboardKey::Digit6 => 7,
        KeyboardKey::Digit7 => 8,
        KeyboardKey::Digit8 => 9,
        KeyboardKey::Digit9 => 10,
        KeyboardKey::Space => 57,
        KeyboardKey::Minus => 12,
        KeyboardKey::Equal => 13,
        KeyboardKey::LeftBracket => 26,
        KeyboardKey::RightBracket => 27,
        KeyboardKey::Backslash => 43,
        KeyboardKey::Semicolon => 39,
        KeyboardKey::Quote => 40,
        KeyboardKey::Backquote => 41,
        KeyboardKey::Comma => 51,
        KeyboardKey::Period => 52,
        KeyboardKey::Slash => 53,
        KeyboardKey::Escape => 1,
        KeyboardKey::Tab => 15,
        KeyboardKey::Enter => 28,
        KeyboardKey::Backspace => 14,
        KeyboardKey::Delete => 111,
        KeyboardKey::Insert => 110,
        KeyboardKey::Home => 102,
        KeyboardKey::End => 107,
        KeyboardKey::PageUp => 104,
        KeyboardKey::PageDown => 109,
        KeyboardKey::ArrowUp => 103,
        KeyboardKey::ArrowDown => 108,
        KeyboardKey::ArrowLeft => 105,
        KeyboardKey::ArrowRight => 106,
        KeyboardKey::ShiftLeft => 42,
        KeyboardKey::ShiftRight => 54,
        KeyboardKey::ControlLeft => 29,
        KeyboardKey::ControlRight => 97,
        KeyboardKey::AltLeft => 56,
        KeyboardKey::AltRight => 100,
        KeyboardKey::MetaLeft => 125,
        KeyboardKey::MetaRight => 126,
        KeyboardKey::CapsLock => 58,
        KeyboardKey::ScrollLock => 70,
        KeyboardKey::Pause => 119,
        KeyboardKey::PrintScreen => 99,
        KeyboardKey::Menu => 139,
        KeyboardKey::F1 => 59,
        KeyboardKey::F2 => 60,
        KeyboardKey::F3 => 61,
        KeyboardKey::F4 => 62,
        KeyboardKey::F5 => 63,
        KeyboardKey::F6 => 64,
        KeyboardKey::F7 => 65,
        KeyboardKey::F8 => 66,
        KeyboardKey::F9 => 67,
        KeyboardKey::F10 => 68,
        KeyboardKey::F11 => 87,
        KeyboardKey::F12 => 88,
        KeyboardKey::F13 => 183,
        KeyboardKey::F14 => 184,
        KeyboardKey::F15 => 185,
        KeyboardKey::F16 => 186,
        KeyboardKey::F17 => 187,
        KeyboardKey::F18 => 188,
        KeyboardKey::F19 => 189,
        KeyboardKey::F20 => 190,
        KeyboardKey::F21 => 191,
        KeyboardKey::F22 => 192,
        KeyboardKey::F23 => 193,
        KeyboardKey::F24 => 194,
    }
}

/// The Linux button code of a pointer button.
pub open spec fn spec_linux_button_code(button: MouseButton) -> i32 {
    match button {
        MouseButton::Left => 0x110,
        MouseButton::Right => 0x111,
        MouseButton::Middle => 0x112,
        MouseButton::Back => 0x116,
        MouseButton::Forward => 0x115,
    }
}

/// The Linux button code the virtual device reports for `button`.
pub fn linux_button_code(button: MouseButton) -> (code: i32)
    ensures
        code == spec_linux_button_code(button),
{
    match button {
        MouseButton::Left => 0x110,
        MouseButton::Right => 0x111,
        MouseButton::Middle => 0x112,
        MouseButton::Back => 0x116,
        MouseButton::Forward => 0x115,
    }
}

/// Distinct keys have distinct key codes, so every key of the remote keyboard
/// is told apart by the device.
pub proof fn linux_key_codes_are_distinct(a: KeyboardKey, b: KeyboardKey)
    ensures
        spec_linux_key_code(a) == spec_linux_key_code(b) ==> a == b,
{
    assert(spec_key_for_code(spec_linux_key_code(a)) == Some(a));
    assert(spec_key_for_code(spec_linux_key_code(b)) == Some(b));
}

/// Distinct buttons have distinct codes, and no button shares its code with a
/// key.
pub proof fn linux_button_codes_are_distinct(a: MouseButton, b: MouseButton, key: KeyboardKey)
    ensures
        spec_linux_button_code(a) == spec_linux_button_code(b) ==> a == b,
        spec_linux_button_code(a) != spec_linux_key_code(key),
{
    assert(0 < spec_linux_key_code(key) < 0x100);
}

/// Every keyboard key of the remote keyboard, in declaration order.
pub open spec fn spec_all_keys() -> Seq<KeyboardKey> {
    seq![KeyboardKey::A, KeyboardKey::B, KeyboardKey::C, KeyboardKey::D, KeyboardKey::E, KeyboardKey::F, KeyboardKey::G, KeyboardKey::H, KeyboardKey::I, KeyboardKey::J, KeyboardKey::K, KeyboardKey::L, KeyboardKey::M, KeyboardKey::N, KeyboardKey::O, KeyboardKey::P, KeyboardKey::Q, KeyboardKey::R, KeyboardKey::S, KeyboardKey::T, KeyboardKey::U, KeyboardKey::V, KeyboardKey::W, KeyboardKey::X, KeyboardKey::Y, KeyboardKey::Z, KeyboardKey::Digit0, KeyboardKey::Digit1, KeyboardKey::Digit2, KeyboardKey::Digit3, KeyboardKey::Digit4, KeyboardKey::Digit5, KeyboardKey::Digit6, KeyboardKey::Digit7, KeyboardKey::Digit8, KeyboardKey::Digit9, KeyboardKey::Space, KeyboardKey::Minus, KeyboardKey::Equal, KeyboardKey::LeftBracket, KeyboardKey::RightBracket, KeyboardKey::Backslash, KeyboardKey::Semicolon, KeyboardKey::Quote, KeyboardKey::Backquote, KeyboardKey::Comma, KeyboardKey::Period, KeyboardKey::Slash, KeyboardKey::Escape, KeyboardKey::Tab, KeyboardKey::Enter, KeyboardKey::Backspace, KeyboardKey::Delete, KeyboardKey::Insert, KeyboardKey::Home, KeyboardKey::End, KeyboardKey::PageUp, KeyboardKey::PageDown, KeyboardKey::ArrowUp, KeyboardKey::ArrowDown, KeyboardKey::ArrowLeft, KeyboardKey::ArrowRight, KeyboardKey::ShiftLeft, KeyboardKey::ShiftRight, KeyboardKey::ControlLeft, KeyboardKey::ControlRight, KeyboardKey::AltLeft, KeyboardKey::AltRight, KeyboardKey::MetaLeft, KeyboardKey::MetaRight, KeyboardKey::CapsLock, KeyboardKey::ScrollLock, KeyboardKey::Pause, KeyboardKey::PrintScreen, KeyboardKey::Menu, KeyboardKey::F1, KeyboardKey::F2, KeyboardKey::F3, KeyboardKey::F4, KeyboardKey::F5, KeyboardKey::F6, KeyboardKey::F7, KeyboardKey::F8, KeyboardKey::F9, KeyboardKey::F10, KeyboardKey::F11, KeyboardKey::F12, KeyboardKey::F13, KeyboardKey::F14, KeyboardKey::F15, KeyboardKey::F16, KeyboardKey::F17, KeyboardKey::F18, KeyboardKey::F19, KeyboardKey::F20, KeyboardKey::F21, KeyboardKey::F22, KeyboardKey::F23, KeyboardKey::F24]
}

/// Every keyboard key, in declaration order.
pub fn all_keyboard_keys() -> (keys: Vec<KeyboardKey>)
    ensures
        keys@ == spec_all_keys(),
{
    let keys = vec![KeyboardKey::A, KeyboardKey::B, KeyboardKey::C, KeyboardKey::D, KeyboardKey::E, KeyboardKey::F, KeyboardKey::G, KeyboardKey::H, KeyboardKey::I, KeyboardKey::J, KeyboardKey::K, KeyboardKey::L, KeyboardKey::M, KeyboardKey::N, KeyboardKey::O, KeyboardKey::P, KeyboardKey::Q, KeyboardKey::R, KeyboardKey::S, KeyboardKey::T, KeyboardKey::U, KeyboardKey::V, KeyboardKey::W, KeyboardKey::X, KeyboardKey::Y, KeyboardKey::Z, KeyboardKey::Digit0, KeyboardKey::Digit1, KeyboardKey::Digit2, KeyboardKey::Digit3, KeyboardKey::Digit4, KeyboardKey::Digit5, KeyboardKey::Digit6, KeyboardKey::Digit7, KeyboardKey::Digit8, KeyboardKey::Digit9, KeyboardKey::Space, KeyboardKey::Minus, KeyboardKey::Equal, KeyboardKey::LeftBracket, KeyboardKey::RightBracket, KeyboardKey::Backslash, KeyboardKey::Semicolon, KeyboardKey::Quote, KeyboardKey::Backquote, KeyboardKey::Comma, KeyboardKey::Period, KeyboardKey::Slash, KeyboardKey::Escape, KeyboardKey::Tab, KeyboardKey::Enter, KeyboardKey::Backspace, KeyboardKey::Delete, KeyboardKey::Insert, KeyboardKey::Home, KeyboardKey::End, KeyboardKey::PageUp, KeyboardKey::PageDown, KeyboardKey::ArrowUp, KeyboardKey::ArrowDown, KeyboardKey::ArrowLeft, KeyboardKey::ArrowRight, KeyboardKey::ShiftLeft, KeyboardKey::ShiftRight, KeyboardKey::ControlLeft, KeyboardKey::ControlRight, KeyboardKey::AltLeft, KeyboardKey::AltRight, KeyboardKey::MetaLeft, KeyboardKey::MetaRight, KeyboardKey::CapsLock, KeyboardKey::ScrollLock, KeyboardKey::Pause, KeyboardKey::PrintScreen, KeyboardKey::Menu, KeyboardKey::F1, KeyboardKey::F2, KeyboardKey::F3, KeyboardKey::F4, KeyboardKey::F5, KeyboardKey::F6, KeyboardKey::F7, KeyboardKey::F8, KeyboardKey::F9, KeyboardKey::F10, KeyboardKey::F11, KeyboardKey::F12, KeyboardKey::F13, KeyboardKey::F14, KeyboardKey::F15, KeyboardKey::F16, KeyboardKey::F17, KeyboardKey::F18, KeyboardKey::F19, KeyboardKey::F20, KeyboardKey::F21, KeyboardKey::F22, KeyboardKey::F23, KeyboardKey::F24];
    keys
}

/// A key press or release from the remote side.
#[derive(Debug, Clone, Copy, PartialEq, Eq)]
pub struct KeyboardInput {
    pub key: KeyboardKey,
    pub state: InputState,
    /// Whether the press is an auto-repeat of a held key.
    pub repeat: bool,
}

/// A pointer button press or release from the remote side.
#[derive(Debug, Clone, Copy, PartialEq, Eq)]
pub struct MouseButtonInput {
    pub button: MouseButton,
    pub state: InputState,
}

/// A relative pointer movement from the remote side.
#[derive(Debug, Clone, Copy, PartialEq, Eq)]
pub struct RelativePointerMove {
    pub delta_x: i32,
    pub delta_y: i32,
}

/// One event as written to the uinput device.
#[derive(Debug, Clone, Copy, PartialEq, Eq)]
pub struct InputEvent {
    pub event_type: u16,
    pub code: u16,
    pub value: i32,
}

/// The report that ends a group of events.
pub open spec fn spec_sync_report() -> InputEvent {
    InputEvent { event_type: EV_SYN, code: SYN_REPORT, value: 0 }
}

/// The key event value: 1 for a press, 2 for an auto-repeat, 0 for a release.
pub open spec fn spec_keyboard_value(state: InputState, repeat: bool) -> i32 {
    match state {
        InputState::Pressed => if repeat { 2 } else { 1 },
        InputState::Released => 0,
    }
}

/// The key event value of a keyboard input.
pub fn keyboard_value(state: InputState, repeat: bool) -> (v: i32)
    ensures
        v == spec_keyboard_value(state, repeat),
{
    match state {
        InputState::Pressed => if repeat { 2 } else { 1 },
        InputState::Released => 0,
    }
}

/// The events that report a keyboard input: the key event, then a report.
pub fn keyboard_events(input: KeyboardInput) -> (events: [InputEvent; 2])
    ensures
        events@ == seq![
            InputEvent {
                event_type: EV_KEY,
                code: spec_linux_key_code(input.key) as u16,
                value: spec_keyboard_value(input.state, input.repeat),
            },
            spec_sync_report(),
        ],
{
    let code = linux_key_code(input.key) as u16;
    let events = [
        InputEvent { event_type: EV_KEY, code, value: keyboard_value(input.state, input.repeat) },
        InputEvent { event_type: EV_SYN, code: SYN_REPORT, value: 0 },
    ];
    assert(events@ =~= seq![events[0], events[1]]);
    events
}

/// The events that report a pointer button: 1 for a press, 0 for a release,
/// then a report.
pub fn mouse_button_events(input: MouseButtonInput) -> (events: [InputEvent; 2])
    ensures
        events@ == seq![
            InputEvent {
                event_type: EV_KEY,
                code: spec_linux_button_code(input.button) as u16,
                value: if input.state == InputState::Pressed { 1i32 } else { 0i32 },
            },
            spec_sync_report(),
        ],
{
    let code = linux_button_code(input.button) as u16;
    let value: i32 = match input.state {
        InputState::Pressed => 1,
        InputState::Released => 0,
    };
    let events = [
        InputEvent { event_type: EV_KEY, code, value },
        InputEvent { event_type: EV_SYN, code: SYN_REPORT, value: 0 },
    ];
    assert(events@ =~= seq![events[0], events[1]]);
    events
}

/// The events that move the pointer to desktop position (`x`, `y`) on the
/// device's 16-bit absolute axes.
pub fn absolute_move_events(x: u16, y: u16) -> (events: [InputEvent; 3])
    ensures
        events@ == seq![
            InputEvent { event_type: EV_ABS, code: ABS_X, value: x as i32 },
            InputEvent { event_type: EV_ABS, code: ABS_Y, value: y as i32 },
            spec_sync_report(),
        ],
{
    let events = [
        InputEvent { event_type: EV_ABS, code: ABS_X, value: x as i32 },
        InputEvent { event_type: EV_ABS, code: ABS_Y, value: y as i32 },
        InputEvent { event_type: EV_SYN, code: SYN_REPORT, value: 0 },
    ];
    assert(events@ =~= seq![events[0], events[1], events[2]]);
    events
}

/// The events that move the pointer by a relative amount.
pub fn relative_move_events(movement: RelativePointerMove) -> (events: [InputEvent; 3])
    ensures
        events@ == seq![
            InputEvent { event_type: EV_REL, code: REL_X, value: movement.delta_x },
            InputEvent { event_type: EV_REL, code: REL_Y, value: movement.delta_y },
            spec_sync_report(),
        ],
{
    let events = [
        InputEvent { event_type: EV_REL, code: REL_X, value: movement.delta_x },
        InputEvent { event_type: EV_REL, code: REL_Y, value: movement.delta_y },
        InputEvent { event_type: EV_SYN, code: SYN_REPORT, value: 0 },
    ];
    assert(events@ =~= seq![events[0], events[1], events[2]]);
    events
}

/// An ioctl request number without data transfer: type and number.
pub fn ioctl_none(kind: u64, number: u64) -> (request: u64)
    ensures
        request == (kind << 8u64) | number,
{
    (kind << 8u64) | number
}

/// An ioctl request number that writes `size` bytes: direction bit 30, the
/// size from bit 16, then type and number.
pub fn ioctl_write(kind: u64, number: u64, size: u64) -> (request: u64)
    ensures
        request == (1u64 << 30u64) | (size << 16u64) | (kind << 8u64) | number,
{
    (1u64 << 30u64) | (size << 16u64) | (kind << 8u64) | number
}

/// One request of the uinput device setup.
#[derive(Debug, Clone, Copy, PartialEq, Eq)]
pub enum UInputSetupStep {
    /// An ioctl whose argument is an integer.
    SetBit { request: u64, value: i32 },
    /// Configure absolute axis `code` to span 0..=65535.
    SetupAxis { request: u64, code: u16 },
    /// Describe the device: bus, vendor, product, version and name.
    SetupDevice { request: u64 },
    /// Create the device.
    CreateDevice { request: u64 },
}

/// The setup of the virtual device: key events for the five pointer buttons
/// and every keyboard key, absolute and relative axes, the pointer property,
/// both absolute axes, the device description, then creation. The request
/// numbers depend on the sizes of the kernel's setup structures.
pub open spec fn spec_uinput_setup(setup_size: u64, abs_setup_size: u64) -> Seq<UInputSetupStep> {
    let int_size: u64 = 4;
    let set_evbit = ((1u64 << 30u64) | (int_size << 16u64) | (UINPUT_IOCTL_BASE << 8u64) | 100u64);
    let set_keybit = ((1u64 << 30u64) | (int_size << 16u64) | (UINPUT_IOCTL_BASE << 8u64) | 101u64);
    let set_relbit = ((1u64 << 30u64) | (int_size << 16u64) | (UINPUT_IOCTL_BASE << 8u64) | 102u64);
    let set_propbit = ((1u64 << 30u64) | (int_size << 16u64) | (UINPUT_IOCTL_BASE << 8u64) | 110u64);
    let abs_setup = ((1u64 << 30u64) | (abs_setup_size << 16u64) | (UINPUT_IOCTL_BASE << 8u64) | 4u64);
    seq![UInputSetupStep::SetBit { request: set_evbit, value: EV_KEY as i32 }] + seq![
        MouseButton::Left,
        MouseButton::Right,
        MouseButton::Middle,
        MouseButton::Back,
        MouseButton::Forward,
    ].map_values(
        |b: MouseButton| UInputSetupStep::SetBit { request: set_keybit, value: spec_linux_button_code(b) },
    ) + spec_all_keys().map_values(
        |k: KeyboardKey| UInputSetupStep::SetBit { request: set_keybit, value: spec_linux_key_code(k) },
    ) + seq![
        UInputSetupStep::SetBit { request: set_evbit, value: EV_ABS as i32 },
        UInputSetupStep::SetBit { request: set_evbit, value: EV_REL as i32 },
        UInputSetupStep::SetBit { request: set_relbit, value: REL_X as i32 },
        UInputSetupStep::SetBit { request: set_relbit, value: REL_Y as i32 },
        UInputSetupStep::SetBit { request: set_propbit, value: INPUT_PROP_POINTER },
        UInputSetupStep::SetupAxis { request: abs_setup, code: ABS_X },
        UInputSetupStep::SetupAxis { request: abs_setup, code: ABS_Y },
        UInputSetupStep::SetupDevice {
            request: (1u64 << 30u64) | (setup_size << 16u64) | (UINPUT_IOCTL_BASE << 8u64) | 3u64,
        },
        UInputSetupStep::CreateDevice { request: (UINPUT_IOCTL_BASE << 8u64) | 1u64 },
    ]
}

/// The requests that set up the virtual device, given the byte sizes of the
/// kernel's device and axis setup structures.
pub fn uinput_setup_steps(setup_size: u64, abs_setup_size: u64) -> (steps: Vec<UInputSetupStep>)
    ensures
        steps@ == spec_uinput_setup(setup_size, abs_setup_size),
{
    let set_evbit = ioctl_write(UINPUT_IOCTL_BASE, 100, 4);
    let set_keybit = ioctl_write(UINPUT_IOCTL_BASE, 101, 4);
    let set_relbit = ioctl_write(UINPUT_IOCTL_BASE, 102, 4);
    let set_propbit = ioctl_write(UINPUT_IOCTL_BASE, 110, 4);
    let abs_setup = ioctl_write(UINPUT_IOCTL_BASE, 4, abs_setup_size);
    let dev_setup = ioctl_write(UINPUT_IOCTL_BASE, 3, setup_size);
    let dev_create = ioctl_none(UINPUT_IOCTL_BASE, 1);
    let mut steps: Vec<UInputSetupStep> = Vec::new();
    steps.push(UInputSetupStep::SetBit { request: set_evbit, value: EV_KEY as i32 });
    let buttons = [
        MouseButton::Left,
        MouseButton::Right,
        MouseButton::Middle,
        MouseButton::Back,
        MouseButton::Forward,
    ];
    let ghost button_seq = seq![
        MouseButton::Left,
        MouseButton::Right,
        MouseButton::Middle,
        MouseButton::Back,
        MouseButton::Forward,
    ];
    assert(buttons@ =~= button_seq);
    let ghost head = steps@;
    let mut i: usize = 0;
    while i < 5
        invariant
            i <= 5,
            buttons@ == button_seq,
            steps@ == head + button_seq.take(i as int).map_values(
                |b: MouseButton| UInputSetupStep::SetBit { request: set_keybit, value: spec_linux_button_code(b) },
            ),
        decreases 5 - i,
    {
        steps.push(UInputSetupStep::SetBit { request: set_keybit, value: linux_button_code(buttons[i]) });
        assert(button_seq.take(i as int + 1) =~= button_seq.take(i as int).push(buttons@[i as int]));
        i = i + 1;
    }
    assert(button_seq.take(5) =~= button_seq);
    let keys = all_keyboard_keys();
    let ghost middle = steps@;
    let mut k: usize = 0;
    while k < keys.len()
        invariant
            k <= keys@.len(),
            keys@ == spec_all_keys(),
            steps@ == middle + keys@.take(k as int).map_values(
                |key: KeyboardKey| UInputSetupStep::SetBit { request: set_keybit, value: spec_linux_key_code(key) },
            ),
        decreases keys@.len() - k,
    {
        steps.push(UInputSetupStep::SetBit { request: set_keybit, value: linux_key_code(keys[k]) });
        assert(keys@.take(k as int + 1) =~= keys@.take(k as int).push(keys@[k as int]));
        k = k + 1;
    }
    assert(keys@.take(keys@.len() as int) =~= keys@);
    steps.push(UInputSetupStep::SetBit { request: set_evbit, value: EV_ABS as i32 });
    steps.push(UInputSetupStep::SetBit { request: set_evbit, value: EV_REL as i32 });
    steps.push(UInputSetupStep::SetBit { request: set_relbit, value: REL_X as i32 });
    steps.push(UInputSetupStep::SetBit { request: set_relbit, value: REL_Y as i32 });
    steps.push(UInputSetupStep::SetBit { request: set_propbit, value: INPUT_PROP_POINTER });
    steps.push(UInputSetupStep::SetupAxis { request: abs_setup, code: ABS_X });
    steps.push(UInputSetupStep::SetupAxis { request: abs_setup, code: ABS_Y });
    steps.push(UInputSetupStep::SetupDevice { request: dev_setup });
    steps.push(UInputSetupStep::CreateDevice { request: dev_create });
    assert(steps@ =~= spec_uinput_setup(setup_size, abs_setup_size));
    steps
}


/// The ioctls that set up the absolute-pointer uinput device: key events with
/// the left button only, absolute events, the pointer property, both axes,
/// then the device itself.
pub open spec fn spec_absolute_pointer_setup(setup_size: u64, abs_setup_size: u64) -> Seq<UInputSetupStep> {
    let int_size: u64 = 4;
    let set_evbit = ((1u64 << 30u64) | (int_size << 16u64) | (UINPUT_IOCTL_BASE << 8u64) | 100u64);
    let set_keybit = ((1u64 << 30u64) | (int_size << 16u64) | (UINPUT_IOCTL_BASE << 8u64) | 101u64);
    let set_propbit = ((1u64 << 30u64) | (int_size << 16u64) | (UINPUT_IOCTL_BASE << 8u64) | 110u64);
    let abs_setup = ((1u64 << 30u64) | (abs_setup_size << 16u64) | (UINPUT_IOCTL_BASE << 8u64) | 4u64);
    seq![
        UInputSetupStep::SetBit { request: set_evbit, value: EV_KEY as i32 },
        UInputSetupStep::SetBit { request: set_keybit, value: spec_linux_button_code(MouseButton::Left) },
        UInputSetupStep::SetBit { request: set_evbit, value: EV_ABS as i32 },
        UInputSetupStep::SetBit { request: set_propbit, value: INPUT_PROP_POINTER },
        UInputSetupStep::SetupAxis { request: abs_setup, code: ABS_X },
        UInputSetupStep::SetupAxis { request: abs_setup, code: ABS_Y },
        UInputSetupStep::SetupDevice {
            request: (1u64 << 30u64) | (setup_size << 16u64) | (UINPUT_IOCTL_BASE << 8u64) | 3u64,
        },
        UInputSetupStep::CreateDevice { request: (UINPUT_IOCTL_BASE << 8u64) | 1u64 },
    ]
}

/// The setup of the absolute-pointer device; see `spec_absolute_pointer_setup`.
pub fn absolute_pointer_setup_steps(setup_size: u64, abs_setup_size: u64) -> (steps: Vec<UInputSetupStep>)
    ensures
        steps@ == spec_absolute_pointer_setup(setup_size, abs_setup_size),
{
    let set_evbit = ioctl_write(UINPUT_IOCTL_BASE, 100, 4);
    let set_keybit = ioctl_write(UINPUT_IOCTL_BASE, 101, 4);
    let set_propbit = ioctl_write(UINPUT_IOCTL_BASE, 110, 4);
    let abs_setup = ioctl_write(UINPUT_IOCTL_BASE, 4, abs_setup_size);
    let steps = vec![
        UInputSetupStep::SetBit { request: set_evbit, value: EV_KEY as i32 },
        UInputSetupStep::SetBit { request: set_keybit, value: linux_button_code(MouseButton::Left) },
        UInputSetupStep::SetBit { request: set_evbit, value: EV_ABS as i32 },
        UInputSetupStep::SetBit { request: set_propbit, value: INPUT_PROP_POINTER },
        UInputSetupStep::SetupAxis { request: abs_setup, code: ABS_X },
        UInputSetupStep::SetupAxis { request: abs_setup, code: ABS_Y },
        UInputSetupStep::SetupDevice { request: ioctl_write(UINPUT_IOCTL_BASE, 3, setup_size) },
        UInputSetupStep::CreateDevice { request: ioctl_none(UINPUT_IOCTL_BASE, 1) },
    ];
    assert(steps@ =~= spec_absolute_pointer_setup(setup_size, abs_setup_size));
    steps
}

} // verus!
