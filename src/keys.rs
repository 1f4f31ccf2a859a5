use vstd::prelude::*;

verus! {

/// The engine's logical keys.
#[derive(Debug, Clone, Copy, PartialEq, Eq, Hash, Structural)]
pub enum KeyCode {
    A,
    B,
    C,
    D,
    E,
    F,
    G,
    H,
    I,
    J,
    K,
    L,
    M,
    N,
    O,
    P,
    Q,
    R,
    S,
    T,
    U,
    V,
    W,
    X,
    Y,
    Z,
    Key1,
    Key2,
    Key3,
    Key4,
    Key5,
    Key6,
    Key7,
    Key8,
    Key9,
    Key0,
    Return,
    Escape,
    Delete,
    Tab,
    Space,
    Minus,
    Equals,
    LBracket,
    RBracket,
    Backslash,
    Semicolon,
    Apostrophe,
    Grave,
    Comma,
    Period,
    Slash,
    CapsLock,
    F1,
    F2,
    F3,
    F4,
    F5,
    F6,
    F7,
    F8,
    F9,
    F10,
    F11,
    F12,
    ScrollLock,
    Pause,
    Insert,
    Home,
    PgUp,
    End,
    PgDown,
    Right,
    Left,
    Down,
    Up,
    NumLock,
    NumpadSlash,
    Multiply,
    NumpadMinus,
    Plus,
    NumpadEnter,
    Numpad1,
    Numpad2,
    Numpad3,
    Numpad4,
    Numpad5,
    Numpad6,
    Numpad7,
    Numpad8,
    Numpad9,
    Numpad0,
    NumpadPeriod,
    F13,
    F14,
    F15,
    F16,
    F17,
    F18,
    F19,
    F20,
    F21,
    F22,
    F23,
    F24,
    Control,
    Shift,
    Alt,
    Command,
    Unknown,
}

/// The logical key of a keyboard usage code (USB HID usage page 0x07).
/// Usages with no logical key give `KeyCode::Unknown`.
pub open spec fn key_of(code: u32) -> KeyCode {
    match code {
        4 => KeyCode::A,
        5 => KeyCode::B,
        6 => KeyCode::C,
        7 => KeyCode::D,
        8 => KeyCode::E,
        9 => KeyCode::F,
        10 => KeyCode::G,
        11 => KeyCode::H,
        12 => KeyCode::I,
        13 => KeyCode::J,
        14 => KeyCode::K,
        15 => KeyCode::L,
        16 => KeyCode::M,
        17 => KeyCode::N,
        18 => KeyCode::O,
        19 => KeyCode::P,
        20 => KeyCode::Q,
        21 => KeyCode::R,
        22 => KeyCode::S,
        23 => KeyCode::T,
        24 => KeyCode::U,
        25 => KeyCode::V,
        26 => KeyCode::W,
        27 => KeyCode::X,
        28 => KeyCode::Y,
        29 => KeyCode::Z,
        30 | 135 => KeyCode::Key1,
        31 | 136 => KeyCode::Key2,
        32 | 137 => KeyCode::Key3,
        33 | 138 => KeyCode::Key4,
        34 | 139 => KeyCode::Key5,
        35 | 140 => KeyCode::Key6,
        36 | 141 => KeyCode::Key7,
        37 | 142 => KeyCode::Key8,
        38 | 143 => KeyCode::Key9,
        39 => KeyCode::Key0,
        40 | 158 => KeyCode::Return,
        41 => KeyCode::Escape,
        42 => KeyCode::Delete,
        43 => KeyCode::Tab,
        44 => KeyCode::Space,
        45 => KeyCode::Minus,
        46 | 103 | 134 => KeyCode::Equals,
        47 => KeyCode::LBracket,
        48 => KeyCode::RBracket,
        49 | 100 => KeyCode::Backslash,
        51 => KeyCode::Semicolon,
        52 => KeyCode::Apostrophe,
        53 => KeyCode::Grave,
        54 | 133 => KeyCode::Comma,
        55 => KeyCode::Period,
        56 => KeyCode::Slash,
        57 => KeyCode::CapsLock,
        58 => KeyCode::F1,
        59 => KeyCode::F2,
        60 => KeyCode::F3,
        61 => KeyCode::F4,
        62 => KeyCode::F5,
        63 => KeyCode::F6,
        64 => KeyCode::F7,
        65 => KeyCode::F8,
        66 => KeyCode::F9,
        67 => KeyCode::F10,
        68 => KeyCode::F11,
        69 => KeyCode::F12,
        71 => KeyCode::ScrollLock,
        72 => KeyCode::Pause,
        73 => KeyCode::Insert,
        74 => KeyCode::Home,
        75 => KeyCode::PgUp,
        77 => KeyCode::End,
        78 => KeyCode::PgDown,
        79 => KeyCode::Right,
        80 => KeyCode::Left,
        81 => KeyCode::Down,
        82 => KeyCode::Up,
        83 => KeyCode::NumLock,
        84 => KeyCode::NumpadSlash,
        85 => KeyCode::Multiply,
        86 => KeyCode::NumpadMinus,
        87 => KeyCode::Plus,
        88 => KeyCode::NumpadEnter,
        89 => KeyCode::Numpad1,
        90 => KeyCode::Numpad2,
        91 => KeyCode::Numpad3,
        92 => KeyCode::Numpad4,
        93 => KeyCode::Numpad5,
        94 => KeyCode::Numpad6,
        95 => KeyCode::Numpad7,
        96 => KeyCode::Numpad8,
        97 => KeyCode::Numpad9,
        98 => KeyCode::Numpad0,
        99 => KeyCode::NumpadPeriod,
        104 => KeyCode::F13,
        105 => KeyCode::F14,
        106 => KeyCode::F15,
        107 => KeyCode::F16,
        108 => KeyCode::F17,
        109 => KeyCode::F18,
        110 => KeyCode::F19,
        111 => KeyCode::F20,
        112 => KeyCode::F21,
        113 => KeyCode::F22,
        114 => KeyCode::F23,
        115 => KeyCode::F24,
        224 | 228 => KeyCode::Control,
        225 | 229 => KeyCode::Shift,
        226 | 230 => KeyCode::Alt,
        227 | 231 => KeyCode::Command,
        _ => KeyCode::Unknown,
    }
}

/// Maps a hardware keyboard usage code to the engine's logical key. The
/// mapping is total: unmapped codes give `KeyCode::Unknown`.
pub fn key_code_to_ruffle(code: u32) -> (r: KeyCode)
    ensures
        r == key_of(code),
{
    match code {
        4 => KeyCode::A,
        5 => KeyCode::B,
        6 => KeyCode::C,
        7 => KeyCode::D,
        8 => KeyCode::E,
        9 => KeyCode::F,
        10 => KeyCode::G,
        11 => KeyCode::H,
        12 => KeyCode::I,
        13 => KeyCode::J,
        14 => KeyCode::K,
        15 => KeyCode::L,
        16 => KeyCode::M,
        17 => KeyCode::N,
        18 => KeyCode::O,
        19 => KeyCode::P,
        20 => KeyCode::Q,
        21 => KeyCode::R,
        22 => KeyCode::S,
        23 => KeyCode::T,
        24 => KeyCode::U,
        25 => KeyCode::V,
        26 => KeyCode::W,
        27 => KeyCode::X,
        28 => KeyCode::Y,
        29 => KeyCode::Z,
        30 | 135 => KeyCode::Key1,
        31 | 136 => KeyCode::Key2,
        32 | 137 => KeyCode::Key3,
        33 | 138 => KeyCode::Key4,
        34 | 139 => KeyCode::Key5,
        35 | 140 => KeyCode::Key6,
        36 | 141 => KeyCode::Key7,
        37 | 142 => KeyCode::Key8,
        38 | 143 => KeyCode::Key9,
        39 => KeyCode::Key0,
        40 | 158 => KeyCode::Return,
        41 => KeyCode::Escape,
        42 => KeyCode::Delete,
        43 => KeyCode::Tab,
        44 => KeyCode::Space,
        45 => KeyCode::Minus,
        46 | 103 | 134 => KeyCode::Equals,
        47 => KeyCode::LBracket,
        48 => KeyCode::RBracket,
        49 | 100 => KeyCode::Backslash,
        51 => KeyCode::Semicolon,
        52 => KeyCode::Apostrophe,
        53 => KeyCode::Grave,
        54 | 133 => KeyCode::Comma,
        55 => KeyCode::Period,
        56 => KeyCode::Slash,
        57 => KeyCode::CapsLock,
        58 => KeyCode::F1,
        59 => KeyCode::F2,
        60 => KeyCode::F3,
        61 => KeyCode::F4,
        62 => KeyCode::F5,
        63 => KeyCode::F6,
        64 => KeyCode::F7,
        65 => KeyCode::F8,
        66 => KeyCode::F9,
        67 => KeyCode::F10,
        68 => KeyCode::F11,
        69 => KeyCode::F12,
        71 => KeyCode::ScrollLock,
        72 => KeyCode::Pause,
        73 => KeyCode::Insert,
        74 => KeyCode::Home,
        75 => KeyCode::PgUp,
        77 => KeyCode::End,
        78 => KeyCode::PgDown,
        79 => KeyCode::Right,
        80 => KeyCode::Left,
        81 => KeyCode::Down,
        82 => KeyCode::Up,
        83 => KeyCode::NumLock,
        84 => KeyCode::NumpadSlash,
        85 => KeyCode::Multiply,
        86 => KeyCode::NumpadMinus,
        87 => KeyCode::Plus,
        88 => KeyCode::NumpadEnter,
        89 => KeyCode::Numpad1,
        90 => KeyCode::Numpad2,
        91 => KeyCode::Numpad3,
        92 => KeyCode::Numpad4,
        93 => KeyCode::Numpad5,
        94 => KeyCode::Numpad6,
        95 => KeyCode::Numpad7,
        96 => KeyCode::Numpad8,
        97 => KeyCode::Numpad9,
        98 => KeyCode::Numpad0,
        99 => KeyCode::NumpadPeriod,
        104 => KeyCode::F13,
        105 => KeyCode::F14,
        106 => KeyCode::F15,
        107 => KeyCode::F16,
        108 => KeyCode::F17,
        109 => KeyCode::F18,
        110 => KeyCode::F19,
        111 => KeyCode::F20,
        112 => KeyCode::F21,
        113 => KeyCode::F22,
        114 => KeyCode::F23,
        115 => KeyCode::F24,
        224 | 228 => KeyCode::Control,
        225 | 229 => KeyCode::Shift,
        226 | 230 => KeyCode::Alt,
        227 | 231 => KeyCode::Command,
        _ => KeyCode::Unknown,
    }
}

} // verus!
