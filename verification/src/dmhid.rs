//! Typed views of the host's input devices.
//!
//! Devices live in the host's input subsystem; the bridge sees each one as an
//! opaque handle, modeled here as a plain integer where the host's null
//! pointer is `0`. Reading and writing live device state happens at the
//! unverified host boundary; this module fixes the handle conventions, the
//! packet layout, and the integer encodings of buttons, keys and touch
//! phases.

use vstd::prelude::*;

verus! {

/// A handle to the host's input context.
#[derive(Clone, Copy, Debug, PartialEq, Eq, Structural)]
pub struct Context {
    /// Raw handle of the host-owned context.
    pub raw: u64,
}

impl Context {
    /// Wraps a raw input-context handle.
    pub fn new(raw: u64) -> (c: Context)
        ensures
            c.raw == raw,
    {
        Context { raw }
    }
}

/// A handle to a keyboard device.
#[derive(Clone, Copy, Debug, PartialEq, Eq, Structural)]
pub struct Keyboard {
    /// Raw handle of the host-owned device.
    pub raw: u64,
}

impl Keyboard {
    /// Wraps a raw keyboard handle; the host's null handle (`0`) means the
    /// device does not exist.
    pub fn new(raw: u64) -> (k: Option<Keyboard>)
        ensures
            raw == 0 ==> k is None,
            raw != 0 ==> k == Some(Keyboard { raw }),
    {
        if raw == 0 {
            None
        } else {
            Some(Keyboard { raw })
        }
    }
}

/// A handle to a mouse device.
#[derive(Clone, Copy, Debug, PartialEq, Eq, Structural)]
pub struct Mouse {
    /// Raw handle of the host-owned device.
    pub raw: u64,
}

impl Mouse {
    /// Wraps a raw mouse handle; the host's null handle (`0`) means the
    /// device does not exist.
    pub fn new(raw: u64) -> (m: Option<Mouse>)
        ensures
            raw == 0 ==> m is None,
            raw != 0 ==> m == Some(Mouse { raw }),
    {
        if raw == 0 {
            None
        } else {
            Some(Mouse { raw })
        }
    }
}

/// The state of a mouse at a given point in time, as the host reports it.
#[derive(Clone, Copy, Debug, PartialEq, Eq, Structural)]
pub struct MousePacket {
    /// X position.
    pub x: i32,
    /// Y position.
    pub y: i32,
    /// Scroll wheel value.
    pub wheel: i32,
    /// Pressed buttons, one bit per button code.
    pub buttons: u32,
}

/// Whether the packet's button bitmask has the bit for the given button code
/// set.
pub open spec fn packet_button_pressed(buttons: u32, code: u32) -> bool
    recommends
        code < 32,
{
    buttons & (1u32 << code) != 0
}

impl MousePacket {
    /// Whether the given button is pressed in this packet.
    pub fn get_button(&self, button: MouseButton) -> (pressed: bool)
        ensures
            pressed == packet_button_pressed(self.buttons, mouse_button_code(button)),
    {
        let code = button.code();
        self.buttons & (1u32 << code) != 0
    }
}

/// A handle to a touch device.
#[derive(Clone, Copy, Debug, PartialEq, Eq, Structural)]
pub struct TouchDevice {
    /// Raw handle of the host-owned device.
    pub raw: u64,
}

impl TouchDevice {
    /// Wraps a raw touch-device handle; the host's null handle (`0`) means
    /// the device does not exist.
    pub fn new(raw: u64) -> (t: Option<TouchDevice>)
        ensures
            raw == 0 ==> t is None,
            raw != 0 ==> t == Some(TouchDevice { raw }),
    {
        if raw == 0 {
            None
        } else {
            Some(TouchDevice { raw })
        }
    }
}

/// A handle to a gamepad device.
#[derive(Clone, Copy, Debug, PartialEq, Eq, Structural)]
pub struct Gamepad {
    /// Raw handle of the host-owned device.
    pub raw: u64,
}

impl Gamepad {
    /// Wraps a raw gamepad handle; the host's null handle (`0`) means the
    /// device does not exist.
    pub fn new(raw: u64) -> (g: Option<Gamepad>)
        ensures
            raw == 0 ==> g is None,
            raw != 0 ==> g == Some(Gamepad { raw }),
    {
        if raw == 0 {
            None
        } else {
            Some(Gamepad { raw })
        }
    }
}

/// Phase of a touch event.
#[derive(Clone, Copy, Debug, PartialEq, Eq, Structural)]
pub enum Phase {
    Began,
    Moved,
    Stationary,
    Ended,
    Cancelled,
}

/// The host integer that stands for a touch phase.
pub open spec fn phase_code(p: Phase) -> u32 {
    match p {
        Phase::Began => 0u32,
        Phase::Moved => 1u32,
        Phase::Stationary => 2u32,
        Phase::Ended => 3u32,
        Phase::Cancelled => 4u32,
    }
}

impl Phase {
    /// Encodes this phase in the host's integer convention.
    pub fn code(self) -> (code: u32)
        ensures
            code == phase_code(self),
    {
        match self {
            Phase::Began => 0,
            Phase::Moved => 1,
            Phase::Stationary => 2,
            Phase::Ended => 3,
            Phase::Cancelled => 4,
        }
    }
}

/// A mouse button. The named buttons alias the first three numbered ones in
/// the host's convention.
#[derive(Clone, Copy, Debug, PartialEq, Eq, Structural)]
pub enum MouseButton {
    Left,
    Middle,
    Right,
    M1,
    M2,
    M3,
    M4,
    M5,
    M6,
    M7,
    M8,
}

/// The host integer that stands for a mouse button. Always below `8`.
pub open spec fn mouse_button_code(b: MouseButton) -> u32 {
    match b {
        MouseButton::Left => 0u32,
        MouseButton::Middle => 2u32,
        MouseButton::Right => 1u32,
        MouseButton::M1 => 0u32,
        MouseButton::M2 => 1u32,
        MouseButton::M3 => 2u32,
        MouseButton::M4 => 3u32,
        MouseButton::M5 => 4u32,
        MouseButton::M6 => 5u32,
        MouseButton::M7 => 6u32,
        MouseButton::M8 => 7u32,
    }
}

impl MouseButton {
    /// Encodes this button in the host's integer convention.
    pub fn code(self) -> (code: u32)
        ensures
            code == mouse_button_code(self),
            code < 8,
    {
        match self {
            MouseButton::Left => 0,
            MouseButton::Middle => 2,
            MouseButton::Right => 1,
            MouseButton::M1 => 0,
            MouseButton::M2 => 1,
            MouseButton::M3 => 2,
            MouseButton::M4 => 3,
            MouseButton::M5 => 4,
            MouseButton::M6 => 5,
            MouseButton::M7 => 6,
            MouseButton::M8 => 7,
        }
    }
}

/// A keyboard key. The printable keys carry their ASCII numbering; the
/// special keys follow the host's windowing convention, an offset past `256`.
#[derive(Clone, Copy, Debug, PartialEq, Eq, Structural)]
pub enum Key {
    Space,
    Exclaim,
    DoubleQuote,
    Hash,
    Dollar,
    Percent,
    Ampersand,
    Apostrophe,
    ParenLeft,
    ParenRight,
    Asterisk,
    Plus,
    Comma,
    Minus,
    Period,
    Slash,
    Zero,
    One,
    Two,
    Three,
    Four,
    Five,
    Six,
    Seven,
    Eight,
    Nine,
    Colon,
    Semicolon,
    Less,
    Equals,
    Greater,
    Question,
    At,
    A,
    B,
    C,
    D,
    E,
    F,
    G,
    H,
    I,
    J,
    K,
    L,
    M,
    N,
    O,
    P,
    Q,
    R,
    S,
    T,
    U,
    V,
    W,
    X,
    Y,
    Z,
    BracketLeft,
    Backslash,
    BracketRight,
    Caret,
    Underscore,
    Backquote,
    BraceLeft,
    Pipe,
    BraceRight,
    Tilde,
    Escape,
    F1,
    F2,
    F3,
    F4,
    F5,
    F6,
    F7,
    F8,
    F9,
    F10,
    F11,
    F12,
    Up,
    Down,
    Left,
    Right,
    ShiftLeft,
    ShiftRight,
    ControlLeft,
    ControlRight,
    AltLeft,
    AltRight,
    Tab,
    Enter,
    Backspace,
    Insert,
    Delete,
    PageUp,
    PageDown,
    Home,
    End,
    Kp0,
    Kp1,
    Kp2,
    Kp3,
    Kp4,
    Kp5,
    Kp6,
    Kp7,
    Kp8,
    Kp9,
    KpDivide,
    KpMultiply,
    KpSubtract,
    KpAdd,
    KpDecimal,
    KpEqual,
    KpEnter,
    KpNumLock,
    CapsLock,
    ScollLock,
    Pause,
    SuperLeft,
    SuperRight,
    Menu,
    Back,
}

/// The host integer that stands for a key.
pub open spec fn key_code(k: Key) -> u32 {
    match k {
        Key::Space => 32u32,
        Key::Exclaim => 33u32,
        Key::DoubleQuote => 34u32,
        Key::Hash => 35u32,
        Key::Dollar => 36u32,
        Key::Percent => 37u32,
        Key::Ampersand => 38u32,
        Key::Apostrophe => 39u32,
        Key::ParenLeft => 40u32,
        Key::ParenRight => 41u32,
        Key::Asterisk => 42u32,
        Key::Plus => 43u32,
        Key::Comma => 44u32,
        Key::Minus => 45u32,
        Key::Period => 46u32,
        Key::Slash => 47u32,
        Key::Zero => 48u32,
        Key::One => 49u32,
        Key::Two => 50u32,
        Key::Three => 51u32,
        Key::Four => 52u32,
        Key::Five => 53u32,
        Key::Six => 54u32,
        Key::Seven => 55u32,
        Key::Eight => 56u32,
        Key::Nine => 57u32,
        Key::Colon => 58u32,
        Key::Semicolon => 59u32,
        Key::Less => 60u32,
        Key::Equals => 61u32,
        Key::Greater => 62u32,
        Key::Question => 63u32,
        Key::At => 64u32,
        Key::A => 65u32,
        Key::B => 66u32,
        Key::C => 67u32,
        Key::D => 68u32,
        Key::E => 69u32,
        Key::F => 70u32,
        Key::G => 71u32,
        Key::H => 72u32,
        Key::I => 73u32,
        Key::J => 74u32,
        Key::K => 75u32,
        Key::L => 76u32,
        Key::M => 77u32,
        Key::N => 78u32,
        Key::O => 79u32,
        Key::P => 80u32,
        Key::Q => 81u32,
        Key::R => 82u32,
        Key::S => 83u32,
        Key::T => 84u32,
        Key::U => 85u32,
        Key::V => 86u32,
        Key::W => 87u32,
        Key::X => 88u32,
        Key::Y => 89u32,
        Key::Z => 90u32,
        Key::BracketLeft => 91u32,
        Key::Backslash => 92u32,
        Key::BracketRight => 93u32,
        Key::Caret => 94u32,
        Key::Underscore => 95u32,
        Key::Backquote => 96u32,
        Key::BraceLeft => 123u32,
        Key::Pipe => 124u32,
        Key::BraceRight => 125u32,
        Key::Tilde => 126u32,
        Key::Escape => 257u32,
        Key::F1 => 258u32,
        Key::F2 => 259u32,
        Key::F3 => 260u32,
        Key::F4 => 261u32,
        Key::F5 => 262u32,
        Key::F6 => 263u32,
        Key::F7 => 264u32,
        Key::F8 => 265u32,
        Key::F9 => 266u32,
        Key::F10 => 267u32,
        Key::F11 => 268u32,
        Key::F12 => 269u32,
        Key::Up => 283u32,
        Key::Down => 284u32,
        Key::Left => 285u32,
        Key::Right => 286u32,
        Key::ShiftLeft => 287u32,
        Key::ShiftRight => 288u32,
        Key::ControlLeft => 289u32,
        Key::ControlRight => 290u32,
        Key::AltLeft => 291u32,
        Key::AltRight => 292u32,
        Key::Tab => 293u32,
        Key::Enter => 294u32,
        Key::Backspace => 295u32,
        Key::Insert => 296u32,
        Key::Delete => 297u32,
        Key::PageUp => 298u32,
        Key::PageDown => 299u32,
        Key::Home => 300u32,
        Key::End => 301u32,
        Key::Kp0 => 302u32,
        Key::Kp1 => 303u32,
        Key::Kp2 => 304u32,
        Key::Kp3 => 305u32,
        Key::Kp4 => 306u32,
        Key::Kp5 => 307u32,
        Key::Kp6 => 308u32,
        Key::Kp7 => 309u32,
        Key::Kp8 => 310u32,
        Key::Kp9 => 311u32,
        Key::KpDivide => 312u32,
        Key::KpMultiply => 313u32,
        Key::KpSubtract => 314u32,
        Key::KpAdd => 315u32,
        Key::KpDecimal => 316u32,
        Key::KpEqual => 317u32,
        Key::KpEnter => 318u32,
        Key::KpNumLock => 319u32,
        Key::CapsLock => 320u32,
        Key::ScollLock => 321u32,
        Key::Pause => 322u32,
        Key::SuperLeft => 323u32,
        Key::SuperRight => 324u32,
        Key::Menu => 325u32,
        Key::Back => 326u32,
    }
}

impl Key {
    /// Encodes this key in the host's integer convention.
    #[verifier::rlimit(30)]
    pub fn code(self) -> (code: u32)
        ensures
            code == key_code(self),
    {
        match self {
            Key::Space => 32,
            Key::Exclaim => 33,
            Key::DoubleQuote => 34,
            Key::Hash => 35,
            Key::Dollar => 36,
            Key::Percent => 37,
            Key::Ampersand => 38,
            Key::Apostrophe => 39,
            Key::ParenLeft => 40,
            Key::ParenRight => 41,
            Key::Asterisk => 42,
            Key::Plus => 43,
            Key::Comma => 44,
            Key::Minus => 45,
            Key::Period => 46,
            Key::Slash => 47,
            Key::Zero => 48,
            Key::One => 49,
            Key::Two => 50,
            Key::Three => 51,
            Key::Four => 52,
            Key::Five => 53,
            Key::Six => 54,
            Key::Seven => 55,
            Key::Eight => 56,
            Key::Nine => 57,
            Key::Colon => 58,
            Key::Semicolon => 59,
            Key::Less => 60,
            Key::Equals => 61,
            Key::Greater => 62,
            Key::Question => 63,
            Key::At => 64,
            Key::A => 65,
            Key::B => 66,
            Key::C => 67,
            Key::D => 68,
            Key::E => 69,
            Key::F => 70,
            Key::G => 71,
            Key::H => 72,
            Key::I => 73,
            Key::J => 74,
            Key::K => 75,
            Key::L => 76,
            Key::M => 77,
            Key::N => 78,
            Key::O => 79,
            Key::P => 80,
            Key::Q => 81,
            Key::R => 82,
            Key::S => 83,
            Key::T => 84,
            Key::U => 85,
            Key::V => 86,
            Key::W => 87,
            Key::X => 88,
            Key::Y => 89,
            Key::Z => 90,
            Key::BracketLeft => 91,
            Key::Backslash => 92,
            Key::BracketRight => 93,
            Key::Caret => 94,
            Key::Underscore => 95,
            Key::Backquote => 96,
            Key::BraceLeft => 123,
            Key::Pipe => 124,
            Key::BraceRight => 125,
            Key::Tilde => 126,
            Key::Escape => 257,
            Key::F1 => 258,
            Key::F2 => 259,
            Key::F3 => 260,
            Key::F4 => 261,
            Key::F5 => 262,
            Key::F6 => 263,
            Key::F7 => 264,
            Key::F8 => 265,
            Key::F9 => 266,
            Key::F10 => 267,
            Key::F11 => 268,
            Key::F12 => 269,
            Key::Up => 283,
            Key::Down => 284,
            Key::Left => 285,
            Key::Right => 286,
            Key::ShiftLeft => 287,
            Key::ShiftRight => 288,
            Key::ControlLeft => 289,
            Key::ControlRight => 290,
            Key::AltLeft => 291,
            Key::AltRight => 292,
            Key::Tab => 293,
            Key::Enter => 294,
            Key::Backspace => 295,
            Key::Insert => 296,
            Key::Delete => 297,
            Key::PageUp => 298,
            Key::PageDown => 299,
            Key::Home => 300,
            Key::End => 301,
            Key::Kp0 => 302,
            Key::Kp1 => 303,
            Key::Kp2 => 304,
            Key::Kp3 => 305,
            Key::Kp4 => 306,
            Key::Kp5 => 307,
            Key::Kp6 => 308,
            Key::Kp7 => 309,
            Key::Kp8 => 310,
            Key::Kp9 => 311,
            Key::KpDivide => 312,
            Key::KpMultiply => 313,
            Key::KpSubtract => 314,
            Key::KpAdd => 315,
            Key::KpDecimal => 316,
            Key::KpEqual => 317,
            Key::KpEnter => 318,
            Key::KpNumLock => 319,
            Key::CapsLock => 320,
            Key::ScollLock => 321,
            Key::Pause => 322,
            Key::SuperLeft => 323,
            Key::SuperRight => 324,
            Key::Menu => 325,
            Key::Back => 326,
        }
    }
}

} // verus!
