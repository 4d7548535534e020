//! The key-code mapping table.
//!
//! The host reports keyboard input as a virtual key code drawn from a fixed
//! set. The toolkit understands a different, smaller set of named keys. The
//! bridge maps arrows, navigation keys, the digit row and the numeric-pad
//! digits (mapped identically), and the Latin letters; every other host code
//! is deliberately dropped — a documented no-op, not an error.

use vstd::prelude::*;

verus! {

/// A host virtual key code. This mirrors the host's full table of reportable
/// keys, so that an unhandled code is a visible arm of a closed type rather
/// than a silently ignored value.
#[derive(Clone, Copy, PartialEq, Eq, Structural, Debug)]
pub enum KeyCode {
    Back,
    Tab,
    Clear,
    Return,
    Escape,
    Space,
    Prior,
    Next,
    End,
    Home,
    Left,
    Up,
    Right,
    Down,
    Select,
    Print,
    Execute,
    Snapshot,
    Insert,
    Delete,
    Help,
    Key0,
    Key1,
    Key2,
    Key3,
    Key4,
    Key5,
    Key6,
    Key7,
    Key8,
    Key9,
    A,
    B,
    C,
    D,
    E,
    F,
    G,
    H,
    I,
    J,
    K,
    L,
    M,
    N,
    O,
    P,
    Q,
    R,
    S,
    T,
    U,
    V,
    W,
    X,
    Y,
    Z,
    Numpad0,
    Numpad1,
    Numpad2,
    Numpad3,
    Numpad4,
    Numpad5,
    Numpad6,
    Numpad7,
    Numpad8,
    Numpad9,
    Multiply,
    Add,
    Separator,
    Subtract,
    Decimal,
    Divide,
    F1,
    F2,
    F3,
    F4,
    F5,
    F6,
    F7,
    F8,
    F9,
    F10,
    F11,
    F12,
    F13,
    F14,
    F15,
    F16,
    F17,
    F18,
    F19,
    F20,
    F21,
    F22,
    F23,
    F24,
    Equal,
    Minus,
    ClosingBrace,
    OpeningBrace,
    Quote,
    Semicolon,
    Backslash,
    Comma,
    Slash,
    Period,
    Backquote,
    Enter,
    NumpadEnter,
    NumpadEqual,
}

/// A toolkit key: the image of the mapping table.
#[derive(Clone, Copy, PartialEq, Eq, Structural, Debug)]
pub enum Key {
    ArrowLeft,
    ArrowUp,
    ArrowRight,
    ArrowDown,
    Backspace,
    Tab,
    Enter,
    Escape,
    Space,
    End,
    Home,
    Insert,
    Delete,
    Num0,
    Num1,
    Num2,
    Num3,
    Num4,
    Num5,
    Num6,
    Num7,
    Num8,
    Num9,
    A,
    B,
    C,
    D,
    E,
    F,
    G,
    H,
    I,
    J,
    K,
    L,
    M,
    N,
    O,
    P,
    Q,
    R,
    S,
    T,
    U,
    V,
    W,
    X,
    Y,
    Z,
}

/// The mapping table itself: which toolkit key, if any, a host code stands
/// for. The digit row and the numeric-pad digits map to the same toolkit
/// keys; host codes outside the table map to nothing.
pub open spec fn spec_key_mapping(code: KeyCode) -> Option<Key> {
    match code {
        KeyCode::Left => Some(Key::ArrowLeft),
        KeyCode::Up => Some(Key::ArrowUp),
        KeyCode::Right => Some(Key::ArrowRight),
        KeyCode::Down => Some(Key::ArrowDown),
        KeyCode::Back => Some(Key::Backspace),
        KeyCode::Tab => Some(Key::Tab),
        KeyCode::Return => Some(Key::Enter),
        KeyCode::Enter => Some(Key::Enter),
        KeyCode::Escape => Some(Key::Escape),
        KeyCode::Space => Some(Key::Space),
        KeyCode::End => Some(Key::End),
        KeyCode::Home => Some(Key::Home),
        KeyCode::Insert => Some(Key::Insert),
        KeyCode::Delete => Some(Key::Delete),
        KeyCode::Key0 => Some(Key::Num0),
        KeyCode::Key1 => Some(Key::Num1),
        KeyCode::Key2 => Some(Key::Num2),
        KeyCode::Key3 => Some(Key::Num3),
        KeyCode::Key4 => Some(Key::Num4),
        KeyCode::Key5 => Some(Key::Num5),
        KeyCode::Key6 => Some(Key::Num6),
        KeyCode::Key7 => Some(Key::Num7),
        KeyCode::Key8 => Some(Key::Num8),
        KeyCode::Key9 => Some(Key::Num9),
        KeyCode::Numpad0 => Some(Key::Num0),
        KeyCode::Numpad1 => Some(Key::Num1),
        KeyCode::Numpad2 => Some(Key::Num2),
        KeyCode::Numpad3 => Some(Key::Num3),
        KeyCode::Numpad4 => Some(Key::Num4),
        KeyCode::Numpad5 => Some(Key::Num5),
        KeyCode::Numpad6 => Some(Key::Num6),
        KeyCode::Numpad7 => Some(Key::Num7),
        KeyCode::Numpad8 => Some(Key::Num8),
        KeyCode::Numpad9 => Some(Key::Num9),
        KeyCode::A => Some(Key::A),
        KeyCode::B => Some(Key::B),
        KeyCode::C => Some(Key::C),
        KeyCode::D => Some(Key::D),
        KeyCode::E => Some(Key::E),
        KeyCode::F => Some(Key::F),
        KeyCode::G => Some(Key::G),
        KeyCode::H => Some(Key::H),
        KeyCode::I => Some(Key::I),
        KeyCode::J => Some(Key::J),
        KeyCode::K => Some(Key::K),
        KeyCode::L => Some(Key::L),
        KeyCode::M => Some(Key::M),
        KeyCode::N => Some(Key::N),
        KeyCode::O => Some(Key::O),
        KeyCode::P => Some(Key::P),
        KeyCode::Q => Some(Key::Q),
        KeyCode::R => Some(Key::R),
        KeyCode::S => Some(Key::S),
        KeyCode::T => Some(Key::T),
        KeyCode::U => Some(Key::U),
        KeyCode::V => Some(Key::V),
        KeyCode::W => Some(Key::W),
        KeyCode::X => Some(Key::X),
        KeyCode::Y => Some(Key::Y),
        KeyCode::Z => Some(Key::Z),
        _ => None,
    }
}

/// Map a host key code to the toolkit key it stands for, or nothing for a
/// code outside the mapping table.
pub fn xplm_to_egui_key(code: KeyCode) -> (r: Option<Key>)
    ensures
        r == spec_key_mapping(code),
{
    match code {
        KeyCode::Left => Some(Key::ArrowLeft),
        KeyCode::Up => Some(Key::ArrowUp),
        KeyCode::Right => Some(Key::ArrowRight),
        KeyCode::Down => Some(Key::ArrowDown),
        KeyCode::Back => Some(Key::Backspace),
        KeyCode::Tab => Some(Key::Tab),
        KeyCode::Return => Some(Key::Enter),
        KeyCode::Enter => Some(Key::Enter),
        KeyCode::Escape => Some(Key::Escape),
        KeyCode::Space => Some(Key::Space),
        KeyCode::End => Some(Key::End),
        KeyCode::Home => Some(Key::Home),
        KeyCode::Insert => Some(Key::Insert),
        KeyCode::Delete => Some(Key::Delete),
        KeyCode::Key0 => Some(Key::Num0),
        KeyCode::Key1 => Some(Key::Num1),
        KeyCode::Key2 => Some(Key::Num2),
        KeyCode::Key3 => Some(Key::Num3),
        KeyCode::Key4 => Some(Key::Num4),
        KeyCode::Key5 => Some(Key::Num5),
        KeyCode::Key6 => Some(Key::Num6),
        KeyCode::Key7 => Some(Key::Num7),
        KeyCode::Key8 => Some(Key::Num8),
        KeyCode::Key9 => Some(Key::Num9),
        KeyCode::Numpad0 => Some(Key::Num0),
        KeyCode::Numpad1 => Some(Key::Num1),
        KeyCode::Numpad2 => Some(Key::Num2),
        KeyCode::Numpad3 => Some(Key::Num3),
        KeyCode::Numpad4 => Some(Key::Num4),
        KeyCode::Numpad5 => Some(Key::Num5),
        KeyCode::Numpad6 => Some(Key::Num6),
        KeyCode::Numpad7 => Some(Key::Num7),
        KeyCode::Numpad8 => Some(Key::Num8),
        KeyCode::Numpad9 => Some(Key::Num9),
        KeyCode::A => Some(Key::A),
        KeyCode::B => Some(Key::B),
        KeyCode::C => Some(Key::C),
        KeyCode::D => Some(Key::D),
        KeyCode::E => Some(Key::E),
        KeyCode::F => Some(Key::F),
        KeyCode::G => Some(Key::G),
        KeyCode::H => Some(Key::H),
        KeyCode::I => Some(Key::I),
        KeyCode::J => Some(Key::J),
        KeyCode::K => Some(Key::K),
        KeyCode::L => Some(Key::L),
        KeyCode::M => Some(Key::M),
        KeyCode::N => Some(Key::N),
        KeyCode::O => Some(Key::O),
        KeyCode::P => Some(Key::P),
        KeyCode::Q => Some(Key::Q),
        KeyCode::R => Some(Key::R),
        KeyCode::S => Some(Key::S),
        KeyCode::T => Some(Key::T),
        KeyCode::U => Some(Key::U),
        KeyCode::V => Some(Key::V),
        KeyCode::W => Some(Key::W),
        KeyCode::X => Some(Key::X),
        KeyCode::Y => Some(Key::Y),
        KeyCode::Z => Some(Key::Z),
        _ => None,
    }
}

} // verus!
