//! The native plugin: injects input through the operating system. This
//! module holds which system button each standard button becomes; the host
//! performs the injection.
use vstd::prelude::*;

use crate::headers::{WRITE_KEYBOARD, WRITE_MOUSE};
use crate::key_types::{KeyboardKey, MouseButton};

verus! {

/// The plugin's name.
pub const NAME: &'static str = "inputflow_native";

/// The capabilities its header declares.
pub const FEATURES: u8 = WRITE_KEYBOARD | WRITE_MOUSE;

/// The buttons the system can inject.
#[derive(Debug, Clone, Copy, PartialEq, Eq, Structural)]
pub enum NativeButton {
    Left,
    Right,
    Middle,
    Back,
    Forward,
    ScrollUp,
    ScrollDown,
    ScrollLeft,
    ScrollRight,
}

/// The system button of each standard button that has one: the side
/// buttons are back and forward; the reserved code has none.
pub open spec fn native_button(btn: MouseButton) -> Option<NativeButton> {
    match btn {
        MouseButton::Left => Some(NativeButton::Left),
        MouseButton::Right => Some(NativeButton::Right),
        MouseButton::Middle => Some(NativeButton::Middle),
        MouseButton::XButton1 => Some(NativeButton::Back),
        MouseButton::XButton2 => Some(NativeButton::Forward),
        MouseButton::ScrollUp => Some(NativeButton::ScrollUp),
        MouseButton::ScrollDown => Some(NativeButton::ScrollDown),
        MouseButton::ScrollLeft => Some(NativeButton::ScrollLeft),
        MouseButton::ScrollRight => Some(NativeButton::ScrollRight),
        _ => None,
    }
}

/// The system button for a standard button, if it has one.
pub fn keycode_to_button(btn: MouseButton) -> (r: Option<NativeButton>)
    ensures
        r == native_button(btn),
{
    match btn {
        MouseButton::Left => Some(NativeButton::Left),
        MouseButton::Right => Some(NativeButton::Right),
        MouseButton::Middle => Some(NativeButton::Middle),
        MouseButton::XButton1 => Some(NativeButton::Back),
        MouseButton::XButton2 => Some(NativeButton::Forward),
        MouseButton::ScrollUp => Some(NativeButton::ScrollUp),
        MouseButton::ScrollDown => Some(NativeButton::ScrollDown),
        MouseButton::ScrollLeft => Some(NativeButton::ScrollLeft),
        MouseButton::ScrollRight => Some(NativeButton::ScrollRight),
        _ => None,
    }
}

/// The character the system types for each key that has one: letters in
/// lower case, numpad keys as digits.
pub open spec fn native_char(key: KeyboardKey) -> Option<char> {
    match key {
        KeyboardKey::A => Some('a'),
        KeyboardKey::B => Some('b'),
        KeyboardKey::C => Some('c'),
        KeyboardKey::D => Some('d'),
        KeyboardKey::E => Some('e'),
        KeyboardKey::F => Some('f'),
        KeyboardKey::G => Some('g'),
        KeyboardKey::H => Some('h'),
        KeyboardKey::I => Some('i'),
        KeyboardKey::J => Some('j'),
        KeyboardKey::K => Some('k'),
        KeyboardKey::L => Some('l'),
        KeyboardKey::M => Some('m'),
        KeyboardKey::N => Some('n'),
        KeyboardKey::O => Some('o'),
        KeyboardKey::P => Some('p'),
        KeyboardKey::Q => Some('q'),
        KeyboardKey::R => Some('r'),
        KeyboardKey::S => Some('s'),
        KeyboardKey::T => Some('t'),
        KeyboardKey::U => Some('u'),
        KeyboardKey::V => Some('v'),
        KeyboardKey::W => Some('w'),
        KeyboardKey::X => Some('x'),
        KeyboardKey::Y => Some('y'),
        KeyboardKey::Z => Some('z'),
        KeyboardKey::NUMPAD0 => Some('0'),
        KeyboardKey::NUMPAD1 => Some('1'),
        KeyboardKey::NUMPAD2 => Some('2'),
        KeyboardKey::NUMPAD3 => Some('3'),
        KeyboardKey::NUMPAD4 => Some('4'),
        KeyboardKey::NUMPAD5 => Some('5'),
        KeyboardKey::NUMPAD6 => Some('6'),
        KeyboardKey::NUMPAD7 => Some('7'),
        KeyboardKey::NUMPAD8 => Some('8'),
        KeyboardKey::NUMPAD9 => Some('9'),
        _ => None,
    }
}

/// The character the system types for a key, if it has one.
pub fn key_to_char(key: KeyboardKey) -> (r: Option<char>)
    ensures
        r == native_char(key),
{
    match key {
        KeyboardKey::A => Some('a'),
        KeyboardKey::B => Some('b'),
        KeyboardKey::C => Some('c'),
        KeyboardKey::D => Some('d'),
        KeyboardKey::E => Some('e'),
        KeyboardKey::F => Some('f'),
        KeyboardKey::G => Some('g'),
        KeyboardKey::H => Some('h'),
        KeyboardKey::I => Some('i'),
        KeyboardKey::J => Some('j'),
        KeyboardKey::K => Some('k'),
        KeyboardKey::L => Some('l'),
        KeyboardKey::M => Some('m'),
        KeyboardKey::N => Some('n'),
        KeyboardKey::O => Some('o'),
        KeyboardKey::P => Some('p'),
        KeyboardKey::Q => Some('q'),
        KeyboardKey::R => Some('r'),
        KeyboardKey::S => Some('s'),
        KeyboardKey::T => Some('t'),
        KeyboardKey::U => Some('u'),
        KeyboardKey::V => Some('v'),
        KeyboardKey::W => Some('w'),
        KeyboardKey::X => Some('x'),
        KeyboardKey::Y => Some('y'),
        KeyboardKey::Z => Some('z'),
        KeyboardKey::NUMPAD0 => Some('0'),
        KeyboardKey::NUMPAD1 => Some('1'),
        KeyboardKey::NUMPAD2 => Some('2'),
        KeyboardKey::NUMPAD3 => Some('3'),
        KeyboardKey::NUMPAD4 => Some('4'),
        KeyboardKey::NUMPAD5 => Some('5'),
        KeyboardKey::NUMPAD6 => Some('6'),
        KeyboardKey::NUMPAD7 => Some('7'),
        KeyboardKey::NUMPAD8 => Some('8'),
        KeyboardKey::NUMPAD9 => Some('9'),
        _ => None,
    }
}

} // verus!
