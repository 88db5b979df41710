//! The standard key and button codes shared by every plugin, after the
//! virtual-key numbering of Windows with scroll buttons appended.
use vstd::prelude::*;

verus! {

/// A mouse button; one byte on the boundary.
#[derive(Debug, Clone, Copy, PartialEq, Eq, Hash, Structural)]
pub enum MouseButton {
    NULL,
    Left,
    Right,
    UNUSED01,
    Middle,
    XButton1,
    XButton2,
    ScrollUp,
    ScrollDown,
    ScrollLeft,
    ScrollRight,
}

/// The byte under which each button crosses the boundary.
pub open spec fn mouse_button_code(v: MouseButton) -> u8 {
    match v {
        MouseButton::NULL => 0x00,
        MouseButton::Left => 0x01,
        MouseButton::Right => 0x02,
        MouseButton::UNUSED01 => 0x03,
        MouseButton::Middle => 0x04,
        MouseButton::XButton1 => 0x05,
        MouseButton::XButton2 => 0x06,
        MouseButton::ScrollUp => 0x07,
        MouseButton::ScrollDown => 0x08,
        MouseButton::ScrollLeft => 0x09,
        MouseButton::ScrollRight => 0x0a,
    }
}

/// The name of each variant.
pub open spec fn mouse_button_name(v: MouseButton) -> &'static str {
    match v {
        MouseButton::NULL => "NULL",
        MouseButton::Left => "Left",
        MouseButton::Right => "Right",
        MouseButton::UNUSED01 => "UNUSED01",
        MouseButton::Middle => "Middle",
        MouseButton::XButton1 => "XButton1",
        MouseButton::XButton2 => "XButton2",
        MouseButton::ScrollUp => "ScrollUp",
        MouseButton::ScrollDown => "ScrollDown",
        MouseButton::ScrollLeft => "ScrollLeft",
        MouseButton::ScrollRight => "ScrollRight",
    }
}

impl MouseButton {
    /// The byte under which this value crosses the boundary.
    pub fn code(&self) -> (r: u8)
        ensures
            r == mouse_button_code(*self),
    {
        match self {
            MouseButton::NULL => 0x00,
            MouseButton::Left => 0x01,
            MouseButton::Right => 0x02,
            MouseButton::UNUSED01 => 0x03,
            MouseButton::Middle => 0x04,
            MouseButton::XButton1 => 0x05,
            MouseButton::XButton2 => 0x06,
            MouseButton::ScrollUp => 0x07,
            MouseButton::ScrollDown => 0x08,
            MouseButton::ScrollLeft => 0x09,
            MouseButton::ScrollRight => 0x0a,
        }
    }

    /// The value a byte stands for, if any.
    pub fn from_code(code: u8) -> (r: Option<MouseButton>)
        ensures
            r matches Some(v) ==> mouse_button_code(v) == code,
            r.is_none() ==> forall|v: MouseButton| mouse_button_code(v) != code,
    {
        match code {
            0x00 => Some(MouseButton::NULL),
            0x01 => Some(MouseButton::Left),
            0x02 => Some(MouseButton::Right),
            0x03 => Some(MouseButton::UNUSED01),
            0x04 => Some(MouseButton::Middle),
            0x05 => Some(MouseButton::XButton1),
            0x06 => Some(MouseButton::XButton2),
            0x07 => Some(MouseButton::ScrollUp),
            0x08 => Some(MouseButton::ScrollDown),
            0x09 => Some(MouseButton::ScrollLeft),
            0x0a => Some(MouseButton::ScrollRight),
            _ => None,
        }
    }

    /// The variant's name, as diagnostics print it.
    pub fn as_str(&self) -> (r: &'static str)
        ensures
            r@ == mouse_button_name(*self)@,
    {
        match self {
            MouseButton::NULL => "NULL",
            MouseButton::Left => "Left",
            MouseButton::Right => "Right",
            MouseButton::UNUSED01 => "UNUSED01",
            MouseButton::Middle => "Middle",
            MouseButton::XButton1 => "XButton1",
            MouseButton::XButton2 => "XButton2",
            MouseButton::ScrollUp => "ScrollUp",
            MouseButton::ScrollDown => "ScrollDown",
            MouseButton::ScrollLeft => "ScrollLeft",
            MouseButton::ScrollRight => "ScrollRight",
        }
    }
}

/// A keyboard key; one byte on the boundary.
#[derive(Debug, Clone, Copy, PartialEq, Eq, Hash, Structural)]
pub enum KeyboardKey {
    NULL,
    A,
    B,
    C,
    D,
    E,
    F,
    G,
    H,
    I,
    J,
    K,
    L,
    M,
    N,
    O,
    P,
    Q,
    R,
    S,
    T,
    U,
    V,
    W,
    X,
    Y,
    Z,
    LWIN,
    RWIN,
    APPS,
    _Reserved,
    SLEEP,
    NUMPAD0,
    NUMPAD1,
    NUMPAD2,
    NUMPAD3,
    NUMPAD4,
    NUMPAD5,
    NUMPAD6,
    NUMPAD7,
    NUMPAD8,
    NUMPAD9,
}

/// The byte under which each key crosses the boundary.
pub open spec fn keyboard_key_code(v: KeyboardKey) -> u8 {
    match v {
        KeyboardKey::NULL => 0x00,
        KeyboardKey::A => 0x41,
        KeyboardKey::B => 0x42,
        KeyboardKey::C => 0x43,
        KeyboardKey::D => 0x44,
        KeyboardKey::E => 0x45,
        KeyboardKey::F => 0x46,
        KeyboardKey::G => 0x47,
        KeyboardKey::H => 0x48,
        KeyboardKey::I => 0x49,
        KeyboardKey::J => 0x4a,
        KeyboardKey::K => 0x4b,
        KeyboardKey::L => 0x4c,
        KeyboardKey::M => 0x4d,
        KeyboardKey::N => 0x4e,
        KeyboardKey::O => 0x4f,
        KeyboardKey::P => 0x50,
        KeyboardKey::Q => 0x51,
        KeyboardKey::R => 0x52,
        KeyboardKey::S => 0x53,
        KeyboardKey::T => 0x54,
        KeyboardKey::U => 0x55,
        KeyboardKey::V => 0x56,
        KeyboardKey::W => 0x57,
        KeyboardKey::X => 0x58,
        KeyboardKey::Y => 0x59,
        KeyboardKey::Z => 0x5a,
        KeyboardKey::LWIN => 0x5b,
        KeyboardKey::RWIN => 0x5c,
        KeyboardKey::APPS => 0x5d,
        KeyboardKey::_Reserved => 0x5e,
        KeyboardKey::SLEEP => 0x5f,
        KeyboardKey::NUMPAD0 => 0x60,
        KeyboardKey::NUMPAD1 => 0x61,
        KeyboardKey::NUMPAD2 => 0x62,
        KeyboardKey::NUMPAD3 => 0x63,
        KeyboardKey::NUMPAD4 => 0x64,
        KeyboardKey::NUMPAD5 => 0x65,
        KeyboardKey::NUMPAD6 => 0x66,
        KeyboardKey::NUMPAD7 => 0x67,
        KeyboardKey::NUMPAD8 => 0x68,
        KeyboardKey::NUMPAD9 => 0x69,
    }
}

/// The name of each variant.
pub open spec fn keyboard_key_name(v: KeyboardKey) -> &'static str {
    match v {
        KeyboardKey::NULL => "NULL",
        KeyboardKey::A => "A",
        KeyboardKey::B => "B",
        KeyboardKey::C => "C",
        KeyboardKey::D => "D",
        KeyboardKey::E => "E",
        KeyboardKey::F => "F",
        KeyboardKey::G => "G",
        KeyboardKey::H => "H",
        KeyboardKey::I => "I",
        KeyboardKey::J => "J",
        KeyboardKey::K => "K",
        KeyboardKey::L => "L",
        KeyboardKey::M => "M",
        KeyboardKey::N => "N",
        KeyboardKey::O => "O",
        KeyboardKey::P => "P",
        KeyboardKey::Q => "Q",
        KeyboardKey::R => "R",
        KeyboardKey::S => "S",
        KeyboardKey::T => "T",
        KeyboardKey::U => "U",
        KeyboardKey::V => "V",
        KeyboardKey::W => "W",
        KeyboardKey::X => "X",
        KeyboardKey::Y => "Y",
        KeyboardKey::Z => "Z",
        KeyboardKey::LWIN => "LWIN",
        KeyboardKey::RWIN => "RWIN",
        KeyboardKey::APPS => "APPS",
        KeyboardKey::_Reserved => "_Reserved",
        KeyboardKey::SLEEP => "SLEEP",
        KeyboardKey::NUMPAD0 => "NUMPAD0",
        KeyboardKey::NUMPAD1 => "NUMPAD1",
        KeyboardKey::NUMPAD2 => "NUMPAD2",
        KeyboardKey::NUMPAD3 => "NUMPAD3",
        KeyboardKey::NUMPAD4 => "NUMPAD4",
        KeyboardKey::NUMPAD5 => "NUMPAD5",
        KeyboardKey::NUMPAD6 => "NUMPAD6",
        KeyboardKey::NUMPAD7 => "NUMPAD7",
        KeyboardKey::NUMPAD8 => "NUMPAD8",
        KeyboardKey::NUMPAD9 => "NUMPAD9",
    }
}

impl KeyboardKey {
    /// The byte under which this value crosses the boundary.
    pub fn code(&self) -> (r: u8)
        ensures
            r == keyboard_key_code(*self),
    {
        match self {
            KeyboardKey::NULL => 0x00,
            KeyboardKey::A => 0x41,
            KeyboardKey::B => 0x42,
            KeyboardKey::C => 0x43,
            KeyboardKey::D => 0x44,
            KeyboardKey::E => 0x45,
            KeyboardKey::F => 0x46,
            KeyboardKey::G => 0x47,
            KeyboardKey::H => 0x48,
            KeyboardKey::I => 0x49,
            KeyboardKey::J => 0x4a,
            KeyboardKey::K => 0x4b,
            KeyboardKey::L => 0x4c,
            KeyboardKey::M => 0x4d,
            KeyboardKey::N => 0x4e,
            KeyboardKey::O => 0x4f,
            KeyboardKey::P => 0x50,
            KeyboardKey::Q => 0x51,
            KeyboardKey::R => 0x52,
            KeyboardKey::S => 0x53,
            KeyboardKey::T => 0x54,
            KeyboardKey::U => 0x55,
            KeyboardKey::V => 0x56,
            KeyboardKey::W => 0x57,
            KeyboardKey::X => 0x58,
            KeyboardKey::Y => 0x59,
            KeyboardKey::Z => 0x5a,
            KeyboardKey::LWIN => 0x5b,
            KeyboardKey::RWIN => 0x5c,
            KeyboardKey::APPS => 0x5d,
            KeyboardKey::_Reserved => 0x5e,
            KeyboardKey::SLEEP => 0x5f,
            KeyboardKey::NUMPAD0 => 0x60,
            KeyboardKey::NUMPAD1 => 0x61,
            KeyboardKey::NUMPAD2 => 0x62,
            KeyboardKey::NUMPAD3 => 0x63,
            KeyboardKey::NUMPAD4 => 0x64,
            KeyboardKey::NUMPAD5 => 0x65,
            KeyboardKey::NUMPAD6 => 0x66,
            KeyboardKey::NUMPAD7 => 0x67,
            KeyboardKey::NUMPAD8 => 0x68,
            KeyboardKey::NUMPAD9 => 0x69,
        }
    }

    /// The value a byte stands for, if any.
    pub fn from_code(code: u8) -> (r: Option<KeyboardKey>)
        ensures
            r matches Some(v) ==> keyboard_key_code(v) == code,
            r.is_none() ==> forall|v: KeyboardKey| keyboard_key_code(v) != code,
    {
        match code {
            0x00 => Some(KeyboardKey::NULL),
            0x41 => Some(KeyboardKey::A),
            0x42 => Some(KeyboardKey::B),
            0x43 => Some(KeyboardKey::C),
            0x44 => Some(KeyboardKey::D),
            0x45 => Some(KeyboardKey::E),
            0x46 => Some(KeyboardKey::F),
            0x47 => Some(KeyboardKey::G),
            0x48 => Some(KeyboardKey::H),
            0x49 => Some(KeyboardKey::I),
            0x4a => Some(KeyboardKey::J),
            0x4b => Some(KeyboardKey::K),
            0x4c => Some(KeyboardKey::L),
            0x4d => Some(KeyboardKey::M),
            0x4e => Some(KeyboardKey::N),
            0x4f => Some(KeyboardKey::O),
            0x50 => Some(KeyboardKey::P),
            0x51 => Some(KeyboardKey::Q),
            0x52 => Some(KeyboardKey::R),
            0x53 => Some(KeyboardKey::S),
            0x54 => Some(KeyboardKey::T),
            0x55 => Some(KeyboardKey::U),
            0x56 => Some(KeyboardKey::V),
            0x57 => Some(KeyboardKey::W),
            0x58 => Some(KeyboardKey::X),
            0x59 => Some(KeyboardKey::Y),
            0x5a => Some(KeyboardKey::Z),
            0x5b => Some(KeyboardKey::LWIN),
            0x5c => Some(KeyboardKey::RWIN),
            0x5d => Some(KeyboardKey::APPS),
            0x5e => Some(KeyboardKey::_Reserved),
            0x5f => Some(KeyboardKey::SLEEP),
            0x60 => Some(KeyboardKey::NUMPAD0),
            0x61 => Some(KeyboardKey::NUMPAD1),
            0x62 => Some(KeyboardKey::NUMPAD2),
            0x63 => Some(KeyboardKey::NUMPAD3),
            0x64 => Some(KeyboardKey::NUMPAD4),
            0x65 => Some(KeyboardKey::NUMPAD5),
            0x66 => Some(KeyboardKey::NUMPAD6),
            0x67 => Some(KeyboardKey::NUMPAD7),
            0x68 => Some(KeyboardKey::NUMPAD8),
            0x69 => Some(KeyboardKey::NUMPAD9),
            _ => None,
        }
    }

    /// The variant's name, as diagnostics print it.
    pub fn as_str(&self) -> (r: &'static str)
        ensures
            r@ == keyboard_key_name(*self)@,
    {
        match self {
            KeyboardKey::NULL => "NULL",
            KeyboardKey::A => "A",
            KeyboardKey::B => "B",
            KeyboardKey::C => "C",
            KeyboardKey::D => "D",
            KeyboardKey::E => "E",
            KeyboardKey::F => "F",
            KeyboardKey::G => "G",
            KeyboardKey::H => "H",
            KeyboardKey::I => "I",
            KeyboardKey::J => "J",
            KeyboardKey::K => "K",
            KeyboardKey::L => "L",
            KeyboardKey::M => "M",
            KeyboardKey::N => "N",
            KeyboardKey::O => "O",
            KeyboardKey::P => "P",
            KeyboardKey::Q => "Q",
            KeyboardKey::R => "R",
            KeyboardKey::S => "S",
            KeyboardKey::T => "T",
            KeyboardKey::U => "U",
            KeyboardKey::V => "V",
            KeyboardKey::W => "W",
            KeyboardKey::X => "X",
            KeyboardKey::Y => "Y",
            KeyboardKey::Z => "Z",
            KeyboardKey::LWIN => "LWIN",
            KeyboardKey::RWIN => "RWIN",
            KeyboardKey::APPS => "APPS",
            KeyboardKey::_Reserved => "_Reserved",
            KeyboardKey::SLEEP => "SLEEP",
            KeyboardKey::NUMPAD0 => "NUMPAD0",
            KeyboardKey::NUMPAD1 => "NUMPAD1",
            KeyboardKey::NUMPAD2 => "NUMPAD2",
            KeyboardKey::NUMPAD3 => "NUMPAD3",
            KeyboardKey::NUMPAD4 => "NUMPAD4",
            KeyboardKey::NUMPAD5 => "NUMPAD5",
            KeyboardKey::NUMPAD6 => "NUMPAD6",
            KeyboardKey::NUMPAD7 => "NUMPAD7",
            KeyboardKey::NUMPAD8 => "NUMPAD8",
            KeyboardKey::NUMPAD9 => "NUMPAD9",
        }
    }
}

} // verus!
