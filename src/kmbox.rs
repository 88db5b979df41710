//! The KMBox plugin: a serial device that takes text commands. This module
//! holds its arguments and their defaults, the choice of serial port, and the
//! bytes of each command; the port itself is opened and written by the host.
use vstd::prelude::*;

use crate::error::{InputFlowError, Result};
use crate::headers::{WRITE_KEYBOARD, WRITE_MOUSE};
use crate::key_types::{KeyboardKey, MouseButton};
use crate::text::{bytes_of, decimal, push_decimal, push_text};

verus! {

/// The plugin's name.
pub const NAME: &'static str = "inputflow_kmbox";

/// The capabilities its header declares.
pub const FEATURES: u8 = WRITE_KEYBOARD | WRITE_MOUSE;

/// The serial port used when none is picked by device name: `COM6` on
/// Windows, `/dev/ttyUSB0` elsewhere.
pub fn default_com_port(windows: bool) -> (r: String)
    ensures
        windows ==> r@ == "COM6"@,
        !windows ==> r@ == "/dev/ttyUSB0"@,
{
    if windows {
        String::from_str("COM6")
    } else {
        String::from_str("/dev/ttyUSB0")
    }
}

/// The product name looked for when the port is picked automatically.
pub fn default_device_name() -> (r: String)
    ensures
        r@ == "USB-SERIAL CH340"@,
{
    String::from_str("USB-SERIAL CH340")
}

/// The port is picked by device name unless told otherwise.
pub fn default_auto_select() -> (r: bool)
    ensures
        r,
{
    true
}

/// The device's own baud rate.
pub fn default_baud_rate() -> (r: u32)
    ensures
        r == 115200,
{
    115200
}

/// How the plugin is set up.
#[derive(Debug)]
pub struct Args {
    /// Pick the serial port by device name.
    pub auto_select: bool,
    /// The product name to look for.
    pub device_name: String,
    /// The port to use when none is picked by name.
    pub com_port: String,
    pub baud_rate: u32,
    /// Port timeout in milliseconds; zero for none.
    pub timeout_ms: u64,
}

/// `a` holds every default.
pub open spec fn is_default_args(a: Args, windows: bool) -> bool {
    &&& a.auto_select
    &&& a.device_name@ == "USB-SERIAL CH340"@
    &&& (windows ==> a.com_port@ == "COM6"@)
    &&& (!windows ==> a.com_port@ == "/dev/ttyUSB0"@)
    &&& a.baud_rate == 115200
    &&& a.timeout_ms == 0
}

impl Args {
    /// Every argument at its default.
    pub fn defaults(windows: bool) -> (r: Args)
        ensures
            is_default_args(r, windows),
    {
        Args {
            auto_select: default_auto_select(),
            device_name: default_device_name(),
            com_port: default_com_port(windows),
            baud_rate: default_baud_rate(),
            timeout_ms: 0,
        }
    }
}

/// The arguments from their raw text: the defaults when the text is empty,
/// else what the text decoded to, or `Parameter` when it did not decode.
pub fn parse_args(raw: &str, decoded: Option<Args>, windows: bool) -> (r: Result<Args>)
    ensures
        raw@.len() == 0 ==> (r matches Ok(a) && is_default_args(a, windows)),
        raw@.len() > 0 ==> match decoded {
            Some(d) => r == Ok::<Args, InputFlowError>(d),
            None => r == Err::<Args, InputFlowError>(InputFlowError::Parameter),
        },
{
    if raw.unicode_len() == 0 {
        Ok(Args::defaults(windows))
    } else {
        match decoded {
            Some(d) => Ok(d),
            None => Err(InputFlowError::Parameter),
        }
    }
}

/// A serial port as the system lists it.
#[derive(Debug)]
pub struct PortInfo {
    pub port_name: String,
    /// The product name, for a USB port that reports one.
    pub usb_product: Option<String>,
}

/// `prefix` begins `s`.
pub open spec fn has_prefix(s: Seq<char>, prefix: Seq<char>) -> bool {
    prefix.len() <= s.len() && s.subrange(0, prefix.len() as int) == prefix
}

/// The port is a USB port whose product name begins with `name`.
pub open spec fn port_matches(p: PortInfo, name: Seq<char>) -> bool {
    p.usb_product matches Some(product) && has_prefix(product@, name)
}

/// Whether `prefix` begins `s`.
pub fn starts_with(s: &str, prefix: &str) -> (r: bool)
    ensures
        r == has_prefix(s@, prefix@),
{
    let n = prefix.unicode_len();
    let m = s.unicode_len();
    if n > m {
        return false;
    }
    let mut i: usize = 0;
    while i < n
        invariant
            n == prefix@.len(),
            m == s@.len(),
            n <= m,
            i <= n,
            forall|j: int| 0 <= j < i ==> s@[j] == prefix@[j],
        decreases n - i,
    {
        if s.get_char(i) != prefix.get_char(i) {
            assert(s@.subrange(0, n as int)[i as int] != prefix@[i as int]);
            return false;
        }
        i = i + 1;
    }
    assert(s@.subrange(0, n as int) =~= prefix@);
    true
}

/// The port to open: with automatic selection, the first listed USB port
/// whose product name begins with the device name, if any; otherwise the
/// configured port.
pub fn select_port(args: &Args, ports: &Vec<PortInfo>) -> (r: String)
    ensures
        !args.auto_select ==> r@ == args.com_port@,
        args.auto_select ==> {
            ||| exists|i: int|
                0 <= i < ports@.len() && port_matches(ports@[i], args.device_name@)
                    && r@ == ports@[i].port_name@
                    && forall|j: int| 0 <= j < i ==> !port_matches(#[trigger] ports@[j], args.device_name@)
            ||| (forall|i: int| 0 <= i < ports@.len() ==> !port_matches(#[trigger] ports@[i], args.device_name@))
                && r@ == args.com_port@
        },
{
    if args.auto_select {
        let mut i: usize = 0;
        while i < ports.len()
            invariant
                args.auto_select,
                i <= ports@.len(),
                forall|j: int| 0 <= j < i ==> !port_matches(#[trigger] ports@[j], args.device_name@),
            decreases ports@.len() - i,
        {
            match &ports[i].usb_product {
                Some(product) => {
                    if starts_with(product.as_str(), args.device_name.as_str()) {
                        return ports[i].port_name.clone();
                    }
                },
                None => {},
            }
            i = i + 1;
        }
    }
    args.com_port.clone()
}

/// The device's number for each mouse button it knows.
pub open spec fn km_button(button: MouseButton) -> Option<u32> {
    match button {
        MouseButton::Left => Some(0),
        MouseButton::Right => Some(1),
        MouseButton::Middle => Some(3),
        MouseButton::XButton1 => Some(4),
        MouseButton::XButton2 => Some(5),
        _ => None,
    }
}

/// The device's number for a mouse button, if it has one.
pub fn mouse_button_to_km(button: MouseButton) -> (r: Option<u32>)
    ensures
        r == km_button(button),
{
    match button {
        MouseButton::Left => Some(0),
        MouseButton::Right => Some(1),
        MouseButton::Middle => Some(3),
        MouseButton::XButton1 => Some(4),
        MouseButton::XButton2 => Some(5),
        _ => None,
    }
}

/// The device's keyboard codes: the USB HID usage of each key.
pub open spec fn km_key(key: KeyboardKey) -> Option<u8> {
    match key {
        KeyboardKey::A => Some(0x04),
        KeyboardKey::B => Some(0x05),
        KeyboardKey::C => Some(0x06),
        KeyboardKey::D => Some(0x07),
        KeyboardKey::E => Some(0x08),
        KeyboardKey::F => Some(0x09),
        KeyboardKey::G => Some(0x0a),
        KeyboardKey::H => Some(0x0b),
        KeyboardKey::I => Some(0x0c),
        KeyboardKey::J => Some(0x0d),
        KeyboardKey::K => Some(0x0e),
        KeyboardKey::L => Some(0x0f),
        KeyboardKey::M => Some(0x10),
        KeyboardKey::N => Some(0x11),
        KeyboardKey::O => Some(0x12),
        KeyboardKey::P => Some(0x13),
        KeyboardKey::Q => Some(0x14),
        KeyboardKey::R => Some(0x15),
        KeyboardKey::S => Some(0x16),
        KeyboardKey::T => Some(0x17),
        KeyboardKey::U => Some(0x18),
        KeyboardKey::V => Some(0x19),
        KeyboardKey::W => Some(0x1a),
        KeyboardKey::X => Some(0x1b),
        KeyboardKey::Y => Some(0x1c),
        KeyboardKey::Z => Some(0x1d),
        KeyboardKey::LWIN => Some(0xe3),
        KeyboardKey::RWIN => Some(0xe7),
        KeyboardKey::APPS => Some(0x65),
        KeyboardKey::NUMPAD0 => Some(0x62),
        KeyboardKey::NUMPAD1 => Some(0x59),
        KeyboardKey::NUMPAD2 => Some(0x5a),
        KeyboardKey::NUMPAD3 => Some(0x5b),
        KeyboardKey::NUMPAD4 => Some(0x5c),
        KeyboardKey::NUMPAD5 => Some(0x5d),
        KeyboardKey::NUMPAD6 => Some(0x5e),
        KeyboardKey::NUMPAD7 => Some(0x5f),
        KeyboardKey::NUMPAD8 => Some(0x60),
        KeyboardKey::NUMPAD9 => Some(0x61),
        _ => None,
    }
}

/// The device's code for a key, if it has one.
pub fn km_key_code(key: KeyboardKey) -> (r: Option<u8>)
    ensures
        r == km_key(key),
{
    match key {
        KeyboardKey::A => Some(0x04),
        KeyboardKey::B => Some(0x05),
        KeyboardKey::C => Some(0x06),
        KeyboardKey::D => Some(0x07),
        KeyboardKey::E => Some(0x08),
        KeyboardKey::F => Some(0x09),
        KeyboardKey::G => Some(0x0a),
        KeyboardKey::H => Some(0x0b),
        KeyboardKey::I => Some(0x0c),
        KeyboardKey::J => Some(0x0d),
        KeyboardKey::K => Some(0x0e),
        KeyboardKey::L => Some(0x0f),
        KeyboardKey::M => Some(0x10),
        KeyboardKey::N => Some(0x11),
        KeyboardKey::O => Some(0x12),
        KeyboardKey::P => Some(0x13),
        KeyboardKey::Q => Some(0x14),
        KeyboardKey::R => Some(0x15),
        KeyboardKey::S => Some(0x16),
        KeyboardKey::T => Some(0x17),
        KeyboardKey::U => Some(0x18),
        KeyboardKey::V => Some(0x19),
        KeyboardKey::W => Some(0x1a),
        KeyboardKey::X => Some(0x1b),
        KeyboardKey::Y => Some(0x1c),
        KeyboardKey::Z => Some(0x1d),
        KeyboardKey::LWIN => Some(0xe3),
        KeyboardKey::RWIN => Some(0xe7),
        KeyboardKey::APPS => Some(0x65),
        KeyboardKey::NUMPAD0 => Some(0x62),
        KeyboardKey::NUMPAD1 => Some(0x59),
        KeyboardKey::NUMPAD2 => Some(0x5a),
        KeyboardKey::NUMPAD3 => Some(0x5b),
        KeyboardKey::NUMPAD4 => Some(0x5c),
        KeyboardKey::NUMPAD5 => Some(0x5d),
        KeyboardKey::NUMPAD6 => Some(0x5e),
        KeyboardKey::NUMPAD7 => Some(0x5f),
        KeyboardKey::NUMPAD8 => Some(0x60),
        KeyboardKey::NUMPAD9 => Some(0x61),
        _ => None,
    }
}

/// `km.left(d)` sets the left button: 1 down, 0 up.
pub open spec fn left_text(is_down: int) -> Seq<u8> {
    bytes_of("km.left("@) + decimal(is_down) + bytes_of(")\r\n"@)
}

/// The command that sets the left button.
pub fn left_command(is_down: i32) -> (r: Vec<u8>)
    ensures
        r@ == left_text(is_down as int),
{
    let mut out: Vec<u8> = Vec::new();
    push_text(&mut out, "km.left(");
    push_decimal(&mut out, is_down as i64);
    push_text(&mut out, ")\r\n");
    out
}

/// The command that presses or releases a key.
pub fn key_command(key: KeyboardKey, is_down: bool) -> (r: Result<Vec<u8>>)
    ensures
        match km_key(key) {
            None => r == Err::<Vec<u8>, InputFlowError>(InputFlowError::InvalidKey),
            Some(code) => r matches Ok(cmd) && cmd@ == if is_down {
                bytes_of("km.down("@) + decimal(code as int) + bytes_of(")\r\n"@)
            } else {
                bytes_of("km.up("@) + decimal(code as int) + bytes_of(")\r\n"@)
            },
        },
{
    match km_key_code(key) {
        None => Err(InputFlowError::InvalidKey),
        Some(code) => {
            let mut out: Vec<u8> = Vec::new();
            if is_down {
                push_text(&mut out, "km.down(");
            } else {
                push_text(&mut out, "km.up(");
            }
            push_decimal(&mut out, code as i64);
            push_text(&mut out, ")\r\n");
            Ok(out)
        },
    }
}

/// The command that presses a key and lets it go, with the device's timing.
pub fn press_command(key: KeyboardKey) -> (r: Result<Vec<u8>>)
    ensures
        match km_key(key) {
            None => r == Err::<Vec<u8>, InputFlowError>(InputFlowError::InvalidKey),
            Some(code) => r matches Ok(cmd) && cmd@ == bytes_of("km.press("@) + decimal(code as int)
                + bytes_of(",15,50)\r\n"@),
        },
{
    match km_key_code(key) {
        None => Err(InputFlowError::InvalidKey),
        Some(code) => {
            let mut out: Vec<u8> = Vec::new();
            push_text(&mut out, "km.press(");
            push_decimal(&mut out, code as i64);
            push_text(&mut out, ",15,50)\r\n");
            Ok(out)
        },
    }
}

/// The command that presses (`down`) or releases a button: the device takes
/// only the left button this way; any other is `Parameter`.
pub fn button_command(button: MouseButton, down: bool) -> (r: Result<Vec<u8>>)
    ensures
        button == MouseButton::Left ==> (r matches Ok(cmd) && cmd@ == left_text(if down { 1 } else { 0 })),
        button != MouseButton::Left ==> r == Err::<Vec<u8>, InputFlowError>(InputFlowError::Parameter),
{
    match button {
        MouseButton::Left => Ok(left_command(if down { 1 } else { 0 })),
        _ => Err(InputFlowError::Parameter),
    }
}

/// The command that clicks a button: a button the device has no number for
/// is `InvalidKey`; of the others only the left one can be clicked, the rest
/// are `Parameter`.
pub fn click_command(button: MouseButton) -> (r: Result<Vec<u8>>)
    ensures
        km_button(button) is None ==> r == Err::<Vec<u8>, InputFlowError>(InputFlowError::InvalidKey),
        button == MouseButton::Left ==> (r matches Ok(cmd) && cmd@ == bytes_of("km.click("@) + decimal(0)
            + bytes_of(")\r\n"@)),
        km_button(button) is Some && button != MouseButton::Left ==> r == Err::<Vec<u8>, InputFlowError>(
            InputFlowError::Parameter,
        ),
{
    match mouse_button_to_km(button) {
        None => Err(InputFlowError::InvalidKey),
        Some(km) => {
            match button {
                MouseButton::Left => {
                    let mut out: Vec<u8> = Vec::new();
                    push_text(&mut out, "km.click(");
                    push_decimal(&mut out, km as i64);
                    push_text(&mut out, ")\r\n");
                    Ok(out)
                },
                _ => Err(InputFlowError::Parameter),
            }
        },
    }
}

/// The command that moves the pointer by `x`, `y`.
pub fn move_command(x: i32, y: i32) -> (r: Vec<u8>)
    ensures
        r@ == bytes_of("km.move("@) + decimal(x as int) + bytes_of(","@) + decimal(y as int) + bytes_of(
            ")\r\n"@,
        ),
{
    let mut out: Vec<u8> = Vec::new();
    push_text(&mut out, "km.move(");
    push_decimal(&mut out, x as i64);
    push_text(&mut out, ",");
    push_decimal(&mut out, y as i64);
    push_text(&mut out, ")\r\n");
    out
}

} // verus!
