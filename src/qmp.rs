//! The QMP plugin: drives a QEMU guest's pointer through the QEMU Machine
//! Protocol. This module holds its arguments and their defaults, and the
//! session's decisions: whether a command may be sent, and which. The host
//! owns the socket, encodes each command and sends it.
use vstd::prelude::*;

use crate::error::{InputFlowError, Result};
use crate::headers::WRITE_MOUSE;
use crate::key_types::MouseButton;
use crate::text::{bytes_of, decimal, push_decimal, push_text};

verus! {

/// The plugin's name.
pub const NAME: &'static str = "inputflow_qmp";

/// The capabilities its header declares.
pub const FEATURES: u8 = WRITE_MOUSE;

/// The address QMP is reached at unless told otherwise.
pub fn default_ip() -> (r: String)
    ensures
        r@ == "127.0.0.1"@,
{
    String::from_str("127.0.0.1")
}

/// The port QEMU exposes QMP on unless told otherwise.
pub fn default_port() -> (r: u32)
    ensures
        r == 6448,
{
    6448
}

/// How the plugin is set up.
#[derive(Debug)]
pub struct Args {
    /// The address of the QMP socket.
    pub address: String,
    /// The port of the QMP socket.
    pub port: u32,
}

/// `a` holds every default.
pub open spec fn is_default_args(a: Args) -> bool {
    a.address@ == "127.0.0.1"@ && a.port == 6448
}

impl Args {
    /// Every argument at its default.
    pub fn defaults() -> (r: Args)
        ensures
            is_default_args(r),
    {
        Args { address: default_ip(), port: default_port() }
    }
}

/// The arguments from their raw text: the defaults when the text is empty,
/// else what the text decoded to, or `Parameter` when it did not decode.
pub fn parse_args(raw: &str, decoded: Option<Args>) -> (r: Result<Args>)
    ensures
        raw@.len() == 0 ==> (r matches Ok(a) && is_default_args(a)),
        raw@.len() > 0 ==> match decoded {
            Some(d) => r == Ok::<Args, InputFlowError>(d),
            None => r == Err::<Args, InputFlowError>(InputFlowError::Parameter),
        },
{
    if raw.unicode_len() == 0 {
        Ok(Args::defaults())
    } else {
        match decoded {
            Some(d) => Ok(d),
            None => Err(InputFlowError::Parameter),
        }
    }
}

/// The buttons QMP knows.
#[derive(Debug, Clone, Copy, PartialEq, Eq, Structural)]
pub enum QmpButton {
    Left,
    Right,
    Middle,
    Side,
    Extra,
}

impl QmpButton {
    /// The button's name in the protocol.
    pub fn as_str(&self) -> (r: &'static str)
        ensures
            r@ == qmp_button_name(*self)@,
    {
        match self {
            QmpButton::Left => "left",
            QmpButton::Right => "right",
            QmpButton::Middle => "middle",
            QmpButton::Side => "side",
            QmpButton::Extra => "extra",
        }
    }
}

/// The protocol's name of each button.
pub open spec fn qmp_button_name(b: QmpButton) -> &'static str {
    match b {
        QmpButton::Left => "left",
        QmpButton::Right => "right",
        QmpButton::Middle => "middle",
        QmpButton::Side => "side",
        QmpButton::Extra => "extra",
    }
}

/// The QMP button for each mouse button that has one.
pub open spec fn qmp_button(b: MouseButton) -> Option<QmpButton> {
    match b {
        MouseButton::Left => Some(QmpButton::Left),
        MouseButton::Right => Some(QmpButton::Right),
        MouseButton::Middle => Some(QmpButton::Middle),
        MouseButton::XButton1 => Some(QmpButton::Side),
        MouseButton::XButton2 => Some(QmpButton::Extra),
        _ => None,
    }
}

/// The QMP button for a mouse button, if it has one.
pub fn qmp_button_of(b: MouseButton) -> (r: Option<QmpButton>)
    ensures
        r == qmp_button(b),
{
    match b {
        MouseButton::Left => Some(QmpButton::Left),
        MouseButton::Right => Some(QmpButton::Right),
        MouseButton::Middle => Some(QmpButton::Middle),
        MouseButton::XButton1 => Some(QmpButton::Side),
        MouseButton::XButton2 => Some(QmpButton::Extra),
        _ => None,
    }
}

/// A command for QEMU.
#[derive(Debug, Clone, Copy, PartialEq, Eq, Structural)]
pub enum QmpCommand {
    /// `qmp_capabilities`: leaves negotiation mode so that commands are taken.
    Capabilities,
    /// An `input-send-event` with one button event.
    Button { button: QmpButton, down: bool },
    /// An `input-send-event` with a relative move on x, then on y.
    Move { x: i32, y: i32 },
}

/// The JSON text of each command, as it goes on the socket.
pub open spec fn command_text(cmd: QmpCommand) -> Seq<u8> {
    match cmd {
        QmpCommand::Capabilities => bytes_of("{\"execute\":\"qmp_capabilities\"}"@),
        QmpCommand::Button { button, down } => bytes_of(
            "{\"execute\":\"input-send-event\",\"arguments\":{\"events\":[{\"type\":\"btn\",\"data\":{\"button\":\""@,
        ) + bytes_of(qmp_button_name(button)@) + bytes_of("\",\"down\":"@) + bytes_of(
            (if down { "true" } else { "false" })@,
        ) + bytes_of("}}]}}"@),
        QmpCommand::Move { x, y } => bytes_of(
            "{\"execute\":\"input-send-event\",\"arguments\":{\"events\":[{\"type\":\"rel\",\"data\":{\"axis\":\"x\",\"value\":"@,
        ) + decimal(x as int) + bytes_of(
            "}},{\"type\":\"rel\",\"data\":{\"axis\":\"y\",\"value\":"@,
        ) + decimal(y as int) + bytes_of("}}]}}"@),
    }
}

/// The JSON text of a command, as it goes on the socket.
pub fn command_message(cmd: QmpCommand) -> (r: Vec<u8>)
    ensures
        r@ == command_text(cmd),
{
    let mut out: Vec<u8> = Vec::new();
    match cmd {
        QmpCommand::Capabilities => {
            push_text(&mut out, "{\"execute\":\"qmp_capabilities\"}");
        },
        QmpCommand::Button { button, down } => {
            push_text(
                &mut out,
                "{\"execute\":\"input-send-event\",\"arguments\":{\"events\":[{\"type\":\"btn\",\"data\":{\"button\":\"",
            );
            push_text(&mut out, button.as_str());
            push_text(&mut out, "\",\"down\":");
            push_text(&mut out, if down { "true" } else { "false" });
            push_text(&mut out, "}}]}}");
        },
        QmpCommand::Move { x, y } => {
            push_text(
                &mut out,
                "{\"execute\":\"input-send-event\",\"arguments\":{\"events\":[{\"type\":\"rel\",\"data\":{\"axis\":\"x\",\"value\":",
            );
            push_decimal(&mut out, x as i64);
            push_text(&mut out, "}},{\"type\":\"rel\",\"data\":{\"axis\":\"y\",\"value\":");
            push_decimal(&mut out, y as i64);
            push_text(&mut out, "}}]}}");
        },
    }
    out
}

/// What a send gives the caller: `SendError` when the socket refused the
/// message.
pub fn send_outcome(sent: bool) -> (r: Result<()>)
    ensures
        sent ==> r == Ok::<(), InputFlowError>(()),
        !sent ==> r == Err::<(), InputFlowError>(InputFlowError::SendError),
{
    if sent {
        Ok(())
    } else {
        Err(InputFlowError::SendError)
    }
}

/// The buttons released when every button is cleared, in order.
pub open spec fn cleared_buttons() -> Seq<QmpButton> {
    seq![QmpButton::Left, QmpButton::Right, QmpButton::Middle, QmpButton::Side, QmpButton::Extra]
}

/// What the plugin knows of its connection.
pub struct QmpSession {
    connected: bool,
}

impl QmpSession {
    pub closed spec fn spec_connected(&self) -> bool {
        self.connected
    }

    /// A session that has not connected yet.
    pub fn new() -> (r: QmpSession)
        ensures
            !r.spec_connected(),
    {
        QmpSession { connected: false }
    }

    /// Whether the session is connected; a connection is attempted only when not.
    pub fn is_connected(&self) -> (r: bool)
        ensures
            r == self.spec_connected(),
    {
        self.connected
    }

    /// Takes in whether a connection attempt succeeded. A session that was
    /// connected stays so. Returns whether it is connected now.
    pub fn on_connect(&mut self, opened: bool) -> (r: bool)
        ensures
            r == (old(self).spec_connected() || opened),
            final(self).spec_connected() == r,
    {
        if !self.connected {
            self.connected = opened;
        }
        self.connected
    }

    /// The socket was shut.
    pub fn on_disconnect(&mut self)
        ensures
            !final(self).spec_connected(),
    {
        self.connected = false;
    }

    /// The command that enables the others, once connected.
    pub fn enable_commands(&self) -> (r: Option<QmpCommand>)
        ensures
            self.spec_connected() ==> r == Some(QmpCommand::Capabilities),
            !self.spec_connected() ==> r is None,
    {
        if self.connected {
            Some(QmpCommand::Capabilities)
        } else {
            None
        }
    }

    /// The command that presses (`down`) or releases a button: `Uninitialized`
    /// before a connection, `InvalidKey` for a button QMP does not know.
    pub fn button_command(&self, button: MouseButton, down: bool) -> (r: Result<QmpCommand>)
        ensures
            !self.spec_connected() ==> r == Err::<QmpCommand, InputFlowError>(InputFlowError::Uninitialized),
            self.spec_connected() ==> match qmp_button(button) {
                None => r == Err::<QmpCommand, InputFlowError>(InputFlowError::InvalidKey),
                Some(b) => r == Ok::<QmpCommand, InputFlowError>(QmpCommand::Button { button: b, down }),
            },
    {
        if !self.connected {
            return Err(InputFlowError::Uninitialized);
        }
        match qmp_button_of(button) {
            None => Err(InputFlowError::InvalidKey),
            Some(b) => Ok(QmpCommand::Button { button: b, down }),
        }
    }

    /// The commands of a click: the button down, then up; the host pauses
    /// briefly between the two.
    pub fn click_commands(&self, button: MouseButton) -> (r: Result<Vec<QmpCommand>>)
        ensures
            !self.spec_connected() ==> r == Err::<Vec<QmpCommand>, InputFlowError>(InputFlowError::Uninitialized),
            self.spec_connected() ==> match qmp_button(button) {
                None => r == Err::<Vec<QmpCommand>, InputFlowError>(InputFlowError::InvalidKey),
                Some(b) => r matches Ok(cmds) && cmds@ == seq![
                    QmpCommand::Button { button: b, down: true },
                    QmpCommand::Button { button: b, down: false },
                ],
            },
    {
        let down = self.button_command(button, true)?;
        let up = self.button_command(button, false)?;
        let mut cmds: Vec<QmpCommand> = Vec::new();
        cmds.push(down);
        cmds.push(up);
        Ok(cmds)
    }

    /// The commands that release every button QMP knows, in order.
    pub fn clear_commands(&self) -> (r: Result<Vec<QmpCommand>>)
        ensures
            !self.spec_connected() ==> r == Err::<Vec<QmpCommand>, InputFlowError>(InputFlowError::Uninitialized),
            self.spec_connected() ==> (r matches Ok(cmds) && cmds@.len() == cleared_buttons().len()
                && forall|i: int| 0 <= i < cmds@.len()
                    ==> cmds@[i] == (QmpCommand::Button { button: cleared_buttons()[i], down: false })),
    {
        if !self.connected {
            return Err(InputFlowError::Uninitialized);
        }
        let mut cmds: Vec<QmpCommand> = Vec::new();
        cmds.push(QmpCommand::Button { button: QmpButton::Left, down: false });
        cmds.push(QmpCommand::Button { button: QmpButton::Right, down: false });
        cmds.push(QmpCommand::Button { button: QmpButton::Middle, down: false });
        cmds.push(QmpCommand::Button { button: QmpButton::Side, down: false });
        cmds.push(QmpCommand::Button { button: QmpButton::Extra, down: false });
        Ok(cmds)
    }

    /// The command that moves the pointer by `x`, `y`: `Uninitialized`
    /// before a connection.
    pub fn move_command(&self, x: i32, y: i32) -> (r: Result<QmpCommand>)
        ensures
            !self.spec_connected() ==> r == Err::<QmpCommand, InputFlowError>(InputFlowError::Uninitialized),
            self.spec_connected() ==> r == Ok::<QmpCommand, InputFlowError>(QmpCommand::Move { x, y }),
    {
        if !self.connected {
            return Err(InputFlowError::Uninitialized);
        }
        Ok(QmpCommand::Move { x, y })
    }
}

} // verus!
