//! The interfaces a plugin implements: one mandatory, the others optional and
//! each gated by one capability bit.
use vstd::prelude::*;

use crate::error::Result;
use crate::key_types::{KeyboardKey, MouseButton};

verus! {

/// The mandatory interface of every plugin.
pub trait Loadable {
    /// A stable name for diagnostics.
    fn name(&self) -> String;

    /// The capability bits; equal to those of the plugin's header.
    fn capabilities(&self) -> u8;
}

/// Sends keyboard input to a device, local or remote.
pub trait KeyboardWriter: Send {
    /// Presses a key down.
    fn send_key_down(&mut self, key: KeyboardKey) -> Result<()>;

    /// Releases a key pressed earlier.
    fn send_key_up(&mut self, key: KeyboardKey) -> Result<()>;

    /// Presses a key and lets it go.
    fn press_key(&mut self, key: KeyboardKey) -> Result<()>;

    /// Releases every pressed key.
    fn clear_keys(&mut self) -> Result<()>;
}

/// Sends mouse buttons and movement to a device, local or remote.
pub trait MouseWriter: Send {
    /// Presses a button down.
    fn send_button_down(&mut self, button: MouseButton) -> Result<()>;

    /// Releases a button pressed earlier.
    fn send_button_up(&mut self, button: MouseButton) -> Result<()>;

    /// Presses a button and lets it go.
    fn click_button(&mut self, button: MouseButton) -> Result<()>;

    /// Releases every pressed button.
    fn clear_buttons(&mut self) -> Result<()>;

    /// Moves the pointer by `x` horizontally and `y` vertically.
    fn mouse_move_relative(&mut self, x: i32, y: i32) -> Result<()>;
}

/// The root object a plugin's factory returns: it hands out its features,
/// borrowed or owned.
pub trait PluginInner {
    type Features: Loadable;

    /// The features, borrowed for as long as the root is.
    fn borrow_features(&mut self) -> &mut Self::Features;

    /// The features, moved out of the root.
    fn into_features(self) -> Self::Features;
}

/// Any root object.
pub trait Plugin: PluginInner {}

impl<T: PluginInner> Plugin for T {}

} // verus!
