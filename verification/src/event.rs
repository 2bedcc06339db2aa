//! Synthetic input events: the key and button event types, their protocol
//! codes and event masks, and the plain descriptions of the events a
//! window dispatches.
//!
//! The protocol assigns fixed numeric codes to the press and release
//! subtypes of key and button events, and a fixed mask bit to each; the
//! constants here are those of the core protocol.

use vstd::prelude::*;

verus! {

/// Protocol code of a key-press event.
pub const KEY_PRESS: i32 = 2;

/// Protocol code of a key-release event.
pub const KEY_RELEASE: i32 = 3;

/// Protocol code of a button-press event.
pub const BUTTON_PRESS: i32 = 4;

/// Protocol code of a button-release event.
pub const BUTTON_RELEASE: i32 = 5;

/// Event-mask bit selecting key-press events.
pub const KEY_PRESS_MASK: i64 = 1;

/// Event-mask bit selecting key-release events.
pub const KEY_RELEASE_MASK: i64 = 2;

/// Event-mask bit selecting button-press events.
pub const BUTTON_PRESS_MASK: i64 = 4;

/// Event-mask bit selecting button-release events.
pub const BUTTON_RELEASE_MASK: i64 = 8;

/// The timestamp value that stands for "now" in a dispatched event.
pub const CURRENT_TIME: u64 = 0;

/// Key event subtype: press or release.
#[derive(Clone, Copy, Debug, PartialEq, Eq, Structural)]
pub enum KeyType {
    /// Key press.
    Press,
    /// Key release.
    Release,
}

impl KeyType {
    /// The event-mask bit of this subtype.
    pub open spec fn spec_mask(self) -> i64 {
        match self {
            KeyType::Press => 1,
            KeyType::Release => 2,
        }
    }

    /// The protocol code of this subtype.
    pub open spec fn spec_code(self) -> i32 {
        match self {
            KeyType::Press => 2,
            KeyType::Release => 3,
        }
    }

    /// The event-mask bit of this subtype.
    pub fn mask(&self) -> (m: i64)
        ensures
            m == self.spec_mask(),
    {
        match self {
            KeyType::Press => KEY_PRESS_MASK,
            KeyType::Release => KEY_RELEASE_MASK,
        }
    }

    /// The protocol code of this subtype.
    pub fn code(&self) -> (c: i32)
        ensures
            c == self.spec_code(),
    {
        match self {
            KeyType::Press => KEY_PRESS,
            KeyType::Release => KEY_RELEASE,
        }
    }
}

/// Button event subtype: press or release.
#[derive(Clone, Copy, Debug, PartialEq, Eq, Structural)]
pub enum ButtonType {
    /// Button press.
    Press,
    /// Button release.
    Release,
}

impl ButtonType {
    /// The event-mask bit of this subtype.
    pub open spec fn spec_mask(self) -> i64 {
        match self {
            ButtonType::Press => 4,
            ButtonType::Release => 8,
        }
    }

    /// The protocol code of this subtype.
    pub open spec fn spec_code(self) -> i32 {
        match self {
            ButtonType::Press => 4,
            ButtonType::Release => 5,
        }
    }

    /// The event-mask bit of this subtype.
    pub fn mask(&self) -> (m: i64)
        ensures
            m == self.spec_mask(),
    {
        match self {
            ButtonType::Press => BUTTON_PRESS_MASK,
            ButtonType::Release => BUTTON_RELEASE_MASK,
        }
    }

    /// The protocol code of this subtype.
    pub fn code(&self) -> (c: i32)
        ensures
            c == self.spec_code(),
    {
        match self {
            ButtonType::Press => BUTTON_PRESS,
            ButtonType::Release => BUTTON_RELEASE,
        }
    }
}

/// A synthetic key event, field for field as it is dispatched, together
/// with the event mask to dispatch it under.
#[derive(Clone, Copy, Debug, PartialEq, Eq, Structural)]
pub struct KeyEvent {
    /// Protocol code of the event subtype.
    pub event_code: i32,
    /// Event-mask bit the dispatch selects.
    pub mask: i64,
    /// Serial number; synthetic events carry zero.
    pub serial: u64,
    /// Marks the event as synthetic.
    pub send_event: i32,
    /// The window the event is addressed to.
    pub window: u64,
    /// The root window of the display.
    pub root: u64,
    /// Child window; none for a synthetic event.
    pub subwindow: u64,
    /// Timestamp of the event.
    pub time: u64,
    /// Pointer position within the window.
    pub x: i32,
    /// Pointer position within the window.
    pub y: i32,
    /// Pointer position on the screen.
    pub x_root: i32,
    /// Pointer position on the screen.
    pub y_root: i32,
    /// Modifier state sent with the event.
    pub state: u32,
    /// The key code the event carries.
    pub keycode: u32,
    /// Whether pointer and window share a screen.
    pub same_screen: i32,
}

/// A synthetic button event, field for field as it is dispatched,
/// together with the event mask to dispatch it under.
#[derive(Clone, Copy, Debug, PartialEq, Eq, Structural)]
pub struct ButtonEvent {
    /// Protocol code of the event subtype.
    pub event_code: i32,
    /// Event-mask bit the dispatch selects.
    pub mask: i64,
    /// Serial number; synthetic events carry zero.
    pub serial: u64,
    /// Marks the event as synthetic.
    pub send_event: i32,
    /// The window the event is addressed to.
    pub window: u64,
    /// The root window of the display.
    pub root: u64,
    /// Child window; none for a synthetic event.
    pub subwindow: u64,
    /// Timestamp of the event.
    pub time: u64,
    /// Pointer position, adjusted by the window's on-screen offset.
    pub x: i32,
    /// Pointer position, adjusted by the window's on-screen offset.
    pub y: i32,
    /// Pointer position on the screen.
    pub x_root: i32,
    /// Pointer position on the screen.
    pub y_root: i32,
    /// Modifier state sent with the event.
    pub state: u32,
    /// The button the event carries.
    pub button: u32,
    /// Whether pointer and window share a screen.
    pub same_screen: i32,
}

} // verus!
