//! Key events as the host reports them, and the state of the modifier keys.
use vstd::prelude::*;

verus! {

/// Tag stamped into every key event this library asks to inject; an event
/// that carries it is the library's own output coming back.
pub const SYNTHETIC_TAG: u64 = 0x1234_5678_8765_4321;

/// Virtual-key code of the main-keyboard slash key (OEM 2).
pub const SOURCE_KEY: u32 = 191;

/// Virtual-key code of the numeric-keypad divide key.
pub const TARGET_KEY: u16 = 111;

/// Message that reports a key press.
pub const MSG_KEY_DOWN: usize = 0x0100;

/// Message that reports a key release.
pub const MSG_KEY_UP: usize = 0x0101;

/// Message that reports a key press while Alt is held (a system key).
pub const MSG_SYS_KEY_DOWN: usize = 0x0104;

/// Message that reports a system key release.
pub const MSG_SYS_KEY_UP: usize = 0x0105;

/// Bit of the hook's event flags that marks an injected event.
pub const FLAG_INJECTED: u32 = 0x10;

/// Whether a key went down or came up.
#[derive(Clone, Copy, Debug, PartialEq, Eq, Structural)]
pub enum Direction {
    Down,
    Up,
}

/// Where the host says an event came from.
#[derive(Clone, Copy, Debug, PartialEq, Eq, Structural)]
pub enum Origin {
    Hardware,
    Synthetic,
}

/// One raw key event, read from the host's payload.
#[derive(Clone, Copy, Debug, PartialEq, Eq, Structural)]
pub struct KeyEvent {
    /// Virtual-key code of the key.
    pub vk_code: u32,
    /// Message that announced the event (press, release, or another).
    pub message: usize,
    /// Where the event came from.
    pub origin: Origin,
    /// Opaque tag attached by whoever produced the event.
    pub extra_info: u64,
}

/// Which modifier keys are held when an event is processed.
#[derive(Clone, Copy, Debug, PartialEq, Eq, Structural)]
pub struct ModifierState {
    pub ctrl_pressed: bool,
    pub shift_pressed: bool,
    pub alt_pressed: bool,
}

/// A key event to inject in place of a suppressed one.
#[derive(Clone, Copy, Debug, PartialEq, Eq, Structural)]
pub struct SyntheticKey {
    /// Virtual-key code to emit.
    pub virtual_key: u16,
    /// Press or release.
    pub direction: Direction,
    /// Tag to attach to the injected event.
    pub extra_info: u64,
}

/// The direction a message announces, if it announces a press or a release.
pub open spec fn direction_of(message: usize) -> Option<Direction> {
    if message == MSG_KEY_DOWN || message == MSG_SYS_KEY_DOWN {
        Some(Direction::Down)
    } else if message == MSG_KEY_UP || message == MSG_SYS_KEY_UP {
        Some(Direction::Up)
    } else {
        None
    }
}

/// Classifies a message: ordinary and system presses are `Down`, ordinary and
/// system releases are `Up`, anything else is `None`.
pub fn classify(message: usize) -> (r: Option<Direction>)
    ensures
        r == direction_of(message),
{
    if message == MSG_KEY_DOWN || message == MSG_SYS_KEY_DOWN {
        Some(Direction::Down)
    } else if message == MSG_KEY_UP || message == MSG_SYS_KEY_UP {
        Some(Direction::Up)
    } else {
        None
    }
}

/// Whether a key is held, given the state word the host reports for it
/// (its sign bit is set while the key is down).
pub fn is_pressed(state: i16) -> (r: bool)
    ensures
        r == (state < 0),
{
    state < 0
}

impl Origin {
    /// The origin recorded in the hook's event flags.
    pub fn from_flags(flags: u32) -> (r: Origin)
        ensures
            r == (if flags & FLAG_INJECTED != 0 { Origin::Synthetic } else { Origin::Hardware }),
    {
        if flags & FLAG_INJECTED != 0 {
            Origin::Synthetic
        } else {
            Origin::Hardware
        }
    }
}

impl ModifierState {
    /// Whether any of Ctrl, Shift and Alt is held.
    pub open spec fn any_held_spec(self) -> bool {
        self.ctrl_pressed || self.shift_pressed || self.alt_pressed
    }

    /// The modifier state given the state words of Ctrl, Shift and Alt.
    pub fn from_key_states(ctrl: i16, shift: i16, alt: i16) -> (r: ModifierState)
        ensures
            r.ctrl_pressed == (ctrl < 0),
            r.shift_pressed == (shift < 0),
            r.alt_pressed == (alt < 0),
    {
        ModifierState {
            ctrl_pressed: is_pressed(ctrl),
            shift_pressed: is_pressed(shift),
            alt_pressed: is_pressed(alt),
        }
    }

    /// Whether any of Ctrl, Shift and Alt is held.
    pub fn any_held(&self) -> (r: bool)
        ensures
            r == self.any_held_spec(),
    {
        self.ctrl_pressed || self.shift_pressed || self.alt_pressed
    }
}

} // verus!
