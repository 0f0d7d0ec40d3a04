//! The event kinds that Lua callbacks can subscribe to under
//! `Mux.event.input.keyboard` and `Mux.event.window`, and how kinds are
//! matched and called with arguments.

use vstd::prelude::*;
use crate::config::keyboard::KeyboardConfigBuilder;
use crate::types::input::{DeviceLocation, Key};

verus! {

/// A keyboard event kind, with the context handed to its callbacks.
#[derive(Debug, Clone)]
pub enum InputKeyboardEventKind {
    Added { keyboard: KeyboardConfigBuilder, location: DeviceLocation },
    Removed { location: DeviceLocation },
    Pressed { location: DeviceLocation, key: Key },
    KeyRepeat { location: DeviceLocation, key: Key },
    Inactivity { timeout_secs: u64, keyboard: KeyboardConfigBuilder, location: DeviceLocation },
}

/// Two keyboard event kinds select the same callbacks: they are the same kind,
/// and inactivity kinds also have the same timeout.
pub open spec fn kinds_match(a: InputKeyboardEventKind, b: InputKeyboardEventKind) -> bool {
    match (a, b) {
        (InputKeyboardEventKind::Added { .. }, InputKeyboardEventKind::Added { .. }) => true,
        (InputKeyboardEventKind::Removed { .. }, InputKeyboardEventKind::Removed { .. }) => true,
        (InputKeyboardEventKind::Pressed { .. }, InputKeyboardEventKind::Pressed { .. }) => true,
        (InputKeyboardEventKind::KeyRepeat { .. }, InputKeyboardEventKind::KeyRepeat { .. }) => true,
        (
            InputKeyboardEventKind::Inactivity { timeout_secs: t1, .. },
            InputKeyboardEventKind::Inactivity { timeout_secs: t2, .. },
        ) => t1 == t2,
        _ => false,
    }
}

/// An event kind called with arguments it cannot take.
#[derive(Debug, Clone, Copy, PartialEq, Eq, Structural)]
pub enum EventKindError {
    /// `inactivity()` was called without a timeout.
    MissingTimeout,
    /// The kind takes no argument.
    NotParameterized,
}

/// The location as `DeviceLocation::default()` makes it: every attribute
/// absent, so it applies to every device.
pub open spec fn is_blank_location(location: DeviceLocation) -> bool {
    &&& location.name is None
    &&& location.port is None
    &&& location.seat is None
}

/// The key as `Key::default()` makes it: keycode and keysym zero, no text.
pub open spec fn is_blank_key(key: Key) -> bool {
    &&& key.keycode == 0
    &&& key.keysym == 0
    &&& key.utf8 is None
}

/// The keyboard and location of a kind as Lua creates it: applying to every
/// device, with no setting.
pub open spec fn is_blank_context(keyboard: KeyboardConfigBuilder, location: DeviceLocation) -> bool {
    &&& is_blank_location(keyboard.criteria())
    &&& keyboard.layout() is None
    &&& keyboard.options() is None
    &&& is_blank_location(location)
}

impl InputKeyboardEventKind {
    /// Whether the two kinds select the same callbacks.
    pub fn matches(&self, other: &Self) -> (r: bool)
        ensures
            r == kinds_match(*self, *other),
    {
        match (self, other) {
            (InputKeyboardEventKind::Added { .. }, InputKeyboardEventKind::Added { .. }) => true,
            (InputKeyboardEventKind::Removed { .. }, InputKeyboardEventKind::Removed { .. }) => true,
            (InputKeyboardEventKind::Pressed { .. }, InputKeyboardEventKind::Pressed { .. }) => true,
            (InputKeyboardEventKind::KeyRepeat { .. }, InputKeyboardEventKind::KeyRepeat { .. }) => {
                true
            },
            (
                InputKeyboardEventKind::Inactivity { timeout_secs: t1, .. },
                InputKeyboardEventKind::Inactivity { timeout_secs: t2, .. },
            ) => *t1 == *t2,
            _ => false,
        }
    }

    /// Only the inactivity kind takes an argument.
    pub fn is_callable(&self) -> (r: bool)
        ensures
            r == (*self is Inactivity),
    {
        match self {
            InputKeyboardEventKind::Inactivity { .. } => true,
            _ => false,
        }
    }

    /// Calls the kind with its first Lua argument, read as a number of
    /// seconds: the inactivity kind takes it as its timeout; it refuses a
    /// missing argument, and other kinds refuse any call.
    pub fn call_with_args(&self, timeout_secs: Option<u64>) -> (r: Result<
        InputKeyboardEventKind,
        EventKindError,
    >)
        ensures
            match *self {
                InputKeyboardEventKind::Inactivity { .. } => match timeout_secs {
                    Some(t) => r matches Ok(k) && (k matches InputKeyboardEventKind::Inactivity {
                        timeout_secs: t2,
                        keyboard,
                        location,
                    } && t2 == t && is_blank_context(keyboard, location)),
                    None => r == Err::<InputKeyboardEventKind, EventKindError>(
                        EventKindError::MissingTimeout,
                    ),
                },
                _ => r == Err::<InputKeyboardEventKind, EventKindError>(
                    EventKindError::NotParameterized,
                ),
            },
    {
        match self {
            InputKeyboardEventKind::Inactivity { .. } => match timeout_secs {
                Some(t) => Ok(
                    InputKeyboardEventKind::Inactivity {
                        timeout_secs: t,
                        keyboard: KeyboardConfigBuilder::empty(),
                        location: DeviceLocation::default(),
                    },
                ),
                None => Err(EventKindError::MissingTimeout),
            },
            _ => Err(EventKindError::NotParameterized),
        }
    }
}

/// The tags of `Mux.event.input.keyboard`, by field name, as Lua first sees
/// them: every context blank, every key zero, the inactivity timeout zero.
pub fn input_keyboard_tags() -> (r: Vec<(&'static str, InputKeyboardEventKind)>)
    ensures
        r@.len() == 5,
        r@[0].0@ == "added"@ && (r@[0].1 matches InputKeyboardEventKind::Added {
            keyboard,
            location,
        } && is_blank_context(keyboard, location)),
        r@[1].0@ == "removed"@ && (r@[1].1 matches InputKeyboardEventKind::Removed { location }
            && is_blank_location(location)),
        r@[2].0@ == "pressed"@ && (r@[2].1 matches InputKeyboardEventKind::Pressed { location, key }
            && is_blank_key(key) && is_blank_location(location)),
        r@[3].0@ == "keyrepeat"@ && (r@[3].1 matches InputKeyboardEventKind::KeyRepeat {
            location,
            key,
        } && is_blank_key(key) && is_blank_location(location)),
        r@[4].0@ == "Inactivity"@ && (r@[4].1 matches InputKeyboardEventKind::Inactivity {
            timeout_secs,
            keyboard,
            location,
        } && timeout_secs == 0 && is_blank_context(keyboard, location)),
{
    let mut tags: Vec<(&'static str, InputKeyboardEventKind)> = Vec::new();
    tags.push(
        (
            "added",
            InputKeyboardEventKind::Added {
                keyboard: KeyboardConfigBuilder::empty(),
                location: DeviceLocation::default(),
            },
        ),
    );
    tags.push(("removed", InputKeyboardEventKind::Removed { location: DeviceLocation::default() }));
    tags.push(
        (
            "pressed",
            InputKeyboardEventKind::Pressed { location: DeviceLocation::default(), key: Key::default() },
        ),
    );
    tags.push(
        (
            "keyrepeat",
            InputKeyboardEventKind::KeyRepeat {
                location: DeviceLocation::default(),
                key: Key::default(),
            },
        ),
    );
    tags.push(
        (
            "Inactivity",
            InputKeyboardEventKind::Inactivity {
                timeout_secs: 0,
                keyboard: KeyboardConfigBuilder::empty(),
                location: DeviceLocation::default(),
            },
        ),
    );
    tags
}

/// Matching keyboard event kinds is reflexive and symmetric.
pub proof fn lemma_kinds_match_equivalence(a: InputKeyboardEventKind, b: InputKeyboardEventKind)
    ensures
        kinds_match(a, a),
        kinds_match(a, b) == kinds_match(b, a),
{
}

/// Kinds match only when they are the same kind: a callback for one kind is
/// never selected by another (an added keyboard does not fire callbacks for
/// removed keyboards, and so on); two kinds of the same kind match, the
/// inactivity kinds when their timeouts are equal.
pub proof fn lemma_kinds_match_same_kind(a: InputKeyboardEventKind, b: InputKeyboardEventKind)
    ensures
        kinds_match(a, b) ==> ((a is Added) == (b is Added)) && ((a is Removed) == (b is Removed))
            && ((a is Pressed) == (b is Pressed)) && ((a is KeyRepeat) == (b is KeyRepeat)) && ((
        a is Inactivity) == (b is Inactivity)),
        (a is Added && b is Added) ==> kinds_match(a, b),
        (a is Removed && b is Removed) ==> kinds_match(a, b),
        (a is Pressed && b is Pressed) ==> kinds_match(a, b),
        (a is KeyRepeat && b is KeyRepeat) ==> kinds_match(a, b),
        (a is Inactivity && b is Inactivity) ==> (kinds_match(a, b) == (a->Inactivity_timeout_secs
            == b->Inactivity_timeout_secs)),
{
}

/// A called inactivity kind matches every inactivity kind with the same
/// timeout and no other kind.
pub proof fn lemma_called_inactivity_matches(
    t: u64,
    keyboard: KeyboardConfigBuilder,
    location: DeviceLocation,
    other: InputKeyboardEventKind,
)
    ensures
        kinds_match(
            InputKeyboardEventKind::Inactivity { timeout_secs: t, keyboard, location },
            other,
        ) == (other matches InputKeyboardEventKind::Inactivity { timeout_secs, .. }
            && timeout_secs == t),
{
}

/// A keyboard event as delivered to the configuration.
#[derive(Debug)]
pub enum KeyboardEvent {
    Added { name: String, seat: String, port: String },
    Removed { name: String, seat: String, port: String },
    Pressed {
        name: String,
        seat: String,
        port: String,
        keycode: u32,
        keysym: u32,
        utf8: Option<String>,
        context: (),
    },
    KeyRepeat {
        name: String,
        seat: String,
        port: String,
        keycode: u32,
        keysym: u32,
        utf8: Option<String>,
        context: (),
    },
}

/// The context of a mouse event on a window.
#[derive(Debug, Clone, Copy, Hash)]
pub struct WindowMouseEventContext {}

/// A window event kind; kinds are equal when they are the same kind, whatever
/// their context.
#[derive(Debug, Clone, Copy, Hash)]
pub enum WindowEventKind {
    MouseEnter(WindowMouseEventContext),
}

impl PartialEq for WindowEventKind {
    fn eq(&self, other: &Self) -> (r: bool) {
        match (self, other) {
            (WindowEventKind::MouseEnter(_), WindowEventKind::MouseEnter(_)) => true,
        }
    }
}

impl vstd::std_specs::cmp::PartialEqSpecImpl for WindowEventKind {
    open spec fn obeys_eq_spec() -> bool {
        true
    }

    open spec fn eq_spec(&self, other: &Self) -> bool {
        match (*self, *other) {
            (WindowEventKind::MouseEnter(_), WindowEventKind::MouseEnter(_)) => true,
        }
    }
}

impl Eq for WindowEventKind {}

/// The tags of `Mux.event.window`, by field name.
pub fn window_tags() -> (r: Vec<(&'static str, WindowEventKind)>)
    ensures
        r@.len() == 1,
        r@[0].0@ == "mouse_enter"@,
        r@[0].1 is MouseEnter,
{
    let mut tags: Vec<(&'static str, WindowEventKind)> = Vec::new();
    tags.push(("mouse_enter", WindowEventKind::MouseEnter(WindowMouseEventContext {  })));
    tags
}

} // verus!
