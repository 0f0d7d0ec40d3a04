//! What the compositor asks of the configuration thread ([`ConfigCommand`])
//! and the tags under which Lua callbacks are registered
//! ([`EventDiscriminant`]).

use vstd::prelude::*;

verus! {

/// A request from another thread to the configuration thread.
#[derive(Debug, Clone, Copy, PartialEq, Eq, Hash, Structural)]
pub enum ConfigCommand {
    Exit,
    Reload,
    KeyboardAdded,
    /// A keyboard was idle for the given number of milliseconds.
    KeyboardInactive(u64),
}

/// What the configuration asks other threads to do.
pub trait ConfigEvent: Send + 'static {}

/// The tag under which a Lua callback waits for an event.
#[derive(Debug, Clone, Copy, PartialEq, Eq, Hash, Structural)]
pub enum EventDiscriminant {
    /// Runs when the compositor exits.
    Exit,
    /// Tells the configuration that it was reloaded.
    Reload,
    InputKeyboardAdded,
    InputKeyboardRemoved,
    InputKeyboardPressed,
    /// Keyboard inactivity; the period in milliseconds, once it is given.
    InputKeyboardInactive(Option<u64>),
}

/// An event that callbacks can wait for.
pub trait ConfigApiEvent: Send + 'static {
    /// The tag of the callbacks that the event fires.
    fn discriminant(&self) -> EventDiscriminant;
}

/// The tag that a command fires.
pub open spec fn command_discriminant(command: ConfigCommand) -> EventDiscriminant {
    match command {
        ConfigCommand::Exit => EventDiscriminant::Exit,
        ConfigCommand::Reload => EventDiscriminant::Reload,
        ConfigCommand::KeyboardAdded => EventDiscriminant::InputKeyboardAdded,
        ConfigCommand::KeyboardInactive(millis) => EventDiscriminant::InputKeyboardInactive(
            Some(millis),
        ),
    }
}

impl ConfigApiEvent for ConfigCommand {
    fn discriminant(&self) -> (r: EventDiscriminant)
        ensures
            r == command_discriminant(*self),
    {
        match self {
            ConfigCommand::Exit => EventDiscriminant::Exit,
            ConfigCommand::Reload => EventDiscriminant::Reload,
            ConfigCommand::KeyboardAdded => EventDiscriminant::InputKeyboardAdded,
            ConfigCommand::KeyboardInactive(millis) => EventDiscriminant::InputKeyboardInactive(
                Some(*millis),
            ),
        }
    }
}

/// A tag is ready when it needs no argument: only an inactivity tag whose
/// period was not given yet is not.
pub open spec fn is_ready_spec(d: EventDiscriminant) -> bool {
    d != EventDiscriminant::InputKeyboardInactive(None)
}

/// Misuse of an event tag.
#[derive(Debug, Clone, Copy, PartialEq, Eq, Structural)]
pub enum EventTagError {
    /// The tag takes no argument but was called.
    NotCallable(EventDiscriminant),
    /// The tag needs its argument before callbacks can be registered.
    NotReady(EventDiscriminant),
    /// The inactivity tag was called without its period.
    MissingPeriod,
}

impl EventDiscriminant {
    /// Whether callbacks can be registered under the tag as it is.
    pub fn is_ready(&self) -> (r: bool)
        ensures
            r == is_ready_spec(*self),
    {
        match self {
            EventDiscriminant::InputKeyboardInactive(None) => false,
            _ => true,
        }
    }

    /// Calls the tag with a period in milliseconds, as Lua's `inactive(sec)`
    /// does: the inactivity tag takes the period and refuses a call without
    /// one; every other tag refuses any call.
    pub fn call(&self, millis: Option<u64>) -> (r: Result<EventDiscriminant, EventTagError>)
        ensures
            r == (match (*self, millis) {
                (EventDiscriminant::InputKeyboardInactive(_), Some(m)) => Ok(
                    EventDiscriminant::InputKeyboardInactive(Some(m)),
                ),
                (EventDiscriminant::InputKeyboardInactive(_), None) => Err(
                    EventTagError::MissingPeriod,
                ),
                (other, _) => Err(EventTagError::NotCallable(other)),
            }),
    {
        match self {
            EventDiscriminant::InputKeyboardInactive(_) => match millis {
                Some(m) => Ok(EventDiscriminant::InputKeyboardInactive(Some(m))),
                None => Err(EventTagError::MissingPeriod),
            },
            other => Err(EventTagError::NotCallable(*other)),
        }
    }
}

/// Every tag that a command fires is ready, and a called inactivity tag is
/// ready: callbacks can always be registered for them.
pub proof fn lemma_fired_tags_are_ready(command: ConfigCommand, millis: u64)
    ensures
        is_ready_spec(command_discriminant(command)),
        is_ready_spec(EventDiscriminant::InputKeyboardInactive(Some(millis))),
{
}

/// Every tag is ready except the inactivity tag whose period was not given
/// yet, whether a command fires the tag or not: callbacks can be registered
/// under each of them.
pub proof fn lemma_ready_tags(d: EventDiscriminant, millis: u64)
    ensures
        is_ready_spec(EventDiscriminant::Exit),
        is_ready_spec(EventDiscriminant::Reload),
        is_ready_spec(EventDiscriminant::InputKeyboardAdded),
        is_ready_spec(EventDiscriminant::InputKeyboardRemoved),
        is_ready_spec(EventDiscriminant::InputKeyboardPressed),
        is_ready_spec(EventDiscriminant::InputKeyboardInactive(Some(millis))),
        !is_ready_spec(EventDiscriminant::InputKeyboardInactive(None)),
        d != EventDiscriminant::InputKeyboardInactive(None) ==> is_ready_spec(d),
{
}

/// Each command fires its own tag: exiting and reloading their tags, an added
/// keyboard the keyboard-added tag, inactivity the inactivity tag with the
/// same period; distinct commands fire distinct tags.
pub proof fn lemma_command_tags(a: ConfigCommand, b: ConfigCommand, millis: u64)
    ensures
        command_discriminant(ConfigCommand::Exit) == EventDiscriminant::Exit,
        command_discriminant(ConfigCommand::Reload) == EventDiscriminant::Reload,
        command_discriminant(ConfigCommand::KeyboardAdded) == EventDiscriminant::InputKeyboardAdded,
        command_discriminant(ConfigCommand::KeyboardInactive(millis))
            == EventDiscriminant::InputKeyboardInactive(Some(millis)),
        a != b ==> command_discriminant(a) != command_discriminant(b),
{
}

} // verus!
