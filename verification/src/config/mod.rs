//! The configuration side: the registry of Lua callbacks, the event kinds
//! that Lua can subscribe to, and keyboard configuration.

pub mod event;
pub mod keyboard;
pub mod kinds;
pub mod command;
