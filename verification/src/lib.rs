//! Verified core of the muxw Wayland compositor: epoll flag sets, event-loop
//! routing, id allocation, the Lua event registry, input-device bookkeeping,
//! configuration-path resolution and command-line decisions.

pub mod bits;
pub mod epoll;
pub mod event_loop;
pub mod types;
pub mod config;
pub mod input;
pub mod error;
pub mod text;
pub mod path;
pub mod cli;
pub mod global;
