//! The descriptors the compositor's event loop watches.

use vstd::prelude::*;
use crate::bits::{EPOLLET, EPOLLIN};
use crate::event_loop::event::Options;

verus! {

/// A watched descriptor and what it carries: the Wayland socket, the libinput
/// descriptor, or the event descriptor of the configuration channel.
#[derive(Debug, Clone, Copy, PartialEq, Eq, Structural)]
pub enum Source {
    Wayland(i32),
    Input(i32),
    Config(i32),
}

/// The descriptor of a source.
pub open spec fn source_fd(source: Source) -> i32 {
    match source {
        Source::Wayland(fd) => fd,
        Source::Input(fd) => fd,
        Source::Config(fd) => fd,
    }
}

impl Source {
    /// The descriptor to register.
    pub fn fd(&self) -> (r: i32)
        ensures
            r == source_fd(*self),
    {
        match self {
            Source::Wayland(fd) => *fd,
            Source::Input(fd) => *fd,
            Source::Config(fd) => *fd,
        }
    }

    /// Every source is watched for readability, edge-triggered.
    pub fn options(&self) -> (r: Options)
        ensures
            r@ == (0u32 | EPOLLIN) | EPOLLET,
    {
        match self {
            Source::Wayland(_) => Options::empty().readable().edge_triggered(),
            Source::Input(_) => Options::empty().readable().edge_triggered(),
            Source::Config(_) => Options::empty().readable().edge_triggered(),
        }
    }
}

} // verus!
