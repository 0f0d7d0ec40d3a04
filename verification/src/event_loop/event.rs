//! The event loop's flag sets: the options a source is registered with
//! ([`Options`]) and the readiness flags reported for it ([`EventFlags`]).

use vstd::prelude::*;
use crate::bits::{
    has_flag, shares_bits, EPOLLERR, EPOLLET, EPOLLEXCLUSIVE, EPOLLHUP, EPOLLIN, EPOLLONESHOT, EPOLLOUT,
    EPOLLPRI, EPOLLRDHUP, EPOLLWAKEUP, INTEREST_ALL, READINESS_ALL,
};

verus! {

/// The options a source is registered with, as an epoll event mask.
#[derive(Debug, Clone, Copy, PartialEq, Eq, Hash, Structural)]
pub struct Options {
    bits: u32,
}

impl View for Options {
    type V = u32;

    closed spec fn view(&self) -> u32 {
        self.bits
    }
}

impl Options {
    /// The empty interest set.
    pub fn empty() -> (r: Self)
        ensures
            r@ == 0,
    {
        Options { bits: 0 }
    }

    /// The raw event mask.
    pub fn bits(&self) -> (r: u32)
        ensures
            r == self@,
    {
        self.bits
    }

    /// Keeps the bits of `bits` that name an interest and drops the others.
    pub fn from_bits_truncate(bits: u32) -> (r: Self)
        ensures
            r@ == bits & INTEREST_ALL,
    {
        Options { bits: bits & INTEREST_ALL }
    }

    /// Every bit of `other` is set in `self`.
    pub fn contains(&self, other: Self) -> (r: bool)
        ensures
            r == has_flag(self@, other@),
    {
        self.bits & other.bits == other.bits
    }

    /// Adds the data-available-to-read condition.
    pub fn readable(self) -> (r: Self)
        ensures
            r@ == self@ | EPOLLIN,
    {
        Options { bits: self.bits | EPOLLIN }
    }

    /// Adds the ready-to-write condition.
    pub fn writable(self) -> (r: Self)
        ensures
            r@ == self@ | EPOLLOUT,
    {
        Options { bits: self.bits | EPOLLOUT }
    }

    /// Adds the urgent-data condition.
    pub fn urgent(self) -> (r: Self)
        ensures
            r@ == self@ | EPOLLPRI,
    {
        Options { bits: self.bits | EPOLLPRI }
    }

    /// Adds the error condition.
    pub fn error(self) -> (r: Self)
        ensures
            r@ == self@ | EPOLLERR,
    {
        Options { bits: self.bits | EPOLLERR }
    }

    /// Adds the hang-up condition.
    pub fn hang_up(self) -> (r: Self)
        ensures
            r@ == self@ | EPOLLHUP,
    {
        Options { bits: self.bits | EPOLLHUP }
    }

    /// Adds the peer-closed-its-write-end condition.
    pub fn closed(self) -> (r: Self)
        ensures
            r@ == self@ | EPOLLRDHUP,
    {
        Options { bits: self.bits | EPOLLRDHUP }
    }

    /// Switches to edge-triggered notification.
    pub fn edge_triggered(self) -> (r: Self)
        ensures
            r@ == self@ | EPOLLET,
    {
        Options { bits: self.bits | EPOLLET }
    }

    /// Disables the descriptor after one event.
    pub fn one_shot(self) -> (r: Self)
        ensures
            r@ == self@ | EPOLLONESHOT,
    {
        Options { bits: self.bits | EPOLLONESHOT }
    }

    /// Wakes only one epoll instance.
    pub fn exclusive(self) -> (r: Self)
        ensures
            r@ == self@ | EPOLLEXCLUSIVE,
    {
        Options { bits: self.bits | EPOLLEXCLUSIVE }
    }

    /// Keeps the system from suspending while the event is handled.
    pub fn wake_up(self) -> (r: Self)
        ensures
            r@ == self@ | EPOLLWAKEUP,
    {
        Options { bits: self.bits | EPOLLWAKEUP }
    }
}

impl Default for Options {
    fn default() -> (r: Self)
        ensures
            r@ == 0,
    {
        Options { bits: 0 }
    }
}


/// The readiness flags epoll reported for a source.
#[derive(Debug, Clone, Copy, PartialEq, Eq, Hash, Structural)]
pub struct EventFlags {
    bits: u32,
}

impl View for EventFlags {
    type V = u32;

    closed spec fn view(&self) -> u32 {
        self.bits
    }
}

impl EventFlags {
    /// No readiness condition.
    pub fn empty() -> (r: Self)
        ensures
            r@ == 0,
    {
        EventFlags { bits: 0 }
    }

    /// The raw event mask.
    pub fn bits(&self) -> (r: u32)
        ensures
            r == self@,
    {
        self.bits
    }

    /// Keeps the bits of `bits` that name a readiness condition.
    pub fn from_bits_truncate(bits: u32) -> (r: Self)
        ensures
            r@ == bits & READINESS_ALL,
    {
        EventFlags { bits: bits & READINESS_ALL }
    }

    /// The descriptor can be read.
    pub fn is_readable(self) -> (r: bool)
        ensures
            r == has_flag(self@, EPOLLIN),
    {
        self.bits & EPOLLIN == EPOLLIN
    }

    /// The descriptor can be written without blocking.
    pub fn is_writable(self) -> (r: bool)
        ensures
            r == has_flag(self@, EPOLLOUT),
    {
        self.bits & EPOLLOUT == EPOLLOUT
    }

    /// Urgent data is available.
    pub fn is_urgent(self) -> (r: bool)
        ensures
            r == has_flag(self@, EPOLLPRI),
    {
        self.bits & EPOLLPRI == EPOLLPRI
    }

    /// An error condition occurred.
    pub fn is_error(self) -> (r: bool)
        ensures
            r == has_flag(self@, EPOLLERR),
    {
        self.bits & EPOLLERR == EPOLLERR
    }

    /// The connection hung up.
    pub fn is_hang_up(self) -> (r: bool)
        ensures
            r == has_flag(self@, EPOLLHUP),
    {
        self.bits & EPOLLHUP == EPOLLHUP
    }

    /// The peer closed its write end.
    pub fn is_read_closed(self) -> (r: bool)
        ensures
            r == has_flag(self@, EPOLLRDHUP),
    {
        self.bits & EPOLLRDHUP == EPOLLRDHUP
    }

    /// The connection is closed: it hung up or the peer closed its side.
    pub fn is_closed(self) -> (r: bool)
        ensures
            r == shares_bits(self@, EPOLLHUP | EPOLLRDHUP),
    {
        self.bits & (EPOLLHUP | EPOLLRDHUP) != 0
    }
}

impl Default for EventFlags {
    fn default() -> (r: Self)
        ensures
            r@ == 0,
    {
        EventFlags { bits: 0 }
    }
}

} // verus!
