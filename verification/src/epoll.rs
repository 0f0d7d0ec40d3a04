//! The epoll binding's value types: what a descriptor is watched for
//! ([`Interest`]), what readiness epoll reported ([`Events`]), one reported
//! event ([`Event`]) and the arguments of the control and wait calls.

use vstd::prelude::*;
use crate::bits::{
    has_flag, shares_bits, EPOLLERR, EPOLLET, EPOLLEXCLUSIVE, EPOLLHUP, EPOLLIN, EPOLLONESHOT, EPOLLOUT,
    EPOLLPRI, EPOLLRDHUP, EPOLLWAKEUP, INTEREST_ALL, READINESS_ALL,
};

verus! {

/// The conditions a descriptor is registered for, as an epoll event mask.
#[derive(Debug, Clone, Copy, PartialEq, Eq, Hash, Structural)]
pub struct Interest {
    bits: u32,
}

impl View for Interest {
    type V = u32;

    closed spec fn view(&self) -> u32 {
        self.bits
    }
}

impl Interest {
    /// The empty interest set.
    pub fn empty() -> (r: Self)
        ensures
            r@ == 0,
    {
        Interest { bits: 0 }
    }

    /// The raw event mask.
    pub fn bits(&self) -> (r: u32)
        ensures
            r == self@,
    {
        self.bits
    }

    /// Keeps the bits of `bits` that name an interest and drops the others.
    pub fn from_bits_truncate(bits: u32) -> (r: Self)
        ensures
            r@ == bits & INTEREST_ALL,
    {
        Interest { bits: bits & INTEREST_ALL }
    }

    /// Every bit of `other` is set in `self`.
    pub fn contains(&self, other: Self) -> (r: bool)
        ensures
            r == has_flag(self@, other@),
    {
        self.bits & other.bits == other.bits
    }

    /// Adds the data-available-to-read condition.
    pub fn readable(self) -> (r: Self)
        ensures
            r@ == self@ | EPOLLIN,
    {
        Interest { bits: self.bits | EPOLLIN }
    }

    /// Adds the ready-to-write condition.
    pub fn writable(self) -> (r: Self)
        ensures
            r@ == self@ | EPOLLOUT,
    {
        Interest { bits: self.bits | EPOLLOUT }
    }

    /// Adds the urgent-data condition.
    pub fn urgent(self) -> (r: Self)
        ensures
            r@ == self@ | EPOLLPRI,
    {
        Interest { bits: self.bits | EPOLLPRI }
    }

    /// Adds the error condition.
    pub fn error(self) -> (r: Self)
        ensures
            r@ == self@ | EPOLLERR,
    {
        Interest { bits: self.bits | EPOLLERR }
    }

    /// Adds the hang-up condition.
    pub fn hang_up(self) -> (r: Self)
        ensures
            r@ == self@ | EPOLLHUP,
    {
        Interest { bits: self.bits | EPOLLHUP }
    }

    /// Adds the peer-closed-its-write-end condition.
    pub fn closed(self) -> (r: Self)
        ensures
            r@ == self@ | EPOLLRDHUP,
    {
        Interest { bits: self.bits | EPOLLRDHUP }
    }

    /// Switches to edge-triggered notification.
    pub fn edge_triggered(self) -> (r: Self)
        ensures
            r@ == self@ | EPOLLET,
    {
        Interest { bits: self.bits | EPOLLET }
    }

    /// Disables the descriptor after one event.
    pub fn one_shot(self) -> (r: Self)
        ensures
            r@ == self@ | EPOLLONESHOT,
    {
        Interest { bits: self.bits | EPOLLONESHOT }
    }

    /// Wakes only one epoll instance.
    pub fn exclusive(self) -> (r: Self)
        ensures
            r@ == self@ | EPOLLEXCLUSIVE,
    {
        Interest { bits: self.bits | EPOLLEXCLUSIVE }
    }

    /// Keeps the system from suspending while the event is handled.
    pub fn wake_up(self) -> (r: Self)
        ensures
            r@ == self@ | EPOLLWAKEUP,
    {
        Interest { bits: self.bits | EPOLLWAKEUP }
    }
}

impl Default for Interest {
    fn default() -> (r: Self)
        ensures
            r@ == 0,
    {
        Interest { bits: 0 }
    }
}


/// The readiness conditions epoll reported for a descriptor.
#[derive(Debug, Clone, Copy, PartialEq, Eq, Hash, Structural)]
pub struct Events {
    bits: u32,
}

impl View for Events {
    type V = u32;

    closed spec fn view(&self) -> u32 {
        self.bits
    }
}

impl Events {
    /// No readiness condition.
    pub fn empty() -> (r: Self)
        ensures
            r@ == 0,
    {
        Events { bits: 0 }
    }

    /// The raw event mask.
    pub fn bits(&self) -> (r: u32)
        ensures
            r == self@,
    {
        self.bits
    }

    /// Keeps the bits of `bits` that name a readiness condition.
    pub fn from_bits_truncate(bits: u32) -> (r: Self)
        ensures
            r@ == bits & READINESS_ALL,
    {
        Events { bits: bits & READINESS_ALL }
    }

    /// The descriptor can be read.
    pub fn is_readable(self) -> (r: bool)
        ensures
            r == has_flag(self@, EPOLLIN),
    {
        self.bits & EPOLLIN == EPOLLIN
    }

    /// The descriptor can be written without blocking.
    pub fn is_writable(self) -> (r: bool)
        ensures
            r == has_flag(self@, EPOLLOUT),
    {
        self.bits & EPOLLOUT == EPOLLOUT
    }

    /// Urgent data is available.
    pub fn is_urgent(self) -> (r: bool)
        ensures
            r == has_flag(self@, EPOLLPRI),
    {
        self.bits & EPOLLPRI == EPOLLPRI
    }

    /// An error condition occurred.
    pub fn is_error(self) -> (r: bool)
        ensures
            r == has_flag(self@, EPOLLERR),
    {
        self.bits & EPOLLERR == EPOLLERR
    }

    /// The connection hung up.
    pub fn is_hang_up(self) -> (r: bool)
        ensures
            r == has_flag(self@, EPOLLHUP),
    {
        self.bits & EPOLLHUP == EPOLLHUP
    }

    /// The peer closed its write end.
    pub fn is_read_closed(self) -> (r: bool)
        ensures
            r == has_flag(self@, EPOLLRDHUP),
    {
        self.bits & EPOLLRDHUP == EPOLLRDHUP
    }

    /// The connection is closed: it hung up or the peer closed its side.
    pub fn is_closed(self) -> (r: bool)
        ensures
            r == shares_bits(self@, EPOLLHUP | EPOLLRDHUP),
    {
        self.bits & (EPOLLHUP | EPOLLRDHUP) != 0
    }
}

impl Default for Events {
    fn default() -> (r: Self)
        ensures
            r@ == 0,
    {
        Events { bits: 0 }
    }
}

/// One readiness report, laid out as the kernel's `epoll_event`: the event
/// mask and the 64-bit user data, which holds the descriptor.
#[derive(Debug, Clone, Copy, PartialEq, Structural)]
pub struct Event {
    config: u32,
    data: u64,
}

impl Event {
    /// The all-zero report, used to fill a wait buffer.
    pub fn blank() -> (r: Self)
        ensures
            r.config_bits() == 0,
            r.data_bits() == 0,
    {
        Event { config: 0, data: 0 }
    }

    /// A report with the given event mask and user data.
    pub fn new(config: u32, data: u64) -> (r: Self)
        ensures
            r.config_bits() == config,
            r.data_bits() == data,
    {
        Event { config, data }
    }

    /// The event mask as reported.
    pub closed spec fn config_bits(&self) -> u32 {
        self.config
    }

    /// The user data as reported.
    pub closed spec fn data_bits(&self) -> u64 {
        self.data
    }

    /// The descriptor stored in the user data (its low 32 bits).
    pub fn fd(&self) -> (r: i32)
        ensures
            r == self.data_bits() as i32,
    {
        self.data as i32
    }

    /// The readiness conditions of the report.
    pub fn events(self) -> (r: Events)
        ensures
            r@ == self.config_bits() & READINESS_ALL,
    {
        Events::from_bits_truncate(self.config)
    }
}

/// The operations of `epoll_ctl`.
#[derive(Debug, Clone, Copy, PartialEq, Eq, Structural)]
pub enum CtlOperation {
    Add,
    Mod,
    Del,
}

impl CtlOperation {
    /// The operation's code: `EPOLL_CTL_ADD`, `EPOLL_CTL_DEL` or `EPOLL_CTL_MOD`.
    pub fn code(self) -> (r: i32)
        ensures
            r == ctl_code(self),
    {
        match self {
            CtlOperation::Add => 1,
            CtlOperation::Del => 2,
            CtlOperation::Mod => 3,
        }
    }
}

/// The Linux code of a control operation.
pub open spec fn ctl_code(op: CtlOperation) -> i32 {
    match op {
        CtlOperation::Add => 1,
        CtlOperation::Del => 2,
        CtlOperation::Mod => 3,
    }
}

/// The arguments of one `epoll_ctl` call.
#[derive(Debug, Clone, Copy, PartialEq, Eq, Structural)]
pub struct CtlRequest {
    pub epoll_fd: i32,
    pub op: i32,
    pub fd: i32,
    pub events: u32,
    pub data: u64,
}

/// The `epoll_ctl` call that applies `operation` to `fd` with `interest`:
/// the interest mask goes into the event and the descriptor into its data.
pub fn ctl(epoll_fd: i32, operation: CtlOperation, fd: i32, interest: Interest) -> (r: CtlRequest)
    ensures
        r == (CtlRequest {
            epoll_fd,
            op: ctl_code(operation),
            fd,
            events: interest@,
            data: fd as u64,
        }),
{
    CtlRequest { epoll_fd, op: operation.code(), fd, events: interest.bits(), data: fd as u64 }
}

/// Registers `fd` for `interest`.
pub fn add_fd(epoll_fd: i32, fd: i32, interest: Interest) -> (r: CtlRequest)
    ensures
        r == (CtlRequest { epoll_fd, op: 1, fd, events: interest@, data: fd as u64 }),
{
    ctl(epoll_fd, CtlOperation::Add, fd, interest)
}

/// Changes the interest of a registered `fd`.
pub fn mod_fd(epoll_fd: i32, fd: i32, interest: Interest) -> (r: CtlRequest)
    ensures
        r == (CtlRequest { epoll_fd, op: 3, fd, events: interest@, data: fd as u64 }),
{
    ctl(epoll_fd, CtlOperation::Mod, fd, interest)
}

/// Removes `fd`; the interest mask of the call is empty.
pub fn del_fd(epoll_fd: i32, fd: i32) -> (r: CtlRequest)
    ensures
        r == (CtlRequest { epoll_fd, op: 2, fd, events: 0, data: fd as u64 }),
{
    ctl(epoll_fd, CtlOperation::Del, fd, Interest::empty())
}

/// `EPOLL_CLOEXEC`.
pub const EPOLL_CLOEXEC: i32 = 0x80000;

/// The flags of `epoll_create1`: close-on-exec or none.
pub fn create_flags(cloexec: bool) -> (r: i32)
    ensures
        r == (if cloexec { EPOLL_CLOEXEC } else { 0i32 }),
{
    if cloexec {
        EPOLL_CLOEXEC
    } else {
        0
    }
}

/// The timeout argument of `epoll_wait`: the given milliseconds, or -1 (wait
/// without limit) when none is given.
pub fn wait_timeout(timeout: Option<i32>) -> (r: i32)
    ensures
        r == (match timeout {
            Some(t) => t,
            None => -1i32,
        }),
{
    match timeout {
        Some(t) => t,
        None => -1,
    }
}

} // verus!
