use muxw::bits::{
    EPOLLERR, EPOLLET, EPOLLEXCLUSIVE, EPOLLHUP, EPOLLIN, EPOLLONESHOT, EPOLLOUT, EPOLLPRI,
    EPOLLRDHUP, EPOLLWAKEUP,
};
use muxw::epoll::{add_fd, create_flags, ctl, del_fd, mod_fd, wait_timeout, CtlOperation, Event, Events, Interest};
use muxw::event_loop::event::{EventFlags, Options};
use muxw::input::{O_ACCMODE, O_RDONLY, O_RDWR, O_WRONLY};

#[test]
fn constants_match_libc() {
    assert_eq!(EPOLLIN, libc::EPOLLIN as u32);
    assert_eq!(EPOLLOUT, libc::EPOLLOUT as u32);
    assert_eq!(EPOLLPRI, libc::EPOLLPRI as u32);
    assert_eq!(EPOLLERR, libc::EPOLLERR as u32);
    assert_eq!(EPOLLHUP, libc::EPOLLHUP as u32);
    assert_eq!(EPOLLRDHUP, libc::EPOLLRDHUP as u32);
    assert_eq!(EPOLLET, libc::EPOLLET as u32);
    assert_eq!(EPOLLONESHOT, libc::EPOLLONESHOT as u32);
    assert_eq!(EPOLLEXCLUSIVE, libc::EPOLLEXCLUSIVE as u32);
    assert_eq!(EPOLLWAKEUP, libc::EPOLLWAKEUP as u32);
    assert_eq!(muxw::epoll::EPOLL_CLOEXEC, libc::EPOLL_CLOEXEC);
    assert_eq!(CtlOperation::Add.code(), libc::EPOLL_CTL_ADD);
    assert_eq!(CtlOperation::Mod.code(), libc::EPOLL_CTL_MOD);
    assert_eq!(CtlOperation::Del.code(), libc::EPOLL_CTL_DEL);
    assert_eq!(O_ACCMODE, libc::O_ACCMODE);
    assert_eq!(O_RDONLY, libc::O_RDONLY);
    assert_eq!(O_WRONLY, libc::O_WRONLY);
    assert_eq!(O_RDWR, libc::O_RDWR);
}

#[test]
fn interest_builders_set_each_flag() {
    let e = Interest::empty();
    assert_eq!(e.bits(), 0);
    assert_eq!(Interest::default().bits(), 0);
    assert_eq!(e.readable().bits(), 0x1);
    assert_eq!(e.writable().bits(), 0x4);
    assert_eq!(e.urgent().bits(), 0x2);
    assert_eq!(e.error().bits(), 0x8);
    assert_eq!(e.hang_up().bits(), 0x10);
    assert_eq!(e.closed().bits(), 0x2000);
    assert_eq!(e.edge_triggered().bits(), 0x8000_0000);
    assert_eq!(e.one_shot().bits(), 0x4000_0000);
    assert_eq!(e.exclusive().bits(), 0x1000_0000);
    assert_eq!(e.wake_up().bits(), 0x2000_0000);
}

#[test]
fn interest_builders_keep_earlier_flags_and_commute() {
    let a = Interest::empty().readable().edge_triggered();
    let b = Interest::empty().edge_triggered().readable();
    assert_eq!(a, b);
    assert_eq!(a.readable(), a);
    assert!(a.contains(Interest::empty().readable()));
    assert!(a.contains(Interest::empty().edge_triggered()));
    assert!(!a.contains(Interest::empty().writable()));
    assert_eq!(a.bits(), 0x8000_0001);
}

#[test]
fn interest_truncates_unknown_bits() {
    assert_eq!(Interest::from_bits_truncate(0xFFFF_FFFF).bits(), 0xF000_201F);
    assert_eq!(Interest::from_bits_truncate(0x4).bits(), 0x4);
}

#[test]
fn options_match_interest() {
    let o = Options::empty()
        .readable()
        .writable()
        .urgent()
        .error()
        .hang_up()
        .closed()
        .edge_triggered()
        .one_shot()
        .exclusive()
        .wake_up();
    assert_eq!(o.bits(), 0xF000_201F);
    assert_eq!(Options::default().readable().bits(), 0x1);
    assert_eq!(Options::from_bits_truncate(0x0000_0100).bits(), 0);
}

#[test]
fn events_predicates() {
    let ev = Events::from_bits_truncate(0x1 | 0x10);
    assert!(ev.is_readable());
    assert!(!ev.is_writable());
    assert!(!ev.is_urgent());
    assert!(!ev.is_error());
    assert!(ev.is_hang_up());
    assert!(!ev.is_read_closed());
    assert!(ev.is_closed());
    let w = Events::from_bits_truncate(0x4 | 0x2 | 0x8);
    assert!(w.is_writable() && w.is_urgent() && w.is_error());
    assert!(!w.is_closed());
    assert_eq!(Events::default().bits(), 0);
}

#[test]
fn closed_is_hang_up_or_read_closed() {
    for bits in [0u32, 0x10, 0x2000, 0x2010, 0x1, 0xFFFF_FFFF] {
        let f = EventFlags::from_bits_truncate(bits);
        assert_eq!(f.is_closed(), f.is_hang_up() || f.is_read_closed());
        let e = Events::from_bits_truncate(bits);
        assert_eq!(e.is_closed(), e.is_hang_up() || e.is_read_closed());
    }
    assert!(EventFlags::from_bits_truncate(0x2000).is_read_closed());
    assert!(!EventFlags::empty().is_closed());
}

#[test]
fn event_reports() {
    let blank = Event::blank();
    assert_eq!(blank.fd(), 0);
    assert_eq!(blank.events().bits(), 0);
    let e = Event::new(0x8000_0001 | 0x4, 7);
    assert_eq!(e.fd(), 7);
    assert_eq!(e.events().bits(), 0x5);
    assert_eq!(Event::new(0, 0x1_0000_0005).fd(), 5);
}

#[test]
fn ctl_requests() {
    let i = Interest::empty().readable();
    let r = ctl(3, CtlOperation::Add, 9, i);
    assert_eq!((r.epoll_fd, r.op, r.fd, r.events, r.data), (3, 1, 9, 1, 9));
    assert_eq!(add_fd(3, 9, i), r);
    let m = mod_fd(3, 9, Interest::empty().writable());
    assert_eq!((m.op, m.events), (3, 4));
    let d = del_fd(3, 9);
    assert_eq!((d.op, d.events, d.data), (2, 0, 9));
    assert_eq!(create_flags(true), 0x80000);
    assert_eq!(create_flags(false), 0);
    assert_eq!(wait_timeout(None), -1);
    assert_eq!(wait_timeout(Some(250)), 250);
}
