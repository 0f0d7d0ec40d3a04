use muxw::epoll::{Event, Interest};
use muxw::error::{ok_or_get_error, ready_count};
use muxw::event_loop::handlers::HandlerSet;
use muxw::event_loop::sources::Source;
use muxw::event_loop::{wait_args, wait_outcome, EpollCallData, EventLoop, WaitOutcome};

#[test]
fn call_data() {
    let b = EpollCallData::blank();
    assert_eq!(b.fd(), 0);
    assert_eq!(b.flags().bits(), 0);
    let d = EpollCallData::new(0x11 | 0x100, 42);
    assert_eq!(d.fd(), 42);
    assert_eq!(d.flags().bits(), 0x11);
    assert!(d.flags().is_readable() && d.flags().is_hang_up());
}

#[test]
fn sources_are_readable_and_edge_triggered() {
    for s in [Source::Wayland(3), Source::Input(4), Source::Config(5)] {
        assert_eq!(s.options().bits(), 0x8000_0001);
    }
    assert_eq!(Source::Input(4).fd(), 4);
    assert_eq!(Source::Config(5).fd(), 5);
}

#[test]
fn registered_sources_are_routed() {
    let mut l = EventLoop::new(10);
    assert_eq!(l.epoll_fd(), 10);
    let r = l.register(Source::Wayland(3));
    assert_eq!((r.epoll_fd, r.op, r.fd, r.events, r.data), (10, 1, 3, 0x8000_0001, 3));
    l.register(Source::Input(4));
    let ready = [
        EpollCallData::new(0x1, 4),
        EpollCallData::new(0x1, 99),
        EpollCallData::new(0x10, 3),
        EpollCallData::new(0x1, 3),
    ];
    let routed = l.route(&ready, 3);
    assert_eq!(routed.len(), 2);
    assert_eq!(routed[0].0, Source::Input(4));
    assert_eq!(routed[0].1.bits(), 0x1);
    assert_eq!(routed[1].0, Source::Wayland(3));
    assert!(routed[1].1.is_hang_up());
    assert!(EventLoop::new(1).route(&ready, 4).is_empty());
}

#[test]
fn wait_arguments_and_outcomes() {
    assert_eq!(wait_args(None, 8), (-1, 8));
    assert_eq!(wait_args(Some(0), 8), (0, 8));
    assert_eq!(wait_args(None, usize::MAX), (-1, i32::MAX));
    assert_eq!(wait_outcome(3, false), WaitOutcome::Ready(3));
    assert_eq!(wait_outcome(0, true), WaitOutcome::Ready(0));
    assert_eq!(wait_outcome(-1, true), WaitOutcome::Retry);
    assert_eq!(wait_outcome(-1, false), WaitOutcome::Stop);
}

#[test]
fn system_call_results() {
    assert_eq!(ok_or_get_error(5).unwrap(), 5);
    assert_eq!(ok_or_get_error(0).unwrap(), 0);
    assert!(ok_or_get_error(-1).is_err());
    assert_eq!(ready_count(2).unwrap(), 2);
    assert!(ready_count(-4).is_err());
}

#[test]
fn handlers_due_and_removed() {
    let mut h = HandlerSet::new(9);
    let req = h.register_request(4, Interest::empty().readable());
    assert_eq!((req.epoll_fd, req.op, req.fd, req.events), (9, 1, 4, 1));
    h.registered(4);
    h.registered(6);
    let ready = [Event::new(1, 6), Event::new(1, 5), Event::new(1, 4)];
    assert_eq!(h.ready_handlers(&ready, 3), vec![6, 4]);
    assert_eq!(h.ready_handlers(&ready, 1), vec![6]);
    assert_eq!(HandlerSet::to_remove(&[(6, true), (4, false)]), vec![6]);
    assert!(HandlerSet::to_remove(&[]).is_empty());
    let d = h.deregister_request(6);
    assert_eq!((d.epoll_fd, d.op, d.fd, d.events), (9, 2, 6, 0));
    h.deregister(6, false);
    assert_eq!(h.ready_handlers(&ready, 3), vec![6, 4]);
    h.deregister(6, true);
    assert_eq!(h.ready_handlers(&ready, 3), vec![4]);
}
