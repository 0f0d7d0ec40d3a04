//! The compositor's event loop: flag sets, the sources it watches and the
//! routing of readiness reports to them. The loop itself, which waits on epoll
//! and hands each routed source to the compositor, runs outside the library.

pub mod event;
pub mod handlers;
pub mod sources;

use vstd::prelude::*;
use std::collections::HashMap;
use crate::bits::READINESS_ALL;
use crate::epoll::{ctl_code, CtlOperation, CtlRequest};
use crate::event_loop::event::{EventFlags, Options};
use crate::event_loop::sources::{source_fd, Source};

verus! {

broadcast use vstd::std_specs::hash::group_hash_axioms;

/// One readiness report, laid out as the kernel's `epoll_event`: the reported
/// flags and the token registered with the descriptor (the descriptor itself).
#[derive(Debug, Clone, Copy, PartialEq, Eq, Structural)]
pub struct EpollCallData {
    event_flags: u32,
    event_token: u64,
}

impl EpollCallData {
    /// The reported flags.
    pub closed spec fn flag_bits(&self) -> u32 {
        self.event_flags
    }

    /// The token.
    pub closed spec fn token(&self) -> u64 {
        self.event_token
    }

    /// The all-zero report, used to fill a wait buffer.
    pub fn blank() -> (r: Self)
        ensures
            r.flag_bits() == 0,
            r.token() == 0,
    {
        EpollCallData { event_flags: 0, event_token: 0 }
    }

    /// A report with the given flags and token.
    pub fn new(event_flags: u32, event_token: u64) -> (r: Self)
        ensures
            r.flag_bits() == event_flags,
            r.token() == event_token,
    {
        EpollCallData { event_flags, event_token }
    }

    /// The descriptor held by the token (its low 32 bits).
    pub fn fd(&self) -> (r: i32)
        ensures
            r == self.token() as i32,
    {
        self.event_token as i32
    }

    /// The reported readiness flags.
    pub fn flags(&self) -> (r: EventFlags)
        ensures
            r@ == self.flag_bits() & READINESS_ALL,
    {
        EventFlags::from_bits_truncate(self.event_flags)
    }
}

/// The arguments of `epoll_wait` for a buffer of `buf_len` reports: the
/// timeout (-1 when none is given) and the buffer length, clamped to
/// `i32::MAX`.
pub fn wait_args(timeout: Option<i32>, buf_len: usize) -> (r: (i32, i32))
    ensures
        r.0 == (match timeout {
            Some(t) => t,
            None => -1i32,
        }),
        r.1 == (if buf_len <= i32::MAX as usize {
            buf_len as i32
        } else {
            i32::MAX
        }),
{
    let timeout = match timeout {
        Some(t) => t,
        None => -1,
    };
    let len = if buf_len <= i32::MAX as usize {
        buf_len as i32
    } else {
        i32::MAX
    };
    (timeout, len)
}

/// What the loop does with the result of one `epoll_wait`.
#[derive(Debug, Clone, Copy, PartialEq, Eq, Structural)]
pub enum WaitOutcome {
    /// That many reports are in the buffer.
    Ready(usize),
    /// The wait was interrupted by a signal: wait again.
    Retry,
    /// The wait failed: leave the loop.
    Stop,
}

/// Reads the result of `epoll_wait`: a count, an interruption, or a failure.
pub fn wait_outcome(ret: i32, interrupted: bool) -> (r: WaitOutcome)
    ensures
        r == (if ret >= 0 {
            WaitOutcome::Ready(ret as usize)
        } else if interrupted {
            WaitOutcome::Retry
        } else {
            WaitOutcome::Stop
        }),
{
    if ret >= 0 {
        WaitOutcome::Ready(ret as usize)
    } else if interrupted {
        WaitOutcome::Retry
    } else {
        WaitOutcome::Stop
    }
}

/// The `epoll_ctl` call that applies `operation` to `fd` with `options`.
fn ctl(epoll_fd: i32, operation: CtlOperation, fd: i32, options: Options) -> (r: CtlRequest)
    ensures
        r == (CtlRequest {
            epoll_fd,
            op: ctl_code(operation),
            fd,
            events: options@,
            data: fd as u64,
        }),
{
    CtlRequest { epoll_fd, op: operation.code(), fd, events: options.bits(), data: fd as u64 }
}

/// The sources that the reports select, each with its reported flags (as a
/// mask), in report order; reports for unknown descriptors are skipped.
pub open spec fn routed(sources: Map<i32, Source>, ready: Seq<EpollCallData>) -> Seq<(Source, u32)>
    decreases ready.len(),
{
    if ready.len() == 0 {
        Seq::empty()
    } else {
        let rest = routed(sources, ready.drop_last());
        let fd = ready.last().token() as i32;
        if sources.contains_key(fd) {
            rest.push((sources[fd], ready.last().flag_bits() & READINESS_ALL))
        } else {
            rest
        }
    }
}

/// The event loop's state: its epoll descriptor and the registered sources,
/// by descriptor.
pub struct EventLoop {
    epoll_fd: i32,
    sources: HashMap<i32, Source>,
}

impl EventLoop {
    /// The epoll descriptor.
    pub closed spec fn epoll(&self) -> i32 {
        self.epoll_fd
    }

    /// The registered sources.
    pub closed spec fn source_map(&self) -> Map<i32, Source> {
        self.sources@
    }

    /// A loop on the epoll descriptor `epoll_fd` with no source.
    pub fn new(epoll_fd: i32) -> (r: Self)
        ensures
            r.epoll() == epoll_fd,
            r.source_map() == Map::<i32, Source>::empty(),
    {
        EventLoop { epoll_fd, sources: HashMap::new() }
    }

    /// The epoll descriptor.
    pub fn epoll_fd(&self) -> (r: i32)
        ensures
            r == self.epoll(),
    {
        self.epoll_fd
    }

    /// Records `source` under its descriptor and returns the `epoll_ctl` call
    /// that adds the descriptor, readable and edge-triggered.
    pub fn register(&mut self, source: Source) -> (r: CtlRequest)
        ensures
            final(self).epoll() == old(self).epoll(),
            final(self).source_map() == old(self).source_map().insert(source_fd(source), source),
            r.epoll_fd == old(self).epoll(),
            r.op == ctl_code(CtlOperation::Add),
            r.fd == source_fd(source),
            r.events == (0u32 | crate::bits::EPOLLIN) | crate::bits::EPOLLET,
            r.data == source_fd(source) as u64,
    {
        assert(vstd::std_specs::hash::obeys_key_model::<i32>());
        let fd = source.fd();
        let request = ctl(self.epoll_fd, CtlOperation::Add, fd, source.options());
        self.sources.insert(fd, source);
        request
    }

    /// The sources that the first `n` reports of `ready` select, with their
    /// flags, in report order.
    pub fn route(&self, ready: &[EpollCallData], n: usize) -> (r: Vec<(Source, EventFlags)>)
        requires
            n <= ready@.len(),
        ensures
            r@.len() == routed(self.source_map(), ready@.subrange(0, n as int)).len(),
            forall|i: int|
                0 <= i < r@.len() ==> (#[trigger] r@[i]).0 == routed(
                    self.source_map(),
                    ready@.subrange(0, n as int),
                )[i].0 && r@[i].1@ == routed(self.source_map(), ready@.subrange(0, n as int))[i].1,
    {
        assert(vstd::std_specs::hash::obeys_key_model::<i32>());
        let mut result: Vec<(Source, EventFlags)> = Vec::new();
        let mut i: usize = 0;
        while i < n
            invariant
                i <= n,
                n <= ready@.len(),
                result@.len() == routed(self.sources@, ready@.subrange(0, i as int)).len(),
                forall|k: int|
                    0 <= k < result@.len() ==> (#[trigger] result@[k]).0 == routed(
                        self.sources@,
                        ready@.subrange(0, i as int),
                    )[k].0 && result@[k].1@ == routed(
                        self.sources@,
                        ready@.subrange(0, i as int),
                    )[k].1,
            decreases n - i,
        {
            assert(ready@.subrange(0, i + 1).drop_last() =~= ready@.subrange(0, i as int));
            let report = ready[i];
            let fd = report.fd();
            match self.sources.get(&fd) {
                Some(source) => {
                    result.push((*source, report.flags()));
                },
                None => {},
            }
            i = i + 1;
        }
        result
    }
}

/// A report that names a registered source's descriptor reaches that source,
/// with the flags as reported.
pub proof fn lemma_route_registered(
    sources: Map<i32, Source>,
    source: Source,
    report: EpollCallData,
)
    requires
        report.token() as i32 == source_fd(source),
    ensures
        routed(sources.insert(source_fd(source), source), seq![report]) == seq![
            (source, report.flag_bits() & READINESS_ALL),
        ],
{
    let m = sources.insert(source_fd(source), source);
    assert(seq![report].drop_last() =~= Seq::<EpollCallData>::empty());
    assert(routed(m, Seq::<EpollCallData>::empty()) == Seq::<(Source, u32)>::empty());
    assert(seq![report].last() == report);
    assert(m.contains_key(report.token() as i32));
    assert(routed(m, seq![report]) =~= seq![(source, report.flag_bits() & READINESS_ALL)]);
}

/// Nothing is routed while no source is registered.
pub proof fn lemma_route_nothing_registered(ready: Seq<EpollCallData>)
    ensures
        routed(Map::<i32, Source>::empty(), ready) == Seq::<(Source, u32)>::empty(),
    decreases ready.len(),
{
    if ready.len() > 0 {
        lemma_route_nothing_registered(ready.drop_last());
        assert(!Map::<i32, Source>::empty().contains_key(ready.last().token() as i32));
    }
}

/// Every routed source is registered under the descriptor of one of the
/// reports, and carries that report's flags.
pub proof fn lemma_routed_sound(sources: Map<i32, Source>, ready: Seq<EpollCallData>)
    ensures
        forall|i: int|
            0 <= i < routed(sources, ready).len() ==> exists|j: int|
                0 <= j < ready.len() && sources.contains_key(ready[j].token() as i32)
                    && #[trigger] routed(sources, ready)[i] == (
                    sources[ready[j].token() as i32],
                    ready[j].flag_bits() & READINESS_ALL,
                ),
    decreases ready.len(),
{
    if ready.len() > 0 {
        let rest = ready.drop_last();
        lemma_routed_sound(sources, rest);
        assert forall|i: int| 0 <= i < routed(sources, ready).len() implies exists|j: int|
            0 <= j < ready.len() && sources.contains_key(ready[j].token() as i32)
                && #[trigger] routed(sources, ready)[i] == (
                sources[ready[j].token() as i32],
                ready[j].flag_bits() & READINESS_ALL,
            ) by {
            if i < routed(sources, rest).len() {
                let j = choose|j: int|
                    0 <= j < rest.len() && sources.contains_key(rest[j].token() as i32)
                        && #[trigger] routed(sources, rest)[i] == (
                        sources[rest[j].token() as i32],
                        rest[j].flag_bits() & READINESS_ALL,
                    );
                assert(ready[j] == rest[j]);
            } else {
                assert(ready[ready.len() - 1] == ready.last());
            }
        }
    }
}

/// The reports whose descriptor has a registered source.
pub open spec fn for_registered(sources: Map<i32, Source>) -> spec_fn(EpollCallData) -> bool {
    |e: EpollCallData| sources.contains_key(e.token() as i32)
}

/// A report as routed: the source of its descriptor with its readiness
/// flags.
pub open spec fn as_routed(sources: Map<i32, Source>) -> spec_fn(EpollCallData) -> (Source, u32) {
    |e: EpollCallData| (sources[e.token() as i32], e.flag_bits() & READINESS_ALL)
}

/// Routing drops exactly the reports whose descriptor has no source: every
/// report of a registered source gives one entry, its source with its own
/// flags, in report order, so two reports never merge into one.
pub proof fn lemma_route_complete(sources: Map<i32, Source>, ready: Seq<EpollCallData>)
    ensures
        routed(sources, ready) == ready.filter(for_registered(sources)).map_values(
            as_routed(sources),
        ),
        routed(sources, ready).len() == ready.filter(for_registered(sources)).len(),
    decreases ready.len(),
{
    let p = for_registered(sources);
    let f = as_routed(sources);
    if ready.len() > 0 {
        let rest = ready.drop_last();
        lemma_route_complete(sources, rest);
        reveal(Seq::filter);
        let kept = rest.filter(p);
        assert(ready.filter(p) == (if p(ready.last()) {
            kept.push(ready.last())
        } else {
            kept
        }));
        if p(ready.last()) {
            assert(kept.push(ready.last()).map_values(f) =~= kept.map_values(f).push(
                f(ready.last()),
            ));
        }
    } else {
        reveal(Seq::filter);
        assert(ready.filter(p) =~= Seq::<EpollCallData>::empty());
        assert(ready.filter(p).map_values(f) =~= Seq::<(Source, u32)>::empty());
    }
}

} // verus!
