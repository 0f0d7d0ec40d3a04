//! The callback loop of the epoll binding: descriptors with handlers, which
//! handlers a wait makes due, and which handlers leave once they asked to.
//! The handlers themselves are closures kept by the caller, by descriptor.

use vstd::prelude::*;
use std::collections::HashSet;
use crate::epoll::{add_fd, del_fd, CtlRequest, Event, Interest};

verus! {

broadcast use vstd::std_specs::hash::group_hash_axioms;

/// The descriptors of the first reports that have a handler, in report order.
pub open spec fn due(handlers: Set<i32>, ready: Seq<Event>) -> Seq<i32>
    decreases ready.len(),
{
    if ready.len() == 0 {
        Seq::empty()
    } else {
        let rest = due(handlers, ready.drop_last());
        let fd = ready.last().data_bits() as i32;
        if handlers.contains(fd) {
            rest.push(fd)
        } else {
            rest
        }
    }
}

/// The descriptors whose handler returned `true`, in call order.
pub open spec fn finished(outcomes: Seq<(i32, bool)>) -> Seq<i32>
    decreases outcomes.len(),
{
    if outcomes.len() == 0 {
        Seq::empty()
    } else {
        let rest = finished(outcomes.drop_last());
        if outcomes.last().1 {
            rest.push(outcomes.last().0)
        } else {
            rest
        }
    }
}

/// The descriptors that have a handler, on one epoll instance.
pub struct HandlerSet {
    epoll_fd: i32,
    handlers: HashSet<i32>,
}

impl HandlerSet {
    /// The descriptors with a handler.
    pub closed spec fn fds(&self) -> Set<i32> {
        self.handlers@
    }

    /// The epoll descriptor.
    pub closed spec fn epoll(&self) -> i32 {
        self.epoll_fd
    }

    /// No handler yet, on the epoll instance `epoll_fd`.
    pub fn new(epoll_fd: i32) -> (r: Self)
        ensures
            r.fds() == Set::<i32>::empty(),
            r.epoll() == epoll_fd,
    {
        HandlerSet { epoll_fd, handlers: HashSet::new() }
    }

    /// The epoll descriptor.
    pub fn epoll_fd(&self) -> (r: i32)
        ensures
            r == self.epoll(),
    {
        self.epoll_fd
    }

    /// The `epoll_ctl` call that registers `fd` for `interest`.
    pub fn register_request(&self, fd: i32, interest: Interest) -> (r: CtlRequest)
        ensures
            r == (CtlRequest { epoll_fd: self.epoll(), op: 1, fd, events: interest@, data: fd as u64 }),
    {
        add_fd(self.epoll_fd, fd, interest)
    }

    /// Records that `fd` has a handler, once it is registered with epoll.
    pub fn registered(&mut self, fd: i32)
        ensures
            final(self).fds() == old(self).fds().insert(fd),
            final(self).epoll() == old(self).epoll(),
    {
        assert(vstd::std_specs::hash::obeys_key_model::<i32>());
        self.handlers.insert(fd);
    }

    /// The `epoll_ctl` call that removes `fd`.
    pub fn deregister_request(&self, fd: i32) -> (r: CtlRequest)
        ensures
            r == (CtlRequest { epoll_fd: self.epoll(), op: 2, fd, events: 0, data: fd as u64 }),
    {
        del_fd(self.epoll_fd, fd)
    }

    /// Forgets the handler of `fd` once its removal from epoll succeeded
    /// (`deleted`); when the removal failed, the handler stays.
    pub fn deregister(&mut self, fd: i32, deleted: bool)
        ensures
            deleted ==> final(self).fds() == old(self).fds().remove(fd),
            !deleted ==> final(self).fds() == old(self).fds(),
            final(self).epoll() == old(self).epoll(),
    {
        assert(vstd::std_specs::hash::obeys_key_model::<i32>());
        if deleted {
            self.handlers.remove(&fd);
        }
    }

    /// The descriptors whose handlers the first `n` reports make due, in
    /// report order; reports without a handler are skipped.
    pub fn ready_handlers(&self, ready: &[Event], n: usize) -> (r: Vec<i32>)
        requires
            n <= ready@.len(),
        ensures
            r@ == due(self.fds(), ready@.subrange(0, n as int)),
    {
        assert(vstd::std_specs::hash::obeys_key_model::<i32>());
        let mut result: Vec<i32> = Vec::new();
        let mut i: usize = 0;
        while i < n
            invariant
                i <= n,
                n <= ready@.len(),
                result@ == due(self.handlers@, ready@.subrange(0, i as int)),
            decreases n - i,
        {
            assert(ready@.subrange(0, i + 1).drop_last() =~= ready@.subrange(0, i as int));
            let fd = ready[i].fd();
            if self.handlers.contains(&fd) {
                result.push(fd);
            }
            i = i + 1;
        }
        result
    }

    /// The descriptors to deregister after a round of calls: those whose
    /// handler returned `true`.
    pub fn to_remove(outcomes: &[(i32, bool)]) -> (r: Vec<i32>)
        ensures
            r@ == finished(outcomes@),
    {
        let mut result: Vec<i32> = Vec::new();
        let mut i: usize = 0;
        while i < outcomes.len()
            invariant
                i <= outcomes@.len(),
                result@ == finished(outcomes@.subrange(0, i as int)),
            decreases outcomes@.len() - i,
        {
            assert(outcomes@.subrange(0, i + 1).drop_last() =~= outcomes@.subrange(0, i as int));
            let (fd, done) = outcomes[i];
            if done {
                result.push(fd);
            }
            i = i + 1;
        }
        assert(outcomes@.subrange(0, outcomes@.len() as int) =~= outcomes@);
        result
    }
}

/// Only descriptors with a handler are ever due.
pub proof fn lemma_due_have_handlers(handlers: Set<i32>, ready: Seq<Event>)
    ensures
        forall|i: int| 0 <= i < due(handlers, ready).len() ==> handlers.contains(
            #[trigger] due(handlers, ready)[i],
        ),
    decreases ready.len(),
{
    if ready.len() > 0 {
        let rest = ready.drop_last();
        lemma_due_have_handlers(handlers, rest);
        assert forall|i: int| 0 <= i < due(handlers, ready).len() implies handlers.contains(
            #[trigger] due(handlers, ready)[i],
        ) by {
            if i < due(handlers, rest).len() {
                assert(due(handlers, ready)[i] == due(handlers, rest)[i]);
            }
        }
    }
}

/// A handler that returned `false` stays.
pub proof fn lemma_kept_unless_finished(outcomes: Seq<(i32, bool)>, fd: i32)
    requires
        forall|i: int| 0 <= i < outcomes.len() && (#[trigger] outcomes[i]).0 == fd ==> !outcomes[i].1,
    ensures
        !finished(outcomes).contains(fd),
    decreases outcomes.len(),
{
    if outcomes.len() > 0 {
        let rest = outcomes.drop_last();
        assert forall|i: int| 0 <= i < rest.len() && (#[trigger] rest[i]).0 == fd implies !rest[i].1 by {
            assert(rest[i] == outcomes[i]);
        }
        lemma_kept_unless_finished(rest, fd);
        assert(outcomes[outcomes.len() - 1] == outcomes.last());
    }
}

/// The outcomes in which the handler asked to leave.
pub open spec fn asked_to_leave() -> spec_fn((i32, bool)) -> bool {
    |o: (i32, bool)| o.1
}

/// The descriptor of an outcome.
pub open spec fn outcome_fd() -> spec_fn((i32, bool)) -> i32 {
    |o: (i32, bool)| o.0
}

/// Every handler that returned `true` leaves, and no other: the descriptors
/// to remove are those of all the outcomes that are `true`, in call order.
pub proof fn lemma_finished_exact(outcomes: Seq<(i32, bool)>)
    ensures
        finished(outcomes) == outcomes.filter(asked_to_leave()).map_values(outcome_fd()),
        finished(outcomes).len() == outcomes.filter(asked_to_leave()).len(),
        forall|i: int|
            0 <= i < outcomes.len() && (#[trigger] outcomes[i]).1 ==> finished(outcomes).contains(
                outcomes[i].0,
            ),
    decreases outcomes.len(),
{
    let p = asked_to_leave();
    let f = outcome_fd();
    if outcomes.len() > 0 {
        let rest = outcomes.drop_last();
        lemma_finished_exact(rest);
        reveal(Seq::filter);
        let kept = rest.filter(p);
        assert(outcomes.filter(p) == (if p(outcomes.last()) {
            kept.push(outcomes.last())
        } else {
            kept
        }));
        if p(outcomes.last()) {
            assert(kept.push(outcomes.last()).map_values(f) =~= kept.map_values(f).push(
                f(outcomes.last()),
            ));
        }
        assert forall|i: int|
            0 <= i < outcomes.len() && (#[trigger] outcomes[i]).1 implies finished(outcomes).contains(
            outcomes[i].0,
        ) by {
            if i < rest.len() {
                assert(rest[i] == outcomes[i]);
                let k = choose|k: int| 0 <= k < finished(rest).len() && finished(rest)[k] == rest[i].0;
                assert(finished(outcomes)[k] == outcomes[i].0);
            } else {
                let m = finished(outcomes);
                assert(outcomes.last() == outcomes[i]);
                assert(m[m.len() - 1] == outcomes[i].0);
            }
        }
    } else {
        reveal(Seq::filter);
        assert(outcomes.filter(p) =~= Seq::<(i32, bool)>::empty());
        assert(outcomes.filter(p).map_values(f) =~= Seq::<i32>::empty());
    }
}

/// The reports whose descriptor has a handler.
pub open spec fn has_handler(handlers: Set<i32>) -> spec_fn(Event) -> bool {
    |e: Event| handlers.contains(e.data_bits() as i32)
}

/// The descriptor of a report.
pub open spec fn report_fd() -> spec_fn(Event) -> i32 {
    |e: Event| e.data_bits() as i32
}

/// Every report whose descriptor has a handler makes that handler due, once
/// per report and in report order; no other report does.
pub proof fn lemma_due_exact(handlers: Set<i32>, ready: Seq<Event>)
    ensures
        due(handlers, ready) == ready.filter(has_handler(handlers)).map_values(report_fd()),
    decreases ready.len(),
{
    let p = has_handler(handlers);
    let f = report_fd();
    reveal(Seq::filter);
    if ready.len() > 0 {
        let rest = ready.drop_last();
        lemma_due_exact(handlers, rest);
        let kept = rest.filter(p);
        if p(ready.last()) {
            assert(kept.push(ready.last()).map_values(f) =~= kept.map_values(f).push(
                f(ready.last()),
            ));
        }
    } else {
        assert(ready.filter(p).map_values(f) =~= Seq::<i32>::empty());
    }
}

} // verus!
