//! Identifier allocation: an [`IdSource`] hands out [`Id`]s, reusing released
//! ones (most recently released first) before minting new ones.

use vstd::prelude::*;

verus! {

/// An identifier handed out by an [`IdSource`].
#[derive(Debug, Clone, Copy, PartialEq, Eq, Hash, Structural)]
pub struct Id(u64);

impl Id {
    /// The number behind the identifier.
    pub closed spec fn value(self) -> u64 {
        self.0
    }
}

/// The abstract state of an [`IdSource`]: the next never-used number and the
/// released numbers, most recently released last.
pub struct IdSourceView {
    pub next: u64,
    pub free: Seq<u64>,
}

impl IdSourceView {
    /// A number is live when it was handed out and not released since.
    pub open spec fn is_live(self, i: u64) -> bool {
        i < self.next && !self.free.contains(i)
    }

    /// The released numbers are distinct and were all handed out before.
    pub open spec fn wf(self) -> bool {
        &&& self.free.no_duplicates()
        &&& forall|k: int| 0 <= k < self.free.len() ==> #[trigger] self.free[k] < self.next
    }

    /// Another identifier can be handed out without the counter overflowing.
    pub open spec fn can_acquire(self) -> bool {
        self.free.len() > 0 || self.next < u64::MAX
    }
}

/// The state after an acquisition, and the number handed out: the most
/// recently released number if there is one, else the next new number.
pub open spec fn acquire_view(v: IdSourceView) -> (IdSourceView, u64) {
    if v.free.len() > 0 {
        (IdSourceView { next: v.next, free: v.free.drop_last() }, v.free.last())
    } else {
        (IdSourceView { next: (v.next + 1) as u64, free: v.free }, v.next)
    }
}

/// The state after releasing `id`.
pub open spec fn release_view(v: IdSourceView, id: u64) -> IdSourceView {
    IdSourceView { next: v.next, free: v.free.push(id) }
}

/// Hands out identifiers, keeping a list of released ones for reuse.
#[derive(Debug, Default)]
pub struct IdSource {
    next: u64,
    free: Vec<u64>,
}

impl View for IdSource {
    type V = IdSourceView;

    closed spec fn view(&self) -> IdSourceView {
        IdSourceView { next: self.next, free: self.free@ }
    }
}

impl IdSource {
    /// A source that has handed out nothing.
    pub fn new() -> (r: Self)
        ensures
            r@.next == 0,
            r@.free == Seq::<u64>::empty(),
    {
        IdSource { next: 0, free: Vec::new() }
    }

    /// Another identifier can be handed out.
    pub fn can_acquire(&self) -> (r: bool)
        ensures
            r == self@.can_acquire(),
    {
        self.free.len() > 0 || self.next < u64::MAX
    }

    /// Hands out the most recently released identifier, or a new one.
    pub fn acquire(&mut self) -> (r: Id)
        requires
            old(self)@.can_acquire(),
        ensures
            (final(self)@, r.value()) == acquire_view(old(self)@),
    {
        match self.free.pop() {
            Some(id) => Id(id),
            None => {
                let next = self.next;
                self.next = self.next + 1;
                Id(next)
            },
        }
    }

    /// Gives `id` back for reuse.
    pub fn release(&mut self, id: Id)
        ensures
            final(self)@ == release_view(old(self)@, id.value()),
    {
        self.free.push(id.0);
    }
}

/// An acquisition from a well-formed source hands out a number that was not
/// live, makes it live, keeps every other number as it was, and leaves the
/// source well formed: identifiers in use are never handed out twice.
pub proof fn lemma_acquire_fresh(v: IdSourceView)
    requires
        v.wf(),
        v.can_acquire(),
    ensures
        !v.is_live(acquire_view(v).1),
        acquire_view(v).0.wf(),
        forall|i: u64| #[trigger]
            acquire_view(v).0.is_live(i) == (v.is_live(i) || i == acquire_view(v).1),
{
    let (w, id) = acquire_view(v);
    if v.free.len() > 0 {
        let k = v.free.len() - 1;
        assert(v.free[k] == id);
        assert forall|i: u64| #[trigger] w.is_live(i) == (v.is_live(i) || i == id) by {
            if i == id {
                if w.free.contains(i) {
                    let j = choose|j: int| 0 <= j < w.free.len() && w.free[j] == i;
                    assert(v.free[j] == v.free[k]);
                }
            } else {
                if v.free.contains(i) {
                    let j = choose|j: int| 0 <= j < v.free.len() && v.free[j] == i;
                    assert(j != k);
                    assert(w.free[j] == i);
                }
                if w.free.contains(i) {
                    let j = choose|j: int| 0 <= j < w.free.len() && w.free[j] == i;
                    assert(v.free[j] == i);
                }
            }
        }
        assert(w.free.no_duplicates()) by {
            assert forall|a: int, b: int|
                0 <= a < w.free.len() && 0 <= b < w.free.len() && a != b implies w.free[a]
                != w.free[b] by {
                assert(w.free[a] == v.free[a] && w.free[b] == v.free[b]);
            }
        }
        assert forall|j: int| 0 <= j < w.free.len() implies #[trigger] w.free[j] < w.next by {
            assert(w.free[j] == v.free[j]);
        }
    } else {
        assert forall|i: u64| #[trigger] w.is_live(i) == (v.is_live(i) || i == id) by {
            assert(!v.free.contains(i));
        }
    }
}

/// Releasing a live identifier of a well-formed source makes exactly that
/// identifier not live and leaves the source well formed.
pub proof fn lemma_release_live(v: IdSourceView, id: u64)
    requires
        v.wf(),
        v.is_live(id),
    ensures
        release_view(v, id).wf(),
        forall|i: u64| #[trigger]
            release_view(v, id).is_live(i) == (v.is_live(i) && i != id),
{
    let w = release_view(v, id);
    assert(w.free.no_duplicates()) by {
        assert forall|a: int, b: int|
            0 <= a < w.free.len() && 0 <= b < w.free.len() && a != b implies w.free[a]
            != w.free[b] by {
            if a == v.free.len() as int {
                if w.free[b] == id {
                    assert(v.free[b] == id);
                }
            } else if b == v.free.len() as int {
                if w.free[a] == id {
                    assert(v.free[a] == id);
                }
            }
        }
    }
    assert forall|j: int| 0 <= j < w.free.len() implies #[trigger] w.free[j] < w.next by {
        if j < v.free.len() {
            assert(w.free[j] == v.free[j]);
        }
    }
    assert forall|i: u64| #[trigger] w.is_live(i) == (v.is_live(i) && i != id) by {
        if i == id {
            assert(w.free[v.free.len() as int] == id);
        } else {
            if w.free.contains(i) {
                let j = choose|j: int| 0 <= j < w.free.len() && w.free[j] == i;
                assert(j < v.free.len());
                assert(v.free[j] == i);
            }
            if v.free.contains(i) {
                let j = choose|j: int| 0 <= j < v.free.len() && v.free[j] == i;
                assert(w.free[j] == i);
            }
        }
    }
}

/// Releasing an identifier and then acquiring one hands the same identifier
/// back and restores the source to where it was.
pub proof fn lemma_release_then_acquire(v: IdSourceView, id: u64)
    ensures
        acquire_view(release_view(v, id)).1 == id,
        acquire_view(release_view(v, id)).0 == v,
{
    assert(release_view(v, id).free.drop_last() =~= v.free);
}

} // verus!
