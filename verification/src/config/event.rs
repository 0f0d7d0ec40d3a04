//! The registry of Lua callbacks: each callback is registered under an event
//! tag, gets a fresh [`Id`], and is fired by every command whose tag matches.

use vstd::prelude::*;
use crate::types::config::{
    command_discriminant, is_ready_spec, ConfigApiEvent, ConfigCommand, EventDiscriminant,
    EventTagError,
};
use crate::types::ids::{acquire_view, Id, IdSource, IdSourceView};

verus! {

/// A registered callback: its identifier, its tag and the handle of the Lua
/// function.
pub struct RegisteredEvent<K> {
    pub id: Id,
    pub discriminant: EventDiscriminant,
    pub callback: K,
}

/// The identifiers of the callbacks registered under `d`, in slot order;
/// vacant slots are skipped.
pub open spec fn matching_ids<K>(slots: Seq<Option<RegisteredEvent<K>>>, d: EventDiscriminant) -> Seq<
    Id,
>
    decreases slots.len(),
{
    if slots.len() == 0 {
        Seq::empty()
    } else {
        let rest = matching_ids(slots.drop_last(), d);
        match slots.last() {
            Some(e) => if e.discriminant == d {
                rest.push(e.id)
            } else {
                rest
            },
            None => rest,
        }
    }
}

/// Slot `i` holds the callback with identifier `id`.
pub open spec fn holds<K>(slots: Seq<Option<RegisteredEvent<K>>>, i: int, id: Id) -> bool {
    0 <= i < slots.len() && slots[i] is Some && slots[i].unwrap().id == id
}

/// No two slots hold callbacks with the same identifier.
pub open spec fn ids_distinct<K>(slots: Seq<Option<RegisteredEvent<K>>>) -> bool {
    forall|i: int, j: int|
        0 <= i < slots.len() && 0 <= j < slots.len() && i != j && (#[trigger] slots[i]) is Some
            && (#[trigger] slots[j]) is Some ==> slots[i].unwrap().id != slots[j].unwrap().id
}

/// A slot holds the callback with identifier `id`.
pub open spec fn has_id<K>(slots: Seq<Option<RegisteredEvent<K>>>, id: Id) -> bool {
    exists|i: int| holds(slots, i, id)
}

/// The tag argument of Lua's `event.add`, as the library sees it: nil, an
/// event tag, or a value of another Lua type (named by the type).
pub enum TagArg {
    Nil,
    Tag(EventDiscriminant),
    Other(String),
}

/// Why `event.add` refused its tag argument.
#[derive(Debug, Clone)]
pub enum AddError {
    /// The tag was nil.
    NilTag,
    /// The tag was a value of the named Lua type.
    NotATag { lua_type: String },
    /// The tag still needs its argument (an inactivity tag not called yet).
    NotReady,
}

/// The tag that `event.add` registers under for `arg`, or why it refuses it.
pub open spec fn tag_choice(arg: TagArg) -> Result<EventDiscriminant, AddError> {
    match arg {
        TagArg::Nil => Err(AddError::NilTag),
        TagArg::Other(t) => Err(AddError::NotATag { lua_type: t }),
        TagArg::Tag(d) => if is_ready_spec(d) {
            Ok(d)
        } else {
            Err(AddError::NotReady)
        },
    }
}

/// The message with which `event.add` refuses a tag.
pub open spec fn add_error_message(e: AddError) -> Seq<char> {
    match e {
        AddError::NilTag => "event.add() received nil as event tag"@,
        AddError::NotATag { lua_type } => "event.add() expected an event tag, got "@ + lua_type@,
        AddError::NotReady => "event tag InputKeyboardInactive(None) requires argument(s) - call it first (e.g.: inactive(0.8))"@,
    }
}

impl AddError {
    /// The refusal in words, as Lua reports it.
    pub fn message(&self) -> (r: String)
        ensures
            r@ == add_error_message(*self),
    {
        match self {
            AddError::NilTag => "event.add() received nil as event tag".to_owned(),
            AddError::NotATag { lua_type } => {
                let mut m = "event.add() expected an event tag, got ".to_owned();
                m.append(lua_type.as_str());
                m
            },
            AddError::NotReady => "event tag InputKeyboardInactive(None) requires argument(s) - call it first (e.g.: inactive(0.8))".to_owned(),
        }
    }
}

/// Checks the tag argument of `event.add` before anything is registered:
/// nil and values that are no tag are refused, and so is a tag that still
/// needs its argument.
pub fn tag_from_lua(arg: TagArg) -> (r: Result<EventDiscriminant, AddError>)
    ensures
        match (tag_choice(arg), r) {
            (Ok(d), Ok(d2)) => d == d2,
            (Err(AddError::NilTag), Err(AddError::NilTag)) => true,
            (Err(AddError::NotReady), Err(AddError::NotReady)) => true,
            (Err(AddError::NotATag { lua_type: t }), Err(AddError::NotATag { lua_type: t2 })) => t@
                == t2@,
            _ => false,
        },
{
    match arg {
        TagArg::Nil => Err(AddError::NilTag),
        TagArg::Other(t) => Err(AddError::NotATag { lua_type: t }),
        TagArg::Tag(d) => if d.is_ready() {
            Ok(d)
        } else {
            Err(AddError::NotReady)
        },
    }
}

/// `event.add` accepts every tag but the inactivity tag whose period was not
/// given yet, whether a command fires it or not, and refuses nil, values that
/// are no tag, and that one tag.
pub proof fn lemma_tag_choice(d: EventDiscriminant, t: String)
    ensures
        d != EventDiscriminant::InputKeyboardInactive(None) ==> tag_choice(TagArg::Tag(d)) == Ok::<
            EventDiscriminant,
            AddError,
        >(d),
        tag_choice(TagArg::Tag(EventDiscriminant::InputKeyboardInactive(None))) == Err::<
            EventDiscriminant,
            AddError,
        >(AddError::NotReady),
        tag_choice(TagArg::Nil) == Err::<EventDiscriminant, AddError>(AddError::NilTag),
        tag_choice(TagArg::Other(t)) == Err::<EventDiscriminant, AddError>(
            AddError::NotATag { lua_type: t },
        ),
{
}

/// The callbacks registered from a Lua configuration, each in a slot.
/// A new callback takes the most recently vacated slot, or a new slot at the
/// end when none is vacant; a tag fires its callbacks in slot order. `K` is
/// the handle under which the Lua function is kept.
pub struct EventRegistry<K> {
    id_source: IdSource,
    slots: Vec<Option<RegisteredEvent<K>>>,
    vacant: Vec<usize>,
}

impl<K> EventRegistry<K> {
    /// The slots, each vacant or holding a callback.
    pub closed spec fn slots(&self) -> Seq<Option<RegisteredEvent<K>>> {
        self.slots@
    }

    /// The vacant slots, most recently vacated last.
    pub closed spec fn vacant(&self) -> Seq<usize> {
        self.vacant@
    }

    /// The state of the identifier source.
    pub closed spec fn id_state(&self) -> IdSourceView {
        self.id_source@
    }

    /// The slots once `e` is registered: it takes the most recently vacated
    /// slot, or a new one at the end.
    pub open spec fn placed(&self, e: RegisteredEvent<K>) -> Seq<Option<RegisteredEvent<K>>> {
        if self.vacant().len() > 0 {
            self.slots().update(self.vacant().last() as int, Some(e))
        } else {
            self.slots().push(Some(e))
        }
    }

    /// The vacant slots once a callback is registered.
    pub open spec fn vacant_after_place(&self) -> Seq<usize> {
        if self.vacant().len() > 0 {
            self.vacant().drop_last()
        } else {
            self.vacant()
        }
    }

    /// The identifier source is well formed and has no released identifier
    /// (the registry never gives one back); identifiers are distinct and
    /// live; the vacant slots are exactly the empty ones, each listed once.
    pub open spec fn wf(&self) -> bool {
        &&& self.id_state().wf()
        &&& self.id_state().free.len() == 0
        &&& ids_distinct(self.slots())
        &&& forall|i: int|
            0 <= i < self.slots().len() && (#[trigger] self.slots()[i]) is Some
                ==> self.id_state().is_live(self.slots()[i].unwrap().id.value())
        &&& self.vacant().no_duplicates()
        &&& forall|k: int|
            0 <= k < self.vacant().len() ==> #[trigger] self.vacant()[k] < self.slots().len()
                && self.slots()[self.vacant()[k] as int] is None
        &&& forall|i: int|
            0 <= i < self.slots().len() && (#[trigger] self.slots()[i]) is None
                ==> self.vacant().contains(i as usize)
    }

    /// Another callback can be registered without the identifier counter
    /// overflowing.
    pub open spec fn can_register(&self) -> bool {
        self.id_state().can_acquire()
    }

    /// The identifier counter is exhausted: no callback can be registered.
    pub fn is_full(&self) -> (r: bool)
        ensures
            r == !self.can_register(),
    {
        !self.id_source.can_acquire()
    }

    /// An empty registry.
    pub fn new() -> (r: Self)
        ensures
            r.wf(),
            r.slots() == Seq::<Option<RegisteredEvent<K>>>::empty(),
            r.vacant() == Seq::<usize>::empty(),
            r.id_state().next == 0,
            r.id_state().free == Seq::<u64>::empty(),
    {
        EventRegistry { id_source: IdSource::new(), slots: Vec::new(), vacant: Vec::new() }
    }

    /// Registers `callback` under `discriminant` in the slot it takes and
    /// returns its fresh identifier.
    pub fn register(&mut self, discriminant: EventDiscriminant, callback: K) -> (r: Id)
        requires
            old(self).wf(),
            old(self).can_register(),
        ensures
            final(self).wf(),
            (final(self).id_state(), r.value()) == acquire_view(old(self).id_state()),
            r.value() == old(self).id_state().next,
            final(self).id_state().next == old(self).id_state().next + 1,
            !has_id(old(self).slots(), r),
            final(self).slots() == old(self).placed(RegisteredEvent { id: r, discriminant, callback }),
            final(self).vacant() == old(self).vacant_after_place(),
    {
        let ghost old_slots = self.slots@;
        let ghost old_vacant = self.vacant@;
        let id = self.id_source.acquire();
        let event = RegisteredEvent { id, discriminant, callback };
        let ghost e = event;
        assert(!has_id(old_slots, id)) by {
            if has_id(old_slots, id) {
                let i = choose|i: int| holds(old_slots, i, id);
                assert(old(self).slots()[i] is Some);
            }
        }
        match self.vacant.pop() {
            Some(slot) => {
                proof {
                    assert(old_vacant[old_vacant.len() - 1] == slot);
                    assert(old_vacant.drop_last() =~= self.vacant@);
                }
                self.slots.set(slot, Some(event));
                assert forall|k: int|
                    0 <= k < self.vacant@.len() implies #[trigger] self.vacant@[k] < self.slots@.len()
                        && self.slots@[self.vacant@[k] as int] is None by {
                    assert(self.vacant@[k] == old_vacant[k]);
                    assert(old_vacant[k] != old_vacant[old_vacant.len() - 1]);
                }
                assert forall|i: int|
                    0 <= i < self.slots@.len() && (#[trigger] self.slots@[i]) is None implies self.vacant@.contains(
                    i as usize,
                ) by {
                    assert(i != slot as int);
                    assert(old_slots[i] is None);
                    assert(old_vacant.contains(i as usize));
                    let k = choose|k: int| 0 <= k < old_vacant.len() && old_vacant[k] == i as usize;
                    assert(self.slots@.len() == self.slots.len());
                    assert(i as usize != slot);
                    assert(k != old_vacant.len() - 1);
                    assert(self.vacant@[k] == i as usize);
                }
            },
            None => {
                self.slots.push(Some(event));
                assert forall|i: int|
                    0 <= i < self.slots@.len() && (#[trigger] self.slots@[i]) is None implies self.vacant@.contains(
                    i as usize,
                ) by {
                    assert(i < old_slots.len());
                    assert(old_slots[i] is None);
                    assert(old_vacant.contains(i as usize));
                }
            },
        }
        assert forall|i: int, j: int|
            0 <= i < self.slots@.len() && 0 <= j < self.slots@.len() && i != j && (#[trigger] self.slots@[i]) is Some
                && (#[trigger] self.slots@[j]) is Some implies self.slots@[i].unwrap().id != self.slots@[j].unwrap().id by {
            if self.slots@[i] != Some(e) && self.slots@[j] != Some(e) {
                assert(i < old_slots.len() && self.slots@[i] == old_slots[i]);
                assert(j < old_slots.len() && self.slots@[j] == old_slots[j]);
            } else if self.slots@[i] == Some(e) {
                if self.slots@[j] == Some(e) {
                    assert(false) by {
                        assert(j < old_slots.len() || i < old_slots.len());
                    }
                }
                assert(j < old_slots.len() && self.slots@[j] == old_slots[j]);
                assert(holds(old_slots, j, self.slots@[j].unwrap().id));
            } else {
                assert(i < old_slots.len() && self.slots@[i] == old_slots[i]);
                assert(holds(old_slots, i, self.slots@[i].unwrap().id));
            }
        }
        assert forall|i: int|
            0 <= i < self.slots@.len() && (#[trigger] self.slots@[i]) is Some implies self.id_source@.is_live(
            self.slots@[i].unwrap().id.value(),
        ) by {
            if self.slots@[i] != Some(e) {
                assert(i < old_slots.len() && self.slots@[i] == old_slots[i]);
            }
        }
        id
    }

    /// Registers `callback` under `discriminant` as Lua's `event.add` does:
    /// a tag that still needs its argument is refused and nothing changes.
    pub fn try_register(&mut self, discriminant: EventDiscriminant, callback: K) -> (r: Result<
        Id,
        EventTagError,
    >)
        requires
            old(self).wf(),
            is_ready_spec(discriminant) ==> old(self).can_register(),
        ensures
            final(self).wf(),
            !is_ready_spec(discriminant) ==> r == Err::<Id, EventTagError>(
                EventTagError::NotReady(discriminant),
            ) && final(self).slots() == old(self).slots() && final(self).vacant() == old(
                self,
            ).vacant() && final(self).id_state() == old(self).id_state(),
            is_ready_spec(discriminant) ==> (r matches Ok(id) && (final(self).id_state(), id.value())
                == acquire_view(old(self).id_state()) && !has_id(old(self).slots(), id)
                && final(self).slots() == old(self).placed(
                RegisteredEvent { id, discriminant, callback },
            ) && final(self).vacant() == old(self).vacant_after_place()),
    {
        if !discriminant.is_ready() {
            return Err(EventTagError::NotReady(discriminant));
        }
        Ok(self.register(discriminant, callback))
    }

    /// The slot of the callback with identifier `id`, if any.
    fn position(&self, id: Id) -> (r: Option<usize>)
        ensures
            match r {
                Some(i) => holds(self.slots(), i as int, id),
                None => !has_id(self.slots(), id),
            },
    {
        let mut i: usize = 0;
        while i < self.slots.len()
            invariant
                i <= self.slots@.len(),
                forall|j: int| 0 <= j < i ==> !holds(self.slots@, j, id),
            decreases self.slots@.len() - i,
        {
            match &self.slots[i] {
                Some(e) => {
                    if e.id == id {
                        return Some(i);
                    }
                },
                None => {},
            }
            i = i + 1;
        }
        None
    }

    /// The identifiers of the callbacks registered under `discriminant`, in
    /// slot order.
    pub fn events_for(&self, discriminant: EventDiscriminant) -> (r: Vec<Id>)
        ensures
            r@ == matching_ids(self.slots(), discriminant),
    {
        let mut result: Vec<Id> = Vec::new();
        let mut i: usize = 0;
        while i < self.slots.len()
            invariant
                i <= self.slots@.len(),
                result@ == matching_ids(self.slots@.subrange(0, i as int), discriminant),
            decreases self.slots@.len() - i,
        {
            assert(self.slots@.subrange(0, i + 1).drop_last() =~= self.slots@.subrange(
                0,
                i as int,
            ));
            match &self.slots[i] {
                Some(e) => {
                    if e.discriminant == discriminant {
                        result.push(e.id);
                    }
                },
                None => {},
            }
            i = i + 1;
        }
        assert(self.slots@.subrange(0, self.slots@.len() as int) =~= self.slots@);
        result
    }

    /// The identifiers of the callbacks that `command` fires, in slot order.
    pub fn fire_targets(&self, command: &ConfigCommand) -> (r: Vec<Id>)
        ensures
            r@ == matching_ids(self.slots(), command_discriminant(*command)),
    {
        self.events_for(command.discriminant())
    }

    /// The handle of the callback registered with identifier `id`.
    pub fn callback_of(&self, id: Id) -> (r: Option<&K>)
        ensures
            match r {
                Some(k) => exists|i: int|
                    holds(self.slots(), i, id) && *k == self.slots()[i].unwrap().callback,
                None => !has_id(self.slots(), id),
            },
    {
        match self.position(id) {
            Some(i) => match &self.slots[i] {
                Some(e) => Some(&e.callback),
                None => None,
            },
            None => None,
        }
    }

    /// Removes the callback registered with identifier `id`, vacating its
    /// slot, and hands back its handle, so that the Lua function can be
    /// released.
    pub fn unregister(&mut self, id: Id) -> (r: Option<K>)
        requires
            old(self).wf(),
        ensures
            final(self).wf(),
            final(self).id_state() == old(self).id_state(),
            match r {
                Some(k) => exists|i: int|
                    holds(old(self).slots(), i, id) && k == old(self).slots()[i].unwrap().callback
                        && final(self).slots() == old(self).slots().update(i, None) && final(self).vacant() == old(self).vacant().push(i as usize),
                None => !has_id(old(self).slots(), id) && final(self).slots() == old(self).slots()
                    && final(self).vacant() == old(self).vacant(),
            },
    {
        match self.position(id) {
            Some(i) => {
                let ghost old_slots = self.slots@;
                let ghost old_vacant = self.vacant@;
                let taken = self.slots.remove(i);
                self.slots.insert(i, None);
                assert(self.slots@ =~= old_slots.update(i as int, None));
                assert(!old_vacant.contains(i)) by {
                    if old_vacant.contains(i) {
                        let k = choose|k: int| 0 <= k < old_vacant.len() && old_vacant[k] == i;
                        assert(old_slots[old_vacant[k] as int] is None);
                    }
                }
                self.vacant.push(i);
                assert forall|a: int, b: int|
                    0 <= a < self.slots@.len() && 0 <= b < self.slots@.len() && a != b && (#[trigger] self.slots@[a]) is Some
                        && (#[trigger] self.slots@[b]) is Some implies self.slots@[a].unwrap().id != self.slots@[b].unwrap().id by {
                    assert(self.slots@[a] == old_slots[a]);
                    assert(self.slots@[b] == old_slots[b]);
                    assert(old_slots[a] is Some && old_slots[b] is Some);
                }
                assert forall|a: int|
                    0 <= a < self.slots@.len() && (#[trigger] self.slots@[a]) is Some implies self.id_source@.is_live(
                    self.slots@[a].unwrap().id.value(),
                ) by {
                    assert(self.slots@[a] == old_slots[a]);
                }
                assert forall|k: int|
                    0 <= k < self.vacant@.len() implies #[trigger] self.vacant@[k] < self.slots@.len()
                        && self.slots@[self.vacant@[k] as int] is None by {
                    if k < old_vacant.len() {
                        assert(self.vacant@[k] == old_vacant[k]);
                    }
                }
                assert forall|a: int|
                    0 <= a < self.slots@.len() && (#[trigger] self.slots@[a]) is None implies self.vacant@.contains(
                    a as usize,
                ) by {
                    if a == i as int {
                        assert(self.vacant@[self.vacant@.len() - 1] == i);
                    } else {
                        assert(old_slots[a] is None);
                        let k = choose|k: int| 0 <= k < old_vacant.len() && old_vacant[k] == a as usize;
                        assert(self.vacant@[k] == a as usize);
                    }
                }
                match taken {
                    Some(e) => Some(e.callback),
                    None => None,
                }
            },
            None => None,
        }
    }

    /// Removes every callback and vacates every slot; identifiers already
    /// handed out stay used.
    pub fn clear(&mut self)
        requires
            old(self).wf(),
        ensures
            final(self).wf(),
            final(self).slots() == Seq::<Option<RegisteredEvent<K>>>::empty(),
            final(self).vacant() == Seq::<usize>::empty(),
            final(self).id_state() == old(self).id_state(),
    {
        self.slots.clear();
        self.vacant.clear();
    }
}

impl<K> Default for EventRegistry<K> {
    /// An empty registry, as `new` makes it.
    fn default() -> (r: Self)
        ensures
            r.wf(),
            r.slots() == Seq::<Option<RegisteredEvent<K>>>::empty(),
            r.vacant() == Seq::<usize>::empty(),
            r.id_state().next == 0,
            r.id_state().free == Seq::<u64>::empty(),
    {
        EventRegistry::new()
    }
}

/// Identifiers are never handed out twice: the registry's counter is above
/// every identifier it handed out (registered, unregistered or cleared
/// since), the next registration returns the counter and raises it, and
/// unregistering and clearing leave it as it is.
pub proof fn lemma_ids_never_reused<K>(r: EventRegistry<K>, earlier: u64)
    requires
        r.wf(),
        r.can_register(),
        earlier < r.id_state().next,
    ensures
        acquire_view(r.id_state()).1 == r.id_state().next,
        acquire_view(r.id_state()).1 != earlier,
        acquire_view(r.id_state()).0.next == r.id_state().next + 1,
        acquire_view(r.id_state()).0.free.len() == 0,
{
}

/// Every identifier that a tag selects is held by a slot whose callback is
/// registered under that tag.
pub proof fn lemma_matching_sound<K>(slots: Seq<Option<RegisteredEvent<K>>>, d: EventDiscriminant)
    ensures
        forall|x: int|
            #![trigger matching_ids(slots, d)[x]]
            0 <= x < matching_ids(slots, d).len() ==> exists|j: int|
                #![trigger slots[j]]
                holds(slots, j, matching_ids(slots, d)[x]) && slots[j].unwrap().discriminant == d,
    decreases slots.len(),
{
    if slots.len() > 0 {
        let rest = slots.drop_last();
        let m = matching_ids(slots, d);
        let mr = matching_ids(rest, d);
        lemma_matching_sound(rest, d);
        assert forall|x: int|
            #![trigger matching_ids(slots, d)[x]]
            0 <= x < matching_ids(slots, d).len() implies exists|j: int|
                #![trigger slots[j]]
                holds(slots, j, matching_ids(slots, d)[x]) && slots[j].unwrap().discriminant == d by {
            if x < mr.len() {
                assert(m[x] == mr[x]);
                assert(mr[x] == matching_ids(rest, d)[x]);
                let j = choose|j: int|
                    #![trigger rest[j]]
                    holds(rest, j, matching_ids(rest, d)[x]) && rest[j].unwrap().discriminant == d;
                assert(0 <= j < rest.len());
                assert(slots[j] == rest[j]);
                assert(holds(slots, j, m[x]));
                assert(slots[j].unwrap().discriminant == d);
            } else {
                let last = slots.len() - 1;
                assert(slots[last] == slots.last());
                assert(slots.last() is Some);
                assert(m[x] == slots.last().unwrap().id);
                assert(holds(slots, last, m[x]));
                assert(slots.last().unwrap().discriminant == d);
                assert(slots[last].unwrap().discriminant == d);
            }
        }
    } else {
        assert(matching_ids(slots, d).len() == 0);
    }
}

/// Every callback registered under a tag is selected by that tag: a command
/// fires all the callbacks registered for its tag.
pub proof fn lemma_matching_complete<K>(slots: Seq<Option<RegisteredEvent<K>>>, d: EventDiscriminant)
    ensures
        forall|j: int|
            0 <= j < slots.len() && (#[trigger] slots[j]) is Some && slots[j].unwrap().discriminant
                == d ==> matching_ids(slots, d).contains(slots[j].unwrap().id),
    decreases slots.len(),
{
    if slots.len() > 0 {
        let rest = slots.drop_last();
        lemma_matching_complete(rest, d);
        assert forall|j: int|
            0 <= j < slots.len() && (#[trigger] slots[j]) is Some && slots[j].unwrap().discriminant
                == d implies matching_ids(slots, d).contains(slots[j].unwrap().id) by {
            if j < rest.len() {
                assert(rest[j] == slots[j]);
                let x = choose|x: int|
                    0 <= x < matching_ids(rest, d).len() && matching_ids(rest, d)[x]
                        == rest[j].unwrap().id;
                assert(matching_ids(slots, d)[x] == rest[j].unwrap().id);
            } else {
                let m = matching_ids(slots, d);
                assert(slots.last() == slots[j]);
                assert(m[m.len() - 1] == slots[j].unwrap().id);
            }
        }
    }
}

/// The slots that hold a callback registered under `d`.
pub open spec fn registered_under<K>(d: EventDiscriminant) -> spec_fn(Option<RegisteredEvent<K>>) -> bool {
    |slot: Option<RegisteredEvent<K>>| slot is Some && slot.unwrap().discriminant == d
}

/// The identifier of the callback in a slot.
pub open spec fn slot_id<K>() -> spec_fn(Option<RegisteredEvent<K>>) -> Id {
    |slot: Option<RegisteredEvent<K>>| slot.unwrap().id
}

/// A tag fires exactly the callbacks registered under it, each once, in slot
/// order: the identifiers of the occupied slots whose tag is `d`.
pub proof fn lemma_matching_exact<K>(slots: Seq<Option<RegisteredEvent<K>>>, d: EventDiscriminant)
    ensures
        matching_ids(slots, d) == slots.filter(registered_under(d)).map_values(slot_id()),
    decreases slots.len(),
{
    let p = registered_under::<K>(d);
    let f = slot_id::<K>();
    reveal(Seq::filter);
    if slots.len() > 0 {
        let rest = slots.drop_last();
        lemma_matching_exact(rest, d);
        let kept = rest.filter(p);
        if p(slots.last()) {
            assert(kept.push(slots.last()).map_values(f) =~= kept.map_values(f).push(
                f(slots.last()),
            ));
        }
    } else {
        assert(slots.filter(p).map_values(f) =~= Seq::<Id>::empty());
    }
}

/// A callback just registered under a tag is fired by that tag; when no slot
/// was vacant it takes a new slot at the end and is fired after every
/// callback registered before it.
pub proof fn lemma_register_then_fire<K>(r: EventRegistry<K>, e: RegisteredEvent<K>)
    requires
        r.wf(),
    ensures
        matching_ids(r.placed(e), e.discriminant).contains(e.id),
        r.vacant().len() == 0 ==> matching_ids(r.placed(e), e.discriminant) == matching_ids(
            r.slots(),
            e.discriminant,
        ).push(e.id),
{
    let s = r.placed(e);
    lemma_matching_complete(s, e.discriminant);
    if r.vacant().len() > 0 {
        let v = r.vacant().last() as int;
        assert(r.vacant()[r.vacant().len() - 1] < r.slots().len());
        assert(s[v] == Some(e));
    } else {
        assert(s[s.len() - 1] == Some(e));
        assert(s.drop_last() =~= r.slots());
    }
}

/// Once a callback is unregistered, no tag fires it any more.
pub proof fn lemma_unregister_then_fire<K>(
    slots: Seq<Option<RegisteredEvent<K>>>,
    i: int,
    d: EventDiscriminant,
)
    requires
        ids_distinct(slots),
        0 <= i < slots.len(),
        slots[i] is Some,
    ensures
        !matching_ids(slots.update(i, None), d).contains(slots[i].unwrap().id),
{
    let rest = slots.update(i, None);
    lemma_matching_sound(rest, d);
    if matching_ids(rest, d).contains(slots[i].unwrap().id) {
        let x = choose|x: int|
            0 <= x < matching_ids(rest, d).len() && matching_ids(rest, d)[x] == slots[i].unwrap().id;
        assert(matching_ids(rest, d)[x] == slots[i].unwrap().id);
        let j = choose|j: int|
            #![trigger rest[j]]
            holds(rest, j, matching_ids(rest, d)[x]) && rest[j].unwrap().discriminant == d;
        assert(j != i);
        assert(rest[j] == slots[j]);
        assert(slots[j] is Some);
    }
}

} // verus!
