//! The input worker's device bookkeeping: every libinput device gets a key
//! from a slab when it is added, events of known devices are tagged with that
//! key, and the key is freed when the device is removed.

use vstd::prelude::*;
use std::collections::HashMap;
use slab::Slab;

verus! {

broadcast use vstd::std_specs::hash::group_hash_axioms;

#[verifier::external_type_specification]
#[verifier::external_body]
#[verifier::reject_recursive_types(T)]
pub struct ExSlab<T>(Slab<T>);

/// The occupied entries of a slab of device handles, by key.
pub uninterp spec fn slab_entries(s: Slab<u64>) -> Map<usize, u64>;

/// `slab::Slab::with_capacity`: a slab with no occupied entry.
#[verifier::external_body]
fn slab_with_capacity(capacity: usize) -> (r: Slab<u64>)
    ensures
        slab_entries(r) =~= Map::empty(),
{
    slab::Slab::with_capacity(capacity)
}

/// `slab::Slab::insert`: stores `value` under a key that was vacant and
/// returns that key; the other entries stay.
#[verifier::external_body]
fn slab_insert(s: &mut Slab<u64>, value: u64) -> (key: usize)
    ensures
        !slab_entries(*old(s)).dom().contains(key),
        slab_entries(*final(s)) == slab_entries(*old(s)).insert(key, value),
{
    s.insert(value)
}

/// `slab::Slab::remove`: takes the value out of an occupied entry, which
/// becomes vacant. The slab panics on a vacant key, which `requires` rules out.
#[verifier::external_body]
fn slab_remove(s: &mut Slab<u64>, key: usize) -> (r: u64)
    requires
        slab_entries(*old(s)).dom().contains(key),
    ensures
        r == slab_entries(*old(s))[key],
        slab_entries(*final(s)) == slab_entries(*old(s)).remove(key),
{
    s.remove(key)
}

/// The key under which an input device is known to the compositor.
#[derive(Debug, Clone, Copy, PartialEq, Eq, Hash, Structural)]
pub struct InputDeviceKey(usize);

impl InputDeviceKey {
    /// The slab key.
    pub closed spec fn value(self) -> usize {
        self.0
    }

    /// The slab key.
    pub fn get(self) -> (r: usize)
        ensures
            r == self.value(),
    {
        self.0
    }
}

/// Whether a key went down or up.
#[derive(Debug, Clone, Copy, PartialEq, Eq, Hash, Structural)]
pub enum KeyState {
    Released,
    Pressed,
}

/// Whether a pointer button went down or up.
#[derive(Debug, Clone, Copy, PartialEq, Eq, Hash, Structural)]
pub enum ButtonState {
    Released,
    Pressed,
}

/// What happened on an input device, as sent to the compositor.
#[derive(Debug, Clone, Copy, PartialEq, Eq, Structural)]
pub enum InputEventKind {
    DeviceAdded,
    DeviceRemoved,
    Keyboard { keycode: u32, state: KeyState },
    PointerButton { keycode: u32, state: ButtonState },
}

/// An input event tagged with the key of its device.
#[derive(Debug, Clone, Copy, PartialEq, Eq, Structural)]
pub struct InputEvent {
    pub key: InputDeviceKey,
    pub kind: InputEventKind,
}

/// A libinput event as the bookkeeping sees it: the device is named by a
/// handle that identifies it for as long as it is plugged in.
#[derive(Debug, Clone, Copy, PartialEq, Eq, Structural)]
pub enum LibinputEvent {
    DeviceAdded { device: u64 },
    DeviceRemoved { device: u64 },
    Keyboard { device: u64, keycode: u32, state: KeyState },
    PointerButton { device: u64, button: u32, state: ButtonState },
    /// Any event that the worker does not forward.
    Other,
}

/// The devices the input worker knows: a slab of device handles and, for each
/// handle, its key in the slab.
pub struct InputDeviceTable {
    devices: Slab<u64>,
    device_keys: HashMap<u64, InputDeviceKey>,
}

/// The event sent for a device that has key `key`.
pub open spec fn tagged(key: InputDeviceKey, kind: InputEventKind) -> InputEvent {
    InputEvent { key, kind }
}

impl InputDeviceTable {
    /// The key of each known device.
    pub closed spec fn keys(&self) -> Map<u64, InputDeviceKey> {
        self.device_keys@
    }

    /// The occupied slab entries.
    pub closed spec fn slots(&self) -> Map<usize, u64> {
        slab_entries(self.devices)
    }

    /// Every known device's key is an occupied slab entry that holds the
    /// device.
    pub open spec fn wf(&self) -> bool {
        forall|d: u64| #[trigger]
            self.keys().contains_key(d) ==> self.slots().contains_key(self.keys()[d].value())
                && self.slots()[self.keys()[d].value()] == d
    }

    /// The keys and the slab correspond both ways: besides `wf`, every
    /// occupied slab entry holds a known device whose key is that entry.
    pub open spec fn consistent(&self) -> bool {
        &&& self.wf()
        &&& forall|k: usize| #[trigger]
            self.slots().contains_key(k) ==> self.keys().contains_key(self.slots()[k])
                && self.keys()[self.slots()[k]].value() == k
    }

    /// A table with no device.
    pub fn new() -> (r: Self)
        ensures
            r.wf(),
            r.consistent(),
            r.keys() == Map::<u64, InputDeviceKey>::empty(),
            r.slots() == Map::<usize, u64>::empty(),
    {
        InputDeviceTable { devices: slab_with_capacity(1), device_keys: HashMap::with_capacity(1) }
    }

    /// The key of `device`, if it is known.
    pub fn key_of(&self, device: u64) -> (r: Option<InputDeviceKey>)
        ensures
            r == (if self.keys().contains_key(device) {
                Some(self.keys()[device])
            } else {
                None::<InputDeviceKey>
            }),
    {
        assert(vstd::std_specs::hash::obeys_key_model::<u64>());
        match self.device_keys.get(&device) {
            Some(key) => Some(*key),
            None => None,
        }
    }

    /// Records a new device under a fresh key and reports it.
    pub fn device_added(&mut self, device: u64) -> (r: InputEvent)
        requires
            old(self).wf(),
        ensures
            final(self).wf(),
            r.kind == InputEventKind::DeviceAdded,
            !old(self).slots().contains_key(r.key.value()),
            forall|d: u64| #[trigger]
                old(self).keys().contains_key(d) ==> old(self).keys()[d] != r.key,
            final(self).keys() == old(self).keys().insert(device, r.key),
            final(self).slots() == old(self).slots().insert(r.key.value(), device),
            old(self).consistent() && !old(self).keys().contains_key(device)
                ==> final(self).consistent(),
    {
        assert(vstd::std_specs::hash::obeys_key_model::<u64>());
        let key = InputDeviceKey(slab_insert(&mut self.devices, device));
        self.device_keys.insert(device, key);
        assert forall|d: u64| #[trigger] old(self).keys().contains_key(d) implies old(self).keys()[d]
            != key by {
            assert(old(self).slots().contains_key(old(self).keys()[d].value()));
        }
        assert forall|d: u64| #[trigger] self.keys().contains_key(d) implies self.slots().contains_key(
            self.keys()[d].value(),
        ) && self.slots()[self.keys()[d].value()] == d by {
            if d != device {
                assert(old(self).keys().contains_key(d));
                assert(old(self).keys()[d] != key);
            }
        }
        proof {
            if old(self).consistent() && !old(self).keys().contains_key(device) {
                assert forall|k: usize| #[trigger] self.slots().contains_key(k) implies self.keys().contains_key(
                    self.slots()[k],
                ) && self.keys()[self.slots()[k]].value() == k by {
                    if k != key.value() {
                        assert(old(self).slots().contains_key(k));
                        assert(old(self).keys().contains_key(old(self).slots()[k]));
                    }
                }
            }
        }
        InputEvent { key, kind: InputEventKind::DeviceAdded }
    }

    /// Forgets a known device, frees its key and reports it; an unknown
    /// device is ignored.
    pub fn device_removed(&mut self, device: u64) -> (r: Option<InputEvent>)
        requires
            old(self).wf(),
        ensures
            final(self).wf(),
            old(self).keys().contains_key(device) ==> r == Some(
                tagged(old(self).keys()[device], InputEventKind::DeviceRemoved),
            ) && final(self).keys() == old(self).keys().remove(device) && final(self).slots()
                == old(self).slots().remove(old(self).keys()[device].value()),
            !old(self).keys().contains_key(device) ==> r == None::<InputEvent> && final(self).keys()
                == old(self).keys() && final(self).slots() == old(self).slots(),
            old(self).consistent() ==> final(self).consistent(),
    {
        assert(vstd::std_specs::hash::obeys_key_model::<u64>());
        match self.device_keys.remove(&device) {
            Some(key) => {
                slab_remove(&mut self.devices, key.0);
                assert forall|d: u64| #[trigger] self.keys().contains_key(d) implies self.slots().contains_key(
                    self.keys()[d].value(),
                ) && self.slots()[self.keys()[d].value()] == d by {
                    assert(old(self).keys().contains_key(d));
                    if self.keys()[d].value() == key.value() {
                        assert(old(self).slots()[key.value()] == device);
                    }
                }
                proof {
                    if old(self).consistent() {
                        assert forall|k: usize| #[trigger] self.slots().contains_key(k) implies self.keys().contains_key(
                            self.slots()[k],
                        ) && self.keys()[self.slots()[k]].value() == k by {
                            assert(old(self).slots().contains_key(k));
                            assert(old(self).keys().contains_key(old(self).slots()[k]));
                        }
                    }
                }
                Some(InputEvent { key, kind: InputEventKind::DeviceRemoved })
            },
            None => None,
        }
    }

    /// Turns one libinput event into the event sent to the compositor:
    /// devices are added and removed, key and button events of known devices
    /// are tagged with their key, and everything else is dropped.
    pub fn handle(&mut self, event: LibinputEvent) -> (r: Option<InputEvent>)
        requires
            old(self).wf(),
        ensures
            final(self).wf(),
            match event {
                LibinputEvent::DeviceAdded { device } => r matches Some(e) && e.kind
                    == InputEventKind::DeviceAdded && !old(self).slots().contains_key(
                    e.key.value(),
                ) && final(self).keys() == old(self).keys().insert(device, e.key) && final(self).slots() == old(self).slots().insert(e.key.value(), device),
                LibinputEvent::DeviceRemoved { device } => if old(self).keys().contains_key(
                    device,
                ) {
                    r == Some(tagged(old(self).keys()[device], InputEventKind::DeviceRemoved))
                        && final(self).keys() == old(self).keys().remove(device) && final(self).slots() == old(self).slots().remove(old(self).keys()[device].value())
                } else {
                    r == None::<InputEvent> && final(self).keys() == old(self).keys() && final(self).slots() == old(self).slots()
                },
                LibinputEvent::Keyboard { device, keycode, state } => final(self).keys() == old(
                    self,
                ).keys() && final(self).slots() == old(self).slots() && r == (if old(self).keys().contains_key(device) {
                    Some(
                        tagged(
                            old(self).keys()[device],
                            InputEventKind::Keyboard { keycode, state },
                        ),
                    )
                } else {
                    None::<InputEvent>
                }),
                LibinputEvent::PointerButton { device, button, state } => final(self).keys()
                    == old(self).keys() && final(self).slots() == old(self).slots() && r == (if old(self).keys().contains_key(device) {
                    Some(
                        tagged(
                            old(self).keys()[device],
                            InputEventKind::PointerButton { keycode: button, state },
                        ),
                    )
                } else {
                    None::<InputEvent>
                }),
                LibinputEvent::Other => r == None::<InputEvent> && final(self).keys() == old(
                    self,
                ).keys() && final(self).slots() == old(self).slots(),
            },
            old(self).consistent() && !(event matches LibinputEvent::DeviceAdded { device }
                && old(self).keys().contains_key(device)) ==> final(self).consistent(),
    {
        match event {
            LibinputEvent::DeviceAdded { device } => Some(self.device_added(device)),
            LibinputEvent::DeviceRemoved { device } => self.device_removed(device),
            LibinputEvent::Keyboard { device, keycode, state } => match self.key_of(device) {
                Some(key) => Some(InputEvent { key, kind: InputEventKind::Keyboard { keycode, state } }),
                None => None,
            },
            LibinputEvent::PointerButton { device, button, state } => match self.key_of(device) {
                Some(key) => Some(
                    InputEvent { key, kind: InputEventKind::PointerButton { keycode: button, state } },
                ),
                None => None,
            },
            LibinputEvent::Other => None,
        }
    }
}

/// The access mode bits of `open` flags (`O_ACCMODE`).
pub const O_ACCMODE: i32 = 3;
/// `O_RDONLY`.
pub const O_RDONLY: i32 = 0;
/// `O_WRONLY`.
pub const O_WRONLY: i32 = 1;
/// `O_RDWR`.
pub const O_RDWR: i32 = 2;

/// Whether a device opened with `flags` is opened for reading and for
/// writing, as libinput's `open_restricted` asks: by the access mode of the
/// flags.
pub fn open_access(flags: i32) -> (r: (bool, bool))
    ensures
        r.0 == ((flags & O_ACCMODE) == O_RDONLY || (flags & O_ACCMODE) == O_RDWR),
        r.1 == ((flags & O_ACCMODE) == O_WRONLY || (flags & O_ACCMODE) == O_RDWR),
{
    let access_mode = flags & O_ACCMODE;
    let is_read = access_mode == O_RDONLY || access_mode == O_RDWR;
    let is_write = access_mode == O_WRONLY || access_mode == O_RDWR;
    (is_read, is_write)
}

/// Distinct known devices have distinct keys.
pub proof fn lemma_keys_distinct(t: &InputDeviceTable, a: u64, b: u64)
    requires
        t.wf(),
        t.keys().contains_key(a),
        t.keys().contains_key(b),
        a != b,
    ensures
        t.keys()[a] != t.keys()[b],
{
}

/// A device that was added and is then removed is reported with the key it
/// was added under, and the table forgets it.
pub proof fn lemma_add_then_remove(keys: Map<u64, InputDeviceKey>, device: u64, key: InputDeviceKey)
    ensures
        keys.insert(device, key).contains_key(device),
        tagged(keys.insert(device, key)[device], InputEventKind::DeviceRemoved) == tagged(
            key,
            InputEventKind::DeviceRemoved,
        ),
        keys.insert(device, key).remove(device) == keys.remove(device),
{
    assert(keys.insert(device, key).remove(device) =~= keys.remove(device));
}

} // verus!
