use muxw::input::{
    open_access, ButtonState, InputDeviceTable, InputEvent, InputEventKind, KeyState, LibinputEvent,
};

#[test]
fn devices_get_distinct_keys() {
    let mut t = InputDeviceTable::new();
    let a = t.device_added(100);
    let b = t.device_added(200);
    assert_eq!(a.kind, InputEventKind::DeviceAdded);
    assert_ne!(a.key, b.key);
    assert_eq!(a.key.get(), 0);
    assert_eq!(b.key.get(), 1);
    assert_eq!(t.key_of(100), Some(a.key));
    assert_eq!(t.key_of(300), None);
}

#[test]
fn removed_device_reports_its_key_and_frees_it() {
    let mut t = InputDeviceTable::new();
    let a = t.device_added(100);
    let _b = t.device_added(200);
    assert_eq!(
        t.device_removed(100),
        Some(InputEvent { key: a.key, kind: InputEventKind::DeviceRemoved })
    );
    assert_eq!(t.key_of(100), None);
    assert_eq!(t.device_removed(100), None);
    let c = t.device_added(300);
    assert_eq!(c.key, a.key);
}

#[test]
fn events_of_known_devices_are_tagged() {
    let mut t = InputDeviceTable::new();
    let added = t.handle(LibinputEvent::DeviceAdded { device: 7 }).unwrap();
    let k = t.handle(LibinputEvent::Keyboard { device: 7, keycode: 30, state: KeyState::Pressed });
    assert_eq!(
        k,
        Some(InputEvent {
            key: added.key,
            kind: InputEventKind::Keyboard { keycode: 30, state: KeyState::Pressed }
        })
    );
    let p = t.handle(LibinputEvent::PointerButton { device: 7, button: 272, state: ButtonState::Released });
    assert_eq!(
        p,
        Some(InputEvent {
            key: added.key,
            kind: InputEventKind::PointerButton { keycode: 272, state: ButtonState::Released }
        })
    );
    assert_eq!(t.handle(LibinputEvent::Keyboard { device: 8, keycode: 1, state: KeyState::Released }), None);
    assert_eq!(t.handle(LibinputEvent::Other), None);
    assert_eq!(t.handle(LibinputEvent::DeviceRemoved { device: 8 }), None);
    assert_eq!(
        t.handle(LibinputEvent::DeviceRemoved { device: 7 }),
        Some(InputEvent { key: added.key, kind: InputEventKind::DeviceRemoved })
    );
    assert_eq!(t.handle(LibinputEvent::Keyboard { device: 7, keycode: 30, state: KeyState::Pressed }), None);
}

#[test]
fn open_access_modes() {
    assert_eq!(open_access(libc::O_RDONLY), (true, false));
    assert_eq!(open_access(libc::O_WRONLY), (false, true));
    assert_eq!(open_access(libc::O_RDWR), (true, true));
    assert_eq!(open_access(libc::O_RDWR | libc::O_NONBLOCK | libc::O_CLOEXEC), (true, true));
    assert_eq!(open_access(libc::O_RDONLY | libc::O_NONBLOCK), (true, false));
    assert_eq!(open_access(3), (false, false));
}
