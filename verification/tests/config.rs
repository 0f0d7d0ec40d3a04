use muxw::config::command::{CommandHandle, InitError, PendingCommand};
use muxw::config::keyboard::{
    KeyboardConfigBuilder, KeyboardConfigContext, KeyboardCriteria, KeyboardLayout, KeyboardOptions,
    KeyboardSettings,
};
use muxw::config::kinds::{
    input_keyboard_tags, window_tags, EventKindError, InputKeyboardEventKind, WindowEventKind,
    WindowMouseEventContext,
};
use muxw::global::Global;
use muxw::text::{join_with_commas, str_contains, str_eq};
use muxw::types::config::ConfigCommand;
use muxw::types::input::{DeviceLocation, Key, LuaText, XkbLayout, XkbOptions};

#[test]
fn locations_match_named_attributes_only() {
    let any = DeviceLocation::default();
    assert!(any.is_wildcard());
    assert!(any.matches(None, None, None));
    assert!(any.matches(Some("kbd"), Some("event3"), Some("seat0")));
    let dev = DeviceLocation::from_input_device("kbd", "event3", "seat0");
    assert!(!dev.is_wildcard());
    assert!(dev.matches(Some("kbd"), Some("event3"), Some("seat0")));
    assert!(!dev.matches(Some("kbd"), Some("event4"), Some("seat0")));
    assert!(!dev.matches(None, Some("event3"), Some("seat0")));
    let by_seat = DeviceLocation { name: None, port: None, seat: Some("seat1".to_string()) };
    assert!(by_seat.matches(Some("x"), None, Some("seat1")));
    assert!(!by_seat.matches(Some("x"), None, Some("seat0")));
    assert_eq!(dev.duplicate().name.as_deref(), Some("kbd"));
}

#[test]
fn criteria_match_like_locations() {
    let c = KeyboardCriteria { name: Some("kbd".to_string()), port: None, seat: None };
    assert!(c.matches(Some("kbd"), Some("p"), None));
    assert!(!c.matches(Some("mouse"), Some("p"), None));
    assert!(!c.is_wildcard());
    assert!(KeyboardCriteria::default().is_wildcard());
    let d = KeyboardCriteria::from_input_device("a", "b", "c");
    assert!(d.matches(Some("a"), Some("b"), Some("c")));
    assert_eq!(d.duplicate().seat.as_deref(), Some("c"));
}

#[test]
fn layouts_from_lua_values() {
    assert_eq!(XkbLayout::from_lua(LuaText::Nil).unwrap().0, None);
    assert_eq!(XkbLayout::from_lua(LuaText::Str("us".to_string())).unwrap().0.as_deref(), Some("us"));
    let list = LuaText::List(vec!["us".to_string(), "de".to_string(), "pl".to_string()]);
    assert_eq!(XkbLayout::from_lua(list).unwrap().0.as_deref(), Some("us,de,pl"));
    assert_eq!(XkbLayout::from_lua(LuaText::List(vec![])).unwrap().0.as_deref(), Some(""));
    let e = XkbLayout::from_lua(LuaText::Other("number".to_string())).unwrap_err();
    assert_eq!(e.from, "number");
    assert_eq!(e.to, "Keyboard Layout");
    assert_eq!(e.message.as_deref(), Some("Expected String or table of Strings"));
    let o = XkbOptions::from_lua(LuaText::List(vec!["ctrl:nocaps".to_string()])).unwrap();
    assert_eq!(o.0.as_deref(), Some("ctrl:nocaps"));
    assert_eq!(XkbOptions::from_lua(LuaText::Other("boolean".to_string())).unwrap_err().to, "Keyboard Options");
    assert_eq!(
        KeyboardLayout::from_lua(LuaText::Str("fr".to_string())).unwrap().0.as_deref(),
        Some("fr")
    );
    assert_eq!(
        KeyboardOptions::from_lua(LuaText::Other("table".to_string())).unwrap_err().to,
        "Keyboard Options"
    );
}

#[test]
fn context_records_both_settings() {
    let mut ctx = KeyboardConfigContext::new(KeyboardCriteria { name: Some("k".to_string()), port: None, seat: None });
    let (c1, cfg1) = ctx.set_layout(KeyboardLayout(Some("us".to_string())));
    assert_eq!(c1.name.as_deref(), Some("k"));
    assert_eq!(cfg1.layout.0.as_deref(), Some("us"));
    assert_eq!(cfg1.options.0, None);
    let (_, cfg2) = ctx.set_options(KeyboardOptions(Some("caps:escape".to_string())));
    assert_eq!(cfg2.layout.0.as_deref(), Some("us"));
    assert_eq!(cfg2.options.0.as_deref(), Some("caps:escape"));
    let mut b = KeyboardConfigBuilder::new(DeviceLocation::default());
    let (_, c) = b.set_options(XkbOptions(Some("a".to_string())));
    assert_eq!(c.layout.0, None);
    let (loc, c) = b.set_layout(XkbLayout(Some("de".to_string())));
    assert!(loc.is_wildcard());
    assert_eq!((c.layout.0.as_deref(), c.options.0.as_deref()), (Some("de"), Some("a")));
}

#[test]
fn keyboard_kinds() {
    let tags = input_keyboard_tags();
    let names: Vec<&str> = tags.iter().map(|t| t.0).collect();
    assert_eq!(names, vec!["added", "removed", "pressed", "keyrepeat", "Inactivity"]);
    let inactivity = &tags[4].1;
    assert!(inactivity.is_callable());
    assert!(!tags[0].1.is_callable());
    let called = inactivity.call_with_args(Some(5)).unwrap_or_else(|_| panic!("call failed"));
    match &called {
        InputKeyboardEventKind::Inactivity { timeout_secs, .. } => assert_eq!(*timeout_secs, 5),
        other => panic!("unexpected {other:?}"),
    }
    assert!(matches!(inactivity.call_with_args(None), Err(EventKindError::MissingTimeout)));
    assert!(matches!(tags[1].1.call_with_args(Some(1)), Err(EventKindError::NotParameterized)));
    assert!(called.matches(&called));
    assert!(!called.matches(inactivity));
    assert!(tags[2].1.matches(&InputKeyboardEventKind::Pressed {
        location: DeviceLocation::from_input_device("a", "b", "c"),
        key: Key { keycode: 1, keysym: 2, utf8: None },
    }));
    assert!(!tags[2].1.matches(&tags[3].1));
    let w = window_tags();
    assert_eq!(w.len(), 1);
    assert_eq!(w[0].0, "mouse_enter");
    assert!(w[0].1 == WindowEventKind::MouseEnter(WindowMouseEventContext {}));
}

#[test]
fn text_helpers() {
    assert!(str_eq("abc", "abc"));
    assert!(!str_eq("abc", "abd"));
    assert!(str_contains("/bin/bash", "bash"));
    assert!(str_contains("abc", ""));
    assert!(!str_contains("ba", "bash"));
    assert_eq!(join_with_commas(&vec!["a".to_string()]), "a");
    assert_eq!(join_with_commas(&vec!["a".to_string(), "".to_string(), "c".to_string()]), "a,,c");
}

#[test]
fn global_reads_back_its_value() {
    let mut g: Global<u32> = Global::new();
    assert!(!g.is_initialized());
    g.init(7);
    assert!(g.is_initialized());
    assert_eq!(*g.get(), 7);
}

#[test]
fn commands_round_trip() {
    let (tx, rx) = std::sync::mpsc::sync_channel(1);
    let handle = CommandHandle::new(tx);
    let pending = handle.send(ConfigCommand::Reload).unwrap_or_else(|_| panic!("send failed"));
    let (command, done) = rx.recv().unwrap();
    assert_eq!(command, ConfigCommand::Reload);
    done.send(Ok(())).unwrap();
    assert!(pending.wait().is_ok());

    let pending = handle.send(ConfigCommand::Exit).unwrap_or_else(|_| panic!("send failed"));
    drop(rx.recv().unwrap());
    let died = pending.wait();
    match &died {
        Err(e @ InitError::Io { action, path, .. }) => {
            assert_eq!(*action, "config thread died before completing command");
            assert!(path.is_none());
            assert!(e.is_broken_pipe());
        },
        other => panic!("unexpected {other:?}"),
    }
    drop(rx);
    match handle.send(ConfigCommand::Exit) {
        Err(e) => {
            assert!(e.is_broken_pipe());
            match e {
                InitError::Io { action, .. } => assert_eq!(action, "send command to config thread"),
                _ => panic!("not an I/O failure"),
            }
        },
        _ => panic!("send should fail"),
    }
    let lua_failure = PendingCommand::outcome(Some(Err(InitError::Mlua { action: "x" })));
    assert!(matches!(&lua_failure, Err(e) if !e.is_broken_pipe()));
}

#[test]
fn send_outcome() {
    let (tx, rx) = std::sync::mpsc::sync_channel(1);
    let pending = PendingCommand::from_send(true, rx).unwrap_or_else(|_| panic!("sent command refused"));
    tx.send(Ok(())).unwrap();
    assert!(pending.wait().is_ok());

    let (_tx, rx) = std::sync::mpsc::sync_channel::<Result<(), InitError>>(1);
    match PendingCommand::from_send(false, rx) {
        Err(e) => {
            assert!(e.is_broken_pipe());
            match e {
                InitError::Io { action, path, .. } => {
                    assert_eq!(action, "send command to config thread");
                    assert!(path.is_none());
                },
                _ => panic!("not an I/O failure"),
            }
        },
        _ => panic!("unsent command accepted"),
    }
}

#[test]
fn tags_have_blank_contexts() {
    let tags = input_keyboard_tags();
    for (_, kind) in &tags {
        match kind {
            InputKeyboardEventKind::Added { location, .. }
            | InputKeyboardEventKind::Removed { location }
            | InputKeyboardEventKind::Inactivity { location, .. } => assert!(location.is_wildcard()),
            InputKeyboardEventKind::Pressed { location, key }
            | InputKeyboardEventKind::KeyRepeat { location, key } => {
                assert!(location.is_wildcard());
                assert_eq!((key.keycode, key.keysym, key.utf8.clone()), (0, 0, None));
            },
        }
    }
}

#[test]
fn settings_are_recorded_per_criteria() {
    let kbd = || KeyboardCriteria { name: Some("kbd".to_string()), port: None, seat: None };
    let mut settings = KeyboardSettings::new();
    assert!(settings.config_for(&kbd()).is_none());

    let mut ctx = KeyboardConfigContext::new(kbd());
    let mut chained = ctx.record_layout(KeyboardLayout(Some("us".to_string())), &mut settings);
    let recorded = settings.config_for(&kbd()).unwrap();
    assert_eq!((recorded.layout.0.as_deref(), recorded.options.0.as_deref()), (Some("us"), None));

    chained.record_options(KeyboardOptions(Some("caps:escape".to_string())), &mut settings);
    let recorded = settings.config_for(&kbd()).unwrap();
    assert_eq!(
        (recorded.layout.0.as_deref(), recorded.options.0.as_deref()),
        (Some("us"), Some("caps:escape"))
    );

    let mut other = KeyboardConfigContext::new(KeyboardCriteria::default());
    other.record_layout(KeyboardLayout(Some("de".to_string())), &mut settings);
    assert_eq!(settings.config_for(&KeyboardCriteria::default()).unwrap().layout.0.as_deref(), Some("de"));
    let recorded = settings.config_for(&kbd()).unwrap();
    assert_eq!(recorded.options.0.as_deref(), Some("caps:escape"));

    ctx.record_layout(KeyboardLayout(None), &mut settings);
    assert_eq!(settings.config_for(&kbd()).unwrap().layout.0, None);
}
