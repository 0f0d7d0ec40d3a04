use muxw::config::event::{tag_from_lua, AddError, EventRegistry, TagArg};
use muxw::types::config::{ConfigApiEvent, ConfigCommand, EventDiscriminant, EventTagError};
use muxw::types::ids::IdSource;

#[test]
fn id_source_mints_in_order() {
    let mut s = IdSource::new();
    let a = s.acquire();
    let b = s.acquire();
    let c = s.acquire();
    assert_ne!(a, b);
    assert_ne!(b, c);
    assert_ne!(a, c);
}

#[test]
fn id_source_reuses_most_recent_release_first() {
    let mut s = IdSource::new();
    let a = s.acquire();
    let b = s.acquire();
    s.release(a);
    s.release(b);
    assert_eq!(s.acquire(), b);
    assert_eq!(s.acquire(), a);
    let c = s.acquire();
    assert_ne!(c, a);
    assert_ne!(c, b);
}

#[test]
fn release_then_acquire_round_trip() {
    let mut s = IdSource::new();
    let _ = s.acquire();
    let x = s.acquire();
    s.release(x);
    assert_eq!(s.acquire(), x);
    let y = s.acquire();
    assert_ne!(y, x);
}

#[test]
fn command_discriminants() {
    assert_eq!(ConfigCommand::Exit.discriminant(), EventDiscriminant::Exit);
    assert_eq!(ConfigCommand::Reload.discriminant(), EventDiscriminant::Reload);
    assert_eq!(ConfigCommand::KeyboardAdded.discriminant(), EventDiscriminant::InputKeyboardAdded);
    assert_eq!(
        ConfigCommand::KeyboardInactive(800).discriminant(),
        EventDiscriminant::InputKeyboardInactive(Some(800))
    );
}

#[test]
fn tag_readiness_and_calls() {
    assert!(!EventDiscriminant::InputKeyboardInactive(None).is_ready());
    assert!(EventDiscriminant::InputKeyboardInactive(Some(1)).is_ready());
    assert!(EventDiscriminant::Exit.is_ready());
    assert_eq!(
        EventDiscriminant::InputKeyboardInactive(None).call(Some(800)),
        Ok(EventDiscriminant::InputKeyboardInactive(Some(800)))
    );
    assert_eq!(
        EventDiscriminant::InputKeyboardInactive(Some(3)).call(Some(5)),
        Ok(EventDiscriminant::InputKeyboardInactive(Some(5)))
    );
    assert_eq!(
        EventDiscriminant::Reload.call(Some(5)),
        Err(EventTagError::NotCallable(EventDiscriminant::Reload))
    );
    assert_eq!(EventDiscriminant::Reload.call(None), Err(EventTagError::NotCallable(EventDiscriminant::Reload)));
    assert_eq!(EventDiscriminant::InputKeyboardInactive(None).call(None), Err(EventTagError::MissingPeriod));
}

#[test]
fn registry_fires_matching_callbacks_in_order() {
    let mut r: EventRegistry<&'static str> = EventRegistry::new();
    let a = r.register(EventDiscriminant::Exit, "a");
    let b = r.register(EventDiscriminant::Reload, "b");
    let c = r.register(EventDiscriminant::Exit, "c");
    assert_eq!(r.events_for(EventDiscriminant::Exit), vec![a, c]);
    assert_eq!(r.events_for(EventDiscriminant::Reload), vec![b]);
    assert_eq!(r.fire_targets(&ConfigCommand::Exit), vec![a, c]);
    assert!(r.fire_targets(&ConfigCommand::KeyboardAdded).is_empty());
    assert_eq!(r.callback_of(c), Some(&"c"));
}

#[test]
fn registry_inactivity_matches_by_period() {
    let mut r: EventRegistry<u32> = EventRegistry::new();
    let a = r.register(EventDiscriminant::InputKeyboardInactive(Some(800)), 1);
    let _ = r.register(EventDiscriminant::InputKeyboardInactive(Some(500)), 2);
    assert_eq!(r.fire_targets(&ConfigCommand::KeyboardInactive(800)), vec![a]);
}

#[test]
fn registry_unregister_stops_firing() {
    let mut r: EventRegistry<u32> = EventRegistry::new();
    let a = r.register(EventDiscriminant::Exit, 10);
    let b = r.register(EventDiscriminant::Exit, 20);
    assert_eq!(r.unregister(a), Some(10));
    assert_eq!(r.events_for(EventDiscriminant::Exit), vec![b]);
    assert_eq!(r.unregister(a), None);
    assert_eq!(r.callback_of(a), None);
    let c = r.register(EventDiscriminant::Exit, 30);
    assert_ne!(c, a);
    assert_ne!(c, b);
}

#[test]
fn registry_try_register_refuses_unready_tags() {
    let mut r: EventRegistry<u32> = EventRegistry::new();
    let unready = EventDiscriminant::InputKeyboardInactive(None);
    assert_eq!(r.try_register(unready, 1), Err(EventTagError::NotReady(unready)));
    assert!(r.events_for(unready).is_empty());
    let id = r.try_register(EventDiscriminant::Exit, 2).unwrap();
    assert_eq!(r.events_for(EventDiscriminant::Exit), vec![id]);
}

#[test]
fn registry_clear_keeps_ids_fresh() {
    let mut r: EventRegistry<u32> = EventRegistry::new();
    let a = r.register(EventDiscriminant::Exit, 1);
    r.clear();
    assert!(r.events_for(EventDiscriminant::Exit).is_empty());
    let b = r.register(EventDiscriminant::Exit, 2);
    assert_ne!(a, b);
    assert_eq!(r.unregister(b), Some(2));
    let c = r.register(EventDiscriminant::Reload, 3);
    assert_ne!(c, a);
    assert_ne!(c, b);
}

#[test]
fn event_add_checks_its_tag() {
    assert!(matches!(tag_from_lua(TagArg::Tag(EventDiscriminant::Exit)), Ok(EventDiscriminant::Exit)));
    assert!(matches!(
        tag_from_lua(TagArg::Tag(EventDiscriminant::InputKeyboardInactive(Some(800)))),
        Ok(EventDiscriminant::InputKeyboardInactive(Some(800)))
    ));
    let nil = tag_from_lua(TagArg::Nil).unwrap_err();
    assert!(matches!(nil, AddError::NilTag));
    assert_eq!(nil.message(), "event.add() received nil as event tag");
    let other = tag_from_lua(TagArg::Other("number".to_string())).unwrap_err();
    assert_eq!(other.message(), "event.add() expected an event tag, got number");
    let unready = tag_from_lua(TagArg::Tag(EventDiscriminant::InputKeyboardInactive(None))).unwrap_err();
    assert!(matches!(unready, AddError::NotReady));
    assert_eq!(
        unready.message(),
        format!(
            "event tag {:?} requires argument(s) - call it first (e.g.: inactive(0.8))",
            EventDiscriminant::InputKeyboardInactive(None)
        )
    );
}

#[test]
fn registry_reuses_vacated_slots_in_firing_order() {
    let mut r: EventRegistry<&'static str> = EventRegistry::new();
    let a = r.register(EventDiscriminant::Exit, "a");
    let b = r.register(EventDiscriminant::Exit, "b");
    assert_eq!(r.unregister(a), Some("a"));
    let c = r.register(EventDiscriminant::Exit, "c");
    assert_eq!(r.events_for(EventDiscriminant::Exit), vec![c, b]);
    let d = r.register(EventDiscriminant::Exit, "d");
    assert_eq!(r.events_for(EventDiscriminant::Exit), vec![c, b, d]);
    assert_eq!(r.unregister(b), Some("b"));
    assert_eq!(r.unregister(c), Some("c"));
    let e = r.register(EventDiscriminant::Exit, "e");
    let f = r.register(EventDiscriminant::Exit, "f");
    assert_eq!(r.events_for(EventDiscriminant::Exit), vec![e, f, d]);
}

#[test]
fn registry_default_is_empty() {
    let mut r: EventRegistry<u32> = EventRegistry::default();
    assert!(r.events_for(EventDiscriminant::Exit).is_empty());
    let a = r.register(EventDiscriminant::Exit, 1);
    assert_eq!(r.events_for(EventDiscriminant::Exit), vec![a]);
}
