use std::sync::mpsc::channel;

use bevy_godot::bridge::{drain_raw_events, keys_castable, route_raw_events, write_input_events, InputEventReader};
use bevy_godot::handle::{EventClass, HostHandle};
use bevy_godot::input_event::{InputEvent, InputEventType, KeyInputEvent, ProtocolError, UnhandledInputEvent};

fn key_handle(id: u64) -> HostHandle {
    HostHandle { id, class: EventClass::KeyInput, live: true }
}

fn input_handle(id: u64) -> HostHandle {
    HostHandle { id, class: EventClass::Input, live: true }
}

#[test]
fn scenario_mixed_tags_split_in_order() {
    let (tx, rx) = channel();
    let h1 = key_handle(1);
    let h2 = input_handle(2);
    let h3 = input_handle(3);
    let h4 = input_handle(4);
    tx.send((InputEventType::Key, h1)).unwrap();
    tx.send((InputEventType::Normal, h2)).unwrap();
    tx.send((InputEventType::Unhandled, h3)).unwrap();
    tx.send((InputEventType::Normal, h4)).unwrap();

    let reader = InputEventReader(rx);
    let mut unhandled: Vec<UnhandledInputEvent> = Vec::new();
    let mut normal: Vec<InputEvent> = Vec::new();
    let mut key: Vec<KeyInputEvent> = Vec::new();
    let r = write_input_events(&reader, &mut unhandled, &mut normal, &mut key);

    assert_eq!(r, Ok(()));
    assert_eq!(key, vec![KeyInputEvent(h1)]);
    assert_eq!(normal, vec![InputEvent(h2), InputEvent(h4)]);
    assert_eq!(unhandled, vec![UnhandledInputEvent(h3)]);
}

#[test]
fn scenario_empty_drain_changes_nothing() {
    let (tx, rx) = channel::<(InputEventType, HostHandle)>();
    let reader = InputEventReader(rx);
    let mut unhandled = vec![UnhandledInputEvent(input_handle(9))];
    let mut normal = vec![InputEvent(input_handle(8))];
    let mut key = vec![KeyInputEvent(key_handle(7))];
    let r = write_input_events(&reader, &mut unhandled, &mut normal, &mut key);

    assert_eq!(r, Ok(()));
    assert_eq!(unhandled, vec![UnhandledInputEvent(input_handle(9))]);
    assert_eq!(normal, vec![InputEvent(input_handle(8))]);
    assert_eq!(key, vec![KeyInputEvent(key_handle(7))]);
    drop(tx);
}

#[test]
fn drain_preserves_channel_order() {
    let (tx, rx) = channel();
    for id in 0..5u64 {
        tx.send((InputEventType::Normal, input_handle(id))).unwrap();
    }
    let reader = InputEventReader(rx);
    let raw = drain_raw_events(&reader);
    assert_eq!(raw.len(), 5);
    for (i, (tag, handle)) in raw.iter().enumerate() {
        assert_eq!(*tag, InputEventType::Normal);
        assert_eq!(handle.id, i as u64);
    }
    // A second drain finds nothing new.
    assert_eq!(drain_raw_events(&reader).len(), 0);
}

#[test]
fn drain_is_nonblocking_after_disconnect() {
    let (tx, rx) = channel();
    tx.send((InputEventType::Unhandled, input_handle(1))).unwrap();
    drop(tx);
    let reader = InputEventReader(rx);
    assert_eq!(drain_raw_events(&reader).len(), 1);
    assert_eq!(drain_raw_events(&reader).len(), 0);
}

#[test]
fn route_appends_after_existing_entries() {
    let raw = vec![
        (InputEventType::Normal, input_handle(10)),
        (InputEventType::Normal, input_handle(11)),
        (InputEventType::Key, key_handle(12)),
    ];
    let mut unhandled: Vec<UnhandledInputEvent> = Vec::new();
    let mut normal = vec![InputEvent(input_handle(1))];
    let mut key: Vec<KeyInputEvent> = Vec::new();
    route_raw_events(&raw, &mut unhandled, &mut normal, &mut key);

    assert_eq!(
        normal,
        vec![InputEvent(input_handle(1)), InputEvent(input_handle(10)), InputEvent(input_handle(11))]
    );
    assert_eq!(key, vec![KeyInputEvent(key_handle(12))]);
    assert_eq!(unhandled, Vec::new());
}

#[test]
fn keys_castable_accepts_kept_contract() {
    let raw = vec![
        (InputEventType::Key, key_handle(1)),
        (InputEventType::Normal, input_handle(2)),
    ];
    assert!(keys_castable(&raw));
    assert!(keys_castable(&Vec::new()));
}

#[test]
fn keys_castable_rejects_mistagged_key() {
    let raw = vec![
        (InputEventType::Normal, input_handle(1)),
        (InputEventType::Key, input_handle(2)),
    ];
    assert!(!keys_castable(&raw));
}

#[test]
fn mistagged_key_event_is_fatal_and_publishes_nothing() {
    let (tx, rx) = channel();
    tx.send((InputEventType::Normal, input_handle(1))).unwrap();
    tx.send((InputEventType::Key, input_handle(2))).unwrap();
    let reader = InputEventReader(rx);
    let mut unhandled: Vec<UnhandledInputEvent> = Vec::new();
    let mut normal: Vec<InputEvent> = Vec::new();
    let mut key: Vec<KeyInputEvent> = Vec::new();
    let r = write_input_events(&reader, &mut unhandled, &mut normal, &mut key);

    assert_eq!(r, Err(ProtocolError));
    assert!(unhandled.is_empty());
    assert!(normal.is_empty());
    assert!(key.is_empty());
}

#[test]
fn expired_key_handle_is_still_routed() {
    // Liveness is not part of the tagging contract: an expired handle of the
    // keyboard class routes fine, and only `try_get` later reports it absent.
    let expired = HostHandle { id: 5, class: EventClass::KeyInput, live: false };
    let raw = vec![(InputEventType::Key, expired)];
    assert!(keys_castable(&raw));
    let mut unhandled: Vec<UnhandledInputEvent> = Vec::new();
    let mut normal: Vec<InputEvent> = Vec::new();
    let mut key: Vec<KeyInputEvent> = Vec::new();
    route_raw_events(&raw, &mut unhandled, &mut normal, &mut key);
    assert_eq!(key, vec![KeyInputEvent(expired)]);
    assert_eq!(key[0].try_get(), None);
}
