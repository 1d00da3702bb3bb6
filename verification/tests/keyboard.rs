use actiona::key_names::KeyNameError;
use actiona::key_triggers::{keys_match, trigger_keys, HandleId, JsEventHandle, KeyEvent, KeyTriggerRegistry, OnKeysOptions, PressState};
use actiona::keys::{normalize, JsKey, JsStandardKey};

fn press(key: JsKey) -> KeyEvent {
    KeyEvent { key, is_release: false, is_injected: false, is_repeat: false }
}

fn release(key: JsKey) -> KeyEvent {
    KeyEvent { key, is_release: true, is_injected: false, is_repeat: false }
}

fn ctrl() -> JsKey {
    JsKey::Standard(JsStandardKey::Control)
}

#[test]
fn normalization() {
    assert_eq!(normalize(JsKey::Standard(JsStandardKey::LeftControl)), ctrl());
    assert_eq!(normalize(JsKey::Standard(JsStandardKey::RightShift)), JsKey::Standard(JsStandardKey::Shift));
    assert_eq!(normalize(JsKey::Standard(JsStandardKey::LeftAlt)), JsKey::Standard(JsStandardKey::Alt));
    assert_eq!(normalize(JsKey::Standard(JsStandardKey::T)), JsKey::Unicode('t'));
    assert_eq!(normalize(JsKey::Standard(JsStandardKey::Num7)), JsKey::Unicode('7'));
    assert_eq!(normalize(JsKey::Unicode('T')), JsKey::Unicode('t'));
    assert_eq!(normalize(JsKey::Unicode('\u{1b}')), JsKey::Standard(JsStandardKey::Escape));
    assert_eq!(normalize(JsKey::Unicode('é')), JsKey::Unicode('é'));
    assert_eq!(normalize(JsKey::Other(42)), JsKey::Other(42));
}

#[test]
fn trigger_keys_are_normal_and_unique() {
    let keys = vec![JsKey::Standard(JsStandardKey::LeftControl), JsKey::Unicode('A'), ctrl(), JsKey::Standard(JsStandardKey::A)];
    assert_eq!(trigger_keys(&keys), vec![ctrl(), JsKey::Unicode('a')]);
}

#[test]
fn matching() {
    let t = vec![ctrl(), JsKey::Unicode('a')];
    let p = vec![JsKey::Unicode('a'), ctrl(), JsKey::Unicode('b')];
    assert!(keys_match(&t, &p, false));
    assert!(!keys_match(&t, &p, true));
    assert!(keys_match(&t, &vec![JsKey::Unicode('a'), ctrl()], true));
    assert!(!keys_match(&t, &vec![ctrl()], false));
}

#[test]
fn fires_once_per_press() {
    let mut registry: KeyTriggerRegistry<&str> = KeyTriggerRegistry::new();
    assert!(registry.add(HandleId::from_raw(1), &vec![ctrl(), JsKey::Unicode('a')], "first", OnKeysOptions::default()));
    assert!(!registry.add(HandleId::from_raw(2), &vec![JsKey::Unicode('A'), JsKey::Standard(JsStandardKey::RightControl)], "second", OnKeysOptions { exclusive: true }));
    let mut state = PressState::new();
    assert!(state.on_key(&registry, press(JsKey::Standard(JsStandardKey::LeftControl))).is_empty());
    let fired = state.on_key(&registry, press(JsKey::Unicode('a')));
    let ids: Vec<u64> = fired.iter().map(|f| f.1.raw()).collect();
    assert_eq!(ids, vec![1, 2]);
    assert_eq!(registry.find_handler(fired[1].1).unwrap().callback, "second");
    assert!(state.on_key(&registry, press(JsKey::Unicode('a'))).is_empty());
    assert!(state.on_key(&registry, press(JsKey::Unicode('z'))).is_empty());
    state.on_key(&registry, release(JsKey::Unicode('a')));
    state.on_key(&registry, release(JsKey::Unicode('z')));
    let again = state.on_key(&registry, press(JsKey::Unicode('a')));
    assert_eq!(again.len(), 2);
}

#[test]
fn injected_and_repeated_events_are_ignored() {
    let mut registry: KeyTriggerRegistry<()> = KeyTriggerRegistry::new();
    registry.add(HandleId::from_raw(7), &vec![JsKey::Unicode('x')], (), OnKeysOptions::default());
    let mut state = PressState::new();
    let injected = KeyEvent { key: JsKey::Unicode('x'), is_release: false, is_injected: true, is_repeat: false };
    assert!(state.on_key(&registry, injected).is_empty());
    let repeat = KeyEvent { key: JsKey::Unicode('x'), is_release: false, is_injected: false, is_repeat: true };
    assert!(state.on_key(&registry, repeat).is_empty());
    assert_eq!(state.on_key(&registry, press(JsKey::Unicode('x'))).len(), 1);
}

#[test]
fn removing_handlers() {
    let mut registry: KeyTriggerRegistry<u8> = KeyTriggerRegistry::new();
    registry.add(HandleId::from_raw(1), &vec![JsKey::Unicode('x')], 1, OnKeysOptions::default());
    registry.add(HandleId::from_raw(2), &vec![JsKey::Unicode('x')], 2, OnKeysOptions::default());
    assert!(!registry.remove(HandleId::from_raw(1)));
    assert!(registry.find_handler(HandleId::from_raw(1)).is_none());
    assert!(registry.remove(HandleId::from_raw(2)));
    assert!(registry.is_empty());
    assert!(!registry.clear());
}

#[test]
fn test_standard_key() {
    let key = JsStandardKey::from_name("Space").unwrap();
    assert_eq!(key, JsStandardKey::Space);
    let name = key.to_display_string();
    assert_eq!(JsStandardKey::from_name(&name).unwrap(), key);
}

#[test]
fn test_key() {
    let key = JsKey::from_text(&JsStandardKey::Space.to_display_string()).unwrap();
    assert_eq!(key, JsKey::Standard(JsStandardKey::Space));

    let key = JsKey::from_text("Space").unwrap();
    assert_eq!(key, JsKey::Standard(JsStandardKey::Space));

    assert!(JsKey::from_text("InvalidKey").is_err());

    let key = JsKey::from_text("=").unwrap();
    assert_eq!(key, JsKey::Unicode('='));

    let key = JsKey::from_number(42).unwrap();
    assert_eq!(key, JsKey::Other(42));
}

#[test]
fn key_names_read_back() {
    assert_eq!(JsStandardKey::NoKey.to_display_string(), "None");
    assert_eq!(JsStandardKey::from_name("Option"), Some(JsStandardKey::OptionKey));
    assert_eq!(JsStandardKey::from_name("space"), None);
    assert_eq!(JsKey::from_text("é"), Ok(JsKey::Unicode('é')));
    assert_eq!(JsKey::from_text(""), Err(KeyNameError::InvalidKeyName));
    assert_eq!(JsKey::from_number(-1), Err(KeyNameError::InvalidKeyName));
    assert_eq!(KeyNameError::InvalidKeyName.message(), "invalid key name");
    assert_eq!(JsKey::from_text("F12"), Ok(JsKey::Standard(JsStandardKey::F12)));
}

#[test]
fn each_handler_keeps_its_callback() {
    let mut registry: KeyTriggerRegistry<&str> = KeyTriggerRegistry::new();
    let keys = vec![JsKey::Unicode('q')];
    registry.add(HandleId::from_raw(10), &keys, "ten", OnKeysOptions::default());
    registry.add(HandleId::from_raw(11), &vec![JsKey::Unicode('Q')], "eleven", OnKeysOptions::default());
    registry.add(HandleId::from_raw(12), &vec![JsKey::Unicode('w')], "twelve", OnKeysOptions::default());
    assert_eq!(registry.find_handler(HandleId::from_raw(10)).unwrap().callback, "ten");
    assert_eq!(registry.find_handler(HandleId::from_raw(11)).unwrap().callback, "eleven");
    assert_eq!(registry.find_handler(HandleId::from_raw(12)).unwrap().callback, "twelve");
    assert!(registry.find_handler(HandleId::from_raw(13)).is_none());
}

#[test]
fn a_key_pressed_twice_is_held_once() {
    let mut registry: KeyTriggerRegistry<()> = KeyTriggerRegistry::new();
    registry.add(HandleId::from_raw(1), &vec![JsKey::Unicode('x')], (), OnKeysOptions { exclusive: true });
    let mut state = PressState::new();
    assert_eq!(state.on_key(&registry, press(JsKey::Unicode('x'))).len(), 1);
    assert!(state.on_key(&registry, press(JsKey::Unicode('x'))).is_empty());
    state.on_key(&registry, release(JsKey::Unicode('x')));
    assert_eq!(state.on_key(&registry, press(JsKey::Unicode('x'))).len(), 1);
}

#[test]
fn event_handle_text_and_id() {
    let handle = JsEventHandle::new(HandleId::from_raw(42));
    assert_eq!(handle.to_string_js(), "EventHandle");
    assert_eq!(handle.id().raw(), 42);
}
