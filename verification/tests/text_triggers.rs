use actiona::key_triggers::{HandleId, KeyEvent};
use actiona::keys::{JsKey, JsStandardKey};
use actiona::text_replacements::{OnTextOptions, StringRingBuffer};
use actiona::text_triggers::{on_key, TextReplacements};

fn id(n: u64) -> HandleId {
    HandleId::from_raw(n)
}

fn matched(t: &TextReplacements, typed: &str) -> Option<(String, Vec<u64>)> {
    t.matching(typed).map(|(trigger, handlers)| (trigger, handlers.iter().map(|h| h.id.raw()).collect()))
}

#[test]
fn longest_trigger_wins() {
    let mut t = TextReplacements::new();
    let o = OnTextOptions::default();
    assert!(t.add(id(1), "b", o));
    assert!(!t.add(id(2), "ab", o));
    assert!(!t.add(id(3), "hello", o));
    assert_eq!(t.max_graphemes(), 5);
    assert_eq!(matched(&t, "xab"), Some(("ab".to_string(), vec![2])));
    assert_eq!(matched(&t, "xb"), Some(("b".to_string(), vec![1])));
    assert_eq!(matched(&t, "say hello"), Some(("hello".to_string(), vec![3])));
    assert_eq!(matched(&t, "hell"), None);
}

#[test]
fn handlers_of_one_trigger_keep_their_order() {
    let mut t = TextReplacements::new();
    let o = OnTextOptions::default();
    t.add(id(7), "btw", o);
    t.add(id(8), "btw", o);
    t.add(id(9), "zz", o);
    assert_eq!(matched(&t, "ok btw"), Some(("btw".to_string(), vec![7, 8])));
    assert!(!t.remove(id(7)));
    assert_eq!(matched(&t, "btw"), Some(("btw".to_string(), vec![8])));
    assert!(!t.remove(id(8)));
    assert_eq!(matched(&t, "btw"), None);
    assert_eq!(t.max_graphemes(), 2);
    assert!(t.remove(id(9)));
    assert_eq!(t.max_graphemes(), 0);
    assert!(!t.remove(id(9)));
}

#[test]
fn equal_lengths_keep_the_order_they_came_in() {
    let mut t = TextReplacements::new();
    let o = OnTextOptions::default();
    t.add(id(1), "é", o);
    t.add(id(2), "ab", o);
    t.add(id(3), "cb", o);
    t.add(id(4), "b", o);
    assert_eq!(t.max_graphemes(), 2);
    assert_eq!(matched(&t, "cb"), Some(("cb".to_string(), vec![3])));
    assert_eq!(matched(&t, "xé"), Some(("é".to_string(), vec![1])));
}

#[test]
fn buffer_size_counts_grapheme_clusters() {
    let mut t = TextReplacements::new();
    t.add(id(1), "e\u{301}", OnTextOptions::default());
    assert_eq!(t.max_graphemes(), 1);
    t.add(id(2), "👍🏽!", OnTextOptions::default());
    assert_eq!(t.max_graphemes(), 2);
}

#[test]
fn clearing_says_whether_there_was_anything() {
    let mut t = TextReplacements::new();
    assert!(!t.clear());
    t.add(id(1), "x", OnTextOptions::default());
    assert!(t.clear());
    assert_eq!(t.max_graphemes(), 0);
    assert_eq!(matched(&t, "x"), None);
    assert!(t.add(id(2), "y", OnTextOptions::default()));
}

#[test]
fn removing_what_was_just_added_restores_the_triggers() {
    let mut t = TextReplacements::new();
    let o = OnTextOptions::default();
    t.add(id(1), "abc", o);
    t.add(id(2), "bc", o);
    let before: Vec<Option<(String, Vec<u64>)>> = ["abc", "xbc", "c"].iter().map(|s| matched(&t, s)).collect();
    t.add(id(3), "xbc", o);
    t.add(id(4), "bc", o);
    assert_eq!(matched(&t, "xbc"), Some(("xbc".to_string(), vec![3])));
    t.remove(id(4));
    t.remove(id(3));
    let after: Vec<Option<(String, Vec<u64>)>> = ["abc", "xbc", "c"].iter().map(|s| matched(&t, s)).collect();
    assert_eq!(before, after);
    assert_eq!(t.max_graphemes(), 3);
}

fn key(k: JsStandardKey, is_release: bool, is_injected: bool) -> KeyEvent {
    KeyEvent { key: JsKey::Standard(k), is_release, is_injected, is_repeat: false }
}

#[test]
fn typed_characters_fire_triggers() {
    let mut t = TextReplacements::new();
    let mut buffer = StringRingBuffer::default();
    assert_eq!(t.on_text(&mut buffer, 'a', false), None);
    assert_eq!(buffer.value(), "");
    t.add(id(1), "btw", OnTextOptions::default());
    for c in "xbt".chars() {
        assert_eq!(t.on_text(&mut buffer, c, false), None);
    }
    assert_eq!(buffer.value(), "xbt");
    assert_eq!(t.on_text(&mut buffer, 'w', true), None);
    assert_eq!(buffer.value(), "xbt");
    let (trigger, handlers) = t.on_text(&mut buffer, 'w', false).unwrap();
    assert_eq!((trigger.as_str(), handlers[0].id.raw()), ("btw", 1));
    assert_eq!(buffer.value(), "");
    for c in "abcdb".chars() {
        t.on_text(&mut buffer, c, false);
    }
    assert_eq!(buffer.value(), "cdb");
}

#[test]
fn keys_edit_the_typed_text() {
    let mut t = TextReplacements::new();
    t.add(id(1), "hello", OnTextOptions::default());
    let mut buffer = StringRingBuffer::default();
    for c in "helo".chars() {
        t.on_text(&mut buffer, c, false);
    }
    on_key(&mut buffer, key(JsStandardKey::Backspace, true, false));
    assert_eq!(buffer.value(), "helo");
    on_key(&mut buffer, key(JsStandardKey::Backspace, false, true));
    assert_eq!(buffer.value(), "helo");
    on_key(&mut buffer, key(JsStandardKey::Backspace, false, false));
    assert_eq!(buffer.value(), "hel");
    on_key(&mut buffer, key(JsStandardKey::Shift, false, false));
    assert_eq!(buffer.value(), "hel");
    assert!(t.on_text(&mut buffer, 'l', false).is_none());
    assert_eq!(t.on_text(&mut buffer, 'o', false).map(|(s, _)| s), Some("hello".to_string()));
    for c in "he".chars() {
        t.on_text(&mut buffer, c, false);
    }
    on_key(&mut buffer, key(JsStandardKey::LeftArrow, false, false));
    assert_eq!(buffer.value(), "");
    t.on_text(&mut buffer, 'x', false);
    on_key(&mut buffer, key(JsStandardKey::Escape, false, false));
    assert_eq!(buffer.value(), "");
}
