use actiona::text_replacements::{ends_with, find_trigger, grapheme_count, max_grapheme_count, OnTextOptions};
use actiona::raster::Image;
use actiona::text_replacements::{grapheme_prefix_len, replacement_plan, ReplacementData, StringRingBuffer};
use unicode_segmentation::UnicodeSegmentation;

#[test]
fn test_grapheme_prefix_len() {
    assert_eq!(grapheme_prefix_len("", "abc"), 0);
    assert_eq!(grapheme_prefix_len("a", "abc"), 1);
    assert_eq!(grapheme_prefix_len("abcd", "abc"), 3);
    assert_eq!(grapheme_prefix_len("", ""), 0);
}

#[test]
fn ascii_basic() {
    let mut ring_buffer = StringRingBuffer::new(3);
    ring_buffer.add_str("abc");
    assert_eq!(ring_buffer.value(), "abc");
    ring_buffer.add_char('d');
    assert_eq!(ring_buffer.value(), "bcd");
    ring_buffer.add_str("ef");
    assert_eq!(ring_buffer.value(), "def");
}

#[test]
fn combining_mark_counts_as_one_grapheme() {
    let mut ring_buffer = StringRingBuffer::new(1);
    let composed = "e\u{0302}";
    assert_eq!(composed.graphemes(true).count(), 1);
    ring_buffer.add_str(composed);
    assert_eq!(ring_buffer.value().graphemes(true).count(), 1);
    assert_eq!(ring_buffer.value(), composed);
}

#[test]
fn emoji_with_skin_tone_is_one_grapheme() {
    let mut ring_buffer = StringRingBuffer::new(1);
    let grapheme = "👍🏽";
    assert_eq!(grapheme.graphemes(true).count(), 1);
    ring_buffer.add_str(grapheme);
    assert_eq!(ring_buffer.value(), grapheme);
    ring_buffer.add_str("A");
    assert_eq!(ring_buffer.value(), "A");
}

#[test]
fn zwj_sequence_is_one_grapheme() {
    let mut ring_buffer = StringRingBuffer::new(2);
    let emoji = "👨‍👩‍👧‍👦";
    assert_eq!(emoji.graphemes(true).count(), 1);
    ring_buffer.add_str(emoji);
    ring_buffer.add_str("X");
    assert_eq!(ring_buffer.value(), format!("{emoji}X"));
}

#[test]
fn flag_is_one_grapheme_two_scalars() {
    let mut ring_buffer = StringRingBuffer::new(2);
    let flag = "🇬🇧";
    assert_eq!(flag.chars().count(), 2);
    assert_eq!(flag.graphemes(true).count(), 1);
    ring_buffer.add_str("A");
    ring_buffer.add_str(flag);
    assert_eq!(ring_buffer.value(), format!("A{flag}"));
    ring_buffer.add_str("B");
    assert_eq!(ring_buffer.value(), format!("{flag}B"));
}

#[test]
fn shrinking_and_expanding_max() {
    let mut ring_buffer = StringRingBuffer::new(5);
    ring_buffer.add_str("abcde");
    assert_eq!(ring_buffer.value(), "abcde");
    ring_buffer.set_max_grapheme_count(2);
    assert_eq!(ring_buffer.value(), "de");
    ring_buffer.set_max_grapheme_count(4);
    ring_buffer.add_str("FG");
    assert_eq!(ring_buffer.value(), "deFG");
}

#[test]
fn zero_max_results_empty() {
    let mut ring_buffer = StringRingBuffer::new(0);
    ring_buffer.add_str("whatever 👍🏽");
    assert_eq!(ring_buffer.value(), "");
    ring_buffer.set_max_grapheme_count(1);
    ring_buffer.add_str("X");
    assert_eq!(ring_buffer.value(), "X");
}

#[test]
fn pop_removes_whole_grapheme() {
    let mut ring_buffer = StringRingBuffer::new(5);
    ring_buffer.add_str("a👍🏽");
    ring_buffer.pop();
    assert_eq!(ring_buffer.value(), "a");
    ring_buffer.pop();
    assert_eq!(ring_buffer.value(), "");
    ring_buffer.pop();
    assert_eq!(ring_buffer.value(), "");
}

#[test]
fn clear_keeps_limit() {
    let mut ring_buffer = StringRingBuffer::new(2);
    ring_buffer.add_str("abc");
    ring_buffer.clear();
    assert_eq!(ring_buffer.value(), "");
    ring_buffer.add_str("xyz");
    assert_eq!(ring_buffer.value(), "yz");
}

#[test]
fn default_buffer_keeps_nothing() {
    let mut ring_buffer = StringRingBuffer::default();
    ring_buffer.add_char('a');
    assert_eq!(ring_buffer.value(), "");
    ring_buffer.add_char_and_set_max_graphemes('b', 2);
    assert_eq!(ring_buffer.value(), "b");
    ring_buffer.add_char_and_set_max_graphemes('c', 2);
    assert_eq!(ring_buffer.value(), "bc");
}

#[test]
fn plan_keeps_shared_prefix() {
    let (backspaces, data) = replacement_plan("btw", ReplacementData::Text("by the way".to_string()), true);
    assert_eq!(backspaces, 2);
    match data {
        ReplacementData::Text(text) => assert_eq!(text, "y the way"),
        _ => panic!("expected text"),
    }
}

#[test]
fn plan_without_erase_sends_no_backspace() {
    let (backspaces, data) = replacement_plan("btw", ReplacementData::Text("by the way".to_string()), false);
    assert_eq!(backspaces, 0);
    match data {
        ReplacementData::Text(text) => assert_eq!(text, "by the way"),
        _ => panic!("expected text"),
    }
}

#[test]
fn plan_for_image_and_nothing_erases_whole_trigger() {
    let (backspaces, data) = replacement_plan("x👍🏽y", ReplacementData::Image(Image::new(1, 1)), true);
    assert_eq!(backspaces, 3);
    assert!(matches!(data, ReplacementData::Image(_)));
    let (backspaces, data) = replacement_plan("abc", ReplacementData::Nothing, true);
    assert_eq!(backspaces, 3);
    assert!(matches!(data, ReplacementData::Nothing));
}

#[test]
fn trigger_search_and_sizes() {
    assert_eq!(grapheme_count("a👍🏽e\u{302}"), 3);
    assert_eq!(max_grapheme_count(&vec!["btw".to_string(), "👍🏽x".to_string()]), 3);
    assert_eq!(max_grapheme_count(&vec![]), 0);
    assert!(ends_with("hello btw", "btw"));
    assert!(!ends_with("bt", "btw"));
    assert!(ends_with("x", ""));
    let triggers = vec!["abtw".to_string(), "btw".to_string(), "w".to_string()];
    assert_eq!(find_trigger("xbtw", &triggers), Some(1));
    assert_eq!(find_trigger("q", &triggers), None);
    let o = OnTextOptions::default();
    assert!(o.erase && !o.use_clipboard_for_text && o.save_restore_clipboard);
}
