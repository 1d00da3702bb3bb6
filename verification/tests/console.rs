use actiona::callstack::{exception_message, parse_callstack, parse_callstack_line, FrameParseError};
use actiona::inspect::{args_to_pretty_string, args_to_string, inspect_string, print_value, print_value_pretty, Inspected};

fn shown(s: &str) -> Inspected {
    Inspected::Shown(s.to_string())
}

fn st(s: &str) -> Inspected {
    Inspected::Str(s.to_string())
}

#[test]
fn strings_are_quoted_and_escaped() {
    assert_eq!(inspect_string("it's"), "'it\\'s'");
    assert_eq!(inspect_string("a\nb\t\\"), "'a\\nb\\t\\\\'");
    assert_eq!(inspect_string("\u{1}\u{7f}\u{85}"), "'\\x01\\x7f\\xc2\\x85'");
    assert_eq!(inspect_string("\0\r"), "'\\0\\r'");
    assert_eq!(inspect_string("é👍"), "'é👍'");
}

#[test]
fn arrays_and_objects_on_one_line() {
    let v = Inspected::Array(vec![shown("1"), st("x"), Inspected::Array(vec![])]);
    assert_eq!(print_value(&v), "[ 1, 'x', [] ]");
    let o = Inspected::Object(vec![("a".to_string(), shown("1")), ("b".to_string(), Inspected::Object(vec![]))]);
    assert_eq!(print_value(&o), "{ a: 1, b: {} }");
    assert_eq!(print_value(&Inspected::Function("Function".to_string(), "".to_string())), "[Function (anonymous)]");
    assert_eq!(print_value(&Inspected::Function("AsyncFunction".to_string(), "go".to_string())), "[AsyncFunction: go]");
}

#[test]
fn pretty_form_indents() {
    let o = Inspected::Object(vec![
        ("foo".to_string(), shown("10")),
        ("list".to_string(), Inspected::Array(vec![shown("1"), shown("2")])),
    ]);
    assert_eq!(print_value_pretty(&o, 0), "{\n  foo: 10,\n  list: [\n    1,\n    2\n  ]\n}");
    assert_eq!(print_value_pretty(&shown("3"), 4), "3");
}

#[test]
fn arguments_join() {
    let args = vec![st("hello"), Inspected::Object(vec![("foo".to_string(), shown("10"))]), st("x")];
    assert_eq!(args_to_string(&args), "hello { foo: 10 } x");
    let pretty = vec![st("s"), Inspected::Array(vec![])];
    assert_eq!(args_to_pretty_string(&pretty), "'s'\n[]");
    assert_eq!(args_to_string(&vec![]), "");
}

#[test]
fn frame_with_function() {
    let f = parse_callstack_line("    at foo (script.ts:12:5)").unwrap();
    assert_eq!(f.to_display_string(), "    at foo (script.ts:12:5)");
}

#[test]
fn frame_without_function() {
    let f = parse_callstack_line("at /tmp/a b.js:1:2").unwrap();
    assert_eq!(f.to_display_string(), "    at  /tmp/a b.js:1:2");
}

#[test]
fn frame_function_is_shortest() {
    let f = parse_callstack_line(" at a (b (c:1:2)").unwrap();
    assert_eq!(f.to_display_string(), "    at a (b (c:1:2)");
    let g = parse_callstack_line("at new Foo (<eval>:3:10)").unwrap();
    assert_eq!(g.to_display_string(), "    at new Foo (<eval>:3:10)");
}

#[test]
fn malformed_frames() {
    assert_eq!(parse_callstack_line("foo").err(), Some(FrameParseError::Malformed));
    assert_eq!(parse_callstack_line("at file:1").err(), Some(FrameParseError::Malformed));
    assert_eq!(parse_callstack_line("at file:1:x").err(), Some(FrameParseError::Malformed));
    assert_eq!(parse_callstack_line("at:1:2").err(), Some(FrameParseError::Malformed));
    assert!(parse_callstack_line("at :1:2").is_ok());
    assert_eq!(parse_callstack_line("at f:1:99999999999").err(), Some(FrameParseError::Malformed));
    assert!(parse_callstack_line("at f:1:4294967295").is_ok());
}

#[test]
fn whole_stack_traces() {
    let frames = parse_callstack("    at foo (123:4:5)\r\n    at bar.ts:6:7\n").unwrap();
    let texts: Vec<String> = frames.iter().map(|f| f.to_display_string()).collect();
    assert_eq!(texts, vec!["    at foo (123:4:5)".to_string(), "    at  bar.ts:6:7".to_string()]);
    assert!(parse_callstack("").unwrap().is_empty());
    assert!(parse_callstack("    at foo (a:1:2)\nnot a frame\n").is_none());
    assert!(parse_callstack("    at foo (a:1:2)\n\n").is_none());
}

#[test]
fn frames_from_source_hashes() {
    let frames = parse_callstack("at f (+42:1:2)\nat g (x.ts:3:4)\nat h (18446744073709551616:1:1)\nat k (18446744073709551615:1:1)").unwrap();
    let hashes: Vec<Option<u64>> = frames.iter().map(|f| f.source_hash()).collect();
    assert_eq!(hashes, vec![Some(42), None, None, Some(u64::MAX)]);
    let moved = parse_callstack_line("at f (42:1:2)").unwrap().relocated("main.ts".to_string(), Some((10, 20)));
    assert_eq!(moved.to_display_string(), "    at f (main.ts:10:20)");
    let renamed = parse_callstack_line("at f (42:1:2)").unwrap().relocated("main.ts".to_string(), None);
    assert_eq!(renamed.to_display_string(), "    at f (main.ts:1:2)");
}

#[test]
fn exception_messages() {
    assert_eq!(exception_message("TypeError", "x is undefined"), "TypeError: x is undefined");
    assert_eq!(exception_message("Error", ""), "Error: ");
}

#[test]
fn test_log() {
    let a = Inspected::Object(vec![("foo".to_string(), shown("10"))]);
    assert_eq!(args_to_string(&vec![st("hello"), a]), "hello { foo: 10 }");
}

#[test]
fn test_exception_values_use_js_to_string() {
    let value = shown(&exception_message("Error", "Failed quickly"));
    assert_eq!(print_value(&value), "Error: Failed quickly");
}

#[test]
fn test_array_values_use_node_style_format() {
    let value = Inspected::Array(vec![shown("4"), shown("6")]);
    assert_eq!(print_value(&value), "[ 4, 6 ]");
}

#[test]
fn test_object_values_use_node_style_format() {
    let value = Inspected::Object(vec![("a".to_string(), shown("1")), ("b".to_string(), st("x"))]);
    assert_eq!(print_value(&value), "{ a: 1, b: 'x' }");
}

#[test]
fn test_named_function_values_use_node_style_format() {
    let value = Inspected::Function("Function".to_string(), "move".to_string());
    assert_eq!(print_value(&value), "[Function: move]");
}

#[test]
fn test_anonymous_function_values_use_node_style_format() {
    let value = Inspected::Function("Function".to_string(), String::new());
    assert_eq!(print_value(&value), "[Function (anonymous)]");
}

#[test]
fn test_pretty_print_uses_multiline_format() {
    let value = Inspected::Object(vec![
        ("a".to_string(), shown("1")),
        ("b".to_string(), Inspected::Array(vec![shown("2"), Inspected::Object(vec![("c".to_string(), st("x"))])])),
    ]);
    assert_eq!(
        args_to_pretty_string(&vec![value]),
        "{\n  a: 1,\n  b: [\n    2,\n    {\n      c: 'x'\n    }\n  ]\n}"
    );
}

#[test]
fn frame_text_reads_back() {
    for text in ["    at foo (script.ts:12:5)", "    at new Foo (<eval>:3:10)", "    at a) (c:d:0:4294967295)"] {
        let f = parse_callstack_line(text).unwrap();
        let shown = f.to_display_string();
        assert_eq!(shown, text);
        assert_eq!(parse_callstack_line(&shown).unwrap().to_display_string(), shown);
    }
}

#[test]
fn trimmed_frame_text_reads_back() {
    let f = parse_callstack_line("    at run (main.js:7:21)").unwrap();
    let shown = f.to_display_string();
    let g = parse_callstack_line(shown.trim()).unwrap();
    assert_eq!(g.to_display_string(), shown);
}
