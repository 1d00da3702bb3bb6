use actiona::text::trimmed_string;
use actiona::units::{ByteCount, OptionalByteCount, OptionalString};
use actiona::labels::{count, default_label, end_timer, timer_ended_line, timer_ended_message, LabelMap};
use actiona::updater::{detect_display, next_check_after, next_step, retry_delay, update_query, version_to_store, LinuxDisplay, QueryFacts, UpdaterStep};

#[test]
fn counters_count_up() {
    let mut counters: LabelMap<usize> = LabelMap::new();
    assert_eq!(count(&mut counters, "loop".to_string()), "loop: 1");
    assert_eq!(count(&mut counters, "loop".to_string()), "loop: 2");
    assert_eq!(count(&mut counters, default_label(None)), "default: 1");
    assert_eq!(counters.get(&"loop".to_string()), Some(&2));
}

#[test]
fn timers_start_and_end() {
    let mut timers: LabelMap<u32> = LabelMap::new();
    timers.insert("t".to_string(), 5);
    timers.insert("t".to_string(), 6);
    assert_eq!(end_timer(&mut timers, &"t".to_string()), Ok(6));
    assert_eq!(end_timer(&mut timers, &"t".to_string()), Err("Timer \"t\" doesn't exist.".to_string()));
    assert_eq!(timer_ended_message("fetch", "1s 234ms"), "fetch: 1s 234ms - timer ended");
    assert_eq!(timer_ended_line("fetch", 1, 234_000_000), "fetch: 1s 234ms - timer ended");
}

#[test]
fn updater_schedule() {
    assert_eq!(next_step(100, None), UpdaterStep::Check);
    assert_eq!(next_step(100, Some(100)), UpdaterStep::Check);
    assert_eq!(next_step(100, Some(150)), UpdaterStep::Wait(50));
    assert_eq!(retry_delay(false), 3_600_000_000_000);
    assert_eq!(retry_delay(true), 24 * 86_400_000_000_000);
    assert_eq!(next_check_after(10, false), 10 + 3_600_000_000_000);
    assert_eq!(version_to_store(true, Some(3)), Some(3));
    assert_eq!(version_to_store(false, Some(3)), None);
}

#[test]
fn display_detection() {
    assert_eq!(detect_display(Some("wayland".to_string()), false, true), Some(LinuxDisplay::Wayland));
    assert_eq!(detect_display(Some("x11".to_string()), true, false), Some(LinuxDisplay::X11));
    assert_eq!(detect_display(Some("tty".to_string()), true, true), Some(LinuxDisplay::XWayland));
    assert_eq!(detect_display(None, false, true), Some(LinuxDisplay::X11));
    assert_eq!(detect_display(None, false, false), None);
}

#[test]
fn query_order() {
    let q = update_query(QueryFacts {
        app: "actiona-run".to_string(),
        client_id: None,
        app_channel: "stable".to_string(),
        app_version: "1.2.3".to_string(),
        os_name: "linux".to_string(),
        os_distribution: "debian".to_string(),
        os_version: Some("12".to_string()),
        os_arch: "x86_64".to_string(),
        os_locale: None,
        os_display: Some(LinuxDisplay::XWayland),
    });
    let keys: Vec<&str> = q.iter().map(|(k, _)| k.as_str()).collect();
    assert_eq!(keys, vec!["app", "app_channel", "app_version", "os_name", "os_distribution", "os_version", "os_arch", "os_locale", "os_display", "app_distribution", "app_locale"]);
    assert_eq!(q[7].1, "en");
    assert_eq!(q[8].1, "xwayland");
    assert_eq!(q[9].1, "unknown");
}

#[test]
fn descriptions_are_cleaned() {
    assert_eq!(OptionalString::from_text(Some("  Default string \n")).0, None);
    assert_eq!(OptionalString::from_text(Some("\u{a0}Dell\t")).0, Some("Dell".to_string()));
    assert_eq!(OptionalString::from_text(Some("   ")).0, None);
    assert_eq!(OptionalString::from_text(None).0, None);
    assert_eq!(OptionalString::from_string(Some(" Not Specified".to_string())).0, None);
    assert_eq!(OptionalString::from_string(Some("Board 7 ".to_string())).0, Some("Board 7".to_string()));
    assert_eq!(trimmed_string("\u{3000} a b \r\n"), "a b");
    assert_eq!(ByteCount::from(1024u32).display_text(), humansize::format_size(1024u64, humansize::BINARY));
    assert_eq!(ByteCount::from(1536u32).display_text(), "1.50 KiB");
}

#[test]
fn absent_values_show_as_none() {
    assert_eq!(OptionalString::none().display_text(), "<NONE>");
    assert_eq!(OptionalString::from_text(Some(" Dell ")).display_text(), "Dell");
    assert_eq!(OptionalByteCount::from(None).display_text(), "<NONE>");
    assert_eq!(OptionalByteCount::from(Some(1024u32)).display_text(), ByteCount::from(1024u32).display_text());
}
