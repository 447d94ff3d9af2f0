use mail_session::events::Event;
use mail_session::log::{error, full_line, info, warn};
use mail_session::text::{decimal, pad_left, pad_right};

#[test]
fn decimal_writes_what_reads_back() {
    for n in [0u64, 9, 10, 99, 100, 4711, u64::MAX] {
        assert_eq!(decimal(n), format!("{}", n));
        assert_eq!(decimal(n).parse::<u64>().unwrap(), n);
    }
}

#[test]
fn padding_counts_characters() {
    assert_eq!(pad_right("ab", 4), "ab  ");
    assert_eq!(pad_left("ab", 4), "  ab");
    assert_eq!(pad_right("abcde", 4), "abcde");
    assert_eq!(pad_left("", 0), "");
    assert_eq!(pad_left("\u{e4}\u{f6}", 3), " \u{e4}\u{f6}");
}

#[test]
fn padding_again_changes_nothing() {
    let once = pad_right("ThreadId(1)", 12);
    assert_eq!(pad_right(&once, 12), once);
    let once = pad_left("7", 4);
    assert_eq!(pad_left(&once, 4), once);
}

#[test]
fn full_line_has_columns() {
    assert_eq!(
        full_line("ThreadId(2)", "src/imap/idle.rs", 42, "hello"),
        "ThreadId(2)  src/imap/idle.rs     :  42: hello"
    );
    assert_eq!(
        full_line("ThreadId(2)", "src/imap/idle.rs", 42, "hello"),
        format!("{:12} {:21}:{:4}: {}", "ThreadId(2)", "src/imap/idle.rs", 42, "hello")
    );
}

#[test]
fn messages_start_at_one_column() {
    for (thread, file, line) in [("", "", 0u32), ("ThreadId(1)", "src/lib.rs", 9999)] {
        let full = full_line(thread, file, line, "message");
        assert_eq!(&full[41..], "message");
    }
}

#[test]
fn long_items_are_not_cut() {
    assert_eq!(
        full_line("ThreadId(123456)", "src/a/rather/long/path.rs", 123456, "x"),
        "ThreadId(123456) src/a/rather/long/path.rs:123456: x"
    );
}

#[test]
fn levels_give_their_events() {
    let full = full_line("t", "f", 1, "m");
    assert!(matches!(info("t", "f", 1, "m"), Event::Info(text) if text == full));
    assert!(matches!(warn("t", "f", 1, "m"), Event::Warning(text) if text == full));
    assert!(matches!(error("m".to_string()), Event::Error(text) if text == "m"));
}
