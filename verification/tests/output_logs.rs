use grabit::error::{ledger_read_message, ledger_write_message, raw_io_message};
use grabit::logs::{LogEntry, LogLevel, NewLog};
use grabit::output::{GbBufferedOutput, GbOutput, GbOutputKind, GbOutputT, GbSingleOutput, OutputColor, OutputStream};
use grabit::reference::Timestamp;

fn plain_or_colored(text: &str, plain: &str, code: &str) -> bool {
    text == plain || text == format!("\x1B[{code}m{plain}\x1B[0m")
}

#[test]
fn formatted_per_kind() {
    assert_eq!(GbOutputKind::Info.formatted(), (OutputStream::Stdout, " [I]: ", OutputColor::Blue));
    assert_eq!(GbOutputKind::Error.formatted(), (OutputStream::Stderr, " [E]: ", OutputColor::Red));
    assert_eq!(GbOutputKind::Warning.formatted(), (OutputStream::Stderr, " [W]: ", OutputColor::Yellow));
    assert_eq!(GbOutputKind::Success.formatted(), (OutputStream::Stdout, " [S]: ", OutputColor::Green));
}

#[test]
fn single_output_renders_prefix_and_message() {
    let o = GbSingleOutput::new(GbOutputKind::Warning, "disk almost full");
    assert_eq!(o.kind(), Some(GbOutputKind::Warning));
    assert_eq!(o.message(), "disk almost full");
    let line = o.render().unwrap();
    assert_eq!(line.stream, OutputStream::Stderr);
    assert!(plain_or_colored(&line.text, " [W]: disk almost full", "33"));
}

#[test]
fn render_colours_each_kind() {
    for (kind, prefix, code) in [
        (GbOutputKind::Info, " [I]: ", "34"),
        (GbOutputKind::Error, " [E]: ", "31"),
        (GbOutputKind::Success, " [S]: ", "32"),
    ] {
        let line = GbSingleOutput::new(kind, "m").render().unwrap();
        assert!(plain_or_colored(&line.text, &format!("{prefix}m"), code));
    }
}

#[test]
fn buffered_output_counts_and_keeps_order() {
    let mut b = GbBufferedOutput::new();
    assert_eq!(b.message(), "GbBufferedOutput(0 elements)");
    assert_eq!(b.kind(), None);
    assert!(b.render().is_none());
    b.add(GbOutput::Single(GbSingleOutput::new(GbOutputKind::Info, "first")));
    b.add(GbOutput::Single(GbSingleOutput::new(GbOutputKind::Error, "second")));
    assert_eq!(b.message(), "GbBufferedOutput(2 elements)");
    let msgs: Vec<&str> = b.outputs().iter().map(|o| o.message()).collect();
    assert_eq!(msgs, vec!["first", "second"]);
}

#[test]
fn buffered_output_nests() {
    let mut inner = GbBufferedOutput::default();
    inner.add(GbOutput::Single(GbSingleOutput::new(GbOutputKind::Info, "x")));
    let mut outer = GbBufferedOutput::new();
    outer.add(GbOutput::Buffered(inner));
    assert_eq!(outer.message(), "GbBufferedOutput(1 elements)");
    assert_eq!(outer.outputs()[0].message(), "GbBufferedOutput(1 elements)");
    assert_eq!(outer.outputs()[0].kind(), None);
}

#[test]
fn buffered_count_reaches_two_digits() {
    let mut b = GbBufferedOutput::new();
    for i in 0..12 {
        b.add(GbOutput::Single(GbSingleOutput::new(GbOutputKind::Info, &i.to_string())));
    }
    assert_eq!(b.message(), "GbBufferedOutput(12 elements)");
}

#[test]
fn log_level_maps_to_output_kind() {
    assert_eq!(LogLevel::Info.to_output(), GbOutputKind::Info);
    assert_eq!(LogLevel::Command.to_output(), GbOutputKind::Info);
    assert_eq!(LogLevel::Error.to_output(), GbOutputKind::Error);
    assert_eq!(LogLevel::Warning.to_output(), GbOutputKind::Warning);
}

#[test]
fn log_level_text_roundtrip() {
    for l in [LogLevel::Info, LogLevel::Error, LogLevel::Warning, LogLevel::Command] {
        assert_eq!(LogLevel::from_text(l.as_text()), Some(l));
    }
    assert_eq!(LogLevel::Warning.as_text(), "WARNING");
    assert_eq!(LogLevel::from_text("info"), None);
    assert_eq!(LogLevel::from_text(""), None);
}

#[test]
fn new_log_keeps_fields() {
    let l = NewLog::new(LogLevel::Command, "grab file");
    assert_eq!(l.level, LogLevel::Command);
    assert_eq!(l.message, "grab file");
}

#[test]
fn log_entry_getters_and_output() {
    let t = Timestamp { secs: 1_700_000_000, nanos: 5 };
    let e = LogEntry::from_parts(7, LogLevel::Command, "did it".to_string(), t);
    assert_eq!(e.id(), 7);
    assert_eq!(e.level(), LogLevel::Command);
    assert_eq!(e.message(), "did it");
    assert_eq!(e.created(), t);
    let o = e.to_output();
    assert_eq!(o.kind(), Some(GbOutputKind::Info));
    assert_eq!(o.message(), "did it");
}

#[test]
fn render_follows_colour_switch() {
    colored::control::set_override(true);
    let line = GbSingleOutput::new(GbOutputKind::Error, "bad").render().unwrap();
    assert_eq!(line.text, "\x1B[31m [E]: bad\x1B[0m");
    assert_eq!(line.stream, OutputStream::Stderr);
    let line = GbSingleOutput::new(GbOutputKind::Success, "ok").render().unwrap();
    assert_eq!(line.text, "\x1B[32m [S]: ok\x1B[0m");
    colored::control::set_override(false);
    let line = GbSingleOutput::new(GbOutputKind::Info, "hi").render().unwrap();
    assert_eq!(line.text, " [I]: hi");
    colored::control::unset_override();
}

#[test]
fn render_all_flattens_in_order() {
    colored::control::set_override(false);
    let mut inner = GbBufferedOutput::new();
    inner.add(GbOutput::Single(GbSingleOutput::new(GbOutputKind::Warning, "b")));
    inner.add(GbOutput::Single(GbSingleOutput::new(GbOutputKind::Error, "c")));
    let mut outer = GbBufferedOutput::new();
    outer.add(GbOutput::Single(GbSingleOutput::new(GbOutputKind::Info, "a")));
    outer.add(GbOutput::Buffered(inner));
    outer.add(GbOutput::Buffered(GbBufferedOutput::new()));
    outer.add(GbOutput::Single(GbSingleOutput::new(GbOutputKind::Success, "d")));
    let lines = GbOutput::Buffered(outer).render_all();
    let got: Vec<(OutputStream, String)> = lines.into_iter().map(|l| (l.stream, l.text)).collect();
    assert_eq!(
        got,
        vec![
            (OutputStream::Stdout, " [I]: a".to_string()),
            (OutputStream::Stderr, " [W]: b".to_string()),
            (OutputStream::Stderr, " [E]: c".to_string()),
            (OutputStream::Stdout, " [S]: d".to_string()),
        ]
    );
    let single = GbOutput::Single(GbSingleOutput::new(GbOutputKind::Info, "x")).render_all();
    assert_eq!(single.len(), 1);
    assert_eq!(single[0].text, " [I]: x");
    colored::control::unset_override();
}

#[test]
fn ledger_and_raw_messages_from_cause() {
    assert_eq!(raw_io_message("/p", "disk gone"), "IO Error at '/p': disk gone");
    assert_eq!(ledger_read_message("/l", "eof"), "Failed to read ledger file at '/l': eof");
    assert_eq!(ledger_write_message("/l", "full"), "Failed to write ledger file at '/l': full");
}
