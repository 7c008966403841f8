use turbo_tracing::event::{Event, Field};
use turbo_tracing::formatter::{
    format_plain, record_debug, write_message, write_prefix, write_string, TurboFormatter,
};
use turbo_tracing::color::{paint, Background, Foreground};
use turbo_tracing::clock::{local_timestamp, timestamp_format};
use turbo_tracing::level::Level;

const STAMP: &str = "2024-05-06T07:08:09.123+0200";

fn line(is_ansi: bool, level: Level, target: &str, message: &str, timestamp: &str) -> String {
    let mut out = String::new();
    TurboFormatter::new_with_ansi(is_ansi).format_event(
        &mut out,
        &Event::new(level, target, message),
        timestamp,
    );
    out
}

#[test]
fn error_line_without_colors() {
    assert_eq!(line(false, Level::Error, "turbo", "task failed", STAMP), " ERROR  task failed\n");
}

#[test]
fn warning_line_without_colors() {
    assert_eq!(line(false, Level::Warn, "turbo", "cache miss", STAMP), " WARNING  cache miss\n");
}

#[test]
fn info_line_is_the_message_alone() {
    assert_eq!(line(false, Level::Info, "turbo", "build finished", STAMP), "build finished\n");
    assert_eq!(line(true, Level::Info, "turbo", "build finished", STAMP), "build finished\n");
}

#[test]
fn debug_and_trace_lines_show_time_level_and_target() {
    assert_eq!(
        line(false, Level::Debug, "turborepo_lib::run", "hashing", STAMP),
        "2024-05-06T07:08:09.123+0200 [DEBUG] turborepo_lib::run: hashing\n"
    );
    assert_eq!(
        line(false, Level::Trace, "turborepo_lib::run", "hashing", STAMP),
        "2024-05-06T07:08:09.123+0200 [TRACE] turborepo_lib::run: hashing\n"
    );
    assert_eq!(
        line(true, Level::Debug, "t", "m", STAMP),
        "2024-05-06T07:08:09.123+0200 [DEBUG] t: m\n"
    );
}

#[test]
fn error_line_with_colors() {
    assert_eq!(
        line(true, Level::Error, "turbo", "task failed", STAMP),
        "\u{1b}[31;40m ERROR \u{1b}[0m \u{1b}[31;49mtask failed\u{1b}[0m\n"
    );
}

#[test]
fn warning_line_with_colors() {
    assert_eq!(
        line(true, Level::Warn, "turbo", "cache miss", STAMP),
        "\u{1b}[33;40m WARNING \u{1b}[0m \u{1b}[33;49mcache miss\u{1b}[0m\n"
    );
}

#[test]
fn paint_writes_the_sequences_of_each_color_pair() {
    assert_eq!(paint(Foreground::Red, Background::Black, "x"), "\u{1b}[31;40mx\u{1b}[0m");
    assert_eq!(paint(Foreground::Yellow, Background::Black, "x"), "\u{1b}[33;40mx\u{1b}[0m");
    assert_eq!(paint(Foreground::Red, Background::Default, "x"), "\u{1b}[31;49mx\u{1b}[0m");
    assert_eq!(paint(Foreground::Yellow, Background::Default, "x"), "\u{1b}[33;49mx\u{1b}[0m");
    assert_eq!(paint(Foreground::Red, Background::Black, ""), "\u{1b}[31;40m\u{1b}[0m");
}

#[test]
fn no_escape_sequences_without_colors_at_any_level() {
    for level in [Level::Error, Level::Warn, Level::Info, Level::Debug, Level::Trace] {
        let out = line(false, level, "turborepo_lib", "all good", STAMP);
        assert!(!out.contains('\u{1b}'));
        assert!(out.ends_with("all good\n"));
    }
}

#[test]
fn colors_change_nothing_but_the_sequences() {
    for level in [Level::Error, Level::Warn] {
        let plain = line(false, level, "t", "msg", STAMP);
        let colored = line(true, level, "t", "msg", STAMP);
        let stripped = colored
            .replace("\u{1b}[31;40m", "")
            .replace("\u{1b}[33;40m", "")
            .replace("\u{1b}[31;49m", "")
            .replace("\u{1b}[33;49m", "")
            .replace("\u{1b}[0m", "");
        assert_eq!(stripped, plain);
    }
}

#[test]
fn only_the_message_field_is_rendered() {
    let mut event = Event::new(Level::Info, "turbo", "build finished");
    event.record("duration_ms", "1234");
    event.record("cached", "true");
    let mut out = String::new();
    TurboFormatter::new_with_ansi(false).format_event(&mut out, &event, STAMP);
    assert_eq!(out, "build finished\n");
}

#[test]
fn event_without_a_message_is_an_empty_line() {
    let event = Event {
        level: Level::Error,
        target: "turbo".to_string(),
        fields: vec![Field::new("code", "7")],
    };
    let mut out = String::new();
    TurboFormatter::new_with_ansi(false).format_event(&mut out, &event, STAMP);
    assert_eq!(out, " ERROR  \n");
}

#[test]
fn message_may_stand_anywhere_among_the_fields() {
    let event = Event {
        level: Level::Warn,
        target: "turbo".to_string(),
        fields: vec![Field::new("a", "1"), Field::new("message", "late"), Field::new("b", "2")],
    };
    let mut out = String::new();
    TurboFormatter::new_with_ansi(false).format_event(&mut out, &event, STAMP);
    assert_eq!(out, " WARNING  late\n");
}

#[test]
fn format_event_appends_to_what_is_there() {
    let formatter = TurboFormatter::new_with_ansi(false);
    let mut out = String::from("kept|");
    formatter.format_event(&mut out, &Event::new(Level::Info, "t", "one"), STAMP);
    formatter.format_event(&mut out, &Event::new(Level::Error, "t", "two"), STAMP);
    assert_eq!(out, "kept|one\n ERROR  two\n");
}

#[test]
fn empty_message_and_target() {
    assert_eq!(line(false, Level::Info, "", "", STAMP), "\n");
    assert_eq!(line(false, Level::Debug, "", "", ""), " [DEBUG] : \n");
}

#[test]
fn message_is_rendered_as_it_is() {
    assert_eq!(
        line(false, Level::Info, "t", "tabs\tand \"quotes\" and ünïcödé", STAMP),
        "tabs\tand \"quotes\" and ünïcödé\n"
    );
}

#[test]
fn new_with_ansi_remembers_the_flag() {
    assert!(TurboFormatter::new_with_ansi(true).is_ansi());
    assert!(!TurboFormatter::new_with_ansi(false).is_ansi());
}

#[test]
fn write_string_adds_one_space() {
    let mut out = String::new();
    write_string(&mut out, false, Foreground::Red, Background::Black, " ERROR ");
    assert_eq!(out, " ERROR  ");
    let mut out = String::from(">");
    write_string(&mut out, true, Foreground::Yellow, Background::Black, " WARNING ");
    assert_eq!(out, ">\u{1b}[33;40m WARNING \u{1b}[0m ");
}

#[test]
fn record_debug_writes_the_message_only() {
    let mut out = String::new();
    record_debug(&mut out, None, &Field::new("message", "hello"));
    assert_eq!(out, "hello");
    record_debug(&mut out, None, &Field::new("other", "ignored"));
    assert_eq!(out, "hello");
    record_debug(&mut out, Some(Foreground::Red), &Field::new("message", "again"));
    assert_eq!(out, "hello\u{1b}[31;49magain\u{1b}[0m");
    record_debug(&mut out, Some(Foreground::Red), &Field::new("Message", "case matters"));
    assert_eq!(out, "hello\u{1b}[31;49magain\u{1b}[0m");
}

#[test]
fn write_message_ends_the_line() {
    let mut out = String::new();
    write_message(&mut out, None, &Event::new(Level::Info, "t", "done"));
    assert_eq!(out, "done\n");
    let mut out = String::new();
    write_message(&mut out, Some(Foreground::Yellow), &Event::new(Level::Warn, "t", "done"));
    assert_eq!(out, "\u{1b}[33;49mdone\u{1b}[0m\n");
}

#[test]
fn write_prefix_layout() {
    let mut out = String::new();
    write_prefix(&mut out, "12:00", Level::Trace, "a::b");
    assert_eq!(out, "12:00 [TRACE] a::b: ");
}

#[test]
fn file_line_has_the_debug_layout_at_every_level() {
    for (level, name) in [
        (Level::Error, "ERROR"),
        (Level::Warn, "WARN"),
        (Level::Info, "INFO"),
        (Level::Debug, "DEBUG"),
        (Level::Trace, "TRACE"),
    ] {
        let mut event = Event::new(level, "turborepo_lib::daemon", "started");
        event.record("pid", "42");
        let mut out = String::new();
        format_plain(&mut out, &event, STAMP);
        assert_eq!(out, format!("{} [{}] turborepo_lib::daemon: started\n", STAMP, name));
    }
}

#[test]
fn format_event_now_reads_the_clock_for_debug_lines() {
    let formatter = TurboFormatter::new_with_ansi(false);
    let mut out = String::new();
    formatter.format_event_now(&mut out, &Event::new(Level::Debug, "a::b", "tick"));
    let tail = " [DEBUG] a::b: tick\n";
    assert!(out.ends_with(tail));
    let stamp = &out[..out.len() - tail.len()];
    assert!(!stamp.is_empty());
    assert!(!stamp.contains('%'));
    assert!(stamp.contains('T'));
}

#[test]
fn format_event_now_needs_no_clock_for_other_lines() {
    let formatter = TurboFormatter::new_with_ansi(false);
    let mut out = String::new();
    formatter.format_event_now(&mut out, &Event::new(Level::Info, "t", "build finished"));
    formatter.format_event_now(&mut out, &Event::new(Level::Error, "t", "task failed"));
    assert_eq!(out, "build finished\n ERROR  task failed\n");
}

#[test]
fn timestamp_layout() {
    assert_eq!(timestamp_format(), "%Y-%m-%dT%H:%M:%S.%3f%z");
}

fn is_timestamp(stamp: &str) -> bool {
    let chars: Vec<char> = stamp.chars().collect();
    if chars.len() < 28 {
        return false;
    }
    let y = chars.len() - 24;
    let digits = |from: usize, to: usize| chars[from..to].iter().all(|c| c.is_ascii_digit());
    let year = (y == 4 && digits(0, 4)) || (y >= 6 && chars[0] == '+' && digits(1, y));
    year
        && chars[y] == '-'
        && digits(y + 1, y + 3)
        && chars[y + 3] == '-'
        && digits(y + 4, y + 6)
        && chars[y + 6] == 'T'
        && digits(y + 7, y + 9)
        && chars[y + 9] == ':'
        && digits(y + 10, y + 12)
        && chars[y + 12] == ':'
        && digits(y + 13, y + 15)
        && chars[y + 15] == '.'
        && digits(y + 16, y + 19)
        && (chars[y + 19] == '+' || chars[y + 19] == '-')
        && digits(y + 20, y + 24)
}

#[test]
fn local_timestamp_is_a_formatted_time() {
    let stamp = local_timestamp();
    assert_ne!(stamp, timestamp_format());
    assert!(is_timestamp(&stamp), "{:?}", stamp);
    assert!(is_timestamp(STAMP));
    assert!(!is_timestamp(timestamp_format()));
    assert!(!is_timestamp(""));
}

#[test]
fn debug_line_starts_with_a_formatted_time() {
    let formatter = TurboFormatter::new_with_ansi(true);
    let mut out = String::new();
    formatter.format_event_now(&mut out, &Event::new(Level::Trace, "a::b", "tick"));
    let tail = " [TRACE] a::b: tick\n";
    assert!(out.ends_with(tail));
    assert!(is_timestamp(&out[..out.len() - tail.len()]), "{:?}", out);
}
