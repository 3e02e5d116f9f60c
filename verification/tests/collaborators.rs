use atomic_state::config::{config_format, ConfigFormat};
use atomic_state::lines::{split_lines, split_tail_lines};
use atomic_state::logger::{
    format_log_line, level_color, level_enabled, level_name, rotation_excess, should_log,
    unread_lines, LogLevel,
};
use atomic_state::tail::TailQueue;
use atomic_state::wake::should_park;
use atomic_state::Error;

fn lines_vec(text: &str) -> Vec<Vec<u8>> {
    split_lines(&text.as_bytes().to_vec())
}

fn as_strings(lines: Vec<Vec<u8>>) -> Vec<String> {
    lines
        .into_iter()
        .map(|l| String::from_utf8(l).unwrap())
        .collect()
}

#[test]
fn split_lines_matches_std_lines() {
    let cases = [
        "",
        "a",
        "a\n",
        "a\nb",
        "a\nb\n",
        "a\r\nb\r\n",
        "a\r\n\r\nb",
        "\n\n",
        "one line, no ending",
        "trailing return only\r",
        "mix\r\nof\nendings\r\n",
    ];
    for text in cases {
        let expected: Vec<String> = text.lines().map(|l| l.to_string()).collect();
        assert_eq!(as_strings(lines_vec(text)), expected, "case {:?}", text);
    }
}

#[test]
fn split_tail_lines_keeps_segments_and_skips_empties() {
    let got = as_strings(split_tail_lines(&b"a\nb".to_vec()));
    assert_eq!(got, vec!["a", "b"]);
    let got = as_strings(split_tail_lines(&b"a\n\nb\n".to_vec()));
    assert_eq!(got, vec!["a", "b"]);
    // carriage returns are kept as they stand
    let got = as_strings(split_tail_lines(&b"a\r\n".to_vec()));
    assert_eq!(got, vec!["a\r"]);
    let got = split_tail_lines(&b"\n\n\n".to_vec());
    assert!(got.is_empty());
}

#[test]
fn config_format_dispatches_case_insensitively() {
    assert_eq!(config_format("toml").unwrap(), ConfigFormat::Toml);
    assert_eq!(config_format("TOML").unwrap(), ConfigFormat::Toml);
    assert_eq!(config_format("Toml").unwrap(), ConfigFormat::Toml);
    assert_eq!(config_format("json").unwrap(), ConfigFormat::Json);
    assert_eq!(config_format("JSON").unwrap(), ConfigFormat::Json);
}

#[test]
fn config_format_refuses_unknown_extension() {
    let err = config_format("yaml").unwrap_err();
    match &err {
        Error::ConfigExt(ext) => assert_eq!(ext.as_str(), "YAML"),
        _ => panic!("expected the unsupported-extension error"),
    }
    assert_eq!(err.message(), "Unsupported config extension '.YAML'.");
}

#[test]
fn error_messages_carry_their_prefixes() {
    let open = Error::OpenFile(std::io::Error::new(
        std::io::ErrorKind::NotFound,
        "gone",
    ));
    assert!(open.message().starts_with("Failed to open file: "));
    let read = Error::ReadFile(std::io::Error::new(
        std::io::ErrorKind::PermissionDenied,
        "locked",
    ));
    assert!(read.message().starts_with("Failed to read file: "));
    let io = Error::from(std::io::Error::new(std::io::ErrorKind::Other, "broken"));
    assert!(matches!(io, Error::Io(_)));
}

#[test]
fn level_gate_passes_up_to_info() {
    assert!(level_enabled(LogLevel::Error));
    assert!(level_enabled(LogLevel::Warn));
    assert!(level_enabled(LogLevel::Info));
    assert!(!level_enabled(LogLevel::Debug));
    assert!(!level_enabled(LogLevel::Trace));
}

#[test]
fn noisy_frame_messages_are_dropped() {
    let noisy = String::from("NewEvents emitted without explicit RedrawEventsCleared");
    assert!(!should_log(LogLevel::Info, &noisy));
    let noisy = String::from("RedrawEventsCleared emitted without explicit MainEventsCleared");
    assert!(!should_log(LogLevel::Warn, &noisy));
    let fine = String::from("started");
    assert!(should_log(LogLevel::Info, &fine));
    assert!(!should_log(LogLevel::Trace, &fine));
}

#[test]
fn log_line_has_the_fixed_shape() {
    let line = format_log_line("2024-01-01T00:00:00.000000", LogLevel::Info, "started");
    assert_eq!(line, "2024-01-01T00:00:00.000000Z  INFO started\n");
    let line = format_log_line("t", LogLevel::Error, "boom");
    assert_eq!(line, "tZ  ERROR boom\n");
}

#[test]
fn level_names_and_colors() {
    assert_eq!(level_name(LogLevel::Warn), "WARN");
    assert_eq!(level_color(LogLevel::Info), "\x1b[32m");
    assert_eq!(level_color(LogLevel::Warn), "\x1b[33m");
    assert_eq!(level_color(LogLevel::Error), "\x1b[31m");
    assert_eq!(level_color(LogLevel::Trace), "\x1b[0m");
}

#[test]
fn rotation_removes_only_the_excess() {
    assert_eq!(rotation_excess(5, 3), 2);
    assert_eq!(rotation_excess(3, 3), 0);
    assert_eq!(rotation_excess(0, 3), 0);
    assert_eq!(rotation_excess(10, 0), 10);
}

#[test]
fn unread_lines_resume_from_cursor() {
    let contents = b"a\nb\nc\n".to_vec();
    let (lines, cursor) = unread_lines(&contents, 2);
    assert_eq!(as_strings(lines), vec!["b", "c"]);
    assert_eq!(cursor, contents.len());
    let (lines, cursor) = unread_lines(&contents, 0);
    assert_eq!(as_strings(lines), vec!["a", "b", "c"]);
    assert_eq!(cursor, 6);
    let (lines, _) = unread_lines(&contents, 6);
    assert!(lines.is_empty());
}

#[test]
fn tail_queue_hands_lines_out_in_order() {
    let mut q = TailQueue::new();
    assert!(!q.is_available());
    assert_eq!(q.try_next(), None);
    assert!(!q.is_available());

    q.push_lines(vec![b"first".to_vec(), b"second".to_vec()]);
    assert!(q.is_available());
    assert_eq!(q.try_next(), Some(b"first".to_vec()));
    assert_eq!(q.try_next(), Some(b"second".to_vec()));
    // nothing pending: the flag drops so the wait loop parks again
    assert_eq!(q.try_next(), None);
    assert!(!q.is_available());

    q.push_lines(Vec::new());
    assert!(!q.is_available());
    q.push_lines(vec![b"third".to_vec()]);
    assert!(q.is_available());
    assert_eq!(q.try_next(), Some(b"third".to_vec()));
}

#[test]
fn park_decision_checks_the_bit_first() {
    // a set that lands before the wait parks is seen, not slept through
    assert!(!should_park(true, true));
    assert!(!should_park(false, false));
    assert!(should_park(false, true));
    assert!(should_park(true, false));
}
