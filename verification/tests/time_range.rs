use chrono::{DateTime, Utc};
use r2logs::commands::{Commands, ParsedArgs};

fn secs_of(rfc3339: &str) -> i64 {
    DateTime::parse_from_rfc3339(rfc3339).expect("valid RFC 3339 input").timestamp()
}

#[test]
fn test_time_range_round_trip() {
    let start = secs_of("2024-01-11T15:00:00Z");
    let end = secs_of("2024-01-11T15:05:00Z");
    let now = secs_of("2024-06-01T00:00:00Z");
    let args = ParsedArgs::resolve_at(Some(start), Some(end), false, None, now);
    assert_eq!(args.start_time, "2024-01-11T15:00:00Z");
    assert_eq!(args.end_time, "2024-01-11T15:05:00Z");
}

#[test]
fn test_explicit_offset_input_normalized_to_utc() {
    let start = secs_of("2024-01-11T23:30:00+08:30");
    let now = secs_of("2024-06-01T00:00:00Z");
    let args = ParsedArgs::resolve_at(Some(start), None, false, None, now);
    assert_eq!(args.start_time, "2024-01-11T15:00:00Z");
}

#[test]
fn test_default_window_at_fixed_instant() {
    let now = secs_of("2024-01-11T15:05:00Z");
    let args = ParsedArgs::resolve_at(None, None, false, None, now);
    assert_eq!(args.start_time, "2024-01-11T15:00:00Z");
    assert_eq!(args.end_time, "2024-01-11T15:05:00Z");
}

#[test]
fn test_default_args() {
    let args = ParsedArgs::resolve(None, None, false, None);
    let now = Utc::now().timestamp();
    let start = secs_of(&args.start_time);
    let end = secs_of(&args.end_time);
    assert_eq!(end - start, 300);
    assert!((now - end).abs() <= 5, "resolved end {} is not close to now {}", end, now);
    assert!(!args.verbose);
    assert_eq!(args.commands, None);
}

#[test]
fn test_resolve_keeps_verbose_and_command() {
    let now = secs_of("2024-01-11T15:05:00Z");
    let args = ParsedArgs::resolve_at(None, None, true, Some(Commands::List), now);
    assert!(args.verbose);
    assert_eq!(args.commands, Some(Commands::List));
}
