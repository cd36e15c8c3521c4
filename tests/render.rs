use log_levels::level::Level;
use log_levels::render::{render_event, render_line};

#[test]
fn short_labels_are_padded() {
    assert_eq!(
        render_line("T", Level::Info, "db", "up"),
        "T  INFO [db]: up"
    );
    assert_eq!(
        render_line("T", Level::Critical, "", ""),
        "T  CRIT []: "
    );
    assert_eq!(render_line("T", Level::Error, "c", "m"), "T ERROR [c]: m");
}

#[test]
fn labels_are_upper_case() {
    let labels: Vec<&str> = [
        Level::Trace,
        Level::Debug,
        Level::Info,
        Level::Warn,
        Level::Error,
        Level::Critical,
    ]
    .iter()
    .map(|l| l.label())
    .collect();
    assert_eq!(labels, vec!["TRACE", "DEBUG", "INFO", "WARN", "ERROR", "CRIT"]);
}

#[test]
fn event_at_epoch() {
    assert_eq!(
        render_event(0, 0, Level::Info, "db", "up"),
        "1970-01-01 00:00:00.000Z  INFO [db]: up"
    );
}

#[test]
fn event_time_is_cut_to_milliseconds() {
    assert_eq!(
        render_event(1_700_000_000, 123_956_789, Level::Warn, "net", "slow"),
        "2023-11-14 22:13:20.123Z  WARN [net]: slow"
    );
}

#[test]
fn event_at_last_moment_before_year_10000() {
    assert_eq!(
        render_event(253_402_300_799, 999_999_999, Level::Trace, "c", "m"),
        "9999-12-31 23:59:59.999Z TRACE [c]: m"
    );
}
