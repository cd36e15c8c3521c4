use log_levels::filter::Filter;
use log_levels::level::Level;

const ALL: [Level; 6] = [
    Level::Trace,
    Level::Debug,
    Level::Info,
    Level::Warn,
    Level::Error,
    Level::Critical,
];

fn pairs(entries: &[(&str, &str)]) -> Option<Vec<(String, String)>> {
    Some(entries.iter().map(|(c, l)| (c.to_string(), l.to_string())).collect())
}

fn filter_from(entries: &[(&str, &str)]) -> Filter {
    let mut f = Filter::new();
    f.initialize(pairs(entries));
    f
}

#[test]
fn wildcard_warn_sets_default() {
    let f = filter_from(&[("*", "warn")]);
    assert!(!f.should_log(Level::Info, "db"));
    assert!(f.should_log(Level::Error, "db"));
}

#[test]
fn context_entry_beats_wildcard() {
    let f = filter_from(&[("net", "debug"), ("*", "error")]);
    assert!(f.should_log(Level::Debug, "net"));
    assert!(!f.should_log(Level::Debug, "other"));
    assert!(f.should_log(Level::Error, "other"));
}

#[test]
fn empty_config_defaults_to_info() {
    let f = filter_from(&[]);
    assert!(!f.should_log(Level::Trace, "anything"));
    assert!(f.should_log(Level::Info, "x"));
    assert!(!f.should_log(Level::Debug, "x"));
}

#[test]
fn unavailable_source_defaults_to_info() {
    let mut f = Filter::new();
    f.initialize(None);
    assert!(f.is_initialized());
    assert!(f.should_log(Level::Info, "x"));
    assert!(!f.should_log(Level::Debug, "x"));
}

#[test]
fn unparseable_wildcard_is_like_empty_config() {
    let bogus = filter_from(&[("*", "bogus-level")]);
    let empty = filter_from(&[]);
    for level in ALL {
        for context in ["*", "db", ""] {
            assert_eq!(bogus.should_log(level, context), empty.should_log(level, context));
        }
    }
    assert_eq!(bogus.level_for_context("*"), Level::Info);
}

#[test]
fn every_level_and_context_gets_a_decision() {
    let f = filter_from(&[("a", "critical")]);
    for level in ALL {
        assert!(f.should_log(level, "") == (Filter::level_ordinal(level) >= 2));
        assert!(f.should_log(level, "*") == (Filter::level_ordinal(level) >= 2));
        assert!(f.should_log(level, "a") == (level == Level::Critical));
    }
    let uninitialized = Filter::new();
    assert!(!uninitialized.is_initialized());
    assert!(uninitialized.should_log(Level::Warn, ""));
    assert!(!uninitialized.should_log(Level::Debug, "*"));
}

#[test]
fn second_initialize_changes_nothing() {
    let mut f = filter_from(&[("db", "error")]);
    for _ in 0..3 {
        f.initialize(pairs(&[("db", "trace"), ("*", "critical")]));
    }
    assert_eq!(f.level_for_context("db"), Level::Error);
    assert_eq!(f.level_for_context("other"), Level::Info);
}

#[test]
fn warn_threshold_is_strict() {
    let f = filter_from(&[("c", "Warn")]);
    let passed: Vec<bool> = ALL.iter().map(|l| f.should_log(*l, "c")).collect();
    assert_eq!(passed, vec![false, false, false, true, true, true]);
}

#[test]
fn missing_context_uses_wildcard() {
    let f = filter_from(&[("*", "debug"), ("x", "error")]);
    for level in ALL {
        assert_eq!(f.should_log(level, "y"), f.should_log(level, "*"));
    }
    assert_eq!(f.level_for_context("y"), Level::Debug);
}

#[test]
fn last_parsed_entry_wins() {
    let f = filter_from(&[("db", "error"), ("db", "trace"), ("db", "loud")]);
    assert_eq!(f.level_for_context("db"), Level::Trace);
}

#[test]
fn contexts_are_case_sensitive() {
    let f = filter_from(&[("DB", "error")]);
    assert_eq!(f.level_for_context("DB"), Level::Error);
    assert_eq!(f.level_for_context("db"), Level::Info);
}

#[test]
fn decide_initializes_once() {
    let mut f = Filter::new();
    assert!(!f.decide(Level::Info, "db", pairs(&[("*", "warn")])));
    assert!(f.is_initialized());
    assert!(!f.decide(Level::Info, "db", pairs(&[("*", "trace")])));
    assert!(f.decide(Level::Warn, "db", None));
}

#[test]
fn ordinals_follow_severity() {
    let ords: Vec<u8> = ALL.iter().map(|l| Filter::level_ordinal(*l)).collect();
    assert_eq!(ords, vec![0, 1, 2, 3, 4, 5]);
}
