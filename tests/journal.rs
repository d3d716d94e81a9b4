use tsos::journal::{has_journal, init_with_level, log_level, parse_decimal, use_journal, JournalLogger, Level, Priority};

#[test]
fn level_from_variable() {
    assert_eq!(log_level(Some("debug")), Level::Debug);
    assert_eq!(log_level(Some("DEBUG")), Level::Debug);
    assert_eq!(log_level(Some("Trace")), Level::Trace);
    assert_eq!(log_level(Some("error")), Level::Error);
    assert_eq!(log_level(Some("info")), Level::Info);
    assert_eq!(log_level(Some("warn")), Level::Warn);
    assert_eq!(log_level(Some("verbose")), Level::Warn);
    assert_eq!(log_level(Some("")), Level::Warn);
    assert_eq!(log_level(None), Level::Warn);
}

#[test]
fn force_journal_variable() {
    assert!(use_journal(Some("1"), false));
    assert!(use_journal(Some("yes"), false));
    assert!(use_journal(Some("True"), false));
    assert!(!use_journal(Some("no"), false));
    assert!(!use_journal(Some("0"), false));
    assert!(!use_journal(Some(""), false));
    assert!(!use_journal(None, false));
    assert!(use_journal(None, true));
}

#[test]
fn journal_stream_matches() {
    assert!(has_journal(Some("5:7"), Some((5, 7)), None));
    assert!(has_journal(Some("5:7"), None, Some((5, 7))));
    assert!(has_journal(Some(" 5 : 7 "), Some((5, 7)), None));
    assert!(has_journal(Some("+5:7:9"), Some((5, 7)), Some((1, 1))));
    assert!(!has_journal(Some("5:8"), Some((5, 7)), Some((5, 7))));
    assert!(!has_journal(Some("7:5"), Some((5, 7)), None));
}

#[test]
fn journal_stream_malformed() {
    assert!(!has_journal(None, Some((5, 7)), Some((5, 7))));
    assert!(!has_journal(Some("5"), Some((5, 7)), None));
    assert!(!has_journal(Some("x:7"), Some((5, 7)), None));
    assert!(!has_journal(Some(":7"), Some((0, 7)), None));
    assert!(!has_journal(Some("5:7"), None, None));
}

#[test]
fn decimal_numbers() {
    assert_eq!(parse_decimal("0"), Some(0));
    assert_eq!(parse_decimal("007"), Some(7));
    assert_eq!(parse_decimal("+42"), Some(42));
    assert_eq!(parse_decimal("18446744073709551615"), Some(u64::MAX));
    assert_eq!(parse_decimal("18446744073709551616"), None);
    assert_eq!(parse_decimal(""), None);
    assert_eq!(parse_decimal("+"), None);
    assert_eq!(parse_decimal("-1"), None);
    assert_eq!(parse_decimal("1 "), None);
}

#[test]
fn journal_priorities() {
    assert_eq!(JournalLogger::priority(Level::Error), Priority::Error);
    assert_eq!(JournalLogger::priority(Level::Warn), Priority::Warning);
    assert_eq!(JournalLogger::priority(Level::Info), Priority::Info);
    assert_eq!(JournalLogger::priority(Level::Debug), Priority::Debug);
    assert_eq!(JournalLogger::priority(Level::Trace), Priority::Debug);
    assert_eq!(Priority::Emerg.code(), 0);
    assert_eq!(Priority::Error.code(), 3);
    assert_eq!(Priority::Warning.code(), 4);
    assert_eq!(Priority::Debug.code(), 7);
}

#[test]
fn journal_logger_filters_by_level() {
    let l = JournalLogger::new(Level::Info);
    assert!(l.enabled(Level::Error));
    assert!(l.enabled(Level::Info));
    assert!(!l.enabled(Level::Debug));
    assert!(!l.enabled(Level::Trace));
}

#[test]
fn init_sets_max_level() {
    assert!(init_with_level(Level::Debug, Ok(())).is_ok());
    assert_eq!(log::max_level(), log::LevelFilter::Debug);
}
