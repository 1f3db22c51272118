use wictk::log_level::LogLevel;

#[test]
fn valid_log_levels_round_trip_through_from_str() {
    for level in [
        LogLevel::Trace,
        LogLevel::Debug,
        LogLevel::Info,
        LogLevel::Warn,
        LogLevel::Error,
    ] {
        let parsed: LogLevel = level.as_str().parse().unwrap();
        assert_eq!(parsed, level);
    }
}

#[test]
fn invalid_strings_fail_to_parse() {
    for s in ["", "TRACE", "information", "warning", " info", "err"] {
        let parsed = s.parse::<LogLevel>();
        assert_eq!(parsed, Err("unknown log level".to_string()));
    }
    assert_eq!("warn".parse::<LogLevel>(), Ok(LogLevel::Warn));
}
