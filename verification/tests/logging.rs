use ddns_client::arg_parser::{get_config_file_path, Args, DEFAULT_CONFIG_FILE};
use ddns_client::logging::{LogEntry, LogLevel, Logger, LOG_LEVEL_VARIABLE};
use ddns_client::time_tools::{now_as_string, timestamp, ClockReading};

fn logger(word: &str) -> Logger {
    Logger::new(Some(word.to_string()))
}

#[test]
fn the_level_is_read_without_regard_to_case() {
    assert_eq!(LogLevel::from("DEBUG".to_string()), LogLevel::DEBUG);
    assert_eq!(LogLevel::from("debug".to_string()), LogLevel::DEBUG);
    assert_eq!(LogLevel::from("Info".to_string()), LogLevel::INFO);
    assert_eq!(LogLevel::from("warning".to_string()), LogLevel::WARNING);
    assert_eq!(LogLevel::from("WaRnInG".to_string()), LogLevel::WARNING);
    assert_eq!(LogLevel::from("error".to_string()), LogLevel::ERROR);
    assert_eq!(LogLevel::from("ERROR".to_string()), LogLevel::ERROR);
}

#[test]
fn an_unknown_level_falls_back_to_info() {
    assert_eq!(LogLevel::from("".to_string()), LogLevel::INFO);
    assert_eq!(LogLevel::from("verbose".to_string()), LogLevel::INFO);
    assert_eq!(LogLevel::from("WARN".to_string()), LogLevel::INFO);
    assert_eq!(LogLevel::from(" debug".to_string()), LogLevel::INFO);
    assert_eq!(LogLevel::from_upper("debug"), LogLevel::INFO);
    assert_eq!(LogLevel::from_upper("DEBUG"), LogLevel::DEBUG);
    assert_eq!(LogLevel::from_upper("WARNING"), LogLevel::WARNING);
    assert_eq!(LogLevel::from_upper("ERROR"), LogLevel::ERROR);
}

#[test]
fn levels_are_named_in_capitals_and_ordered_by_severity() {
    assert_eq!(LogLevel::DEBUG.as_str(), "DEBUG");
    assert_eq!(LogLevel::INFO.as_str(), "INFO");
    assert_eq!(LogLevel::WARNING.as_str(), "WARNING");
    assert_eq!(LogLevel::ERROR.as_str(), "ERROR");
    assert!(LogLevel::DEBUG < LogLevel::INFO);
    assert!(LogLevel::INFO < LogLevel::WARNING);
    assert!(LogLevel::WARNING < LogLevel::ERROR);
}

#[test]
fn a_logger_without_a_configured_level_logs_at_info() {
    assert_eq!(LOG_LEVEL_VARIABLE, "DDNS_LOG_LEVEL");
    assert_eq!(Logger::new(None).level(), LogLevel::INFO);
    assert_eq!(logger("nonsense").level(), LogLevel::INFO);
    assert_eq!(logger("debug").level(), LogLevel::DEBUG);
    assert_eq!(logger("Error").level(), LogLevel::ERROR);
}

#[test]
fn a_logger_writes_its_level_and_above() {
    let levels = [LogLevel::DEBUG, LogLevel::INFO, LogLevel::WARNING, LogLevel::ERROR];
    for (i, own) in levels.iter().enumerate() {
        let logger = logger(own.as_str());
        for (j, level) in levels.iter().enumerate() {
            assert_eq!(logger.enabled(*level), i <= j);
        }
        assert_eq!(logger.debug("m").is_some(), i <= 0);
        assert_eq!(logger.info("m").is_some(), i <= 1);
        assert_eq!(logger.warning("m").is_some(), i <= 2);
        assert!(logger.error("m").is_some());
    }
}

#[test]
fn a_line_holds_time_level_and_message() {
    assert_eq!(
        Logger::print_log("2001-07-08T00:34:60.026490+09:30", "INFO", "hello"),
        "2001-07-08T00:34:60.026490+09:30 |INFO| hello\n"
    );
    assert_eq!(Logger::print_log("t", "ERROR", "bye\n"), "t |ERROR| bye\n");
    assert_eq!(Logger::print_log("t", "DEBUG", "two\n\n"), "t |DEBUG| two\n\n");
    assert_eq!(Logger::print_log("", "", ""), " || \n");
}

#[test]
fn a_written_line_ends_with_level_and_message() {
    let logger = logger("debug");
    let line = logger.info("example.com A PUT good").unwrap();
    assert!(line.ends_with(" |INFO| example.com A PUT good\n"), "{:?}", line);
    assert!(line.starts_with("20"), "{:?}", line);
    let line = logger.debug("checked\n").unwrap();
    assert!(line.ends_with(" |DEBUG| checked\n"), "{:?}", line);
    assert!(!line.ends_with("\n\n"));
    let line = logger.warning("careful").unwrap();
    assert!(line.ends_with(" |WARNING| careful\n"), "{:?}", line);
    let line = logger.error("broken").unwrap();
    assert!(line.ends_with(" |ERROR| broken\n"), "{:?}", line);
}

#[test]
fn an_entry_is_written_at_its_own_level() {
    let entry = LogEntry { level: LogLevel::WARNING, message: "slow".to_string() };
    let line = logger("warning").log(&entry).unwrap();
    assert!(line.ends_with(" |WARNING| slow\n"), "{:?}", line);
    assert_eq!(logger("error").log(&entry), None);
}

#[test]
fn the_epoch_is_written_in_iso_8601() {
    assert_eq!(timestamp(ClockReading::Since { secs: 0, nanos: 0 }), "1970-01-01T00:00:00+00:00");
    assert_eq!(
        timestamp(ClockReading::Since { secs: 1431648000, nanos: 0 }),
        "2015-05-15T00:00:00+00:00"
    );
    assert_eq!(
        timestamp(ClockReading::Since { secs: 1431648000, nanos: 26_490_000 }),
        "2015-05-15T00:00:00.026490+00:00"
    );
    assert_eq!(
        timestamp(ClockReading::Since { secs: 994_518_299, nanos: 500_000_000 }),
        "2001-07-07T15:04:59.500+00:00"
    );
    assert_eq!(
        timestamp(ClockReading::Since { secs: 1, nanos: 1 }),
        "1970-01-01T00:00:01.000000001+00:00"
    );
}

#[test]
fn readings_before_the_epoch_count_backwards() {
    assert_eq!(timestamp(ClockReading::Before { secs: 0, nanos: 0 }), "1970-01-01T00:00:00+00:00");
    assert_eq!(timestamp(ClockReading::Before { secs: 1, nanos: 0 }), "1969-12-31T23:59:59+00:00");
    assert_eq!(
        timestamp(ClockReading::Before { secs: 0, nanos: 500_000_000 }),
        "1969-12-31T23:59:59.500+00:00"
    );
    assert_eq!(
        timestamp(ClockReading::Before { secs: 86_400, nanos: 1 }),
        "1969-12-30T23:59:59.999999999+00:00"
    );
}

#[test]
fn unix_timestamps_are_whole_seconds_and_the_nanoseconds_after() {
    assert_eq!(ClockReading::Since { secs: 5, nanos: 7 }.unix_timestamp(), Some((5, 7)));
    assert_eq!(ClockReading::Before { secs: 5, nanos: 0 }.unix_timestamp(), Some((-5, 0)));
    assert_eq!(
        ClockReading::Before { secs: 5, nanos: 7 }.unix_timestamp(),
        Some((-6, 999_999_993))
    );
    assert_eq!(
        ClockReading::Since { secs: i64::MAX as u64, nanos: 999_999_999 }.unix_timestamp(),
        Some((i64::MAX, 999_999_999))
    );
    assert_eq!(ClockReading::Since { secs: i64::MAX as u64 + 1, nanos: 0 }.unix_timestamp(), None);
    assert_eq!(
        ClockReading::Before { secs: i64::MAX as u64 + 1, nanos: 0 }.unix_timestamp(),
        Some((i64::MIN, 0))
    );
    assert_eq!(ClockReading::Before { secs: i64::MAX as u64 + 1, nanos: 1 }.unix_timestamp(), None);
    assert_eq!(
        ClockReading::Before { secs: i64::MAX as u64, nanos: 1 }.unix_timestamp(),
        Some((i64::MIN, 999_999_999))
    );
    assert_eq!(ClockReading::Before { secs: u64::MAX, nanos: 0 }.unix_timestamp(), None);
}

#[test]
fn a_reading_that_cannot_be_written_gives_an_empty_text() {
    assert_eq!(ClockReading::Since { secs: 1, nanos: 1_000_000_000 }.unix_timestamp(), None);
    assert_eq!(timestamp(ClockReading::Since { secs: 1, nanos: 1_000_000_000 }), "");
    assert_eq!(timestamp(ClockReading::Before { secs: 1, nanos: u32::MAX }), "");
    assert_eq!(timestamp(ClockReading::Since { secs: i64::MAX as u64, nanos: 0 }), "");
    assert_eq!(timestamp(ClockReading::Since { secs: u64::MAX, nanos: 0 }), "");
}

#[test]
fn the_current_time_is_written_in_iso_8601() {
    let now = now_as_string();
    assert!(now.len() >= "1970-01-01T00:00:00+00:00".len(), "{:?}", now);
    assert!(now.ends_with("+00:00"), "{:?}", now);
    assert_eq!(now.as_bytes()[4], b'-');
    assert_eq!(now.as_bytes()[10], b'T');
}

#[test]
fn the_configuration_file_is_the_given_one_or_the_default() {
    assert_eq!(DEFAULT_CONFIG_FILE, ".ddns.conf");
    assert_eq!(get_config_file_path(None, "/home/alice"), "/home/alice/.ddns.conf");
    assert_eq!(get_config_file_path(None, ""), "/.ddns.conf");
    assert_eq!(
        get_config_file_path(Some("/etc/ddns.yaml".to_string()), "/home/alice"),
        "/etc/ddns.yaml"
    );
    let args = Args { config_file: Some("conf".to_string()), ip: false };
    assert_eq!(get_config_file_path(args.config_file, "/root"), "conf");
}
