use lead_core::logger::{render, Log, LogLevel, Logger};

fn record(level: LogLevel) -> Log {
    Log {
        level,
        target: "Window".to_string(),
        message: "message".to_string(),
        file: "window.rs".to_string(),
        line: 7,
    }
}

#[test]
fn new_logger_is_at_info() {
    assert_eq!(Logger::new().get_level(), LogLevel::Info);
}

#[test]
fn set_level_is_read_back() {
    let mut logger = Logger::new();
    logger.set_level(LogLevel::Debug);
    assert_eq!(logger.get_level(), LogLevel::Debug);
    logger.set_level(LogLevel::Critical);
    assert_eq!(logger.get_level(), LogLevel::Critical);
}

#[test]
fn levels_are_numbered_from_critical() {
    assert_eq!(LogLevel::Critical.number(), 1);
    assert_eq!(LogLevel::Error.number(), 2);
    assert_eq!(LogLevel::Warning.number(), 3);
    assert_eq!(LogLevel::Info.number(), 4);
    assert_eq!(LogLevel::Debug.number(), 5);
}

#[test]
fn logger_lets_through_its_level_and_more_severe() {
    let logger = Logger::new();
    assert!(logger.accepts(&record(LogLevel::Critical)));
    assert!(logger.accepts(&record(LogLevel::Error)));
    assert!(logger.accepts(&record(LogLevel::Warning)));
    assert!(logger.accepts(&record(LogLevel::Info)));
    assert!(!logger.accepts(&record(LogLevel::Debug)));
    let mut logger = Logger::new();
    logger.set_level(LogLevel::Error);
    assert!(logger.accepts(&record(LogLevel::Critical)));
    assert!(logger.accepts(&record(LogLevel::Error)));
    assert!(!logger.accepts(&record(LogLevel::Warning)));
}

#[test]
fn a_record_is_written_as_one_line() {
    let line = render(&record(LogLevel::Warning));
    assert_eq!(line, "Warning in ('window.rs':7) [Window]: message");
}

#[test]
fn level_names() {
    for level in [
        LogLevel::Critical,
        LogLevel::Error,
        LogLevel::Warning,
        LogLevel::Info,
        LogLevel::Debug,
    ] {
        assert_eq!(level.as_str(), format!("{:?}", level));
    }
}

#[test]
fn line_numbers_are_written_in_decimal() {
    for line in [0u32, 1, 9, 10, 11, 99, 100, 101, 1234, 90909, 1000000, 4294967295] {
        let log = Log {
            level: LogLevel::Error,
            target: "T".to_string(),
            message: "m".to_string(),
            file: "f".to_string(),
            line,
        };
        assert_eq!(render(&log), format!("Error in ('f':{}) [T]: m", line));
    }
}

#[test]
fn log_hands_out_the_line_of_an_accepted_record_only() {
    let mut logger = Logger::new();
    assert_eq!(
        logger.log(record(LogLevel::Info)),
        Some("Info in ('window.rs':7) [Window]: message".to_string())
    );
    assert_eq!(logger.log(record(LogLevel::Debug)), None);
    assert_eq!(logger.get_level(), LogLevel::Info);
    logger.set_level(LogLevel::Debug);
    assert_eq!(
        logger.log(record(LogLevel::Debug)),
        Some("Debug in ('window.rs':7) [Window]: message".to_string())
    );
    logger.set_level(LogLevel::Critical);
    assert_eq!(logger.log(record(LogLevel::Error)), None);
    assert_eq!(
        logger.log(record(LogLevel::Critical)),
        Some("Critical in ('window.rs':7) [Window]: message".to_string())
    );
}
