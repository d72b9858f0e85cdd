use relationship_simulator::logger::{install_outcome, InitError, LevelFilter, LogLevel};
use relationship_simulator::{init, Logger};

struct Sink;

impl log::Log for Sink {
    fn enabled(&self, _metadata: &log::Metadata) -> bool {
        true
    }
    fn log(&self, _record: &log::Record) {}
    fn flush(&self) {}
}

static SINK: Sink = Sink;

#[test]
fn logger_lets_info_and_above_through() {
    let logger = Logger;
    assert!(logger.enabled(LogLevel::Error));
    assert!(logger.enabled(LogLevel::Warn));
    assert!(logger.enabled(LogLevel::Info));
    assert!(!logger.enabled(LogLevel::Debug));
    assert!(!logger.enabled(LogLevel::Trace));
}

#[test]
fn logger_formats_records() {
    let logger = Logger;
    assert_eq!(
        logger.log("2024-01-01 10:00:00 +01:00", LogLevel::Info, "[Boyfriend] hi (+4) -> health = 100"),
        Some("2024-01-01 10:00:00 +01:00: INFO - [Boyfriend] hi (+4) -> health = 100".to_string())
    );
    assert_eq!(logger.log("t", LogLevel::Error, "bye"), Some("t: ERROR - bye".to_string()));
    assert_eq!(logger.log("t", LogLevel::Warn, "w"), Some("t: WARN - w".to_string()));
    assert_eq!(logger.log("t", LogLevel::Debug, "d"), None);
    assert_eq!(logger.log("t", LogLevel::Trace, "x"), None);
}

#[test]
fn init_installs_once() {
    assert_eq!(init(&SINK), Ok(()));
    assert_eq!(log::max_level(), log::LevelFilter::Info);
    assert_eq!(init(&SINK), Err(InitError::AlreadyInitialized));
    let refused = log::set_logger(&SINK);
    assert!(refused.is_err());
    assert_eq!(install_outcome(&refused), (Err(InitError::AlreadyInitialized), None));
}

#[test]
fn install_outcome_sets_info_on_success() {
    assert_eq!(install_outcome(&Ok(())), (Ok(()), Some(LevelFilter::Info)));
}
