use log_facade::error::Error;
use log_facade::facade::LoggerError;
use log_facade::level::{level_passes, level_str, Level, LevelFilter};

#[test]
fn levels_pass_thresholds_in_severity_order() {
    assert!(level_passes(Level::Trace, LevelFilter::Trace));
    assert!(!level_passes(Level::Trace, LevelFilter::Debug));
    assert!(level_passes(Level::Info, LevelFilter::Info));
    assert!(!level_passes(Level::Info, LevelFilter::Warn));
    assert!(level_passes(Level::Error, LevelFilter::Warn));
    assert!(level_passes(Level::Error, LevelFilter::Error));
}

#[test]
fn off_admits_no_level() {
    for level in [
        Level::Trace,
        Level::Debug,
        Level::Info,
        Level::Warn,
        Level::Error,
    ] {
        assert!(!level_passes(level, LevelFilter::Off));
    }
}

#[test]
fn level_names_match_display_forms() {
    assert_eq!(level_str(Level::Trace), "TRACE");
    assert_eq!(level_str(Level::Debug), "DEBUG");
    assert_eq!(level_str(Level::Info), "INFO");
    assert_eq!(level_str(Level::Warn), "WARN");
    assert_eq!(level_str(Level::Error), "ERROR");
}

#[test]
fn error_keeps_message_and_source() {
    let plain = Error::new("it broke");
    assert_eq!(plain.message(), "it broke");
    assert!(plain.source().is_none());
    let chained = Error::new("it broke").with_source("deeper cause");
    assert_eq!(chained.message(), "it broke");
    assert_eq!(chained.source(), Some("deeper cause"));
}

#[test]
fn logger_error_wraps_into_error() {
    let err = LoggerError::AlreadyInitialized;
    assert_eq!(err.message(), "logger is already initialized");
    let wrapped = Error::from_logger_error(&err);
    assert_eq!(wrapped.message(), "failed to initialize logger");
    assert_eq!(wrapped.source(), Some("logger is already initialized"));
}
