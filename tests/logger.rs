use aichat::logger::{init_logger, log_impl, set_log_level, LogLevel};

#[test]
fn test_logger() {
    let mut logger = init_logger("");
    let name = "Rust";
    let version = 1.75;
    let stamp = "2024-01-01 00:00:00.000";

    let error = log_impl(&logger, LogLevel::Error, stamp, &format!("Error: {} version {}", name, version));
    let warn = log_impl(&logger, LogLevel::Warn, stamp, &format!("Warning: {} version {}", name, version));
    let info = log_impl(&logger, LogLevel::Info, stamp, &format!("Info: {} version {}", name, version));
    let debug = log_impl(&logger, LogLevel::Debug, stamp, &format!("Debug: {} version {}", name, version));
    let trace = log_impl(&logger, LogLevel::Trace, stamp, &format!("Trace: {} version {}", name, version));
    assert!(error.is_some());
    assert!(warn.is_some());
    assert!(info.is_some());
    assert!(debug.is_none());
    assert!(trace.is_none());

    set_log_level(&mut logger, LogLevel::Trace);
    assert!(log_impl(&logger, LogLevel::Trace, stamp, &format!("Trace: {} version {}", name, version)).is_some());
}

#[test]
fn log_line_layout() {
    let logger = init_logger("info");
    let line = log_impl(&logger, LogLevel::Warn, "T", "hello").unwrap();
    assert_eq!(line, "\x1b[33m[WARN ]\x1b[0m T hello");
    let line = log_impl(&logger, LogLevel::Error, "12:00", "boom").unwrap();
    assert_eq!(line, "\x1b[31m[ERROR]\x1b[0m 12:00 boom");
}

#[test]
fn level_from_setting_any_case() {
    assert_eq!(LogLevel::from_env("debug"), LogLevel::Debug);
    assert_eq!(LogLevel::from_env("Trace"), LogLevel::Trace);
    assert_eq!(LogLevel::from_env("ERROR"), LogLevel::Error);
    assert_eq!(LogLevel::from_env("warn"), LogLevel::Warn);
    assert_eq!(LogLevel::from_env(""), LogLevel::Info);
    assert_eq!(LogLevel::from_env("verbose"), LogLevel::Info);
    assert_eq!(init_logger("debug").current_level(), LogLevel::Debug);
}

#[test]
fn level_from_upper_exact() {
    assert_eq!(LogLevel::from_upper("DEBUG"), LogLevel::Debug);
    assert_eq!(LogLevel::from_upper("debug"), LogLevel::Info);
    assert_eq!(LogLevel::from_upper("WARN"), LogLevel::Warn);
}

#[test]
fn level_labels_and_colors() {
    assert_eq!(LogLevel::Error.as_str(), "ERROR");
    assert_eq!(LogLevel::Warn.as_str(), "WARN ");
    assert_eq!(LogLevel::Trace.color(), "\x1b[37m");
    assert_eq!(LogLevel::Info.color(), "\x1b[32m");
    assert_eq!(LogLevel::Debug.rank(), 3);
}
