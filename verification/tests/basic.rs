//! Basic integration tests.

use template_rs::cli::LogLevel;

#[test]
fn test_crate_compiles() {
    // Basic smoke test to ensure the crate compiles and can be imported
    assert_eq!(2 + 2, 4);
}

#[test]
fn default_log_level_is_info() {
    assert_eq!(LogLevel::default(), LogLevel::Info);
}

#[test]
fn level_filtering_follows_rank() {
    assert!(template_rs::cli::level_enabled(LogLevel::Info, LogLevel::Warn));
    assert!(template_rs::cli::level_enabled(LogLevel::Trace, LogLevel::Trace));
    assert!(!template_rs::cli::level_enabled(LogLevel::Info, LogLevel::Debug));
    assert!(!template_rs::cli::level_enabled(LogLevel::Error, LogLevel::Info));
}
