use codictate::permissions::{
    check_accessibility_permission, check_microphone_permission, prompt_accessibility_permission,
    MicrophonePermission,
};
use codictate::tracing_config::{
    file_log_allows, level_to_u8, log_from_frontend, set_file_log_level, FileLogLevel, LogLevel,
};

#[test]
fn permissions_are_granted_without_a_permission_model() {
    prompt_accessibility_permission();
    assert!(check_accessibility_permission());
    assert_eq!(check_microphone_permission(), MicrophonePermission::Authorized);
}

#[test]
fn log_levels_rank_by_verbosity() {
    assert_eq!(level_to_u8(LogLevel::Error), 1);
    assert_eq!(level_to_u8(LogLevel::Warn), 2);
    assert_eq!(level_to_u8(LogLevel::Info), 3);
    assert_eq!(level_to_u8(LogLevel::Debug), 4);
    assert_eq!(level_to_u8(LogLevel::Trace), 5);
}

#[test]
fn file_log_level_filters_events() {
    let mut level = FileLogLevel::new();
    assert!(file_log_allows(&level, LogLevel::Debug));
    assert!(!file_log_allows(&level, LogLevel::Trace));
    set_file_log_level(&mut level, LogLevel::Warn);
    assert_eq!(level.rank, 2);
    assert!(file_log_allows(&level, LogLevel::Error));
    assert!(!file_log_allows(&level, LogLevel::Info));
}

#[test]
fn frontend_logs_pick_level_and_session() {
    let e = log_from_frontend("WARN", Some("abc"), "ui", "hello");
    assert_eq!(e.level, LogLevel::Warn);
    assert_eq!(e.session, "abc");
    assert_eq!(e.target, "ui");
    assert_eq!(e.message, "hello");
    let d = log_from_frontend("verbose", None, "ui", "x");
    assert_eq!(d.level, LogLevel::Info);
    assert_eq!(d.session, "-");
    assert_eq!(log_from_frontend("Trace", None, "t", "m").level, LogLevel::Trace);
}
