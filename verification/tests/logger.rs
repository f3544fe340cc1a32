use autossh::logger::{
    decimal_string, log_path_base, LogPathBase, format_log_line, rotation_threshold, should_rotate, LogLevel, LEVEL_WIDTH,
    MIB,
};

#[test]
fn decimal_matches_display() {
    for n in [0u64, 7, 9, 10, 42, 100, 1_700_000_000, u64::MAX] {
        assert_eq!(decimal_string(n), n.to_string());
    }
}

#[test]
fn log_line_layout() {
    assert_eq!(format_log_line(12, "INFO", "hello"), "[12] INFO  hello\n");
    assert_eq!(format_log_line(0, "ERROR", "boom"), "[0] ERROR boom\n");
    assert_eq!(format_log_line(5, "WARN", ""), "[5] WARN  \n");
}

#[test]
fn log_line_matches_format_macro() {
    let seconds = 1_725_029_869u64;
    for level in ["INFO", "WARN", "ERROR", "", "TOOLONG", "é"] {
        let message = "ssh: connection closed";
        assert_eq!(
            format_log_line(seconds, level, message),
            format!("[{seconds}] {level:<5} {message}\n")
        );
    }
    assert_eq!(LEVEL_WIDTH, 5);
}

#[test]
fn level_labels() {
    assert_eq!(LogLevel::Info.label(), "INFO");
    assert_eq!(LogLevel::Warn.label(), "WARN");
    assert_eq!(LogLevel::Error.label(), "ERROR");
}

#[test]
fn rotation_threshold_in_bytes() {
    assert_eq!(MIB, 1024 * 1024);
    assert_eq!(rotation_threshold(0), 0);
    assert_eq!(rotation_threshold(1), 1_048_576);
    assert_eq!(rotation_threshold(10), 10_485_760);
    assert_eq!(rotation_threshold(u64::MAX), u64::MAX);
    assert_eq!(rotation_threshold(u64::MAX / MIB + 1), u64::MAX);
    assert_eq!(rotation_threshold(u64::MAX / MIB), (u64::MAX / MIB) * MIB);
}

#[test]
fn rotation_decision() {
    let max = rotation_threshold(1);
    assert!(should_rotate(true, max, Some(max)));
    assert!(should_rotate(true, max, Some(max + 1)));
    assert!(!should_rotate(true, max, Some(max - 1)));
    assert!(!should_rotate(true, max, None));
    assert!(!should_rotate(false, max, Some(max)));
    assert!(!should_rotate(true, 0, Some(u64::MAX)));
    assert!(!should_rotate(true, 0, None));
}

#[test]
fn log_path_resolution() {
    assert!(matches!(log_path_base(true, true), LogPathBase::AsGiven));
    assert!(matches!(log_path_base(true, false), LogPathBase::AsGiven));
    assert!(matches!(log_path_base(false, true), LogPathBase::ConfigDirectory));
    assert!(matches!(log_path_base(false, false), LogPathBase::CurrentDirectory));
}
