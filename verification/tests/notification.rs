use codictate::notification::{
    format_notification_title, should_emit_permission_notification, should_emit_with_cooldown,
    translated_or_fallback, CooldownTracker, NotificationType,
    MIC_PERMISSION_NOTIFICATION_ID,
};

const SECOND_MS: u64 = 1_000;

#[test]
fn cooldown_allows_first_notification() {
    let mut tracker = CooldownTracker::new();
    let now = 50_000;
    assert!(should_emit_with_cooldown(&mut tracker, "mic", now, 10 * SECOND_MS));
}

#[test]
fn cooldown_blocks_repeat_within_window() {
    let mut tracker = CooldownTracker::new();
    let now = 50_000;

    assert!(should_emit_with_cooldown(&mut tracker, "mic", now, 10 * SECOND_MS));
    assert!(!should_emit_with_cooldown(
        &mut tracker,
        "mic",
        now + 3 * SECOND_MS,
        10 * SECOND_MS,
    ));
}

#[test]
fn cooldown_allows_after_window_expires() {
    let mut tracker = CooldownTracker::new();
    let now = 50_000;

    assert!(should_emit_with_cooldown(&mut tracker, "mic", now, 10 * SECOND_MS));
    assert!(should_emit_with_cooldown(
        &mut tracker,
        "mic",
        now + 11 * SECOND_MS,
        10 * SECOND_MS,
    ));
}

#[test]
fn cooldown_is_tracked_per_notification_id() {
    let mut tracker = CooldownTracker::new();
    let now = 50_000;

    assert!(should_emit_with_cooldown(&mut tracker, "mic", now, 10 * SECOND_MS));
    assert!(should_emit_with_cooldown(
        &mut tracker,
        "accessibility",
        now + SECOND_MS,
        10 * SECOND_MS,
    ));
}

#[test]
fn blocked_notification_keeps_original_timestamp() {
    let mut tracker = CooldownTracker::new();
    assert!(should_emit_with_cooldown(&mut tracker, "mic", 0, 10_000));
    assert!(!should_emit_with_cooldown(&mut tracker, "mic", 9_000, 10_000));
    assert_eq!(tracker.last_shown_at("mic"), Some(0));
    assert!(should_emit_with_cooldown(&mut tracker, "mic", 10_000, 10_000));
    assert_eq!(tracker.last_shown_at("mic"), Some(10_000));
    assert_eq!(tracker.last_shown_at("other"), None);
}

#[test]
fn earlier_clock_reading_counts_as_no_time_elapsed() {
    let mut tracker = CooldownTracker::new();
    assert!(should_emit_with_cooldown(&mut tracker, "mic", 5_000, 10_000));
    assert!(!should_emit_with_cooldown(&mut tracker, "mic", 1_000, 10_000));
}

#[test]
fn permission_notifications_use_ten_second_cooldown() {
    let mut tracker = CooldownTracker::new();
    assert!(should_emit_permission_notification(&mut tracker, MIC_PERMISSION_NOTIFICATION_ID, 0));
    assert!(!should_emit_permission_notification(&mut tracker, MIC_PERMISSION_NOTIFICATION_ID, 9_999));
    assert!(should_emit_permission_notification(&mut tracker, MIC_PERMISSION_NOTIFICATION_ID, 10_000));
}

#[test]
fn error_titles_get_a_warning_sign() {
    assert_eq!(format_notification_title(NotificationType::Error, "Failed"), "⚠ Failed");
    assert_eq!(format_notification_title(NotificationType::Error, "⚠ Failed"), "⚠ Failed");
    assert_eq!(format_notification_title(NotificationType::Error, "❌ Failed"), "❌ Failed");
    assert_eq!(format_notification_title(NotificationType::Error, "Error: x"), "Error: x");
    assert_eq!(format_notification_title(NotificationType::Info, "Hello"), "Hello");
}

#[test]
fn missing_translation_falls_back() {
    assert_eq!(
        translated_or_fallback("growth.upgradePrompt.title".to_string(), "growth.upgradePrompt.title", "Fallback"),
        "Fallback"
    );
    assert_eq!(
        translated_or_fallback("Translated".to_string(), "growth.upgradePrompt.title", "Fallback"),
        "Translated"
    );
}
