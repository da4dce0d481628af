//! Notification decisions: the per-notification cooldown for permission warnings, and the
//! title an error notification is shown with.

use vstd::prelude::*;
use crate::keyed::KeyedValues;
use crate::text::{chars_of, concat_str, starts_with, str_equals, vec_starts_with};

verus! {

/// Notification type for differentiating urgency and display style.
#[derive(Clone, Copy, Debug, PartialEq, Eq, Structural)]
pub enum NotificationType {
    /// Informational notification (e.g., recording limit warning).
    Info,
    /// Error notification (e.g., post-processing failed).
    Error,
}

/// How long a permission notification stays silenced after it was shown, in milliseconds.
pub const PERMISSION_NOTIFICATION_COOLDOWN_MS: u64 = 10_000;

pub const MIC_PERMISSION_NOTIFICATION_ID: &'static str = "microphone-permission-denied";

pub const ACCESSIBILITY_PERMISSION_NOTIFICATION_ID: &'static str = "accessibility-permission-lost";

/// When each notification was last shown, in milliseconds of a monotonic clock.
pub struct CooldownTracker {
    shown_at: KeyedValues<u64>,
}

impl View for CooldownTracker {
    type V = Map<Seq<char>, u64>;

    closed spec fn view(&self) -> Map<Seq<char>, u64> {
        self.shown_at@
    }
}

/// Milliseconds from `last` to `now`, zero when `now` is earlier (as
/// `Instant::duration_since` saturates).
pub open spec fn elapsed_ms(now: u64, last: u64) -> int {
    if now >= last {
        now - last
    } else {
        0
    }
}

/// Whether a notification may be shown now, and the tracker afterwards: it may unless it
/// was shown less than `cooldown` ago; when it is shown, `now` is recorded for it.
pub open spec fn cooldown_step(
    tracker: Map<Seq<char>, u64>,
    id: Seq<char>,
    now: u64,
    cooldown: u64,
) -> (bool, Map<Seq<char>, u64>) {
    if tracker.contains_key(id) && elapsed_ms(now, tracker[id]) < cooldown {
        (false, tracker)
    } else {
        (true, tracker.insert(id, now))
    }
}

impl CooldownTracker {
    /// A tracker in which no notification has been shown.
    pub fn new() -> (r: Self)
        ensures
            r@ == Map::<Seq<char>, u64>::empty(),
    {
        CooldownTracker { shown_at: KeyedValues::new() }
    }

    /// When the notification was last shown.
    pub fn last_shown_at(&self, id: &str) -> (r: Option<u64>)
        ensures
            r == (if self@.contains_key(id@) {
                Some(self@[id@])
            } else {
                None
            }),
    {
        self.shown_at.get(id)
    }

    fn record(&mut self, id: &str, now: u64)
        ensures
            final(self)@ == old(self)@.insert(id@, now),
    {
        self.shown_at.set(id, now);
    }
}

/// Shows a notification unless the same one was shown less than `cooldown_ms` ago, and
/// records the time when it is shown.
pub fn should_emit_with_cooldown(
    tracker: &mut CooldownTracker,
    notification_id: &str,
    now_ms: u64,
    cooldown_ms: u64,
) -> (r: bool)
    ensures
        (r, final(tracker)@) == cooldown_step(old(tracker)@, notification_id@, now_ms, cooldown_ms),
{
    match tracker.last_shown_at(notification_id) {
        Some(last_shown_at) => {
            let elapsed = if now_ms >= last_shown_at {
                now_ms - last_shown_at
            } else {
                0
            };
            if elapsed < cooldown_ms {
                return false;
            }
        },
        None => {},
    }
    tracker.record(notification_id, now_ms);
    true
}

/// The cooldown decision for a permission notification, with the permission cooldown.
pub fn should_emit_permission_notification(
    tracker: &mut CooldownTracker,
    notification_id: &str,
    now_ms: u64,
) -> (r: bool)
    ensures
        (r, final(tracker)@) == cooldown_step(
            old(tracker)@,
            notification_id@,
            now_ms,
            PERMISSION_NOTIFICATION_COOLDOWN_MS,
        ),
{
    should_emit_with_cooldown(tracker, notification_id, now_ms, PERMISSION_NOTIFICATION_COOLDOWN_MS)
}

/// A notification that was just shown is silenced for the whole window and allowed again
/// once it has passed; the cooldown of one notification never affects another.
pub proof fn law_cooldown_window(
    tracker: Map<Seq<char>, u64>,
    id: Seq<char>,
    other: Seq<char>,
    now: u64,
    later: u64,
    cooldown: u64,
)
    requires
        cooldown_step(tracker, id, now, cooldown).0,
        now <= later,
    ensures
        ({
            let after = cooldown_step(tracker, id, now, cooldown).1;
            &&& later - now < cooldown ==> !cooldown_step(after, id, later, cooldown).0
            &&& later - now >= cooldown ==> cooldown_step(after, id, later, cooldown).0
            &&& other != id ==> cooldown_step(after, other, later, cooldown).0 == cooldown_step(
                tracker,
                other,
                later,
                cooldown,
            ).0
        }),
{
}

/// The first notification of an id is always shown.
pub proof fn law_first_notification_shown(tracker: Map<Seq<char>, u64>, id: Seq<char>, now: u64, cooldown: u64)
    requires
        !tracker.contains_key(id),
    ensures
        cooldown_step(tracker, id, now, cooldown).0,
{
}

/// The title a notification is shown with: error titles get a warning sign unless they
/// already start with one, with a cross mark, or with "Error".
pub open spec fn formatted_title(notification_type: NotificationType, title: Seq<char>) -> Seq<char> {
    match notification_type {
        NotificationType::Info => title,
        NotificationType::Error => if starts_with(title, "⚠"@) || starts_with(title, "❌"@)
            || starts_with(title, "Error"@) {
            title
        } else {
            "⚠ "@ + title
        },
    }
}

fn str_starts_with(s: &str, p: &str) -> (r: bool)
    ensures
        r == starts_with(s@, p@),
{
    let sv = chars_of(s);
    vec_starts_with(&sv, p)
}

pub fn format_notification_title(notification_type: NotificationType, title: &str) -> (r: String)
    ensures
        r@ == formatted_title(notification_type, title@),
{
    match notification_type {
        NotificationType::Info => title.to_string(),
        NotificationType::Error => {
            if str_starts_with(title, "⚠") || str_starts_with(title, "❌") || str_starts_with(
                title,
                "Error",
            ) {
                title.to_string()
            } else {
                concat_str("⚠ ", title)
            }
        },
    }
}

/// A translated text, or the fallback when the translation came back as its own key (no
/// translation exists).
pub open spec fn text_or_fallback(text: Seq<char>, key: Seq<char>, fallback: Seq<char>) -> Seq<char> {
    if text == key {
        fallback
    } else {
        text
    }
}

pub fn translated_or_fallback(text: String, key: &str, fallback: &str) -> (r: String)
    ensures
        r@ == text_or_fallback(text@, key@, fallback@),
{
    if str_equals(text.as_str(), key) {
        fallback.to_string()
    } else {
        text
    }
}

} // verus!
