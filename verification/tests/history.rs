use codictate::history::{
    build_history_query, HistoryQuery, QueryParam,
    record_transcription_date_json, rollback_dates_json, streak_days_from_json, transcription_dates_from_json,
    entries_beyond_limit, plan_history_cleanup, prune_cutoff, HistoryCleanup, RecordingRetentionPeriod,
    apply_stats_contribution, backfill_duration_totals, compute_effective_text,
    legacy_effective_duration_ms, normalize_runtime_durations, record_transcription_date,
    rollback_dates, rollback_totals, saturating_add_i64, saturating_sub_i64, streak_days,
    StatsContribution, UserStatsBackupSnapshot, UserStatsTotals,
};

fn totals(words: i64, duration: i64, speech: i64, count: i64, fillers: i64) -> UserStatsTotals {
    UserStatsTotals {
        total_words: words,
        total_duration_ms: duration,
        total_speech_duration_ms: speech,
        total_transcriptions: count,
        total_filler_words_removed: fillers,
    }
}

fn dates(list: &[&str]) -> Vec<String> {
    list.iter().map(|d| d.to_string()).collect()
}

#[test]
fn normalize_runtime_durations_enforces_invariants() {
    let (recording, speech) = normalize_runtime_durations(1_000, 9_000);
    assert_eq!(recording, 1_000);
    assert_eq!(speech, 1_000);

    let (recording_from_speech, speech_from_speech) = normalize_runtime_durations(0, 700);
    assert_eq!(recording_from_speech, 700);
    assert_eq!(speech_from_speech, 700);

    let (recording_clamped, speech_clamped) = normalize_runtime_durations(-500, -10);
    assert_eq!(recording_clamped, 0);
    assert_eq!(speech_clamped, 0);
}

#[test]
fn effective_text_uses_inserted_text_first() {
    assert_eq!(
        compute_effective_text(Some("inserted"), Some("processed"), "raw"),
        "inserted"
    );
}

#[test]
fn effective_text_falls_back_to_post_processed() {
    assert_eq!(
        compute_effective_text(None, Some("processed"), "raw"),
        "processed"
    );
}

#[test]
fn effective_text_falls_back_to_raw() {
    assert_eq!(compute_effective_text(None, None, "raw"), "raw");
}

#[test]
fn rollback_stats_contribution_reverses_stats_and_removes_date_when_added() {
    let contribution = StatsContribution {
        word_count: 40,
        recording_duration_ms: 2000,
        speech_duration_ms: 1500,
        filler_words_removed: 3,
        date_added_to_streak_list: true,
        date_key: "2026-02-15".to_string(),
    };
    let after = rollback_totals(totals(120, 6000, 5400, 3, 9), &contribution);
    assert_eq!(after, totals(80, 4000, 3900, 2, 6));
    assert!(rollback_dates(&dates(&["2026-02-15"]), &contribution).is_empty());
}

#[test]
fn rollback_stats_contribution_keeps_date_when_not_added_by_contribution() {
    let contribution = StatsContribution {
        word_count: 20,
        recording_duration_ms: 1200,
        speech_duration_ms: 900,
        filler_words_removed: 1,
        date_added_to_streak_list: false,
        date_key: "2026-02-15".to_string(),
    };
    let after = rollback_totals(totals(80, 3200, 2800, 2, 4), &contribution);
    assert_eq!(after, totals(60, 2000, 1900, 1, 3));
    assert_eq!(
        rollback_dates(&dates(&["2026-02-15"]), &contribution),
        dates(&["2026-02-15"])
    );
}

#[test]
fn rollback_stats_contribution_clamps_values_to_zero() {
    let contribution = StatsContribution {
        word_count: 50,
        recording_duration_ms: 5000,
        speech_duration_ms: 4000,
        filler_words_removed: 9,
        date_added_to_streak_list: true,
        date_key: "2026-02-15".to_string(),
    };
    let after = rollback_totals(totals(5, 100, 50, 0, 1), &contribution);
    assert_eq!(after, totals(0, 0, 0, 0, 0));
    assert!(rollback_dates(&dates(&["2026-02-15"]), &contribution).is_empty());
}

#[test]
fn duration_semantics_backfill_is_idempotent_and_creates_single_backup() {
    let rows = vec![(2000, 1500), (1000, 0)];
    assert_eq!(backfill_duration_totals(0, 6000, &rows), Some((7800, 7300)));
    // Once the marker is set, a second pass changes nothing.
    assert_eq!(backfill_duration_totals(1, 7800, &rows), None);
}

#[test]
fn duration_semantics_backfill_preserves_residual_when_history_rows_missing() {
    assert_eq!(backfill_duration_totals(0, 9100, &Vec::new()), Some((9100, 9100)));
}

#[test]
fn duration_semantics_backfill_falls_back_to_recording_for_legacy_rows() {
    assert_eq!(backfill_duration_totals(0, 100, &vec![(1000, 0)]), Some((1000, 1000)));
}

#[test]
fn duration_semantics_backfill_clamps_malformed_speech_duration_rows() {
    assert_eq!(backfill_duration_totals(0, 100, &vec![(1000, 9000)]), Some((1000, 1000)));
}

#[test]
fn legacy_duration_credit_follows_vad_overhead() {
    assert_eq!(legacy_effective_duration_ms(0), 0);
    assert_eq!(legacy_effective_duration_ms(-5), 0);
    assert_eq!(legacy_effective_duration_ms(150), 100);
    assert_eq!(legacy_effective_duration_ms(600), 300);
    assert_eq!(legacy_effective_duration_ms(900), 450);
    assert_eq!(legacy_effective_duration_ms(2000), 1100);
}

#[test]
fn saturating_arithmetic_clamps_at_the_bounds() {
    assert_eq!(saturating_add_i64(i64::MAX, 1), i64::MAX);
    assert_eq!(saturating_add_i64(i64::MIN, -1), i64::MIN);
    assert_eq!(saturating_add_i64(2, 3), 5);
    assert_eq!(saturating_sub_i64(i64::MIN, 1), i64::MIN);
    assert_eq!(saturating_sub_i64(i64::MAX, -1), i64::MAX);
    assert_eq!(saturating_sub_i64(2, 3), -1);
}

#[test]
fn recording_a_date_adds_it_once() {
    let (after, added) = record_transcription_date(&dates(&["2026-02-14"]), "2026-02-15");
    assert!(added);
    assert_eq!(after, dates(&["2026-02-14", "2026-02-15"]));
    let (again, added_again) = record_transcription_date(&after, "2026-02-15");
    assert!(!added_again);
    assert_eq!(again, after);
}

#[test]
fn rollback_after_save_restores_stats_and_dates() {
    let before = totals(10, 1000, 800, 1, 2);
    let before_dates = dates(&["2026-02-14"]);
    let (after_dates, added) = record_transcription_date(&before_dates, "2026-02-15");
    let contribution = StatsContribution {
        word_count: 7,
        recording_duration_ms: 400,
        speech_duration_ms: 300,
        filler_words_removed: 1,
        date_added_to_streak_list: added,
        date_key: "2026-02-15".to_string(),
    };
    let saved = apply_stats_contribution(before, &contribution).expect("no overflow");
    assert_eq!(saved, totals(17, 1400, 1100, 2, 3));
    assert_eq!(rollback_totals(saved, &contribution), before);
    assert_eq!(rollback_dates(&after_dates, &contribution), before_dates);
}

#[test]
fn applying_a_contribution_reports_overflow() {
    let contribution = StatsContribution {
        word_count: 1,
        recording_duration_ms: 0,
        speech_duration_ms: 0,
        filler_words_removed: 0,
        date_added_to_streak_list: false,
        date_key: "2026-02-15".to_string(),
    };
    assert_eq!(apply_stats_contribution(totals(i64::MAX, 0, 0, 0, 0), &contribution), None);
}

// 2026-02-15 is day 739662 counted from 0001-01-01 as day 1.
const FEB_15_2026: i64 = 739_662;

#[test]
fn streak_counts_consecutive_days_ending_today() {
    let list = dates(&["2026-02-13", "2026-02-15", "2026-02-14", "2026-02-14", "2026-02-10"]);
    assert_eq!(streak_days(&list, FEB_15_2026), 3);
}

#[test]
fn streak_survives_until_the_day_after() {
    let list = dates(&["2026-02-14", "2026-02-15"]);
    assert_eq!(streak_days(&list, FEB_15_2026 + 1), 2);
    assert_eq!(streak_days(&list, FEB_15_2026 + 2), 0);
}

#[test]
fn streak_ignores_unparseable_dates() {
    assert_eq!(streak_days(&dates(&["not a date", "2026-13-01"]), FEB_15_2026), 0);
    assert_eq!(streak_days(&dates(&["garbage", "2026-02-15"]), FEB_15_2026), 1);
    assert_eq!(streak_days(&Vec::new(), FEB_15_2026), 0);
}

#[test]
fn backup_snapshots_match_on_content_not_creation_time() {
    let a = UserStatsBackupSnapshot {
        created_at_epoch_ms: 1,
        duration_stats_semantics_version_before: 0,
        total_words: 5,
        total_duration_ms: 100,
        total_speech_duration_ms: 0,
        total_transcriptions: 1,
        first_transcription_date: Some(10),
        last_transcription_date: Some(20),
        transcription_dates: "[]".to_string(),
        total_filler_words_removed: 0,
    };
    let mut b = a.clone();
    b.created_at_epoch_ms = 999;
    assert!(a.matches_content(&b));
    b.transcription_dates = "[\"2026-02-15\"]".to_string();
    assert!(!a.matches_content(&b));
}

#[test]
fn cleanup_follows_the_retention_period() {
    let now = 1_700_000_000;
    assert_eq!(plan_history_cleanup(RecordingRetentionPeriod::Never, 5, now), HistoryCleanup::Keep);
    assert_eq!(
        plan_history_cleanup(RecordingRetentionPeriod::PreserveLimit, 5, now),
        HistoryCleanup::BeyondNewest(5)
    );
    assert_eq!(
        plan_history_cleanup(RecordingRetentionPeriod::Days3, 5, now),
        HistoryCleanup::OlderThan(now - 259_200)
    );
    assert_eq!(
        plan_history_cleanup(RecordingRetentionPeriod::Weeks2, 5, now),
        HistoryCleanup::OlderThan(now - 1_209_600)
    );
    assert_eq!(
        plan_history_cleanup(RecordingRetentionPeriod::Months3, 5, now),
        HistoryCleanup::OlderThan(now - 7_776_000)
    );
    assert_eq!(entries_beyond_limit(8, 5), 5..8);
    assert_eq!(entries_beyond_limit(3, 5), 3..3);
    assert_eq!(prune_cutoff(now, 2), now - 172_800);
}

#[test]
fn streak_dates_are_stored_as_json() {
    assert_eq!(transcription_dates_from_json("not json"), Vec::<String>::new());
    assert_eq!(transcription_dates_from_json("[\"2024-01-01\"]"), vec!["2024-01-01".to_string()]);
    let (stored, added) = record_transcription_date_json("[\"2024-01-01\"]", "2024-01-02");
    assert_eq!(stored, "[\"2024-01-01\",\"2024-01-02\"]");
    assert!(added);
    let (again, added_again) = record_transcription_date_json(&stored, "2024-01-02");
    assert_eq!(again, stored);
    assert!(!added_again);
    let (fresh, _) = record_transcription_date_json("garbage", "2024-03-05");
    assert_eq!(fresh, "[\"2024-03-05\"]");
}

#[test]
fn rolling_back_the_stored_json_restores_the_dates() {
    let before = "[\"2024-01-01\"]";
    let (stored, added) = record_transcription_date_json(before, "2024-01-02");
    let contribution = StatsContribution {
        word_count: 3,
        recording_duration_ms: 1000,
        speech_duration_ms: 800,
        filler_words_removed: 0,
        date_added_to_streak_list: added,
        date_key: "2024-01-02".to_string(),
    };
    assert_eq!(rollback_dates_json(&stored, &contribution), before);
}

#[test]
fn streak_is_read_from_stored_json() {
    // 2024-01-01 is day 738886 counted from 0001-01-01 as day 1.
    let today = 738_888;
    assert_eq!(streak_days_from_json("[\"2024-01-01\",\"2024-01-02\",\"2024-01-03\"]", today), 3);
    assert_eq!(streak_days_from_json("[]", today), 0);
    assert_eq!(streak_days_from_json("oops", today), 0);
}

const SELECT: &str = "SELECT id, file_name, timestamp, saved, title, transcription_text, post_processed_text, inserted_text, post_process_prompt, duration_ms \n             FROM transcription_history";

#[test]
fn history_query_without_filters_pages_newest_first() {
    let q = build_history_query(10, 20, None, false, None);
    assert_eq!(
        q,
        HistoryQuery {
            sql: format!("{} ORDER BY timestamp DESC LIMIT ?1 OFFSET ?2", SELECT),
            params: vec![QueryParam::Int(10), QueryParam::Int(20)],
        }
    );
    let blank = build_history_query(10, 20, Some("   "), false, None);
    assert_eq!(blank, q);
}

#[test]
fn history_query_escapes_like_wildcards_and_numbers_parameters() {
    let q = build_history_query(5, 0, Some("50%_off\\"), true, Some(1700));
    let pattern = "%50\\%\\_off\\\\%".to_string();
    assert_eq!(
        q.sql,
        format!(
            "{} WHERE (COALESCE(inserted_text, post_processed_text, transcription_text) LIKE ?1 ESCAPE '\\' OR transcription_text LIKE ?2 ESCAPE '\\') AND saved = 1 AND timestamp >= ?3 ORDER BY timestamp DESC LIMIT ?4 OFFSET ?5",
            SELECT
        )
    );
    assert_eq!(
        q.params,
        vec![
            QueryParam::Text(pattern.clone()),
            QueryParam::Text(pattern),
            QueryParam::Int(1700),
            QueryParam::Int(5),
            QueryParam::Int(0)
        ]
    );
}

#[test]
fn history_query_starts_where_clause_at_the_first_filter() {
    let q = build_history_query(1, 2, None, false, Some(99));
    assert_eq!(q.sql, format!("{} WHERE timestamp >= ?1 ORDER BY timestamp DESC LIMIT ?2 OFFSET ?3", SELECT));
    let starred = build_history_query(1, 2, None, true, None);
    assert_eq!(starred.sql, format!("{} WHERE saved = 1 ORDER BY timestamp DESC LIMIT ?1 OFFSET ?2", SELECT));
}
