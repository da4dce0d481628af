//! Transcription history: the entry model, text and duration normalization, the stats
//! bookkeeping that saving and rolling back a transcription performs, and the streak.

use vstd::prelude::*;
use crate::text::{append_chars, chars_of, decimal, is_blank, opt_str_view, str_equals, string_from_chars, trim, u64_to_decimal};

verus! {

#[derive(Clone, Debug, PartialEq, Eq)]
pub struct HistoryEntry {
    pub id: i64,
    pub file_name: String,
    pub timestamp: i64,
    pub saved: bool,
    pub title: String,
    pub transcription_text: String,
    pub post_processed_text: Option<String>,
    pub inserted_text: Option<String>,
    pub effective_text: String,
    pub raw_text: String,
    pub post_process_prompt: Option<String>,
    pub duration_ms: i64,
    pub file_path: String,
    pub audio_file_exists: bool,
}

#[derive(Clone, Copy, Debug, PartialEq, Eq, Structural)]
pub struct HistoryStats {
    pub total_size_bytes: u64,
    pub total_entries: i64,
}

#[derive(Clone, Debug, PartialEq, Eq)]
pub struct StatsContribution {
    pub word_count: i64,
    pub recording_duration_ms: i64,
    pub speech_duration_ms: i64,
    pub filler_words_removed: i64,
    pub date_added_to_streak_list: bool,
    pub date_key: String,
}

#[derive(Clone, Debug, PartialEq, Eq)]
pub struct SavedTranscription {
    pub entry_id: i64,
    pub contribution: StatsContribution,
}

/// Snapshot of the user stats row, kept before the duration-semantics backfill.
#[derive(Clone, Debug, PartialEq, Eq)]
pub struct UserStatsBackupSnapshot {
    pub created_at_epoch_ms: i64,
    pub duration_stats_semantics_version_before: i64,
    pub total_words: i64,
    pub total_duration_ms: i64,
    pub total_speech_duration_ms: i64,
    pub total_transcriptions: i64,
    pub first_transcription_date: Option<i64>,
    pub last_transcription_date: Option<i64>,
    pub transcription_dates: String,
    pub total_filler_words_removed: i64,
}

impl UserStatsBackupSnapshot {
    /// Two snapshots hold the same stats content (their creation times may differ).
    pub open spec fn same_content(self, other: Self) -> bool {
        &&& self.duration_stats_semantics_version_before
            == other.duration_stats_semantics_version_before
        &&& self.total_words == other.total_words
        &&& self.total_duration_ms == other.total_duration_ms
        &&& self.total_speech_duration_ms == other.total_speech_duration_ms
        &&& self.total_transcriptions == other.total_transcriptions
        &&& self.first_transcription_date == other.first_transcription_date
        &&& self.last_transcription_date == other.last_transcription_date
        &&& self.transcription_dates@ == other.transcription_dates@
        &&& self.total_filler_words_removed == other.total_filler_words_removed
    }

    pub fn matches_content(&self, other: &Self) -> (r: bool)
        ensures
            r == self.same_content(*other),
    {
        self.duration_stats_semantics_version_before == other.duration_stats_semantics_version_before
            && self.total_words == other.total_words && self.total_duration_ms
            == other.total_duration_ms && self.total_speech_duration_ms
            == other.total_speech_duration_ms && self.total_transcriptions
            == other.total_transcriptions && self.first_transcription_date
            == other.first_transcription_date && self.last_transcription_date
            == other.last_transcription_date && str_equals(
            self.transcription_dates.as_str(),
            other.transcription_dates.as_str(),
        ) && self.total_filler_words_removed == other.total_filler_words_removed
    }
}

/// The text an entry shows: what was pasted, else the post-processed text, else the raw
/// transcription.
pub open spec fn effective_text(
    inserted_text: Option<Seq<char>>,
    post_processed_text: Option<Seq<char>>,
    transcription_text: Seq<char>,
) -> Seq<char> {
    match inserted_text {
        Some(t) => t,
        None => match post_processed_text {
            Some(t) => t,
            None => transcription_text,
        },
    }
}

pub fn compute_effective_text(
    inserted_text: Option<&str>,
    post_processed_text: Option<&str>,
    transcription_text: &str,
) -> (r: String)
    ensures
        r@ == effective_text(
            opt_str_view(inserted_text),
            opt_str_view(post_processed_text),
            transcription_text@,
        ),
{
    match inserted_text {
        Some(t) => t.to_owned(),
        None => match post_processed_text {
            Some(t) => t.to_owned(),
            None => transcription_text.to_owned(),
        },
    }
}

/// Recording and speech durations made consistent: both non-negative, the recording
/// duration falling back to the speech duration, the speech duration capped by the
/// recording duration (and zero when there is none).
pub open spec fn normalized_durations(recording_duration_ms: int, speech_duration_ms: int) -> (int, int) {
    let rec0 = if recording_duration_ms > 0 {
        recording_duration_ms
    } else {
        0
    };
    let sp0 = if speech_duration_ms > 0 {
        speech_duration_ms
    } else {
        0
    };
    let rec = if rec0 == 0 && sp0 > 0 {
        sp0
    } else {
        rec0
    };
    let sp = if rec > 0 {
        if sp0 < rec {
            sp0
        } else {
            rec
        }
    } else {
        0
    };
    (rec, sp)
}

pub fn normalize_runtime_durations(recording_duration_ms: i64, speech_duration_ms: i64) -> (r: (
    i64,
    i64,
))
    ensures
        (r.0 as int, r.1 as int) == normalized_durations(
            recording_duration_ms as int,
            speech_duration_ms as int,
        ),
        0 <= r.1 <= r.0,
{
    let mut normalized_recording = if recording_duration_ms > 0 {
        recording_duration_ms
    } else {
        0
    };
    let mut normalized_speech = if speech_duration_ms > 0 {
        speech_duration_ms
    } else {
        0
    };
    if normalized_recording == 0 && normalized_speech > 0 {
        normalized_recording = normalized_speech;
    }
    if normalized_recording > 0 {
        if normalized_speech > normalized_recording {
            normalized_speech = normalized_recording;
        }
    } else {
        normalized_speech = 0;
    }
    (normalized_recording, normalized_speech)
}

/// Normalizing twice changes nothing.
pub proof fn law_normalize_durations_idempotent(recording_duration_ms: int, speech_duration_ms: int)
    ensures
        ({
            let (r, s) = normalized_durations(recording_duration_ms, speech_duration_ms);
            normalized_durations(r, s) == (r, s)
        }),
{
}

/// Speech time that the legacy VAD accounting credited to a recording.
pub open spec fn legacy_effective_duration(duration_ms: int) -> int {
    if duration_ms <= 0 {
        0
    } else if duration_ms > 900 {
        duration_ms - 900
    } else if duration_ms / 2 > 100 {
        duration_ms / 2
    } else {
        100
    }
}

pub fn legacy_effective_duration_ms(duration_ms: i64) -> (r: i64)
    ensures
        r as int == legacy_effective_duration(duration_ms as int),
{
    if duration_ms <= 0 {
        return 0;
    }
    let vad_overhead_ms: i64 = 900;
    if duration_ms > vad_overhead_ms {
        duration_ms - vad_overhead_ms
    } else {
        let half = duration_ms / 2;
        if half > 100 {
            half
        } else {
            100
        }
    }
}

/// `a + b` clamped to the `i64` range (`i64::saturating_add`).
pub open spec fn sat_add(a: int, b: int) -> int {
    if a + b > i64::MAX {
        i64::MAX as int
    } else if a + b < i64::MIN {
        i64::MIN as int
    } else {
        a + b
    }
}

/// `a - b` clamped to the `i64` range (`i64::saturating_sub`).
pub open spec fn sat_sub(a: int, b: int) -> int {
    sat_add(a, -b)
}

pub fn saturating_add_i64(a: i64, b: i64) -> (r: i64)
    ensures
        r as int == sat_add(a as int, b as int),
{
    if b > 0 && a > i64::MAX - b {
        i64::MAX
    } else if b < 0 && a < i64::MIN - b {
        i64::MIN
    } else {
        a + b
    }
}

pub fn saturating_sub_i64(a: i64, b: i64) -> (r: i64)
    ensures
        r as int == sat_sub(a as int, b as int),
{
    if b < 0 && a > i64::MAX + b {
        i64::MAX
    } else if b > 0 && a < i64::MIN + b {
        i64::MIN
    } else {
        a - b
    }
}

/// The running totals of the user stats row.
#[derive(Clone, Copy, Debug, PartialEq, Eq, Structural)]
pub struct UserStatsTotals {
    pub total_words: i64,
    pub total_duration_ms: i64,
    pub total_speech_duration_ms: i64,
    pub total_transcriptions: i64,
    pub total_filler_words_removed: i64,
}

/// `v - d`, saturating, and never below zero.
pub open spec fn decreased(v: int, d: int) -> int {
    let x = sat_sub(v, d);
    if x > 0 {
        x
    } else {
        0
    }
}

fn decrease_clamped(v: i64, d: i64) -> (r: i64)
    ensures
        r as int == decreased(v as int, d as int),
{
    let x = saturating_sub_i64(v, d);
    if x > 0 {
        x
    } else {
        0
    }
}

/// The totals after taking back one transcription's contribution.
pub open spec fn totals_after_rollback(t: UserStatsTotals, c: StatsContribution) -> UserStatsTotals {
    UserStatsTotals {
        total_words: decreased(t.total_words as int, c.word_count as int) as i64,
        total_duration_ms: decreased(t.total_duration_ms as int, c.recording_duration_ms as int)
            as i64,
        total_speech_duration_ms: decreased(
            t.total_speech_duration_ms as int,
            c.speech_duration_ms as int,
        ) as i64,
        total_transcriptions: decreased(t.total_transcriptions as int, 1) as i64,
        total_filler_words_removed: decreased(
            t.total_filler_words_removed as int,
            c.filler_words_removed as int,
        ) as i64,
    }
}

/// The streak dates after taking back a contribution: its date leaves the list only if the
/// contribution added it.
pub open spec fn dates_after_rollback(dates: Seq<Seq<char>>, c: StatsContribution) -> Seq<Seq<char>> {
    if c.date_added_to_streak_list {
        dates.filter(|d: Seq<char>| d != c.date_key@)
    } else {
        dates
    }
}

pub fn rollback_totals(totals: UserStatsTotals, contribution: &StatsContribution) -> (r: UserStatsTotals)
    ensures
        r == totals_after_rollback(totals, *contribution),
{
    UserStatsTotals {
        total_words: decrease_clamped(totals.total_words, contribution.word_count),
        total_duration_ms: decrease_clamped(
            totals.total_duration_ms,
            contribution.recording_duration_ms,
        ),
        total_speech_duration_ms: decrease_clamped(
            totals.total_speech_duration_ms,
            contribution.speech_duration_ms,
        ),
        total_transcriptions: decrease_clamped(totals.total_transcriptions, 1),
        total_filler_words_removed: decrease_clamped(
            totals.total_filler_words_removed,
            contribution.filler_words_removed,
        ),
    }
}

/// The views of a list of strings.
pub open spec fn string_views(v: Seq<String>) -> Seq<Seq<char>> {
    v.map_values(|s: String| s@)
}

pub fn rollback_dates(dates: &Vec<String>, contribution: &StatsContribution) -> (r: Vec<String>)
    ensures
        string_views(r@) == dates_after_rollback(string_views(dates@), *contribution),
{
    let mut out: Vec<String> = Vec::new();
    let mut i: usize = 0;
    let ghost key = contribution.date_key@;
    let ghost pred = |d: Seq<char>| d != key;
    if !contribution.date_added_to_streak_list {
        while i < dates.len()
            invariant
                i <= dates.len(),
                string_views(out@) == string_views(dates@).take(i as int),
            decreases dates.len() - i,
        {
            let d = dates[i].clone();
            assert(d@ == dates@[i as int]@);
            let ghost before = out@;
            out.push(d);
            assert(out@ == before.push(d));
            assert(string_views(out@) =~= string_views(before).push(d@));
            assert(string_views(out@) =~= string_views(dates@).take(i + 1));
            i = i + 1;
        }
        assert(string_views(dates@).take(dates.len() as int) =~= string_views(dates@));
        return out;
    }
    while i < dates.len()
        invariant
            i <= dates.len(),
            key == contribution.date_key@,
            pred == (|d: Seq<char>| d != key),
            string_views(out@) == string_views(dates@).take(i as int).filter(pred),
        decreases dates.len() - i,
    {
        let ghost prefix = string_views(dates@).take(i + 1);
        assert(prefix.drop_last() =~= string_views(dates@).take(i as int));
        reveal_with_fuel(Seq::filter, 1);
        if !str_equals(dates[i].as_str(), contribution.date_key.as_str()) {
            let d = dates[i].clone();
            assert(d@ == dates@[i as int]@);
            let ghost before = out@;
            out.push(d);
            assert(out@ == before.push(d));
            assert(string_views(out@) =~= string_views(before).push(d@));
            assert(string_views(out@) =~= string_views(dates@).take(i as int).filter(pred).push(
                dates@[i as int]@,
            ));
        }
        i = i + 1;
    }
    assert(string_views(dates@).take(dates.len() as int) =~= string_views(dates@));
    assert(pred =~= (|d: Seq<char>| d != contribution.date_key@));
    out
}


/// The streak list after recording a transcription made on `today`, and whether the date
/// was added: a date already listed is not listed twice.
pub open spec fn dates_after_recording(dates: Seq<Seq<char>>, today: Seq<char>) -> (
    Seq<Seq<char>>,
    bool,
) {
    if dates.contains(today) {
        (dates, false)
    } else {
        (dates.push(today), true)
    }
}

pub fn record_transcription_date(dates: &Vec<String>, today: &str) -> (r: (Vec<String>, bool))
    ensures
        (string_views(r.0@), r.1) == dates_after_recording(string_views(dates@), today@),
{
    let mut out: Vec<String> = Vec::new();
    let mut found = false;
    let mut i: usize = 0;
    while i < dates.len()
        invariant
            i <= dates.len(),
            string_views(out@) == string_views(dates@).take(i as int),
            found <==> string_views(dates@).take(i as int).contains(today@),
        decreases dates.len() - i,
    {
        let d = dates[i].clone();
        assert(d@ == dates@[i as int]@);
        let ghost before = out@;
        if str_equals(d.as_str(), today) {
            found = true;
        }
        out.push(d);
        assert(out@ == before.push(d));
        assert(string_views(out@) =~= string_views(before).push(d@));
        let ghost pre = string_views(dates@).take(i as int);
        let ghost post = pre.push(d@);
        assert(string_views(dates@).take(i + 1) =~= post);
        assert(post.contains(today@) <==> (pre.contains(today@) || d@ == today@)) by {
            if pre.contains(today@) {
                let k = choose|k: int| 0 <= k < pre.len() && pre[k] == today@;
                assert(post[k] == today@);
            }
            if d@ == today@ {
                assert(post[pre.len() as int] == today@);
            }
            if post.contains(today@) {
                let k = choose|k: int| 0 <= k < post.len() && post[k] == today@;
                if k < pre.len() {
                    assert(pre[k] == today@);
                }
            }
        }
        i = i + 1;
    }
    assert(string_views(dates@).take(dates.len() as int) =~= string_views(dates@));
    if found {
        (out, false)
    } else {
        let ghost before = out@;
        let t = today.to_string();
        out.push(t);
        assert(out@ == before.push(t));
        assert(string_views(out@) =~= string_views(before).push(today@));
        (out, true)
    }
}

/// Keeping only what a predicate accepts changes nothing when it accepts every element.
proof fn lemma_filter_all<A>(s: Seq<A>, p: spec_fn(A) -> bool)
    requires
        forall|i: int| 0 <= i < s.len() ==> p(#[trigger] s[i]),
    ensures
        s.filter(p) == s,
    decreases s.len(),
{
    reveal_with_fuel(Seq::filter, 1);
    if s.len() > 0 {
        lemma_filter_all(s.drop_last(), p);
        assert(s.drop_last().push(s.last()) =~= s);
    } else {
        assert(s.filter(p) =~= s);
    }
}

/// Taking back what saving a transcription did to the streak list restores the list:
/// recording a date and rolling back the resulting contribution is the identity.
pub proof fn law_rollback_restores_streak_dates(
    dates: Seq<Seq<char>>,
    today: Seq<char>,
    c: StatsContribution,
)
    requires
        c.date_key@ == today,
        c.date_added_to_streak_list == dates_after_recording(dates, today).1,
    ensures
        dates_after_rollback(dates_after_recording(dates, today).0, c) == dates,
{
    if !dates.contains(today) {
        let pushed = dates.push(today);
        let p = |d: Seq<char>| d != c.date_key@;
        assert forall|i: int| 0 <= i < dates.len() implies p(#[trigger] dates[i]) by {
            if dates[i] == today {
                assert(dates.contains(today));
            }
        }
        lemma_filter_all(dates, p);
        reveal_with_fuel(Seq::filter, 1);
        assert(pushed.drop_last() =~= dates);
    }
}

/// The totals after saving one transcription: each total grows by its share.
pub open spec fn totals_after_save(t: UserStatsTotals, c: StatsContribution) -> (int, int, int, int, int) {
    (
        t.total_words + c.word_count,
        t.total_duration_ms + c.recording_duration_ms,
        t.total_speech_duration_ms + c.speech_duration_ms,
        t.total_transcriptions + 1,
        t.total_filler_words_removed + c.filler_words_removed,
    )
}

/// The totals as plain integers.
pub open spec fn totals_tuple(t: UserStatsTotals) -> (int, int, int, int, int) {
    (
        t.total_words as int,
        t.total_duration_ms as int,
        t.total_speech_duration_ms as int,
        t.total_transcriptions as int,
        t.total_filler_words_removed as int,
    )
}

/// All five totals are at least zero.
pub open spec fn totals_nonnegative(t: UserStatsTotals) -> bool {
    &&& t.total_words >= 0
    &&& t.total_duration_ms >= 0
    &&& t.total_speech_duration_ms >= 0
    &&& t.total_transcriptions >= 0
    &&& t.total_filler_words_removed >= 0
}

/// A contribution whose shares are all at least zero.
pub open spec fn contribution_nonnegative(c: StatsContribution) -> bool {
    &&& c.word_count >= 0
    &&& c.recording_duration_ms >= 0
    &&& c.speech_duration_ms >= 0
    &&& c.filler_words_removed >= 0
}

/// Adds a contribution to the totals; `None` when a total would leave the `i64` range.
pub fn apply_stats_contribution(totals: UserStatsTotals, contribution: &StatsContribution) -> (r:
    Option<UserStatsTotals>)
    ensures
        match r {
            Some(t) => totals_tuple(t) == totals_after_save(totals, *contribution),
            None => {
                let s = totals_after_save(totals, *contribution);
                ||| s.0 < i64::MIN || s.0 > i64::MAX
                ||| s.1 < i64::MIN || s.1 > i64::MAX
                ||| s.2 < i64::MIN || s.2 > i64::MAX
                ||| s.3 < i64::MIN || s.3 > i64::MAX
                ||| s.4 < i64::MIN || s.4 > i64::MAX
            },
        },
{
    let word_total = match totals.total_words.checked_add(contribution.word_count) {
        Some(v) => v,
        None => return None,
    };
    let duration = match totals.total_duration_ms.checked_add(contribution.recording_duration_ms) {
        Some(v) => v,
        None => return None,
    };
    let speech = match totals.total_speech_duration_ms.checked_add(contribution.speech_duration_ms) {
        Some(v) => v,
        None => return None,
    };
    let count = match totals.total_transcriptions.checked_add(1) {
        Some(v) => v,
        None => return None,
    };
    let fillers = match totals.total_filler_words_removed.checked_add(
        contribution.filler_words_removed,
    ) {
        Some(v) => v,
        None => return None,
    };
    Some(
        UserStatsTotals {
            total_words: word_total,
            total_duration_ms: duration,
            total_speech_duration_ms: speech,
            total_transcriptions: count,
            total_filler_words_removed: fillers,
        },
    )
}

/// Rolling back a saved contribution restores the totals it was added to, when the totals
/// and the contribution's shares are non-negative.
pub proof fn law_rollback_undoes_save(t: UserStatsTotals, c: StatsContribution, saved: UserStatsTotals)
    requires
        totals_nonnegative(t),
        contribution_nonnegative(c),
        totals_tuple(saved) == totals_after_save(t, c),
    ensures
        totals_after_rollback(saved, c) == t,
{
}

/// One history row's durations under the speech-time semantics: the recording duration
/// clamped at zero, and the stored speech duration capped by it, or the recording duration
/// when none was stored.
pub open spec fn backfill_row(recording_ms: int, stored_speech_ms: int) -> (int, int) {
    let rec = if recording_ms > 0 {
        recording_ms
    } else {
        0
    };
    let sp = if stored_speech_ms > 0 {
        if stored_speech_ms < rec {
            stored_speech_ms
        } else {
            rec
        }
    } else {
        rec
    };
    (rec, sp)
}

/// Saturating sums over the rows of: recording time, speech time, and the speech time the
/// legacy accounting credited.
pub open spec fn backfill_sums(rows: Seq<(i64, i64)>) -> (int, int, int)
    decreases rows.len(),
{
    if rows.len() == 0 {
        (0, 0, 0)
    } else {
        let prev = backfill_sums(rows.drop_last());
        let row = backfill_row(rows.last().0 as int, rows.last().1 as int);
        (
            sat_add(prev.0, row.0),
            sat_add(prev.1, row.1),
            sat_add(prev.2, legacy_effective_duration(row.0)),
        )
    }
}

/// The recording and speech totals after the backfill: the live sums, plus what the old
/// total held beyond the legacy credit of the live rows (time of rows that are gone).
pub open spec fn backfilled_totals(old_total_duration_ms: int, rows: Seq<(i64, i64)>) -> (int, int) {
    let sums = backfill_sums(rows);
    let residual = {
        let d = sat_sub(old_total_duration_ms, sums.2);
        if d > 0 {
            d
        } else {
            0
        }
    };
    (sat_add(sums.0, residual), sat_add(sums.1, residual))
}

/// The duration-stats semantics version from which totals count speech time.
pub const DURATION_SEMANTICS_VERSION_V1: i64 = 1;

proof fn lemma_backfill_sums_range(rows: Seq<(i64, i64)>)
    ensures
        i64::MIN <= backfill_sums(rows).0 <= i64::MAX,
        i64::MIN <= backfill_sums(rows).1 <= i64::MAX,
        i64::MIN <= backfill_sums(rows).2 <= i64::MAX,
    decreases rows.len(),
{
    if rows.len() > 0 {
        lemma_backfill_sums_range(rows.drop_last());
    }
}

/// The totals that the duration-semantics backfill writes, from the old recording total
/// and the `(recording, speech)` durations of the live rows; `None` when the stats already
/// use the speech-time semantics, so that a second run changes nothing.
pub fn backfill_duration_totals(
    semantics_version: i64,
    old_total_duration_ms: i64,
    rows: &Vec<(i64, i64)>,
) -> (r: Option<(i64, i64)>)
    ensures
        semantics_version >= DURATION_SEMANTICS_VERSION_V1 ==> r is None,
        semantics_version < DURATION_SEMANTICS_VERSION_V1 ==> match r {
            Some(totals) => (totals.0 as int, totals.1 as int) == backfilled_totals(
                old_total_duration_ms as int,
                rows@,
            ),
            None => false,
        },
{
    if semantics_version >= DURATION_SEMANTICS_VERSION_V1 {
        return None;
    }
    let mut recording_sum: i64 = 0;
    let mut speech_sum: i64 = 0;
    let mut legacy_sum: i64 = 0;
    let mut i: usize = 0;
    while i < rows.len()
        invariant
            i <= rows.len(),
            (recording_sum as int, speech_sum as int, legacy_sum as int) == backfill_sums(
                rows@.take(i as int),
            ),
        decreases rows.len() - i,
    {
        let (recording_ms, stored_speech_ms) = rows[i];
        let rec: i64 = if recording_ms > 0 {
            recording_ms
        } else {
            0
        };
        let sp: i64 = if stored_speech_ms > 0 {
            if stored_speech_ms < rec {
                stored_speech_ms
            } else {
                rec
            }
        } else {
            rec
        };
        assert(rows@.take(i + 1).drop_last() =~= rows@.take(i as int));
        recording_sum = saturating_add_i64(recording_sum, rec);
        speech_sum = saturating_add_i64(speech_sum, sp);
        let legacy = legacy_effective_duration_ms(rec);
        legacy_sum = saturating_add_i64(legacy_sum, legacy);
        i = i + 1;
    }
    assert(rows@.take(rows.len() as int) =~= rows@);
    let d = saturating_sub_i64(old_total_duration_ms, legacy_sum);
    let residual: i64 = if d > 0 {
        d
    } else {
        0
    };
    Some((saturating_add_i64(recording_sum, residual), saturating_add_i64(speech_sum, residual)))
}


/// The day number (0001-01-01 counted as day 1) of a date written `%Y-%m-%d`, or `None` when
/// the text is not such a date.
pub uninterp spec fn ymd_day_number(s: Seq<char>) -> Option<i32>;

/// Parses a `%Y-%m-%d` date with `chrono::NaiveDate::parse_from_str` and counts it with
/// `Datelike::num_days_from_ce`. Trusted: the result is `ymd_day_number` of the text; what
/// that number is for a given text is left to chrono.
#[verifier::external_body]
fn parse_ymd_day_number(s: &str) -> (r: Option<i32>)
    ensures
        r == ymd_day_number(s@),
{
    match chrono::NaiveDate::parse_from_str(s, "%Y-%m-%d") {
        Ok(date) => Some(chrono::Datelike::num_days_from_ce(&date)),
        Err(_) => None,
    }
}

/// The day numbers of the entries that parse as dates, in list order.
pub open spec fn parsed_days(dates: Seq<Seq<char>>) -> Seq<i64>
    decreases dates.len(),
{
    if dates.len() == 0 {
        Seq::empty()
    } else {
        let prev = parsed_days(dates.drop_last());
        match ymd_day_number(dates.last()) {
            Some(d) => prev.push(d as i64),
            None => prev,
        }
    }
}

/// The largest element of a non-empty sequence.
pub open spec fn seq_max(s: Seq<i64>) -> i64
    decreases s.len(),
{
    if s.len() <= 1 {
        s[0]
    } else {
        let m = seq_max(s.drop_last());
        if s.last() > m {
            s.last()
        } else {
            m
        }
    }
}

/// Some element equals `x`.
pub open spec fn has_day(days: Seq<i64>, x: int) -> bool {
    exists|j: int| 0 <= j < days.len() && days[j] as int == x
}

/// How many of the days `x`, `x - 1`, `x - 2`, ... are present without a gap, counting at
/// most `bound` of them.
pub open spec fn run_ending_at(days: Seq<i64>, x: int, bound: nat) -> nat
    decreases bound,
{
    if bound == 0 || !has_day(days, x) {
        0
    } else {
        1 + run_ending_at(days, x - 1, (bound - 1) as nat)
    }
}

/// The streak: the run of consecutive dates that ends at the latest listed date, provided
/// that date is today or yesterday; zero otherwise.
pub open spec fn streak(dates: Seq<Seq<char>>, today: int) -> int {
    let days = parsed_days(dates);
    if days.len() == 0 {
        0
    } else {
        let last = seq_max(days);
        if today - last > 1 {
            0
        } else {
            run_ending_at(days, last as int, days.len()) as int
        }
    }
}

proof fn lemma_parsed_days_len(dates: Seq<Seq<char>>)
    ensures
        parsed_days(dates).len() <= dates.len(),
    decreases dates.len(),
{
    if dates.len() > 0 {
        lemma_parsed_days_len(dates.drop_last());
    }
}

fn contains_day(days: &Vec<i64>, x: i64) -> (r: bool)
    ensures
        r == has_day(days@, x as int),
{
    let mut i: usize = 0;
    while i < days.len()
        invariant
            i <= days.len(),
            forall|j: int| 0 <= j < i ==> days@[j] != x,
        decreases days.len() - i,
    {
        if days[i] == x {
            return true;
        }
        i = i + 1;
    }
    false
}

/// The streak of consecutive transcription days, from the streak list and today's day
/// number (0001-01-01 counted as day 1).
pub fn streak_days(dates: &Vec<String>, today_day_number: i64) -> (r: i64)
    requires
        dates@.len() < i64::MAX,
    ensures
        r as int == streak(string_views(dates@), today_day_number as int),
{
    let mut days: Vec<i64> = Vec::new();
    let mut i: usize = 0;
    while i < dates.len()
        invariant
            i <= dates.len(),
            days@ == parsed_days(string_views(dates@).take(i as int)),
        decreases dates.len() - i,
    {
        let parsed = parse_ymd_day_number(dates[i].as_str());
        let ghost taken = string_views(dates@).take(i + 1);
        assert(taken.drop_last() =~= string_views(dates@).take(i as int));
        assert(taken.last() == dates@[i as int]@);
        match parsed {
            Some(d) => {
                days.push(d as i64);
            },
            None => {},
        }
        i = i + 1;
    }
    assert(string_views(dates@).take(dates.len() as int) =~= string_views(dates@));
    proof {
        lemma_parsed_days_len(string_views(dates@));
    }
    if days.len() == 0 {
        return 0;
    }
    let mut last: i64 = days[0];
    let mut j: usize = 1;
    while j < days.len()
        invariant
            1 <= j <= days.len(),
            last == seq_max(days@.take(j as int)),
        decreases days.len() - j,
    {
        let ghost taken = days@.take(j + 1);
        assert(taken.drop_last() =~= days@.take(j as int));
        if days[j] > last {
            last = days[j];
        }
        j = j + 1;
    }
    assert(days@.take(days.len() as int) =~= days@);
    if last < today_day_number && today_day_number - 1 > last {
        return 0;
    }
    let n = days.len();
    let ghost total = run_ending_at(days@, last as int, n as nat);
    let mut k: usize = 0;
    let mut x: i64 = last;
    let mut going = true;
    while going && k < n
        invariant
            k <= n,
            n == days@.len(),
            n < i64::MAX,
            total == run_ending_at(days@, last as int, n as nat),
            going ==> x as int == last - k,
            going ==> k + run_ending_at(days@, x as int, (n - k) as nat) == total,
            !going ==> k == total,
        decreases n - k + (if going { 1int } else { 0int }),
    {
        if !contains_day(&days, x) {
            going = false;
        } else {
            k = k + 1;
            if x == i64::MIN {
                assert(!has_day(days@, x - 1));
                assert(run_ending_at(days@, x - 1, (n - k) as nat) == 0);
                going = false;
            } else {
                x = x - 1;
            }
        }
    }
    k as i64
}

/// How long recordings are kept.
#[derive(Clone, Copy, Debug, PartialEq, Eq, Structural)]
pub enum RecordingRetentionPeriod {
    Never,
    PreserveLimit,
    Days3,
    Weeks2,
    Months3,
}

/// What a history cleanup deletes, among the entries that are not saved.
#[derive(Clone, Copy, Debug, PartialEq, Eq, Structural)]
pub enum HistoryCleanup {
    /// Nothing.
    Keep,
    /// All but the newest `limit` entries.
    BeyondNewest(usize),
    /// The entries recorded before this Unix time, in seconds.
    OlderThan(i64),
}

/// The seconds a retention period keeps recordings, for the periods measured in time; a
/// month counts as 30 days.
pub open spec fn retention_seconds(period: RecordingRetentionPeriod) -> nat {
    match period {
        RecordingRetentionPeriod::Days3 => 3 * 24 * 60 * 60,
        RecordingRetentionPeriod::Weeks2 => 2 * 7 * 24 * 60 * 60,
        RecordingRetentionPeriod::Months3 => 3 * 30 * 24 * 60 * 60,
        _ => 0,
    }
}

/// The cleanup for a retention period, at Unix time `now` (seconds), keeping `history_limit`
/// entries when the period preserves a count.
pub open spec fn history_cleanup(
    period: RecordingRetentionPeriod,
    history_limit: usize,
    now: i64,
) -> HistoryCleanup {
    match period {
        RecordingRetentionPeriod::Never => HistoryCleanup::Keep,
        RecordingRetentionPeriod::PreserveLimit => HistoryCleanup::BeyondNewest(history_limit),
        _ => HistoryCleanup::OlderThan((now - retention_seconds(period)) as i64),
    }
}

/// Decides what a history cleanup deletes.
pub fn plan_history_cleanup(period: RecordingRetentionPeriod, history_limit: usize, now: i64) -> (r:
    HistoryCleanup)
    requires
        now >= i64::MIN + 3 * 30 * 24 * 60 * 60,
    ensures
        r == history_cleanup(period, history_limit, now),
{
    match period {
        RecordingRetentionPeriod::Never => HistoryCleanup::Keep,
        RecordingRetentionPeriod::PreserveLimit => HistoryCleanup::BeyondNewest(history_limit),
        RecordingRetentionPeriod::Days3 => HistoryCleanup::OlderThan(now - 3 * 24 * 60 * 60),
        RecordingRetentionPeriod::Weeks2 => HistoryCleanup::OlderThan(now - 2 * 7 * 24 * 60 * 60),
        RecordingRetentionPeriod::Months3 => HistoryCleanup::OlderThan(now - 3 * 30 * 24 * 60 * 60),
    }
}

/// The positions of the entries to delete when the newest `limit` are kept, of `count`
/// entries ordered newest first: those from `limit` on.
pub fn entries_beyond_limit(count: usize, limit: usize) -> (r: std::ops::Range<usize>)
    ensures
        r.start == if count > limit {
            limit
        } else {
            count
        },
        r.end == count,
{
    if count > limit {
        limit..count
    } else {
        count..count
    }
}

/// The Unix time (seconds) before which unsaved entries are pruned, `days` days before
/// `now`.
pub fn prune_cutoff(now: i64, days: u64) -> (r: i64)
    requires
        days * 86400 <= i64::MAX,
        now - days * 86400 >= i64::MIN,
    ensures
        r == now - days * 86400,
{
    now - (days as i64) * 86400
}

/// The list of strings that `serde_json` reads from a JSON text, or `None` when the text is
/// not a JSON array of strings.
pub uninterp spec fn json_string_list(text: Seq<char>) -> Option<Seq<Seq<char>>>;

/// The JSON text that `serde_json` writes for a list of strings.
pub uninterp spec fn json_list_text(list: Seq<Seq<char>>) -> Seq<char>;

/// Reads a JSON array of strings with `serde_json::from_str::<Vec<String>>`. Trusted: the
/// result is `json_string_list` of the text; which texts are accepted is left to serde_json.
#[verifier::external_body]
fn parse_json_string_list(text: &str) -> (r: Option<Vec<String>>)
    ensures
        match json_string_list(text@) {
            Some(l) => r matches Some(v) && string_views(v@) == l,
            None => r is None,
        },
{
    serde_json::from_str::<Vec<String>>(text).ok()
}

/// Writes a list of strings as a JSON array with `serde_json::to_string`, which cannot fail
/// for a list of strings. Trusted: the result is `json_list_text` of the list, and reading
/// it back with serde_json gives the list, as serde_json escapes every string losslessly.
#[verifier::external_body]
fn write_json_string_list(list: &Vec<String>) -> (r: String)
    ensures
        r@ == json_list_text(string_views(list@)),
        json_string_list(r@) == Some(string_views(list@)),
{
    match serde_json::to_string(list) {
        Ok(text) => text,
        Err(_) => "[]".to_string(),
    }
}

/// The streak dates stored as JSON; text that is not a JSON array of strings counts as no
/// dates.
pub open spec fn stored_dates(dates_json: Seq<char>) -> Seq<Seq<char>> {
    match json_string_list(dates_json) {
        Some(l) => l,
        None => seq![],
    }
}

/// Reads the streak dates stored as JSON.
pub fn transcription_dates_from_json(dates_json: &str) -> (r: Vec<String>)
    ensures
        string_views(r@) == stored_dates(dates_json@),
{
    match parse_json_string_list(dates_json) {
        Some(dates) => dates,
        None => {
            let empty: Vec<String> = Vec::new();
            assert(string_views(empty@) =~= Seq::<Seq<char>>::empty());
            empty
        },
    }
}

/// Records a transcription made on `today` in the streak dates stored as JSON: the JSON to
/// store and whether the date was added.
pub fn record_transcription_date_json(dates_json: &str, today: &str) -> (r: (String, bool))
    ensures
        ({
            let (dates, added) = dates_after_recording(stored_dates(dates_json@), today@);
            &&& r.0@ == json_list_text(dates)
            &&& stored_dates(r.0@) == dates
            &&& r.1 == added
        }),
{
    let dates = transcription_dates_from_json(dates_json);
    let (updated, added) = record_transcription_date(&dates, today);
    (write_json_string_list(&updated), added)
}

/// Takes a contribution's date back out of the streak dates stored as JSON: the JSON to
/// store.
pub fn rollback_dates_json(dates_json: &str, contribution: &StatsContribution) -> (r: String)
    ensures
        r@ == json_list_text(dates_after_rollback(stored_dates(dates_json@), *contribution)),
        stored_dates(r@) == dates_after_rollback(stored_dates(dates_json@), *contribution),
{
    let dates = transcription_dates_from_json(dates_json);
    write_json_string_list(&rollback_dates(&dates, contribution))
}

/// The streak, in days, of the dates stored as JSON, on the day numbered
/// `today_day_number`.
pub fn streak_days_from_json(dates_json: &str, today_day_number: i64) -> (r: i64)
    ensures
        stored_dates(dates_json@).len() < i64::MAX ==> r as int == streak(
            stored_dates(dates_json@),
            today_day_number as int,
        ),
        stored_dates(dates_json@).len() >= i64::MAX ==> r == 0,
{
    let dates = transcription_dates_from_json(dates_json);
    if dates.len() as u128 >= i64::MAX as u128 {
        return 0;
    }
    streak_days(&dates, today_day_number)
}

/// Storing the streak dates as JSON loses nothing: rolling back the contribution of a save
/// from the JSON that the save stored gives back the dates stored before it.
pub proof fn law_stored_dates_round_trip(
    dates_json: Seq<char>,
    today: Seq<char>,
    c: StatsContribution,
    written: Seq<char>,
)
    requires
        stored_dates(written) == dates_after_recording(stored_dates(dates_json), today).0,
        c.date_key@ == today,
        c.date_added_to_streak_list == dates_after_recording(stored_dates(dates_json), today).1,
    ensures
        dates_after_rollback(stored_dates(written), c) == stored_dates(dates_json),
{
    law_rollback_restores_streak_dates(stored_dates(dates_json), today, c);
}

/// A parameter of a history query.
#[derive(Clone, Debug, PartialEq, Eq)]
pub enum QueryParam {
    Text(String),
    Int(i64),
}

/// A history query: its SQL text and its parameters, in order.
#[derive(Clone, Debug, PartialEq, Eq)]
pub struct HistoryQuery {
    pub sql: String,
    pub params: Vec<QueryParam>,
}

/// A search text with the `LIKE` wildcards `%` and `_`, and the escape character `\`,
/// escaped by a backslash.
pub open spec fn like_escaped(s: Seq<char>) -> Seq<char>
    decreases s.len(),
{
    if s.len() == 0 {
        seq![]
    } else {
        let c = s.last();
        like_escaped(s.drop_last()) + if c == '\\' || c == '%' || c == '_' {
            seq!['\\', c]
        } else {
            seq![c]
        }
    }
}

/// The `LIKE` pattern that finds a search text anywhere.
pub open spec fn like_pattern(search: Seq<char>) -> Seq<char> {
    "%"@ + like_escaped(search) + "%"@
}

/// The columns a history query reads.
pub open spec fn history_select() -> Seq<char> {
    "SELECT id, file_name, timestamp, saved, title, transcription_text, post_processed_text, inserted_text, post_process_prompt, duration_ms \n             FROM transcription_history"@
}

/// The SQL of a history query: entries whose text (or raw transcription) matches the search,
/// if there is one, starred ones only if asked, those since a time if asked, newest first,
/// one page. Parameters are numbered in the order they appear.
pub open spec fn history_sql(searching: bool, starred_only: bool, since: bool) -> Seq<char> {
    let search_part = if searching {
        " WHERE (COALESCE(inserted_text, post_processed_text, transcription_text) LIKE ?1 ESCAPE '\\' OR transcription_text LIKE ?2 ESCAPE '\\')"@
    } else {
        seq![]
    };
    let starred_part = if starred_only {
        (if searching {
            " AND"@
        } else {
            " WHERE"@
        }) + " saved = 1"@
    } else {
        seq![]
    };
    let first_free: nat = if searching {
        3
    } else {
        1
    };
    let since_part = if since {
        (if searching || starred_only {
            " AND"@
        } else {
            " WHERE"@
        }) + " timestamp >= ?"@ + decimal(first_free)
    } else {
        seq![]
    };
    let limit_index: nat = if since {
        first_free + 1
    } else {
        first_free
    };
    history_select() + search_part + starred_part + since_part + " ORDER BY timestamp DESC LIMIT ?"@
        + decimal(limit_index) + " OFFSET ?"@ + decimal(limit_index + 1)
}

/// A parameter that is this text.
pub open spec fn is_text_param(p: QueryParam, t: Seq<char>) -> bool {
    p matches QueryParam::Text(x) && x@ == t
}

fn escape_like(search: &str) -> (r: Vec<char>)
    ensures
        r@ == like_escaped(search@),
{
    let v = chars_of(search);
    let mut out: Vec<char> = Vec::new();
    let mut i: usize = 0;
    while i < v.len()
        invariant
            i <= v.len(),
            v@ == search@,
            out@ == like_escaped(v@.take(i as int)),
        decreases v.len() - i,
    {
        assert(v@.take(i + 1).drop_last() =~= v@.take(i as int));
        let c = v[i];
        let ghost before = out@;
        if c == '\\' || c == '%' || c == '_' {
            out.push('\\');
            out.push(c);
            assert(out@ =~= before + seq!['\\', c]);
        } else {
            out.push(c);
            assert(out@ =~= before + seq![c]);
        }
        i = i + 1;
    }
    assert(v@.take(v.len() as int) =~= v@);
    out
}

fn push_str(out: &mut Vec<char>, s: &str)
    ensures
        final(out)@ == old(out)@ + s@,
{
    append_chars(out, &chars_of(s));
}

fn push_decimal(out: &mut Vec<char>, n: u64)
    ensures
        final(out)@ == old(out)@ + decimal(n as nat),
{
    append_chars(out, &u64_to_decimal(n));
}

/// Builds the query for a page of history entries: `limit` entries after `offset`, matching
/// a search text when it is not blank, starred ones only if asked, and those recorded since
/// `time_period_start` (Unix seconds) if given.
pub fn build_history_query(
    limit: usize,
    offset: usize,
    search_query: Option<&str>,
    starred_only: bool,
    time_period_start: Option<i64>,
) -> (r: HistoryQuery)
    ensures
        ({
            let searching = search_query matches Some(q) && trim(q@).len() > 0;
            let since = time_period_start is Some;
            let first_param: int = if searching {
                2
            } else {
                0
            };
            let limit_param: int = if since {
                first_param + 1
            } else {
                first_param
            };
            &&& r.sql@ == history_sql(searching, starred_only, since)
            &&& r.params@.len() == limit_param + 2
            &&& searching ==> is_text_param(r.params@[0], like_pattern(search_query->0@))
                && is_text_param(r.params@[1], like_pattern(search_query->0@))
            &&& since ==> r.params@[first_param] == QueryParam::Int(time_period_start->0)
            &&& r.params@[limit_param] == QueryParam::Int(limit as i64)
            &&& r.params@[limit_param + 1] == QueryParam::Int(offset as i64)
        }),
{
    let mut sql = chars_of(
        "SELECT id, file_name, timestamp, saved, title, transcription_text, post_processed_text, inserted_text, post_process_prompt, duration_ms \n             FROM transcription_history",
    );
    let mut params: Vec<QueryParam> = Vec::new();
    let mut next_index: u64 = 1;
    let mut has_where = false;
    let searching = match search_query {
        Some(q) => !is_blank(q),
        None => false,
    };
    let ghost sql0 = sql@;
    if searching {
        let q = match search_query {
            Some(q) => q,
            None => "",
        };
        let mut pattern = chars_of("%");
        let escaped = escape_like(q);
        append_chars(&mut pattern, &escaped);
        push_str(&mut pattern, "%");
        let pattern_text = string_from_chars(&pattern);
        push_str(
            &mut sql,
            " WHERE (COALESCE(inserted_text, post_processed_text, transcription_text) LIKE ?1 ESCAPE '\\' OR transcription_text LIKE ?2 ESCAPE '\\')",
        );
        params.push(QueryParam::Text(pattern_text.clone()));
        params.push(QueryParam::Text(pattern_text));
        next_index = 3;
        has_where = true;
    }
    let ghost sql1 = sql@;
    if starred_only {
        if has_where {
            push_str(&mut sql, " AND");
        } else {
            push_str(&mut sql, " WHERE");
            has_where = true;
        }
        push_str(&mut sql, " saved = 1");
    }
    let ghost sql2 = sql@;
    match time_period_start {
        Some(start) => {
            if has_where {
                push_str(&mut sql, " AND");
            } else {
                push_str(&mut sql, " WHERE");
            }
            push_str(&mut sql, " timestamp >= ?");
            push_decimal(&mut sql, next_index);
            params.push(QueryParam::Int(start));
            next_index = next_index + 1;
        },
        None => {},
    }
    let ghost sql3 = sql@;
    push_str(&mut sql, " ORDER BY timestamp DESC LIMIT ?");
    push_decimal(&mut sql, next_index);
    params.push(QueryParam::Int(limit as i64));
    push_str(&mut sql, " OFFSET ?");
    push_decimal(&mut sql, next_index + 1);
    params.push(QueryParam::Int(offset as i64));
    proof {
        let searching_s = search_query matches Some(q) && trim(q@).len() > 0;
        assert(searching == searching_s);
        assert(sql0 == history_select());
    }
    HistoryQuery { sql: string_from_chars(&sql), params }
}

} // verus!
