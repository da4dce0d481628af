//! Smart transcript insertion: adapts a transcript to the text around the
//! cursor (casing, spacing, trailing punctuation, CJK spacing) before it is pasted.

use vstd::prelude::*;
use crate::text::{alphanumeric, append_chars, ascii_alphanumeric, byte_len, char_lowercase_mapping, char_to_lowercase, char_to_uppercase, char_uppercase_mapping, char_utf8_width, chars_of, find_char, has_char, is_alphabetic, is_alphanumeric, is_ascii_alphanumeric, is_lowercase, is_numeric, is_uppercase, is_whitespace, is_ws, leading_ws, leading_ws_count, lemma_utf8_len_take_mono, lemma_utf8_len_take_step, prefix_len_before, replace_char, slice_chars, split_words, starts_with, str_equals, str_lowercase_mapping, str_to_lowercase, string_from_chars, trailing_ws, trailing_ws_count, trim, trim_start, unicode_alphabetic, unicode_lowercase, unicode_numeric, unicode_uppercase, utf8_len, vec_starts_with, words};

verus! {

/// What the focused text field holds around the insertion point.
#[derive(Debug, Clone, Copy, PartialEq, Eq)]
pub struct TextInsertionContext {
    pub left_char: Option<char>,
    pub left_non_whitespace_char: Option<char>,
    pub right_char: Option<char>,
    pub right_non_whitespace_char: Option<char>,
    pub has_selection: bool,
}

#[derive(Debug, Clone, Copy, PartialEq, Eq, Structural)]
pub enum SmartInsertionProfile {
    CasedWhitespace,
    UncasedWhitespace,
    NoBoundarySpacing,
    Conservative,
}

#[derive(Debug, Clone, Copy, PartialEq, Eq, Structural)]
pub enum SentenceMarkKind {
    PeriodLike,
    QuestionLike,
    ExclamationLike,
}

#[derive(Debug, Clone, Copy, PartialEq, Eq, Structural)]
pub enum InternalSpaceCompactionStrategy {
    HanBoundaryOnly,
    JapaneseMixedScript,
}

/// The language tag after normalization: trimmed, `_` read as `-`, lowercased,
/// Chinese variants folded, region subtags dropped; `"auto"` when nothing is left.
pub open spec fn normalized_language(selected: Seq<char>) -> Seq<char> {
    let n = str_lowercase_mapping(replace_char(trim(selected), '_', '-'));
    if n.len() == 0 {
        "auto"@
    } else if n == "auto"@ {
        n
    } else if starts_with(n, "zh-hans"@) {
        "zh"@
    } else if starts_with(n, "zh-hant"@) || starts_with(n, "zh-tw"@) || starts_with(n, "zh-hk"@)
        || starts_with(n, "zh-mo"@) {
        "zh-tw"@
    } else if starts_with(n, "yue"@) {
        "yue"@
    } else {
        let seg = n.take(prefix_len_before(n, '-') as int);
        if seg.len() == 0 {
            "auto"@
        } else {
            seg
        }
    }
}

pub fn normalize_selected_language(selected_language: &str) -> (r: String)
    ensures
        r@ == normalized_language(selected_language@),
{
    let v = chars_of(selected_language);
    let lead = leading_ws_count(&v);
    let rest = slice_chars(&v, lead, v.len());
    let trail = trailing_ws_count(&rest);
    let mut trimmed = slice_chars(&rest, 0, rest.len() - trail);
    assert(rest@ == trim_start(selected_language@));
    assert(trimmed@ == trim(selected_language@));
    let mut i: usize = 0;
    while i < trimmed.len()
        invariant
            i <= trimmed.len(),
            trimmed.len() == trim(selected_language@).len(),
            forall|j: int|
                0 <= j < i ==> #[trigger] trimmed@[j] == replace_char(
                    trim(selected_language@),
                    '_',
                    '-',
                )[j],
            forall|j: int| i <= j < trimmed.len() ==> #[trigger] trimmed@[j] == trim(
                selected_language@,
            )[j],
        decreases trimmed.len() - i,
    {
        if trimmed[i] == '_' {
            trimmed.set(i, '-');
        }
        i = i + 1;
    }
    assert(trimmed@ =~= replace_char(trim(selected_language@), '_', '-'));
    let replaced = string_from_chars(&trimmed);
    let lowered = str_to_lowercase(replaced.as_str());
    let n = chars_of(lowered.as_str());
    if n.len() == 0 {
        return "auto".to_owned();
    }
    if str_equals(lowered.as_str(), "auto") {
        return lowered;
    }
    if vec_starts_with(&n, "zh-hans") {
        return "zh".to_owned();
    }
    if vec_starts_with(&n, "zh-hant") || vec_starts_with(&n, "zh-tw") || vec_starts_with(&n, "zh-hk")
        || vec_starts_with(&n, "zh-mo") {
        return "zh-tw".to_owned();
    }
    if vec_starts_with(&n, "yue") {
        return "yue".to_owned();
    }
    let k = find_char(&n, '-');
    if k == 0 {
        return "auto".to_owned();
    }
    let seg = slice_chars(&n, 0, k);
    assert(seg@ =~= n@.take(k as int));
    string_from_chars(&seg)
}

/// The insertion profile that a normalized language tag selects.
pub open spec fn profile_for(lang: Seq<char>) -> SmartInsertionProfile {
    if lang == "en"@ || lang == "es"@ || lang == "fr"@ || lang == "de"@ || lang == "it"@ || lang
        == "pt"@ || lang == "pl"@ || lang == "cs"@ || lang == "ru"@ || lang == "uk"@ || lang
        == "vi"@ {
        SmartInsertionProfile::CasedWhitespace
    } else if lang == "ar"@ || lang == "fa"@ || lang == "ur"@ || lang == "he"@ || lang == "ko"@ {
        SmartInsertionProfile::UncasedWhitespace
    } else if lang == "zh"@ || lang == "zh-tw"@ || lang == "yue"@ || lang == "ja"@ || lang
        == "th"@ || lang == "km"@ || lang == "lo"@ || lang == "my"@ || lang == "bo"@ {
        SmartInsertionProfile::NoBoundarySpacing
    } else {
        SmartInsertionProfile::Conservative
    }
}

/// The reason reported with the profile that `profile_for` selects.
pub open spec fn profile_reason_for(lang: Seq<char>) -> Seq<char> {
    match profile_for(lang) {
        SmartInsertionProfile::CasedWhitespace => "cased_whitespace_allowlist"@,
        SmartInsertionProfile::UncasedWhitespace => "uncased_whitespace_allowlist"@,
        SmartInsertionProfile::NoBoundarySpacing => "no_boundary_spacing_allowlist"@,
        SmartInsertionProfile::Conservative => if lang == "auto"@ {
            "auto_language_conservative_fallback"@
        } else if lang == "tr"@ {
            "turkish_conservative_fallback"@
        } else {
            "unknown_language_conservative_fallback"@
        },
    }
}

fn lang_is_one_of(lang: &str, options: &Vec<&str>) -> (r: bool)
    ensures
        r == exists|i: int| 0 <= i < options.len() && lang@ == (#[trigger] options@[i])@,
{
    let mut i: usize = 0;
    while i < options.len()
        invariant
            i <= options.len(),
            forall|j: int| 0 <= j < i ==> lang@ != (#[trigger] options@[j])@,
        decreases options.len() - i,
    {
        if str_equals(lang, options[i]) {
            return true;
        }
        i = i + 1;
    }
    false
}

pub fn resolve_smart_insertion_profile(normalized_language: &str) -> (r: (
    SmartInsertionProfile,
    &'static str,
))
    ensures
        r.0 == profile_for(normalized_language@),
        r.1@ == profile_reason_for(normalized_language@),
{
    let cased = vec!["en", "es", "fr", "de", "it", "pt", "pl", "cs", "ru", "uk", "vi"];
    let uncased = vec!["ar", "fa", "ur", "he", "ko"];
    let no_boundary = vec!["zh", "zh-tw", "yue", "ja", "th", "km", "lo", "my", "bo"];
    let l = normalized_language;
    if lang_is_one_of(l, &cased) {
        return (SmartInsertionProfile::CasedWhitespace, "cased_whitespace_allowlist");
    }
    assert(!(l@ == "en"@ || l@ == "es"@ || l@ == "fr"@ || l@ == "de"@ || l@ == "it"@ || l@
        == "pt"@ || l@ == "pl"@ || l@ == "cs"@ || l@ == "ru"@ || l@ == "uk"@ || l@ == "vi"@)) by {
        assert(cased@[0] == "en" && cased@[1] == "es" && cased@[2] == "fr" && cased@[3] == "de"
            && cased@[4] == "it" && cased@[5] == "pt" && cased@[6] == "pl" && cased@[7] == "cs"
            && cased@[8] == "ru" && cased@[9] == "uk" && cased@[10] == "vi");
    }
    if lang_is_one_of(l, &uncased) {
        return (SmartInsertionProfile::UncasedWhitespace, "uncased_whitespace_allowlist");
    }
    assert(!(l@ == "ar"@ || l@ == "fa"@ || l@ == "ur"@ || l@ == "he"@ || l@ == "ko"@)) by {
        assert(uncased@[0] == "ar" && uncased@[1] == "fa" && uncased@[2] == "ur" && uncased@[3]
            == "he" && uncased@[4] == "ko");
    }
    if lang_is_one_of(l, &no_boundary) {
        return (SmartInsertionProfile::NoBoundarySpacing, "no_boundary_spacing_allowlist");
    }
    assert(!(l@ == "zh"@ || l@ == "zh-tw"@ || l@ == "yue"@ || l@ == "ja"@ || l@ == "th"@ || l@
        == "km"@ || l@ == "lo"@ || l@ == "my"@ || l@ == "bo"@)) by {
        assert(no_boundary@[0] == "zh" && no_boundary@[1] == "zh-tw" && no_boundary@[2] == "yue"
            && no_boundary@[3] == "ja" && no_boundary@[4] == "th" && no_boundary@[5] == "km"
            && no_boundary@[6] == "lo" && no_boundary@[7] == "my" && no_boundary@[8] == "bo");
    }
    if str_equals(l, "auto") {
        (SmartInsertionProfile::Conservative, "auto_language_conservative_fallback")
    } else if str_equals(l, "tr") {
        (SmartInsertionProfile::Conservative, "turkish_conservative_fallback")
    } else {
        (SmartInsertionProfile::Conservative, "unknown_language_conservative_fallback")
    }
}

/// The kind of sentence-ending mark that `c` is under `profile`, if any.
pub open spec fn mark_kind(c: char, profile: SmartInsertionProfile) -> Option<SentenceMarkKind> {
    match profile {
        SmartInsertionProfile::CasedWhitespace => if c == '.' {
            Some(SentenceMarkKind::PeriodLike)
        } else if c == '?' {
            Some(SentenceMarkKind::QuestionLike)
        } else if c == '!' {
            Some(SentenceMarkKind::ExclamationLike)
        } else {
            None
        },
        SmartInsertionProfile::UncasedWhitespace => if c == '.' || c == '\u{6d4}' {
            Some(SentenceMarkKind::PeriodLike)
        } else if c == '?' || c == '\u{61f}' {
            Some(SentenceMarkKind::QuestionLike)
        } else if c == '!' {
            Some(SentenceMarkKind::ExclamationLike)
        } else {
            None
        },
        SmartInsertionProfile::NoBoundarySpacing => if c == '.' || c == '\u{3002}' {
            Some(SentenceMarkKind::PeriodLike)
        } else if c == '?' || c == '\u{ff1f}' {
            Some(SentenceMarkKind::QuestionLike)
        } else if c == '!' || c == '\u{ff01}' {
            Some(SentenceMarkKind::ExclamationLike)
        } else {
            None
        },
        SmartInsertionProfile::Conservative => None,
    }
}

pub fn sentence_mark_kind(c: char, profile: SmartInsertionProfile) -> (r: Option<SentenceMarkKind>)
    ensures
        r == mark_kind(c, profile),
{
    match profile {
        SmartInsertionProfile::CasedWhitespace => if c == '.' {
            Some(SentenceMarkKind::PeriodLike)
        } else if c == '?' {
            Some(SentenceMarkKind::QuestionLike)
        } else if c == '!' {
            Some(SentenceMarkKind::ExclamationLike)
        } else {
            None
        },
        SmartInsertionProfile::UncasedWhitespace => if c == '.' || c == '\u{6d4}' {
            Some(SentenceMarkKind::PeriodLike)
        } else if c == '?' || c == '\u{61f}' {
            Some(SentenceMarkKind::QuestionLike)
        } else if c == '!' {
            Some(SentenceMarkKind::ExclamationLike)
        } else {
            None
        },
        SmartInsertionProfile::NoBoundarySpacing => if c == '.' || c == '\u{3002}' {
            Some(SentenceMarkKind::PeriodLike)
        } else if c == '?' || c == '\u{ff1f}' {
            Some(SentenceMarkKind::QuestionLike)
        } else if c == '!' || c == '\u{ff01}' {
            Some(SentenceMarkKind::ExclamationLike)
        } else {
            None
        },
        SmartInsertionProfile::Conservative => None,
    }
}

/// Whether `c` ends a sentence under `profile`.
pub open spec fn terminator(c: char, profile: SmartInsertionProfile) -> bool {
    mark_kind(c, profile) is Some
}

pub fn is_sentence_terminator(c: char, profile: SmartInsertionProfile) -> (r: bool)
    ensures
        r == terminator(c, profile),
{
    sentence_mark_kind(c, profile).is_some()
}

/// Whether `c` is clause punctuation (comma, semicolon, colon and their variants) under `profile`.
pub open spec fn clause_boundary(c: char, profile: SmartInsertionProfile) -> bool {
    match profile {
        SmartInsertionProfile::CasedWhitespace => c == ',' || c == ';' || c == ':' || c
            == '\u{ff0c}' || c == '\u{ff1b}' || c == '\u{ff1a}',
        SmartInsertionProfile::UncasedWhitespace => c == ',' || c == ';' || c == ':' || c
            == '\u{60c}' || c == '\u{61b}' || c == '\u{ff0c}' || c == '\u{ff1b}' || c
            == '\u{ff1a}',
        _ => false,
    }
}

pub fn is_clause_boundary_punctuation(c: char, profile: SmartInsertionProfile) -> (r: bool)
    ensures
        r == clause_boundary(c, profile),
{
    match profile {
        SmartInsertionProfile::CasedWhitespace => c == ',' || c == ';' || c == ':' || c
            == '\u{ff0c}' || c == '\u{ff1b}' || c == '\u{ff1a}',
        SmartInsertionProfile::UncasedWhitespace => c == ',' || c == ';' || c == ':' || c
            == '\u{60c}' || c == '\u{61b}' || c == '\u{ff0c}' || c == '\u{ff1b}' || c
            == '\u{ff1a}',
        _ => false,
    }
}

/// Whether the text that continues after the insertion lets a trailing mark go.
pub open spec fn continuation_allows(c: char, profile: SmartInsertionProfile) -> bool {
    match profile {
        SmartInsertionProfile::CasedWhitespace => unicode_lowercase(c) || unicode_numeric(c),
        SmartInsertionProfile::UncasedWhitespace | SmartInsertionProfile::NoBoundarySpacing =>
            unicode_alphabetic(c) || unicode_numeric(c),
        SmartInsertionProfile::Conservative => false,
    }
}

pub fn continuation_allows_punctuation_strip(
    right_non_whitespace_char: char,
    profile: SmartInsertionProfile,
) -> (r: bool)
    ensures
        r == continuation_allows(right_non_whitespace_char, profile),
{
    match profile {
        SmartInsertionProfile::CasedWhitespace => is_lowercase(right_non_whitespace_char)
            || is_numeric(right_non_whitespace_char),
        SmartInsertionProfile::UncasedWhitespace | SmartInsertionProfile::NoBoundarySpacing =>
            is_alphabetic(right_non_whitespace_char) || is_numeric(right_non_whitespace_char),
        SmartInsertionProfile::Conservative => false,
    }
}

pub fn is_word_like(c: char) -> (r: bool)
    ensures
        r == alphanumeric(c),
{
    is_alphanumeric(c)
}

/// The first character of `s` that is not whitespace.
pub open spec fn first_non_ws(s: Seq<char>) -> Option<char> {
    if leading_ws(s) < s.len() {
        Some(s[leading_ws(s) as int])
    } else {
        None
    }
}

/// The last character of `s` that is not whitespace.
pub open spec fn last_non_ws(s: Seq<char>) -> Option<char> {
    if trailing_ws(s) < s.len() {
        Some(s[s.len() - trailing_ws(s) - 1])
    } else {
        None
    }
}

pub fn first_non_whitespace_char(text: &str) -> (r: Option<char>)
    ensures
        r == first_non_ws(text@),
{
    let v = chars_of(text);
    let k = leading_ws_count(&v);
    if k < v.len() {
        Some(v[k])
    } else {
        None
    }
}

pub fn last_non_whitespace_char(text: &str) -> (r: Option<char>)
    ensures
        r == last_non_ws(text@),
{
    let v = chars_of(text);
    let k = trailing_ws_count(&v);
    if k < v.len() {
        Some(v[v.len() - k - 1])
    } else {
        None
    }
}

/// The last non-whitespace character of `s` when it ends a sentence under `profile`.
pub open spec fn trailing_mark(s: Seq<char>, profile: SmartInsertionProfile) -> Option<char> {
    match last_non_ws(s) {
        Some(c) => if terminator(c, profile) {
            Some(c)
        } else {
            None
        },
        None => None,
    }
}

pub fn trailing_sentence_punctuation_char(text: &str, profile: SmartInsertionProfile) -> (r: Option<
    char,
>)
    ensures
        r == trailing_mark(text@, profile),
{
    match last_non_whitespace_char(text) {
        Some(c) => if is_sentence_terminator(c, profile) {
            Some(c)
        } else {
            None
        },
        None => None,
    }
}

/// `s` without its last non-whitespace character; trailing whitespace is kept.
pub open spec fn strip_last_mark(s: Seq<char>) -> Seq<char> {
    let k = s.len() - trailing_ws(s);
    if k <= 0 {
        s
    } else {
        s.take(k - 1) + s.skip(k)
    }
}

pub fn strip_single_trailing_sentence_punctuation(text: &str) -> (r: String)
    ensures
        r@ == strip_last_mark(text@),
{
    let v = chars_of(text);
    let t = trailing_ws_count(&v);
    let k = v.len() - t;
    if k == 0 {
        return string_from_chars(&v);
    }
    let mut out = slice_chars(&v, 0, k - 1);
    let tail = slice_chars(&v, k, v.len());
    append_chars(&mut out, &tail);
    assert(v@.skip(k as int) =~= v@.subrange(k as int, v.len() as int));
    string_from_chars(&out)
}

/// Number of trailing characters of `s` that end a sentence under `profile`.
pub open spec fn trailing_marks(s: Seq<char>, profile: SmartInsertionProfile) -> nat
    decreases s.len(),
{
    if s.len() > 0 && terminator(s.last(), profile) {
        1 + trailing_marks(s.drop_last(), profile)
    } else {
        0
    }
}

/// Whether the last word of `s`, without its trailing sentence marks, holds a
/// `.` and a letter (an abbreviation such as `e.g.` or `U.S.A`).
pub open spec fn abbreviation_like(s: Seq<char>, profile: SmartInsertionProfile) -> bool {
    let ws = words(s);
    if ws.len() == 0 {
        false
    } else {
        let token = ws.last();
        let core = token.take(token.len() - trailing_marks(token, profile));
        has_char(core, '.') && exists|i: int| 0 <= i < core.len() && unicode_alphabetic(core[i])
    }
}


proof fn lemma_trailing_marks_is(s: Seq<char>, profile: SmartInsertionProfile, k: int)
    requires
        0 <= k <= s.len(),
        forall|j: int| s.len() - k <= j < s.len() ==> terminator(#[trigger] s[j], profile),
        k == s.len() || !terminator(s[s.len() - k - 1], profile),
    ensures
        trailing_marks(s, profile) == k,
    decreases k,
{
    if k > 0 {
        let t = s.drop_last();
        assert(terminator(s[s.len() - 1], profile));
        assert forall|j: int| t.len() - (k - 1) <= j < t.len() implies terminator(
            #[trigger] t[j],
            profile,
        ) by {
            assert(t[j] == s[j]);
        }
        if k - 1 < t.len() {
            assert(t[t.len() - (k - 1) - 1] == s[s.len() - k - 1]);
        }
        lemma_trailing_marks_is(t, profile, k - 1);
    }
}

pub fn has_abbreviation_like_internal_dots(text: &str, profile: SmartInsertionProfile) -> (r: bool)
    ensures
        r == abbreviation_like(text@, profile),
{
    let v = chars_of(text);
    let ws = split_words(&v);
    if ws.len() == 0 {
        return false;
    }
    let token = &ws[ws.len() - 1];
    assert(token@ == words(text@).last());
    let mut k: usize = 0;
    while k < token.len() && is_sentence_terminator(token[token.len() - 1 - k], profile)
        invariant
            k <= token.len(),
            forall|j: int| token.len() - k <= j < token.len() ==> terminator(#[trigger] token@[j], profile),
        decreases token.len() - k,
    {
        k = k + 1;
    }
    proof {
        lemma_trailing_marks_is(token@, profile, k as int);
    }
    let core_len = token.len() - k;
    let ghost core = token@.take(core_len as int);
    let mut has_dot = false;
    let mut has_alpha = false;
    let mut i: usize = 0;
    while i < core_len
        invariant
            core_len <= token.len(),
            core == token@.take(core_len as int),
            i <= core_len,
            has_dot == exists|j: int| 0 <= j < i && core[j] == '.',
            has_alpha == exists|j: int| 0 <= j < i && unicode_alphabetic(core[j]),
        decreases core_len - i,
    {
        let c = token[i];
        assert(core[i as int] == c);
        if c == '.' {
            has_dot = true;
        }
        if is_alphabetic(c) {
            has_alpha = true;
        }
        i = i + 1;
    }
    has_dot && has_alpha
}

/// Outcome of dropping a trailing sentence mark when the text continues after the insertion.
pub open spec fn sanitized(
    s: Seq<char>,
    ctx: TextInsertionContext,
    profile: SmartInsertionProfile,
) -> (Seq<char>, bool, Seq<char>) {
    if trailing_mark(s, profile) is None {
        (s, false, "no_candidate_punctuation"@)
    } else {
        match ctx.right_non_whitespace_char {
            None => (s, false, "no_right_continuation"@),
            Some(r) => if abbreviation_like(s, profile) {
                (s, false, "abbreviation_guard"@)
            } else if continuation_allows(r, profile) {
                (
                    strip_last_mark(s),
                    true,
                    if ctx.has_selection {
                        "selection_continuation_allows_strip"@
                    } else {
                        "non_selection_continuation_allows_strip"@
                    },
                )
            } else {
                (s, false, "right_continuation_disallows_strip"@)
            },
        }
    }
}

pub fn sanitize_trailing_sentence_punctuation(
    text: &str,
    context: &TextInsertionContext,
    profile: SmartInsertionProfile,
) -> (r: (String, bool, &'static str))
    ensures
        (r.0@, r.1, r.2@) == sanitized(text@, *context, profile),
{
    if trailing_sentence_punctuation_char(text, profile).is_none() {
        return (text.to_owned(), false, "no_candidate_punctuation");
    }
    let right = match context.right_non_whitespace_char {
        None => {
            return (text.to_owned(), false, "no_right_continuation");
        },
        Some(c) => c,
    };
    if has_abbreviation_like_internal_dots(text, profile) {
        return (text.to_owned(), false, "abbreviation_guard");
    }
    if continuation_allows_punctuation_strip(right, profile) {
        let reason = if context.has_selection {
            "selection_continuation_allows_strip"
        } else {
            "non_selection_continuation_allows_strip"
        };
        return (strip_single_trailing_sentence_punctuation(text), true, reason);
    }
    (text.to_owned(), false, "right_continuation_disallows_strip")
}

/// Outcome of removing an inserted trailing mark that the text right after the
/// insertion already supplies (or overrides).
pub open spec fn collapsed_boundary(
    s: Seq<char>,
    ctx: TextInsertionContext,
    profile: SmartInsertionProfile,
) -> (Seq<char>, bool, Seq<char>) {
    match trailing_mark(s, profile) {
        None => (s, false, "no_inserted_terminal_sentence_punctuation"@),
        Some(inserted) => match ctx.right_char {
            None => (s, false, "no_right_boundary_char"@),
            Some(right) => if right != inserted {
                let whitespace_profile = profile == SmartInsertionProfile::CasedWhitespace
                    || profile == SmartInsertionProfile::UncasedWhitespace;
                if terminator(right, profile) && whitespace_profile {
                    (
                        strip_last_mark(s),
                        true,
                        "conflicting_sentence_boundary_mark_prefer_right_boundary"@,
                    )
                } else if whitespace_profile && clause_boundary(right, profile) {
                    if mark_kind(inserted, profile) == Some(SentenceMarkKind::PeriodLike)
                        && abbreviation_like(s, profile) {
                        (s, false, "clause_boundary_abbreviation_guard"@)
                    } else {
                        (
                            strip_last_mark(s),
                            true,
                            "conflicting_clause_boundary_mark_prefer_right_boundary"@,
                        )
                    }
                } else {
                    (s, false, "right_boundary_mark_differs"@)
                }
            } else {
                (
                    strip_last_mark(s),
                    true,
                    match mark_kind(inserted, profile) {
                        Some(SentenceMarkKind::PeriodLike) => "duplicate_period_boundary"@,
                        Some(SentenceMarkKind::QuestionLike) => "duplicate_question_boundary"@,
                        Some(SentenceMarkKind::ExclamationLike) => "duplicate_exclamation_boundary"@,
                        None => "duplicate_boundary"@,
                    },
                )
            },
        },
    }
}

pub fn collapse_duplicate_boundary_sentence_punctuation(
    text: &str,
    context: &TextInsertionContext,
    profile: SmartInsertionProfile,
) -> (r: (String, bool, &'static str))
    ensures
        (r.0@, r.1, r.2@) == collapsed_boundary(text@, *context, profile),
{
    let inserted_mark = match trailing_sentence_punctuation_char(text, profile) {
        None => {
            return (text.to_owned(), false, "no_inserted_terminal_sentence_punctuation");
        },
        Some(c) => c,
    };
    let right_char = match context.right_char {
        None => {
            return (text.to_owned(), false, "no_right_boundary_char");
        },
        Some(c) => c,
    };
    if right_char != inserted_mark {
        let whitespace_profile = match profile {
            SmartInsertionProfile::CasedWhitespace | SmartInsertionProfile::UncasedWhitespace => true,
            _ => false,
        };
        let right_is_sentence_mark = is_sentence_terminator(right_char, profile);
        if right_is_sentence_mark && whitespace_profile {
            return (
                strip_single_trailing_sentence_punctuation(text),
                true,
                "conflicting_sentence_boundary_mark_prefer_right_boundary",
            );
        }
        if whitespace_profile && is_clause_boundary_punctuation(right_char, profile) {
            let period_like = match sentence_mark_kind(inserted_mark, profile) {
                Some(SentenceMarkKind::PeriodLike) => true,
                _ => false,
            };
            if period_like && has_abbreviation_like_internal_dots(text, profile) {
                return (text.to_owned(), false, "clause_boundary_abbreviation_guard");
            }
            return (
                strip_single_trailing_sentence_punctuation(text),
                true,
                "conflicting_clause_boundary_mark_prefer_right_boundary",
            );
        }
        return (text.to_owned(), false, "right_boundary_mark_differs");
    }
    let reason = match sentence_mark_kind(inserted_mark, profile) {
        Some(SentenceMarkKind::PeriodLike) => "duplicate_period_boundary",
        Some(SentenceMarkKind::QuestionLike) => "duplicate_question_boundary",
        Some(SentenceMarkKind::ExclamationLike) => "duplicate_exclamation_boundary",
        None => "duplicate_boundary",
    };
    (strip_single_trailing_sentence_punctuation(text), true, reason)
}

/// The internal-whitespace compaction strategy of a normalized language tag.
pub open spec fn compaction_strategy_for(lang: Seq<char>) -> Option<InternalSpaceCompactionStrategy> {
    if lang == "zh"@ || lang == "zh-tw"@ || lang == "yue"@ {
        Some(InternalSpaceCompactionStrategy::HanBoundaryOnly)
    } else if lang == "ja"@ {
        Some(InternalSpaceCompactionStrategy::JapaneseMixedScript)
    } else {
        None
    }
}

pub fn internal_space_compaction_strategy(normalized_language: &str) -> (r: Option<
    InternalSpaceCompactionStrategy,
>)
    ensures
        r == compaction_strategy_for(normalized_language@),
{
    if str_equals(normalized_language, "zh") || str_equals(normalized_language, "zh-tw")
        || str_equals(normalized_language, "yue") {
        Some(InternalSpaceCompactionStrategy::HanBoundaryOnly)
    } else if str_equals(normalized_language, "ja") {
        Some(InternalSpaceCompactionStrategy::JapaneseMixedScript)
    } else {
        None
    }
}

/// CJK unified ideographs (with extensions and compatibility ideographs).
pub open spec fn cjk_han(c: char) -> bool {
    let code = c as u32;
    ||| (0x3400 <= code <= 0x4DBF)
    ||| (0x4E00 <= code <= 0x9FFF)
    ||| (0xF900 <= code <= 0xFAFF)
    ||| (0x20000 <= code <= 0x2A6DF)
    ||| (0x2A700 <= code <= 0x2B73F)
    ||| (0x2B740 <= code <= 0x2B81F)
    ||| (0x2B820 <= code <= 0x2CEAF)
    ||| (0x2CEB0 <= code <= 0x2EBEF)
    ||| (0x30000 <= code <= 0x3134F)
}

pub fn is_cjk_han(c: char) -> (r: bool)
    ensures
        r == cjk_han(c),
{
    let code = c as u32;
    (0x3400 <= code && code <= 0x4DBF) || (0x4E00 <= code && code <= 0x9FFF) || (0xF900 <= code
        && code <= 0xFAFF) || (0x20000 <= code && code <= 0x2A6DF) || (0x2A700 <= code && code
        <= 0x2B73F) || (0x2B740 <= code && code <= 0x2B81F) || (0x2B820 <= code && code
        <= 0x2CEAF) || (0x2CEB0 <= code && code <= 0x2EBEF) || (0x30000 <= code && code
        <= 0x3134F)
}

/// CJK (full-width and ideographic) punctuation.
pub open spec fn cjk_punctuation(c: char) -> bool {
    ||| c == '\u{3002}'
    ||| c == '\u{ff01}'
    ||| c == '\u{ff1f}'
    ||| c == '\u{ff0c}'
    ||| c == '\u{3001}'
    ||| c == '\u{ff1b}'
    ||| c == '\u{ff1a}'
    ||| c == '\u{300c}'
    ||| c == '\u{300d}'
    ||| c == '\u{300e}'
    ||| c == '\u{300f}'
    ||| c == '\u{ff08}'
    ||| c == '\u{ff09}'
    ||| c == '\u{300a}'
    ||| c == '\u{300b}'
    ||| c == '\u{3008}'
    ||| c == '\u{3009}'
    ||| c == '\u{3010}'
    ||| c == '\u{3011}'
    ||| c == '\u{3014}'
    ||| c == '\u{3015}'
    ||| c == '\u{3016}'
    ||| c == '\u{3017}'
    ||| c == '\u{3018}'
    ||| c == '\u{3019}'
    ||| c == '\u{301a}'
    ||| c == '\u{301b}'
    ||| c == '\u{2026}'
    ||| c == '\u{ff0e}'
    ||| c == '\u{ff61}'
    ||| c == '\u{ff62}'
    ||| c == '\u{ff63}'
    ||| c == '\u{fe41}'
    ||| c == '\u{fe42}'
    ||| c == '\u{fe43}'
    ||| c == '\u{fe44}'
    ||| c == '\u{fe59}'
    ||| c == '\u{fe5a}'
    ||| c == '\u{fe5b}'
    ||| c == '\u{fe5c}'
    ||| c == '\u{fe5d}'
    ||| c == '\u{fe5e}'
    ||| c == '\u{fe63}'
    ||| c == '\u{ff0d}'
    ||| c == '\u{fe54}'
    ||| c == '\u{fe55}'
    ||| c == '\u{fe56}'
    ||| c == '\u{fe57}'
    ||| c == '\u{fe50}'
    ||| c == '\u{fe51}'
    ||| c == '\u{fe52}'
}

pub fn is_cjk_punctuation(c: char) -> (r: bool)
    ensures
        r == cjk_punctuation(c),
{
    c == '\u{3002}'
        || c == '\u{ff01}'
        || c == '\u{ff1f}'
        || c == '\u{ff0c}'
        || c == '\u{3001}'
        || c == '\u{ff1b}'
        || c == '\u{ff1a}'
        || c == '\u{300c}'
        || c == '\u{300d}'
        || c == '\u{300e}'
        || c == '\u{300f}'
        || c == '\u{ff08}'
        || c == '\u{ff09}'
        || c == '\u{300a}'
        || c == '\u{300b}'
        || c == '\u{3008}'
        || c == '\u{3009}'
        || c == '\u{3010}'
        || c == '\u{3011}'
        || c == '\u{3014}'
        || c == '\u{3015}'
        || c == '\u{3016}'
        || c == '\u{3017}'
        || c == '\u{3018}'
        || c == '\u{3019}'
        || c == '\u{301a}'
        || c == '\u{301b}'
        || c == '\u{2026}'
        || c == '\u{ff0e}'
        || c == '\u{ff61}'
        || c == '\u{ff62}'
        || c == '\u{ff63}'
        || c == '\u{fe41}'
        || c == '\u{fe42}'
        || c == '\u{fe43}'
        || c == '\u{fe44}'
        || c == '\u{fe59}'
        || c == '\u{fe5a}'
        || c == '\u{fe5b}'
        || c == '\u{fe5c}'
        || c == '\u{fe5d}'
        || c == '\u{fe5e}'
        || c == '\u{fe63}'
        || c == '\u{ff0d}'
        || c == '\u{fe54}'
        || c == '\u{fe55}'
        || c == '\u{fe56}'
        || c == '\u{fe57}'
        || c == '\u{fe50}'
        || c == '\u{fe51}'
        || c == '\u{fe52}'
}

/// Characters that belong to ASCII words, paths, URLs and the like.
pub open spec fn ascii_token(c: char) -> bool {
    ascii_alphanumeric(c) || c == '_' || c == '-' || c == '.' || c == '/' || c == '\\' || c == ':'
        || c == '@' || c == '#' || c == '+' || c == '=' || c == '~' || c == '%' || c == '&' || c
        == '$'
}

pub fn is_ascii_token_char(c: char) -> (r: bool)
    ensures
        r == ascii_token(c),
{
    is_ascii_alphanumeric(c) || c == '_' || c == '-' || c == '.' || c == '/' || c == '\\' || c
        == ':' || c == '@' || c == '#' || c == '+' || c == '=' || c == '~' || c == '%' || c
        == '&' || c == '$'
}

pub open spec fn cjk_boundary(c: char) -> bool {
    cjk_han(c) || cjk_punctuation(c)
}

pub fn is_cjk_compaction_boundary_char(c: char) -> (r: bool)
    ensures
        r == cjk_boundary(c),
{
    is_cjk_han(c) || is_cjk_punctuation(c)
}

pub open spec fn hiragana(c: char) -> bool {
    0x3040 <= (c as u32) <= 0x309F
}

pub fn is_japanese_hiragana(c: char) -> (r: bool)
    ensures
        r == hiragana(c),
{
    let code = c as u32;
    0x3040 <= code && code <= 0x309F
}

pub open spec fn katakana(c: char) -> bool {
    0x30A0 <= (c as u32) <= 0x30FF
}

pub fn is_japanese_katakana(c: char) -> (r: bool)
    ensures
        r == katakana(c),
{
    let code = c as u32;
    0x30A0 <= code && code <= 0x30FF
}

pub open spec fn katakana_extension(c: char) -> bool {
    0x31F0 <= (c as u32) <= 0x31FF
}

pub fn is_japanese_katakana_extensions(c: char) -> (r: bool)
    ensures
        r == katakana_extension(c),
{
    let code = c as u32;
    0x31F0 <= code && code <= 0x31FF
}

pub open spec fn halfwidth_katakana(c: char) -> bool {
    0xFF66 <= (c as u32) <= 0xFF9F
}

pub fn is_japanese_halfwidth_katakana(c: char) -> (r: bool)
    ensures
        r == halfwidth_katakana(c),
{
    let code = c as u32;
    0xFF66 <= code && code <= 0xFF9F
}

pub open spec fn iteration_mark(c: char) -> bool {
    c == '\u{3005}' || c == '\u{303b}'
}

pub fn is_japanese_iteration_mark(c: char) -> (r: bool)
    ensures
        r == iteration_mark(c),
{
    c == '\u{3005}' || c == '\u{303b}'
}

pub open spec fn japanese_script(c: char) -> bool {
    cjk_han(c) || hiragana(c) || katakana(c) || katakana_extension(c) || halfwidth_katakana(c)
        || iteration_mark(c)
}

pub fn is_japanese_script_char(c: char) -> (r: bool)
    ensures
        r == japanese_script(c),
{
    is_cjk_han(c) || is_japanese_hiragana(c) || is_japanese_katakana(c)
        || is_japanese_katakana_extensions(c) || is_japanese_halfwidth_katakana(c)
        || is_japanese_iteration_mark(c)
}

pub open spec fn japanese_boundary(c: char) -> bool {
    japanese_script(c) || cjk_punctuation(c)
}

pub fn is_japanese_compaction_boundary_char(c: char) -> (r: bool)
    ensures
        r == japanese_boundary(c),
{
    is_japanese_script_char(c) || is_cjk_punctuation(c)
}

/// Start of the maximal whitespace run that ends just before or at position `j`.
pub open spec fn ws_run_start(s: Seq<char>, j: int) -> int
    decreases j,
{
    if j > 0 && is_ws(s[j - 1]) {
        ws_run_start(s, j - 1)
    } else {
        j
    }
}

/// End (exclusive) of the maximal whitespace run that holds position `j`.
pub open spec fn ws_run_end(s: Seq<char>, j: int) -> int
    decreases s.len() - j,
{
    if 0 <= j && j + 1 < s.len() && is_ws(s[j + 1]) {
        ws_run_end(s, j + 1)
    } else {
        j + 1
    }
}

/// Whether the characters on both sides of a whitespace run call for joining them.
pub open spec fn compact_boundary(l: char, r: char, strategy: InternalSpaceCompactionStrategy) -> bool {
    match strategy {
        InternalSpaceCompactionStrategy::HanBoundaryOnly => cjk_boundary(l) && cjk_boundary(r),
        InternalSpaceCompactionStrategy::JapaneseMixedScript => (japanese_boundary(l) && (
        japanese_boundary(r) || ascii_token(r))) || (japanese_boundary(r) && (japanese_boundary(l)
            || ascii_token(l))),
    }
}

/// Whether the whitespace run `s[a..b]` is removed: it is interior, made of plain or
/// ideographic spaces only, does not separate two ASCII tokens, and sits at a script
/// boundary that the strategy compacts.
pub open spec fn compactable_run(
    s: Seq<char>,
    a: int,
    b: int,
    strategy: InternalSpaceCompactionStrategy,
) -> bool {
    &&& 0 < a < b < s.len()
    &&& forall|k: int| a <= k < b ==> (#[trigger] s[k] == ' ' || s[k] == '\u{3000}')
    &&& !(ascii_token(s[a - 1]) && ascii_token(s[b]))
    &&& compact_boundary(s[a - 1], s[b], strategy)
}

/// Whether the character at `j` is dropped by the compaction.
pub open spec fn removed_at(s: Seq<char>, j: int, strategy: InternalSpaceCompactionStrategy) -> bool {
    is_ws(s[j]) && compactable_run(s, ws_run_start(s, j), ws_run_end(s, j), strategy)
}

/// The characters of `s[..n]` that the compaction keeps.
pub open spec fn kept(s: Seq<char>, n: int, strategy: InternalSpaceCompactionStrategy) -> Seq<char>
    decreases n,
{
    if n <= 0 {
        Seq::empty()
    } else if removed_at(s, n - 1, strategy) {
        kept(s, n - 1, strategy)
    } else {
        kept(s, n - 1, strategy).push(s[n - 1])
    }
}

/// Result of compacting internal whitespace for CJK text: the text, whether anything
/// was removed, the reason, and how many characters were removed.
pub open spec fn compacted(s: Seq<char>, strategy: InternalSpaceCompactionStrategy) -> (
    Seq<char>,
    bool,
    Seq<char>,
    nat,
) {
    let out = kept(s, s.len() as int, strategy);
    let applied = out.len() < s.len();
    let saw_ws = exists|j: int| 0 <= j < s.len() && is_ws(s[j]);
    let reason = if !saw_ws {
        "no_whitespace_runs"@
    } else if applied {
        match strategy {
            InternalSpaceCompactionStrategy::HanBoundaryOnly => "cjk_boundary_space_removed"@,
            InternalSpaceCompactionStrategy::JapaneseMixedScript => "japanese_boundary_space_removed"@,
        }
    } else {
        match strategy {
            InternalSpaceCompactionStrategy::HanBoundaryOnly => "no_cjk_boundary_space_removed"@,
            InternalSpaceCompactionStrategy::JapaneseMixedScript =>
                "no_japanese_boundary_space_removed"@,
        }
    };
    (out, applied, reason, (s.len() - out.len()) as nat)
}

proof fn lemma_run_start(s: Seq<char>, a: int, k: int)
    requires
        0 <= a <= k < s.len(),
        a == 0 || !is_ws(s[a - 1]),
        forall|t: int| a <= t <= k ==> is_ws(#[trigger] s[t]),
    ensures
        ws_run_start(s, k) == a,
    decreases k - a,
{
    if k > a {
        lemma_run_start(s, a, k - 1);
    }
}

proof fn lemma_run_end(s: Seq<char>, b: int, k: int)
    requires
        0 <= k < b <= s.len(),
        b == s.len() || !is_ws(s[b]),
        forall|t: int| k <= t < b ==> is_ws(#[trigger] s[t]),
    ensures
        ws_run_end(s, k) == b,
    decreases b - k,
{
    if k + 1 < b {
        lemma_run_end(s, b, k + 1);
    }
}

proof fn lemma_kept_run(
    s: Seq<char>,
    a: int,
    b: int,
    m: int,
    strategy: InternalSpaceCompactionStrategy,
)
    requires
        0 <= a <= m <= b <= s.len(),
        a == 0 || !is_ws(s[a - 1]),
        b == s.len() || !is_ws(s[b]),
        forall|t: int| a <= t < b ==> is_ws(#[trigger] s[t]),
    ensures
        kept(s, m, strategy) == kept(s, a, strategy) + (if compactable_run(s, a, b, strategy) {
            Seq::empty()
        } else {
            s.subrange(a, m)
        }),
    decreases m - a,
{
    if m > a {
        lemma_kept_run(s, a, b, m - 1, strategy);
        lemma_run_start(s, a, m - 1);
        lemma_run_end(s, b, m - 1);
        assert(s.subrange(a, m) =~= s.subrange(a, m - 1).push(s[m - 1]));
        if !compactable_run(s, a, b, strategy) {
            assert(kept(s, a, strategy) + s.subrange(a, m) =~= (kept(s, a, strategy)
                + s.subrange(a, m - 1)).push(s[m - 1]));
        }
    } else {
        assert(kept(s, a, strategy) + Seq::empty() =~= kept(s, a, strategy));
        assert(s.subrange(a, a) =~= Seq::<char>::empty());
        assert(kept(s, a, strategy) + s.subrange(a, a) =~= kept(s, a, strategy));
    }
}

pub fn compact_internal_whitespace_for_cjk(
    text: &str,
    strategy: InternalSpaceCompactionStrategy,
) -> (r: (String, bool, &'static str, usize))
    ensures
        (r.0@, r.1, r.2@, r.3 as nat) == compacted(text@, strategy),
{
    let chars = chars_of(text);
    let ghost s = text@;
    let n = chars.len();
    let mut out: Vec<char> = Vec::new();
    let mut i: usize = 0;
    let mut saw_whitespace_run = false;
    let mut removed_chars: usize = 0;
    let mut applied = false;
    while i < n
        invariant
            chars@ == s,
            n == s.len(),
            i <= n,
            out@ == kept(s, i as int, strategy),
            out.len() + removed_chars == i,
            applied == (removed_chars > 0),
            saw_whitespace_run == exists|j: int| 0 <= j < i && is_ws(s[j]),
            i < n && is_ws(s[i as int]) ==> (i == 0 || !is_ws(s[i - 1])),
        decreases n - i,
    {
        if !is_whitespace(chars[i]) {
            out.push(chars[i]);
            i = i + 1;
            continue;
        }
        let run_start = i;
        while i < n && is_whitespace(chars[i])
            invariant
                chars@ == s,
                n == s.len(),
                run_start <= i <= n,
                forall|t: int| run_start <= t < i ==> is_ws(#[trigger] s[t]),
            decreases n - i,
        {
            i = i + 1;
        }
        let run_end = i;
        saw_whitespace_run = true;
        proof {
            lemma_kept_run(s, run_start as int, run_end as int, run_end as int, strategy);
        }
        let mut all_spaces = true;
        let mut t = run_start;
        while t < run_end
            invariant
                chars@ == s,
                n == s.len(),
                run_start <= t <= run_end <= n,
                all_spaces == forall|k: int| run_start <= k < t ==> (#[trigger] s[k] == ' ' || s[k]
                    == '\u{3000}'),
            decreases run_end - t,
        {
            if chars[t] != ' ' && chars[t] != '\u{3000}' {
                all_spaces = false;
            }
            t = t + 1;
        }
        let compactable = if run_start > 0 && run_end < n {
            let l = chars[run_start - 1];
            let r = chars[run_end];
            let preserve_ascii_phrase = is_ascii_token_char(l) && is_ascii_token_char(r);
            let boundary = match strategy {
                InternalSpaceCompactionStrategy::HanBoundaryOnly => is_cjk_compaction_boundary_char(
                    l,
                ) && is_cjk_compaction_boundary_char(r),
                InternalSpaceCompactionStrategy::JapaneseMixedScript => {
                    let left_ascii = is_ascii_token_char(l);
                    let right_ascii = is_ascii_token_char(r);
                    let left_japanese = is_japanese_compaction_boundary_char(l);
                    let right_japanese = is_japanese_compaction_boundary_char(r);
                    (left_japanese && (right_japanese || right_ascii)) || (right_japanese && (
                    left_japanese || left_ascii))
                },
            };
            boundary && all_spaces && !preserve_ascii_phrase
        } else {
            false
        };
        assert(compactable == compactable_run(s, run_start as int, run_end as int, strategy));
        if compactable {
            removed_chars = removed_chars + (run_end - run_start);
            applied = true;
        } else {
            let mut k = run_start;
            while k < run_end
                invariant
                    chars@ == s,
                    n == s.len(),
                    run_start <= k <= run_end <= n,
                    out@ == kept(s, run_start as int, strategy) + s.subrange(run_start as int, k as int),
                decreases run_end - k,
            {
                out.push(chars[k]);
                assert(s.subrange(run_start as int, k + 1) =~= s.subrange(run_start as int, k as int).push(s[k as int]));
                k = k + 1;
            }
        }
    }
    let reason = if !saw_whitespace_run {
        "no_whitespace_runs"
    } else if applied {
        match strategy {
            InternalSpaceCompactionStrategy::HanBoundaryOnly => "cjk_boundary_space_removed",
            InternalSpaceCompactionStrategy::JapaneseMixedScript => "japanese_boundary_space_removed",
        }
    } else {
        match strategy {
            InternalSpaceCompactionStrategy::HanBoundaryOnly => "no_cjk_boundary_space_removed",
            InternalSpaceCompactionStrategy::JapaneseMixedScript => "no_japanese_boundary_space_removed",
        }
    };
    (string_from_chars(&out), applied, reason, removed_chars)
}

/// Number of leading characters of `s` that are not alphabetic.
pub open spec fn non_alpha_prefix(s: Seq<char>) -> nat
    decreases s.len(),
{
    if s.len() > 0 && !unicode_alphabetic(s[0]) {
        1 + non_alpha_prefix(s.drop_first())
    } else {
        0
    }
}

proof fn lemma_non_alpha_prefix_is(s: Seq<char>, k: int)
    requires
        0 <= k <= s.len(),
        forall|j: int| 0 <= j < k ==> !unicode_alphabetic(#[trigger] s[j]),
        k == s.len() || unicode_alphabetic(s[k]),
    ensures
        non_alpha_prefix(s) == k,
    decreases k,
{
    if k > 0 {
        let t = s.drop_first();
        assert forall|j: int| 0 <= j < k - 1 implies !unicode_alphabetic(#[trigger] t[j]) by {
            assert(t[j] == s[j + 1]);
        }
        if k - 1 < t.len() {
            assert(t[k - 1] == s[k]);
        }
        lemma_non_alpha_prefix_is(t, k - 1);
    }
}

/// Byte offset and value of the first alphabetic character of `s`.
pub open spec fn first_alpha(s: Seq<char>) -> Option<(nat, char)> {
    let k = non_alpha_prefix(s);
    if k < s.len() {
        Some((utf8_len(s.take(k as int)), s[k as int]))
    } else {
        None
    }
}

/// Character position `i` and byte length of `s`: the position of the first alphabetic
/// character, found by a scan that also sums byte widths.
fn first_alpha_position(v: &Vec<char>, total_bytes: usize) -> (r: (usize, usize))
    requires
        utf8_len(v@) == total_bytes,
    ensures
        r.0 == non_alpha_prefix(v@),
        r.1 == utf8_len(v@.take(r.0 as int)),
{
    let mut i: usize = 0;
    let mut bytes: usize = 0;
    assert(v@.take(0) =~= Seq::<char>::empty());
    while i < v.len() && !is_alphabetic(v[i])
        invariant
            i <= v.len(),
            utf8_len(v@) == total_bytes,
            bytes == utf8_len(v@.take(i as int)),
            forall|j: int| 0 <= j < i ==> !unicode_alphabetic(#[trigger] v@[j]),
        decreases v.len() - i,
    {
        proof {
            lemma_utf8_len_take_step(v@, i as int);
            lemma_utf8_len_take_mono(v@, i + 1, v.len() as int);
        }
        bytes = bytes + char_utf8_width(v[i]);
        i = i + 1;
    }
    proof {
        lemma_non_alpha_prefix_is(v@, i as int);
    }
    (i, bytes)
}

pub fn first_alphabetic_char_index(text: &str) -> (r: Option<(usize, char)>)
    ensures
        match first_alpha(text@) {
            Some((b, c)) => r == Some((b as usize, c)),
            None => r is None,
        },
{
    let v = chars_of(text);
    let total = byte_len(text);
    let (i, bytes) = first_alpha_position(&v, total);
    if i < v.len() {
        Some((bytes, v[i]))
    } else {
        None
    }
}

/// Whether byte offset `index` starts a character of `s` (or is its end).
pub open spec fn char_boundary(s: Seq<char>, index: int) -> bool {
    exists|i: int| 0 <= i <= s.len() && utf8_len(s.take(i)) == index
}

/// The character position at byte offset `index`.
pub open spec fn char_position(s: Seq<char>, index: int) -> int {
    choose|i: int| 0 <= i <= s.len() && utf8_len(s.take(i)) == index
}

/// `s` with the character at byte offset `index` (if any) replaced by `replacement`.
pub open spec fn replaced_at(s: Seq<char>, index: int, replacement: Seq<char>) -> Seq<char> {
    let i = char_position(s, index);
    s.take(i) + replacement + s.skip(if i < s.len() { i + 1 } else { i })
}

proof fn lemma_char_position_unique(s: Seq<char>, index: int, i: int)
    requires
        0 <= i <= s.len(),
        utf8_len(s.take(i)) == index,
    ensures
        char_boundary(s, index),
        char_position(s, index) == i,
{
    let j = char_position(s, index);
    if j < i {
        lemma_utf8_len_take_mono(s, j, i);
    } else if j > i {
        lemma_utf8_len_take_mono(s, i, j);
    }
}

pub fn replace_char_at(text: &str, index: usize, replacement: String) -> (r: String)
    requires
        char_boundary(text@, index as int),
    ensures
        r@ == replaced_at(text@, index as int, replacement@),
{
    let v = chars_of(text);
    let total = byte_len(text);
    let ghost target = char_position(text@, index as int);
    let mut i: usize = 0;
    let mut bytes: usize = 0;
    assert(v@.take(0) =~= Seq::<char>::empty());
    while bytes < index && i < v.len()
        invariant
            i <= v.len(),
            v@ == text@,
            utf8_len(v@) == total,
            0 <= target <= v.len(),
            utf8_len(v@.take(target)) == index,
            bytes == utf8_len(v@.take(i as int)),
            i <= target,
        decreases v.len() - i,
    {
        proof {
            lemma_utf8_len_take_step(v@, i as int);
            lemma_utf8_len_take_mono(v@, i + 1, v.len() as int);
            if i + 1 > target {
                lemma_utf8_len_take_mono(v@, target, i as int);
            }
        }
        bytes = bytes + char_utf8_width(v[i]);
        i = i + 1;
    }
    proof {
        if i < target {
            lemma_utf8_len_take_mono(v@, i as int, target);
        }
        lemma_char_position_unique(v@, index as int, i as int);
    }
    let mut out = slice_chars(&v, 0, i);
    let rep = chars_of(replacement.as_str());
    append_chars(&mut out, &rep);
    let next = if i < v.len() {
        i + 1
    } else {
        i
    };
    let rest = slice_chars(&v, next, v.len());
    append_chars(&mut out, &rest);
    assert(v@.skip(next as int) =~= v@.subrange(next as int, v.len() as int));
    string_from_chars(&out)
}

/// `s` with its first alphabetic character uppercased, unless it already is uppercase.
pub open spec fn upper_first_alpha(s: Seq<char>) -> Option<Seq<char>> {
    let k = non_alpha_prefix(s);
    if k >= s.len() || unicode_uppercase(s[k as int]) {
        None
    } else {
        Some(s.take(k as int) + char_uppercase_mapping(s[k as int]) + s.skip(k + 1 as int))
    }
}

/// `s` with its first alphabetic character lowercased, unless it already is lowercase.
pub open spec fn lower_first_alpha(s: Seq<char>) -> Option<Seq<char>> {
    let k = non_alpha_prefix(s);
    if k >= s.len() || unicode_lowercase(s[k as int]) {
        None
    } else {
        Some(s.take(k as int) + char_lowercase_mapping(s[k as int]) + s.skip(k + 1 as int))
    }
}

pub fn uppercase_first_alphabetic(text: &str) -> (r: Option<String>)
    ensures
        match upper_first_alpha(text@) {
            Some(t) => r matches Some(x) && x@ == t,
            None => r is None,
        },
{
    let v = chars_of(text);
    let total = byte_len(text);
    let (i, bytes) = first_alpha_position(&v, total);
    if i >= v.len() {
        return None;
    }
    let first_char = v[i];
    if is_uppercase(first_char) {
        return None;
    }
    proof {
        lemma_char_position_unique(text@, bytes as int, i as int);
    }
    let upper = string_from_chars(&char_to_uppercase(first_char));
    Some(replace_char_at(text, bytes, upper))
}

pub fn lowercase_first_alphabetic(text: &str) -> (r: Option<String>)
    ensures
        match lower_first_alpha(text@) {
            Some(t) => r matches Some(x) && x@ == t,
            None => r is None,
        },
{
    let v = chars_of(text);
    let total = byte_len(text);
    let (i, bytes) = first_alpha_position(&v, total);
    if i >= v.len() {
        return None;
    }
    let first_char = v[i];
    if is_lowercase(first_char) {
        return None;
    }
    proof {
        lemma_char_position_unique(text@, bytes as int, i as int);
    }
    let lower = string_from_chars(&char_to_lowercase(first_char));
    Some(replace_char_at(text, bytes, lower))
}

/// The alphabetic characters of `s`, in order.
pub open spec fn alphabetic_chars(s: Seq<char>) -> Seq<char>
    decreases s.len(),
{
    if s.len() == 0 {
        Seq::empty()
    } else if unicode_alphabetic(s.last()) {
        alphabetic_chars(s.drop_last()).push(s.last())
    } else {
        alphabetic_chars(s.drop_last())
    }
}

/// Whether the first word of `s` looks like a capitalized word (`Word`, `Hello`) and not
/// like an acronym (`NASA`): at least two letters, the first uppercase, the rest not all
/// uppercase and some of them lowercase.
pub open spec fn title_like(s: Seq<char>) -> bool {
    let ws = words(s);
    if ws.len() == 0 {
        false
    } else {
        let a = alphabetic_chars(ws[0]);
        &&& a.len() >= 2
        &&& unicode_uppercase(a[0])
        &&& !(forall|i: int| 1 <= i < a.len() ==> unicode_uppercase(#[trigger] a[i]))
        &&& exists|i: int| 1 <= i < a.len() && unicode_lowercase(#[trigger] a[i])
    }
}

pub fn is_title_like_start(text: &str) -> (r: bool)
    ensures
        r == title_like(text@),
{
    let v = chars_of(text);
    let ws = split_words(&v);
    if ws.len() == 0 {
        return false;
    }
    let token = &ws[0];
    assert(token@ == words(text@)[0]);
    let mut alpha: Vec<char> = Vec::new();
    let mut i: usize = 0;
    assert(token@.take(0) =~= Seq::<char>::empty());
    while i < token.len()
        invariant
            i <= token.len(),
            alpha@ == alphabetic_chars(token@.take(i as int)),
        decreases token.len() - i,
    {
        assert(token@.take(i + 1).drop_last() =~= token@.take(i as int));
        if is_alphabetic(token[i]) {
            alpha.push(token[i]);
        }
        i = i + 1;
    }
    assert(token@.take(token.len() as int) =~= token@);
    if alpha.len() < 2 {
        return false;
    }
    let starts_upper = is_uppercase(alpha[0]);
    let mut rest_all_upper = true;
    let mut rest_has_lower = false;
    let mut j: usize = 1;
    while j < alpha.len()
        invariant
            1 <= j <= alpha.len(),
            rest_all_upper == forall|t: int| 1 <= t < j ==> unicode_uppercase(#[trigger] alpha@[t]),
            rest_has_lower == exists|t: int| 1 <= t < j && unicode_lowercase(#[trigger] alpha@[t]),
        decreases alpha.len() - j,
    {
        if !is_uppercase(alpha[j]) {
            rest_all_upper = false;
        }
        if is_lowercase(alpha[j]) {
            rest_has_lower = true;
        }
        j = j + 1;
    }
    starts_upper && !rest_all_upper && rest_has_lower
}

/// Whether the insertion point starts a sentence.
pub open spec fn sentence_start(ctx: TextInsertionContext, profile: SmartInsertionProfile) -> bool {
    match ctx.left_non_whitespace_char {
        None => true,
        Some(c) => terminator(c, profile),
    }
}

pub fn is_sentence_start(context: &TextInsertionContext, profile: SmartInsertionProfile) -> (r: bool)
    ensures
        r == sentence_start(*context, profile),
{
    match context.left_non_whitespace_char {
        None => true,
        Some(c) => is_sentence_terminator(c, profile),
    }
}

/// Whether `regex::Regex::new` accepts the pattern (named).
pub uninterp spec fn regex_compiles(pattern: Seq<char>) -> bool;

/// What `regex::Regex::replace_all` returns for a pattern, a haystack and a
/// replacement template (named: the regex engine takes pages to state).
pub uninterp spec fn regex_replace_all(pattern: Seq<char>, text: Seq<char>, replacement: Seq<char>) -> Seq<char>;

/// Compiles `pattern` with `regex::Regex::new` and, when it compiles, calls
/// `Regex::replace_all(text, replacement)`. Claims: the result is present exactly when
/// the pattern compiles, and is then the named `regex_replace_all` of the three inputs.
#[verifier::external_body]
fn regex_replace(pattern: &str, text: &str, replacement: &str) -> (r: Option<String>)
    ensures
        r is Some <==> regex_compiles(pattern@),
        r matches Some(out) ==> out@ == regex_replace_all(pattern@, text@, replacement@),
{
    match regex::Regex::new(pattern) {
        Ok(re) => Some(re.replace_all(text, replacement).into_owned()),
        Err(_) => None,
    }
}

/// One replacement step: the pattern's matches replaced, or the text unchanged when the
/// pattern does not compile.
pub open spec fn replace_step(pattern: Seq<char>, text: Seq<char>, replacement: Seq<char>) -> Seq<char> {
    if regex_compiles(pattern) {
        regex_replace_all(pattern, text, replacement)
    } else {
        text
    }
}

fn apply_replace(pattern: &str, text: String, replacement: &str) -> (r: String)
    ensures
        r@ == replace_step(pattern@, text@, replacement@),
{
    match regex_replace(pattern, text.as_str(), replacement) {
        Some(out) => out,
        None => text,
    }
}

/// One pass over the spoken-punctuation artifacts: a sentence mark before clause
/// punctuation, spaced duplicate marks, spaced duplicate dashes, conflicting marks.
pub open spec fn punctuation_pass(t: Seq<char>) -> Seq<char> {
    let t1 = replace_step("[.!?]\\s+([,;:])"@, t, "$1"@);
    let t2 = replace_step(",(?:\\s+,)+"@, t1, ","@);
    let t3 = replace_step("\\.(?:\\s+\\.)+"@, t2, "."@);
    let t4 = replace_step(";(?:\\s+;)+"@, t3, ";"@);
    let t5 = replace_step(":(?:\\s+:)+"@, t4, ":"@);
    let t6 = replace_step("!(?:\\s+!)+"@, t5, "!"@);
    let t7 = replace_step("\\?(?:\\s+\\?)+"@, t6, "?"@);
    let t8 = replace_step("(^|\\s)-\\s-(\\s|$)"@, t7, "$1-$2"@);
    let t9 = replace_step("(^|\\s)\u{2013}\\s\u{2013}(\\s|$)"@, t8, "$1\u{2013}$2"@);
    let t10 = replace_step("(^|\\s)\u{2014}\\s\u{2014}(\\s|$)"@, t9, "$1\u{2014}$2"@);
    replace_step("[.!?]\\s+([.!?])"@, t10, "$1"@)
}

/// Up to `rounds` passes, stopping early at a fixed point.
pub open spec fn punctuation_passes(t: Seq<char>, rounds: nat) -> Seq<char>
    decreases rounds,
{
    if rounds == 0 {
        t
    } else {
        let next = punctuation_pass(t);
        if next == t {
            next
        } else {
            punctuation_passes(next, (rounds - 1) as nat)
        }
    }
}

fn punctuation_pass_exec(t: String) -> (r: String)
    ensures
        r@ == punctuation_pass(t@),
{
    let t1 = apply_replace("[.!?]\\s+([,;:])", t, "$1");
    let t2 = apply_replace(",(?:\\s+,)+", t1, ",");
    let t3 = apply_replace("\\.(?:\\s+\\.)+", t2, ".");
    let t4 = apply_replace(";(?:\\s+;)+", t3, ";");
    let t5 = apply_replace(":(?:\\s+:)+", t4, ":");
    let t6 = apply_replace("!(?:\\s+!)+", t5, "!");
    let t7 = apply_replace("\\?(?:\\s+\\?)+", t6, "?");
    let t8 = apply_replace("(^|\\s)-\\s-(\\s|$)", t7, "$1-$2");
    let t9 = apply_replace("(^|\\s)\u{2013}\\s\u{2013}(\\s|$)", t8, "$1\u{2013}$2");
    let t10 = apply_replace("(^|\\s)\u{2014}\\s\u{2014}(\\s|$)", t9, "$1\u{2014}$2");
    apply_replace("[.!?]\\s+([.!?])", t10, "$1")
}

/// Collapses punctuation artifacts of spoken punctuation (`". ,"` to `","`, `". ."` to
/// `"."`), iterating up to three passes until nothing changes.
pub fn collapse_spaced_punctuation_artifacts(text: &str) -> (r: String)
    ensures
        r@ == punctuation_passes(text@, 3),
{
    let mut cleaned = text.to_owned();
    let mut round: usize = 0;
    while round < 3
        invariant
            round <= 3,
            punctuation_passes(cleaned@, (3 - round) as nat) == punctuation_passes(text@, 3),
        decreases 3 - round,
    {
        let previous = cleaned.clone();
        cleaned = punctuation_pass_exec(cleaned);
        if cleaned == previous {
            assert(punctuation_passes(previous@, (3 - round) as nat) == cleaned@);
            return cleaned;
        }
        round = round + 1;
    }
    cleaned
}

fn opt_word_like(o: Option<char>) -> (r: bool)
    ensures
        r == word_like_opt(o),
{
    match o {
        Some(c) => is_word_like(c),
        None => false,
    }
}

fn opt_terminator(o: Option<char>, profile: SmartInsertionProfile) -> (r: bool)
    ensures
        r == terminator_opt(o, profile),
{
    match o {
        Some(c) => is_sentence_terminator(c, profile),
        None => false,
    }
}

/// A present, alphanumeric character.
pub open spec fn word_like_opt(o: Option<char>) -> bool {
    match o {
        Some(c) => alphanumeric(c),
        None => false,
    }
}

/// A present sentence-ending mark.
pub open spec fn terminator_opt(o: Option<char>, profile: SmartInsertionProfile) -> bool {
    match o {
        Some(c) => terminator(c, profile),
        None => false,
    }
}

pub open spec fn starts_with_ws(s: Seq<char>) -> bool {
    s.len() > 0 && is_ws(s[0])
}

pub open spec fn ends_with_ws(s: Seq<char>) -> bool {
    s.len() > 0 && is_ws(s.last())
}

/// The casing step: capitalize at a sentence start, decapitalize a title-like word
/// mid-sentence; cased profiles only.
pub open spec fn cased(s: Seq<char>, ctx: TextInsertionContext, profile: SmartInsertionProfile) -> Seq<char> {
    let casing = profile == SmartInsertionProfile::CasedWhitespace;
    if casing && sentence_start(ctx, profile) {
        match upper_first_alpha(s) {
            Some(t) => t,
            None => s,
        }
    } else if casing && title_like(s) {
        match lower_first_alpha(s) {
            Some(t) => t,
            None => s,
        }
    } else {
        s
    }
}

/// Full formatting with a known context under a non-conservative profile.
pub open spec fn formatted_with_context(
    text: Seq<char>,
    ctx: TextInsertionContext,
    profile: SmartInsertionProfile,
    lang: Seq<char>,
) -> Seq<char> {
    let spacing = profile == SmartInsertionProfile::CasedWhitespace || profile
        == SmartInsertionProfile::UncasedWhitespace;
    let s1 = sanitized(text, ctx, profile).0;
    let s2 = collapsed_boundary(s1, ctx, profile).0;
    let s3 = match compaction_strategy_for(lang) {
        Some(strategy) => compacted(s2, strategy).0,
        None => s2,
    };
    let s4 = cased(s3, ctx, profile);
    let first = first_non_ws(s4);
    let last = last_non_ws(s4);
    let lead = spacing && (word_like_opt(ctx.left_char) || terminator_opt(ctx.left_char, profile))
        && word_like_opt(first) && !starts_with_ws(s4);
    let s5 = if lead {
        seq![' '] + s4
    } else {
        s4
    };
    let trail = spacing && word_like_opt(ctx.right_char) && (word_like_opt(last) || (
    word_like_opt(first) && terminator_opt(last, profile))) && !ends_with_ws(s5);
    if trail {
        s5.push(' ')
    } else {
        s5
    }
}

/// What `prepare_text_for_paste` pastes.
pub open spec fn prepared_for_paste(
    text: Seq<char>,
    enabled: bool,
    ctx: Option<TextInsertionContext>,
    selected_language: Seq<char>,
) -> Seq<char> {
    if !enabled {
        text
    } else {
        let lang = normalized_language(selected_language);
        let profile = profile_for(lang);
        if profile == SmartInsertionProfile::Conservative {
            let add_space = match ctx {
                None => true,
                Some(c) => word_like_opt(c.right_char) && word_like_opt(last_non_ws(text))
                    && !ends_with_ws(text),
            };
            if add_space {
                text + " "@
            } else {
                text
            }
        } else {
            match ctx {
                None => text + " "@,
                Some(c) => formatted_with_context(text, c, profile, lang),
            }
        }
    }
}

fn starts_with_whitespace(s: &String) -> (r: bool)
    ensures
        r == starts_with_ws(s@),
{
    let v = chars_of(s.as_str());
    v.len() > 0 && is_whitespace(v[0])
}

fn ends_with_whitespace(s: &String) -> (r: bool)
    ensures
        r == ends_with_ws(s@),
{
    let v = chars_of(s.as_str());
    v.len() > 0 && is_whitespace(v[v.len() - 1])
}

fn push_space(s: String) -> (r: String)
    ensures
        r@ == s@ + " "@,
{
    let mut v = chars_of(s.as_str());
    let sp = chars_of(" ");
    append_chars(&mut v, &sp);
    string_from_chars(&v)
}

fn prepend_space(s: String) -> (r: String)
    ensures
        r@ == seq![' '] + s@,
{
    let mut v = chars_of(" ");
    proof {
        reveal_strlit(" ");
    }
    let rest = chars_of(s.as_str());
    append_chars(&mut v, &rest);
    string_from_chars(&v)
}

/// Adapts a transcript to the text around the cursor before it is pasted.
///
/// Disabled: the text is unchanged. Conservative languages (auto, unknown, Turkish):
/// only a trailing space between words. Without context: a trailing space. Otherwise the
/// trailing mark is dropped where the text continues, duplicate or conflicting boundary
/// marks are collapsed, CJK spacing is compacted, casing follows the sentence position,
/// and spaces are added at word and sentence boundaries.
pub fn prepare_text_for_paste(
    text: &str,
    smart_insertion_enabled: bool,
    insertion_context: Option<TextInsertionContext>,
    selected_language: &str,
) -> (r: String)
    ensures
        r@ == prepared_for_paste(text@, smart_insertion_enabled, insertion_context, selected_language@),
        !smart_insertion_enabled ==> r@ == text@,
{
    if !smart_insertion_enabled {
        return text.to_owned();
    }
    let normalized_language = normalize_selected_language(selected_language);
    let (profile, _profile_reason) = resolve_smart_insertion_profile(normalized_language.as_str());
    if profile == SmartInsertionProfile::Conservative {
        let last_significant = last_non_whitespace_char(text);
        let owned = text.to_owned();
        let ends_ws = ends_with_whitespace(&owned);
        let trailing_space_added = match insertion_context {
            None => true,
            Some(context) => opt_word_like(context.right_char) && opt_word_like(last_significant)
                && !ends_ws,
        };
        return if trailing_space_added {
            push_space(owned)
        } else {
            owned
        };
    }
    let context = match insertion_context {
        None => {
            return push_space(text.to_owned());
        },
        Some(c) => c,
    };
    proof {
        reveal_strlit(" ");
        assert(" "@ =~= seq![' ']);
    }
    let ghost lang = normalized_language.view();
    let ghost s1 = sanitized(text@, context, profile).0;
    let ghost s2 = collapsed_boundary(s1, context, profile).0;
    let ghost s3 = match compaction_strategy_for(lang) {
        Some(strategy) => compacted(s2, strategy).0,
        None => s2,
    };
    let ghost s4 = cased(s3, context, profile);
    let spacing_enabled = match profile {
        SmartInsertionProfile::CasedWhitespace | SmartInsertionProfile::UncasedWhitespace => true,
        _ => false,
    };
    let casing_enabled = match profile {
        SmartInsertionProfile::CasedWhitespace => true,
        _ => false,
    };
    let sentence_start = is_sentence_start(&context, profile);
    let (sanitized_text, _strip_applied, _strip_reason) = sanitize_trailing_sentence_punctuation(
        text,
        &context,
        profile,
    );
    let (mut prepared, _collapse_applied, _collapse_reason) =
        collapse_duplicate_boundary_sentence_punctuation(sanitized_text.as_str(), &context, profile);
    match internal_space_compaction_strategy(normalized_language.as_str()) {
        Some(strategy) => {
            let (compacted_text, _applied, _reason, _removed) = compact_internal_whitespace_for_cjk(
                prepared.as_str(),
                strategy,
            );
            prepared = compacted_text;
        },
        None => {},
    }
    assert(prepared@ == s3);
    if casing_enabled && sentence_start {
        match uppercase_first_alphabetic(prepared.as_str()) {
            Some(capitalized) => {
                prepared = capitalized;
            },
            None => {},
        }
    } else if casing_enabled && is_title_like_start(prepared.as_str()) {
        match lowercase_first_alphabetic(prepared.as_str()) {
            Some(lowercased) => {
                prepared = lowercased;
            },
            None => {},
        }
    }
    assert(prepared@ == s4);
    let first_significant = first_non_whitespace_char(prepared.as_str());
    let last_significant = last_non_whitespace_char(prepared.as_str());
    let starts_ws = starts_with_whitespace(&prepared);
    let needs_leading_space = spacing_enabled && (opt_word_like(context.left_char) || opt_terminator(
        context.left_char,
        profile,
    )) && opt_word_like(first_significant) && !starts_ws;
    if needs_leading_space {
        prepared = prepend_space(prepared);
    }
    let ends_ws = ends_with_whitespace(&prepared);
    let needs_trailing_space = spacing_enabled && opt_word_like(context.right_char) && (opt_word_like(
        last_significant,
    ) || (opt_word_like(first_significant) && opt_terminator(last_significant, profile)))
        && !ends_ws;
    if needs_trailing_space {
        prepared = push_space(prepared);
    }
    assert(prepared@ == formatted_with_context(text@, context, profile, lang));
    prepared
}

/// With smart insertion off, the transcript is pasted exactly as it is.
pub proof fn law_disabled_pastes_text_unchanged(
    text: Seq<char>,
    ctx: Option<TextInsertionContext>,
    selected_language: Seq<char>,
)
    ensures
        prepared_for_paste(text, false, ctx, selected_language) == text,
{
}

/// For languages handled conservatively (auto-detect, unknown, Turkish) the transcript
/// itself is never altered: at most a space is appended.
pub proof fn law_conservative_only_appends_a_space(
    text: Seq<char>,
    ctx: Option<TextInsertionContext>,
    selected_language: Seq<char>,
)
    requires
        profile_for(normalized_language(selected_language)) == SmartInsertionProfile::Conservative,
    ensures
        prepared_for_paste(text, true, ctx, selected_language) == text || prepared_for_paste(
            text,
            true,
            ctx,
            selected_language,
        ) == text + " "@,
{
}

/// Without knowledge of the text around the cursor, the transcript is pasted followed by a
/// space, whatever the language.
pub proof fn law_no_context_appends_a_space(text: Seq<char>, selected_language: Seq<char>)
    ensures
        prepared_for_paste(text, true, None, selected_language) == text + " "@,
{
}

/// With a context, the formatted transcript is the cleaned-up text with at most one space
/// added before it and at most one after it; languages written without spaces between
/// words get no space at all, and only cased languages change letter case.
pub proof fn law_context_formatting_shape(
    text: Seq<char>,
    ctx: TextInsertionContext,
    profile: SmartInsertionProfile,
    lang: Seq<char>,
)
    ensures
        ({
            let s2 = collapsed_boundary(sanitized(text, ctx, profile).0, ctx, profile).0;
            let s3 = match compaction_strategy_for(lang) {
                Some(strategy) => compacted(s2, strategy).0,
                None => s2,
            };
            let s4 = cased(s3, ctx, profile);
            let r = formatted_with_context(text, ctx, profile, lang);
            &&& (r == s4 || r == seq![' '] + s4 || r == s4.push(' ') || r == (seq![' '] + s4).push(
                ' ',
            ))
            &&& profile != SmartInsertionProfile::CasedWhitespace ==> s4 == s3
            &&& profile == SmartInsertionProfile::NoBoundarySpacing ==> r == s3
        }),
{
}


proof fn lemma_kept_keeps_non_whitespace(s: Seq<char>, n: int, strategy: InternalSpaceCompactionStrategy)
    requires
        0 <= n <= s.len(),
    ensures
        kept(s, n, strategy).filter(|c: char| !is_ws(c)) == s.take(n).filter(|c: char| !is_ws(c)),
        kept(s, n, strategy).len() <= n,
    decreases n,
{
    reveal_with_fuel(Seq::filter, 1);
    if n > 0 {
        lemma_kept_keeps_non_whitespace(s, n - 1, strategy);
        assert(s.take(n).drop_last() =~= s.take(n - 1));
        assert(s.take(n).last() == s[n - 1]);
        if !removed_at(s, n - 1, strategy) {
            assert(kept(s, n, strategy).drop_last() =~= kept(s, n - 1, strategy));
        }
    } else {
        assert(s.take(0) =~= Seq::<char>::empty());
    }
}

/// Compacting whitespace in CJK text only removes whitespace: the characters that are not
/// whitespace all come out, in their order, and the text never grows.
pub proof fn law_cjk_compaction_removes_only_whitespace(
    s: Seq<char>,
    strategy: InternalSpaceCompactionStrategy,
)
    ensures
        compacted(s, strategy).0.filter(|c: char| !is_ws(c)) == s.filter(|c: char| !is_ws(c)),
        compacted(s, strategy).0.len() <= s.len(),
        compacted(s, strategy).3 == s.len() - compacted(s, strategy).0.len(),
{
    lemma_kept_keeps_non_whitespace(s, s.len() as int, strategy);
    assert(s.take(s.len() as int) =~= s);
}

/// Under a cased language, when nothing but whitespace lies left of the cursor (an empty
/// field, or the very start of the text), or the last mark before it ends a sentence (`.`,
/// `?`, `!`), the casing step capitalizes the first letter of the transcript and leaves
/// every other character as it is; a first letter that is already uppercase stays unchanged.
pub proof fn law_sentence_start_capitalizes(s: Seq<char>, ctx: TextInsertionContext, k: int)
    requires
        ctx.left_non_whitespace_char is None || (ctx.left_non_whitespace_char matches Some(c) && (c
            == '.' || c == '?' || c == '!')),
        0 <= k < s.len(),
        unicode_alphabetic(s[k]),
        forall|j: int| 0 <= j < k ==> !unicode_alphabetic(#[trigger] s[j]),
    ensures
        cased(s, ctx, SmartInsertionProfile::CasedWhitespace) == (if unicode_uppercase(s[k]) {
            s
        } else {
            s.take(k) + char_uppercase_mapping(s[k]) + s.skip(k + 1)
        }),
{
    lemma_non_alpha_prefix_is(s, k);
}

/// Under a cased language, a transcript without any letter is never recased, wherever the
/// cursor is.
pub proof fn law_no_letter_no_recasing(s: Seq<char>, ctx: TextInsertionContext)
    requires
        forall|j: int| 0 <= j < s.len() ==> !unicode_alphabetic(#[trigger] s[j]),
    ensures
        cased(s, ctx, SmartInsertionProfile::CasedWhitespace) == s,
{
    lemma_non_alpha_prefix_is(s, s.len() as int);
}

} // verus!

