use codictate::smart_insertion;
use codictate::smart_insertion::{
    SmartInsertionProfile,
    TextInsertionContext,
    collapse_spaced_punctuation_artifacts,
    normalize_selected_language,
    resolve_smart_insertion_profile,
};

fn context(
    left_char: Option<char>,
    left_non_whitespace_char: Option<char>,
    right_char: Option<char>,
    right_non_whitespace_char: Option<char>,
    has_selection: bool,
) -> TextInsertionContext {
    TextInsertionContext {
        left_char,
        left_non_whitespace_char,
        right_char,
        right_non_whitespace_char,
        has_selection,
    }
}

fn prepare_text_for_paste(
    text: &str,
    smart_insertion_enabled: bool,
    insertion_context: Option<TextInsertionContext>,
) -> String {
    smart_insertion::prepare_text_for_paste(text, smart_insertion_enabled, insertion_context, "en")
}

fn prepare_text_for_paste_with_language(
    text: &str,
    smart_insertion_enabled: bool,
    insertion_context: Option<TextInsertionContext>,
    selected_language: &str,
) -> String {
    smart_insertion::prepare_text_for_paste(
        text,
        smart_insertion_enabled,
        insertion_context,
        selected_language,
    )
}

#[test]
fn collapse_spaced_punctuation_artifacts_fixes_sentence_to_comma() {
    let output = collapse_spaced_punctuation_artifacts(
        "Today there are five hundred things I want to do. , let's try to make it a good day.",
    );
    assert_eq!(
        output,
        "Today there are five hundred things I want to do, let's try to make it a good day."
    );
}

#[test]
fn collapse_spaced_punctuation_artifacts_fixes_duplicate_full_stop() {
    let output = collapse_spaced_punctuation_artifacts("Let's try to make it a good day. .");
    assert_eq!(output, "Let's try to make it a good day.");
}

#[test]
fn collapse_spaced_punctuation_artifacts_keeps_regular_text_unchanged() {
    let input = "Yesterday I spent $10. Today is better.";
    assert_eq!(collapse_spaced_punctuation_artifacts(input), input);
}

#[test]
fn collapse_spaced_punctuation_artifacts_fixes_duplicate_hyphen_dash_variants() {
    let hyphen_output = collapse_spaced_punctuation_artifacts("alpha - - beta");
    let en_dash_output = collapse_spaced_punctuation_artifacts("alpha – – beta");
    let em_dash_output = collapse_spaced_punctuation_artifacts("alpha — — beta");

    assert_eq!(hyphen_output, "alpha - beta");
    assert_eq!(en_dash_output, "alpha – beta");
    assert_eq!(em_dash_output, "alpha — beta");
}

#[test]
fn collapse_spaced_punctuation_artifacts_preserves_negative_number_expression() {
    let input = "x - -1";
    assert_eq!(collapse_spaced_punctuation_artifacts(input), input);
}

#[test]
fn collapse_spaced_punctuation_artifacts_preserves_cli_double_dash() {
    let input = "run --help";
    assert_eq!(collapse_spaced_punctuation_artifacts(input), input);
}

#[test]
fn collapse_spaced_punctuation_artifacts_handles_start_of_text_dash_duplicate() {
    let input = "- - alpha";
    assert_eq!(collapse_spaced_punctuation_artifacts(input), "- alpha");
}

#[test]
fn collapse_spaced_punctuation_artifacts_handles_end_of_text_dash_duplicate() {
    let hyphen_output = collapse_spaced_punctuation_artifacts("alpha - -");
    let en_dash_output = collapse_spaced_punctuation_artifacts("alpha – –");
    let em_dash_output = collapse_spaced_punctuation_artifacts("alpha — —");

    assert_eq!(hyphen_output, "alpha -");
    assert_eq!(en_dash_output, "alpha –");
    assert_eq!(em_dash_output, "alpha —");
}

#[test]
fn language_normalization_and_profile_resolution() {
    let cases = [
        ("en-US", "en", SmartInsertionProfile::CasedWhitespace),
        ("pt-BR", "pt", SmartInsertionProfile::CasedWhitespace),
        ("zh-Hans", "zh", SmartInsertionProfile::NoBoundarySpacing),
        ("zh-TW", "zh-tw", SmartInsertionProfile::NoBoundarySpacing),
        ("tr", "tr", SmartInsertionProfile::Conservative),
        ("AUTO", "auto", SmartInsertionProfile::Conservative),
    ];

    for (input, expected_normalized, expected_profile) in cases {
        let normalized = normalize_selected_language(input);
        assert_eq!(normalized, expected_normalized);
        let (profile, _reason) = resolve_smart_insertion_profile(&normalized);
        assert_eq!(profile, expected_profile);
    }
}

#[test]
fn auto_language_uses_conservative_fallback() {
    let output = prepare_text_for_paste_with_language(
        "hello",
        true,
        Some(context(Some('o'), Some('o'), Some('w'), Some('w'), false)),
        "auto",
    );
    assert_eq!(output, "hello ");
}

#[test]
fn unknown_language_uses_conservative_fallback() {
    let output = prepare_text_for_paste_with_language(
        "hello",
        true,
        Some(context(Some('o'), Some('o'), Some('w'), Some('w'), false)),
        "haw",
    );
    assert_eq!(output, "hello ");
}

#[test]
fn conservative_profile_does_not_add_space_before_punctuation() {
    let output = prepare_text_for_paste_with_language(
        "hello",
        true,
        Some(context(Some('o'), Some('o'), Some(','), Some(','), false)),
        "auto",
    );
    assert_eq!(output, "hello");
}

#[test]
fn conservative_profile_preserves_existing_trailing_space() {
    let output = prepare_text_for_paste_with_language(
        "hello ",
        true,
        Some(context(Some('o'), Some('o'), Some('w'), Some('w'), false)),
        "auto",
    );
    assert_eq!(output, "hello ");
}

#[test]
fn conservative_profile_uses_legacy_trailing_space_when_context_unavailable() {
    let output = prepare_text_for_paste_with_language("hello", true, None, "auto");
    assert_eq!(output, "hello ");
}

#[test]
fn turkish_language_uses_conservative_fallback() {
    let output = prepare_text_for_paste_with_language(
        "merhaba",
        true,
        Some(context(Some('a'), Some('a'), Some('d'), Some('d'), false)),
        "tr",
    );
    assert_eq!(output, "merhaba ");
}

#[test]
fn unicode_digit_continuation_strips_trailing_punctuation() {
    let arabic_indic_output = prepare_text_for_paste(
        "hello?",
        true,
        Some(context(Some(' '), Some('e'), Some(' '), Some('٣'), false)),
    );
    assert_eq!(arabic_indic_output, "hello");

    let fullwidth_output = prepare_text_for_paste(
        "hello?",
        true,
        Some(context(Some(' '), Some('e'), Some(' '), Some('３'), false)),
    );
    assert_eq!(fullwidth_output, "hello");
}

#[test]
fn mid_sentence_decapitalize() {
    let output = prepare_text_for_paste(
        "Word",
        true,
        Some(context(Some(' '), Some('e'), None, None, false)),
    );
    assert_eq!(output, "word");
}

#[test]
fn new_sentence_capitalize() {
    let output = prepare_text_for_paste(
        "hello",
        true,
        Some(context(Some(' '), Some('.'), None, None, false)),
    );
    assert_eq!(output, "Hello");
}

#[test]
fn leading_space_added_between_words() {
    let output = prepare_text_for_paste(
        "new",
        true,
        Some(context(Some('o'), Some('o'), None, None, false)),
    );
    assert_eq!(output, " new");
}

#[test]
fn trailing_space_added_between_words() {
    let output = prepare_text_for_paste(
        "new",
        true,
        Some(context(Some(' '), Some('o'), Some('w'), Some('w'), false)),
    );
    assert_eq!(output, "new ");
}

#[test]
fn no_space_before_punctuation() {
    let output = prepare_text_for_paste(
        ",",
        true,
        Some(context(Some('o'), Some('o'), Some('w'), Some('w'), false)),
    );
    assert_eq!(output, ",");
}

#[test]
fn acronym_preserved() {
    let output = prepare_text_for_paste(
        "NASA",
        true,
        Some(context(Some(' '), Some('e'), None, None, false)),
    );
    assert_eq!(output, "NASA");
}

#[test]
fn context_unavailable_legacy_fallback() {
    let output = prepare_text_for_paste("hello", true, None);
    assert_eq!(output, "hello ");
}

#[test]
fn setting_disabled_no_transform() {
    let output = prepare_text_for_paste(
        "Hello",
        false,
        Some(context(Some('o'), Some('o'), Some('w'), Some('w'), false)),
    );
    assert_eq!(output, "Hello");
}

#[test]
fn selection_strips_trailing_question_mark_on_lowercase_continuation() {
    let output = prepare_text_for_paste(
        "hello?",
        true,
        Some(context(Some(' '), Some('e'), Some(' '), Some('s'), true)),
    );
    assert_eq!(output, "hello");
}

#[test]
fn selection_mid_sentence_strips_trailing_period() {
    let output = prepare_text_for_paste(
        "hello.",
        true,
        Some(context(Some(' '), Some('e'), Some(' '), Some('s'), true)),
    );
    assert_eq!(output, "hello");
}

#[test]
fn selection_mid_sentence_strips_trailing_exclamation() {
    let output = prepare_text_for_paste(
        "hello!",
        true,
        Some(context(Some(' '), Some('e'), Some(' '), Some('s'), true)),
    );
    assert_eq!(output, "hello");
}

#[test]
fn selection_preserves_trailing_punctuation_on_uppercase_continuation() {
    let output = prepare_text_for_paste(
        "hello?",
        true,
        Some(context(Some(' '), Some('e'), Some('S'), Some('S'), true)),
    );
    assert_eq!(output, "hello? ");
}

#[test]
fn selection_preserves_abbreviation_like_internal_dot() {
    let output = prepare_text_for_paste(
        "e.g.",
        true,
        Some(context(Some(' '), Some('e'), Some('s'), Some('s'), true)),
    );
    assert_eq!(output, "e.g. ");
}

#[test]
fn non_selection_strips_trailing_question_mark_on_lowercase_continuation() {
    let output = prepare_text_for_paste(
        "hello?",
        true,
        Some(context(Some(' '), Some('e'), Some(' '), Some('s'), false)),
    );
    assert_eq!(output, "hello");
}

#[test]
fn non_selection_strips_trailing_period_on_digit_continuation() {
    let output = prepare_text_for_paste(
        "hello.",
        true,
        Some(context(Some(' '), Some('e'), Some(' '), Some('2'), false)),
    );
    assert_eq!(output, "hello");
}

#[test]
fn non_selection_preserves_trailing_question_mark_on_uppercase_continuation() {
    let output = prepare_text_for_paste(
        "hello?",
        true,
        Some(context(Some(' '), Some('e'), Some('S'), Some('S'), false)),
    );
    assert_eq!(output, "hello? ");
}

#[test]
fn non_selection_preserves_abbreviation_like_internal_dot() {
    let output = prepare_text_for_paste(
        "e.g.",
        true,
        Some(context(Some(' '), Some('e'), Some('s'), Some('s'), false)),
    );
    assert_eq!(output, "e.g. ");
}

#[test]
fn punctuation_only_insert_does_not_add_sentence_boundary_trailing_space() {
    let output = prepare_text_for_paste(
        "?",
        true,
        Some(context(Some('d'), Some('d'), Some('S'), Some('S'), false)),
    );
    assert_eq!(output, "?");
}

#[test]
fn no_trailing_space_when_right_boundary_is_whitespace_after_punctuation() {
    let output = prepare_text_for_paste(
        "hello?",
        true,
        Some(context(Some(' '), Some('e'), Some(' '), Some('S'), false)),
    );
    assert_eq!(output, "hello?");
}

#[test]
fn collapse_duplicate_period_at_right_boundary() {
    let output = prepare_text_for_paste(
        "hello.",
        true,
        Some(context(Some(' '), Some('e'), Some('.'), Some('.'), false)),
    );
    assert_eq!(output, "hello");
}

#[test]
fn collapse_duplicate_question_mark_at_right_boundary() {
    let output = prepare_text_for_paste(
        "hello?",
        true,
        Some(context(Some(' '), Some('e'), Some('?'), Some('?'), false)),
    );
    assert_eq!(output, "hello");
}

#[test]
fn collapse_duplicate_exclamation_at_right_boundary() {
    let output = prepare_text_for_paste(
        "hello!",
        true,
        Some(context(Some(' '), Some('e'), Some('!'), Some('!'), false)),
    );
    assert_eq!(output, "hello");
}

#[test]
fn collapse_conflicting_boundary_mark_prefers_right_boundary() {
    let output = prepare_text_for_paste(
        "hello?",
        true,
        Some(context(Some(' '), Some('e'), Some('.'), Some('.'), false)),
    );
    assert_eq!(output, "hello");
}

#[test]
fn collapse_conflicting_exclamation_before_question_boundary() {
    let output = prepare_text_for_paste(
        "hello!",
        true,
        Some(context(Some(' '), Some('e'), Some('?'), Some('?'), false)),
    );
    assert_eq!(output, "hello");
}

#[test]
fn collapse_conflicting_period_before_question_boundary() {
    let output = prepare_text_for_paste(
        "hello.",
        true,
        Some(context(Some(' '), Some('e'), Some('?'), Some('?'), false)),
    );
    assert_eq!(output, "hello");
}

#[test]
fn collapse_sentence_period_before_comma_boundary_in_cased_profile() {
    let output = prepare_text_for_paste(
        "there.",
        true,
        Some(context(Some(' '), Some('o'), Some(','), Some(','), false)),
    );
    assert_eq!(output, "there");
}

#[test]
fn collapse_sentence_question_before_comma_boundary_in_cased_profile() {
    let output = prepare_text_for_paste(
        "hello?",
        true,
        Some(context(Some(' '), Some('o'), Some(','), Some(','), false)),
    );
    assert_eq!(output, "hello");
}

#[test]
fn collapse_sentence_exclamation_before_semicolon_boundary_in_cased_profile() {
    let output = prepare_text_for_paste(
        "hello!",
        true,
        Some(context(Some(' '), Some('o'), Some(';'), Some(';'), false)),
    );
    assert_eq!(output, "hello");
}

#[test]
fn preserve_abbreviation_period_before_comma_boundary() {
    let output = prepare_text_for_paste(
        "e.g.",
        true,
        Some(context(Some(' '), Some('o'), Some(','), Some(','), false)),
    );
    assert_eq!(output, "e.g.");
}

#[test]
fn preserve_abbreviation_period_before_colon_boundary() {
    let output = prepare_text_for_paste(
        "e.g.",
        true,
        Some(context(Some(' '), Some('o'), Some(':'), Some(':'), false)),
    );
    assert_eq!(output, "e.g.");
}

#[test]
fn punctuation_only_insert_before_clause_boundary_strips_inserted_mark() {
    let output = prepare_text_for_paste(
        "?",
        true,
        Some(context(Some('o'), Some('o'), Some(','), Some(','), false)),
    );
    assert_eq!(output, "");
}

#[test]
fn leading_space_added_after_period_boundary() {
    let output = prepare_text_for_paste(
        "what",
        true,
        Some(context(Some('.'), Some('.'), None, None, false)),
    );
    assert_eq!(output, " What");
}

#[test]
fn leading_space_added_after_question_boundary() {
    let output = prepare_text_for_paste(
        "what",
        true,
        Some(context(Some('?'), Some('?'), None, None, false)),
    );
    assert_eq!(output, " What");
}

#[test]
fn leading_space_added_after_exclamation_boundary() {
    let output = prepare_text_for_paste(
        "what",
        true,
        Some(context(Some('!'), Some('!'), None, None, false)),
    );
    assert_eq!(output, " What");
}

#[test]
fn uncased_profile_skips_casing_transform() {
    let output = prepare_text_for_paste_with_language(
        "Word",
        true,
        Some(context(Some(' '), Some('.'), None, None, false)),
        "ko",
    );
    assert_eq!(output, "Word");
}

#[test]
fn no_boundary_spacing_profile_avoids_word_spacing() {
    let output = prepare_text_for_paste_with_language(
        "世界",
        true,
        Some(context(
            Some('你'),
            Some('你'),
            Some('好'),
            Some('好'),
            false,
        )),
        "zh",
    );
    assert_eq!(output, "世界");
}

#[test]
fn no_boundary_profile_still_has_no_boundary_spacing() {
    let output = prepare_text_for_paste_with_language(
        "世界。",
        true,
        Some(context(Some('你'), Some('你'), Some('!'), Some('!'), false)),
        "zh",
    );
    assert_eq!(output, "世界。");
}

#[test]
fn zh_compacts_internal_han_space() {
    let output = prepare_text_for_paste_with_language(
        "是 請",
        true,
        Some(context(
            Some('你'),
            Some('你'),
            Some('好'),
            Some('好'),
            false,
        )),
        "zh",
    );
    assert_eq!(output, "是請");
}

#[test]
fn zh_tw_compacts_internal_han_space() {
    let output = prepare_text_for_paste_with_language(
        "是 請",
        true,
        Some(context(
            Some('你'),
            Some('你'),
            Some('好'),
            Some('好'),
            false,
        )),
        "zh-Hant",
    );
    assert_eq!(output, "是請");
}

#[test]
fn yue_compacts_internal_han_space() {
    let output = prepare_text_for_paste_with_language(
        "係 唔係",
        true,
        Some(context(
            Some('你'),
            Some('你'),
            Some('好'),
            Some('好'),
            false,
        )),
        "yue-HK",
    );
    assert_eq!(output, "係唔係");
}

#[test]
fn zh_compacts_sentence_boundary_space() {
    let output = prepare_text_for_paste_with_language(
        "你好。 再见",
        true,
        Some(context(
            Some('你'),
            Some('你'),
            Some('好'),
            Some('好'),
            false,
        )),
        "zh-Hans",
    );
    assert_eq!(output, "你好。再见");
}

#[test]
fn zh_preserves_ascii_phrase_space() {
    let output = prepare_text_for_paste_with_language(
        "Open AI",
        true,
        Some(context(
            Some('你'),
            Some('你'),
            Some('好'),
            Some('好'),
            false,
        )),
        "zh",
    );
    assert_eq!(output, "Open AI");
}

#[test]
fn zh_preserves_url_like_spacing() {
    let output = prepare_text_for_paste_with_language(
        "cdn example.com",
        true,
        Some(context(
            Some('你'),
            Some('你'),
            Some('好'),
            Some('好'),
            false,
        )),
        "zh",
    );
    assert_eq!(output, "cdn example.com");
}

#[test]
fn ja_compacts_japanese_mixed_script_spacing() {
    let output = prepare_text_for_paste_with_language(
        "私 は コーヒー を 飲みました。",
        true,
        Some(context(Some('こ'), Some('こ'), None, None, false)),
        "ja",
    );
    assert_eq!(output, "私はコーヒーを飲みました。");
}

#[test]
fn ja_compacts_ascii_to_japanese_boundary_spacing() {
    let output = prepare_text_for_paste_with_language(
        "iPhone 16 を 買った",
        true,
        Some(context(Some('こ'), Some('こ'), None, None, false)),
        "ja",
    );
    assert_eq!(output, "iPhone 16を買った");
}

#[test]
fn ja_compacts_numeric_to_japanese_spacing() {
    let output = prepare_text_for_paste_with_language(
        "3 時間 待ちました",
        true,
        Some(context(Some('こ'), Some('こ'), None, None, false)),
        "ja",
    );
    assert_eq!(output, "3時間待ちました");
}

#[test]
fn ja_compacts_katakana_to_hiragana_spacing() {
    let output = prepare_text_for_paste_with_language(
        "テスト です",
        true,
        Some(context(Some('こ'), Some('こ'), None, None, false)),
        "ja",
    );
    assert_eq!(output, "テストです");
}

#[test]
fn ja_compacts_kanji_to_katakana_spacing() {
    let output = prepare_text_for_paste_with_language(
        "東京 タワー",
        true,
        Some(context(Some('こ'), Some('こ'), None, None, false)),
        "ja",
    );
    assert_eq!(output, "東京タワー");
}

#[test]
fn ja_compacts_single_ascii_tokens_around_particle() {
    let output = prepare_text_for_paste_with_language(
        "A と B",
        true,
        Some(context(Some('こ'), Some('こ'), None, None, false)),
        "ja",
    );
    assert_eq!(output, "AとB");
}

#[test]
fn ja_preserves_ascii_phrase_but_compacts_japanese_boundaries() {
    let output = prepare_text_for_paste_with_language(
        "Open AI の API",
        true,
        Some(context(Some('こ'), Some('こ'), None, None, false)),
        "ja",
    );
    assert_eq!(output, "Open AIのAPI");
}

#[test]
fn ja_preserves_line_breaks_in_internal_whitespace_runs() {
    let output = prepare_text_for_paste_with_language(
        "私は\nコーヒー",
        true,
        Some(context(Some('こ'), Some('こ'), None, None, false)),
        "ja",
    );
    assert_eq!(output, "私は\nコーヒー");
}

#[test]
fn ja_preserves_emoji_spacing() {
    let output = prepare_text_for_paste_with_language(
        "了解 👍 です",
        true,
        Some(context(Some('こ'), Some('こ'), None, None, false)),
        "ja",
    );
    assert_eq!(output, "了解 👍 です");
}

#[test]
fn ja_compacts_halfwidth_katakana_boundaries() {
    let output = prepare_text_for_paste_with_language(
        "ﾃｽﾄ です",
        true,
        Some(context(Some('こ'), Some('こ'), None, None, false)),
        "ja",
    );
    assert_eq!(output, "ﾃｽﾄです");
}

#[test]
fn uncased_profile_handles_arabic_question_mark() {
    let output = prepare_text_for_paste_with_language(
        "مرحبا؟",
        true,
        Some(context(Some(' '), Some('ا'), Some(' '), Some('س'), false)),
        "ar",
    );
    assert_eq!(output, "مرحبا");
}

#[test]
fn no_boundary_profile_collapses_duplicate_cjk_period() {
    let output = prepare_text_for_paste_with_language(
        "你好。",
        true,
        Some(context(
            Some(' '),
            Some('好'),
            Some('。'),
            Some('。'),
            false,
        )),
        "zh-Hans",
    );
    assert_eq!(output, "你好");
}

#[test]
fn no_boundary_profile_preserves_abbreviation_like_internal_dot_with_cjk_terminal() {
    let output = prepare_text_for_paste_with_language(
        "U.S.A。",
        true,
        Some(context(Some(' '), Some('好'), Some(' '), Some('字'), false)),
        "zh-Hans",
    );
    assert_eq!(output, "U.S.A。");
}

#[test]
fn uncased_profile_preserves_abbreviation_like_internal_dot_with_arabic_terminal() {
    let output = prepare_text_for_paste_with_language(
        "e.g؟",
        true,
        Some(context(Some(' '), Some('ا'), Some('س'), Some('س'), false)),
        "ar",
    );
    assert_eq!(output, "e.g؟ ");
}

#[test]
fn uncased_profile_conflicting_mark_prefers_right_boundary() {
    let output = prepare_text_for_paste_with_language(
        "مرحبا؟",
        true,
        Some(context(Some(' '), Some('ا'), Some('.'), Some('.'), false)),
        "ar",
    );
    assert_eq!(output, "مرحبا");
}

#[test]
fn uncased_profile_collapses_arabic_question_before_arabic_comma_boundary() {
    let output = prepare_text_for_paste_with_language(
        "كيف؟",
        true,
        Some(context(Some(' '), Some('ا'), Some('،'), Some('،'), false)),
        "ar",
    );
    assert_eq!(output, "كيف");
}

#[test]
fn conservative_profile_clause_boundary_conflict_unchanged() {
    let output = prepare_text_for_paste_with_language(
        "hello.",
        true,
        Some(context(Some(' '), Some('o'), Some(','), Some(','), false)),
        "auto",
    );
    assert_eq!(output, "hello.");
}

#[test]
fn no_boundary_profile_clause_boundary_conflict_unchanged() {
    let output = prepare_text_for_paste_with_language(
        "你好。",
        true,
        Some(context(
            Some('你'),
            Some('你'),
            Some('，'),
            Some('，'),
            false,
        )),
        "zh-Hans",
    );
    assert_eq!(output, "你好。");
}

#[test]
fn no_boundary_profile_conflicting_mark_unchanged() {
    let output = prepare_text_for_paste_with_language(
        "你好？",
        true,
        Some(context(
            Some(' '),
            Some('好'),
            Some('。'),
            Some('。'),
            false,
        )),
        "zh-Hans",
    );
    assert_eq!(output, "你好？");
}

#[test]
fn conservative_profile_unchanged_for_punctuation_endings() {
    let output = prepare_text_for_paste_with_language(
        "hello?",
        true,
        Some(context(Some(' '), Some('e'), Some('S'), Some('S'), false)),
        "auto",
    );
    assert_eq!(output, "hello?");
}
