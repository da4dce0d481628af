//! Correction pipeline helpers: prompt interpolation and locating the corrected
//! counterpart of a selection inside an LLM-corrected sentence.

use vstd::prelude::*;
use crate::text::{append_chars, concat3, is_blank, opt_str_view, parse_i32_chars, parsed_i32, byte_len, char_utf8_width, chars_of, eq_ignore_ascii_case, is_whitespace, is_ws, leading_ws, leading_ws_count, lemma_utf8_len_take_mono, lemma_utf8_len_take_step, slice_chars, split_words, str_eq_ignore_ascii_case, str_equals, string_from_chars, trailing_ws, trailing_ws_count, trim, trim_chars, trim_end, utf8_len, views, words};

verus! {

/// Whether `p` occurs in `s` at position `i`.
pub open spec fn occurs_at(s: Seq<char>, p: Seq<char>, i: int) -> bool {
    0 <= i && i + p.len() <= s.len() && s.subrange(i, i + p.len()) == p
}

/// Character position of the first occurrence of `p` in `s` (`str::find`).
#[verifier::opaque]
pub open spec fn find_pos(s: Seq<char>, p: Seq<char>) -> Option<int> {
    if exists|i: int| occurs_at(s, p, i) {
        Some(choose|i: int| occurs_at(s, p, i) && forall|j: int| 0 <= j < i ==> !occurs_at(s, p, j))
    } else {
        None
    }
}

/// Whether `p` occurs at position `i` of `s`.
fn occurs_at_exec(s: &Vec<char>, p: &Vec<char>, i: usize) -> (r: bool)
    requires
        i <= s.len(),
    ensures
        r == occurs_at(s@, p@, i as int),
{
    if p.len() > s.len() - i {
        return false;
    }
    let mut k: usize = 0;
    while k < p.len()
        invariant
            i + p.len() <= s.len(),
            k <= p.len(),
            forall|t: int| 0 <= t < k ==> s@[i + t] == p@[t],
        decreases p.len() - k,
    {
        if s[i + k] != p[k] {
            assert(s@.subrange(i as int, i + p.len())[k as int] != p@[k as int]);
            return false;
        }
        k = k + 1;
    }
    assert(s@.subrange(i as int, i + p.len()) =~= p@);
    true
}

/// First occurrence of `p` in `s`, as a character position.
pub fn find_chars(s: &Vec<char>, p: &Vec<char>) -> (r: Option<usize>)
    ensures
        r matches Some(i) ==> find_pos(s@, p@) == Some(i as int) && occurs_at(s@, p@, i as int),
        r is None ==> find_pos(s@, p@) is None,
{
    let mut i: usize = 0;
    while i < s.len()
        invariant
            i <= s.len(),
            forall|j: int| 0 <= j < i ==> !occurs_at(s@, p@, j),
        decreases s.len() - i,
    {
        if occurs_at_exec(s, p, i) {
            proof {
                lemma_first_occurrence(s@, p@, i as int);
            }
            return Some(i);
        }
        i = i + 1;
    }
    if occurs_at_exec(s, p, i) {
        proof {
            lemma_first_occurrence(s@, p@, i as int);
        }
        return Some(i);
    }
    assert forall|j: int| !occurs_at(s@, p@, j) by {
        if 0 <= j < i {
        }
    }
    proof {
        reveal(find_pos);
    }
    None
}

proof fn lemma_first_occurrence(s: Seq<char>, p: Seq<char>, i: int)
    requires
        occurs_at(s, p, i),
        forall|j: int| 0 <= j < i ==> !occurs_at(s, p, j),
    ensures
        find_pos(s, p) == Some(i),
{
    reveal(find_pos);
    let c = choose|t: int| occurs_at(s, p, t) && forall|j: int| 0 <= j < t ==> !occurs_at(s, p, j);
    assert(occurs_at(s, p, c));
    if c < i {
        assert(!occurs_at(s, p, c));
    }
    if c > i {
        assert(!occurs_at(s, p, i));
    }
}

/// Leftmost, non-overlapping replacement of every `p` in `s` by `r` (`str::replace`).
pub open spec fn replaced(s: Seq<char>, p: Seq<char>, r: Seq<char>) -> Seq<char>
    recommends
        p.len() > 0,
    decreases s.len(),
{
    if p.len() == 0 || s.len() == 0 {
        s
    } else if occurs_at(s, p, 0) {
        r + replaced(s.skip(p.len() as int), p, r)
    } else {
        seq![s[0]] + replaced(s.drop_first(), p, r)
    }
}

/// `str::replace` for a non-empty pattern.
pub fn replace_all(s: &str, pattern: &str, replacement: &str) -> (out: String)
    requires
        pattern@.len() > 0,
    ensures
        out@ == replaced(s@, pattern@, replacement@),
{
    let v = chars_of(s);
    let p = chars_of(pattern);
    let rep = chars_of(replacement);
    let mut out: Vec<char> = Vec::new();
    let mut i: usize = 0;
    assert(v@.skip(0) =~= v@);
    while i < v.len()
        invariant
            p@ == pattern@,
            rep@ == replacement@,
            p.len() > 0,
            i <= v.len(),
            out@ + replaced(v@.skip(i as int), p@, rep@) == replaced(v@, p@, rep@),
        decreases v.len() - i,
    {
        let ghost rest = v@.skip(i as int);
        let m = occurs_at_exec(&v, &p, i);
        assert(m == occurs_at(rest, p@, 0)) by {
            if i + p.len() <= v.len() {
                assert(rest.subrange(0, p.len() as int) =~= v@.subrange(i as int, i + p.len()));
            }
        }
        if m {
            assert(rest.skip(p.len() as int) =~= v@.skip(i + p.len()));
            let ghost before = out@;
            append_chars(&mut out, &rep);
            assert(out@ + replaced(v@.skip(i + p.len()), p@, rep@) =~= before + (rep@ + replaced(
                rest.skip(p.len() as int),
                p@,
                rep@,
            )));
            i = i + p.len();
        } else {
            assert(rest.drop_first() =~= v@.skip(i + 1));
            let ghost before = out@;
            out.push(v[i]);
            assert(out@ + replaced(v@.skip(i + 1), p@, rep@) =~= before + (seq![rest[0]] + replaced(
                rest.drop_first(),
                p@,
                rep@,
            )));
            i = i + 1;
        }
    }
    assert(v@.skip(i as int) =~= Seq::<char>::empty());
    assert(out@ + Seq::<char>::empty() =~= out@);
    string_from_chars(&out)
}

/// The template with `${output}`, `${context}`, `${selection}`, `${hints}` and its
/// alias `${dictionary}` filled in, in that order.
pub open spec fn interpolated(
    template: Seq<char>,
    output: Seq<char>,
    context: Seq<char>,
    selection: Seq<char>,
    hints: Seq<char>,
) -> Seq<char> {
    let t1 = replaced(template, "${output}"@, output);
    let t2 = replaced(t1, "${context}"@, context);
    let t3 = replaced(t2, "${selection}"@, selection);
    let t4 = replaced(t3, "${hints}"@, hints);
    replaced(t4, "${dictionary}"@, hints)
}

/// Interpolate prompt variables: `${output}`, `${context}`, `${selection}`,
/// `${hints}`/`${dictionary}`.
pub fn interpolate_prompt(
    template: &str,
    output: &str,
    context: &str,
    selection: &str,
    hints: &str,
) -> (r: String)
    ensures
        r@ == interpolated(template@, output@, context@, selection@, hints@),
{
    proof {
        reveal_strlit("${output}");
        reveal_strlit("${context}");
        reveal_strlit("${selection}");
        reveal_strlit("${hints}");
        reveal_strlit("${dictionary}");
    }
    let t1 = replace_all(template, "${output}", output);
    let t2 = replace_all(t1.as_str(), "${context}", context);
    let t3 = replace_all(t2.as_str(), "${selection}", selection);
    let t4 = replace_all(t3.as_str(), "${hints}", hints);
    replace_all(t4.as_str(), "${dictionary}", hints)
}

/// Character positions of the whitespace characters that end a word.
pub open spec fn word_ends(s: Seq<char>) -> Seq<int>
    decreases s.len(),
{
    if s.len() == 0 {
        Seq::empty()
    } else {
        let k = s.len() - 1;
        if is_ws(s[k]) && k > 0 && !is_ws(s[k - 1]) {
            word_ends(s.drop_last()).push(k)
        } else {
            word_ends(s.drop_last())
        }
    }
}

proof fn lemma_word_ends_prefix(s: Seq<char>, m: int)
    requires
        0 <= m <= s.len(),
    ensures
        word_ends(s.take(m)).len() <= word_ends(s).len(),
        word_ends(s).take(word_ends(s.take(m)).len() as int) == word_ends(s.take(m)),
    decreases s.len() - m,
{
    if m == s.len() {
        assert(s.take(m) =~= s);
        assert(word_ends(s).take(word_ends(s).len() as int) =~= word_ends(s));
    } else {
        lemma_word_ends_prefix(s, m + 1);
        let t = s.take(m + 1);
        assert(t.drop_last() =~= s.take(m));
        let a = word_ends(s.take(m));
        let b = word_ends(t);
        let c = word_ends(s);
        assert(b.take(a.len() as int) =~= a);
        assert(c.take(a.len() as int) =~= c.take(b.len() as int).take(a.len() as int));
    }
}

/// Character position just after the first `n` words (at the whitespace that ends the
/// `n`-th word); for `n == 0` the position of the first word; the length when fewer than
/// `n` words are followed by whitespace.
pub open spec fn char_pos_after_words(s: Seq<char>, n: nat) -> int {
    if n == 0 {
        leading_ws(s) as int
    } else if n <= word_ends(s).len() {
        word_ends(s)[n - 1]
    } else {
        s.len() as int
    }
}

/// Character-position version of `find_byte_after_n_words`, with the byte offset.
fn pos_after_n_words(v: &Vec<char>, n: usize, total: usize) -> (r: (usize, usize))
    requires
        utf8_len(v@) == total,
    ensures
        r.0 == char_pos_after_words(v@, n as nat),
        r.0 <= v.len(),
        r.1 == utf8_len(v@.take(r.0 as int)),
{
    if n == 0 {
        let k = leading_ws_count(v);
        let mut bytes: usize = 0;
        let mut i: usize = 0;
        assert(v@.take(0) =~= Seq::<char>::empty());
        while i < k
            invariant
                k <= v.len(),
                utf8_len(v@) == total,
                i <= k,
                bytes == utf8_len(v@.take(i as int)),
            decreases k - i,
        {
            proof {
                lemma_utf8_len_take_step(v@, i as int);
                lemma_utf8_len_take_mono(v@, i + 1, v.len() as int);
            }
            bytes = bytes + char_utf8_width(v[i]);
            i = i + 1;
        }
        return (k, bytes);
    }
    let mut count: usize = 0;
    let mut in_word = false;
    let mut bytes: usize = 0;
    let mut i: usize = 0;
    assert(v@.take(0) =~= Seq::<char>::empty());
    while i < v.len()
        invariant
            n > 0,
            utf8_len(v@) == total,
            i <= v.len(),
            bytes == utf8_len(v@.take(i as int)),
            count == word_ends(v@.take(i as int)).len(),
            count < n,
            in_word == (i > 0 && !is_ws(v@[i - 1])),
        decreases v.len() - i,
    {
        let ghost t = v@.take(i + 1);
        assert(t.drop_last() =~= v@.take(i as int));
        if is_whitespace(v[i]) {
            if in_word {
                count = count + 1;
                assert(word_ends(t) == word_ends(v@.take(i as int)).push(i as int));
                if count == n {
                    proof {
                        lemma_word_ends_prefix(v@, i + 1);
                        assert(word_ends(v@).take(count as int)[n - 1] == i);
                    }
                    return (i, bytes);
                }
            }
            in_word = false;
        } else {
            in_word = true;
        }
        proof {
            lemma_utf8_len_take_step(v@, i as int);
            lemma_utf8_len_take_mono(v@, i + 1, v.len() as int);
        }
        bytes = bytes + char_utf8_width(v[i]);
        i = i + 1;
    }
    assert(v@.take(v.len() as int) =~= v@);
    (v.len(), bytes)
}

/// Byte offset in `text` after the first `n` whitespace-separated words: the offset of
/// the first word when `n == 0`, the length of `text` when fewer than `n` words end
/// before it.
pub fn find_byte_after_n_words(text: &str, n: usize) -> (r: usize)
    ensures
        r == utf8_len(text@.take(char_pos_after_words(text@, n as nat))),
{
    let v = chars_of(text);
    let total = byte_len(text);
    let (_, bytes) = pos_after_n_words(&v, n, total);
    bytes
}

/// The words joined by single spaces (`[&str]::join(" ")`).
pub open spec fn join_words(ws: Seq<Seq<char>>) -> Seq<char>
    decreases ws.len(),
{
    if ws.len() == 0 {
        Seq::empty()
    } else if ws.len() == 1 {
        ws[0]
    } else {
        join_words(ws.drop_last()) + seq![' '] + ws.last()
    }
}

fn join_with_spaces(ws: &Vec<Vec<char>>, from: usize, to: usize) -> (r: Vec<char>)
    requires
        from <= to <= ws.len(),
    ensures
        r@ == join_words(views(ws@).subrange(from as int, to as int)),
{
    let mut r: Vec<char> = Vec::new();
    let mut i = from;
    assert(views(ws@).subrange(from as int, from as int) =~= Seq::<Seq<char>>::empty());
    while i < to
        invariant
            from <= i <= to <= ws.len(),
            r@ == join_words(views(ws@).subrange(from as int, i as int)),
        decreases to - i,
    {
        let ghost part = views(ws@).subrange(from as int, i + 1);
        assert(part.drop_last() =~= views(ws@).subrange(from as int, i as int));
        assert(part.last() == ws@[i as int]@);
        if i > from {
            r.push(' ');
        } else {
            assert(r@ =~= Seq::<char>::empty());
        }
        append_chars(&mut r, &ws[i]);
        i = i + 1;
    }
    r
}

/// The corrected counterpart found by matching the preserved suffix: the trimmed text
/// between the end of the prefix words and the suffix, when both are found in order.
pub open spec fn suffix_match(corrected: Seq<char>, suffix: Seq<char>, prefix_words: nat) -> Option<
    Seq<char>,
> {
    if trim(suffix).len() > 0 && find_pos(corrected, trim(suffix)) is Some {
        let suffix_pos = find_pos(corrected, trim(suffix))->0;
        let prefix_end = char_pos_after_words(corrected, prefix_words);
        if prefix_end <= suffix_pos {
            Some(trim(corrected.subrange(prefix_end, suffix_pos)))
        } else {
            None
        }
    } else {
        None
    }
}

/// The corrected counterpart of a selection found at character position `start`.
pub open spec fn counterpart_at(
    original_context: Seq<char>,
    selected: Seq<char>,
    corrected: Seq<char>,
    start: int,
) -> Seq<char> {
    let prefix = original_context.take(start);
    let suffix = original_context.skip(start + selected.len());
    let prefix_words = words(prefix).len();
    let selected_words = words(selected).len();
    let corrected_words = words(corrected);
    if prefix_words + selected_words <= corrected_words.len() {
        join_words(
            corrected_words.subrange(prefix_words as int, (prefix_words + selected_words) as int),
        )
    } else {
        match suffix_match(corrected, suffix, prefix_words) {
            Some(t) => t,
            None => corrected,
        }
    }
}

/// The selection and its corrected counterpart, as `extract_selected_correction` finds them.
pub open spec fn extracted_correction(
    original_context: Seq<char>,
    selected: Seq<char>,
    corrected: Seq<char>,
) -> (Seq<char>, Seq<char>) {
    match find_pos(original_context, selected) {
        None => (selected, corrected),
        Some(start) => (selected, counterpart_at(original_context, selected, corrected, start)),
    }
}

fn suffix_match_exec(cc: &Vec<char>, suffix: &Vec<char>, prefix_words: usize, total: usize) -> (r:
    Option<Vec<char>>)
    requires
        utf8_len(cc@) == total,
    ensures
        match suffix_match(cc@, suffix@, prefix_words as nat) {
            Some(t) => r matches Some(x) && x@ == t,
            None => r is None,
        },
{
    let suffix_trimmed = trim_chars(suffix);
    if suffix_trimmed.len() == 0 {
        return None;
    }
    match find_chars(cc, &suffix_trimmed) {
        Some(suffix_pos) => {
            let (prefix_end, _) = pos_after_n_words(cc, prefix_words, total);
            if prefix_end <= suffix_pos {
                let middle = slice_chars(cc, prefix_end, suffix_pos);
                Some(trim_chars(&middle))
            } else {
                None
            }
        },
        None => None,
    }
}

fn counterpart_at_exec(oc: &Vec<char>, sel: &Vec<char>, cc: &Vec<char>, start: usize, total: usize) -> (r:
    Vec<char>)
    requires
        utf8_len(cc@) == total,
        start + sel@.len() <= oc@.len(),
    ensures
        r@ == counterpart_at(oc@, sel@, cc@, start as int),
{
    let prefix = slice_chars(oc, 0, start);
    assert(start + sel.len() <= oc.len());
    let suffix_start = start + sel.len();
    let suffix = slice_chars(oc, suffix_start, oc.len());
    assert(prefix@ =~= oc@.take(start as int));
    assert(suffix@ =~= oc@.skip(start + sel.len()));
    let prefix_word_count = split_words(&prefix).len();
    let selected_word_count = split_words(sel).len();
    let corrected_words = split_words(cc);
    if selected_word_count <= corrected_words.len() && prefix_word_count <= corrected_words.len()
        - selected_word_count {
        return join_with_spaces(
            &corrected_words,
            prefix_word_count,
            prefix_word_count + selected_word_count,
        );
    }
    match suffix_match_exec(cc, &suffix, prefix_word_count, total) {
        Some(t) => t,
        None => slice_chars(cc, 0, cc.len()),
    }
}

/// Extract the correction for a selected word or phrase from a corrected full sentence:
/// the words at the selection's word offset, else the text between the prefix words and
/// the preserved suffix, else the whole corrected text.
pub fn extract_selected_correction(
    original_context: &str,
    selected_text: &str,
    corrected_context: &str,
) -> (r: (String, String))
    ensures
        (r.0@, r.1@) == extracted_correction(original_context@, selected_text@, corrected_context@),
{
    let oc = chars_of(original_context);
    let sel = chars_of(selected_text);
    let cc = chars_of(corrected_context);
    match find_chars(&oc, &sel) {
        None => (selected_text.to_owned(), corrected_context.to_owned()),
        Some(start) => {
            let total = byte_len(corrected_context);
            let picked = counterpart_at_exec(&oc, &sel, &cc, start, total);
            assert(cc@.subrange(0, cc.len() as int) =~= cc@);
            (selected_text.to_owned(), string_from_chars(&picked))
        },
    }
}

/// `corrected` without the period an LLM appended, when the selection sits mid-sentence
/// and the original had no period.
pub open spec fn period_stripped(original: Seq<char>, corrected: Seq<char>, has_suffix: bool) -> Seq<
    char,
> {
    let ct = trim_end(corrected);
    if ct.len() > 0 && ct.last() == '.' && !(trim_end(original).len() > 0 && trim_end(
        original,
    ).last() == '.') && has_suffix {
        ct.drop_last()
    } else {
        corrected
    }
}

fn ends_with_period_after_trim(v: &Vec<char>) -> (r: (bool, usize))
    ensures
        r.1 == v.len() - trailing_ws(v@),
        r.0 == (trim_end(v@).len() > 0 && trim_end(v@).last() == '.'),
{
    let t = trailing_ws_count(v);
    let k = v.len() - t;
    (k > 0 && v[k - 1] == '.', k)
}

/// Strip a trailing period that an LLM added to a mid-sentence correction.
pub fn strip_trailing_period(original: &str, corrected: &str, has_suffix: bool) -> (r: String)
    ensures
        r@ == period_stripped(original@, corrected@, has_suffix),
{
    let cv = chars_of(corrected);
    let ov = chars_of(original);
    let (c_dot, k) = ends_with_period_after_trim(&cv);
    let (o_dot, _) = ends_with_period_after_trim(&ov);
    if c_dot && !o_dot && has_suffix {
        let stripped = slice_chars(&cv, 0, k - 1);
        assert(stripped@ =~= trim_end(cv@).drop_last());
        string_from_chars(&stripped)
    } else {
        corrected.to_owned()
    }
}

/// The outcome of a correction: the selected text, its correction, and whether they differ.
#[derive(Clone, Debug, PartialEq, Eq)]
pub struct CorrectionResult {
    pub original: String,
    pub corrected: String,
    pub has_changes: bool,
}

/// What a correction sends to the language model.
#[derive(Clone, Debug, PartialEq, Eq)]
pub struct CorrectionRequest {
    /// The selected text (or the word at the cursor).
    pub selected_text: String,
    /// The text the model corrects.
    pub text_for_llm: String,
    /// The model sees the whole context, in which the selection occurs.
    pub use_full_context: bool,
}

/// The model sees the whole context when the context is not empty and holds the selection
/// (so that homophones are judged in their sentence).
pub open spec fn uses_full_context(context: Seq<char>, selected: Seq<char>) -> bool {
    context.len() > 0 && find_pos(context, selected) is Some
}

/// Decides what to correct: fails with `no_text` when nothing is selected; otherwise sends
/// the whole context when it holds the selection, else the selection alone.
pub fn prepare_correction(selected_text: Option<&str>, context: &str) -> (r: Result<
    CorrectionRequest,
    String,
>)
    ensures
        ({
            let sel = match selected_text {
                Some(s) => s@,
                None => Seq::<char>::empty(),
            };
            &&& sel.len() == 0 ==> (r matches Err(e) && e@ == "no_text"@)
            &&& sel.len() > 0 ==> (r matches Ok(q) && q.selected_text@ == sel
                && q.use_full_context == uses_full_context(context@, sel) && q.text_for_llm@ == (
            if q.use_full_context {
                context@
            } else {
                sel
            }))
        }),
{
    let selected = match selected_text {
        Some(s) => s.to_string(),
        None => String::new(),
    };
    let sv = chars_of(selected.as_str());
    if sv.len() == 0 {
        return Err("no_text".to_string());
    }
    let cv = chars_of(context);
    let found = find_chars(&cv, &sv);
    let use_full_context = cv.len() > 0 && found.is_some();
    assert(use_full_context == uses_full_context(context@, selected@));
    let text_for_llm = if use_full_context {
        context.to_string()
    } else {
        selected.clone()
    };
    Ok(CorrectionRequest { selected_text: selected, text_for_llm, use_full_context })
}

/// Text follows the selection in the context (the selection sits mid-sentence).
pub open spec fn has_text_after(context: Seq<char>, selected: Seq<char>) -> bool {
    match find_pos(context, selected) {
        Some(p) => trim(context.skip(p + selected.len())).len() > 0,
        None => false,
    }
}

/// The correction result from the model's output: the trimmed output (or, with the full
/// context, the part of it that corresponds to the selection), without a period the model
/// added mid-sentence, trimmed; it has changes when it differs from the trimmed original.
pub open spec fn correction_outcome(
    selected: Seq<char>,
    context: Seq<char>,
    use_full_context: bool,
    llm_output: Seq<char>,
) -> (Seq<char>, Seq<char>, bool) {
    let corrected_full = trim(llm_output);
    let pair = if use_full_context {
        extracted_correction(context, selected, corrected_full)
    } else {
        (selected, corrected_full)
    };
    let has_suffix = use_full_context && has_text_after(context, selected);
    let corrected = trim(period_stripped(pair.0, pair.1, has_suffix));
    (selected, corrected, corrected != trim(pair.0))
}

fn trim_str(s: &str) -> (r: String)
    ensures
        r@ == trim(s@),
{
    let v = chars_of(s);
    string_from_chars(&trim_chars(&v))
}

/// Builds the correction result from the model's output for a prepared request.
pub fn finish_correction(request: &CorrectionRequest, context: &str, llm_output: &str) -> (r:
    CorrectionResult)
    ensures
        (r.original@, r.corrected@, r.has_changes) == correction_outcome(
            request.selected_text@,
            context@,
            request.use_full_context,
            llm_output@,
        ),
{
    let corrected_full = trim_str(llm_output);
    let selected = request.selected_text.as_str();
    let (original_for_compare, corrected_for_result) = if request.use_full_context {
        extract_selected_correction(context, selected, corrected_full.as_str())
    } else {
        (selected.to_string(), corrected_full.clone())
    };
    let has_suffix = if request.use_full_context {
        let cv = chars_of(context);
        let sv = chars_of(selected);
        match find_chars(&cv, &sv) {
            Some(start) => {
                let after = slice_chars(&cv, start + sv.len(), cv.len());
                assert(after@ =~= context@.skip(start + selected@.len()));
                trim_chars(&after).len() > 0
            },
            None => false,
        }
    } else {
        false
    };
    let stripped = strip_trailing_period(
        original_for_compare.as_str(),
        corrected_for_result.as_str(),
        has_suffix,
    );
    let corrected = trim_str(stripped.as_str());
    let original_trimmed = trim_str(original_for_compare.as_str());
    let has_changes = !str_equals(corrected.as_str(), original_trimmed.as_str());
    CorrectionResult { original: request.selected_text.clone(), corrected, has_changes }
}

/// The invisible characters removed from a model's answer.
pub open spec fn is_invisible(c: char) -> bool {
    c == '\u{200B}' || c == '\u{200C}' || c == '\u{200D}' || c == '\u{FEFF}'
}

/// Removes zero-width spaces, joiners and byte-order marks from a model's answer.
pub fn strip_invisible_characters(content: &str) -> (r: String)
    ensures
        r@ == content@.filter(|c: char| !is_invisible(c)),
{
    let v = chars_of(content);
    let mut out: Vec<char> = Vec::new();
    let mut i: usize = 0;
    while i < v.len()
        invariant
            i <= v.len(),
            out@ == v@.take(i as int).filter(|c: char| !is_invisible(c)),
        decreases v.len() - i,
    {
        assert(v@.take(i + 1).drop_last() =~= v@.take(i as int));
        reveal_with_fuel(Seq::filter, 1);
        let c = v[i];
        if !(c == '\u{200B}' || c == '\u{200C}' || c == '\u{200D}' || c == '\u{FEFF}') {
            out.push(c);
        }
        i = i + 1;
    }
    assert(v@.take(v.len() as int) =~= v@);
    string_from_chars(&out)
}

/// A dictionary entry: a word to recognize, and what to write for it.
#[derive(Clone, Debug, PartialEq, Eq)]
pub struct CustomWordEntry {
    pub input: String,
    pub replacement: String,
    pub is_replacement: bool,
}

/// How many dictionary entries a correction prompt hints at, at most.
pub const MAX_DICTIONARY_HINTS: usize = 50;

/// The hint line for a dictionary entry: a strict replacement, a vocabulary word (input
/// and replacement equal up to ASCII case), or a contextual replacement.
pub open spec fn hint_line(e: CustomWordEntry) -> Seq<char> {
    if e.is_replacement {
        "- Use '"@ + e.replacement@ + "' instead of '"@ + e.input@ + "'"@
    } else if eq_ignore_ascii_case(e.input@, e.replacement@) {
        "- Vocabulary: '"@ + e.replacement@ + "'"@
    } else {
        "- Use '"@ + e.replacement@ + "' contextually for '"@ + e.input@ + "'"@
    }
}

/// Lines joined with newlines.
pub open spec fn join_lines(lines: Seq<Seq<char>>) -> Seq<char>
    decreases lines.len(),
{
    if lines.len() == 0 {
        Seq::empty()
    } else if lines.len() == 1 {
        lines[0]
    } else {
        join_lines(lines.drop_last()) + seq!['\n'] + lines.last()
    }
}

/// The dictionary hints of a correction prompt: one line for each of the first
/// `MAX_DICTIONARY_HINTS` entries.
pub open spec fn dictionary_hint_text(entries: Seq<CustomWordEntry>) -> Seq<char> {
    let n = if entries.len() < MAX_DICTIONARY_HINTS {
        entries.len() as int
    } else {
        MAX_DICTIONARY_HINTS as int
    };
    join_lines(entries.take(n).map_values(|e: CustomWordEntry| hint_line(e)))
}

fn hint_line_exec(e: &CustomWordEntry) -> (r: Vec<char>)
    ensures
        r@ == hint_line(*e),
{
    let input = chars_of(e.input.as_str());
    let replacement = chars_of(e.replacement.as_str());
    let mut out: Vec<char>;
    if e.is_replacement {
        out = chars_of("- Use '");
        append_chars(&mut out, &replacement);
        append_chars(&mut out, &chars_of("' instead of '"));
        append_chars(&mut out, &input);
        append_chars(&mut out, &chars_of("'"));
    } else if str_eq_ignore_ascii_case(e.input.as_str(), e.replacement.as_str()) {
        out = chars_of("- Vocabulary: '");
        append_chars(&mut out, &replacement);
        append_chars(&mut out, &chars_of("'"));
    } else {
        out = chars_of("- Use '");
        append_chars(&mut out, &replacement);
        append_chars(&mut out, &chars_of("' contextually for '"));
        append_chars(&mut out, &input);
        append_chars(&mut out, &chars_of("'"));
    }
    out
}

/// The dictionary hints injected into the correction prompt.
pub fn dictionary_hints(entries: &Vec<CustomWordEntry>) -> (r: String)
    ensures
        r@ == dictionary_hint_text(entries@),
{
    let n: usize = if entries.len() < MAX_DICTIONARY_HINTS {
        entries.len()
    } else {
        MAX_DICTIONARY_HINTS
    };
    let ghost lines = entries@.take(n as int).map_values(|e: CustomWordEntry| hint_line(e));
    let mut out: Vec<char> = Vec::new();
    let mut i: usize = 0;
    while i < n
        invariant
            i <= n <= entries.len(),
            lines == entries@.take(n as int).map_values(|e: CustomWordEntry| hint_line(e)),
            out@ == join_lines(lines.take(i as int)),
        decreases n - i,
    {
        let line = hint_line_exec(&entries[i]);
        assert(lines.take(i + 1).drop_last() =~= lines.take(i as int));
        assert(lines.take(i + 1).last() == line@);
        if i > 0 {
            out.push('\n');
        } else {
            assert(lines.take(1) =~= seq![line@]);
            assert(out@ =~= Seq::<char>::empty());
        }
        let ghost before = out@;
        append_chars(&mut out, &line);
        assert(i > 0 ==> out@ =~= join_lines(lines.take(i as int)) + seq!['\n'] + line@);
        i = i + 1;
    }
    assert(lines.take(n as int) =~= lines);
    string_from_chars(&out)
}

/// Where a correction prompt is sent.
#[derive(Clone, Copy, Debug, PartialEq, Eq, Structural)]
pub enum LlmRoute {
    /// The local MLX models.
    LocalMlx,
    /// Apple Intelligence, with this token limit (0 when the model names none).
    AppleIntelligence { token_limit: i32 },
    /// The provider's remote API.
    Remote,
}

/// Where a prompt goes, from the active provider (if any), the model configured for it,
/// whether the local models can run here, and whether Apple Intelligence is supported here.
pub open spec fn llm_route(
    provider_id: Option<Seq<char>>,
    model: Seq<char>,
    local_mlx_available: bool,
    apple_intelligence_provider_id: Seq<char>,
    apple_intelligence_supported: bool,
) -> Result<LlmRoute, Seq<char>> {
    match provider_id {
        None => Err("No post-process provider configured"@),
        Some(id) => if trim(model).len() == 0 {
            Err("No model configured for provider '"@ + id + "'"@)
        } else if local_mlx_available && id == "local_mlx"@ {
            Ok(LlmRoute::LocalMlx)
        } else if id == apple_intelligence_provider_id {
            if apple_intelligence_supported {
                Ok(
                    LlmRoute::AppleIntelligence {
                        token_limit: match parsed_i32(trim(model)) {
                            Some(n) => n,
                            None => 0,
                        },
                    },
                )
            } else {
                Err("Apple Intelligence not supported on this platform"@)
            }
        } else {
            Ok(LlmRoute::Remote)
        },
    }
}

/// Decides where a correction prompt is sent.
pub fn plan_llm_route(
    provider_id: Option<&str>,
    model: &str,
    local_mlx_available: bool,
    apple_intelligence_provider_id: &str,
    apple_intelligence_supported: bool,
) -> (r: Result<LlmRoute, String>)
    ensures
        match llm_route(
            opt_str_view(provider_id),
            model@,
            local_mlx_available,
            apple_intelligence_provider_id@,
            apple_intelligence_supported,
        ) {
            Ok(route) => r == Ok::<LlmRoute, String>(route),
            Err(e) => r matches Err(m) && m@ == e,
        },
{
    let id = match provider_id {
        Some(id) => id,
        None => {
            return Err("No post-process provider configured".to_string());
        },
    };
    if is_blank(model) {
        return Err(concat3("No model configured for provider '", id, "'"));
    }
    if local_mlx_available && str_equals(id, "local_mlx") {
        return Ok(LlmRoute::LocalMlx);
    }
    if str_equals(id, apple_intelligence_provider_id) {
        if apple_intelligence_supported {
            let token_limit = match parse_i32_chars(&trim_chars(&chars_of(model))) {
                Some(n) => n,
                None => 0,
            };
            return Ok(LlmRoute::AppleIntelligence { token_limit });
        }
        return Err("Apple Intelligence not supported on this platform".to_string());
    }
    Ok(LlmRoute::Remote)
}

/// The answer of a remote provider: its content without invisible characters, an error for
/// an empty reply, or the provider's error.
pub fn remote_reply(reply: Result<Option<String>, String>) -> (r: Result<String, String>)
    ensures
        match reply {
            Ok(Some(content)) => r matches Ok(c) && c@ == content@.filter(
                |c: char| !is_invisible(c),
            ),
            Ok(None) => r matches Err(e) && e@ == "LLM returned empty response"@,
            Err(e) => r matches Err(m) && m@ == "LLM failed: "@ + e@,
        },
{
    match reply {
        Ok(Some(content)) => Ok(strip_invisible_characters(content.as_str())),
        Ok(None) => Err("LLM returned empty response".to_string()),
        Err(e) => Err(crate::text::concat_str("LLM failed: ", e.as_str())),
    }
}

/// Each recorded word end is a whitespace character right after a non-whitespace one, and
/// the word ends come in increasing order.
proof fn lemma_word_ends_shape(s: Seq<char>)
    ensures
        forall|i: int|
            0 <= i < word_ends(s).len() ==> 0 < #[trigger] word_ends(s)[i] < s.len() && is_ws(
                s[word_ends(s)[i]],
            ) && !is_ws(s[word_ends(s)[i] - 1]),
        forall|i: int, j: int|
            0 <= i < j < word_ends(s).len() ==> #[trigger] word_ends(s)[i] < #[trigger] word_ends(
                s,
            )[j],
    decreases s.len(),
{
    if s.len() > 0 {
        let t = s.drop_last();
        lemma_word_ends_shape(t);
        assert forall|i: int| 0 <= i < word_ends(t).len() implies s[word_ends(t)[i]] == t[word_ends(
            t,
        )[i]] && s[word_ends(t)[i] - 1] == t[word_ends(t)[i] - 1] by {}
    }
}

/// In the fallback that matches the preserved suffix, the correction is the trimmed text of
/// the corrected output that starts right where its first `n` words have ended (at the
/// whitespace closing the `n`-th word, so exactly `n` words lie before it) and stops where
/// the suffix begins: none of the corrected prefix words is part of it.
pub proof fn law_suffix_correction_skips_prefix_words(
    corrected: Seq<char>,
    suffix: Seq<char>,
    n: nat,
)
    requires
        1 <= n <= word_ends(corrected).len(),
        suffix_match(corrected, suffix, n) is Some,
    ensures
        ({
            let p = char_pos_after_words(corrected, n);
            &&& 0 < p < corrected.len()
            &&& is_ws(corrected[p])
            &&& !is_ws(corrected[p - 1])
            &&& word_ends(corrected.take(p + 1)).len() == n
            &&& suffix_match(corrected, suffix, n) == Some(
                trim(corrected.subrange(p, find_pos(corrected, trim(suffix))->0)),
            )
        }),
{
    let we = word_ends(corrected);
    let p = we[n - 1];
    lemma_word_ends_shape(corrected);
    assert(0 < p < corrected.len());
    let t = corrected.take(p + 1);
    assert(t.drop_last() =~= corrected.take(p));
    assert(t[p] == corrected[p] && t[p - 1] == corrected[p - 1]);
    assert(word_ends(t) == word_ends(corrected.take(p)).push(p));
    lemma_word_ends_prefix(corrected, p + 1);
    let l = word_ends(t).len();
    assert(word_ends(t)[l - 1] == p);
    assert(we.take(l as int)[l - 1] == we[l - 1]);
    assert(we[l - 1] == p);
    if l < n {
        assert(we[l - 1] < we[n - 1]);
    } else if l > n {
        assert(we[n - 1] < we[l - 1]);
    }
}

} // verus!

