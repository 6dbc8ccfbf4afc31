//! Bounded transcript state for one utterance of a rolling-window transcriber.
//!
//! `committed` holds words that disappeared from the front of an advancing
//! rolling audio window; `partial` is the current, replaceable window
//! hypothesis. Both share one explicit UTF-8 byte budget.

use vstd::prelude::*;

use crate::caption::CaptionStatus;
use crate::stt::error::WhisperBackendError;
use crate::stt::window::InferenceKind;
use crate::text::{
    all_white_space, char_width, lemma_blank_iff_trim_empty, chars_of, join_words, lemma_trim_start_suffix, lemma_utf8_len_bounds,
    lemma_utf8_len_concat, lemma_utf8_len_push, lemma_utf8_len_single, leading_white_space,
    split_words, string_of, trim, trim_start, trimmed_chars, utf8_len, utf8_width, words_of,
    words_view, join_first_words,
};
use crate::transcription::{empty_text_message, TranscriptUpdate};

verus! {

broadcast use vstd::string::group_string_axioms;

/// Whether `char::is_alphanumeric` holds for a character (Unicode
/// `Alphabetic` or `Numeric`).
pub uninterp spec fn char_is_alphanumeric(c: char) -> bool;

/// The text `str::to_lowercase` produces (Unicode lowercase mapping).
pub uninterp spec fn lowercase_text(s: Seq<char>) -> Seq<char>;

/// `char::is_alphanumeric`.
#[verifier::external_body]
fn is_alphanumeric(c: char) -> (b: bool)
    ensures
        b == char_is_alphanumeric(c),
{
    c.is_alphanumeric()
}

/// `str::to_lowercase`.
#[verifier::external_body]
fn to_lowercase(s: &str) -> (r: String)
    ensures
        r@ == lowercase_text(s@),
{
    s.to_lowercase()
}

/// The ellipsis that marks a transcript whose beginning was dropped.
pub const TRUNCATION_MARKER: &'static str = "\u{2026}";

/// The marker as characters.
pub open spec fn marker() -> Seq<char> {
    seq!['\u{2026}']
}

/// Text with leading characters that are not alphanumeric removed.
pub open spec fn strip_start_non_alnum(s: Seq<char>) -> Seq<char>
    decreases s.len(),
{
    if s.len() > 0 && !char_is_alphanumeric(s[0]) {
        strip_start_non_alnum(s.drop_first())
    } else {
        s
    }
}

/// Text with trailing characters that are not alphanumeric removed.
pub open spec fn strip_end_non_alnum(s: Seq<char>) -> Seq<char>
    decreases s.len(),
{
    if s.len() > 0 && !char_is_alphanumeric(s.last()) {
        strip_end_non_alnum(s.drop_last())
    } else {
        s
    }
}

/// A word compared case-insensitively and without surrounding punctuation:
/// `word.trim_matches(|c| !c.is_alphanumeric()).to_lowercase()`.
pub open spec fn normalized_word(w: Seq<char>) -> Seq<char> {
    lowercase_text(strip_end_non_alnum(strip_start_non_alnum(w)))
}

proof fn lemma_strip_start_skip(s: Seq<char>, a: int)
    requires
        0 <= a <= s.len(),
        forall|i: int| 0 <= i < a ==> !char_is_alphanumeric(#[trigger] s[i]),
        a == s.len() || char_is_alphanumeric(s[a]),
    ensures
        strip_start_non_alnum(s) == s.skip(a),
    decreases a,
{
    if a == 0 {
        assert(s.skip(0) =~= s);
    } else {
        assert(!char_is_alphanumeric(s[0]));
        lemma_strip_start_skip(s.drop_first(), a - 1);
        assert(s.drop_first().skip(a - 1) =~= s.skip(a));
    }
}

proof fn lemma_strip_end_take(s: Seq<char>, b: int)
    requires
        0 <= b <= s.len(),
        forall|i: int| b <= i < s.len() ==> !char_is_alphanumeric(#[trigger] s[i]),
        b == 0 || char_is_alphanumeric(s[b - 1]),
    ensures
        strip_end_non_alnum(s) == s.take(b),
    decreases s.len() - b,
{
    if b == s.len() {
        assert(s.take(b) =~= s);
    } else {
        assert(!char_is_alphanumeric(s.last()));
        lemma_strip_end_take(s.drop_last(), b);
        assert(s.drop_last().take(b) =~= s.take(b));
    }
}

/// The normalized form of one word.
fn normalize_word(w: &Vec<char>) -> (out: Vec<char>)
    ensures
        out@ == normalized_word(w@),
{
    let mut a: usize = 0;
    while a < w.len() && !is_alphanumeric(w[a])
        invariant
            a <= w@.len(),
            forall|i: int| 0 <= i < a ==> !char_is_alphanumeric(#[trigger] w@[i]),
        decreases w.len() - a,
    {
        a += 1;
    }
    let mut b: usize = w.len();
    while b > a && !is_alphanumeric(w[b - 1])
        invariant
            a <= b <= w@.len(),
            forall|i: int| b <= i < w@.len() ==> !char_is_alphanumeric(#[trigger] w@[i]),
        decreases b,
    {
        b -= 1;
    }
    let ghost t = w@.skip(a as int);
    proof {
        lemma_strip_start_skip(w@, a as int);
        assert forall|i: int| b - a <= i < t.len() implies !char_is_alphanumeric(#[trigger] t[i]) by {
            assert(t[i] == w@[a + i]);
        }
        if b > a {
            assert(t[b - a - 1] == w@[b - 1]);
        }
        lemma_strip_end_take(t, b - a);
        assert(t.take(b - a) =~= w@.subrange(a as int, b as int));
    }
    let mut core: Vec<char> = Vec::new();
    let mut i: usize = a;
    while i < b
        invariant
            a <= i <= b <= w@.len(),
            core@ == w@.subrange(a as int, i as int),
        decreases b - i,
    {
        core.push(w[i]);
        i += 1;
        assert(core@ =~= w@.subrange(a as int, i as int));
    }
    let stripped = string_of(core.as_slice());
    let lowered = to_lowercase(stripped.as_str());
    chars_of(lowered.as_str())
}

/// Normalized forms of all words.
fn normalize_words(ws: &Vec<Vec<char>>) -> (out: Vec<Vec<char>>)
    ensures
        out@.len() == ws@.len(),
        forall|i: int| 0 <= i < ws@.len() ==> (#[trigger] out@[i])@ == normalized_word(ws@[i]@),
{
    let mut out: Vec<Vec<char>> = Vec::new();
    let mut i: usize = 0;
    while i < ws.len()
        invariant
            i <= ws@.len(),
            out@.len() == i,
            forall|j: int| 0 <= j < i ==> (#[trigger] out@[j])@ == normalized_word(ws@[j]@),
        decreases ws.len() - i,
    {
        let n = normalize_word(&ws[i]);
        out.push(n);
        i += 1;
    }
    out
}

/// Whether two character runs are equal.
fn same_chars(a: &[char], b: &[char]) -> (r: bool)
    ensures
        r == (a@ == b@),
{
    if a.len() != b.len() {
        return false;
    }
    let mut i: usize = 0;
    while i < a.len()
        invariant
            a@.len() == b@.len(),
            i <= a@.len(),
            forall|j: int| 0 <= j < i ==> a@[j] == b@[j],
        decreases a.len() - i,
    {
        if a[i] != b[i] {
            return false;
        }
        i += 1;
    }
    assert(a@ =~= b@);
    true
}

/// The last `count` words of `prev` equal the first `count` words of `cur`,
/// compared as normalized words.
pub open spec fn words_overlap(prev: Seq<Seq<char>>, cur: Seq<Seq<char>>, count: nat) -> bool {
    &&& count <= prev.len()
    &&& count <= cur.len()
    &&& forall|i: int|
        0 <= i < count ==> normalized_word(prev[prev.len() - count + i]) == normalized_word(
            #[trigger] cur[i],
        )
}

/// The largest word overlap of at most `limit` words.
pub open spec fn overlap_within(prev: Seq<Seq<char>>, cur: Seq<Seq<char>>, limit: nat) -> nat
    decreases limit,
{
    if limit == 0 {
        0
    } else if words_overlap(prev, cur, limit) {
        limit
    } else {
        overlap_within(prev, cur, (limit - 1) as nat)
    }
}

/// The largest number of words that end `prev` and begin `cur`.
pub open spec fn word_overlap(prev: Seq<Seq<char>>, cur: Seq<Seq<char>>) -> nat {
    overlap_within(prev, cur, if prev.len() <= cur.len() { prev.len() } else { cur.len() })
}

/// The words of `previous` that do not reappear at the start of `current`,
/// joined by single spaces: what leaves a rolling window when it advances.
pub open spec fn non_overlapping_prefix(previous: Seq<char>, current: Seq<char>) -> Seq<char> {
    let pw = split_words(previous);
    let cw = split_words(current);
    join_words(pw.take(pw.len() - word_overlap(pw, cw)))
}

proof fn lemma_overlap_within_step(prev: Seq<Seq<char>>, cur: Seq<Seq<char>>, limit: nat)
    requires
        limit > 0,
        !words_overlap(prev, cur, limit),
    ensures
        overlap_within(prev, cur, limit) == overlap_within(prev, cur, (limit - 1) as nat),
{
}

proof fn lemma_overlap_within_bounded(prev: Seq<Seq<char>>, cur: Seq<Seq<char>>, limit: nat)
    ensures
        overlap_within(prev, cur, limit) <= limit,
    decreases limit,
{
    if limit > 0 && !words_overlap(prev, cur, limit) {
        lemma_overlap_within_bounded(prev, cur, (limit - 1) as nat);
    }
}

/// The largest overlap within `limit` is any overlap `k <= limit` that no
/// longer overlap within `limit` exceeds.
proof fn lemma_overlap_within_is_largest(prev: Seq<Seq<char>>, cur: Seq<Seq<char>>, limit: nat, k: nat)
    requires
        k <= limit,
        words_overlap(prev, cur, k),
        forall|j: nat| #[trigger] words_overlap(prev, cur, j) ==> j <= k,
    ensures
        overlap_within(prev, cur, limit) == k,
    decreases limit,
{
    if limit > k {
        assert(!words_overlap(prev, cur, limit));
        lemma_overlap_within_is_largest(prev, cur, (limit - 1) as nat, k);
    }
}

/// When a rolling window advances, the words that leave it are exactly the
/// previous hypothesis' words before its longest overlap with the new
/// hypothesis (words compared after normalization). With no shared words,
/// every word of the previous hypothesis leaves the window.
pub proof fn law_departed_words_precede_longest_overlap(previous: Seq<char>, current: Seq<char>, k: nat)
    requires
        words_overlap(split_words(previous), split_words(current), k),
        forall|j: nat| #[trigger] words_overlap(split_words(previous), split_words(current), j) ==> j <= k,
    ensures
        non_overlapping_prefix(previous, current) == join_words(
            split_words(previous).take(split_words(previous).len() - k),
        ),
        k == 0 ==> non_overlapping_prefix(previous, current) == join_words(split_words(previous)),
{
    let pw = split_words(previous);
    let cw = split_words(current);
    let limit: nat = if pw.len() <= cw.len() {
        pw.len()
    } else {
        cw.len()
    };
    lemma_overlap_within_is_largest(pw, cw, limit, k);
    assert(pw.take(pw.len() as int) =~= pw);
}

/// Whether the last `count` normalized words of `pn` equal the first `count`
/// of `cn`.
fn overlaps(pn: &Vec<Vec<char>>, cn: &Vec<Vec<char>>, count: usize) -> (r: bool)
    requires
        count <= pn@.len(),
        count <= cn@.len(),
    ensures
        r == (forall|i: int|
            0 <= i < count ==> (#[trigger] pn@[pn@.len() - count + i])@ == cn@[i]@),
{
    let mut i: usize = 0;
    while i < count
        invariant
            count <= pn@.len(),
            count <= cn@.len(),
            i <= count,
            forall|j: int| 0 <= j < i ==> (#[trigger] pn@[pn@.len() - count + j])@ == cn@[j]@,
        decreases count - i,
    {
        if !same_chars(pn[pn.len() - count + i].as_slice(), cn[i].as_slice()) {
            return false;
        }
        i += 1;
    }
    true
}

/// The words of `previous` that are not repeated at the start of `current`.
pub fn non_overlapping_prefix_of(previous: &[char], current: &[char]) -> (out: Vec<char>)
    ensures
        out@ == non_overlapping_prefix(previous@, current@),
{
    let pw = words_of(previous);
    let cw = words_of(current);
    let pn = normalize_words(&pw);
    let cn = normalize_words(&cw);
    let ghost pv = split_words(previous@);
    let ghost cv = split_words(current@);
    let maximum = if pw.len() <= cw.len() {
        pw.len()
    } else {
        cw.len()
    };
    let mut count = maximum;
    while count > 0 && !overlaps(&pn, &cn, count)
        invariant
            count <= maximum,
            maximum <= pw@.len(),
            maximum <= cw@.len(),
            pn@.len() == pw@.len(),
            cn@.len() == cw@.len(),
            forall|i: int| 0 <= i < pw@.len() ==> (#[trigger] pn@[i])@ == normalized_word(pw@[i]@),
            forall|i: int| 0 <= i < cw@.len() ==> (#[trigger] cn@[i])@ == normalized_word(cw@[i]@),
            words_view(pw@) == pv,
            words_view(cw@) == cv,
            overlap_within(pv, cv, maximum as nat) == overlap_within(pv, cv, count as nat),
        decreases count,
    {
        proof {
            if words_overlap(pv, cv, count as nat) {
                assert forall|i: int| 0 <= i < count implies (#[trigger] pn@[pn@.len() - count
                    + i])@ == cn@[i]@ by {
                    assert(pv[pv.len() - count + i] == pw@[pw@.len() - count + i]@);
                    assert(cv[i] == cw@[i]@);
                }
                assert(false);
            }
            lemma_overlap_within_step(pv, cv, count as nat);
        }
        count -= 1;
    }
    proof {
        if count > 0 {
            assert forall|i: int| 0 <= i < count implies normalized_word(
                pv[pv.len() - count + i],
            ) == normalized_word(#[trigger] cv[i]) by {
                assert(pv[pv.len() - count + i] == pw@[pw@.len() - count + i]@);
                assert(cv[i] == cw@[i]@);
                assert((pn@[pn@.len() - count + i])@ == cn@[i]@);
            }
            assert(words_overlap(pv, cv, count as nat));
        }
        assert(overlap_within(pv, cv, count as nat) == count);
    }
    join_first_words(&pw, pw.len() - count)
}

/// Characters counted from the end of `s` whose UTF-8 length stays within
/// `budget`: the longest suffix that fits.
pub open spec fn fit_suffix_len(s: Seq<char>, budget: nat) -> nat
    decreases s.len(),
{
    if s.len() > 0 && utf8_width(s.last()) <= budget {
        1 + fit_suffix_len(s.drop_last(), (budget - utf8_width(s.last())) as nat)
    } else {
        0
    }
}

proof fn lemma_fit_suffix(s: Seq<char>, budget: nat)
    ensures
        fit_suffix_len(s, budget) <= s.len(),
        utf8_len(s.skip(s.len() - fit_suffix_len(s, budget))) <= budget,
        fit_suffix_len(s, budget) < s.len() ==> utf8_len(
            s.skip(s.len() - fit_suffix_len(s, budget) - 1),
        ) > budget,
    decreases s.len(),
{
    let k = fit_suffix_len(s, budget);
    if s.len() == 0 {
        assert(s.skip(0).len() == 0);
    } else if utf8_width(s.last()) <= budget {
        let rest = s.drop_last();
        let b2 = (budget - utf8_width(s.last())) as nat;
        lemma_fit_suffix(rest, b2);
        let k2 = fit_suffix_len(rest, b2);
        assert(s.skip(s.len() - k) =~= rest.skip(rest.len() - k2).push(s.last()));
        lemma_utf8_len_push(rest.skip(rest.len() - k2), s.last());
        if k < s.len() {
            assert(s.skip(s.len() - k - 1) =~= rest.skip(rest.len() - k2 - 1).push(s.last()));
            lemma_utf8_len_push(rest.skip(rest.len() - k2 - 1), s.last());
        }
    } else {
        assert(s.skip(s.len() as int) =~= Seq::<char>::empty());
        assert(s.skip(s.len() - 1) =~= seq![s.last()]);
        lemma_utf8_len_single(s.last());
    }
}

/// Keeps a text within `max_bytes` UTF-8 bytes by dropping words from its
/// front and marking the cut with [`TRUNCATION_MARKER`] and a space.
pub open spec fn truncate_front(text: Seq<char>, max_bytes: nat) -> Seq<char> {
    if utf8_len(text) <= max_bytes {
        text
    } else if max_bytes < 3 {
        seq![]
    } else if max_bytes == 3 {
        marker()
    } else {
        let k = fit_suffix_len(text, (max_bytes - 4) as nat);
        marker() + seq![' '] + trim_start(text.skip(text.len() - k))
    }
}

proof fn lemma_trim_start_shorter(s: Seq<char>)
    ensures
        utf8_len(trim_start(s)) <= utf8_len(s),
{
    lemma_trim_start_suffix(s);
    let a = choose|a: int| 0 <= a <= s.len() && trim_start(s) == s.skip(a);
    assert(s =~= s.take(a) + s.skip(a));
    lemma_utf8_len_concat(s.take(a), s.skip(a));
}

/// A truncated text never exceeds its budget.
pub proof fn lemma_truncate_front_within(text: Seq<char>, max_bytes: nat)
    ensures
        utf8_len(truncate_front(text, max_bytes)) <= max_bytes,
        truncate_front(text, max_bytes).len() == 0 ==> text.len() == 0 || max_bytes < 3,
{
    lemma_utf8_len_single('\u{2026}');
    if utf8_len(text) > max_bytes && max_bytes > 3 {
        let k = fit_suffix_len(text, (max_bytes - 4) as nat);
        lemma_fit_suffix(text, (max_bytes - 4) as nat);
        let suffix = text.skip(text.len() - k);
        lemma_trim_start_shorter(suffix);
        lemma_utf8_len_concat(marker(), seq![' ']);
        lemma_utf8_len_single(' ');
        lemma_utf8_len_concat(marker() + seq![' '], trim_start(suffix));
    }
    if text.len() == 0 {
        assert(utf8_len(text) == 0);
    }
}

/// `utf8_len` computed exactly.
fn utf8_len_of(s: &[char]) -> (n: u128)
    ensures
        n == utf8_len(s@),
{
    let mut n: u128 = 0;
    let mut i: usize = 0;
    while i < s.len()
        invariant
            i <= s@.len(),
            n == utf8_len(s@.take(i as int)),
        decreases s.len() - i,
    {
        proof {
            lemma_utf8_len_bounds(s@.take(i as int));
            assert(s@.take(i + 1) =~= s@.take(i as int).push(s@[i as int]));
            lemma_utf8_len_push(s@.take(i as int), s@[i as int]);
        }
        n = n + char_width(s[i]) as u128;
        i += 1;
    }
    assert(s@.take(i as int) =~= s@);
    n
}

fn truncate_front_of(text: &[char], max_bytes: usize) -> (out: Vec<char>)
    ensures
        out@ == truncate_front(text@, max_bytes as nat),
{
    let total = utf8_len_of(text);
    if total <= max_bytes as u128 {
        let mut copy: Vec<char> = Vec::new();
        let mut i: usize = 0;
        while i < text.len()
            invariant
                i <= text@.len(),
                copy@ == text@.take(i as int),
            decreases text.len() - i,
        {
            copy.push(text[i]);
            i += 1;
            assert(copy@ =~= text@.take(i as int));
        }
        assert(text@.take(i as int) =~= text@);
        return copy;
    }
    if max_bytes < 3 {
        return Vec::new();
    }
    if max_bytes == 3 {
        let mut m: Vec<char> = Vec::new();
        m.push('\u{2026}');
        assert(m@ =~= marker());
        return m;
    }
    let budget = max_bytes - 4;
    let mut k: usize = 0;
    let mut used: usize = 0;
    assert(text@.take(text@.len() as int) =~= text@);
    while k < text.len() && char_width(text[text.len() - 1 - k]) <= budget - used
        invariant
            k <= text@.len(),
            used <= budget,
            fit_suffix_len(text@, budget as nat) == k + fit_suffix_len(
                text@.take(text@.len() - k),
                (budget - used) as nat,
            ),
        decreases text.len() - k,
    {
        let ghost t = text@.take(text@.len() - k);
        assert(t.drop_last() =~= text@.take(text@.len() - k - 1));
        assert(t.last() == text@[text@.len() - 1 - k]);
        used = used + char_width(text[text.len() - 1 - k]);
        k += 1;
    }
    proof {
        let t = text@.take(text@.len() - k);
        if k < text@.len() {
            assert(t.last() == text@[text@.len() - 1 - k]);
        }
        assert(fit_suffix_len(t, (budget - used) as nat) == 0);
    }
    let start = text.len() - k;
    let tail = text.split_at(start).1;
    assert(tail@ =~= text@.skip(start as int));
    let skip = leading_white_space(tail);
    let mut out: Vec<char> = Vec::new();
    out.push('\u{2026}');
    out.push(' ');
    let mut i: usize = start + skip;
    while i < text.len()
        invariant
            start + skip <= i <= text@.len(),
            out@ == marker() + seq![' '] + text@.subrange(start + skip, i as int),
        decreases text.len() - i,
    {
        out.push(text[i]);
        i += 1;
        assert(out@ =~= marker() + seq![' '] + text@.subrange(start + skip, i as int));
    }
    assert(tail@.skip(skip as int) =~= text@.subrange(start + skip, text@.len() as int));
    out
}

/// The text shown for a committed part and a partial part.
pub open spec fn joined(committed: Seq<char>, partial: Seq<char>) -> Seq<char> {
    if committed.len() == 0 {
        partial
    } else if partial.len() == 0 {
        committed
    } else {
        committed + seq![' '] + partial
    }
}

/// Separator bytes between a committed and a partial part.
pub open spec fn separator_bytes(committed: Seq<char>, partial: Seq<char>) -> nat {
    if committed.len() > 0 && partial.len() > 0 {
        1
    } else {
        0
    }
}

/// Committed text after the window rolled from hypothesis `partial` to the
/// words `next`: the words that left the window are appended.
pub open spec fn committed_after_roll(committed: Seq<char>, partial: Seq<char>, next: Seq<char>) -> Seq<
    char,
> {
    joined(committed, non_overlapping_prefix(partial, next))
}

/// Committed and partial text once both fit the byte budget. A partial
/// hypothesis that alone fills the budget replaces all committed text;
/// otherwise committed text loses words from its front.
pub open spec fn bounded(committed: Seq<char>, partial: Seq<char>, max_bytes: nat) -> (Seq<char>, Seq<
    char,
>) {
    let sep = separator_bytes(committed, partial);
    if utf8_len(partial) + sep >= max_bytes {
        (seq![], truncate_front(partial, max_bytes))
    } else {
        (truncate_front(committed, (max_bytes - utf8_len(partial) - sep) as nat), partial)
    }
}

/// Transcript state stays within its byte budget: committed text, a separator
/// and the partial hypothesis together fit.
pub open spec fn within_budget(committed: Seq<char>, partial: Seq<char>, max_bytes: nat) -> bool {
    utf8_len(committed) + separator_bytes(committed, partial) + utf8_len(partial) <= max_bytes
}

/// Joined text's byte length.
pub proof fn lemma_joined_len(committed: Seq<char>, partial: Seq<char>)
    ensures
        utf8_len(joined(committed, partial)) == utf8_len(committed) + separator_bytes(
            committed,
            partial,
        ) + utf8_len(partial),
{
    if committed.len() == 0 {
        assert(utf8_len(committed) == 0);
    } else if partial.len() == 0 {
        assert(utf8_len(partial) == 0);
    } else {
        lemma_utf8_len_concat(committed, seq![' ']);
        lemma_utf8_len_single(' ');
        lemma_utf8_len_concat(committed + seq![' '], partial);
    }
}

/// Bounding always yields a state within the budget.
pub proof fn lemma_bounded_within_budget(committed: Seq<char>, partial: Seq<char>, max_bytes: nat)
    ensures
        within_budget(bounded(committed, partial, max_bytes).0, bounded(committed, partial, max_bytes).1, max_bytes),
{
    let sep = separator_bytes(committed, partial);
    if utf8_len(partial) + sep >= max_bytes {
        lemma_truncate_front_within(partial, max_bytes);
        assert(utf8_len(Seq::<char>::empty()) == 0);
    } else {
        let budget = (max_bytes - utf8_len(partial) - sep) as nat;
        lemma_truncate_front_within(committed, budget);
        let c2 = truncate_front(committed, budget);
        if c2.len() > 0 && partial.len() > 0 {
            assert(committed.len() > 0);
        }
    }
}

/// A state already within the budget is left exactly as it is.
pub proof fn lemma_bounded_keeps_fitting_state(committed: Seq<char>, partial: Seq<char>, max_bytes: nat)
    requires
        within_budget(committed, partial, max_bytes),
    ensures
        bounded(committed, partial, max_bytes) == (committed, partial),
{
    let sep = separator_bytes(committed, partial);
    if utf8_len(partial) + sep >= max_bytes {
        if committed.len() > 0 {
            lemma_utf8_len_bounds(committed);
            if partial.len() == 0 {
                assert(utf8_len(partial) == 0);
            }
        }
        assert(committed =~= Seq::<char>::empty()) by {
            lemma_utf8_len_bounds(committed);
        }
    }
}

/// Partial or final outcome of one inference pass applied to the state.
pub open spec fn update_for(text: Seq<char>, status: CaptionStatus, stable: nat) -> Result<
    Option<(Seq<char>, CaptionStatus, nat)>,
    Seq<char>,
> {
    if all_white_space(text) {
        Err(empty_text_message())
    } else {
        Ok(Some((text, status, stable)))
    }
}

/// Bounded transcript state for one utterance.
pub struct TranscriptAssembler {
    committed: Vec<char>,
    partial: Vec<char>,
    max_bytes: usize,
}

/// What a returned update carries: text, status and stable prefix length.
pub open spec fn update_view(u: TranscriptUpdate) -> (Seq<char>, CaptionStatus, nat) {
    (u.text_view(), u.status_view(), u.stable_len())
}

/// The abstract outcome of [`TranscriptAssembler::apply`].
pub open spec fn outcome_view(r: Result<Option<TranscriptUpdate>, WhisperBackendError>) -> Result<
    Option<(Seq<char>, CaptionStatus, nat)>,
    Seq<char>,
> {
    match r {
        Ok(None) => Ok(None),
        Ok(Some(u)) => Ok(Some(update_view(u))),
        Err(WhisperBackendError::Whisper(m)) => Err(m@),
        Err(_) => Err(seq![]),
    }
}

/// State after applying an inference result, and the update it yields.
///
/// A partial pass replaces the hypothesis (committing the words that left a
/// rolled window first), keeps the state within budget, and reports the
/// joined text unless it is unchanged. A final pass does the same with a
/// non-empty hypothesis, keeps the last hypothesis otherwise, reports the
/// joined text as final, and clears the state for the next utterance.
pub open spec fn assembler_step(
    committed: Seq<char>,
    partial: Seq<char>,
    max_bytes: nat,
    kind: InferenceKind,
    text: Seq<char>,
    window_rolled: bool,
) -> (Seq<char>, Seq<char>, Result<Option<(Seq<char>, CaptionStatus, nat)>, Seq<char>>) {
    let t = trim(text);
    match kind {
        InferenceKind::Partial => {
            if t.len() == 0 {
                (committed, partial, Ok(None))
            } else {
                let c1 = if window_rolled {
                    committed_after_roll(committed, partial, t)
                } else {
                    committed
                };
                let (c2, p2) = bounded(c1, t, max_bytes);
                let shown = joined(c2, p2);
                if shown == joined(committed, partial) {
                    (c2, p2, Ok(None))
                } else {
                    (c2, p2, update_for(shown, CaptionStatus::Partial, c2.len()))
                }
            }
        },
        InferenceKind::Final => {
            let (c1, p1) = if t.len() > 0 {
                (
                    if window_rolled {
                        committed_after_roll(committed, partial, t)
                    } else {
                        committed
                    },
                    t,
                )
            } else {
                (committed, partial)
            };
            let (c2, p2) = bounded(c1, p1, max_bytes);
            let finalized = joined(c2, p2);
            if finalized.len() == 0 {
                (seq![], seq![], Ok(None))
            } else {
                (seq![], seq![], update_for(finalized, CaptionStatus::Final, finalized.len()))
            }
        },
    }
}

impl TranscriptAssembler {
    /// Committed text.
    pub closed spec fn committed_view(&self) -> Seq<char> {
        self.committed@
    }

    /// Current partial hypothesis.
    pub closed spec fn partial_view(&self) -> Seq<char> {
        self.partial@
    }

    /// Byte budget.
    pub closed spec fn max_bytes_view(&self) -> nat {
        self.max_bytes as nat
    }

    /// Committed and partial text fit the byte budget.
    pub open spec fn wf(&self) -> bool {
        within_budget(self.committed_view(), self.partial_view(), self.max_bytes_view())
    }

    /// Creates empty transcript state with a byte budget.
    pub fn new(max_bytes: usize) -> (s: Self)
        ensures
            s.committed_view() == Seq::<char>::empty(),
            s.partial_view() == Seq::<char>::empty(),
            s.max_bytes_view() == max_bytes,
            s.wf(),
    {
        Self { committed: Vec::new(), partial: Vec::new(), max_bytes }
    }

    fn joined_chars(&self) -> (out: Vec<char>)
        ensures
            out@ == joined(self.committed@, self.partial@),
    {
        if self.committed.len() == 0 {
            self.partial.clone()
        } else if self.partial.len() == 0 {
            self.committed.clone()
        } else {
            let mut out = self.committed.clone();
            out.push(' ');
            let mut tail = self.partial.clone();
            out.append(&mut tail);
            out
        }
    }

    fn commit_prefix_not_in(&mut self, next_partial: &[char])
        ensures
            final(self).committed@ == committed_after_roll(
                old(self).committed@,
                old(self).partial@,
                next_partial@,
            ),
            final(self).partial@ == old(self).partial@,
            final(self).max_bytes == old(self).max_bytes,
    {
        let mut prefix = non_overlapping_prefix_of(self.partial.as_slice(), next_partial);
        if prefix.len() == 0 {
            return;
        }
        if self.committed.len() > 0 {
            self.committed.push(' ');
        }
        self.committed.append(&mut prefix);
    }

    fn enforce_bound(&mut self)
        ensures
            (final(self).committed@, final(self).partial@) == bounded(
                old(self).committed@,
                old(self).partial@,
                old(self).max_bytes as nat,
            ),
            final(self).max_bytes == old(self).max_bytes,
    {
        let separator: u128 = if self.committed.len() > 0 && self.partial.len() > 0 {
            1
        } else {
            0
        };
        let partial_bytes = utf8_len_of(self.partial.as_slice());
        proof {
            lemma_utf8_len_bounds(self.partial@);
        }
        if partial_bytes + separator >= self.max_bytes as u128 {
            self.committed = Vec::new();
            self.partial = truncate_front_of(self.partial.as_slice(), self.max_bytes);
            return;
        }
        let budget = (self.max_bytes as u128 - partial_bytes - separator) as usize;
        self.committed = truncate_front_of(self.committed.as_slice(), budget);
    }

    /// Applies one inference result and returns the caption update it yields,
    /// if any; see [`assembler_step`].
    pub fn apply(&mut self, kind: InferenceKind, text: &str, window_rolled: bool) -> (r: Result<
        Option<TranscriptUpdate>,
        WhisperBackendError,
    >)
        requires
            old(self).wf(),
        ensures
            ({
                let (c, p, out) = assembler_step(
                    old(self).committed_view(),
                    old(self).partial_view(),
                    old(self).max_bytes_view(),
                    kind,
                    text@,
                    window_rolled,
                );
                &&& final(self).committed_view() == c
                &&& final(self).partial_view() == p
                &&& outcome_view(r) == out
                &&& r matches Err(e) ==> e is Whisper
            }),
            final(self).max_bytes_view() == old(self).max_bytes_view(),
            final(self).wf(),
    {
        let raw = chars_of(text);
        let t = trimmed_chars(raw.as_slice());
        proof {
            lemma_bounded_within_budget(self.committed@, self.partial@, self.max_bytes as nat);
            lemma_bounded_within_budget(self.committed@, t@, self.max_bytes as nat);
            if window_rolled {
                lemma_bounded_within_budget(
                    committed_after_roll(self.committed@, self.partial@, t@),
                    t@,
                    self.max_bytes as nat,
                );
            }
        }
        match kind {
            InferenceKind::Partial => {
                if t.len() == 0 {
                    return Ok(None);
                }
                let previous = self.joined_chars();
                if window_rolled {
                    self.commit_prefix_not_in(t.as_slice());
                }
                self.partial = t;
                self.enforce_bound();
                let shown = self.joined_chars();
                if same_chars(shown.as_slice(), previous.as_slice()) {
                    return Ok(None);
                }
                let stable = self.committed.len();
                let shown_text = string_of(shown.as_slice());
                match TranscriptUpdate::with_stable_prefix(
                    shown_text,
                    CaptionStatus::Partial,
                    stable,
                ) {
                    Ok(update) => Ok(Some(update)),
                    Err(error) => Err(WhisperBackendError::Whisper(error.message())),
                }
            },
            InferenceKind::Final => {
                if t.len() > 0 {
                    if window_rolled {
                        self.commit_prefix_not_in(t.as_slice());
                    }
                    self.partial = t;
                }
                self.enforce_bound();
                let finalized = self.joined_chars();
                self.committed = Vec::new();
                self.partial = Vec::new();
                if finalized.len() == 0 {
                    return Ok(None);
                }
                let len = finalized.len();
                let finalized_text = string_of(finalized.as_slice());
                match TranscriptUpdate::with_stable_prefix(
                    finalized_text,
                    CaptionStatus::Final,
                    len,
                ) {
                    Ok(update) => Ok(Some(update)),
                    Err(error) => Err(WhisperBackendError::Whisper(error.message())),
                }
            },
        }
    }
}

/// Every update an assembler reports fits its byte budget, and so does the
/// state it keeps.
pub proof fn law_updates_fit_budget(
    committed: Seq<char>,
    partial: Seq<char>,
    max_bytes: nat,
    kind: InferenceKind,
    text: Seq<char>,
    window_rolled: bool,
)
    requires
        within_budget(committed, partial, max_bytes),
    ensures
        ({
            let (c, p, out) = assembler_step(committed, partial, max_bytes, kind, text, window_rolled);
            &&& within_budget(c, p, max_bytes)
            &&& out matches Ok(Some((shown, _, _))) ==> utf8_len(shown) <= max_bytes
        }),
{
    let t = trim(text);
    let c1 = if window_rolled {
        committed_after_roll(committed, partial, t)
    } else {
        committed
    };
    lemma_bounded_within_budget(c1, t, max_bytes);
    let (c2, p2) = bounded(c1, t, max_bytes);
    lemma_joined_len(c2, p2);
    lemma_bounded_within_budget(committed, partial, max_bytes);
    let (c3, p3) = bounded(committed, partial, max_bytes);
    lemma_joined_len(c3, p3);
    assert(utf8_len(Seq::<char>::empty()) == 0);
}

/// A text cut to fit its budget is marked: whenever the budget leaves room
/// for the marker, the cut text starts with [`TRUNCATION_MARKER`].
pub proof fn law_cut_text_is_marked(text: Seq<char>, max_bytes: nat)
    requires
        max_bytes >= 3,
        utf8_len(text) > max_bytes,
    ensures
        truncate_front(text, max_bytes).len() > 0,
        truncate_front(text, max_bytes)[0] == '\u{2026}',
{
}

/// A caption whose earlier text was cut to fit the budget starts with
/// [`TRUNCATION_MARKER`]: when the hypothesis itself was cut, or when the
/// committed text was cut but not dropped whole.
pub proof fn law_cut_caption_starts_with_marker(committed: Seq<char>, partial: Seq<char>, max_bytes: nat)
    requires
        max_bytes >= 3,
    ensures
        ({
            let (c, p) = bounded(committed, partial, max_bytes);
            (c != committed && c.len() > 0) || p != partial ==> joined(c, p).len() > 0
                && joined(c, p)[0] == '\u{2026}'
        }),
{
    let (c, p) = bounded(committed, partial, max_bytes);
    let sep = separator_bytes(committed, partial);
    if utf8_len(partial) + sep >= max_bytes {
        if p != partial {
            assert(utf8_len(partial) > max_bytes);
        }
    } else {
        let budget = (max_bytes - utf8_len(partial) - sep) as nat;
        if c != committed && c.len() > 0 {
            assert(utf8_len(committed) > budget);
            assert(budget >= 3);
            assert(c[0] == '\u{2026}');
            if partial.len() > 0 {
                assert((c + seq![' '] + partial)[0] == c[0]);
            }
        }
    }
}

/// A final pass that recognized no words finalizes exactly the caption that
/// was last shown, and leaves the assembler empty for the next utterance.
pub proof fn law_empty_final_keeps_last_caption(
    committed: Seq<char>,
    partial: Seq<char>,
    max_bytes: nat,
    text: Seq<char>,
    window_rolled: bool,
)
    requires
        within_budget(committed, partial, max_bytes),
        all_white_space(text),
    ensures
        ({
            let (c, p, out) = assembler_step(
                committed,
                partial,
                max_bytes,
                InferenceKind::Final,
                text,
                window_rolled,
            );
            let shown = joined(committed, partial);
            &&& c.len() == 0
            &&& p.len() == 0
            &&& shown.len() == 0 ==> out == Ok::<Option<(Seq<char>, CaptionStatus, nat)>, Seq<char>>(None)
            &&& shown.len() > 0 ==> out == update_for(shown, CaptionStatus::Final, shown.len())
        }),
{
    lemma_blank_iff_trim_empty(text);
    lemma_bounded_keeps_fitting_state(committed, partial, max_bytes);
}

/// A partial pass over a rolled window keeps every word: the committed text
/// becomes the old committed text followed by the previous hypothesis' words
/// before its longest overlap with the new hypothesis, and the new hypothesis
/// becomes the partial text, whenever the result fits the budget. With no
/// shared words the whole previous hypothesis is committed ahead of the new
/// one.
pub proof fn law_rolled_partial_commits_departed_words(
    committed: Seq<char>,
    partial: Seq<char>,
    max_bytes: nat,
    text: Seq<char>,
    k: nat,
)
    requires
        trim(text).len() > 0,
        words_overlap(split_words(partial), split_words(trim(text)), k),
        forall|j: nat| #[trigger] words_overlap(split_words(partial), split_words(trim(text)), j) ==> j
            <= k,
        within_budget(
            joined(committed, join_words(split_words(partial).take(split_words(partial).len() - k))),
            trim(text),
            max_bytes,
        ),
    ensures
        ({
            let (c, p, _) = assembler_step(
                committed,
                partial,
                max_bytes,
                InferenceKind::Partial,
                text,
                true,
            );
            &&& c == joined(
                committed,
                join_words(split_words(partial).take(split_words(partial).len() - k)),
            )
            &&& p == trim(text)
            &&& k == 0 ==> c == joined(committed, join_words(split_words(partial)))
        }),
{
    let t = trim(text);
    law_departed_words_precede_longest_overlap(partial, t, k);
    let c1 = committed_after_roll(committed, partial, t);
    lemma_bounded_keeps_fitting_state(c1, t, max_bytes);
}

} // verus!
