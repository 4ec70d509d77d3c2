//! The properties the library states of its model: the round trip under
//! `Keep`, how `Clip` relates to `Keep`, idempotence of trimming, that no
//! policy changes the number of lines, and what an empty source yields.

use vstd::prelude::*;

use crate::lines::{
    clip_line, has_terminator, is_whitespace_char, joined_under_policy, lemma_raw_lines_flatten,
    lemma_raw_lines_shape, lines_under_policy, raw_lines, terminator_len, trim_back, trim_front,
    trim_line, EndingPolicy,
};

verus! {

/// Round trip under `Keep`: concatenating all `Keep`-policy output lines,
/// in order, reproduces the source text exactly.
pub proof fn lemma_keep_round_trip(s: Seq<char>)
    ensures
        joined_under_policy(EndingPolicy::Keep, s) == s,
{
    assert(lines_under_policy(EndingPolicy::Keep, s) =~= raw_lines(s));
    lemma_raw_lines_flatten(s);
}

/// `Clip` equals `Keep` minus the terminator: each `Clip` output line is
/// the `Keep` line with exactly its trailing `"\r\n"` or `"\n"` removed;
/// every line but the last carries a terminator, and a line without one
/// (possible only for the last) is unchanged by `Clip`.
pub proof fn lemma_clip_is_keep_minus_terminator(s: Seq<char>, i: int)
    requires
        0 <= i < lines_under_policy(EndingPolicy::Keep, s).len(),
    ensures
        ({
            let keep = lines_under_policy(EndingPolicy::Keep, s)[i];
            let clip = lines_under_policy(EndingPolicy::Clip, s)[i];
            &&& clip == keep.take(keep.len() - terminator_len(keep))
            &&& i < lines_under_policy(EndingPolicy::Keep, s).len() - 1 ==> has_terminator(keep)
                && terminator_len(keep) >= 1
            &&& !has_terminator(keep) ==> clip == keep
        }),
{
    let raw = raw_lines(s)[i];
    lemma_raw_lines_shape(s, i);
    assert(lines_under_policy(EndingPolicy::Keep, s)[i] == raw);
    assert(lines_under_policy(EndingPolicy::Clip, s)[i] == clip_line(raw));
    if !has_terminator(raw) {
        assert(terminator_len(raw) == 0);
        assert(raw.take(raw.len() as int) =~= raw);
    }
}

/// Trim idempotence: trimming an already-trimmed line changes nothing.
pub proof fn lemma_trim_idempotent(l: Seq<char>)
    ensures
        trim_line(trim_line(l)) == trim_line(l),
{
    let front = trim_front(l);
    let t = trim_back(front);
    lemma_trim_front_no_leading(l);
    lemma_trim_back_no_trailing(front);
    lemma_trim_back_is_prefix(front);
    if t.len() == 0 {
        assert(trim_front(t) == t);
        assert(trim_back(t) == t);
    } else {
        assert(t[0] == front[0]);
        assert(!is_whitespace_char(t[0]));
        assert(trim_front(t) == t);
        assert(!is_whitespace_char(t[t.len() - 1]));
        assert(trim_back(t) == t);
    }
}

/// A trimmed-at-the-front line does not start with whitespace.
proof fn lemma_trim_front_no_leading(l: Seq<char>)
    ensures
        trim_front(l).len() > 0 ==> !is_whitespace_char(trim_front(l)[0]),
    decreases l.len(),
{
    if l.len() > 0 && is_whitespace_char(l[0]) {
        lemma_trim_front_no_leading(l.drop_first());
    }
}

/// A trimmed-at-the-back line does not end with whitespace.
proof fn lemma_trim_back_no_trailing(l: Seq<char>)
    ensures
        trim_back(l).len() > 0 ==> !is_whitespace_char(trim_back(l)[trim_back(l).len() - 1]),
    decreases l.len(),
{
    if l.len() > 0 && is_whitespace_char(l[l.len() - 1]) {
        lemma_trim_back_no_trailing(l.drop_last());
    }
}

/// `trim_back` only removes characters at the end: its result is a prefix.
proof fn lemma_trim_back_is_prefix(l: Seq<char>)
    ensures
        trim_back(l).len() <= l.len(),
        forall|j: int| 0 <= j < trim_back(l).len() ==> trim_back(l)[j] == l[j],
    decreases l.len(),
{
    if l.len() > 0 && is_whitespace_char(l[l.len() - 1]) {
        lemma_trim_back_is_prefix(l.drop_last());
        assert(forall|j: int| 0 <= j < l.drop_last().len() ==> l.drop_last()[j] == l[j]);
    }
}

/// Cardinality preservation: no policy adds, drops or reorders lines, so
/// the list shape has exactly one output line per raw line of the source.
pub proof fn lemma_policy_preserves_line_count(p: EndingPolicy, s: Seq<char>)
    ensures
        lines_under_policy(p, s).len() == raw_lines(s).len(),
{
}

/// Source equivalence: every source adapter's contract equates its output
/// with `joined_under_policy` (or `lines_under_policy`) of the text the
/// source holds, so any two adapters reading the same text under the same
/// policy and shape are pinned to the same output.
pub proof fn lemma_source_equivalence(
    p: EndingPolicy,
    text: Seq<char>,
    one: Seq<char>,
    other: Seq<char>,
)
    requires
        one == joined_under_policy(p, text),
        other == joined_under_policy(p, text),
    ensures
        one == other,
{
}

/// Empty source: an empty text has no lines, so it yields an empty list
/// and an empty joined string under every policy.
pub proof fn lemma_empty_source(p: EndingPolicy)
    ensures
        raw_lines(Seq::<char>::empty()) == Seq::<Seq<char>>::empty(),
        lines_under_policy(p, Seq::<char>::empty()) == Seq::<Seq<char>>::empty(),
        joined_under_policy(p, Seq::<char>::empty()) == Seq::<char>::empty(),
{
    assert(lines_under_policy(p, Seq::<char>::empty()) =~= Seq::<Seq<char>>::empty());
    assert(Seq::<Seq<char>>::empty().flatten() =~= Seq::<char>::empty());
}

} // verus!
