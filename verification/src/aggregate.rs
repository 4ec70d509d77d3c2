//! The aggregator: folds raw lines into the requested output shape under
//! an ending policy, and the two entry points that run the splitter and
//! the aggregator over a text.

use vstd::prelude::*;
use vstd::string::*;

use crate::lines::{
    apply_policy, clip_line, is_whitespace_char, joined_under_policy, lemma_trim_back_is_take,
    lemma_trim_front_is_skip, lines_mapped, lines_under_policy, trim_line, EndingPolicy,
};
use crate::splitter::split_raw_lines;

verus! {

/// Whether `c` is one of the whitespace characters trimming strips.
fn whitespace_char(c: char) -> (r: bool)
    ensures
        r == is_whitespace_char(c),
{
    c == ' ' || c == '\t' || c == '\n' || c == '\r' || c == '\u{b}' || c == '\u{c}' || c == '\u{85}'
        || c == '\u{a0}' || c == '\u{1680}' || (0x2000 <= c as u32 && c as u32 <= 0x200a)
        || c == '\u{2028}' || c == '\u{2029}' || c == '\u{202f}' || c == '\u{205f}'
        || c == '\u{3000}'
}

/// `line` with exactly its trailing `"\r\n"` or `"\n"` removed, when it has
/// one; a line without a terminator comes back unchanged.
pub fn clip_terminator(line: &str) -> (r: String)
    ensures
        r@ == clip_line(line@),
{
    let len = line.unicode_len();
    if len >= 2 && line.get_char(len - 2) == '\r' && line.get_char(len - 1) == '\n' {
        line.substring_char(0, len - 2).to_owned()
    } else if len >= 1 && line.get_char(len - 1) == '\n' {
        line.substring_char(0, len - 1).to_owned()
    } else {
        let r = line.to_owned();
        proof {
            assert(line@.take(line@.len() as int) =~= line@);
        }
        r
    }
}

/// `line` with its leading and trailing whitespace removed.
pub fn trim_whitespace(line: &str) -> (r: String)
    ensures
        r@ == trim_line(line@),
{
    let len = line.unicode_len();
    let mut start: usize = 0;
    while start < len && whitespace_char(line.get_char(start))
        invariant
            start <= len,
            len == line@.len(),
            forall|j: int| 0 <= j < start ==> is_whitespace_char(line@[j]),
        decreases len - start,
    {
        start = start + 1;
    }
    let mut end: usize = len;
    while end > start && whitespace_char(line.get_char(end - 1))
        invariant
            start <= end <= len,
            len == line@.len(),
            forall|j: int| end <= j < len ==> is_whitespace_char(line@[j]),
        decreases end,
    {
        end = end - 1;
    }
    let r = line.substring_char(start, end);
    proof {
        lemma_trim_front_is_skip(line@, start as int);
        let t = line@.skip(start as int);
        assert(forall|k: int| 0 <= k < t.len() ==> t[k] == line@[start + k]);
        lemma_trim_back_is_take(t, end as int - start as int);
        assert(t.take(end as int - start as int) =~= line@.subrange(start as int, end as int));
    }
    r.to_owned()
}

/// What one raw line becomes under `policy`.
pub fn transform_line(policy: EndingPolicy, line: &str) -> (r: String)
    ensures
        r@ == apply_policy(policy, line@),
{
    match policy {
        EndingPolicy::Keep => line.to_owned(),
        EndingPolicy::Clip => clip_terminator(line),
        EndingPolicy::Trim => trim_whitespace(line),
    }
}

/// Fold the raw `lines` into one string: each line is transformed by
/// `policy` and the results are concatenated in order.
pub fn aggregate_into_string(lines: &Vec<String>, policy: EndingPolicy) -> (r: String)
    ensures
        r@ == lines_mapped(policy, lines.deep_view()).flatten(),
{
    let ghost processed = lines_mapped(policy, lines.deep_view());
    let mut out = String::new();
    let mut i: usize = 0;
    proof {
        assert(processed.take(0) =~= Seq::<Seq<char>>::empty());
        assert(Seq::<Seq<char>>::empty().flatten() =~= Seq::<char>::empty());
    }
    while i < lines.len()
        invariant
            i <= lines.len(),
            processed == lines_mapped(policy, lines.deep_view()),
            processed.len() == lines.len(),
            out@ == processed.take(i as int).flatten(),
        decreases lines.len() - i,
    {
        let t = transform_line(policy, lines[i].as_str());
        out.append(t.as_str());
        proof {
            assert(processed[i as int] == apply_policy(policy, lines.deep_view()[i as int]));
            assert(processed.take(i + 1) =~= processed.take(i as int).push(processed[i as int]));
            processed.take(i as int).lemma_flatten_push(processed[i as int]);
        }
        i = i + 1;
    }
    proof {
        assert(processed.take(lines.len() as int) =~= processed);
    }
    out
}

/// Transform each raw line of `lines` by `policy`, keeping one output
/// element per input line, in the same order.
pub fn aggregate_into_vec_string(lines: &Vec<String>, policy: EndingPolicy) -> (r: Vec<String>)
    ensures
        r.deep_view() == lines_mapped(policy, lines.deep_view()),
{
    let ghost processed = lines_mapped(policy, lines.deep_view());
    let mut out: Vec<String> = Vec::new();
    let mut i: usize = 0;
    proof {
        assert(out.deep_view() =~= processed.take(0));
    }
    while i < lines.len()
        invariant
            i <= lines.len(),
            processed == lines_mapped(policy, lines.deep_view()),
            processed.len() == lines.len(),
            out.deep_view() == processed.take(i as int),
        decreases lines.len() - i,
    {
        let t = transform_line(policy, lines[i].as_str());
        let ghost prior = out.deep_view();
        let ghost t_view = t@;
        out.push(t);
        proof {
            assert(out.deep_view() =~= prior.push(t_view));
            assert(processed[i as int] == apply_policy(policy, lines.deep_view()[i as int]));
            assert(processed.take(i + 1) =~= prior.push(t_view));
        }
        i = i + 1;
    }
    proof {
        assert(processed.take(lines.len() as int) =~= processed);
    }
    out
}

/// All lines of `source`, transformed by `policy` and joined in order into
/// one string.
pub fn lines_into_string(source: &str, policy: EndingPolicy) -> (r: String)
    ensures
        r@ == joined_under_policy(policy, source@),
{
    let lines = split_raw_lines(source);
    aggregate_into_string(&lines, policy)
}

/// The lines of `source`, transformed by `policy`, one output element per
/// line of the source, in source order.
pub fn lines_into_vec_string(source: &str, policy: EndingPolicy) -> (r: Vec<String>)
    ensures
        r.deep_view() == lines_under_policy(policy, source@),
{
    let lines = split_raw_lines(source);
    aggregate_into_vec_string(&lines, policy)
}

} // verus!
