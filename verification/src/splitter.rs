//! The line splitter: turns a text into its sequence of raw lines, each
//! one including its trailing terminator when the source has one.

use vstd::prelude::*;
use vstd::string::*;

use crate::lines::{
    first_line_len, lemma_first_line_len_at, lemma_first_line_len_bounds,
    lemma_first_line_len_no_break, raw_lines,
};

verus! {

/// Index of the first `'\n'` at or after `from` in `s`, if there is one.
fn find_line_break(s: &str, from: usize, len: usize) -> (r: Option<usize>)
    requires
        len == s@.len(),
        from <= len,
    ensures
        match r {
            Some(i) => {
                &&& from <= i < s@.len()
                &&& s@[i as int] == '\n'
                &&& forall|j: int| from <= j < i ==> s@[j] != '\n'
            },
            None => forall|j: int| from <= j < s@.len() ==> s@[j] != '\n',
        },
{
    let mut i: usize = from;
    while i < len
        invariant
            from <= i <= len,
            len == s@.len(),
            forall|j: int| from <= j < i ==> s@[j] != '\n',
        decreases len - i,
    {
        if s.get_char(i) == '\n' {
            return Some(i);
        }
        i = i + 1;
    }
    None
}

/// Split `s` into its raw lines: every line ends with its `'\n'` (bare or
/// preceded by `'\r'`), except that the last line has no terminator when
/// the text does not end with one.  An empty text has no lines.
pub fn split_raw_lines(s: &str) -> (r: Vec<String>)
    ensures
        r.deep_view() == raw_lines(s@),
{
    let len = s.unicode_len();
    let mut out: Vec<String> = Vec::new();
    let mut pos: usize = 0;
    proof {
        assert(out.deep_view() =~= Seq::<Seq<char>>::empty());
        assert(s@.skip(0) =~= s@);
        assert(out.deep_view() + raw_lines(s@.skip(0)) =~= raw_lines(s@));
    }
    while pos < len
        invariant
            pos <= len,
            len == s@.len(),
            out.deep_view() + raw_lines(s@.skip(pos as int)) == raw_lines(s@),
        decreases len - pos,
    {
        let brk = find_line_break(s, pos, len);
        let end: usize = match brk {
            Some(i) => i + 1,
            None => len,
        };
        proof {
            let suffix = s@.skip(pos as int);
            assert(forall|k: int| 0 <= k < suffix.len() ==> suffix[k] == s@[pos + k]);
            match brk {
                Some(i) => lemma_first_line_len_at(suffix, i as int - pos as int),
                None => lemma_first_line_len_no_break(suffix),
            }
            assert(first_line_len(suffix) == end - pos);
        }
        let line = s.substring_char(pos, end);
        let owned = line.to_owned();
        let ghost prior = out.deep_view();
        let ghost line_view = owned@;
        proof {
            let suffix = s@.skip(pos as int);
            let n = first_line_len(suffix);
            lemma_first_line_len_bounds(suffix);
            assert(raw_lines(suffix) == seq![suffix.take(n)] + raw_lines(suffix.skip(n)));
            assert(suffix.take(n) =~= s@.subrange(pos as int, end as int));
            assert(suffix.skip(n) =~= s@.skip(end as int));
        }
        out.push(owned);
        proof {
            assert(out.deep_view() =~= prior.push(line_view));
            assert(prior.push(line_view) + raw_lines(s@.skip(end as int)) =~= prior
                + raw_lines(s@.skip(pos as int)));
        }
        pos = end;
    }
    proof {
        assert(raw_lines(s@.skip(pos as int)) =~= Seq::<Seq<char>>::empty());
        assert(out.deep_view() + Seq::<Seq<char>>::empty() =~= out.deep_view());
    }
    out
}

} // verus!
