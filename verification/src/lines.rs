//! The mathematical model of line aggregation: how a text decomposes into
//! raw lines, and what each ending policy does to a line.

use vstd::prelude::*;

verus! {

/// How the terminator and surrounding whitespace of each line are treated.
#[derive(Clone, Copy, Debug, PartialEq, Eq, Structural)]
pub enum EndingPolicy {
    /// Each line is kept verbatim, terminator included.
    Keep,
    /// The trailing `"\r\n"` or `"\n"` is removed from each line, nothing else.
    Clip,
    /// Leading and trailing whitespace (terminator included) is removed from each line.
    Trim,
}

/// The whitespace characters `str::trim` strips: Unicode `White_Space`.
pub open spec fn is_whitespace_char(c: char) -> bool {
    ||| c == ' '
    ||| c == '\t'
    ||| c == '\n'
    ||| c == '\r'
    ||| c == '\u{b}'
    ||| c == '\u{c}'
    ||| c == '\u{85}'
    ||| c == '\u{a0}'
    ||| c == '\u{1680}'
    ||| (0x2000 <= c as u32 && c as u32 <= 0x200a)
    ||| c == '\u{2028}'
    ||| c == '\u{2029}'
    ||| c == '\u{202f}'
    ||| c == '\u{205f}'
    ||| c == '\u{3000}'
}

/// Length of the first raw line of `s`: everything up to and including the
/// first `'\n'`, or all of `s` when no `'\n'` occurs.
pub open spec fn first_line_len(s: Seq<char>) -> int
    decreases s.len(),
{
    if s.len() == 0 {
        0
    } else if s[0] == '\n' {
        1
    } else {
        1 + first_line_len(s.drop_first())
    }
}

/// A nonempty text always has a nonempty first line, and that line is
/// no longer than the text.
pub proof fn lemma_first_line_len_bounds(s: Seq<char>)
    ensures
        s.len() > 0 ==> 1 <= first_line_len(s) <= s.len(),
    decreases s.len(),
{
    if s.len() > 0 && s[0] != '\n' {
        lemma_first_line_len_bounds(s.drop_first());
        if s.drop_first().len() == 0 {
            assert(first_line_len(s.drop_first()) == 0);
        }
    }
}

/// The raw lines of `s`, in order, each including its terminator when it has
/// one.  Only the last line can lack a terminator.
pub open spec fn raw_lines(s: Seq<char>) -> Seq<Seq<char>>
    decreases s.len(),
    via raw_lines_decreases
{
    if s.len() == 0 {
        Seq::empty()
    } else {
        seq![s.take(first_line_len(s))] + raw_lines(s.skip(first_line_len(s)))
    }
}

#[via_fn]
proof fn raw_lines_decreases(s: Seq<char>) {
    lemma_first_line_len_bounds(s);
}

/// When the first `'\n'` of `s` stands at index `k`, the first raw line is
/// `s` up to and including that character.
pub proof fn lemma_first_line_len_at(s: Seq<char>, k: int)
    requires
        0 <= k < s.len(),
        s[k] == '\n',
        forall|j: int| 0 <= j < k ==> s[j] != '\n',
    ensures
        first_line_len(s) == k + 1,
    decreases k,
{
    if k > 0 {
        assert(s.drop_first()[k - 1] == s[k]);
        assert(forall|j: int| 0 <= j < k - 1 ==> s.drop_first()[j] == s[j + 1]);
        lemma_first_line_len_at(s.drop_first(), k - 1);
    }
}

/// When `s` holds no `'\n'` at all, the whole of `s` is its one raw line.
pub proof fn lemma_first_line_len_no_break(s: Seq<char>)
    requires
        s.len() > 0,
        forall|j: int| 0 <= j < s.len() ==> s[j] != '\n',
    ensures
        first_line_len(s) == s.len(),
    decreases s.len(),
{
    if s.len() > 1 {
        assert(forall|j: int| 0 <= j < s.drop_first().len() ==> s.drop_first()[j] == s[j + 1]);
        lemma_first_line_len_no_break(s.drop_first());
    } else {
        assert(first_line_len(s.drop_first()) == 0);
    }
}

/// The first raw line either ends with `'\n'` or runs to the end of `s`.
pub proof fn lemma_first_line_terminated(s: Seq<char>)
    requires
        s.len() > 0,
    ensures
        first_line_len(s) == s.len() || s[first_line_len(s) - 1] == '\n',
    decreases s.len(),
{
    if s[0] != '\n' {
        if s.len() > 1 {
            lemma_first_line_terminated(s.drop_first());
            lemma_first_line_len_bounds(s.drop_first());
            assert(s.drop_first()[first_line_len(s.drop_first()) - 1]
                == s[first_line_len(s.drop_first())]);
        } else {
            assert(first_line_len(s.drop_first()) == 0);
        }
    }
}

/// How many characters of `l` belong to its terminator: 2 for a trailing
/// `"\r\n"`, 1 for a bare `"\n"`, 0 when the line has none.
pub open spec fn terminator_len(l: Seq<char>) -> int {
    if l.len() >= 2 && l[l.len() - 2] == '\r' && l[l.len() - 1] == '\n' {
        2
    } else if l.len() >= 1 && l[l.len() - 1] == '\n' {
        1
    } else {
        0
    }
}

/// Whether `l` ends with a line terminator.
pub open spec fn has_terminator(l: Seq<char>) -> bool {
    l.len() > 0 && l[l.len() - 1] == '\n'
}

/// `l` with exactly its trailing terminator removed, when it has one.
pub open spec fn clip_line(l: Seq<char>) -> Seq<char> {
    l.take(l.len() - terminator_len(l))
}

/// `l` without its leading whitespace.
pub open spec fn trim_front(l: Seq<char>) -> Seq<char>
    decreases l.len(),
{
    if l.len() > 0 && is_whitespace_char(l[0]) {
        trim_front(l.drop_first())
    } else {
        l
    }
}

/// `l` without its trailing whitespace.
pub open spec fn trim_back(l: Seq<char>) -> Seq<char>
    decreases l.len(),
{
    if l.len() > 0 && is_whitespace_char(l[l.len() - 1]) {
        trim_back(l.drop_last())
    } else {
        l
    }
}

/// `l` without leading and trailing whitespace.  Because the terminator
/// characters are whitespace, this also removes any terminator.
pub open spec fn trim_line(l: Seq<char>) -> Seq<char> {
    trim_back(trim_front(l))
}

/// `trim_front` drops exactly the leading run of whitespace: when the first
/// `k` characters are whitespace and the next one is not, it yields `l`
/// without those `k`.
pub proof fn lemma_trim_front_is_skip(l: Seq<char>, k: int)
    requires
        0 <= k <= l.len(),
        forall|j: int| 0 <= j < k ==> is_whitespace_char(l[j]),
        k == l.len() || !is_whitespace_char(l[k]),
    ensures
        trim_front(l) == l.skip(k),
    decreases k,
{
    if k == 0 {
        assert(l.skip(0) =~= l);
    } else {
        assert(forall|j: int| 0 <= j < l.drop_first().len() ==> l.drop_first()[j] == l[j + 1]);
        lemma_trim_front_is_skip(l.drop_first(), k - 1);
        assert(l.drop_first().skip(k - 1) =~= l.skip(k));
    }
}

/// `trim_back` drops exactly the trailing run of whitespace: when everything
/// from index `m` on is whitespace and the character before is not, it
/// yields the first `m` characters of `l`.
pub proof fn lemma_trim_back_is_take(l: Seq<char>, m: int)
    requires
        0 <= m <= l.len(),
        forall|j: int| m <= j < l.len() ==> is_whitespace_char(l[j]),
        m == 0 || !is_whitespace_char(l[m - 1]),
    ensures
        trim_back(l) == l.take(m),
    decreases l.len(),
{
    if m == l.len() {
        assert(l.take(m) =~= l);
    } else {
        assert(is_whitespace_char(l[l.len() - 1]));
        assert(forall|j: int| 0 <= j < l.drop_last().len() ==> l.drop_last()[j] == l[j]);
        lemma_trim_back_is_take(l.drop_last(), m);
        assert(l.drop_last().take(m) =~= l.take(m));
    }
}

/// Concatenating the raw lines of `s`, in order, gives back `s` exactly.
pub proof fn lemma_raw_lines_flatten(s: Seq<char>)
    ensures
        raw_lines(s).flatten() == s,
    decreases s.len(),
{
    if s.len() == 0 {
        assert(raw_lines(s).flatten() =~= s);
    } else {
        let n = first_line_len(s);
        lemma_first_line_len_bounds(s);
        lemma_raw_lines_flatten(s.skip(n));
        let lines = raw_lines(s);
        assert(lines.first() == s.take(n));
        assert(lines.drop_first() =~= raw_lines(s.skip(n)));
        assert(lines.flatten() == lines.first() + lines.drop_first().flatten());
        assert(s.take(n) + s.skip(n) =~= s);
    }
}

/// Every raw line is nonempty, every raw line but the last ends with a
/// terminator, and `'\n'` never occurs before a line's last character.
pub proof fn lemma_raw_lines_shape(s: Seq<char>, i: int)
    requires
        0 <= i < raw_lines(s).len(),
    ensures
        raw_lines(s)[i].len() > 0,
        i < raw_lines(s).len() - 1 ==> has_terminator(raw_lines(s)[i]),
        forall|j: int| 0 <= j < raw_lines(s)[i].len() - 1 ==> raw_lines(s)[i][j] != '\n',
    decreases s.len(),
{
    let n = first_line_len(s);
    lemma_first_line_len_bounds(s);
    if i == 0 {
        assert(raw_lines(s)[0] == s.take(n));
        if raw_lines(s).len() > 1 {
            assert(raw_lines(s.skip(n)).len() > 0);
            assert(s.skip(n).len() > 0);
            lemma_first_line_terminated(s);
            assert(s.take(n)[n - 1] == '\n');
        }
        assert forall|j: int| 0 <= j < n - 1 implies s.take(n)[j] != '\n' by {
            lemma_first_line_no_internal_break(s, j);
        }
    } else {
        assert(raw_lines(s)[i] == raw_lines(s.skip(n))[i - 1]);
        lemma_raw_lines_shape(s.skip(n), i - 1);
    }
}

/// No character of the first raw line is `'\n'`, except possibly its last.
pub proof fn lemma_first_line_no_internal_break(s: Seq<char>, j: int)
    requires
        0 <= j < first_line_len(s) - 1,
    ensures
        s[j] != '\n',
    decreases j,
{
    assert(s.len() > 0);
    lemma_first_line_len_bounds(s);
    if j == 0 {
        assert(s[0] != '\n') by {
            if s[0] == '\n' {
                assert(first_line_len(s) == 1);
            }
        }
    } else {
        lemma_first_line_no_internal_break(s.drop_first(), j - 1);
        assert(s.drop_first()[j - 1] == s[j]);
    }
}

/// What one raw line becomes under a policy.
pub open spec fn apply_policy(p: EndingPolicy, l: Seq<char>) -> Seq<char> {
    match p {
        EndingPolicy::Keep => l,
        EndingPolicy::Clip => clip_line(l),
        EndingPolicy::Trim => trim_line(l),
    }
}

/// The per-line transforms of the lines `ls` under policy `p`.
pub open spec fn lines_mapped(p: EndingPolicy, ls: Seq<Seq<char>>) -> Seq<Seq<char>> {
    ls.map_values(|l: Seq<char>| apply_policy(p, l))
}

/// The ordered list of output lines for text `s` under policy `p`.
pub open spec fn lines_under_policy(p: EndingPolicy, s: Seq<char>) -> Seq<Seq<char>> {
    lines_mapped(p, raw_lines(s))
}

/// The joined output string for text `s` under policy `p`.
pub open spec fn joined_under_policy(p: EndingPolicy, s: Seq<char>) -> Seq<char> {
    lines_under_policy(p, s).flatten()
}

} // verus!
