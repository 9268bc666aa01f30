//! Character-level helpers over which the rest of the library states its
//! contracts. A text is viewed as a `Seq<char>`.

use vstd::prelude::*;

verus! {

/// The views of a sequence of owned strings.
pub open spec fn views(v: Seq<String>) -> Seq<Seq<char>> {
    v.map_values(|s: String| s@)
}

/// Number of characters from `pos` up to, and not including, the first `c`
/// at or after `pos` (up to the end where there is none).
pub open spec fn run_len(s: Seq<char>, c: char, pos: int) -> nat
    decreases s.len() - pos,
{
    if pos < 0 || pos >= s.len() || s[pos] == c {
        0
    } else {
        1 + run_len(s, c, pos + 1)
    }
}

/// `p` is a prefix of `s`.
pub open spec fn has_prefix(s: Seq<char>, p: Seq<char>) -> bool {
    p.len() <= s.len() && s.take(p.len() as int) == p
}

/// No character of `s` ends a line.
pub open spec fn single_line(s: Seq<char>) -> bool {
    forall|i: int| 0 <= i < s.len() ==> s[i] != '\n' && s[i] != '\r'
}

/// `s` without one trailing carriage return.
pub open spec fn strip_cr(s: Seq<char>) -> Seq<char> {
    if s.len() > 0 && s.last() == '\r' {
        s.drop_last()
    } else {
        s
    }
}

/// The lines of `s` that begin at or after `pos`: each ends before a line
/// feed or at the end of the text, and loses one trailing carriage return.
pub open spec fn lines_from(s: Seq<char>, pos: int) -> Seq<Seq<char>>
    decreases s.len() - pos,
{
    if pos < 0 || pos >= s.len() {
        Seq::empty()
    } else {
        let end = pos + run_len(s, '\n', pos);
        let rest = if end < s.len() {
            lines_from(s, end + 1)
        } else {
            Seq::empty()
        };
        seq![strip_cr(s.subrange(pos, end))] + rest
    }
}

/// The lines of a text. A final line feed starts no further line, so the
/// empty text has no line and `"a\n"` has one.
pub open spec fn spec_lines(s: Seq<char>) -> Seq<Seq<char>> {
    lines_from(s, 0)
}

/// `run_len` stops inside the text, on `c` or at the end, and skips no `c`.
pub proof fn lemma_run_len(s: Seq<char>, c: char, pos: int)
    requires
        0 <= pos <= s.len(),
    ensures
        pos + run_len(s, c, pos) <= s.len(),
        pos + run_len(s, c, pos) < s.len() ==> s[pos + run_len(s, c, pos)] == c,
        forall|i: int| pos <= i < pos + run_len(s, c, pos) ==> s[i] != c,
    decreases s.len() - pos,
{
    if pos < s.len() && s[pos] != c {
        lemma_run_len(s, c, pos + 1);
    }
}

/// A run that meets `c` after exactly `n` other characters has length `n`.
pub proof fn lemma_run_len_is(s: Seq<char>, c: char, pos: int, n: nat)
    requires
        0 <= pos,
        pos + n <= s.len(),
        forall|i: int| pos <= i < pos + n ==> s[i] != c,
        pos + n == s.len() || s[pos + n] == c,
    ensures
        run_len(s, c, pos) == n,
    decreases n,
{
    if n > 0 {
        lemma_run_len_is(s, c, pos + 1, (n - 1) as nat);
    }
}

/// A run in the second of two joined texts is as long as in that text alone.
pub proof fn lemma_run_len_shift(a: Seq<char>, b: Seq<char>, c: char, i: int)
    requires
        0 <= i <= b.len(),
    ensures
        run_len(a + b, c, a.len() + i) == run_len(b, c, i),
    decreases b.len() - i,
{
    if i < b.len() {
        assert((a + b)[a.len() + i] == b[i]);
        if b[i] != c {
            lemma_run_len_shift(a, b, c, i + 1);
        }
    }
}

/// The lines found in the second of two joined texts are those of that
/// text alone.
pub proof fn lemma_lines_shift(a: Seq<char>, b: Seq<char>, i: int)
    requires
        0 <= i,
    ensures
        lines_from(a + b, a.len() + i) == lines_from(b, i),
    decreases b.len() - i,
{
    if i < b.len() {
        lemma_run_len_shift(a, b, '\n', i);
        lemma_run_len(b, '\n', i);
        let end = i + run_len(b, '\n', i);
        assert((a + b).subrange(a.len() + i, a.len() + end) == b.subrange(i, end));
        if end < b.len() {
            lemma_lines_shift(a, b, end + 1);
        }
    }
}

/// The characters of a string slice, in order.
pub fn to_chars(s: &str) -> (v: Vec<char>)
    ensures
        v@ == s@,
{
    let mut v: Vec<char> = Vec::new();
    for c in it: s.chars()
        invariant
            v@ == it.seq().take(it.index@),
    {
        v.push(c);
    }
    v
}

/// Index of the first `c` at or after `from`, or the length where there is none.
pub fn find_char(v: &Vec<char>, c: char, from: usize) -> (end: usize)
    requires
        from <= v@.len(),
    ensures
        end == from + run_len(v@, c, from as int),
        from <= end <= v@.len(),
{
    let mut i: usize = from;
    while i < v.len() && v[i] != c
        invariant
            from <= i <= v@.len(),
            from + run_len(v@, c, from as int) == i + run_len(v@, c, i as int),
        decreases v@.len() - i,
    {
        i = i + 1;
    }
    i
}

/// Whether the characters of `p` open `v`.
pub fn starts_with(v: &Vec<char>, p: &Vec<char>) -> (r: bool)
    ensures
        r == has_prefix(v@, p@),
{
    if p.len() > v.len() {
        return false;
    }
    let mut i: usize = 0;
    while i < p.len()
        invariant
            i <= p@.len() <= v@.len(),
            v@.take(i as int) == p@.take(i as int),
        decreases p@.len() - i,
    {
        if v[i] != p[i] {
            assert(v@.take(p@.len() as int)[i as int] != p@[i as int]);
            return false;
        }
        assert(v@.take(i + 1) == v@.take(i as int).push(v@[i as int]));
        assert(p@.take(i + 1) == p@.take(i as int).push(p@[i as int]));
        i = i + 1;
    }
    assert(p@.take(p@.len() as int) == p@);
    true
}

/// Splits a text into its lines.
pub fn lines(text: &str) -> (out: Vec<String>)
    ensures
        views(out@) == spec_lines(text@),
{
    let chars = to_chars(text);
    let n = chars.len();
    let mut out: Vec<String> = Vec::new();
    let mut pos: usize = 0;
    assert(views(out@) == Seq::<Seq<char>>::empty());
    while pos < n
        invariant
            pos <= n,
            n == chars@.len(),
            chars@ == text@,
            spec_lines(chars@) == views(out@) + lines_from(chars@, pos as int),
        decreases n - pos,
    {
        let end = find_char(&chars, '\n', pos);
        let stop = if end > pos && chars[end - 1] == '\r' {
            end - 1
        } else {
            end
        };
        let line = text.substring_char(pos, stop).to_owned();
        proof {
            let whole = chars@.subrange(pos as int, end as int);
            assert(line@ == strip_cr(whole)) by {
                if end > pos && chars@[end - 1] == '\r' {
                    assert(whole.last() == '\r');
                    assert(whole.drop_last() == chars@.subrange(pos as int, stop as int));
                } else {
                    assert(stop == end);
                }
            }
            assert(views(out@.push(line)) == views(out@).push(line@));
        }
        out.push(line);
        pos = if end < n {
            end + 1
        } else {
            n
        };
    }
    out
}

} // verus!
