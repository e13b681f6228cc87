//! Small verified string utilities shared by the rest of the crate:
//! prefix tests, splitting subprocess output into lines, and taking the
//! last segment of a slash-separated path.

use vstd::prelude::*;

verus! {

/// A sequence `s` starts with the prefix `p`.
pub open spec fn spec_starts_with(s: Seq<char>, p: Seq<char>) -> bool {
    p.len() <= s.len() && s.subrange(0, p.len() as int) == p
}

/// Character-by-character prefix test on string slices.
pub fn str_starts_with(s: &str, p: &str) -> (r: bool)
    ensures
        r == spec_starts_with(s@, p@),
{
    let s_len = s.unicode_len();
    let p_len = p.unicode_len();
    if p_len > s_len {
        assert(!spec_starts_with(s@, p@));
        return false;
    }
    let mut i: usize = 0;
    while i < p_len
        invariant
            i <= p_len <= s_len,
            s_len == s@.len(),
            p_len == p@.len(),
            forall|j: int| 0 <= j < i ==> s@[j] == p@[j],
        decreases p_len - i,
    {
        if s.get_char(i) != p.get_char(i) {
            assert(s@.subrange(0, p@.len() as int)[i as int] != p@[i as int]);
            return false;
        }
        i = i + 1;
    }
    assert(s@.subrange(0, p@.len() as int) =~= p@);
    true
}

/// Index of the first newline at or after position `i`, or the length of `s`
/// if there is none.
pub open spec fn first_nl_from(s: Seq<char>, i: int) -> int
    decreases s.len() - i,
{
    if !(0 <= i < s.len()) {
        s.len() as int
    } else if s[i] == '\n' {
        i
    } else {
        first_nl_from(s, i + 1)
    }
}

pub proof fn lemma_first_nl_from(s: Seq<char>, i: int)
    requires
        0 <= i <= s.len(),
    ensures
        i <= first_nl_from(s, i) <= s.len(),
        first_nl_from(s, i) < s.len() ==> s[first_nl_from(s, i)] == '\n',
        forall|j: int| i <= j < first_nl_from(s, i) ==> s[j] != '\n',
    decreases s.len() - i,
{
    if i < s.len() && s[i] != '\n' {
        lemma_first_nl_from(s, i + 1);
    }
}

/// A line with a trailing carriage return stripped, as `str::lines` does for
/// lines that ended in `\r\n`.
pub open spec fn strip_cr(l: Seq<char>) -> Seq<char> {
    if l.len() > 0 && l[l.len() - 1] == '\r' {
        l.drop_last()
    } else {
        l
    }
}

/// The lines of `s` starting at position `i`, split as `str::lines` splits:
/// at each newline, with a carriage return before the newline stripped, and
/// with no empty line after a final newline.
pub open spec fn spec_lines_from(s: Seq<char>, i: int) -> Seq<Seq<char>>
    decreases s.len() - i,
{
    if !(0 <= i < s.len()) {
        Seq::empty()
    } else {
        let j = first_nl_from(s, i);
        if !(i <= j < s.len()) {
            seq![s.subrange(i, s.len() as int)]
        } else {
            seq![strip_cr(s.subrange(i, j))] + spec_lines_from(s, j + 1)
        }
    }
}

/// The lines of `s`, split as `str::lines` splits.
pub open spec fn spec_lines(s: Seq<char>) -> Seq<Seq<char>> {
    spec_lines_from(s, 0)
}

/// Index of the first newline at or after `from`, or the length of `s`.
fn find_nl(s: &str, from: usize) -> (r: usize)
    requires
        from <= s@.len(),
    ensures
        r == first_nl_from(s@, from as int),
        from <= r <= s@.len(),
    {
    let n = s.unicode_len();
    let mut j = from;
    while j < n
        invariant
            from <= j <= n,
            n == s@.len(),
            first_nl_from(s@, from as int) == first_nl_from(s@, j as int),
        decreases n - j,
    {
        if s.get_char(j) == '\n' {
            return j;
        }
        j = j + 1;
    }
    j
}

/// Splits subprocess output into lines, exactly as `str::lines` does.
pub fn split_lines(s: &str) -> (r: Vec<String>)
    ensures
        r.deep_view() == spec_lines(s@),
{
    let n = s.unicode_len();
    let mut out: Vec<String> = Vec::new();
    let mut start: usize = 0;
    while start < n
        invariant
            start <= n,
            n == s@.len(),
            spec_lines(s@) == out.deep_view() + spec_lines_from(s@, start as int),
        decreases n - start,
    {
        let ghost prev_deep = out.deep_view();
        let ghost prev_start = start as int;
        let j = find_nl(s, start);
        proof {
            lemma_first_nl_from(s@, start as int);
        }
        if j == n {
            let line = s.substring_char(start, n).to_owned();
            out.push(line);
            proof {
                assert(spec_lines_from(s@, prev_start) =~~= seq![s@.subrange(prev_start, n as int)]);
                assert(out.deep_view() =~~= prev_deep.push(s@.subrange(prev_start, n as int)));
                assert(out.deep_view() + spec_lines_from(s@, n as int) =~~= prev_deep
                    + spec_lines_from(s@, prev_start));
            }
            start = n;
        } else {
            let mut end = j;
            if end > start && s.get_char(end - 1) == '\r' {
                end = end - 1;
            }
            let line = s.substring_char(start, end).to_owned();
            proof {
                assert(line@ =~= strip_cr(s@.subrange(prev_start, j as int)));
            }
            out.push(line);
            start = j + 1;
            proof {
                assert(out.deep_view() =~~= prev_deep.push(line@));
                assert(out.deep_view() + spec_lines_from(s@, start as int) =~~= prev_deep
                    + spec_lines_from(s@, prev_start));
            }
        }
    }
    proof {
        assert(out.deep_view() + spec_lines_from(s@, start as int) =~~= out.deep_view());
    }
    out
}

/// What follows the last `/` of `s`; all of `s` when it holds no `/`.
pub open spec fn spec_last_segment(s: Seq<char>) -> Seq<char>
    decreases s.len(),
{
    if s.len() == 0 {
        s
    } else if s[s.len() - 1] == '/' {
        Seq::empty()
    } else {
        spec_last_segment(s.drop_last()).push(s[s.len() - 1])
    }
}

proof fn lemma_last_segment_cut(s: Seq<char>, k: int)
    requires
        0 <= k <= s.len(),
        forall|j: int| k <= j < s.len() ==> s[j] != '/',
        k > 0 ==> s[k - 1] == '/',
    ensures
        spec_last_segment(s) =~= s.subrange(k, s.len() as int),
    decreases s.len(),
{
    if s.len() == 0 {
    } else if s[s.len() - 1] == '/' {
        assert(k == s.len());
    } else {
        assert(k < s.len());
        lemma_last_segment_cut(s.drop_last(), k);
        assert(s.subrange(k, s.len() as int) =~= s.drop_last().subrange(
            k,
            s.len() - 1,
        ).push(s[s.len() - 1]));
    }
}

/// The position right after the last `/` of `s`, or `0` when there is none.
fn last_slash_cut(s: &str) -> (k: usize)
    ensures
        k <= s@.len(),
        forall|j: int| k <= j < s@.len() ==> s@[j] != '/',
        k > 0 ==> s@[k - 1] == '/',
{
    let n = s.unicode_len();
    let mut i: usize = n;
    loop
        invariant
            i <= n,
            n == s@.len(),
            forall|j: int| i <= j < s@.len() ==> s@[j] != '/',
        decreases i,
    {
        if i == 0 {
            return 0;
        }
        if s.get_char(i - 1) == '/' {
            return i;
        }
        i = i - 1;
    }
}

/// The last slash-separated segment of a path, e.g. the repository name at
/// the end of a URL path. Empty when the path ends in `/`.
pub fn last_path_segment(s: &str) -> (r: String)
    ensures
        r@ == spec_last_segment(s@),
{
    let n = s.unicode_len();
    let k = last_slash_cut(s);
    let r = s.substring_char(k, n).to_owned();
    proof {
        lemma_last_segment_cut(s@, k as int);
    }
    r
}

} // verus!
