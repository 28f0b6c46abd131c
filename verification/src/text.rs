//! Character-level helpers shared by the line parsers: Unicode white space,
//! trimming, and searching and slicing lines by character position.
use vstd::prelude::*;

verus! {

/// `c` has the Unicode `White_Space` property, the set that `char::is_whitespace`
/// and the `trim` family of `str` remove.
pub open spec fn is_space(c: char) -> bool {
    ||| ('\u{9}' <= c && c <= '\u{d}')
    ||| c == ' '
    ||| c == '\u{85}'
    ||| c == '\u{a0}'
    ||| c == '\u{1680}'
    ||| ('\u{2000}' <= c && c <= '\u{200a}')
    ||| c == '\u{2028}'
    ||| c == '\u{2029}'
    ||| c == '\u{202f}'
    ||| c == '\u{205f}'
    ||| c == '\u{3000}'
}

/// `s` without its leading white space.
pub open spec fn trim_start(s: Seq<char>) -> Seq<char>
    decreases s.len(),
{
    if s.len() > 0 && is_space(s[0]) {
        trim_start(s.drop_first())
    } else {
        s
    }
}

/// `s` without its trailing white space.
pub open spec fn trim_end(s: Seq<char>) -> Seq<char>
    decreases s.len(),
{
    if s.len() > 0 && is_space(s.last()) {
        trim_end(s.drop_last())
    } else {
        s
    }
}

/// `s` without leading and trailing white space.
pub open spec fn trim(s: Seq<char>) -> Seq<char> {
    trim_end(trim_start(s))
}

/// Position of the first `c` in `s` at or after `from`, or `s.len()` when there is none.
pub open spec fn find_from(s: Seq<char>, c: char, from: int) -> int
    decreases s.len() - from,
{
    if from >= s.len() {
        s.len() as int
    } else if s[from] == c {
        from
    } else {
        find_from(s, c, from + 1)
    }
}

pub fn is_space_char(c: char) -> (res: bool)
    ensures
        res == is_space(c),
{
    ('\u{9}' <= c && c <= '\u{d}') || c == ' ' || c == '\u{85}' || c == '\u{a0}' || c == '\u{1680}'
        || ('\u{2000}' <= c && c <= '\u{200a}') || c == '\u{2028}' || c == '\u{2029}' || c
        == '\u{202f}' || c == '\u{205f}' || c == '\u{3000}'
}

/// If the first `i` characters of `s` are white space and the next one is not
/// (or there is none), trimming the start leaves `s.skip(i)`.
pub proof fn lemma_trim_start_skip(s: Seq<char>, i: int)
    requires
        0 <= i <= s.len(),
        forall|k: int| 0 <= k < i ==> is_space(#[trigger] s[k]),
        i == s.len() || !is_space(s[i]),
    ensures
        trim_start(s) == s.skip(i),
    decreases i,
{
    if i == 0 {
        assert(s.skip(0) =~= s);
    } else {
        let t = s.drop_first();
        assert forall|k: int| 0 <= k < i - 1 implies is_space(#[trigger] t[k]) by {
            assert(t[k] == s[k + 1]);
        }
        lemma_trim_start_skip(t, i - 1);
        assert(t.skip(i - 1) =~= s.skip(i));
    }
}

/// If the characters of `s` from `j` on are white space and the one before `j`
/// is not (or `j` is 0), trimming the end leaves `s.take(j)`.
pub proof fn lemma_trim_end_take(s: Seq<char>, j: int)
    requires
        0 <= j <= s.len(),
        forall|k: int| j <= k < s.len() ==> is_space(#[trigger] s[k]),
        j == 0 || !is_space(s[j - 1]),
    ensures
        trim_end(s) == s.take(j),
    decreases s.len() - j,
{
    if j == s.len() {
        assert(s.take(j) =~= s);
    } else {
        let t = s.drop_last();
        assert forall|k: int| j <= k < t.len() implies is_space(#[trigger] t[k]) by {
            assert(t[k] == s[k]);
        }
        lemma_trim_end_take(t, j);
        assert(t.take(j) =~= s.take(j));
    }
}

/// All characters of `s`, in order.
pub fn chars_of(s: &str) -> (res: Vec<char>)
    ensures
        res@ == s@,
{
    let mut res: Vec<char> = Vec::new();
    for c in it: s.chars()
        invariant
            res@ == it.seq().take(it.index() as int),
    {
        res.push(c);
    }
    res
}

/// The bounds, within `from..to`, of `chars[from..to]` with white space trimmed
/// from the end only.
pub fn trim_end_bounds(chars: &Vec<char>, from: usize, to: usize) -> (res: usize)
    requires
        from <= to <= chars@.len(),
    ensures
        from <= res <= to,
        chars@.subrange(from as int, res as int) == trim_end(
            chars@.subrange(from as int, to as int),
        ),
{
    let mut j = to;
    while j > from && is_space_char(chars[j - 1])
        invariant
            from <= j <= to <= chars@.len(),
            forall|k: int| j <= k < to ==> is_space(#[trigger] chars@[k]),
        decreases j,
    {
        j = j - 1;
    }
    proof {
        let t = chars@.subrange(from as int, to as int);
        assert forall|k: int| j - from <= k < t.len() implies is_space(#[trigger] t[k]) by {
            assert(t[k] == chars@[from + k]);
        }
        lemma_trim_end_take(t, j - from);
        assert(t.take(j - from) =~= chars@.subrange(from as int, j as int));
    }
    j
}

/// The bounds of `chars[from..to]` with white space trimmed from both ends.
pub fn trim_bounds(chars: &Vec<char>, from: usize, to: usize) -> (res: (usize, usize))
    requires
        from <= to <= chars@.len(),
    ensures
        from <= res.0 <= res.1 <= to,
        chars@.subrange(res.0 as int, res.1 as int) == trim(
            chars@.subrange(from as int, to as int),
        ),
{
    let mut i = from;
    while i < to && is_space_char(chars[i])
        invariant
            from <= i <= to <= chars@.len(),
            forall|k: int| from <= k < i ==> is_space(#[trigger] chars@[k]),
        decreases to - i,
    {
        i = i + 1;
    }
    proof {
        let t = chars@.subrange(from as int, to as int);
        assert forall|k: int| 0 <= k < i - from implies is_space(#[trigger] t[k]) by {
            assert(t[k] == chars@[from + k]);
        }
        lemma_trim_start_skip(t, i - from);
        assert(t.skip(i - from) =~= chars@.subrange(i as int, to as int));
    }
    let j = trim_end_bounds(chars, i, to);
    (i, j)
}

/// Position of the first `c` in `chars` at or after `from`, or the length.
pub fn find_char(chars: &Vec<char>, c: char, from: usize) -> (res: usize)
    requires
        from <= chars@.len(),
    ensures
        res == find_from(chars@, c, from as int),
        from <= res <= chars@.len(),
        res < chars@.len() ==> chars@[res as int] == c,
        forall|k: int| from <= k < res ==> chars@[k] != c,
{
    let mut i = from;
    while i < chars.len() && chars[i] != c
        invariant
            from <= i <= chars@.len(),
            find_from(chars@, c, from as int) == find_from(chars@, c, i as int),
            forall|k: int| from <= k < i ==> chars@[k] != c,
        decreases chars@.len() - i,
    {
        i = i + 1;
    }
    i
}

/// Whether `chars[from..to]` spells `lit`.
pub fn spells(chars: &Vec<char>, from: usize, to: usize, lit: &str) -> (res: bool)
    requires
        from <= to <= chars@.len(),
    ensures
        res == (chars@.subrange(from as int, to as int) == lit@),
{
    let lit_chars = chars_of(lit);
    if to - from != lit_chars.len() {
        proof {
            assert(chars@.subrange(from as int, to as int).len() != lit@.len());
        }
        return false;
    }
    let mut k: usize = 0;
    while k < lit_chars.len()
        invariant
            to - from == lit_chars@.len(),
            lit_chars@ == lit@,
            from <= to <= chars@.len(),
            k <= lit_chars@.len(),
            forall|m: int| 0 <= m < k ==> chars@[from + m] == lit_chars@[m],
        decreases lit_chars@.len() - k,
    {
        if chars[from + k] != lit_chars[k] {
            proof {
                assert(chars@.subrange(from as int, to as int)[k as int] != lit@[k as int]);
            }
            return false;
        }
        k = k + 1;
    }
    proof {
        assert(chars@.subrange(from as int, to as int) =~= lit@);
    }
    true
}

/// The characters `from..to` of `s` as a new `String`.
pub fn substring(s: &str, from: usize, to: usize) -> (res: String)
    requires
        from <= to <= s@.len(),
    ensures
        res@ == s@.subrange(from as int, to as int),
{
    String::from_str(s.substring_char(from, to))
}

} // verus!
