//! Character-level facts about shader source text: whitespace, trimming,
//! lines and the UTF-8 length of characters.

use vstd::prelude::*;

verus! {

/// Unicode `White_Space`, the set that `char::is_whitespace` tests.
pub open spec fn is_ws(c: char) -> bool {
    ||| c == ' '
    ||| ('\u{9}' <= c && c <= '\u{d}')
    ||| c == '\u{85}'
    ||| c == '\u{a0}'
    ||| c == '\u{1680}'
    ||| ('\u{2000}' <= c && c <= '\u{200a}')
    ||| c == '\u{2028}'
    ||| c == '\u{2029}'
    ||| c == '\u{202f}'
    ||| c == '\u{205f}'
    ||| c == '\u{3000}'
}

/// `s` without its leading whitespace.
pub open spec fn trim_start(s: Seq<char>) -> Seq<char>
    decreases s.len(),
{
    if s.len() > 0 && is_ws(s[0]) {
        trim_start(s.drop_first())
    } else {
        s
    }
}

/// `s` without its trailing whitespace.
pub open spec fn trim_end(s: Seq<char>) -> Seq<char>
    decreases s.len(),
{
    if s.len() > 0 && is_ws(s.last()) {
        trim_end(s.drop_last())
    } else {
        s
    }
}

/// `s` without leading and trailing whitespace, as `str::trim` gives it.
pub open spec fn trim(s: Seq<char>) -> Seq<char> {
    trim_end(trim_start(s))
}

/// The number of characters before the first line feed of `s` (all of them if
/// there is none).
pub open spec fn line_end(s: Seq<char>) -> nat
    decreases s.len(),
{
    if s.len() == 0 || s[0] == '\n' {
        0
    } else {
        1 + line_end(s.drop_first())
    }
}

/// The first line of `s`, without its line feed.
pub open spec fn first_line(s: Seq<char>) -> Seq<char> {
    s.take(line_end(s) as int)
}

/// The number of bytes that encode `c` in UTF-8.
pub open spec fn utf8_len(c: char) -> nat {
    if (c as u32) < 0x80 {
        1
    } else if (c as u32) < 0x800 {
        2
    } else if (c as u32) < 0x10000 {
        3
    } else {
        4
    }
}

/// The number of bytes that encode `s` in UTF-8.
pub open spec fn byte_len(s: Seq<char>) -> nat
    decreases s.len(),
{
    if s.len() == 0 {
        0
    } else {
        utf8_len(s[0]) + byte_len(s.drop_first())
    }
}

/// Whether byte offset `n` of the UTF-8 encoding of `s` falls between two characters.
pub open spec fn is_boundary(s: Seq<char>, n: int) -> bool
    decreases s.len(),
{
    n == 0 || (s.len() > 0 && utf8_len(s[0]) <= n && is_boundary(s.drop_first(), n - utf8_len(s[0])))
}

/// Whether `c` is an ASCII character.
pub open spec fn is_ascii_char(c: char) -> bool {
    (c as u32) < 0x80
}

/// Tests `is_ws`; the same test as `char::is_whitespace`.
pub fn is_whitespace(c: char) -> (b: bool)
    ensures
        b == is_ws(c),
{
    c == ' ' || ('\u{9}' <= c && c <= '\u{d}') || c == '\u{85}' || c == '\u{a0}' || c == '\u{1680}'
        || ('\u{2000}' <= c && c <= '\u{200a}') || c == '\u{2028}' || c == '\u{2029}' || c
        == '\u{202f}' || c == '\u{205f}' || c == '\u{3000}'
}

/// The UTF-8 length of `c`; the same value as `char::len_utf8`.
pub fn char_utf8_len(c: char) -> (n: usize)
    ensures
        n == utf8_len(c),
{
    let x = c as u32;
    if x < 0x80 {
        1
    } else if x < 0x800 {
        2
    } else if x < 0x10000 {
        3
    } else {
        4
    }
}

/// The characters of `s`, in order.
pub fn chars_of(s: &str) -> (v: Vec<char>)
    ensures
        v@ == s@,
{
    let mut v: Vec<char> = Vec::new();
    for c in it: s.chars()
        invariant
            v@ == it.seq().take(it.index() as int),
    {
        v.push(c);
    }
    v
}

/// The bounds of `v[lo..hi]` once leading and trailing whitespace are dropped.
pub fn trim_range(v: &Vec<char>, lo: usize, hi: usize) -> (r: (usize, usize))
    requires
        lo <= hi <= v@.len(),
    ensures
        lo <= r.0 <= r.1 <= hi,
        v@.subrange(r.0 as int, r.1 as int) == trim(v@.subrange(lo as int, hi as int)),
{
    let mut a = lo;
    while a < hi && is_whitespace(v[a])
        invariant
            lo <= a <= hi <= v@.len(),
            trim_start(v@.subrange(lo as int, hi as int)) == trim_start(
                v@.subrange(a as int, hi as int),
            ),
        decreases hi - a,
    {
        assert(v@.subrange(a as int, hi as int).drop_first() =~= v@.subrange(
            a + 1,
            hi as int,
        ));
        a = a + 1;
    }
    let mut b = hi;
    while b > a && is_whitespace(v[b - 1])
        invariant
            lo <= a <= b <= hi <= v@.len(),
            trim_end(v@.subrange(a as int, hi as int)) == trim_end(v@.subrange(a as int, b as int)),
        decreases b - a,
    {
        assert(v@.subrange(a as int, b as int).drop_last() =~= v@.subrange(
            a as int,
            b - 1,
        ));
        b = b - 1;
    }
    (a, b)
}

/// The index of the first line feed in `v[lo..hi]`, or `hi` if there is none.
pub fn find_line_end(v: &Vec<char>, lo: usize, hi: usize) -> (e: usize)
    requires
        lo <= hi <= v@.len(),
    ensures
        lo <= e <= hi,
        e - lo == line_end(v@.subrange(lo as int, hi as int)),
{
    let mut i = lo;
    while i < hi && v[i] != '\n'
        invariant
            lo <= i <= hi <= v@.len(),
            line_end(v@.subrange(lo as int, hi as int)) == (i - lo) + line_end(
                v@.subrange(i as int, hi as int),
            ),
        decreases hi - i,
    {
        assert(v@.subrange(i as int, hi as int).drop_first() =~= v@.subrange(
            i + 1,
            hi as int,
        ));
        i = i + 1;
    }
    i
}

/// Whether byte offset `n` of `v[lo..hi]` falls between two characters, or
/// lies past the end of the text.
pub(crate) fn boundary_or_past_end(v: &Vec<char>, lo: usize, hi: usize, n: usize) -> (b: bool)
    requires
        lo <= hi <= v@.len(),
        n <= 16,
    ensures
        b == (byte_len(v@.subrange(lo as int, hi as int)) < n || is_boundary(
            v@.subrange(lo as int, hi as int),
            n as int,
        )),
{
    let ghost whole = v@.subrange(lo as int, hi as int);
    let mut i = lo;
    let mut acc: usize = 0;
    while i < hi && acc < n
        invariant
            lo <= i <= hi <= v@.len(),
            n <= 16,
            acc <= n + 3,
            whole == v@.subrange(lo as int, hi as int),
            byte_len(whole) == acc + byte_len(v@.subrange(i as int, hi as int)),
            acc <= n ==> (is_boundary(whole, n as int) == is_boundary(
                v@.subrange(i as int, hi as int),
                n - acc,
            )),
            acc > n ==> !is_boundary(whole, n as int),
        decreases hi - i,
    {
        let ghost rest = v@.subrange(i as int, hi as int);
        assert(rest.drop_first() =~= v@.subrange(i + 1, hi as int));
        assert(rest[0] == v@[i as int]);
        acc = acc + char_utf8_len(v[i]);
        i = i + 1;
    }
    if acc == n {
        assert(is_boundary(v@.subrange(i as int, hi as int), 0));
    }
    acc <= n
}

/// Whether `v[lo..hi]` is exactly the characters of `w`.
pub fn range_eq(v: &Vec<char>, lo: usize, hi: usize, w: &[char]) -> (b: bool)
    requires
        lo <= hi <= v@.len(),
    ensures
        b == (v@.subrange(lo as int, hi as int) == w@),
{
    if hi - lo != w.len() {
        return false;
    }
    let mut i: usize = 0;
    while i < w.len()
        invariant
            lo <= hi <= v@.len(),
            hi - lo == w@.len(),
            0 <= i <= w@.len(),
            forall|j: int| 0 <= j < i ==> v@[lo + j] == w@[j],
        decreases w@.len() - i,
    {
        if v[lo + i] != w[i] {
            assert(v@.subrange(lo as int, hi as int)[i as int] != w@[i as int]);
            return false;
        }
        i = i + 1;
    }
    assert(v@.subrange(lo as int, hi as int) =~= w@);
    true
}

/// Leading whitespace does not change what trimming the start leaves.
pub proof fn lemma_trim_start_skips_ws(w: Seq<char>, s: Seq<char>)
    requires
        forall|i: int| 0 <= i < w.len() ==> is_ws(#[trigger] w[i]),
    ensures
        trim_start(w + s) == trim_start(s),
    decreases w.len(),
{
    if w.len() > 0 {
        assert((w + s)[0] == w[0]);
        assert((w + s).drop_first() =~= w.drop_first() + s);
        lemma_trim_start_skips_ws(w.drop_first(), s);
    } else {
        assert(w + s =~= s);
    }
}

/// Trimming the end of `a + b`, where `a` ends in a character that is not
/// whitespace, keeps `a` and a prefix of `b`.
pub proof fn lemma_trim_end_keeps_prefix(a: Seq<char>, b: Seq<char>)
    requires
        a.len() > 0,
        !is_ws(a.last()),
    ensures
        exists|k: int| 0 <= k <= b.len() && trim_end(a + b) == a + b.take(k),
    decreases b.len(),
{
    if b.len() == 0 {
        assert(a + b =~= a);
        assert(a + b.take(0) =~= a);
    } else {
        assert((a + b).last() == b.last());
        if is_ws(b.last()) {
            assert((a + b).drop_last() =~= a + b.drop_last());
            lemma_trim_end_keeps_prefix(a, b.drop_last());
            let k = choose|k: int|
                0 <= k <= b.drop_last().len() && trim_end(a + b.drop_last()) == a + b.drop_last().take(k);
            assert(b.drop_last().take(k) =~= b.take(k));
        } else {
            assert(b.take(b.len() as int) =~= b);
        }
    }
}

/// The first line of `a + b` is `a` when `a` holds no line feed and `b` is
/// empty or starts with one.
pub proof fn lemma_line_end_at(a: Seq<char>, b: Seq<char>)
    requires
        forall|i: int| 0 <= i < a.len() ==> #[trigger] a[i] != '\n',
        b.len() == 0 || b[0] == '\n',
    ensures
        line_end(a + b) == a.len(),
    decreases a.len(),
{
    if a.len() > 0 {
        assert((a + b)[0] == a[0]);
        assert((a + b).drop_first() =~= a.drop_first() + b);
        lemma_line_end_at(a.drop_first(), b);
    } else {
        assert(a + b =~= b);
    }
}

/// A text whose first three characters are ASCII has a character boundary at
/// its third byte.
pub proof fn lemma_ascii_boundary(s: Seq<char>)
    requires
        s.len() >= 3,
        is_ascii_char(s[0]),
        is_ascii_char(s[1]),
        is_ascii_char(s[2]),
    ensures
        is_boundary(s, 3),
{
    let s1 = s.drop_first();
    let s2 = s1.drop_first();
    let s3 = s2.drop_first();
    assert(s1[0] == s[1] && s2[0] == s[2]);
    assert(is_boundary(s3, 0));
    assert(is_boundary(s2, 1));
    assert(is_boundary(s1, 2));
}

/// The first line feed of `s` is at or before any line feed it holds.
pub proof fn lemma_line_end_before(s: Seq<char>, j: int)
    requires
        0 <= j < s.len(),
        s[j] == '\n',
    ensures
        line_end(s) <= j,
    decreases s.len(),
{
    if s[0] != '\n' {
        assert(s.drop_first()[j - 1] == s[j]);
        lemma_line_end_before(s.drop_first(), j - 1);
    }
}

/// The first line of `s` lies within `s`.
pub proof fn lemma_line_end_bounded(s: Seq<char>)
    ensures
        line_end(s) <= s.len(),
    decreases s.len(),
{
    if s.len() > 0 && s[0] != '\n' {
        lemma_line_end_bounded(s.drop_first());
    }
}

/// Text without a line feed lengthens the first line by its own length.
pub proof fn lemma_line_end_after(a: Seq<char>, b: Seq<char>)
    requires
        forall|i: int| 0 <= i < a.len() ==> #[trigger] a[i] != '\n',
    ensures
        line_end(a + b) == a.len() + line_end(b),
    decreases a.len(),
{
    if a.len() > 0 {
        assert((a + b)[0] == a[0]);
        assert((a + b).drop_first() =~= a.drop_first() + b);
        lemma_line_end_after(a.drop_first(), b);
    } else {
        assert(a + b =~= b);
    }
}

/// Trailing whitespace does not change what trimming the end leaves.
pub proof fn lemma_trim_end_skips_ws(a: Seq<char>, w: Seq<char>)
    requires
        forall|i: int| 0 <= i < w.len() ==> is_ws(#[trigger] w[i]),
    ensures
        trim_end(a + w) == trim_end(a),
    decreases w.len(),
{
    if w.len() > 0 {
        assert((a + w).last() == w.last());
        assert((a + w).drop_last() =~= a + w.drop_last());
        lemma_trim_end_skips_ws(a, w.drop_last());
    } else {
        assert(a + w =~= a);
    }
}

} // verus!
