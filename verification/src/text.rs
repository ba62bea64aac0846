//! Character-level helpers on strings.
//!
//! A string is viewed as its sequence of `char`s. The routines here move
//! between `String` and `Vec<char>` and implement the handful of text
//! operations the rest of the library needs, each against a direct
//! statement over `Seq<char>`.

use vstd::prelude::*;

verus! {

/// Trusted: `String::push` appends exactly the given character.
pub assume_specification[ String::push ](s: &mut String, ch: char)
    ensures
        final(s)@ == old(s)@.push(ch),
;

/// Whether `c` is white space: one of the twenty-five characters that
/// carry the Unicode `White_Space` property. They are the controls from
/// tab to carriage return, the space, the next-line control, the no-break
/// space, the Ogham space mark, the spaces from en quad to hair space, the
/// line and paragraph separators, the narrow no-break space, the medium
/// mathematical space and the ideographic space.
pub open spec fn white_space(c: char) -> bool {
    let p = c as int;
    ||| 0x09 <= p <= 0x0D
    ||| p == 0x20
    ||| p == 0x85
    ||| p == 0xA0
    ||| p == 0x1680
    ||| 0x2000 <= p <= 0x200A
    ||| p == 0x2028
    ||| p == 0x2029
    ||| p == 0x202F
    ||| p == 0x205F
    ||| p == 0x3000
}

/// Tests whether `c` is white space.
pub fn is_white_space(c: char) -> (r: bool)
    ensures
        r == white_space(c),
{
    let p = code_point(c);
    (0x09 <= p && p <= 0x0D) || p == 0x20 || p == 0x85 || p == 0xA0 || p == 0x1680 || (0x2000 <= p
        && p <= 0x200A) || p == 0x2028 || p == 0x2029 || p == 0x202F || p == 0x205F || p == 0x3000
}

/// The lowercase form of a text, as `str::to_lowercase` produces it.
pub uninterp spec fn lowercased(s: Seq<char>) -> Seq<char>;

/// Trusted: calls `str::to_lowercase`; the result is the lowercase form named
/// by [`lowercased`], which depends on the characters of `s` alone.
#[verifier::external_body]
pub(crate) fn lowercase(s: &str) -> (r: String)
    ensures
        r@ == lowercased(s@),
{
    s.to_lowercase()
}

/// The characters of `s`, in order.
pub fn chars_of(s: &str) -> (r: Vec<char>)
    ensures
        r@ == s@,
{
    let mut out: Vec<char> = Vec::new();
    for c in it: s.chars()
        invariant
            out@ == it.seq().take(it.index() as int),
            it.seq() == s@,
    {
        out.push(c);
    }
    out
}

/// The string made of the characters of `v`, in order.
pub fn string_of(v: &Vec<char>) -> (r: String)
    ensures
        r@ == v@,
{
    let mut out = String::new();
    let mut i: usize = 0;
    while i < v.len()
        invariant
            i <= v.len(),
            out@ == v@.take(i as int),
        decreases v.len() - i,
    {
        out.push(v[i]);
        i = i + 1;
    }
    out
}

/// The characters `v[from..to]` as a vector of their own.
pub(crate) fn slice_of(v: &Vec<char>, from: usize, to: usize) -> (r: Vec<char>)
    requires
        from <= to <= v.len(),
    ensures
        r@ == v@.subrange(from as int, to as int),
{
    let mut out: Vec<char> = Vec::new();
    let mut i: usize = from;
    while i < to
        invariant
            from <= i <= to <= v.len(),
            out@ == v@.subrange(from as int, i as int),
        decreases to - i,
    {
        out.push(v[i]);
        i = i + 1;
    }
    out
}

/// Whether two character vectors hold the same text.
pub fn same_text(a: &Vec<char>, b: &Vec<char>) -> (r: bool)
    ensures
        r == (a@ == b@),
{
    if a.len() != b.len() {
        return false;
    }
    let mut i: usize = 0;
    while i < a.len()
        invariant
            i <= a.len(),
            a.len() == b.len(),
            a@.take(i as int) == b@.take(i as int),
        decreases a.len() - i,
    {
        if a[i] != b[i] {
            return false;
        }
        i = i + 1;
    }
    assert(a@ == a@.take(a.len() as int));
    assert(b@ == b@.take(b.len() as int));
    true
}

/// Whether two strings hold the same text.
pub fn same_str(a: &str, b: &str) -> (r: bool)
    ensures
        r == (a@ == b@),
{
    same_text(&chars_of(a), &chars_of(b))
}

/// `s` with its trailing white space removed.
pub open spec fn without_trailing_space(s: Seq<char>) -> Seq<char>
    decreases s.len(),
{
    if s.len() > 0 && white_space(s.last()) {
        without_trailing_space(s.drop_last())
    } else {
        s
    }
}

/// `s` with its leading white space removed.
pub open spec fn without_leading_space(s: Seq<char>) -> Seq<char>
    decreases s.len(),
{
    if s.len() > 0 && white_space(s.first()) {
        without_leading_space(s.drop_first())
    } else {
        s
    }
}

/// `s` with white space removed from both ends.
pub open spec fn trimmed(s: Seq<char>) -> Seq<char> {
    without_leading_space(without_trailing_space(s))
}

/// Removes white space from both ends of `v`.
pub fn trim(v: &Vec<char>) -> (r: Vec<char>)
    ensures
        r@ == trimmed(v@),
{
    let mut hi: usize = v.len();
    assert(v@.take(hi as int) == v@);
    while hi > 0 && is_white_space(v[hi - 1])
        invariant
            hi <= v.len(),
            without_trailing_space(v@) == without_trailing_space(v@.take(hi as int)),
        decreases hi,
    {
        assert(v@.take(hi as int).drop_last() == v@.take(hi - 1));
        hi = hi - 1;
    }
    let mut lo: usize = 0;
    while lo < hi && is_white_space(v[lo])
        invariant
            lo <= hi <= v.len(),
            without_leading_space(v@.take(hi as int)) == without_leading_space(
                v@.subrange(lo as int, hi as int),
            ),
        decreases hi - lo,
    {
        assert(v@.subrange(lo as int, hi as int).drop_first() == v@.subrange(lo + 1, hi as int));
        lo = lo + 1;
    }
    slice_of(v, lo, hi)
}

/// `s` with every space character replaced by an underscore.
pub open spec fn spaces_to_underscores(s: Seq<char>) -> Seq<char> {
    s.map_values(|c: char| if c == ' ' { '_' } else { c })
}

/// Replaces every space character of `v` by an underscore.
pub fn replace_spaces(v: &Vec<char>) -> (r: Vec<char>)
    ensures
        r@ == spaces_to_underscores(v@),
{
    let mut out: Vec<char> = Vec::new();
    let mut i: usize = 0;
    while i < v.len()
        invariant
            i <= v.len(),
            out@ == spaces_to_underscores(v@.take(i as int)),
        decreases v.len() - i,
    {
        let c = v[i];
        out.push(if c == ' ' { '_' } else { c });
        i = i + 1;
    }
    out
}

/// Whether `s` ends with the text `tail`.
pub open spec fn has_suffix(s: Seq<char>, tail: Seq<char>) -> bool {
    tail.len() <= s.len() && s.subrange(s.len() - tail.len(), s.len() as int) == tail
}

/// Whether `s` begins with the text `head`.
pub open spec fn has_prefix(s: Seq<char>, head: Seq<char>) -> bool {
    head.len() <= s.len() && s.subrange(0, head.len() as int) == head
}

/// Whether `part` occurs in `s` at offset `at`.
pub open spec fn occurs_at(s: Seq<char>, part: Seq<char>, at: int) -> bool {
    0 <= at && at + part.len() <= s.len() && s.subrange(at, at + part.len()) == part
}

/// Whether `part` occurs somewhere in `s` as a run of consecutive
/// characters. The empty text occurs in every text.
pub open spec fn has_substring(s: Seq<char>, part: Seq<char>) -> bool {
    exists|at: int| occurs_at(s, part, at)
}

/// Tests whether `part` occurs in `v` at offset `at`.
pub fn matches_at(v: &Vec<char>, part: &Vec<char>, at: usize) -> (r: bool)
    ensures
        r == occurs_at(v@, part@, at as int),
{
    if at > v.len() || part.len() > v.len() - at {
        return false;
    }
    let mut k: usize = 0;
    while k < part.len()
        invariant
            k <= part.len(),
            at + part.len() <= v.len(),
            v@.subrange(at as int, at + k) == part@.take(k as int),
        decreases part.len() - k,
    {
        if v[at + k] != part[k] {
            return false;
        }
        k = k + 1;
    }
    assert(part@.take(part.len() as int) == part@);
    true
}

/// Tests whether `v` ends with `tail`.
pub fn ends_with(v: &Vec<char>, tail: &Vec<char>) -> (r: bool)
    ensures
        r == has_suffix(v@, tail@),
{
    if tail.len() > v.len() {
        return false;
    }
    matches_at(v, tail, v.len() - tail.len())
}

/// Tests whether `v` begins with `head`.
pub fn starts_with(v: &Vec<char>, head: &Vec<char>) -> (r: bool)
    ensures
        r == has_prefix(v@, head@),
{
    matches_at(v, head, 0)
}

/// Tests whether `part` occurs in `v`.
pub fn contains(v: &Vec<char>, part: &Vec<char>) -> (r: bool)
    ensures
        r == has_substring(v@, part@),
{
    if part.len() > v.len() {
        return false;
    }
    let last: usize = v.len() - part.len();
    let mut at: usize = 0;
    while at < last
        invariant
            at <= last,
            last == v.len() - part.len(),
            forall|j: int| 0 <= j < at ==> !occurs_at(v@, part@, j),
        decreases last - at,
    {
        if matches_at(v, part, at) {
            return true;
        }
        at = at + 1;
    }
    matches_at(v, part, last)
}

/// The code point of a character.
pub fn code_point(c: char) -> (r: i128)
    ensures
        r == c as int,
        0 <= r <= 0x10FFFF,
{
    (c as u32) as i128
}

/// The concatenation of `a` and `b`.
pub fn concat(a: &Vec<char>, b: &Vec<char>) -> (r: Vec<char>)
    ensures
        r@ == a@ + b@,
{
    let mut out: Vec<char> = Vec::new();
    let mut i: usize = 0;
    while i < a.len()
        invariant
            i <= a.len(),
            out@ == a@.take(i as int),
        decreases a.len() - i,
    {
        out.push(a[i]);
        i = i + 1;
    }
    let mut j: usize = 0;
    while j < b.len()
        invariant
            j <= b.len(),
            out@ == a@ + b@.take(j as int),
        decreases b.len() - j,
    {
        out.push(b[j]);
        j = j + 1;
    }
    out
}

/// `s` without its last character; the empty text stays empty.
pub open spec fn without_last(s: Seq<char>) -> Seq<char> {
    if s.len() > 0 {
        s.drop_last()
    } else {
        s
    }
}

/// Removes the last character of `s`, if it has one.
pub fn pop_char(s: &mut String)
    ensures
        final(s)@ == without_last(old(s)@),
{
    let v = chars_of(s.as_str());
    if v.len() > 0 {
        let shorter = slice_of(&v, 0, v.len() - 1);
        *s = string_of(&shorter);
    }
}

/// The place of the last `c` in `s`, or -1 where `s` holds none.
pub open spec fn last_of(s: Seq<char>, c: char) -> int
    decreases s.len(),
{
    if s.len() == 0 {
        -1
    } else if s.last() == c {
        s.len() - 1
    } else {
        last_of(s.drop_last(), c)
    }
}

/// Finds the last `c` in `v`.
pub fn find_last(v: &Vec<char>, c: char) -> (r: Option<usize>)
    ensures
        match r {
            Some(i) => i == last_of(v@, c) && i < v.len(),
            None => last_of(v@, c) == -1,
        },
{
    let mut i: usize = v.len();
    assert(v@.take(i as int) == v@);
    while i > 0
        invariant
            i <= v.len(),
            last_of(v@, c) == last_of(v@.take(i as int), c),
        decreases i,
    {
        assert(v@.take(i as int).drop_last() == v@.take(i - 1));
        if v[i - 1] == c {
            return Some(i - 1);
        }
        i = i - 1;
    }
    None
}

} // verus!
