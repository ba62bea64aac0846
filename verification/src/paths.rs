//! Paths as lists of names.
//!
//! A path is a text whose names are separated by `/`. Only the names matter:
//! empty names (a doubled or trailing separator) are ignored, and a path is
//! absolute when its text begins with a separator. The names `.` and `..`
//! are names like any other: what they lead to is for the file system to
//! say. Every function that builds a path writes it in normal form, the
//! names joined by single separators.

use vstd::prelude::*;
use crate::text::{chars_of, concat, find_last, last_of, same_text, slice_of, string_of};

verus! {

/// The names of the path `p`, in order.
pub open spec fn segments(p: Seq<char>) -> Seq<Seq<char>>
    decreases p.len(),
{
    if p.len() == 0 {
        Seq::empty()
    } else {
        let rest = segments(p.drop_last());
        if p.last() == '/' {
            rest
        } else if p.len() >= 2 && p[p.len() - 2] != '/' {
            rest.drop_last().push(rest.last().push(p.last()))
        } else {
            rest.push(seq![p.last()])
        }
    }
}

/// Whether the path starts at the root of the file system.
pub open spec fn is_absolute(p: Seq<char>) -> bool {
    p.len() > 0 && p[0] == '/'
}

/// The number of names in the path.
pub open spec fn depth(p: Seq<char>) -> nat {
    segments(p).len()
}

/// The names joined by single separators.
pub open spec fn joined(names: Seq<Seq<char>>) -> Seq<char>
    decreases names.len(),
{
    if names.len() == 0 {
        Seq::empty()
    } else if names.len() == 1 {
        names[0]
    } else {
        joined(names.drop_last()).push('/') + names.last()
    }
}

/// The normal form of a path with the given names.
pub open spec fn path_text(absolute: bool, names: Seq<Seq<char>>) -> Seq<char> {
    if absolute {
        seq!['/'] + joined(names)
    } else {
        joined(names)
    }
}

/// The names of `p` below `base`: what is left of `p` after the names of
/// `base` where `p` begins with them, all of `p` otherwise.
pub open spec fn names_below(p: Seq<Seq<char>>, base: Seq<Seq<char>>) -> Seq<Seq<char>> {
    if base.is_prefix_of(p) {
        p.skip(base.len() as int)
    } else {
        p
    }
}

/// Whether two texts name the same path: both start at the root of the
/// file system or neither does, and they have the same names.
pub open spec fn same_path(a: Seq<char>, b: Seq<char>) -> bool {
    is_absolute(a) == is_absolute(b) && segments(a) == segments(b)
}

/// The names of the path `p` below the path `base`: what follows the names
/// of `base` where `p` lies under `base`, all names of `p` otherwise. A
/// path that starts at the root of the file system lies under no path that
/// does not, and the other way round.
pub open spec fn names_under(p: Seq<char>, base: Seq<char>) -> Seq<Seq<char>> {
    if is_absolute(p) == is_absolute(base) {
        names_below(segments(p), segments(base))
    } else {
        segments(p)
    }
}

/// The final name of a path: none for a path without names and for one that
/// ends in `..`.
pub open spec fn final_name(p: Seq<char>) -> Option<Seq<char>> {
    let names = segments(p);
    if names.len() == 0 || names.last() == seq!['.', '.'] {
        None
    } else {
        Some(names.last())
    }
}

/// The place of the last dot in `name`, or -1 where it has none.
pub open spec fn last_dot(name: Seq<char>) -> int {
    last_of(name, '.')
}

/// The extension of a file name: what follows its last dot, unless that dot
/// is the first character.
pub open spec fn extension(name: Seq<char>) -> Option<Seq<char>> {
    if last_dot(name) <= 0 {
        None
    } else {
        Some(name.skip(last_dot(name) + 1))
    }
}

/// A file name without its extension.
pub open spec fn stem(name: Seq<char>) -> Seq<char> {
    if last_dot(name) <= 0 {
        name
    } else {
        name.take(last_dot(name))
    }
}

/// The views of a list of names.
pub open spec fn names_of(v: Seq<Vec<char>>) -> Seq<Seq<char>> {
    v.map_values(|n: Vec<char>| n@)
}

/// Splits a path into its names.
pub fn split(p: &Vec<char>) -> (r: Vec<Vec<char>>)
    ensures
        names_of(r@) == segments(p@),
        forall|k: int| 0 <= k < r.len() ==> (#[trigger] r@[k])@.len() > 0,
{
    let mut done: Vec<Vec<char>> = Vec::new();
    let mut cur: Vec<char> = Vec::new();
    let mut i: usize = 0;
    while i < p.len()
        invariant
            i <= p.len(),
            cur@.len() > 0 <==> (i > 0 && p@[i - 1] != '/'),
            forall|k: int| 0 <= k < done.len() ==> (#[trigger] done@[k])@.len() > 0,
            segments(p@.take(i as int)) == if cur@.len() > 0 {
                names_of(done@).push(cur@)
            } else {
                names_of(done@)
            },
        decreases p.len() - i,
    {
        let c = p[i];
        let ghost before = p@.take(i as int);
        let ghost now = p@.take(i + 1);
        assert(now.drop_last() == before);
        if c == '/' {
            if cur.len() > 0 {
                done.push(cur);
                cur = Vec::new();
            }
        } else {
            assert(cur@.len() == 0 ==> cur@.push(c) =~= seq![c]);
            cur.push(c);
        }
        i = i + 1;
    }
    assert(p@.take(p.len() as int) == p@);
    if cur.len() > 0 {
        done.push(cur);
    }
    done
}

/// Writes the names of a path joined by single separators, after a leading
/// separator where the path is absolute.
pub fn join_names(absolute: bool, names: &Vec<Vec<char>>) -> (r: Vec<char>)
    ensures
        r@ == path_text(absolute, names_of(names@)),
{
    let mut out: Vec<char> = Vec::new();
    let mut i: usize = 0;
    while i < names.len()
        invariant
            i <= names.len(),
            out@ == joined(names_of(names@).take(i as int)),
        decreases names.len() - i,
    {
        let ghost all = names_of(names@);
        assert(all.take(i + 1).drop_last() == all.take(i as int));
        if i > 0 {
            out.push('/');
        }
        let name = &names[i];
        let ghost start = out@;
        let mut k: usize = 0;
        while k < name.len()
            invariant
                k <= name.len(),
                out@ == start + name@.take(k as int),
            decreases name.len() - k,
        {
            out.push(name[k]);
            k = k + 1;
        }
        i = i + 1;
    }
    assert(names_of(names@).take(names.len() as int) == names_of(names@));
    if absolute {
        let mut full: Vec<char> = Vec::new();
        full.push('/');
        let r = concat(&full, &out);
        r
    } else {
        out
    }
}

/// Tests whether the names `p` begin with the names `base`.
pub fn names_begin_with(p: &Vec<Vec<char>>, base: &Vec<Vec<char>>) -> (r: bool)
    ensures
        r == names_of(base@).is_prefix_of(names_of(p@)),
{
    if base.len() > p.len() {
        return false;
    }
    let mut i: usize = 0;
    while i < base.len()
        invariant
            i <= base.len() <= p.len(),
            forall|k: int| 0 <= k < i ==> (#[trigger] base@[k])@ == p@[k]@,
        decreases base.len() - i,
    {
        if !same_text(&base[i], &p[i]) {
            assert(names_of(base@)[i as int] != names_of(p@).subrange(0, base.len() as int)[i as int]);
            return false;
        }
        i = i + 1;
    }
    true
}

/// The names of `p` below `base`.
pub fn below(p: &Vec<Vec<char>>, base: &Vec<Vec<char>>) -> (r: Vec<Vec<char>>)
    ensures
        names_of(r@) == names_below(names_of(p@), names_of(base@)),
{
    let from: usize = if names_begin_with(p, base) {
        base.len()
    } else {
        0
    };
    let mut out: Vec<Vec<char>> = Vec::new();
    let mut i: usize = from;
    while i < p.len()
        invariant
            from <= i <= p.len(),
            names_of(out@) == names_of(p@).subrange(from as int, i as int),
        decreases p.len() - i,
    {
        let name = slice_of(&p[i], 0, p[i].len());
        assert(name@ == p@[i as int]@);
        assert(names_of(out@.push(name)) =~= names_of(out@).push(name@));
        out.push(name);
        i = i + 1;
    }
    out
}

/// The extension of a file name.
pub fn extension_of(name: &Vec<char>) -> (r: Option<Vec<char>>)
    ensures
        match r {
            Some(e) => extension(name@) == Some(e@),
            None => extension(name@) is None,
        },
{
    match find_last(name, '.') {
        Some(d) => {
            if d == 0 {
                None
            } else {
                let e = slice_of(name, d + 1, name.len());
                Some(e)
            }
        },
        None => None,
    }
}

/// A file name without its extension.
pub fn stem_of(name: &Vec<char>) -> (r: Vec<char>)
    ensures
        r@ == stem(name@),
{
    match find_last(name, '.') {
        Some(d) => {
            if d == 0 {
                let r = slice_of(name, 0, name.len());
                r
            } else {
                let r = slice_of(name, 0, d);
                r
            }
        },
        None => {
            let r = slice_of(name, 0, name.len());
            r
        },
    }
}

/// Tests whether two texts name the same path.
pub fn is_same_path(a: &str, b: &str) -> (r: bool)
    ensures
        r == same_path(a@, b@),
{
    let a_chars = chars_of(a);
    let b_chars = chars_of(b);
    let x = split(&a_chars);
    let y = split(&b_chars);
    let a_abs = a_chars.len() > 0 && a_chars[0] == '/';
    let b_abs = b_chars.len() > 0 && b_chars[0] == '/';
    let r = a_abs == b_abs && x.len() == y.len() && names_begin_with(&x, &y);
    proof {
        let nx = names_of(x@);
        assert(nx =~= nx.subrange(0, nx.len() as int));
    }
    r
}

/// The names of the path `p` below the path `base`.
pub fn under(p: &str, base: &str) -> (r: Vec<Vec<char>>)
    ensures
        names_of(r@) == names_under(p@, base@),
{
    let p_chars = chars_of(p);
    let base_chars = chars_of(base);
    let names = split(&p_chars);
    let p_abs = p_chars.len() > 0 && p_chars[0] == '/';
    let base_abs = base_chars.len() > 0 && base_chars[0] == '/';
    if p_abs == base_abs {
        below(&names, &split(&base_chars))
    } else {
        names
    }
}

/// Tests whether a name is `..`.
fn is_dot_dot(name: &Vec<char>) -> (r: bool)
    ensures
        r == (name@ == seq!['.', '.']),
{
    let r = name.len() == 2 && name[0] == '.' && name[1] == '.';
    if r {
        assert(name@ =~= seq!['.', '.']);
    }
    r
}

/// The final name of the path `p`.
pub fn file_name(p: &str) -> (r: Option<String>)
    ensures
        match r {
            Some(n) => final_name(p@) == Some(n@),
            None => final_name(p@) is None,
        },
{
    let names = split(&chars_of(p));
    if names.len() == 0 {
        return None;
    }
    let last = &names[names.len() - 1];
    if is_dot_dot(last) {
        None
    } else {
        Some(string_of(last))
    }
}

/// The number of names in the path `p`.
pub fn path_depth(p: &str) -> (r: usize)
    ensures
        r == depth(p@),
{
    let names = split(&chars_of(p));
    names.len()
}

/// The extension that marks a file as a document.
pub open spec fn document_extension() -> Seq<char> {
    seq!['m', 'd']
}

/// Whether the path names a document: its final name has the document
/// extension.
pub open spec fn names_document(p: Seq<char>) -> bool {
    match final_name(p) {
        Some(n) => extension(n) == Some(document_extension()),
        None => false,
    }
}

/// Whether a name marks a hidden entry: it begins with a dot.
pub open spec fn is_dot_name(name: Seq<char>) -> bool {
    name.len() > 0 && name[0] == '.'
}

/// Whether the path is hidden below `root`: one of its names below the
/// root, a folder's or its own, begins with a dot.
pub open spec fn hidden_below(p: Seq<char>, root: Seq<char>) -> bool {
    exists|k: int|
        0 <= k < names_under(p, root).len() && is_dot_name(
            #[trigger] names_under(p, root)[k],
        )
}

/// Tests whether the path is hidden below `root`.
pub fn is_hidden_below(p: &str, root: &str) -> (r: bool)
    ensures
        r == hidden_below(p@, root@),
{
    let names = under(p, root);
    let ghost all = names_of(names@);
    let mut k: usize = 0;
    while k < names.len()
        invariant
            k <= names.len(),
            all == names_of(names@),
            all == names_under(p@, root@),
            forall|j: int| 0 <= j < k ==> !is_dot_name(#[trigger] all[j]),
        decreases names.len() - k,
    {
        assert(all[k as int] == names@[k as int]@);
        if names[k].len() > 0 && names[k][0] == '.' {
            assert(is_dot_name(all[k as int]));
            return true;
        }
        k = k + 1;
    }
    false
}

/// Tests whether the path names a document.
pub fn is_note_path(p: &str) -> (r: bool)
    ensures
        r == names_document(p@),
{
    let names = split(&chars_of(p));
    if names.len() == 0 {
        return false;
    }
    let last = &names[names.len() - 1];
    if is_dot_dot(last) {
        return false;
    }
    match extension_of(last) {
        Some(e) => {
            let r = e.len() == 2 && e[0] == 'm' && e[1] == 'd';
            if r {
                assert(e@ =~= document_extension());
            }
            r
        },
        None => false,
    }
}

/// The path `p` relative to `base`, in normal form.
pub open spec fn relative_to(p: Seq<char>, base: Seq<char>) -> Seq<char> {
    joined(names_under(p, base))
}

/// Writes the path `p` relative to `base`: the names of `p` after those of
/// `base` where `p` lies under `base`, all names of `p` otherwise.
pub fn relative_path(p: &str, base: &str) -> (r: String)
    ensures
        r@ == relative_to(p@, base@),
{
    let rest = under(p, base);
    string_of(&join_names(false, &rest))
}

/// The path that `rel` denotes when read from `base`: `rel` itself where it
/// is absolute, the names of `base` followed by those of `rel` otherwise.
pub open spec fn joined_path(base: Seq<char>, rel: Seq<char>) -> Seq<char> {
    if is_absolute(rel) {
        path_text(true, segments(rel))
    } else {
        path_text(is_absolute(base), segments(base) + segments(rel))
    }
}

fn starts_at_root(p: &Vec<char>) -> (r: bool)
    ensures
        r == is_absolute(p@),
{
    p.len() > 0 && p[0] == '/'
}

/// Resolves `rel` against `base`.
pub fn join_path(base: &str, rel: &str) -> (r: String)
    ensures
        r@ == joined_path(base@, rel@),
{
    let rel_chars = chars_of(rel);
    let rel_names = split(&rel_chars);
    if starts_at_root(&rel_chars) {
        return string_of(&join_names(true, &rel_names));
    }
    let base_chars = chars_of(base);
    let mut names = split(&base_chars);
    let ghost base_names = names_of(names@);
    let mut i: usize = 0;
    while i < rel_names.len()
        invariant
            i <= rel_names.len(),
            names_of(names@) == base_names + names_of(rel_names@).take(i as int),
        decreases rel_names.len() - i,
    {
        let name = slice_of(&rel_names[i], 0, rel_names[i].len());
        assert(name@ == rel_names@[i as int]@);
        assert(names_of(names@.push(name)) =~= names_of(names@).push(name@));
        names.push(name);
        i = i + 1;
    }
    assert(names_of(rel_names@).take(rel_names.len() as int) == names_of(rel_names@));
    string_of(&join_names(starts_at_root(&base_chars), &names))
}

/// The path one level above `p`: none where `p` has no names.
pub open spec fn parent_of(p: Seq<char>) -> Option<Seq<char>> {
    if segments(p).len() == 0 {
        None
    } else {
        Some(path_text(is_absolute(p), segments(p).drop_last()))
    }
}

/// Writes the path one level above `p`.
pub fn parent_path(p: &str) -> (r: Option<String>)
    ensures
        match r {
            Some(d) => parent_of(p@) == Some(d@),
            None => parent_of(p@) is None,
        },
{
    let chars = chars_of(p);
    let mut names = split(&chars);
    if names.len() == 0 {
        return None;
    }
    let ghost all = names_of(names@);
    names.pop();
    assert(names_of(names@) =~= all.drop_last());
    Some(string_of(&join_names(starts_at_root(&chars), &names)))
}

/// The display title of the document at `p` under `root`: its path relative
/// to `root` with the extension of the final name removed.
pub open spec fn title_text(p: Seq<char>, root: Seq<char>) -> Seq<char> {
    let names = names_under(p, root);
    if names.len() == 0 {
        Seq::empty()
    } else {
        joined(names.drop_last().push(stem(names.last())))
    }
}

/// Writes the display title of the document at `p` under `root`.
pub fn title_of(p: &str, root: &str) -> (r: String)
    ensures
        r@ == title_text(p@, root@),
{
    let mut rest = under(p, root);
    if rest.len() == 0 {
        return String::new();
    }
    let ghost all = names_of(rest@);
    let last = rest.pop().unwrap();
    let short = stem_of(&last);
    assert(names_of(rest@.push(short)) =~= all.drop_last().push(stem(all.last())));
    rest.push(short);
    string_of(&join_names(false, &rest))
}

} // verus!
