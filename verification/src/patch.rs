//! Editing steps for patching source files in place: inserting text at the
//! first occurrence of an anchor, before the last occurrence of a character, and
//! replacing every occurrence of a literal.
use vstd::prelude::*;
use crate::nacos_yaml::replace_first;
use crate::placeholders::{str_replace, str_replace_chars};
use crate::text::{chars_of, extend_chars, extend_str, find, find_from, find_from_exec, lemma_find_from, slice_chars};

verus! {

/// `ins` put into `s` at position `i`.
pub open spec fn insert_at(s: Seq<char>, i: int, ins: Seq<char>) -> Seq<char> {
    s.take(i) + ins + s.skip(i)
}

/// `ins` put just before the first `anchor`; `s` unchanged without one.
pub open spec fn insert_before_first(s: Seq<char>, anchor: Seq<char>, ins: Seq<char>) -> Seq<char> {
    match find(s, anchor) {
        Some(i) => insert_at(s, i, ins),
        None => s,
    }
}

/// `ins` put just after the first `anchor`; `s` unchanged without one.
pub open spec fn insert_after_first(s: Seq<char>, anchor: Seq<char>, ins: Seq<char>) -> Seq<char> {
    match find(s, anchor) {
        Some(i) => insert_at(s, i + anchor.len(), ins),
        None => s,
    }
}

/// The index of the last `c` in `s` (`str::rfind(char)`).
pub open spec fn last_index(s: Seq<char>, c: char) -> Option<int>
    decreases s.len(),
{
    if s.len() == 0 {
        None
    } else if s.last() == c {
        Some(s.len() - 1)
    } else {
        last_index(s.drop_last(), c)
    }
}

/// `ins` put just before the last `c`; `None` when `s` has no `c`.
pub open spec fn insert_before_last(s: Seq<char>, c: char, ins: Seq<char>) -> Option<Seq<char>> {
    match last_index(s, c) {
        Some(i) => Some(insert_at(s, i, ins)),
        None => None,
    }
}

/// A copy of `s`.
pub fn copy_chars(s: &Vec<char>) -> (r: Vec<char>)
    ensures
        r@ == s@,
{
    let r = slice_chars(s, 0, s.len());
    assert(r@ =~= s@);
    r
}

/// `s` with `ins` put at position `i`.
pub fn insert_at_exec(s: &Vec<char>, i: usize, ins: &Vec<char>) -> (r: Vec<char>)
    requires
        i <= s.len(),
    ensures
        r@ == insert_at(s@, i as int, ins@),
{
    let mut out = slice_chars(s, 0, i);
    extend_chars(&mut out, ins);
    let rest = slice_chars(s, i, s.len());
    extend_chars(&mut out, &rest);
    assert(out@ =~= insert_at(s@, i as int, ins@));
    out
}

/// The index of the first `anchor` in `s`, if any.
pub fn find_str(s: &Vec<char>, anchor: &str) -> (r: Option<usize>)
    ensures
        r matches Some(i) ==> find(s@, anchor@) == Some(i as int) && i + anchor@.len() <= s.len(),
        r is None ==> find(s@, anchor@) is None,
{
    find_str_from(s, anchor, 0)
}

/// The index of the first `anchor` in `s` at or after `from`, if any.
pub fn find_str_from(s: &Vec<char>, anchor: &str, from: usize) -> (r: Option<usize>)
    ensures
        r matches Some(i) ==> find_from(s@, anchor@, from as int) == Some(i as int) && from <= i
            && i + anchor@.len() <= s.len(),
        r is None ==> find_from(s@, anchor@, from as int) is None,
{
    let a = chars_of(anchor);
    proof {
        lemma_find_from(s@, a@, from as int);
    }
    find_from_exec(s, &a, from)
}

/// `s` with `ins` put just before the first `anchor` (unchanged without one).
pub fn insert_before_str(s: &Vec<char>, anchor: &str, ins: &Vec<char>) -> (r: Vec<char>)
    ensures
        r@ == insert_before_first(s@, anchor@, ins@),
{
    match find_str(s, anchor) {
        Some(i) => insert_at_exec(s, i, ins),
        None => copy_chars(s),
    }
}

/// `s` with `ins` put just after the first `anchor` (unchanged without one).
pub fn insert_after_str(s: &Vec<char>, anchor: &str, ins: &Vec<char>) -> (r: Vec<char>)
    ensures
        r@ == insert_after_first(s@, anchor@, ins@),
{
    let a = chars_of(anchor);
    match find_str(s, anchor) {
        Some(i) => insert_at_exec(s, i + a.len(), ins),
        None => copy_chars(s),
    }
}

/// The index of the last `c` in `s`, if any.
pub fn last_index_exec(s: &Vec<char>, c: char) -> (r: Option<usize>)
    ensures
        r matches Some(i) ==> last_index(s@, c) == Some(i as int) && i < s.len(),
        r is None ==> last_index(s@, c) is None,
{
    let mut j: usize = s.len();
    assert(s@.take(j as int) =~= s@);
    while j > 0
        invariant
            j <= s.len(),
            last_index(s@, c) == last_index(s@.take(j as int), c),
        decreases j,
    {
        assert(s@.take(j as int).last() == s@[j - 1]);
        if s[j - 1] == c {
            return Some(j - 1);
        }
        assert(s@.take(j as int).drop_last() =~= s@.take(j - 1));
        j = j - 1;
    }
    None
}

/// `s` with `ins` put just before the last `c`; `None` when there is none.
pub fn insert_before_last_exec(s: &Vec<char>, c: char, ins: &Vec<char>) -> (r: Option<Vec<char>>)
    ensures
        r matches Some(v) ==> insert_before_last(s@, c, ins@) == Some(v@),
        r is None ==> insert_before_last(s@, c, ins@) is None,
{
    match last_index_exec(s, c) {
        Some(i) => Some(insert_at_exec(s, i, ins)),
        None => None,
    }
}

/// `s.replace(from, to)` with literal `from` and `to`.
pub fn replace_str(s: &Vec<char>, from: &str, to: &str) -> (r: Vec<char>)
    ensures
        r@ == str_replace(s@, from@, to@),
{
    let f = chars_of(from);
    let t = chars_of(to);
    str_replace_chars(s, &f, &t)
}

/// `s.replacen(from, to, 1)` with literal `from` and `to` (`from` non-empty).
pub fn replace_first_str(s: &Vec<char>, from: &str, to: &str) -> (r: Vec<char>)
    ensures
        r@ == replace_first(s@, from@, to@),
{
    let f = chars_of(from);
    match find_str(s, from) {
        Some(i) => {
            let mut out = slice_chars(s, 0, i);
            extend_str(&mut out, to);
            let rest = slice_chars(s, i + f.len(), s.len());
            extend_chars(&mut out, &rest);
            assert(out@ =~= s@.take(i as int) + to@ + s@.skip(i + from@.len()));
            out
        },
        None => copy_chars(s),
    }
}

} // verus!
