//! The replacement-string syntax of `Regex::replace`: `$name`, `${name}` and
//! `$$`, expanded against one match and its groups.
//!
//! A reference is the longest run of ASCII letters, digits and `_` after `$`,
//! or anything up to the next `}` after `${`. One that parses as a `usize`
//! (an optional `+`, then digits) names a group by index, 0 being the whole
//! match; any other name is taken as a group name, and the patterns of this
//! library name no groups, so it expands to nothing. A `$` that starts no
//! reference is kept.
use vstd::prelude::*;
use crate::ext_calls::group_views;
use crate::nacos_yaml::{group_exec, group_text};
use crate::text::extend_chars;

verus! {

/// Whether `c` may appear in an unbraced reference.
pub open spec fn is_ref_letter(c: char) -> bool {
    ('0' <= c && c <= '9') || ('a' <= c && c <= 'z') || ('A' <= c && c <= 'Z') || c == '_'
}

/// The length of the run of reference letters at the start of `s`.
pub open spec fn ref_run(s: Seq<char>) -> nat
    decreases s.len(),
{
    if s.len() > 0 && is_ref_letter(s[0]) {
        1 + ref_run(s.drop_first())
    } else {
        0
    }
}

/// The index of the first `}` in `s`.
pub open spec fn close_brace(s: Seq<char>) -> Option<int> {
    crate::text::index_of(s, '}')
}

/// Whether every character of `s` is an ASCII digit.
pub open spec fn all_digits(s: Seq<char>) -> bool {
    forall|i: int| 0 <= i < s.len() ==> '0' <= #[trigger] s[i] && s[i] <= '9'
}

/// The value of a string of ASCII digits.
pub open spec fn digits_value(s: Seq<char>) -> nat
    decreases s.len(),
{
    if s.len() == 0 {
        0
    } else {
        digits_value(s.drop_last()) * 10 + ((s.last() as nat) - ('0' as nat)) as nat
    }
}

/// `name.parse::<usize>()`: an optional `+`, then at least one digit, no larger
/// than `usize::MAX`.
pub open spec fn parse_index(name: Seq<char>) -> Option<nat> {
    let d = if name.len() > 0 && name[0] == '+' {
        name.drop_first()
    } else {
        name
    };
    if d.len() > 0 && all_digits(d) && digits_value(d) <= usize::MAX {
        Some(digits_value(d))
    } else {
        None
    }
}

/// The reference at the start of `t` (which starts with `$`): its name and the
/// length it spans.
pub open spec fn cap_ref(t: Seq<char>) -> Option<(Seq<char>, int)> {
    if t.len() <= 1 {
        None
    } else if t[1] == '{' {
        match close_brace(t.skip(2)) {
            Some(j) => Some((t.subrange(2, 2 + j), 3 + j)),
            None => None,
        }
    } else {
        let k = ref_run(t.skip(1));
        if k == 0 {
            None
        } else {
            Some((t.subrange(1, 1 + k as int), 1 + k as int))
        }
    }
}

/// What a reference expands to: the group it names by index (the whole match
/// for 0), else nothing.
pub open spec fn ref_value(name: Seq<char>, m: Seq<char>, g: Seq<Option<Seq<char>>>) -> Seq<char> {
    match parse_index(name) {
        Some(i) => if i == 0 {
            m
        } else {
            group_text(g, i - 1)
        },
        None => Seq::empty(),
    }
}

/// The replacement template `t` expanded for the match `m` with groups `g`.
pub open spec fn expand(t: Seq<char>, m: Seq<char>, g: Seq<Option<Seq<char>>>) -> Seq<char>
    decreases t.len(),
{
    if t.len() == 0 {
        Seq::empty()
    } else if t[0] != '$' {
        seq![t[0]] + expand(t.drop_first(), m, g)
    } else if t.len() >= 2 && t[1] == '$' {
        seq!['$'] + expand(t.skip(2), m, g)
    } else {
        match cap_ref(t) {
            Some((name, end)) => if 0 < end <= t.len() {
                ref_value(name, m, g) + expand(t.skip(end), m, g)
            } else {
                Seq::empty()
            },
            None => seq!['$'] + expand(t.drop_first(), m, g),
        }
    }
}

proof fn lemma_ref_run_bound(s: Seq<char>)
    ensures
        ref_run(s) <= s.len(),
        forall|i: int| 0 <= i < ref_run(s) ==> is_ref_letter(#[trigger] s[i]),
        ref_run(s) < s.len() ==> !is_ref_letter(s[ref_run(s) as int]),
    decreases s.len(),
{
    if s.len() > 0 && is_ref_letter(s[0]) {
        lemma_ref_run_bound(s.drop_first());
        assert forall|i: int| 0 <= i < ref_run(s) implies is_ref_letter(#[trigger] s[i]) by {
            if i > 0 {
                assert(s[i] == s.drop_first()[i - 1]);
            }
        }
    }
}

proof fn lemma_ref_run_exact(s: Seq<char>, k: int)
    requires
        0 <= k <= s.len(),
        forall|i: int| 0 <= i < k ==> is_ref_letter(#[trigger] s[i]),
        k == s.len() || !is_ref_letter(s[k]),
    ensures
        ref_run(s) == k,
    decreases k,
{
    if k > 0 {
        assert forall|i: int| 0 <= i < k - 1 implies is_ref_letter(#[trigger] s.drop_first()[i]) by {
            assert(s.drop_first()[i] == s[i + 1]);
        }
        if k - 1 < s.drop_first().len() {
            assert(s.drop_first()[k - 1] == s[k]);
        }
        lemma_ref_run_exact(s.drop_first(), k - 1);
    }
}

fn is_ref_letter_exec(c: char) -> (r: bool)
    ensures
        r == is_ref_letter(c),
{
    ('0' <= c && c <= '9') || ('a' <= c && c <= 'z') || ('A' <= c && c <= 'Z') || c == '_'
}

/// `name.parse::<usize>()` on characters.
fn parse_index_exec(name: &Vec<char>, lo: usize, hi: usize) -> (r: Option<usize>)
    requires
        lo <= hi <= name.len(),
    ensures
        r matches Some(i) ==> parse_index(name@.subrange(lo as int, hi as int)) == Some(i as nat),
        r is None ==> parse_index(name@.subrange(lo as int, hi as int)) is None,
{
    let ghost s = name@.subrange(lo as int, hi as int);
    let mut start = lo;
    if lo < hi && name[lo] == '+' {
        start = lo + 1;
    }
    let ghost d = name@.subrange(start as int, hi as int);
    assert(d =~= (if s.len() > 0 && s[0] == '+' { s.drop_first() } else { s }));
    if start == hi {
        return None;
    }
    let mut v: usize = 0;
    let mut i: usize = start;
    while i < hi
        invariant
            start <= i <= hi <= name.len(),
            d == name@.subrange(start as int, hi as int),
            s == name@.subrange(lo as int, hi as int),
            d == (if s.len() > 0 && s[0] == '+' { s.drop_first() } else { s }),
            all_digits(name@.subrange(start as int, i as int)),
            v as nat == digits_value(name@.subrange(start as int, i as int)),
        decreases hi - i,
    {
        let c = name[i];
        let ghost pre = name@.subrange(start as int, i as int);
        let ghost next = name@.subrange(start as int, i + 1);
        assert(next.drop_last() =~= pre);
        assert(next.last() == c);
        if !('0' <= c && c <= '9') {
            assert(!all_digits(d)) by {
                assert(d[i - start] == c);
            }
            return None;
        }
        let dv: u32 = (c as u32) - ('0' as u32);
        assert(all_digits(next)) by {
            assert forall|j: int| 0 <= j < next.len() implies '0' <= #[trigger] next[j] && next[j] <= '9' by {
                if j < pre.len() {
                    assert(next[j] == pre[j]);
                }
            }
        }
        match v.checked_mul(10) {
            Some(t) => match t.checked_add(dv as usize) {
                Some(u) => {
                    v = u;
                },
                None => {
                    proof {
                        lemma_value_grows(d, (i + 1 - start) as int);
                    }
                    assert(d.take((i + 1 - start) as int) =~= next);
                    return None;
                },
            },
            None => {
                proof {
                    lemma_value_grows(d, (i + 1 - start) as int);
                }
                assert(d.take((i + 1 - start) as int) =~= next);
                return None;
            },
        }
        i = i + 1;
    }
    assert(name@.subrange(start as int, i as int) =~= d);
    Some(v)
}

proof fn lemma_value_grows(d: Seq<char>, k: int)
    requires
        0 <= k <= d.len(),
    ensures
        digits_value(d.take(k)) <= digits_value(d),
    decreases d.len() - k,
{
    if k < d.len() {
        lemma_value_grows(d, k + 1);
        assert(d.take(k + 1).drop_last() =~= d.take(k));
    } else {
        assert(d.take(k) =~= d);
    }
}

/// The text a reference named by `t[lo..hi]` expands to.
fn ref_value_exec(t: &Vec<char>, lo: usize, hi: usize, m: &Vec<char>, g: &Vec<Option<String>>) -> (r: Vec<char>)
    requires
        lo <= hi <= t.len(),
    ensures
        r@ == ref_value(t@.subrange(lo as int, hi as int), m@, group_views(g@)),
{
    match parse_index_exec(t, lo, hi) {
        Some(i) => if i == 0 {
            crate::patch::copy_chars(m)
        } else {
            group_exec(g, i - 1)
        },
        None => Vec::new(),
    }
}

/// `t` expanded for the match `m` with groups `g` (see `expand`).
pub fn expand_exec(t: &Vec<char>, m: &Vec<char>, g: &Vec<Option<String>>) -> (r: Vec<char>)
    ensures
        r@ == expand(t@, m@, group_views(g@)),
{
    let ghost gv = group_views(g@);
    let mut out: Vec<char> = Vec::new();
    let mut i: usize = 0;
    assert(t@.skip(0) =~= t@);
    while i < t.len()
        invariant
            i <= t.len(),
            gv == group_views(g@),
            out@ + expand(t@.skip(i as int), m@, gv) == expand(t@, m@, gv),
        decreases t.len() - i,
    {
        let ghost rest = t@.skip(i as int);
        let ghost before = out@;
        if t[i] != '$' {
            out.push(t[i]);
            assert(rest.drop_first() =~= t@.skip(i + 1));
            i = i + 1;
        } else if i + 1 < t.len() && t[i + 1] == '$' {
            out.push('$');
            assert(rest.skip(2) =~= t@.skip(i + 2));
            i = i + 2;
        } else if i + 1 < t.len() && t[i + 1] == '{' {
            proof {
                crate::text::lemma_find_shift(t@, seq!['}'], i + 2);
                crate::text::lemma_find_from(t@, seq!['}'], i + 2);
                assert(rest.skip(2) =~= t@.skip(i + 2));
            }
            match crate::text::index_of_from(t, '}', i + 2) {
                Some(j) => {
                    let v = ref_value_exec(t, i + 2, j, m, g);
                    proof {
                        let k = j - (i + 2);
                        assert(close_brace(rest.skip(2)) == Some(k));
                        assert(rest.subrange(2, 2 + k) =~= t@.subrange(i + 2, j as int));
                        assert(rest.skip(3 + k) =~= t@.skip(j + 1));
                    }
                    extend_chars(&mut out, &v);
                    i = j + 1;
                },
                None => {
                    assert(close_brace(rest.skip(2)) is None);
                    out.push('$');
                    assert(rest.drop_first() =~= t@.skip(i + 1));
                    i = i + 1;
                },
            }
        } else {
            let mut k: usize = i + 1;
            while k < t.len() && is_ref_letter_exec(t[k])
                invariant
                    i + 1 <= k <= t.len(),
                    forall|q: int| i + 1 <= q < k ==> is_ref_letter(#[trigger] t@[q]),
                decreases t.len() - k,
            {
                k = k + 1;
            }
            proof {
                let s1 = rest.skip(1);
                assert forall|q: int| 0 <= q < k - (i + 1) implies is_ref_letter(#[trigger] s1[q]) by {
                    assert(s1[q] == t@[i + 1 + q]);
                }
                if k < t.len() {
                    assert(s1[k - (i + 1)] == t@[k as int]);
                }
                lemma_ref_run_exact(s1, k - (i + 1));
            }
            if k == i + 1 {
                out.push('$');
                assert(rest.drop_first() =~= t@.skip(i + 1));
                i = i + 1;
            } else {
                let v = ref_value_exec(t, i + 1, k, m, g);
                assert(rest.subrange(1, 1 + (k - (i + 1))) =~= t@.subrange(i + 1, k as int));
                assert(rest.skip(k - i) =~= t@.skip(k as int));
                extend_chars(&mut out, &v);
                i = k;
            }
        }
    }
    assert(t@.skip(i as int) =~= Seq::<char>::empty());
    out
}

} // verus!
