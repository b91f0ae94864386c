//! Stable ordering of backend module names by a small rank (0 first, 3 last).
use vstd::prelude::*;
use crate::text::{chars_of, ends_with, ends_with_str};

verus! {

/// The contents of a vector of strings.
pub open spec fn names(v: Seq<String>) -> Seq<Seq<char>> {
    v.map_values(|s: String| s@)
}

/// The names whose rank is `k`, in their original order.
pub open spec fn bucket(ms: Seq<Seq<char>>, rs: Seq<u8>, k: u8) -> Seq<Seq<char>>
    decreases ms.len(),
{
    if ms.len() == 0 {
        Seq::empty()
    } else {
        let b = bucket(ms.drop_last(), rs.drop_last(), k);
        if rs.last() == k {
            b.push(ms.last())
        } else {
            b
        }
    }
}

/// The names of rank 0, then 1, 2 and 3, each group keeping its order (a stable
/// sort by rank).
pub open spec fn rank_order(ms: Seq<Seq<char>>, rs: Seq<u8>) -> Seq<Seq<char>> {
    bucket(ms, rs, 0) + bucket(ms, rs, 1) + bucket(ms, rs, 2) + bucket(ms, rs, 3)
}

fn copy_name(s: &String) -> (r: String)
    ensures
        r@ == s@,
{
    String::from_str(s.as_str())
}

/// Appends the names of rank `k` to `out`.
fn push_bucket(out: &mut Vec<String>, modules: &Vec<String>, ranks: &Vec<u8>, k: u8)
    requires
        ranks.len() == modules.len(),
    ensures
        names(final(out)@) == names(old(out)@) + bucket(names(modules@), ranks@, k),
{
    let ghost ms = names(modules@);
    let mut i: usize = 0;
    while i < modules.len()
        invariant
            i <= modules.len(),
            ranks.len() == modules.len(),
            ms == names(modules@),
            names(out@) == names(old(out)@) + bucket(ms.take(i as int), ranks@.take(i as int), k),
        decreases modules.len() - i,
    {
        assert(ms.take(i + 1).drop_last() =~= ms.take(i as int));
        assert(ranks@.take(i + 1).drop_last() =~= ranks@.take(i as int));
        let ghost before = out@;
        if ranks[i] == k {
            out.push(copy_name(&modules[i]));
            assert(names(out@) =~= names(before).push(modules@[i as int]@));
        } else {
            assert(names(out@) =~= names(before));
        }
        i = i + 1;
    }
    assert(ms.take(modules.len() as int) =~= ms);
    assert(ranks@.take(modules.len() as int) =~= ranks@);
}

/// The module names stably sorted by their ranks (`ranks[i]` is the rank of
/// `modules[i]`).
pub(crate) fn order_by_rank(modules: &Vec<String>, ranks: &Vec<u8>) -> (r: Vec<String>)
    requires
        ranks.len() == modules.len(),
    ensures
        names(r@) == rank_order(names(modules@), ranks@),
{
    let mut out: Vec<String> = Vec::new();
    assert(names(out@) =~= Seq::<Seq<char>>::empty());
    push_bucket(&mut out, modules, ranks, 0);
    push_bucket(&mut out, modules, ranks, 1);
    push_bucket(&mut out, modules, ranks, 2);
    push_bucket(&mut out, modules, ranks, 3);
    out
}

/// The rank of a module by its suffix: `-common` first, then `-framework`,
/// then `-admin`, then the rest.
pub open spec fn suffix_rank(m: Seq<char>) -> u8 {
    if ends_with(m, "-common"@) {
        0
    } else if ends_with(m, "-framework"@) {
        1
    } else if ends_with(m, "-admin"@) {
        2
    } else {
        3
    }
}

/// The suffix ranks of a list of module names.
pub open spec fn suffix_ranks(ms: Seq<Seq<char>>) -> Seq<u8> {
    ms.map_values(|m: Seq<char>| suffix_rank(m))
}

/// The module names stably ordered by suffix rank.
pub(crate) fn order_by_suffix(modules: &Vec<String>) -> (r: Vec<String>)
    ensures
        names(r@) == rank_order(names(modules@), suffix_ranks(names(modules@))),
{
    let mut ranks: Vec<u8> = Vec::new();
    let mut i: usize = 0;
    while i < modules.len()
        invariant
            i <= modules.len(),
            ranks.len() == i,
            forall|j: int| 0 <= j < i ==> ranks@[j] == suffix_rank(#[trigger] modules@[j]@),
        decreases modules.len() - i,
    {
        let m = chars_of(modules[i].as_str());
        let k: u8 = if ends_with_str(&m, "-common") {
            0
        } else if ends_with_str(&m, "-framework") {
            1
        } else if ends_with_str(&m, "-admin") {
            2
        } else {
            3
        };
        ranks.push(k);
        i = i + 1;
    }
    assert(ranks@ =~= suffix_ranks(names(modules@)));
    order_by_rank(modules, &ranks)
}

} // verus!
