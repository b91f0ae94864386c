//! Bundled resources: the candidate order of a lookup and the message of a
//! missing resource.
use vstd::prelude::*;
use crate::text::{extend_str, string_of};

verus! {

/// Message for a missing bundled resource; it names only the relative path.
pub open spec fn missing_msg(label: Seq<char>, relative: Seq<char>) -> Seq<char> {
    label + " 模板不存在："@ + relative + "（随包资源缺失或安装不完整）"@
}

/// The message for a missing bundled resource.
pub fn missing_resource_msg(label: &str, relative: &str) -> (r: String)
    ensures
        r@ == missing_msg(label@, relative@),
{
    let mut v: Vec<char> = Vec::new();
    extend_str(&mut v, label);
    extend_str(&mut v, " 模板不存在：");
    extend_str(&mut v, relative);
    extend_str(&mut v, "（随包资源缺失或安装不完整）");
    string_of(&v)
}

/// The first candidate that exists, else the primary path.
pub open spec fn first_existing_of(cands: Seq<(Seq<char>, bool)>, primary: Seq<char>) -> Seq<char>
    decreases cands.len(),
{
    if cands.len() == 0 {
        primary
    } else if cands[0].1 {
        cands[0].0
    } else {
        first_existing_of(cands.drop_first(), primary)
    }
}

/// Views of (path, exists) candidates.
pub open spec fn cand_views(v: Seq<(String, bool)>) -> Seq<(Seq<char>, bool)> {
    v.map_values(|c: (String, bool)| (c.0@, c.1))
}

/// Picks the first existing candidate in order; the primary path when none exists.
pub fn first_existing(candidates: &Vec<(String, bool)>, primary: &str) -> (r: String)
    ensures
        r@ == first_existing_of(cand_views(candidates@), primary@),
{
    let ghost cv = cand_views(candidates@);
    let mut i: usize = 0;
    assert(cv.skip(0) =~= cv);
    while i < candidates.len()
        invariant
            i <= candidates.len(),
            cv == cand_views(candidates@),
            first_existing_of(cv, primary@) == first_existing_of(cv.skip(i as int), primary@),
        decreases candidates.len() - i,
    {
        assert(cv.skip(i as int)[0] == cv[i as int]);
        if candidates[i].1 {
            return candidates[i].0.clone();
        }
        assert(cv.skip(i as int).drop_first() =~= cv.skip(i + 1));
        i = i + 1;
    }
    assert(cv.skip(i as int) =~= Seq::<(Seq<char>, bool)>::empty());
    let mut v: Vec<char> = Vec::new();
    extend_str(&mut v, primary);
    string_of(&v)
}

/// `Ok` with the resolved path when the resource exists, else the missing-resource message.
pub fn require_found(found: Option<String>, relative: &str, label: &str) -> (r: Result<String, String>)
    ensures
        found matches Some(p) ==> (r matches Ok(q) && q@ == p@),
        found is None ==> (r matches Err(e) && e@ == missing_msg(label@, relative@)),
{
    match found {
        Some(p) => Ok(p),
        None => Err(missing_resource_msg(label, relative)),
    }
}

} // verus!
