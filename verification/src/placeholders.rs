//! `{{NAME}}` placeholder substitution shared by the template-driven generators.
use vstd::prelude::*;
use crate::text::{chars_of, extend_chars, replace_all, replace_count, string_of};

verus! {

/// `s.replace("", to)`: `to` before every character and once more at the end.
pub open spec fn interleave(s: Seq<char>, to: Seq<char>) -> Seq<char>
    decreases s.len(),
{
    if s.len() == 0 {
        to
    } else {
        to + seq![s[0]] + interleave(s.drop_first(), to)
    }
}

/// `str::replace` for any pattern, the empty one included.
pub open spec fn str_replace(s: Seq<char>, from: Seq<char>, to: Seq<char>) -> Seq<char> {
    if from.len() == 0 {
        interleave(s, to)
    } else {
        replace_all(s, from, to)
    }
}

/// The views of (placeholder, value) pairs.
pub open spec fn pair_views(v: Seq<(String, String)>) -> Seq<(Seq<char>, Seq<char>)> {
    v.map_values(|p: (String, String)| (p.0@, p.1@))
}

/// Replaces every placeholder in turn, first pair first.
pub open spec fn replace_each(s: Seq<char>, pairs: Seq<(Seq<char>, Seq<char>)>) -> Seq<char>
    decreases pairs.len(),
{
    if pairs.len() == 0 {
        s
    } else {
        str_replace(replace_each(s, pairs.drop_last()), pairs.last().0, pairs.last().1)
    }
}

/// `s.replace(from, to)`.
pub fn str_replace_chars(s: &Vec<char>, from: &Vec<char>, to: &Vec<char>) -> (r: Vec<char>)
    ensures
        r@ == str_replace(s@, from@, to@),
{
    if from.len() > 0 {
        let (out, _n) = replace_count(s, from, to);
        return out;
    }
    let mut out: Vec<char> = Vec::new();
    let mut i: usize = 0;
    proof {
        assert(s@.skip(0) =~= s@);
    }
    while i < s.len()
        invariant
            i <= s.len(),
            out@ + interleave(s@.skip(i as int), to@) == interleave(s@, to@),
        decreases s.len() - i,
    {
        let ghost before = out@;
        let ghost rest = s@.skip(i as int);
        extend_chars(&mut out, to);
        out.push(s[i]);
        assert(rest.drop_first() =~= s@.skip(i + 1));
        assert(out@ + interleave(s@.skip(i + 1), to@) =~= before + (to@ + seq![rest[0]]
            + interleave(rest.drop_first(), to@)));
        i = i + 1;
    }
    assert(s@.skip(i as int) =~= Seq::<char>::empty());
    extend_chars(&mut out, to);
    out
}

/// Replaces each placeholder of `placeholders` by its value, in the order given.
pub fn replace_placeholders(content: &str, placeholders: &Vec<(String, String)>) -> (r: String)
    ensures
        r@ == replace_each(content@, pair_views(placeholders@)),
{
    let mut cur = chars_of(content);
    let mut i: usize = 0;
    proof {
        assert(pair_views(placeholders@).take(0) =~= Seq::<(Seq<char>, Seq<char>)>::empty());
    }
    while i < placeholders.len()
        invariant
            i <= placeholders.len(),
            cur@ == replace_each(content@, pair_views(placeholders@).take(i as int)),
        decreases placeholders.len() - i,
    {
        let key = chars_of(placeholders[i].0.as_str());
        let value = chars_of(placeholders[i].1.as_str());
        cur = str_replace_chars(&cur, &key, &value);
        proof {
            let pv = pair_views(placeholders@);
            assert(pv.take(i as int + 1).drop_last() =~= pv.take(i as int));
            assert(pv.take(i as int + 1).last() == pv[i as int]);
        }
        i = i + 1;
    }
    proof {
        assert(pair_views(placeholders@).take(placeholders@.len() as int) =~= pair_views(
            placeholders@,
        ));
    }
    string_of(&cur)
}

} // verus!
