//! `spring.datasource` blocks of Nacos YAML: wrapping a flat connection into
//! `dynamic.datasource.master` (MyBatis-Plus) and lifting a mis-wrapped one back.
use vstd::prelude::*;
use crate::text::{
    chars_of, eq_str, extend_chars, extend_str, indent_of, indent_width, join_nl, lemma_join_nl_push,
    lemma_spaces_add, line_key, line_key_exec, push_spaces, spaces, string_of, trim, trim_chars,
    trim_start, trim_start_chars, vviews,
};

verus! {

/// A connection key of a flat datasource.
pub open spec fn conn_key(key: Seq<char>) -> bool {
    ||| key == "url"@
    ||| key == "username"@
    ||| key == "password"@
    ||| key == "driver-class-name"@
    ||| key == "driverClassName"@
    ||| key == "type"@
}

/// Whether `key` is a connection key of a flat datasource.
pub fn is_flat_datasource_conn_key(key: &str) -> (r: bool)
    ensures
        r == conn_key(key@),
{
    let k = chars_of(key);
    eq_str(&k, "url") || eq_str(&k, "username") || eq_str(&k, "password") || eq_str(
        &k,
        "driver-class-name",
    ) || eq_str(&k, "driverClassName") || eq_str(&k, "type")
}

/// A line holding a key: not blank and not a comment.
pub open spec fn key_line(line: Seq<char>) -> bool {
    trim_start(line).len() > 0 && trim_start(line)[0] != '#'
}

fn key_line_exec(line: &Vec<char>) -> (r: bool)
    ensures
        r == key_line(line@),
{
    let t = trim_start_chars(line);
    t.len() > 0 && t[0] != '#'
}

/// A run of datasource lines: a direct child (its key and lines) or loose lines
/// before the first child.
pub struct DsItem {
    pub child: bool,
    pub key: Seq<char>,
    pub lines: Seq<Seq<char>>,
}

/// What the first pass over a datasource block gathers.
pub struct DsScan {
    pub child_indent: Option<int>,
    pub has_dynamic: bool,
    pub has_url: bool,
    pub items: Seq<DsItem>,
}

/// One line of the first pass: the first key line deeper than the datasource
/// fixes the child indentation; key lines at that indentation open a child,
/// every other line joins the current run.
pub open spec fn scan_step(st: DsScan, line: Seq<char>, ds: int) -> DsScan {
    let ind = indent_of(line);
    let key = line_key(line);
    let is_key = key_line(line);
    let ci = if is_key && st.child_indent is None && ind > ds {
        Some(ind)
    } else {
        st.child_indent
    };
    if is_key && ci == Some(ind) {
        DsScan {
            child_indent: ci,
            has_dynamic: st.has_dynamic || key == "dynamic"@,
            has_url: st.has_url || key == "url"@,
            items: st.items.push(DsItem { child: true, key, lines: seq![line] }),
        }
    } else if st.items.len() > 0 {
        let last = st.items.last();
        DsScan {
            child_indent: ci,
            has_dynamic: st.has_dynamic,
            has_url: st.has_url,
            items: st.items.drop_last().push(
                DsItem { child: last.child, key: last.key, lines: last.lines.push(line) },
            ),
        }
    } else {
        DsScan {
            child_indent: ci,
            has_dynamic: st.has_dynamic,
            has_url: st.has_url,
            items: seq![DsItem { child: false, key: Seq::empty(), lines: seq![line] }],
        }
    }
}

/// The first pass over a datasource block.
pub open spec fn ds_scan(block: Seq<Seq<char>>, ds: int) -> DsScan
    decreases block.len(),
{
    if block.len() == 0 {
        DsScan { child_indent: None, has_dynamic: false, has_url: false, items: Seq::empty() }
    } else {
        scan_step(ds_scan(block.drop_last(), ds), block.last(), ds)
    }
}

/// Executable run: (child, key, lines).
pub type ItemVec = (bool, Vec<char>, Vec<Vec<char>>);

/// The model of runs.
pub open spec fn items_model(v: Seq<ItemVec>) -> Seq<DsItem> {
    v.map_values(|it: ItemVec| DsItem { child: it.0, key: it.1@, lines: vviews(it.2@) })
}

fn copy_chars(v: &Vec<char>) -> (r: Vec<char>)
    ensures
        r@ == v@,
{
    let r = crate::text::slice_chars(v, 0, v.len());
    assert(r@ =~= v@);
    r
}

/// First pass over a datasource block.
fn scan_block(ds: usize, block: &Vec<Vec<char>>) -> (r: (Option<usize>, bool, bool, Vec<ItemVec>))
    ensures
        ({
            let s = ds_scan(vviews(block@), ds as int);
            &&& s.child_indent == (match r.0 {
                Some(c) => Some(c as int),
                None => None::<int>,
            })
            &&& s.has_dynamic == r.1
            &&& s.has_url == r.2
            &&& s.items == items_model(r.3@)
        }),
        r.0 matches Some(c) ==> c > ds,
{
    let ghost bv = vviews(block@);
    let mut child: Option<usize> = None;
    let mut has_dynamic = false;
    let mut has_url = false;
    let mut items: Vec<ItemVec> = Vec::new();
    let mut i: usize = 0;
    assert(bv.take(0) =~= Seq::<Seq<char>>::empty());
    assert(items_model(items@) =~= Seq::<DsItem>::empty());
    while i < block.len()
        invariant
            i <= block.len(),
            bv == vviews(block@),
            ({
                let s = ds_scan(bv.take(i as int), ds as int);
                &&& s.child_indent == (match child {
                    Some(c) => Some(c as int),
                    None => None::<int>,
                })
                &&& s.has_dynamic == has_dynamic
                &&& s.has_url == has_url
                &&& s.items == items_model(items@)
            }),
            child matches Some(c) ==> c > ds,
        decreases block.len() - i,
    {
        let line = &block[i];
        assert(bv.take(i + 1).drop_last() =~= bv.take(i as int));
        assert(bv.take(i + 1).last() == line@);
        let ind = indent_width(line);
        let key = line_key_exec(line);
        let is_key = key_line_exec(line);
        if is_key && child.is_none() && ind > ds {
            child = Some(ind);
        }
        let ghost im = items_model(items@);
        let at_child = match child {
            Some(c) => is_key && c == ind,
            None => false,
        };
        if at_child {
            if eq_str(&key, "dynamic") {
                has_dynamic = true;
            }
            if eq_str(&key, "url") {
                has_url = true;
            }
            let mut ls: Vec<Vec<char>> = Vec::new();
            ls.push(copy_chars(line));
            assert(vviews(ls@) =~= seq![line@]);
            items.push((true, key, ls));
            assert(items_model(items@) =~= im.push(DsItem { child: true, key: line_key(line@), lines: seq![line@] }));
        } else if items.len() > 0 {
            let (c, k, mut ls) = items.pop().unwrap();
            let ghost before = vviews(ls@);
            assert(items_model(items@) =~= im.drop_last());
            ls.push(copy_chars(line));
            assert(vviews(ls@) =~= before.push(line@));
            items.push((c, k, ls));
            assert(items_model(items@) =~= im.drop_last().push(
                DsItem { child: im.last().child, key: im.last().key, lines: im.last().lines.push(line@) },
            ));
        } else {
            let mut ls: Vec<Vec<char>> = Vec::new();
            ls.push(copy_chars(line));
            assert(vviews(ls@) =~= seq![line@]);
            items.push((false, Vec::new(), ls));
            assert(items_model(items@) =~= seq![DsItem { child: false, key: Seq::empty(), lines: seq![line@] }]);
        }
        i = i + 1;
    }
    assert(bv.take(i as int) =~= bv);
    (child, has_dynamic, has_url, items)
}

/// Lines of the runs that stay under `datasource` (all but the connection children).
pub open spec fn kept_text(items: Seq<DsItem>) -> Seq<char>
    decreases items.len(),
{
    if items.len() == 0 {
        Seq::empty()
    } else {
        let it = items.last();
        kept_text(items.drop_last()) + (if it.child && conn_key(it.key) {
            Seq::empty()
        } else {
            join_nl(it.lines)
        })
    }
}

/// One moved line: blank lines stay blank, the others get `pad` in front.
pub open spec fn moved_line(l: Seq<char>, pad: Seq<char>) -> Seq<char> {
    if trim(l).len() == 0 {
        seq!['\n']
    } else {
        pad + l + seq!['\n']
    }
}

/// Moved lines of one run.
pub open spec fn moved_lines(ls: Seq<Seq<char>>, pad: Seq<char>) -> Seq<char>
    decreases ls.len(),
{
    if ls.len() == 0 {
        Seq::empty()
    } else {
        moved_lines(ls.drop_last(), pad) + moved_line(ls.last(), pad)
    }
}

/// Lines of the connection children, moved under `master`.
pub open spec fn moved_text(items: Seq<DsItem>, pad: Seq<char>) -> Seq<char>
    decreases items.len(),
{
    if items.len() == 0 {
        Seq::empty()
    } else {
        let it = items.last();
        moved_text(items.drop_last(), pad) + (if it.child && conn_key(it.key) {
            moved_lines(it.lines, pad)
        } else {
            Seq::empty()
        })
    }
}

/// Indentation step of the block: child indentation minus the datasource's
/// (2 when unknown or zero).
pub open spec fn step_of(ci: Option<int>, ds: int) -> int {
    let s = match ci {
        Some(c) => if c >= ds { c - ds } else { 0 },
        None => 2,
    };
    if s == 0 {
        2
    } else {
        s
    }
}

/// A datasource block with its flat connection keys moved under
/// `dynamic.datasource.master` (three levels deeper); a block that already has a
/// `dynamic` child or has no `url` child is kept as it is.
pub open spec fn flat_block_wrapped(ds: int, block: Seq<Seq<char>>) -> Seq<char> {
    let sc = ds_scan(block, ds);
    if sc.has_dynamic || !sc.has_url {
        join_nl(block)
    } else {
        let step = step_of(sc.child_indent, ds);
        kept_text(sc.items) + spaces((ds + step) as nat) + "dynamic:\n"@ + spaces((ds + 2 * step) as nat)
            + "datasource:\n"@ + spaces((ds + 3 * step) as nat) + "master:\n"@ + moved_text(
            sc.items,
            spaces((3 * step) as nat),
        )
    }
}

fn push_lines(out: &mut Vec<char>, ls: &Vec<Vec<char>>)
    ensures
        final(out)@ == old(out)@ + join_nl(vviews(ls@)),
{
    let ghost start = out@;
    let mut i: usize = 0;
    assert(vviews(ls@).take(0) =~= Seq::<Seq<char>>::empty());
    while i < ls.len()
        invariant
            i <= ls.len(),
            out@ == start + join_nl(vviews(ls@).take(i as int)),
        decreases ls.len() - i,
    {
        proof {
            lemma_join_nl_push(vviews(ls@).take(i as int), ls@[i as int]@);
            assert(vviews(ls@).take(i + 1) =~= vviews(ls@).take(i as int).push(ls@[i as int]@));
        }
        extend_chars(out, &ls[i]);
        out.push('\n');
        i = i + 1;
    }
    assert(vviews(ls@).take(i as int) =~= vviews(ls@));
}

fn push_moved_lines(out: &mut Vec<char>, ls: &Vec<Vec<char>>, pad: &Vec<char>)
    ensures
        final(out)@ == old(out)@ + moved_lines(vviews(ls@), pad@),
{
    let ghost start = out@;
    let mut i: usize = 0;
    assert(vviews(ls@).take(0) =~= Seq::<Seq<char>>::empty());
    while i < ls.len()
        invariant
            i <= ls.len(),
            out@ == start + moved_lines(vviews(ls@).take(i as int), pad@),
        decreases ls.len() - i,
    {
        assert(vviews(ls@).take(i + 1).drop_last() =~= vviews(ls@).take(i as int));
        assert(vviews(ls@).take(i + 1).last() == ls@[i as int]@);
        let ghost before = out@;
        let t = trim_chars(&ls[i]);
        if t.len() == 0 {
            out.push('\n');
        } else {
            extend_chars(out, pad);
            extend_chars(out, &ls[i]);
            out.push('\n');
        }
        assert(out@ =~= before + moved_line(ls@[i as int]@, pad@));
        i = i + 1;
    }
    assert(vviews(ls@).take(i as int) =~= vviews(ls@));
}

/// Wraps the flat connection of one datasource block (see `flat_block_wrapped`).
pub fn rewrite_flat_datasource_block(ds_indent: usize, block: &Vec<Vec<char>>) -> (r: Vec<char>)
    ensures
        r@ == flat_block_wrapped(ds_indent as int, vviews(block@)),
{
    let (child, has_dynamic, has_url, items) = scan_block(ds_indent, block);
    let mut out: Vec<char> = Vec::new();
    if has_dynamic || !has_url {
        push_lines(&mut out, block);
        return out;
    }
    let step: usize = match child {
        Some(c) => c - ds_indent,
        None => 2,
    };
    let step: usize = if step == 0 { 2 } else { step };
    let ghost im = items_model(items@);
    let mut k: usize = 0;
    assert(im.take(0) =~= Seq::<DsItem>::empty());
    while k < items.len()
        invariant
            k <= items.len(),
            im == items_model(items@),
            out@ == kept_text(im.take(k as int)),
        decreases items.len() - k,
    {
        assert(im.take(k + 1).drop_last() =~= im.take(k as int));
        assert(im.take(k + 1).last() == im[k as int]);
        let it = &items[k];
        let ghost before = out@;
        if !(it.0 && is_flat_datasource_conn_key(string_of(&it.1).as_str())) {
            push_lines(&mut out, &it.2);
        }
        assert(out@ =~= kept_text(im.take(k + 1)));
        k = k + 1;
    }
    assert(im.take(k as int) =~= im);
    let ghost s = ds_indent as nat;
    let ghost t = step as nat;
    push_spaces(&mut out, ds_indent);
    push_spaces(&mut out, step);
    extend_str(&mut out, "dynamic:\n");
    push_spaces(&mut out, ds_indent);
    push_spaces(&mut out, step);
    push_spaces(&mut out, step);
    extend_str(&mut out, "datasource:\n");
    push_spaces(&mut out, ds_indent);
    push_spaces(&mut out, step);
    push_spaces(&mut out, step);
    push_spaces(&mut out, step);
    extend_str(&mut out, "master:\n");
    let mut pad: Vec<char> = Vec::new();
    push_spaces(&mut pad, step);
    push_spaces(&mut pad, step);
    push_spaces(&mut pad, step);
    proof {
        lemma_spaces_add(s, t);
        lemma_spaces_add(s + t, t);
        lemma_spaces_add(s + t + t, t);
        lemma_spaces_add(t, t);
        lemma_spaces_add(t + t, t);
    }
    let ghost head = out@;
    let mut k: usize = 0;
    assert(im.take(0) =~= Seq::<DsItem>::empty());
    while k < items.len()
        invariant
            k <= items.len(),
            im == items_model(items@),
            pad@ == spaces((3 * step) as nat),
            out@ == head + moved_text(im.take(k as int), pad@),
        decreases items.len() - k,
    {
        assert(im.take(k + 1).drop_last() =~= im.take(k as int));
        assert(im.take(k + 1).last() == im[k as int]);
        let it = &items[k];
        if it.0 && is_flat_datasource_conn_key(string_of(&it.1).as_str()) {
            push_moved_lines(&mut out, &it.2, &pad);
        }
        assert(out@ =~= head + moved_text(im.take(k + 1), pad@));
        k = k + 1;
    }
    assert(im.take(k as int) =~= im);
    assert(out@ =~= flat_block_wrapped(ds_indent as int, vviews(block@)));
    out
}

/// Child indentation and the keys of the direct children of a datasource block.
pub open spec fn direct_keys(block: Seq<Seq<char>>, ds: int) -> (Option<int>, Seq<Seq<char>>)
    decreases block.len(),
{
    if block.len() == 0 {
        (None, Seq::empty())
    } else {
        let (ci0, ks) = direct_keys(block.drop_last(), ds);
        let line = block.last();
        let ind = indent_of(line);
        if !key_line(line) {
            (ci0, ks)
        } else {
            let ci = if ci0 is None && ind > ds {
                Some(ind)
            } else {
                ci0
            };
            if ci == Some(ind) {
                (ci, ks.push(line_key(line)))
            } else {
                (ci, ks)
            }
        }
    }
}

/// State of the lifting pass: inside a `master:` block, lifted text, `url` seen.
pub struct LiftState {
    pub in_master: bool,
    pub lifted: Seq<char>,
    pub found: bool,
}

/// One line of the lifting pass. Inside `master:` (which ends at the first
/// non-blank line not deeper than it), blank lines stay blank and comments and
/// connection keys at the field indentation are lifted three steps up; outside,
/// a `master:` key at the master indentation opens the block.
pub open spec fn lift_step(st: LiftState, line: Seq<char>, mi: int, fi: int, step3: int) -> LiftState {
    let ni = indent_of(line);
    let nt = trim_start(line);
    let inside = st.in_master && !(nt.len() > 0 && ni <= mi);
    if inside {
        if nt.len() == 0 {
            LiftState { in_master: true, lifted: st.lifted + seq!['\n'], found: st.found }
        } else if ni == fi {
            let fk = line_key(line);
            if nt[0] == '#' || conn_key(fk) {
                LiftState {
                    in_master: true,
                    lifted: st.lifted + spaces((ni - step3) as nat) + nt + seq!['\n'],
                    found: st.found || (conn_key(fk) && fk == "url"@),
                }
            } else {
                st
            }
        } else {
            st
        }
    } else {
        LiftState {
            in_master: key_line(line) && line_key(line) == "master"@ && ni == mi,
            lifted: st.lifted,
            found: st.found,
        }
    }
}

/// The lifting pass over the lines.
pub open spec fn lift_pass(block: Seq<Seq<char>>, mi: int, fi: int, step3: int) -> LiftState
    decreases block.len(),
{
    if block.len() == 0 {
        LiftState { in_master: false, lifted: Seq::empty(), found: false }
    } else {
        lift_step(lift_pass(block.drop_last(), mi, fi, step3), block.last(), mi, fi, step3)
    }
}

/// The flat form of a datasource whose only direct child is `dynamic`: the
/// connection keys (and comments) of `dynamic.datasource.master`, three levels
/// up; `None` for any other block or when no `url` is found.
pub open spec fn unwrapped_master(ds: int, block: Seq<Seq<char>>) -> Option<Seq<char>> {
    let (ci, ks) = direct_keys(block, ds);
    if ks != seq!["dynamic"@] {
        None
    } else {
        let step = step_of(ci, ds);
        let st = lift_pass(block, ds + 3 * step, ds + 4 * step, 3 * step);
        if st.found {
            Some(st.lifted)
        } else {
            None
        }
    }
}

fn direct_keys_exec(ds: usize, block: &Vec<Vec<char>>) -> (r: (Option<usize>, Vec<Vec<char>>))
    ensures
        direct_keys(vviews(block@), ds as int) == ((match r.0 {
            Some(c) => Some(c as int),
            None => None::<int>,
        }), vviews(r.1@)),
        r.0 matches Some(c) ==> c > ds,
{
    let ghost bv = vviews(block@);
    let mut child: Option<usize> = None;
    let mut keys: Vec<Vec<char>> = Vec::new();
    let mut i: usize = 0;
    assert(bv.take(0) =~= Seq::<Seq<char>>::empty());
    assert(vviews(keys@) =~= Seq::<Seq<char>>::empty());
    while i < block.len()
        invariant
            i <= block.len(),
            bv == vviews(block@),
            direct_keys(bv.take(i as int), ds as int) == ((match child {
                Some(c) => Some(c as int),
                None => None::<int>,
            }), vviews(keys@)),
            child matches Some(c) ==> c > ds,
        decreases block.len() - i,
    {
        let line = &block[i];
        assert(bv.take(i + 1).drop_last() =~= bv.take(i as int));
        assert(bv.take(i + 1).last() == line@);
        if key_line_exec(line) {
            let ind = indent_width(line);
            if child.is_none() && ind > ds {
                child = Some(ind);
            }
            let at = match child {
                Some(c) => c == ind,
                None => false,
            };
            if at {
                let ghost before = vviews(keys@);
                keys.push(line_key_exec(line));
                assert(vviews(keys@) =~= before.push(line_key(line@)));
            }
        }
        i = i + 1;
    }
    assert(bv.take(i as int) =~= bv);
    (child, keys)
}

/// Lifts a mis-wrapped `dynamic.datasource.master` back to a flat datasource
/// (see `unwrapped_master`).
pub fn try_unwrap_simple_dynamic_master(ds_indent: usize, block: &Vec<Vec<char>>) -> (r: Option<Vec<char>>)
    ensures
        r matches Some(x) ==> unwrapped_master(ds_indent as int, vviews(block@)) == Some(x@),
        r is None ==> unwrapped_master(ds_indent as int, vviews(block@)) is None,
{
    let (child, keys) = direct_keys_exec(ds_indent, block);
    let only_dynamic = keys.len() == 1 && eq_str(&keys[0], "dynamic");
    proof {
        reveal_strlit("dynamic");
        if keys.len() == 1 {
            assert(vviews(keys@) =~= seq![keys@[0]@]);
        }
        assert(only_dynamic == (vviews(keys@) == seq!["dynamic"@])) by {
            if vviews(keys@) == seq!["dynamic"@] {
                assert(vviews(keys@).len() == 1);
                assert(vviews(keys@)[0] == keys@[0]@);
            }
        }
    }
    if !only_dynamic {
        return None;
    }
    let step: usize = match child {
        Some(c) => c - ds_indent,
        None => 2,
    };
    let step: usize = if step == 0 { 2 } else { step };
    let mi: u128 = ds_indent as u128 + 3 * (step as u128);
    let fi: u128 = ds_indent as u128 + 4 * (step as u128);
    let ghost mi_i = ds_indent + 3 * step;
    let ghost fi_i = ds_indent + 4 * step;
    let ghost s3 = 3 * step;
    let ghost bv = vviews(block@);
    let mut in_master = false;
    let mut lifted: Vec<char> = Vec::new();
    let mut found = false;
    let mut i: usize = 0;
    assert(bv.take(0) =~= Seq::<Seq<char>>::empty());
    while i < block.len()
        invariant
            i <= block.len(),
            bv == vviews(block@),
            mi as int == mi_i,
            fi as int == fi_i,
            mi_i == ds_indent + 3 * step,
            fi_i == ds_indent + 4 * step,
            s3 == 3 * step,
            step > 0,
            lift_pass(bv.take(i as int), mi_i, fi_i, s3) == (LiftState {
                in_master,
                lifted: lifted@,
                found,
            }),
        decreases block.len() - i,
    {
        let line = &block[i];
        assert(bv.take(i + 1).drop_last() =~= bv.take(i as int));
        assert(bv.take(i + 1).last() == line@);
        let ni = indent_width(line);
        let nt = trim_start_chars(line);
        let inside = in_master && !(nt.len() > 0 && (ni as u128) <= mi);
        let ghost l0 = lifted@;
        if inside {
            if nt.len() == 0 {
                lifted.push('\n');
                assert(lifted@ =~= l0 + seq!['\n']);
            } else if ni as u128 == fi {
                let fk = line_key_exec(line);
                let conn = is_flat_datasource_conn_key(string_of(&fk).as_str());
                if nt[0] == '#' || conn {
                    let ghost before = lifted@;
                    push_spaces(&mut lifted, ds_indent);
                    push_spaces(&mut lifted, step);
                    proof {
                        lemma_spaces_add(ds_indent as nat, step as nat);
                    }
                    extend_chars(&mut lifted, &nt);
                    lifted.push('\n');
                    assert(lifted@ =~= before + spaces((ni - s3) as nat) + nt@ + seq!['\n']);
                    if conn && eq_str(&fk, "url") {
                        found = true;
                    }
                }
            }
        } else {
            let key = line_key_exec(line);
            in_master = key_line_exec(line) && eq_str(&key, "master") && ni as u128 == mi;
        }
        i = i + 1;
    }
    assert(bv.take(i as int) =~= bv);
    if found {
        Some(lifted)
    } else {
        None
    }
}

/// A `datasource:` key line.
pub open spec fn ds_line(line: Seq<char>) -> bool {
    key_line(line) && line_key(line) == "datasource"@
}

/// Number of leading lines that belong to a block under a parent at indentation
/// `p`: blank lines and lines deeper than `p`.
pub open spec fn block_len(ls: Seq<Seq<char>>, p: int) -> nat
    decreases ls.len(),
{
    if ls.len() == 0 {
        0
    } else if trim_start(ls[0]).len() > 0 && indent_of(ls[0]) <= p {
        0
    } else {
        1 + block_len(ls.drop_first(), p)
    }
}

pub proof fn lemma_block_len_le(ls: Seq<Seq<char>>, p: int)
    ensures
        block_len(ls, p) <= ls.len(),
    decreases ls.len(),
{
    if ls.len() > 0 {
        lemma_block_len_le(ls.drop_first(), p);
    }
}

/// How one datasource block is rewritten: wrapped, or lifted back when that
/// applies (kept otherwise).
pub open spec fn block_rewritten(ds: int, block: Seq<Seq<char>>, wrap: bool) -> Seq<char> {
    if wrap {
        flat_block_wrapped(ds, block)
    } else {
        match unwrapped_master(ds, block) {
            Some(x) => x,
            None => join_nl(block),
        }
    }
}

/// Every line followed by `\n`, each `datasource:` block rewritten.
pub open spec fn each_ds(ls: Seq<Seq<char>>, wrap: bool) -> Seq<char>
    decreases ls.len(),
{
    if ls.len() == 0 {
        Seq::empty()
    } else if ds_line(ls[0]) {
        let p = indent_of(ls[0]);
        let rest = ls.drop_first();
        let n = block_len(rest, p);
        proof {
            lemma_block_len_le(rest, p);
        }
        ls[0] + seq!['\n'] + block_rewritten(p, rest.take(n as int), wrap) + each_ds(rest.skip(n as int), wrap)
    } else {
        ls[0] + seq!['\n'] + each_ds(ls.drop_first(), wrap)
    }
}

/// The lines of the block starting at `start` under a parent at `parent_indent`,
/// and the index just past it.
pub fn take_indented_block(lines: &Vec<Vec<char>>, start: usize, parent_indent: usize) -> (r: (
    Vec<Vec<char>>,
    usize,
))
    requires
        start <= lines.len(),
    ensures
        r.1 == start + block_len(vviews(lines@).skip(start as int), parent_indent as int),
        vviews(r.0@) == vviews(lines@).subrange(start as int, r.1 as int),
{
    let ghost lv = vviews(lines@);
    let mut i = start;
    let mut stop = false;
    let mut block: Vec<Vec<char>> = Vec::new();
    assert(lv.subrange(start as int, start as int) =~= Seq::<Seq<char>>::empty());
    while i < lines.len() && !stop
        invariant
            start <= i <= lines.len(),
            lv == vviews(lines@),
            !stop ==> block_len(lv.skip(start as int), parent_indent as int) == (i - start) + block_len(
                lv.skip(i as int),
                parent_indent as int,
            ),
            stop ==> block_len(lv.skip(start as int), parent_indent as int) == i - start,
            vviews(block@) == lv.subrange(start as int, i as int),
        decreases lines.len() - i + (if stop { 0int } else { 1int }),
    {
        let nxt = &lines[i];
        let ni = indent_width(nxt);
        let nt = trim_start_chars(nxt);
        assert(lv.skip(i as int)[0] == nxt@);
        assert(lv.skip(i as int).drop_first() =~= lv.skip(i + 1));
        if nt.len() > 0 && ni <= parent_indent {
            stop = true;
        } else {
            let ghost before = vviews(block@);
            block.push(copy_chars(nxt));
            assert(vviews(block@) =~= before.push(nxt@));
            assert(vviews(block@) =~= lv.subrange(start as int, i + 1));
            i = i + 1;
        }
    }
    proof {
        if !stop {
            assert(lv.skip(i as int) =~= Seq::<Seq<char>>::empty());
        }
    }
    (block, i)
}

fn rewrite_block_exec(ds: usize, block: &Vec<Vec<char>>, wrap: bool) -> (r: Vec<char>)
    ensures
        r@ == block_rewritten(ds as int, vviews(block@), wrap),
{
    if wrap {
        rewrite_flat_datasource_block(ds, block)
    } else {
        match try_unwrap_simple_dynamic_master(ds, block) {
            Some(x) => x,
            None => {
                let mut out: Vec<char> = Vec::new();
                push_lines(&mut out, block);
                out
            },
        }
    }
}

/// Rewrites every `datasource:` block of the YAML (wrap or unwrap), keeping the
/// other lines; the final newline follows the source.
pub fn rewrite_each_datasource_block(yaml: &str, wrap: bool) -> (r: String)
    ensures
        r@ == crate::text::match_final_nl(yaml@, each_ds(crate::text::lines(yaml@), wrap)),
{
    let src = chars_of(yaml);
    let ls = crate::text::lines_of(&src);
    let ghost lv = vviews(ls@);
    let mut out: Vec<char> = Vec::new();
    let mut i: usize = 0;
    assert(lv.skip(0) =~= lv);
    while i < ls.len()
        invariant
            i <= ls.len(),
            lv == vviews(ls@),
            out@ + each_ds(lv.skip(i as int), wrap) == each_ds(lv, wrap),
        decreases ls.len() - i,
    {
        let line = &ls[i];
        let ghost rest = lv.skip(i as int);
        assert(rest[0] == line@);
        assert(rest.drop_first() =~= lv.skip(i + 1));
        let ghost before = out@;
        let t = trim_start_chars(line);
        let is_ds = t.len() > 0 && t[0] != '#' && eq_str(&line_key_exec(line), "datasource");
        if is_ds {
            let ds = indent_width(line);
            let (block, next) = take_indented_block(&ls, i + 1, ds);
            proof {
                lemma_block_len_le(lv.skip(i + 1), ds as int);
                assert(vviews(block@) =~= rest.drop_first().take((next - i - 1) as int));
                assert(rest.drop_first().skip((next - i - 1) as int) =~= lv.skip(next as int));
            }
            extend_chars(&mut out, line);
            out.push('\n');
            let b = rewrite_block_exec(ds, &block, wrap);
            extend_chars(&mut out, &b);
            assert(out@ + each_ds(lv.skip(next as int), wrap) =~= before + each_ds(rest, wrap));
            i = next;
        } else {
            extend_chars(&mut out, line);
            out.push('\n');
            assert(out@ + each_ds(lv.skip(i + 1), wrap) =~= before + each_ds(rest, wrap));
            i = i + 1;
        }
    }
    assert(lv.skip(i as int) =~= Seq::<Seq<char>>::empty());
    crate::text::fix_final_nl(&src, &mut out);
    string_of(&out)
}

/// Wraps each flat datasource (with a `url` child and no `dynamic` child) into
/// `dynamic.datasource.master`.
pub fn wrap_flat_datasource_as_dynamic(yaml: &str) -> (r: String)
    ensures
        r@ == crate::text::match_final_nl(yaml@, each_ds(crate::text::lines(yaml@), true)),
{
    rewrite_each_datasource_block(yaml, true)
}

/// Lifts each datasource whose only child is `dynamic` back to a flat datasource.
pub fn unwrap_simple_dynamic_master_to_flat(yaml: &str) -> (r: String)
    ensures
        r@ == crate::text::match_final_nl(yaml@, each_ds(crate::text::lines(yaml@), false)),
{
    rewrite_each_datasource_block(yaml, false)
}

} // verus!
