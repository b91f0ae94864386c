//! New business modules: name rules, normalization and the edits of the Maven
//! aggregation files.
use vstd::prelude::*;
use vstd::string::StringExecFns;
use crate::ext_calls::{regex_is_match, regex_match};
use crate::task::sviews;
use crate::text::{
    chars_eq, chars_of, contains, contains_str, ends_with, extend_str, lower, lower_chars, string_of,
    trim, trim_chars, vviews,
};

verus! {

/// Result of generating module skeletons.
#[derive(Debug, Clone)]
pub struct GenerateOutcome {
    pub created_files: usize,
    pub modified_files: usize,
    pub message: String,
}

/// The normalized key of a raw name: trimmed and ASCII-lowercased.
pub open spec fn name_key(raw: Seq<char>) -> Seq<char> {
    lower(trim(raw))
}

/// Normalized short names: keys of the raw names, without empty ones and
/// without repeats, in order of first appearance.
pub open spec fn norm_names(m: Seq<Seq<char>>) -> Seq<Seq<char>>
    decreases m.len(),
{
    if m.len() == 0 {
        Seq::empty()
    } else {
        let prev = norm_names(m.drop_last());
        let key = name_key(m.last());
        if key.len() == 0 || prev.contains(key) {
            prev
        } else {
            prev.push(key)
        }
    }
}

/// Whether `v` holds `c` (by content).
fn holds(v: &Vec<Vec<char>>, c: &Vec<char>) -> (r: bool)
    ensures
        r == vviews(v@).contains(c@),
{
    let mut k: usize = 0;
    while k < v.len()
        invariant
            k <= v.len(),
            forall|m: int| 0 <= m < k ==> v@[m]@ != c@,
        decreases v.len() - k,
    {
        if chars_eq(&v[k], c) {
            assert(vviews(v@)[k as int] == c@);
            return true;
        }
        k = k + 1;
    }
    assert forall|m: int| 0 <= m < vviews(v@).len() implies vviews(v@)[m] != c@ by {
        assert(vviews(v@)[m] == v@[m]@);
    }
    false
}

fn strings_of(v: &Vec<Vec<char>>) -> (r: Vec<String>)
    ensures
        sviews(r@) == vviews(v@),
{
    let mut r: Vec<String> = Vec::new();
    let mut i: usize = 0;
    while i < v.len()
        invariant
            i <= v.len(),
            sviews(r@) == vviews(v@).take(i as int),
        decreases v.len() - i,
    {
        let ghost before = r@;
        r.push(string_of(&v[i]));
        assert(sviews(r@) =~= sviews(before).push(v@[i as int]@));
        assert(sviews(r@) =~= vviews(v@).take(i as int + 1));
        i = i + 1;
    }
    assert(vviews(v@).take(i as int) =~= vviews(v@));
    r
}

/// Normalized short names: trimmed, lowercased, empty ones dropped, repeats
/// dropped (first appearance kept).
pub fn normalize_new_module_names(modules: &Vec<String>) -> (r: Vec<String>)
    ensures
        sviews(r@) == norm_names(sviews(modules@)),
{
    let mut out: Vec<Vec<char>> = Vec::new();
    let mut i: usize = 0;
    while i < modules.len()
        invariant
            i <= modules.len(),
            vviews(out@) == norm_names(sviews(modules@).take(i as int)),
        decreases modules.len() - i,
    {
        let key = lower_chars(&trim_chars(&chars_of(modules[i].as_str())));
        proof {
            let m = sviews(modules@).take(i as int + 1);
            assert(m.drop_last() =~= sviews(modules@).take(i as int));
            assert(m.last() == modules@[i as int]@);
        }
        if key.len() > 0 && !holds(&out, &key) {
            let ghost before = vviews(out@);
            out.push(key);
            assert(vviews(out@) =~= before.push(key@));
        }
        i = i + 1;
    }
    assert(sviews(modules@).take(modules@.len() as int) =~= sviews(modules@));
    strings_of(&out)
}

/// The pattern new module names must match.
pub open spec fn name_pattern() -> Seq<char> {
    "^[a-z][a-z0-9-]*$"@
}

/// A legal new module name: matches `^[a-z][a-z0-9-]*$`, does not end with `-`
/// and holds no `--`.
pub open spec fn valid_name(name: Seq<char>) -> bool {
    &&& regex_match(name_pattern(), name) == Some(true)
    &&& !ends_with(name, seq!['-'])
    &&& !contains(name, seq!['-', '-'])
}

/// Whether `name` is a legal new module name.
pub fn is_valid_new_module_name(name: &str) -> (r: bool)
    ensures
        r == valid_name(name@),
{
    let ok = regex_is_match("^[a-z][a-z0-9-]*$", name);
    let n = chars_of(name);
    let mut dash: Vec<char> = Vec::new();
    dash.push('-');
    let mut dd: Vec<char> = Vec::new();
    dd.push('-');
    dd.push('-');
    assert(dash@ =~= seq!['-']);
    assert(dd@ =~= seq!['-', '-']);
    let ends = n.len() > 0 && n[n.len() - 1] == '-';
    proof {
        assert(ends == ends_with(n@, dash@)) by {
            if n@.len() > 0 {
                assert(n@.skip(n@.len() - 1) =~= seq![n@.last()]);
            }
        }
    }
    let double = crate::text::find_from_exec(&n, &dd, 0).is_some();
    proof {
        crate::text::lemma_find_from(n@, dd@, 0);
    }
    match ok {
        Some(true) => !ends && !double,
        _ => false,
    }
}

/// A raw entry that is rejected: non-empty once trimmed and not a legal name.
pub open spec fn bad_entry(raw: Seq<char>) -> bool {
    trim(raw).len() > 0 && !valid_name(trim(raw))
}

/// Index of the first rejected raw entry.
pub open spec fn first_bad(m: Seq<Seq<char>>) -> Option<int>
    decreases m.len(),
{
    if m.len() == 0 {
        None
    } else {
        match first_bad(m.drop_last()) {
            Some(k) => Some(k),
            None => if bad_entry(m.last()) {
                Some(m.len() - 1)
            } else {
                None
            },
        }
    }
}

/// Keys of the modules being removed (trimmed, lowercased, non-empty).
pub open spec fn removed_keys(rm: Seq<Seq<char>>) -> Set<Seq<char>> {
    Set::new(|s: Seq<char>| s.len() > 0 && exists|i: int| 0 <= i < rm.len() && #[trigger] name_key(rm[i]) == s)
}

/// Index of the first name that is also being removed.
pub open spec fn first_in(names: Seq<Seq<char>>, keys: Set<Seq<char>>) -> Option<int>
    decreases names.len(),
{
    if names.len() == 0 {
        None
    } else {
        match first_in(names.drop_last(), keys) {
            Some(k) => Some(k),
            None => if keys.contains(names.last()) {
                Some(names.len() - 1)
            } else {
                None
            },
        }
    }
}

/// Message for an illegal name.
pub open spec fn illegal_msg(raw: Seq<char>) -> Seq<char> {
    "新增模块「"@ + raw + "」不合法：须为小写字母/数字/短横线，以字母开头"@
}

/// Message for a name that is both added and removed.
pub open spec fn conflict_msg(name: Seq<char>) -> Seq<char> {
    "新增模块「"@ + name + "」与裁剪模块 remove_modules 冲突，不能同时增删同名项"@
}

proof fn lemma_first_bad_prefix(m: Seq<Seq<char>>, i: int)
    requires
        0 <= i < m.len(),
        first_bad(m.take(i)) is None,
        !bad_entry(m[i]),
    ensures
        first_bad(m.take(i + 1)) is None,
{
    assert(m.take(i + 1).drop_last() =~= m.take(i));
}

proof fn lemma_first_bad_extend(m: Seq<Seq<char>>, n: int)
    requires
        0 <= n <= m.len(),
        first_bad(m.take(n)) is Some,
    ensures
        first_bad(m) == first_bad(m.take(n)),
    decreases m.len() - n,
{
    if n == m.len() {
        assert(m.take(n) =~= m);
    } else {
        assert(m.take(n + 1).drop_last() =~= m.take(n));
        lemma_first_bad_extend(m, n + 1);
    }
}

proof fn lemma_first_in_extend(m: Seq<Seq<char>>, keys: Set<Seq<char>>, n: int)
    requires
        0 <= n <= m.len(),
        first_in(m.take(n), keys) is Some,
    ensures
        first_in(m, keys) == first_in(m.take(n), keys),
    decreases m.len() - n,
{
    if n == m.len() {
        assert(m.take(n) =~= m);
    } else {
        assert(m.take(n + 1).drop_last() =~= m.take(n));
        lemma_first_in_extend(m, keys, n + 1);
    }
}

/// Checks the new module names: rejects the first illegal name, then the first
/// name that is also being removed; otherwise replaces the list by its
/// normalized form. Nothing changes when a message is returned.
#[verifier::loop_isolation(false)]
pub fn validate_new_modules(modules: &mut Vec<String>, remove_modules: &Vec<String>) -> (r: Option<
    String,
>)
    ensures
        ({
            let m = sviews(old(modules)@);
            let norm = norm_names(m);
            let keys = removed_keys(sviews(remove_modules@));
            match first_bad(m) {
                Some(k) => r matches Some(e) && e@ == illegal_msg(m[k]) && final(modules)@ == old(
                    modules,
                )@,
                None => match first_in(norm, keys) {
                    Some(j) => r matches Some(e) && e@ == conflict_msg(norm[j]) && final(modules)@
                        == old(modules)@,
                    None => r is None && sviews(final(modules)@) == norm,
                },
            }
        }),
{
    let ghost m = sviews(modules@);
    let mut i: usize = 0;
    while i < modules.len()
        invariant
            i <= modules.len(),
            m == sviews(modules@),
            first_bad(m.take(i as int)) is None,
        decreases modules.len() - i,
    {
        let key = trim_chars(&chars_of(modules[i].as_str()));
        if key.len() > 0 && !is_valid_new_module_name(string_of(&key).as_str()) {
            let mut msg: Vec<char> = Vec::new();
            extend_str(&mut msg, "新增模块「");
            extend_str(&mut msg, modules[i].as_str());
            extend_str(&mut msg, "」不合法：须为小写字母/数字/短横线，以字母开头");
            proof {
                assert(m.take(i as int + 1).drop_last() =~= m.take(i as int));
                lemma_first_bad_extend(m, i as int + 1);
            }
            return Some(string_of(&msg));
        }
        proof {
            lemma_first_bad_prefix(m, i as int);
        }
        i = i + 1;
    }
    assert(m.take(m.len() as int) =~= m);
    let normalized = normalize_new_module_names(modules);
    let mut removed: Vec<Vec<char>> = Vec::new();
    let mut j: usize = 0;
    let ghost rm = sviews(remove_modules@);
    while j < remove_modules.len()
        invariant
            j <= remove_modules.len(),
            rm == sviews(remove_modules@),
            forall|s: Seq<char>| vviews(removed@).contains(s) <==> (s.len() > 0 && exists|t: int|
                0 <= t < j && #[trigger] name_key(rm[t]) == s),
        decreases remove_modules.len() - j,
    {
        let key = lower_chars(&trim_chars(&chars_of(remove_modules[j].as_str())));
        let ghost before = vviews(removed@);
        if key.len() > 0 {
            removed.push(key);
            assert(vviews(removed@) =~= before.push(key@));
        }
        assert forall|s: Seq<char>| vviews(removed@).contains(s) <==> (s.len() > 0 && exists|t: int|
            0 <= t < j + 1 && #[trigger] name_key(rm[t]) == s) by {
            if vviews(removed@).contains(s) && !before.contains(s) {
                assert(name_key(rm[j as int]) == s);
            }
            if s.len() > 0 && (exists|t: int| 0 <= t < j + 1 && #[trigger] name_key(rm[t]) == s) {
                let t = choose|t: int| 0 <= t < j + 1 && #[trigger] name_key(rm[t]) == s;
                if t < j {
                    assert(before.contains(s));
                    let w = choose|w: int| 0 <= w < before.len() && before[w] == s;
                    assert(vviews(removed@)[w] == s);
                } else {
                    assert(vviews(removed@)[vviews(removed@).len() - 1] == s);
                }
            }
        }
        j = j + 1;
    }
    let ghost keys = removed_keys(rm);
    assert forall|s: Seq<char>| vviews(removed@).contains(s) <==> keys.contains(s) by {}
    let ghost norm = sviews(normalized@);
    let mut k: usize = 0;
    while k < normalized.len()
        invariant
            k <= normalized.len(),
            norm == sviews(normalized@),
            forall|s: Seq<char>| vviews(removed@).contains(s) <==> keys.contains(s),
            first_in(norm.take(k as int), keys) is None,
        decreases normalized.len() - k,
    {
        let c = chars_of(normalized[k].as_str());
        proof {
            assert(norm.take(k as int + 1).drop_last() =~= norm.take(k as int));
            assert(norm.take(k as int + 1).last() == c@);
        }
        if holds(&removed, &c) {
            let mut msg: Vec<char> = Vec::new();
            extend_str(&mut msg, "新增模块「");
            extend_str(&mut msg, normalized[k].as_str());
            extend_str(&mut msg, "」与裁剪模块 remove_modules 冲突，不能同时增删同名项");
            proof {
                assert(keys.contains(c@));
                assert(first_in(norm.take(k as int + 1), keys) == Some(k as int));
                lemma_first_in_extend(norm, keys, k as int + 1);
                assert(first_in(norm, keys) == Some(k as int));
                assert(norm[k as int] == c@);
                assert(first_bad(m) is None);
                assert(norm == norm_names(m));
                assert(keys == removed_keys(sviews(remove_modules@)));
            }
            return Some(string_of(&msg));
        }
        k = k + 1;
    }
    assert(norm.take(norm.len() as int) =~= norm);
    *modules = normalized;
    None
}

/// ASCII uppercase of one character.
pub open spec fn upper_char(c: char) -> char {
    if 'a' <= c <= 'z' {
        (((c as u8) - 32) as u8) as char
    } else {
        c
    }
}

/// Dash-separated words joined with their first letters uppercased (ASCII);
/// `at_start` tells whether the next letter starts a word.
pub open spec fn pascal_from(s: Seq<char>, at_start: bool) -> Seq<char>
    decreases s.len(),
{
    if s.len() == 0 {
        Seq::empty()
    } else if s[0] == '-' {
        pascal_from(s.drop_first(), true)
    } else {
        seq![if at_start { upper_char(s[0]) } else { s[0] }] + pascal_from(s.drop_first(), false)
    }
}

/// `member-card` → `MemberCard`.
pub fn to_pascal_case(name: &str) -> (r: String)
    ensures
        r@ == pascal_from(name@, true),
{
    let c = chars_of(name);
    let mut out: Vec<char> = Vec::new();
    let mut at_start = true;
    let mut i: usize = 0;
    assert(c@.skip(0) =~= c@);
    while i < c.len()
        invariant
            i <= c.len(),
            c@ == name@,
            out@ + pascal_from(c@.skip(i as int), at_start) == pascal_from(name@, true),
        decreases c.len() - i,
    {
        let ch = c[i];
        let ghost rest = c@.skip(i as int);
        assert(rest.drop_first() =~= c@.skip(i + 1));
        if ch == '-' {
            at_start = true;
        } else {
            let ghost before = out@;
            let up = if at_start && 'a' <= ch && ch <= 'z' {
                let b: u8 = ch as u8;
                (b - 32) as char
            } else {
                ch
            };
            assert(up == (if at_start { upper_char(ch) } else { ch }));
            out.push(up);
            assert(out@ + pascal_from(c@.skip(i + 1), false) =~= before + (seq![up] + pascal_from(
                rest.drop_first(),
                false,
            )));
            at_start = false;
        }
        i = i + 1;
    }
    assert(c@.skip(i as int) =~= Seq::<char>::empty());
    string_of(&out)
}

/// The characters of `s` other than `-`.
pub open spec fn without_dashes(s: Seq<char>) -> Seq<char>
    decreases s.len(),
{
    if s.len() == 0 {
        Seq::empty()
    } else if s.last() == '-' {
        without_dashes(s.drop_last())
    } else {
        without_dashes(s.drop_last()).push(s.last())
    }
}

/// The Java package segment of a module name: `member-card` → `membercard`.
pub fn java_pkg_segment(name: &str) -> (r: String)
    ensures
        r@ == without_dashes(name@),
{
    let c = chars_of(name);
    let mut out: Vec<char> = Vec::new();
    let mut i: usize = 0;
    while i < c.len()
        invariant
            i <= c.len(),
            c@ == name@,
            out@ == without_dashes(c@.take(i as int)),
        decreases c.len() - i,
    {
        assert(c@.take(i + 1).drop_last() =~= c@.take(i as int));
        if c[i] != '-' {
            out.push(c[i]);
        }
        i = i + 1;
    }
    assert(c@.take(i as int) =~= c@);
    string_of(&out)
}

/// Last position `<= hi` where `p` occurs in `s`.
pub open spec fn rfind_upto(s: Seq<char>, p: Seq<char>, hi: int) -> Option<int>
    decreases hi + 1,
{
    if hi < 0 {
        None
    } else if crate::text::matches_at(s, p, hi) {
        Some(hi)
    } else {
        rfind_upto(s, p, hi - 1)
    }
}

/// `str::rfind`.
pub open spec fn rfind(s: Seq<char>, p: Seq<char>) -> Option<int> {
    rfind_upto(s, p, s.len() - p.len())
}

fn rfind_exec(s: &Vec<char>, p: &Vec<char>) -> (r: Option<usize>)
    ensures
        r matches Some(i) ==> rfind(s@, p@) == Some(i as int) && i + p@.len() <= s@.len(),
        r is None ==> rfind(s@, p@) is None,
{
    if p.len() > s.len() {
        return None;
    }
    let mut k: usize = s.len() - p.len();
    loop
        invariant
            k + p.len() <= s.len(),
            rfind(s@, p@) == rfind_upto(s@, p@, k as int),
        decreases k,
    {
        if crate::text::matches_at_exec(s, p, k) {
            return Some(k);
        }
        if k == 0 {
            assert(rfind_upto(s@, p@, -1) is None);
            return None;
        }
        k = k - 1;
    }
}

/// Leading whitespace of the last line whose content starts with `<module>`.
pub open spec fn module_indent(ls: Seq<Seq<char>>) -> Option<Seq<char>>
    decreases ls.len(),
{
    if ls.len() == 0 {
        None
    } else {
        let l = ls.last();
        let t = crate::text::trim_start(l);
        if crate::text::starts_with(t, "<module>"@) {
            Some(l.take(l.len() - t.len()))
        } else {
            module_indent(ls.drop_last())
        }
    }
}

/// The indentation of the existing `<module>` entries of `before`.
pub fn infer_child_indent(before: &str) -> (r: Option<String>)
    ensures
        r matches Some(x) ==> module_indent(crate::text::lines(before@)) == Some(x@),
        r is None ==> module_indent(crate::text::lines(before@)) is None,
{
    let ls = crate::text::lines_of(&chars_of(before));
    let ghost all = vviews(ls@);
    let mut n: usize = ls.len();
    assert(all.take(n as int) =~= all);
    while n > 0
        invariant
            n <= ls.len(),
            all == vviews(ls@),
            all == crate::text::lines(before@),
            module_indent(all) == module_indent(all.take(n as int)),
        decreases n,
    {
        let line = &ls[n - 1];
        let t = crate::text::trim_start_chars(line);
        proof {
            assert(all.take(n as int).last() == line@);
            assert(all.take(n as int).drop_last() =~= all.take(n - 1));
            crate::text::lemma_trim_start_suffix(line@);
        }
        if crate::text::starts_with_str(&t, "<module>") {
            let ind = crate::text::slice_chars(line, 0, line.len() - t.len());
            assert(ind@ =~= line@.take(line@.len() - t@.len()));
            return Some(string_of(&ind));
        }
        n = n - 1;
    }
    None
}

/// Newline used in `before`: `\r\n` when it already holds one, else `\n`.
pub open spec fn newline_of(before: Seq<char>) -> Seq<char> {
    if contains(before, "\r\n"@) {
        "\r\n"@
    } else {
        "\n"@
    }
}

/// The aggregator POM with `tag` added as the last entry before `</modules>`,
/// indented like the other entries (eight spaces when there are none).
pub open spec fn with_module_entry(pom: Seq<char>, tag: Seq<char>) -> Seq<char> {
    match rfind(pom, "</modules>"@) {
        None => pom,
        Some(idx) => {
            let before = pom.take(idx);
            let indent = match module_indent(crate::text::lines(before)) {
                Some(x) => x,
                None => crate::text::spaces(8),
            };
            let nl = newline_of(before);
            before + (if before.len() > 0 && before.last() == '\n' {
                Seq::empty()
            } else {
                nl
            }) + indent + tag + nl + pom.skip(idx)
        },
    }
}

/// Adds `tag` (e.g. `<module>demo-order</module>`) before the last `</modules>`.
pub fn insert_module_before_close(pom: &str, tag: &str) -> (r: String)
    ensures
        r@ == with_module_entry(pom@, tag@),
{
    let p = chars_of(pom);
    let close = chars_of("</modules>");
    match rfind_exec(&p, &close) {
        None => String::from_str(pom),
        Some(idx) => {
            let before = crate::text::slice_chars(&p, 0, idx);
            assert(before@ =~= pom@.take(idx as int));
            let before_s = string_of(&before);
            let indent: Vec<char> = match infer_child_indent(before_s.as_str()) {
                Some(x) => chars_of(x.as_str()),
                None => {
                    let mut sp: Vec<char> = Vec::new();
                    crate::text::push_spaces(&mut sp, 8);
                    sp
                },
            };
            let crlf = contains_str(&before, "\r\n");
            let mut out: Vec<char> = Vec::new();
            crate::text::extend_chars(&mut out, &before);
            let ends = before.len() > 0 && before[before.len() - 1] == '\n';
            if !ends {
                if crlf {
                    extend_str(&mut out, "\r\n");
                } else {
                    extend_str(&mut out, "\n");
                }
            }
            crate::text::extend_chars(&mut out, &indent);
            extend_str(&mut out, tag);
            if crlf {
                extend_str(&mut out, "\r\n");
            } else {
                extend_str(&mut out, "\n");
            }
            let tail = crate::text::slice_chars(&p, idx, p.len());
            assert(tail@ =~= pom@.skip(idx as int));
            crate::text::extend_chars(&mut out, &tail);
            string_of(&out)
        },
    }
}

/// The POM with `dep_block` inserted right after the first `<dependencies>`, or,
/// without one, a new `<dependencies>` section before each `</project>`.
pub open spec fn with_dependency(content: Seq<char>, dep_block: Seq<char>) -> Seq<char> {
    match crate::text::find(content, "<dependencies>"@) {
        Some(idx) => content.take(idx + "<dependencies>"@.len()) + dep_block + content.skip(
            idx + "<dependencies>"@.len(),
        ),
        None => crate::placeholders::str_replace(
            content,
            "</project>"@,
            "    <dependencies>"@ + dep_block + "\n    </dependencies>\n</project>"@,
        ),
    }
}

/// Inserts a dependency block into a POM.
pub fn insert_dep_block(content: &str, dep_block: &str) -> (r: String)
    ensures
        r@ == with_dependency(content@, dep_block@),
{
    let c = chars_of(content);
    let mark = chars_of("<dependencies>");
    proof {
        crate::text::lemma_find_from(c@, mark@, 0);
    }
    match crate::text::find_from_exec(&c, &mark, 0) {
        Some(idx) => {
            let cl: usize = c.len();
            assert(crate::text::matches_at(c@, mark@, idx as int));
            let cut: usize = idx + mark.len();
            let head = crate::text::slice_chars(&c, 0, cut);
            let tail = crate::text::slice_chars(&c, cut, c.len());
            assert(head@ =~= c@.take(cut as int));
            assert(tail@ =~= c@.skip(cut as int));
            let mut out = head;
            extend_str(&mut out, dep_block);
            crate::text::extend_chars(&mut out, &tail);
            string_of(&out)
        },
        None => {
            let mut to: Vec<char> = Vec::new();
            extend_str(&mut to, "    <dependencies>");
            extend_str(&mut to, dep_block);
            extend_str(&mut to, "\n    </dependencies>\n</project>");
            let from = chars_of("</project>");
            let out = crate::placeholders::str_replace_chars(&c, &from, &to);
            string_of(&out)
        },
    }
}

/// Splits `s` at every `c` (`str::split(c)`).
pub fn split_on(s: &Vec<char>, c: char) -> (r: Vec<Vec<char>>)
    ensures
        vviews(r@) == crate::nacos_sql::split_char(s@, c),
{
    let mut r: Vec<Vec<char>> = Vec::new();
    let mut pos: usize = 0;
    assert(s@.skip(0) =~= s@);
    assert(vviews(r@) =~= Seq::<Seq<char>>::empty());
    loop
        invariant
            pos <= s.len(),
            vviews(r@) + crate::nacos_sql::split_char(s@.skip(pos as int), c)
                == crate::nacos_sql::split_char(s@, c),
        decreases s.len() - pos,
    {
        let ghost rest = s@.skip(pos as int);
        let ghost before = vviews(r@);
        proof {
            crate::text::lemma_find_shift(s@, seq![c], pos as int);
            crate::text::lemma_find_from(s@, seq![c], pos as int);
        }
        match crate::text::index_of_from(s, c, pos) {
            Some(i) => {
                let piece = crate::text::slice_chars(s, pos, i);
                assert(piece@ =~= rest.take(i - pos));
                assert(rest.skip(i - pos + 1) =~= s@.skip(i + 1));
                r.push(piece);
                assert(vviews(r@) =~= before.push(piece@));
                assert(vviews(r@) + crate::nacos_sql::split_char(s@.skip(i + 1), c) =~= before + (seq![
                    rest.take(i - pos),
                ] + crate::nacos_sql::split_char(rest.skip(i - pos + 1), c)));
                pos = i + 1;
            },
            None => {
                let piece = crate::text::slice_chars(s, pos, s.len());
                assert(piece@ =~= rest);
                r.push(piece);
                assert(vviews(r@) =~= before.push(piece@));
                assert(vviews(r@) =~= before + seq![rest]);
                return r;
            },
        }
    }
}

proof fn lemma_split_nonempty(s: Seq<char>, c: char)
    ensures
        crate::nacos_sql::split_char(s, c).len() >= 1,
{
}

/// The last path component that is neither empty nor `.`.
pub open spec fn last_component(segs: Seq<Seq<char>>) -> Option<Seq<char>>
    decreases segs.len(),
{
    if segs.len() == 0 {
        None
    } else if segs.last().len() == 0 || segs.last() == seq!['.'] {
        last_component(segs.drop_last())
    } else {
        Some(segs.last())
    }
}

/// `Path::file_name` of a `/`-separated path: its last normal component
/// (`None` for `..`, the root or an empty path).
pub open spec fn file_name_of(rel: Seq<char>) -> Option<Seq<char>> {
    match last_component(crate::nacos_sql::split_char(rel, '/')) {
        Some(x) => if x == seq!['.', '.'] {
            None
        } else {
            Some(x)
        },
        None => None,
    }
}

/// `\` replaced by `/`.
pub open spec fn slashes(s: Seq<char>) -> Seq<char> {
    s.map_values(|ch: char| if ch == '\\' { '/' } else { ch })
}

/// The leaf name of a module path: its file name, else the text after the last
/// `/` once backslashes count as slashes.
pub open spec fn leaf_of(rel: Seq<char>) -> Seq<char> {
    match file_name_of(rel) {
        Some(x) => x,
        None => crate::nacos_sql::split_char(slashes(rel), '/').last(),
    }
}

/// Short names a module path occupies: its lowercased leaf, and the part after
/// the leaf's first `-` when that is not empty.
pub open spec fn occupied_by(rel: Seq<char>, s: Seq<char>) -> bool {
    let l = lower(leaf_of(rel));
    ||| s == l
    ||| (match index_of_char(l, '-') {
        Some(i) => l.skip(i + 1).len() > 0 && s == l.skip(i + 1),
        None => false,
    })
}

/// First index of a character.
pub open spec fn index_of_char(s: Seq<char>, c: char) -> Option<int> {
    crate::text::index_of(s, c)
}

/// Short names already taken by the project's back-end modules and front-end dirs.
pub open spec fn taken_names(info: crate::params::ProjectInfo) -> Set<Seq<char>> {
    Set::new(|s: Seq<char>| exists|k: int| 0 <= k < info.backend_modules@.len() && #[trigger] occupied_by(info.backend_modules@[k]@, s))
        + Set::new(|s: Seq<char>| exists|k: int| 0 <= k < info.frontend_dirs@.len() && #[trigger] occupied_by(info.frontend_dirs@[k]@, s))
}

fn last_component_exec(segs: &Vec<Vec<char>>) -> (r: Option<Vec<char>>)
    ensures
        r matches Some(x) ==> last_component(vviews(segs@)) == Some(x@),
        r is None ==> last_component(vviews(segs@)) is None,
{
    let ghost all = vviews(segs@);
    let mut n = segs.len();
    assert(all.take(n as int) =~= all);
    while n > 0
        invariant
            n <= segs.len(),
            all == vviews(segs@),
            last_component(all) == last_component(all.take(n as int)),
        decreases n,
    {
        let seg = &segs[n - 1];
        assert(all.take(n as int).last() == seg@);
        assert(all.take(n as int).drop_last() =~= all.take(n - 1));
        let dot = seg.len() == 1 && seg[0] == '.';
        assert(dot == (seg@ == seq!['.'])) by {
            if seg@.len() == 1 && seg@[0] == '.' {
                assert(seg@ =~= seq!['.']);
            }
        }
        if seg.len() != 0 && !dot {
            return Some(crate::text::slice_chars(seg, 0, seg.len()));
        }
        n = n - 1;
    }
    None
}

/// The leaf name of a module path.
pub fn module_leaf(rel: &str) -> (r: Vec<char>)
    ensures
        r@ == leaf_of(rel@),
{
    let c = chars_of(rel);
    let segs = split_on(&c, '/');
    let fname: Option<Vec<char>> = match last_component_exec(&segs) {
        Some(x) => {
            let dd = x.len() == 2 && x[0] == '.' && x[1] == '.';
            assert(dd == (x@ == seq!['.', '.'])) by {
                if x@.len() == 2 && x@[0] == '.' && x@[1] == '.' {
                    assert(x@ =~= seq!['.', '.']);
                }
            }
            if dd {
                None
            } else {
                Some(x)
            }
        },
        None => None,
    };
    match fname {
        Some(x) => x,
        None => {
            let mut rep: Vec<char> = Vec::new();
            let mut i: usize = 0;
            while i < c.len()
                invariant
                    i <= c.len(),
                    c@ == rel@,
                    rep@ == slashes(c@.take(i as int)),
                decreases c.len() - i,
            {
                let ch = if c[i] == '\\' { '/' } else { c[i] };
                rep.push(ch);
                assert(rep@ =~= slashes(c@.take(i + 1)));
                i = i + 1;
            }
            assert(c@.take(i as int) =~= c@);
            let parts = split_on(&rep, '/');
            proof {
                lemma_split_nonempty(rep@, '/');
            }
            let k = parts.len() - 1;
            assert(vviews(parts@)[k as int] == parts@[k as int]@);
            crate::text::slice_chars(&parts[k], 0, parts[k].len())
        },
    }
}

/// Adds the short names occupied by `rel`.
fn add_occupied(v: &mut Vec<Vec<char>>, rel: &str)
    ensures
        forall|s: Seq<char>| #[trigger] vviews(final(v)@).contains(s) <==> (vviews(old(v)@).contains(s) || occupied_by(rel@, s)),
{
    let ghost v0 = vviews(v@);
    let l = lower_chars(&module_leaf(rel));
    v.push(crate::text::slice_chars(&l, 0, l.len()));
    let ghost v1 = vviews(v@);
    assert(l@.subrange(0, l@.len() as int) =~= l@);
    assert(v1 =~= v0.push(l@));
    proof {
        crate::text::lemma_find_from(l@, seq!['-'], 0);
    }
    match crate::text::index_of_from(&l, '-', 0) {
        Some(i) => {
            let suffix = crate::text::slice_chars(&l, i + 1, l.len());
            assert(suffix@ =~= l@.skip(i + 1));
            if suffix.len() > 0 {
                v.push(suffix);
                assert(vviews(v@) =~= v1.push(l@.skip(i + 1)));
            }
        },
        None => {},
    }
    assert forall|s: Seq<char>| vviews(v@).contains(s) <==> (v0.contains(s) || occupied_by(rel@, s)) by {
        if vviews(v@).contains(s) {
            let k = choose|k: int| 0 <= k < vviews(v@).len() && vviews(v@)[k] == s;
            if k < v0.len() {
                assert(v0[k] == s);
            }
        }
        if v0.contains(s) {
            let k = choose|k: int| 0 <= k < v0.len() && v0[k] == s;
            assert(vviews(v@)[k] == s);
        }
        if s == l@ {
            assert(vviews(v@)[v0.len() as int] == s);
        }
        if occupied_by(rel@, s) && s != l@ {
            assert(vviews(v@)[vviews(v@).len() - 1] == s);
        }
    }
    assert(v0 == vviews(old(v)@));
    assert(forall|s: Seq<char>| #[trigger] vviews(v@).contains(s) <==> (vviews(old(v)@).contains(s) || occupied_by(rel@, s)));
}

/// Names of `names` that are taken, in order.
pub open spec fn conflicts_of(names: Seq<Seq<char>>, taken: Set<Seq<char>>) -> Seq<Seq<char>>
    decreases names.len(),
{
    if names.len() == 0 {
        Seq::empty()
    } else {
        let p = conflicts_of(names.drop_last(), taken);
        if taken.contains(names.last()) {
            p.push(names.last())
        } else {
            p
        }
    }
}

/// Checks the normalized new module names against the project's modules:
/// `None` for the single-application template or without conflicts, else a
/// message naming every conflicting name.
#[verifier::loop_isolation(false)]
pub fn validate_against_project(
    info: &crate::params::ProjectInfo,
    params: &crate::params::CustomizeParams,
) -> (r: Option<String>)
    ensures
        info.template_dir@ == "ruoyi"@ ==> r is None,
        info.template_dir@ != "ruoyi"@ ==> ({
            let c = conflicts_of(norm_names(sviews(params.new_modules@)), taken_names(*info));
            if c.len() == 0 {
                r is None
            } else {
                r matches Some(e) && e@ == "新增模块与现有后端模块冲突："@ + crate::nacos_sql::join(c, "、"@)
            }
        }),
{
    if crate::text::eq_str(&chars_of(info.template_dir.as_str()), "ruoyi") {
        return None;
    }
    let names = normalize_new_module_names(&params.new_modules);
    if names.len() == 0 {
        assert(conflicts_of(sviews(names@), taken_names(*info)) =~= Seq::<Seq<char>>::empty());
        return None;
    }
    let mut taken: Vec<Vec<char>> = Vec::new();
    let ghost b = info.backend_modules@;
    let ghost f = info.frontend_dirs@;
    let mut i: usize = 0;
    while i < info.backend_modules.len()
        invariant
            i <= b.len(),
            b == info.backend_modules@,
            forall|s: Seq<char>| vviews(taken@).contains(s) <==> exists|k: int| 0 <= k < i && #[trigger] occupied_by(b[k]@, s),
        decreases b.len() - i,
    {
        add_occupied(&mut taken, info.backend_modules[i].as_str());
        assert forall|s: Seq<char>| vviews(taken@).contains(s) <==> exists|k: int| 0 <= k < i + 1 && #[trigger] occupied_by(b[k]@, s) by {
            if occupied_by(b[i as int]@, s) {
                assert(exists|k: int| 0 <= k < i + 1 && #[trigger] occupied_by(b[k]@, s));
            }
        }
        i = i + 1;
    }
    let mut j: usize = 0;
    while j < info.frontend_dirs.len()
        invariant
            j <= f.len(),
            f == info.frontend_dirs@,
            b == info.backend_modules@,
            forall|s: Seq<char>| vviews(taken@).contains(s) <==> ((exists|k: int| 0 <= k < b.len() && #[trigger] occupied_by(b[k]@, s))
                || (exists|k: int| 0 <= k < j && #[trigger] occupied_by(f[k]@, s))),
        decreases f.len() - j,
    {
        add_occupied(&mut taken, info.frontend_dirs[j].as_str());
        assert forall|s: Seq<char>| vviews(taken@).contains(s) <==> ((exists|k: int| 0 <= k < b.len() && #[trigger] occupied_by(b[k]@, s))
            || (exists|k: int| 0 <= k < j + 1 && #[trigger] occupied_by(f[k]@, s))) by {
            if occupied_by(f[j as int]@, s) {
                assert(exists|k: int| 0 <= k < j + 1 && #[trigger] occupied_by(f[k]@, s));
            }
        }
        j = j + 1;
    }
    let ghost tn = taken_names(*info);
    assert forall|s: Seq<char>| vviews(taken@).contains(s) <==> tn.contains(s) by {}
    let ghost nv = sviews(names@);
    let mut conflicts: Vec<Vec<char>> = Vec::new();
    let mut k: usize = 0;
    assert(nv.take(0) =~= Seq::<Seq<char>>::empty());
    while k < names.len()
        invariant
            k <= names.len(),
            nv == sviews(names@),
            forall|s: Seq<char>| vviews(taken@).contains(s) <==> tn.contains(s),
            vviews(conflicts@) == conflicts_of(nv.take(k as int), tn),
        decreases names.len() - k,
    {
        let c = chars_of(names[k].as_str());
        assert(nv.take(k + 1).drop_last() =~= nv.take(k as int));
        assert(nv.take(k + 1).last() == c@);
        if holds(&taken, &c) {
            let ghost before = vviews(conflicts@);
            conflicts.push(c);
            assert(vviews(conflicts@) =~= before.push(c@));
        }
        k = k + 1;
    }
    assert(nv.take(k as int) =~= nv);
    if conflicts.len() == 0 {
        None
    } else {
        let mut msg: Vec<char> = Vec::new();
        extend_str(&mut msg, "新增模块与现有后端模块冲突：");
        crate::nacos_sql::push_joined(&mut msg, &conflicts, "、");
        Some(string_of(&msg))
    }
}

// ---------------------------------------------------------------------------
// Pom edits and the module skeleton's placeholders
// ---------------------------------------------------------------------------

/// What an edit of a pom came to.
#[derive(Debug, Clone)]
pub enum PomUpdate {
    /// The pom already has the entry: nothing to do.
    Present,
    /// The new text of the pom.
    Updated(String),
    /// The pom lacks the anchor the entry goes before or after.
    MissingAnchor,
}

/// The `<module>` entry of a module.
pub open spec fn module_tag(module: Seq<char>) -> Seq<char> {
    "<module>"@ + module + "</module>"@
}

/// Whether an edit says "present", gives `text`, or says the anchor is missing.
pub open spec fn update_is(r: PomUpdate, present: bool, text: Seq<char>, old: Seq<char>) -> bool {
    if present {
        r is Present
    } else if text == old {
        r is MissingAnchor
    } else {
        r matches PomUpdate::Updated(t) && t@ == text
    }
}

/// Adds `<module>{module}</module>` before the last `</modules>` of a pom's
/// text: `Present` when it is there already, `MissingAnchor` when the edit
/// would change nothing.
pub fn upsert_module_tag(content: &str, module: &str) -> (r: PomUpdate)
    ensures
        update_is(r, contains(content@, module_tag(module@)), with_module_entry(content@, module_tag(module@)), content@),
{
    let mut tag = chars_of("<module>");
    extend_str(&mut tag, module);
    extend_str(&mut tag, "</module>");
    let c = chars_of(content);
    if crate::text::find_from_exec(&c, &tag, 0).is_some() {
        return PomUpdate::Present;
    }
    let t = string_of(&tag);
    let new = insert_module_before_close(content, t.as_str());
    if chars_eq(&chars_of(new.as_str()), &c) {
        PomUpdate::MissingAnchor
    } else {
        PomUpdate::Updated(new)
    }
}

/// The dependency of the admin module on a new module.
pub open spec fn admin_dep_block(group_id: Seq<char>, artifact_id: Seq<char>) -> Seq<char> {
    "\n        <dependency>\n            <groupId>"@ + group_id + "</groupId>\n            <artifactId>"@ + artifact_id
        + "</artifactId>\n        </dependency>"@
}

/// Adds the new module as a dependency of the admin module's pom (after the
/// first `<dependencies>`, else in a new section before `</project>`):
/// `Present` when the pom already names the artifact, `MissingAnchor` when
/// the edit would change nothing.
pub fn insert_admin_dependency(content: &str, group_id: &str, artifact_id: &str) -> (r: PomUpdate)
    ensures
        update_is(
            r,
            contains(content@, "<artifactId>"@ + artifact_id@ + "</artifactId>"@),
            with_dependency(content@, admin_dep_block(group_id@, artifact_id@)),
            content@,
        ),
{
    let c = chars_of(content);
    let mut tag = chars_of("<artifactId>");
    extend_str(&mut tag, artifact_id);
    extend_str(&mut tag, "</artifactId>");
    if crate::text::find_from_exec(&c, &tag, 0).is_some() {
        return PomUpdate::Present;
    }
    let mut block = chars_of("\n        <dependency>\n            <groupId>");
    extend_str(&mut block, group_id);
    extend_str(&mut block, "</groupId>\n            <artifactId>");
    extend_str(&mut block, artifact_id);
    extend_str(&mut block, "</artifactId>\n        </dependency>");
    let b = string_of(&block);
    let new = insert_dep_block(content, b.as_str());
    if chars_eq(&chars_of(new.as_str()), &c) {
        PomUpdate::MissingAnchor
    } else {
        PomUpdate::Updated(new)
    }
}

/// The project version of a pom: the first `<version>` outside `<parent>` and
/// `<properties>` (those blocks removed first), trimmed; `None` when there is
/// none, it is empty or it holds a `$` property reference.
pub open spec fn project_version(pom: Seq<char>) -> Option<Seq<char>> {
    let s1 = crate::nacos_yaml::regex_replaced("(?s)<parent>.*?</parent>"@, pom, crate::nacos_yaml::MatchModel::Drop);
    let s2 = crate::nacos_yaml::regex_replaced("(?s)<properties>.*?</properties>"@, s1, crate::nacos_yaml::MatchModel::Drop);
    match crate::ext_calls::regex_pieces_of("<version>\\s*([^<]+?)\\s*</version>"@, s2) {
        Some((ps, _t)) => if ps.len() > 0 {
            let v = trim(crate::nacos_yaml::group_text(ps[0].2, 0));
            if v.len() > 0 && !contains(v, "$"@) {
                Some(v)
            } else {
                None
            }
        } else {
            None
        },
        None => None,
    }
}

/// The project version of a pom's text (see `project_version`).
pub fn extract_project_version(pom: &str) -> (r: Option<String>)
    ensures
        match r {
            Some(v) => project_version(pom@) == Some(v@),
            None => project_version(pom@) is None,
        },
{
    let d = crate::nacos_yaml::MatchRule::Drop;
    let s1 = crate::nacos_yaml::regex_replace_all("(?s)<parent>.*?</parent>", pom, &d);
    let s2 = crate::nacos_yaml::regex_replace_all("(?s)<properties>.*?</properties>", s1.as_str(), &d);
    match crate::ext_calls::regex_pieces("<version>\\s*([^<]+?)\\s*</version>", s2.as_str()) {
        Some((pieces, _tail)) => {
            if pieces.len() == 0 {
                return None;
            }
            let v = trim_chars(&crate::nacos_yaml::group_exec(&pieces[0].2, 0));
            if v.len() > 0 && !contains_str(&v, "$") {
                Some(string_of(&v))
            } else {
                None
            }
        },
        None => None,
    }
}

/// The version of the new module's parent: that of the pom found first (the
/// nested modules pom for Cloud, else the root one), else that of the root
/// pom, else the framework default.
pub open spec fn parent_version(first: Option<Seq<char>>, root: Option<Seq<char>>, is_cloud: bool) -> Seq<char> {
    match (match first { Some(t) => project_version(t), None => None }) {
        Some(v) => v,
        None => match (match root { Some(t) => project_version(t), None => None }) {
            Some(v) => v,
            None => if is_cloud {
                "3.6.8"@
            } else {
                "3.9.2"@
            },
        },
    }
}

/// The version of the new module's parent from the poms' texts (see `parent_version`).
pub fn read_parent_version(first_pom: Option<&str>, root_pom: Option<&str>, is_cloud: bool) -> (r: String)
    ensures
        r@ == parent_version(
            match first_pom { Some(t) => Some(t@), None => None },
            match root_pom { Some(t) => Some(t@), None => None },
            is_cloud,
        ),
{
    if let Some(t) = first_pom {
        if let Some(v) = extract_project_version(t) {
            return v;
        }
    }
    if let Some(t) = root_pom {
        if let Some(v) = extract_project_version(t) {
            return v;
        }
    }
    if is_cloud {
        String::from_str("3.6.8")
    } else {
        String::from_str("3.9.2")
    }
}

/// The placeholders of the module skeleton's templates, in order: package,
/// prefix (trimmed), name, class name, package segment, port, parent version
/// and, for Cloud, the MySQL driver coordinates (the legacy ones up to Boot 2).
pub open spec fn module_placeholders_of(
    pkg: Seq<char>,
    prefix: Seq<char>,
    name: Seq<char>,
    port: i32,
    version: Seq<char>,
    is_cloud: bool,
    boot_major: u32,
) -> Seq<(Seq<char>, Seq<char>)> {
    let base = seq![
        ("{{PACKAGE}}"@, pkg),
        ("{{PREFIX}}"@, trim(prefix)),
        ("{{NAME}}"@, name),
        ("{{CLASS_NAME}}"@, pascal_from(name, true)),
        ("{{PKG_SEGMENT}}"@, without_dashes(name)),
        ("{{PORT}}"@, crate::nacos_yaml::int_text(port as int)),
        ("{{VERSION}}"@, version),
    ];
    if !is_cloud {
        base
    } else if boot_major <= 2 {
        base + seq![("{{MYSQL_GROUP}}"@, "mysql"@), ("{{MYSQL_ARTIFACT}}"@, "mysql-connector-java"@)]
    } else {
        base + seq![("{{MYSQL_GROUP}}"@, "com.mysql"@), ("{{MYSQL_ARTIFACT}}"@, "mysql-connector-j"@)]
    }
}

fn pair(k: &str, v: String) -> (r: (String, String))
    ensures
        r.0@ == k@,
        r.1@ == v@,
{
    (String::from_str(k), v)
}

/// The placeholders of the module skeleton (see `module_placeholders_of`).
pub fn module_placeholders(
    params: &crate::params::CustomizeParams,
    name: &str,
    port: i32,
    version: &str,
    is_cloud: bool,
    boot_major: u32,
) -> (r: Vec<(String, String)>)
    ensures
        crate::placeholders::pair_views(r@) == module_placeholders_of(
            params.new_package@,
            params.new_module_prefix@,
            name@,
            port,
            version@,
            is_cloud,
            boot_major,
        ),
{
    let mut r: Vec<(String, String)> = Vec::new();
    r.push(pair("{{PACKAGE}}", String::from_str(params.new_package.as_str())));
    r.push(pair("{{PREFIX}}", string_of(&trim_chars(&chars_of(params.new_module_prefix.as_str())))));
    r.push(pair("{{NAME}}", String::from_str(name)));
    r.push(pair("{{CLASS_NAME}}", to_pascal_case(name)));
    r.push(pair("{{PKG_SEGMENT}}", java_pkg_segment(name)));
    let mut pv: Vec<char> = Vec::new();
    crate::nacos_yaml::push_int(&mut pv, port);
    r.push(pair("{{PORT}}", string_of(&pv)));
    r.push(pair("{{VERSION}}", String::from_str(version)));
    if is_cloud {
        if boot_major <= 2 {
            r.push(pair("{{MYSQL_GROUP}}", String::from_str("mysql")));
            r.push(pair("{{MYSQL_ARTIFACT}}", String::from_str("mysql-connector-java")));
        } else {
            r.push(pair("{{MYSQL_GROUP}}", String::from_str("com.mysql")));
            r.push(pair("{{MYSQL_ARTIFACT}}", String::from_str("mysql-connector-j")));
        }
    }
    assert(crate::placeholders::pair_views(r@) =~= module_placeholders_of(
        params.new_package@,
        params.new_module_prefix@,
        name@,
        port,
        version@,
        is_cloud,
        boot_major,
    ));
    r
}

} // verus!
