//! Line-level YAML rewrites applied to Nacos configuration contents.
//!
//! The YAML is never parsed into a tree: each rewrite walks the lines, tracks
//! which block it is in by indentation, and keeps every other line (comments
//! included) as it was.
use vstd::prelude::*;
use vstd::string::StringExecFns;
use crate::ext_calls::{piece_views, pieces_text, regex_is_match, regex_match, PieceModel};
use crate::nacos_sql::{join, push_joined};
use crate::text::{
    ends_with, ends_with_str, lower, lower_chars,
    chars_of, contains, contains_str, eq_str, extend_chars, extend_str, find, fix_final_nl,
    fold_lines, fold_state, indent_of, indent_width, is_ws, lemma_find_from, lemma_fold_end,
    lemma_fold_step, lemma_spaces_add, lemma_trim_start_suffix, line_key, line_key_exec, lines,
    lines_of, match_final_nl, matches_at_exec, push_spaces, spaces, starts_with, starts_with_str,
    string_of, trim_start, trim_start_chars, vviews, find_from_exec, slice_chars,
};

verus! {

// ---------------------------------------------------------------------------
// Top-level keys
// ---------------------------------------------------------------------------

/// A line that does not start with a space or a tab.
pub open spec fn is_top_level(line: Seq<char>) -> bool {
    !(line.len() > 0 && (line[0] == ' ' || line[0] == '\t'))
}

/// The line opens the top-level key `key`.
pub open spec fn opens_top_key(line: Seq<char>, key: Seq<char>) -> bool {
    is_top_level(line) && starts_with(trim_start(line), key + seq![':'])
}

fn is_top_level_exec(line: &Vec<char>) -> (r: bool)
    ensures
        r == is_top_level(line@),
{
    !(line.len() > 0 && (line[0] == ' ' || line[0] == '\t'))
}

fn key_colon(key: &str) -> (r: Vec<char>)
    ensures
        r@ == key@ + seq![':'],
{
    let mut k = chars_of(key);
    k.push(':');
    k
}

fn opens_top_key_exec(line: &Vec<char>, kc: &Vec<char>) -> (r: bool)
    ensures
        r == (is_top_level(line@) && starts_with(trim_start(line@), kc@)),
{
    if !is_top_level_exec(line) {
        return false;
    }
    let t = trim_start_chars(line);
    let r = matches_at_exec(&t, kc, 0);
    assert(r == starts_with(t@, kc@)) by {
        if kc.len() <= t.len() {
            assert(t@.subrange(0, kc@.len() as int) =~= t@.take(kc@.len() as int));
        }
    }
    r
}

/// Whether some line opens the top-level key `key`.
pub fn has_top_level_key(yaml: &str, key: &str) -> (r: bool)
    ensures
        r == exists|k: int| 0 <= k < lines(yaml@).len() && opens_top_key(#[trigger] lines(yaml@)[k], key@),
{
    let s = chars_of(yaml);
    let ls = lines_of(&s);
    let kc = key_colon(key);
    let mut i: usize = 0;
    while i < ls.len()
        invariant
            i <= ls.len(),
            vviews(ls@) == lines(yaml@),
            kc@ == key@ + seq![':'],
            forall|k: int| 0 <= k < i ==> !opens_top_key(#[trigger] lines(yaml@)[k], key@),
        decreases ls.len() - i,
    {
        assert(lines(yaml@)[i as int] == ls@[i as int]@);
        if opens_top_key_exec(&ls[i], &kc) {
            return true;
        }
        i = i + 1;
    }
    false
}

/// `s.replacen(p, r, 1)`.
pub open spec fn replace_first(s: Seq<char>, p: Seq<char>, r: Seq<char>) -> Seq<char> {
    match find(s, p) {
        Some(i) => s.take(i) + r + s.skip(i + p.len()),
        None => s,
    }
}

/// Line step of `rename_top_level_key`.
pub open spec fn rename_step(from: Seq<char>, to: Seq<char>) -> spec_fn(Seq<char>, ()) -> (
    Seq<char>,
    (),
) {
    |line: Seq<char>, st: ()|
        (
            if opens_top_key(line, from) {
                replace_first(line, from + seq![':'], to + seq![':'])
            } else {
                line
            } + seq!['\n'],
            (),
        )
}

/// Renames the top-level key `from` to `to`, keeping the block under it.
pub fn rename_top_level_key(yaml: &str, from: &str, to: &str) -> (r: String)
    ensures
        r@ == match_final_nl(yaml@, fold_lines(lines(yaml@), (), rename_step(from@, to@))),
{
    let s = chars_of(yaml);
    let ls = lines_of(&s);
    let fc = key_colon(from);
    let tc = key_colon(to);
    let ghost step = rename_step(from@, to@);
    let mut out: Vec<char> = Vec::new();
    let mut i: usize = 0;
    assert(lines(yaml@).skip(0) =~= lines(yaml@));
    while i < ls.len()
        invariant
            i <= ls.len(),
            vviews(ls@) == lines(yaml@),
            fc@ == from@ + seq![':'],
            tc@ == to@ + seq![':'],
            step == rename_step(from@, to@),
            out@ + fold_lines(lines(yaml@).skip(i as int), (), step) == fold_lines(
                lines(yaml@),
                (),
                step,
            ),
        decreases ls.len() - i,
    {
        proof {
            lemma_fold_step(lines(yaml@), i as int, (), step);
        }
        let line = &ls[i];
        assert(line@ == lines(yaml@)[i as int]);
        let ghost before = out@;
        if opens_top_key_exec(line, &fc) {
            proof {
                lemma_find_from(line@, fc@, 0);
            }
            match find_from_exec(line, &fc, 0) {
                Some(k) => {
                    let head = slice_chars(line, 0, k);
                    extend_chars(&mut out, &head);
                    extend_chars(&mut out, &tc);
                    let tail = slice_chars(line, k + fc.len(), line.len());
                    extend_chars(&mut out, &tail);
                },
                None => {
                    extend_chars(&mut out, line);
                },
            }
        } else {
            extend_chars(&mut out, line);
        }
        out.push('\n');
        assert(out@ + fold_lines(lines(yaml@).skip(i + 1), (), step) =~= before + fold_lines(
            lines(yaml@).skip(i as int),
            (),
            step,
        ));
        i = i + 1;
    }
    proof {
        lemma_fold_end(lines(yaml@), (), step);
    }
    assert(out@ =~= fold_lines(lines(yaml@), (), step));
    fix_final_nl(&s, &mut out);
    string_of(&out)
}

// ---------------------------------------------------------------------------
// Appending blocks
// ---------------------------------------------------------------------------

/// Text followed by a `\n` unless it already ends with one.
pub open spec fn with_final_nl(s: Seq<char>) -> Seq<char> {
    if s.len() > 0 && s.last() == '\n' {
        s
    } else {
        s.push('\n')
    }
}

fn ensure_final_nl(s: &mut Vec<char>)
    ensures
        final(s)@ == with_final_nl(old(s)@),
{
    if !(s.len() > 0 && s[s.len() - 1] == '\n') {
        s.push('\n');
    }
}

/// Appends `block` (on its own line, ending with a line break) unless `marker` occurs.
pub fn append_block_if_missing(yaml: &str, marker: &str, block: &str) -> (r: String)
    ensures
        r@ == if contains(yaml@, marker@) {
            yaml@
        } else {
            with_final_nl(with_final_nl(yaml@) + block@)
        },
{
    let s = chars_of(yaml);
    if contains_str(&s, marker) {
        return String::from_str(yaml);
    }
    let mut out = s;
    ensure_final_nl(&mut out);
    extend_str(&mut out, block);
    ensure_final_nl(&mut out);
    string_of(&out)
}

/// State of the whitelist scan: inside `whites:`, its indent, entry added.
pub struct WhitesState {
    pub in_whites: bool,
    pub indent: int,
    pub added: bool,
}

/// `{indent+2 spaces}- {path}\n`.
pub open spec fn white_entry(indent: int, path: Seq<char>) -> Seq<char> {
    spaces((indent + 2) as nat) + "- "@ + path + seq!['\n']
}

/// Line step of `append_whitelist`.
pub open spec fn whites_step(path: Seq<char>) -> spec_fn(Seq<char>, WhitesState) -> (
    Seq<char>,
    WhitesState,
) {
    |line: Seq<char>, st: WhitesState|
        if line_key(line) == "whites"@ {
            (line + seq!['\n'], WhitesState { in_whites: true, indent: indent_of(line), added: st.added })
        } else if st.in_whites {
            if starts_with(trim_start(line), "-"@) {
                (line + seq!['\n'], st)
            } else if !st.added {
                (
                    white_entry(st.indent, path) + line + seq!['\n'],
                    WhitesState { in_whites: false, indent: st.indent, added: true },
                )
            } else {
                (line + seq!['\n'], WhitesState { in_whites: false, indent: st.indent, added: st.added })
            }
        } else {
            (line + seq!['\n'], st)
        }
}

/// What `append_whitelist` returns: the text unchanged when it holds the path;
/// else the path as a new entry of the first `whites:` list (after its last
/// entry, also when the list ends the text); else, under `security:`, a new
/// `ignore.whites` list holding it; else the lines as they were.
pub open spec fn whitelisted(yaml: Seq<char>, path: Seq<char>) -> Seq<char> {
    let init = WhitesState { in_whites: false, indent: 0, added: false };
    let ls = lines(yaml);
    let out0 = fold_lines(ls, init, whites_step(path));
    let end = fold_state(ls, init, whites_step(path));
    let out = if end.in_whites && !end.added {
        out0 + white_entry(end.indent, path)
    } else {
        out0
    };
    if contains(yaml, path) {
        yaml
    } else if !end.added && !end.in_whites && contains(yaml, "security:"@) {
        with_final_nl(yaml) + "  ignore:\n    whites:\n"@ + "      - "@ + path + seq!['\n']
    } else {
        match_final_nl(yaml, out)
    }
}

fn push_white_entry(out: &mut Vec<char>, indent: usize, path: &Vec<char>)
    ensures
        final(out)@ == old(out)@ + white_entry(indent as int, path@),
{
    push_spaces(out, indent);
    push_spaces(out, 2);
    proof {
        lemma_spaces_add(indent as nat, 2);
    }
    extend_str(out, "- ");
    extend_chars(out, path);
    out.push('\n');
    assert(final(out)@ =~= old(out)@ + white_entry(indent as int, path@));
}

/// Adds `path` to `security.ignore.whites` (idempotent).
pub fn append_whitelist(yaml: &str, path: &str) -> (r: String)
    ensures
        r@ == whitelisted(yaml@, path@),
{
    let s = chars_of(yaml);
    let p = chars_of(path);
    if contains_str(&s, path) {
        return String::from_str(yaml);
    }
    let ls = lines_of(&s);
    let ghost step = whites_step(path@);
    let ghost init = WhitesState { in_whites: false, indent: 0, added: false };
    let mut out: Vec<char> = Vec::new();
    let mut in_whites = false;
    let mut whites_indent: usize = 0;
    let mut added = false;
    let mut i: usize = 0;
    assert(lines(yaml@).skip(0) =~= lines(yaml@));
    while i < ls.len()
        invariant
            i <= ls.len(),
            vviews(ls@) == lines(yaml@),
            p@ == path@,
            step == whites_step(path@),
            out@ + fold_lines(
                lines(yaml@).skip(i as int),
                WhitesState { in_whites, indent: whites_indent as int, added },
                step,
            ) == fold_lines(lines(yaml@), init, step),
            fold_state(
                lines(yaml@).skip(i as int),
                WhitesState { in_whites, indent: whites_indent as int, added },
                step,
            ) == fold_state(lines(yaml@), init, step),
        decreases ls.len() - i,
    {
        let ghost st = WhitesState { in_whites, indent: whites_indent as int, added };
        proof {
            lemma_fold_step(lines(yaml@), i as int, st, step);
        }
        let line = &ls[i];
        assert(line@ == lines(yaml@)[i as int]);
        let ghost before = out@;
        let key = line_key_exec(line);
        if eq_str(&key, "whites") {
            in_whites = true;
            whites_indent = indent_width(line);
            extend_chars(&mut out, line);
            out.push('\n');
        } else if in_whites {
            let t = trim_start_chars(line);
            if starts_with_str(&t, "-") {
                extend_chars(&mut out, line);
                out.push('\n');
            } else {
                if !added {
                    push_white_entry(&mut out, whites_indent, &p);
                    added = true;
                }
                in_whites = false;
                extend_chars(&mut out, line);
                out.push('\n');
            }
        } else {
            extend_chars(&mut out, line);
            out.push('\n');
        }
        assert(out@ + fold_lines(
            lines(yaml@).skip(i + 1),
            WhitesState { in_whites, indent: whites_indent as int, added },
            step,
        ) =~= before + fold_lines(lines(yaml@).skip(i as int), st, step));
        i = i + 1;
    }
    proof {
        lemma_fold_end(lines(yaml@), WhitesState { in_whites, indent: whites_indent as int, added }, step);
    }
    if in_whites && !added {
        push_white_entry(&mut out, whites_indent, &p);
        added = true;
    }
    if !added {
        if contains_str(&s, "security:") {
            let mut r = s;
            ensure_final_nl(&mut r);
            extend_str(&mut r, "  ignore:\n    whites:\n");
            extend_str(&mut r, "      - ");
            extend_chars(&mut r, &p);
            r.push('\n');
            return string_of(&r);
        }
    }
    fix_final_nl(&s, &mut out);
    string_of(&out)
}

// ---------------------------------------------------------------------------
// data_id matching (independent of the project prefix)
// ---------------------------------------------------------------------------

/// `^[a-zA-Z0-9_.-]+-{service}-(dev|prod|test)\.ya?ml$`.
pub open spec fn service_pattern(service: Seq<char>) -> Seq<char> {
    "^[a-zA-Z0-9_.-]+-"@ + service + "-(dev|prod|test)\\.ya?ml$"@
}

/// The lowercased data_id is `{any}-{service}-{profile}.yml` (per the pattern above).
pub open spec fn matches_profile(data_id: Seq<char>, service: Seq<char>) -> bool {
    regex_match(service_pattern(service), lower(data_id)) == Some(true)
}

fn matches_service_profile(data_id: &Vec<char>, service: &Vec<char>) -> (r: bool)
    ensures
        r == matches_profile(data_id@, service@),
{
    let n = lower_chars(data_id);
    let mut pat: Vec<char> = Vec::new();
    extend_str(&mut pat, "^[a-zA-Z0-9_.-]+-");
    extend_chars(&mut pat, service);
    extend_str(&mut pat, "-(dev|prod|test)\\.ya?ml$");
    let pattern = string_of(&pat);
    let text = string_of(&n);
    match regex_is_match(pattern.as_str(), text.as_str()) {
        Some(b) => b,
        None => false,
    }
}

/// `{any}-gateway-{profile}.yml`.
pub fn is_gateway_yml(data_id: &str) -> (r: bool)
    ensures
        r == matches_profile(data_id@, "gateway"@),
{
    matches_service_profile(&chars_of(data_id), &chars_of("gateway"))
}

/// `{any}-system-{profile}.yml`.
pub fn is_system_yml(data_id: &str) -> (r: bool)
    ensures
        r == matches_profile(data_id@, "system"@),
{
    matches_service_profile(&chars_of(data_id), &chars_of("system"))
}

/// `application-*.yml` / `application-*.yaml` (case-insensitive).
pub fn is_application_yml(data_id: &str) -> (r: bool)
    ensures
        r == (starts_with(lower(data_id@), "application-"@) && (ends_with(lower(data_id@), ".yml"@)
            || ends_with(lower(data_id@), ".yaml"@))),
{
    let n = lower_chars(&chars_of(data_id));
    starts_with_str(&n, "application-") && (ends_with_str(&n, ".yml") || ends_with_str(&n, ".yaml"))
}

/// `sentinel-*` naming a gateway (case-insensitive).
pub fn is_sentinel_gateway(data_id: &str) -> (r: bool)
    ensures
        r == (starts_with(lower(data_id@), "sentinel-"@) && contains(lower(data_id@), "gateway"@)),
{
    let n = lower_chars(&chars_of(data_id));
    starts_with_str(&n, "sentinel-") && contains_str(&n, "gateway")
}

/// A removed module key drops this data_id.
pub open spec fn drops_for_key(data_id: Seq<char>, key: Seq<char>) -> bool {
    if key == "monitor"@ {
        contains(lower(data_id), "-monitor-"@) || contains(lower(data_id), "ruoyi-monitor"@)
    } else {
        matches_profile(lower(data_id), key)
    }
}

/// Whether the configuration `data_id` belongs to one of the removed modules `keys`.
pub fn should_drop_data_id(data_id: &str, keys: &[String]) -> (r: bool)
    ensures
        r == exists|k: int| 0 <= k < keys.len() && drops_for_key(data_id@, #[trigger] keys@[k]@),
{
    let n = lower_chars(&chars_of(data_id));
    proof {
        assert(lower(lower(data_id@)) =~= lower(data_id@));
    }
    let mut i: usize = 0;
    while i < keys.len()
        invariant
            i <= keys.len(),
            n@ == lower(data_id@),
            lower(n@) == n@,
            forall|k: int| 0 <= k < i ==> !drops_for_key(data_id@, #[trigger] keys@[k]@),
        decreases keys.len() - i,
    {
        let k = chars_of(keys[i].as_str());
        if eq_str(&k, "monitor") {
            if contains_str(&n, "-monitor-") || contains_str(&n, "ruoyi-monitor") {
                return true;
            }
        } else if matches_service_profile(&n, &k) {
            return true;
        }
        i = i + 1;
    }
    false
}

// ---------------------------------------------------------------------------
// Gateway routes
// ---------------------------------------------------------------------------

/// Route ids whose routes are dropped for a removed module key.
pub open spec fn drop_ids_of(key: Seq<char>) -> Seq<Seq<char>> {
    if key == "gen"@ {
        seq!["gen"@, "code"@]
    } else if key == "job"@ {
        seq!["job"@, "schedule"@]
    } else {
        seq![key]
    }
}

/// Route paths whose routes are dropped for a removed module key.
pub open spec fn drop_paths_of(key: Seq<char>) -> Seq<Seq<char>> {
    if key == "gen"@ {
        seq!["/code/**"@]
    } else if key == "job"@ {
        seq!["/schedule/**"@]
    } else if key == "file"@ {
        seq!["/file/**"@]
    } else if key == "monitor"@ {
        seq!["/monitor/**"@]
    } else {
        Seq::empty()
    }
}

/// A route item (`- id:` …) starts on this line.
pub open spec fn opens_route(line: Seq<char>) -> bool {
    starts_with(trim_start(line), "- id:"@) || starts_with(trim_start(line), "-id:"@)
}

/// The line ends a route item opened at indentation `ind`.
pub open spec fn ends_route(line: Seq<char>, ind: int) -> bool {
    let t = trim_start(line);
    (starts_with(t, "- id:"@) && indent_of(line) <= ind) || (t.len() > 0 && !starts_with(t, "#"@)
        && indent_of(line) <= ind && !starts_with(t, "-"@))
}

/// Index of the first line at or after `j` that ends the route item.
pub open spec fn route_end(ls: Seq<Seq<char>>, j: int, ind: int) -> int
    decreases ls.len() - j,
{
    if j < 0 || j >= ls.len() {
        j
    } else if ends_route(ls[j], ind) {
        j
    } else {
        route_end(ls, j + 1, ind)
    }
}

pub proof fn lemma_route_end_bounds(ls: Seq<Seq<char>>, j: int, ind: int)
    requires
        0 <= j <= ls.len(),
    ensures
        j <= route_end(ls, j, ind) <= ls.len(),
    decreases ls.len() - j,
{
    if j < ls.len() && !ends_route(ls[j], ind) {
        lemma_route_end_bounds(ls, j + 1, ind);
    }
}

/// The route text is dropped for the keys.
pub open spec fn route_dropped(text: Seq<char>, keys: Seq<Seq<char>>) -> bool {
    (exists|k: int, m: int|
        0 <= k < keys.len() && 0 <= m < drop_ids_of(keys[k]).len() && contains(text, "id: "@)
            && contains(lower(text), #[trigger] drop_ids_of(keys[k])[m])) || (exists|k: int, m: int|
        0 <= k < keys.len() && 0 <= m < drop_paths_of(keys[k]).len() && contains(
            text,
            #[trigger] drop_paths_of(keys[k])[m],
        ))
}

/// Lines kept from line `i` on.
pub open spec fn kept_route_lines(ls: Seq<Seq<char>>, i: int, keys: Seq<Seq<char>>) -> Seq<
    Seq<char>,
>
    decreases ls.len() - i,
{
    if i < 0 || i >= ls.len() {
        Seq::empty()
    } else if opens_route(ls[i]) {
        let e = route_end(ls, i + 1, indent_of(ls[i]));
        proof {
            lemma_route_end_bounds(ls, i + 1, indent_of(ls[i]));
        }
        let block = ls.subrange(i, e);
        if route_dropped(join(block, "\n"@), keys) {
            kept_route_lines(ls, e, keys)
        } else {
            block + kept_route_lines(ls, e, keys)
        }
    } else {
        seq![ls[i]] + kept_route_lines(ls, i + 1, keys)
    }
}

/// What `remove_gateway_routes` returns.
pub open spec fn routes_removed(yaml: Seq<char>, keys: Seq<Seq<char>>) -> Seq<char> {
    let s = join(kept_route_lines(lines(yaml), 0, keys), "\n"@);
    if ends_with(yaml, "\n"@) && !ends_with(s, "\n"@) {
        s.push('\n')
    } else {
        s
    }
}

#[verifier::loop_isolation(false)]
fn route_dropped_exec(text: &Vec<char>, keys: &[String]) -> (r: bool)
    ensures
        r == route_dropped(text@, strings_model(keys@)),
{
    let low = lower_chars(text);
    let has_id = contains_str(text, "id: ");
    let mut k: usize = 0;
    while k < keys.len()
        invariant
            k <= keys.len(),
            low@ == lower(text@),
            has_id == contains(text@, "id: "@),
            forall|a: int, m: int|
                0 <= a < k && 0 <= m < drop_ids_of(keys@[a]@).len() ==> !(has_id && contains(
                    low@,
                    #[trigger] drop_ids_of(keys@[a]@)[m],
                )),
            forall|a: int, m: int|
                0 <= a < k && 0 <= m < drop_paths_of(keys@[a]@).len() ==> !contains(
                    text@,
                    #[trigger] drop_paths_of(keys@[a]@)[m],
                ),
        decreases keys.len() - k,
    {
        let key = chars_of(keys[k].as_str());
        let (ids, paths) = drop_lists(&key);
        let mut m: usize = 0;
        while m < ids.len()
            invariant
                m <= ids.len(),
                vviews(ids@) == drop_ids_of(keys@[k as int]@),
                low@ == lower(text@),
                has_id == contains(text@, "id: "@),
                forall|x: int| 0 <= x < m ==> !(has_id && contains(low@, #[trigger] drop_ids_of(keys@[k as int]@)[x])),
            decreases ids.len() - m,
        {
            assert(ids@[m as int]@ == drop_ids_of(keys@[k as int]@)[m as int]);
            if has_id && find_from_exec(&low, &ids[m], 0).is_some() {
                assert(strings_model(keys@)[k as int] == keys@[k as int]@);
                return true;
            }
            m = m + 1;
        }
        let mut m: usize = 0;
        while m < paths.len()
            invariant
                m <= paths.len(),
                vviews(paths@) == drop_paths_of(keys@[k as int]@),
                forall|x: int| 0 <= x < m ==> !contains(text@, #[trigger] drop_paths_of(keys@[k as int]@)[x]),
            decreases paths.len() - m,
        {
            assert(paths@[m as int]@ == drop_paths_of(keys@[k as int]@)[m as int]);
            if find_from_exec(text, &paths[m], 0).is_some() {
                assert(strings_model(keys@)[k as int] == keys@[k as int]@);
                return true;
            }
            m = m + 1;
        }
        k = k + 1;
    }
    assert forall|a: int| 0 <= a < keys.len() implies #[trigger] strings_model(keys@)[a] == keys@[a]@ by {}
    false
}

/// The contents of a slice of strings.
pub open spec fn strings_model(v: Seq<String>) -> Seq<Seq<char>> {
    v.map_values(|s: String| s@)
}

fn one(s: &str) -> (r: Vec<Vec<char>>)
    ensures
        vviews(r@) == seq![s@],
{
    let mut r: Vec<Vec<char>> = Vec::new();
    r.push(chars_of(s));
    assert(vviews(r@) =~= seq![s@]);
    r
}

fn drop_lists(key: &Vec<char>) -> (r: (Vec<Vec<char>>, Vec<Vec<char>>))
    ensures
        vviews(r.0@) == drop_ids_of(key@),
        vviews(r.1@) == drop_paths_of(key@),
{
    if eq_str(key, "gen") {
        let mut ids = one("gen");
        let c = chars_of("code");
        let ghost pb = ids@;
        ids.push(c);
        assert(ids@ =~= pb.push(c));
        assert(vviews(ids@) =~= vviews(pb).push(c@));
        assert(vviews(ids@) =~= seq!["gen"@, "code"@]);
        (ids, one("/code/**"))
    } else if eq_str(key, "job") {
        let mut ids = one("job");
        let c = chars_of("schedule");
        let ghost pb = ids@;
        ids.push(c);
        assert(ids@ =~= pb.push(c));
        assert(vviews(ids@) =~= vviews(pb).push(c@));
        assert(vviews(ids@) =~= seq!["job"@, "schedule"@]);
        (ids, one("/schedule/**"))
    } else {
        let mut ids: Vec<Vec<char>> = Vec::new();
        ids.push(copy_vec(key));
        assert(vviews(ids@) =~= seq![key@]);
        if eq_str(key, "file") {
            (ids, one("/file/**"))
        } else if eq_str(key, "monitor") {
            (ids, one("/monitor/**"))
        } else {
            let e: Vec<Vec<char>> = Vec::new();
            assert(vviews(e@) =~= Seq::<Seq<char>>::empty());
            (ids, e)
        }
    }
}

fn copy_vec(v: &Vec<char>) -> (r: Vec<char>)
    ensures
        r@ == v@,
{
    slice_chars(v, 0, v.len())
}

fn opens_route_exec(line: &Vec<char>) -> (r: bool)
    ensures
        r == opens_route(line@),
{
    let t = trim_start_chars(line);
    starts_with_str(&t, "- id:") || starts_with_str(&t, "-id:")
}

fn ends_route_exec(line: &Vec<char>, ind: usize) -> (r: bool)
    ensures
        r == ends_route(line@, ind as int),
{
    let t = trim_start_chars(line);
    let ni = indent_width(line);
    (starts_with_str(&t, "- id:") && ni <= ind) || (t.len() > 0 && !starts_with_str(&t, "#") && ni
        <= ind && !starts_with_str(&t, "-"))
}

/// Lines joined by `\n`.
fn join_lines_exec(ls: &Vec<Vec<char>>) -> (r: Vec<char>)
    ensures
        r@ == join(vviews(ls@), "\n"@),
{
    let mut r: Vec<char> = Vec::new();
    push_joined(&mut r, ls, "\n");
    assert(r@ =~= join(vviews(ls@), "\n"@));
    r
}

/// Removes the gateway routes of the removed modules (both `spring.cloud.gateway.routes`
/// and `spring.cloud.gateway.server.webflux.routes` layouts).
pub fn remove_gateway_routes(yaml: &str, keys: &[String]) -> (r: String)
    ensures
        r@ == routes_removed(yaml@, strings_model(keys@)),
{
    let s = chars_of(yaml);
    let ls = lines_of(&s);
    let ghost lsm = lines(yaml@);
    let ghost km = strings_model(keys@);
    let mut out: Vec<Vec<char>> = Vec::new();
    let mut i: usize = 0;
    assert(vviews(out@) =~= Seq::<Seq<char>>::empty());
    while i < ls.len()
        invariant
            i <= ls.len(),
            vviews(ls@) == lsm,
            km == strings_model(keys@),
            vviews(out@) + kept_route_lines(lsm, i as int, km) == kept_route_lines(lsm, 0, km),
        decreases ls.len() - i,
    {
        let line = &ls[i];
        assert(line@ == lsm[i as int]);
        let ghost before = vviews(out@);
        if opens_route_exec(line) {
            let item_indent = indent_width(line);
            let mut block: Vec<Vec<char>> = Vec::new();
            block.push(copy_vec(line));
            let mut j = i + 1;
            proof {
                lemma_route_end_bounds(lsm, i + 1, item_indent as int);
            }
            let mut stop = false;
            assert(vviews(block@) =~= lsm.subrange(i as int, i + 1));
            while j < ls.len() && !stop
                invariant
                    i < j <= ls.len(),
                    vviews(ls@) == lsm,
                    route_end(lsm, i + 1, item_indent as int) == route_end(lsm, j as int, item_indent as int),
                    vviews(block@) == lsm.subrange(i as int, j as int),
                    stop ==> j < ls.len() && ends_route(lsm[j as int], item_indent as int),
                decreases ls.len() - j, if stop { 0int } else { 1int },
            {
                assert(ls@[j as int]@ == lsm[j as int]);
                if ends_route_exec(&ls[j], item_indent) {
                    stop = true;
                } else {
                    let ghost pb = block@;
                    let cj = copy_vec(&ls[j]);
                    block.push(cj);
                    assert(block@ =~= pb.push(cj));
                    assert(vviews(block@) =~= vviews(pb).push(cj@));
                    assert(vviews(block@) =~= lsm.subrange(i as int, j + 1));
                    j = j + 1;
                }
            }
            let ghost e = j as int;
            assert(e == route_end(lsm, i + 1, item_indent as int));
            let text = join_lines_exec(&block);
            if !route_dropped_exec(&text, keys) {
                let ghost po = vviews(out@);
                out.append(&mut block);
                assert(vviews(out@) =~= po + lsm.subrange(i as int, e));
            }
            assert(vviews(out@) + kept_route_lines(lsm, e, km) =~= before + kept_route_lines(
                lsm,
                i as int,
                km,
            ));
            i = j;
        } else {
            let ghost po = out@;
            out.push(copy_vec(line));
            assert(out@ =~= po.push(out@.last()));
            assert(vviews(out@) =~= before.push(line@));
            assert(vviews(out@) + kept_route_lines(lsm, i + 1, km) =~= before + kept_route_lines(
                lsm,
                i as int,
                km,
            ));
            i = i + 1;
        }
    }
    assert(vviews(out@) + Seq::<Seq<char>>::empty() =~= vviews(out@));
    let mut res = join_lines_exec(&out);
    if ends_with_str(&s, "\n") && !ends_with_str(&res, "\n") {
        res.push('\n');
    }
    string_of(&res)
}

/// Sentinel resources of a removed module.
pub open spec fn sentinel_paths_of(key: Seq<char>) -> Seq<Seq<char>> {
    if key == "gen"@ {
        seq!["/code/**"@]
    } else if key == "job"@ {
        seq!["/schedule/**"@]
    } else if key == "file"@ {
        seq!["/file/**"@]
    } else if key == "monitor"@ {
        seq!["/monitor/**"@]
    } else {
        Seq::empty()
    }
}

/// Sentinel resources of all removed modules.
pub open spec fn sentinel_paths(keys: Seq<Seq<char>>) -> Seq<Seq<char>>
    decreases keys.len(),
{
    if keys.len() == 0 {
        Seq::empty()
    } else {
        sentinel_paths(keys.drop_last()) + sentinel_paths_of(keys.last())
    }
}

/// Texts of the array elements whose resource is not dropped (a missing
/// resource counts as the empty string).
pub open spec fn kept_elements(items: Seq<(Option<Seq<char>>, Seq<char>)>, drops: Seq<Seq<char>>) -> Seq<Seq<char>>
    decreases items.len(),
{
    if items.len() == 0 {
        Seq::empty()
    } else {
        let p = kept_elements(items.drop_last(), drops);
        let res = match items.last().0 {
            Some(r) => r,
            None => Seq::empty(),
        };
        if drops.contains(res) {
            p
        } else {
            p.push(items.last().1)
        }
    }
}

/// A Sentinel rule list (JSON array) without the rules of removed modules,
/// written compactly; any other content is left as it is.
pub open spec fn sentinel_removed(content: Seq<char>, keys: Seq<Seq<char>>) -> Seq<char> {
    let t = crate::text::trim(content);
    if !(t.len() > 0 && t[0] == '[') {
        content
    } else {
        match crate::ext_calls::json_array_items_of(t) {
            None => content,
            Some(items) => "["@ + join(kept_elements(items, sentinel_paths(keys)), ","@) + "]"@,
        }
    }
}

fn push_sentinel_paths(out: &mut Vec<Vec<char>>, key: &str)
    ensures
        vviews(final(out)@) == vviews(old(out)@) + sentinel_paths_of(key@),
{
    let k = chars_of(key);
    let ghost o = vviews(out@);
    let p: &str = if eq_str(&k, "gen") {
        "/code/**"
    } else if eq_str(&k, "job") {
        "/schedule/**"
    } else if eq_str(&k, "file") {
        "/file/**"
    } else if eq_str(&k, "monitor") {
        "/monitor/**"
    } else {
        assert(sentinel_paths_of(key@) =~= Seq::<Seq<char>>::empty());
        assert(vviews(out@) =~= o + sentinel_paths_of(key@));
        return;
    };
    out.push(chars_of(p));
    assert(vviews(out@) =~= o + sentinel_paths_of(key@));
}

/// Removes from a Sentinel gateway rule list the rules of the removed modules.
pub fn remove_sentinel_resources(content: &str, keys: &[String]) -> (r: String)
    ensures
        r@ == sentinel_removed(content@, strings_model(keys@)),
{
    let t = crate::text::trim_chars(&chars_of(content));
    if !(t.len() > 0 && t[0] == '[') {
        return String::from_str(content);
    }
    let ts = string_of(&t);
    let items = match crate::ext_calls::json_array_items(ts.as_str()) {
        Some(v) => v,
        None => {
            return String::from_str(content);
        },
    };
    let ghost km = strings_model(keys@);
    let mut drops: Vec<Vec<char>> = Vec::new();
    let mut i: usize = 0;
    while i < keys.len()
        invariant
            i <= keys.len(),
            km == strings_model(keys@),
            vviews(drops@) == sentinel_paths(km.take(i as int)),
        decreases keys.len() - i,
    {
        assert(km.take(i + 1).drop_last() =~= km.take(i as int));
        assert(km.take(i + 1).last() == keys@[i as int]@);
        push_sentinel_paths(&mut drops, keys[i].as_str());
        i = i + 1;
    }
    assert(km.take(i as int) =~= km);
    let ghost iv = crate::ext_calls::item_views(items@);
    let mut kept: Vec<Vec<char>> = Vec::new();
    let mut j: usize = 0;
    while j < items.len()
        invariant
            j <= items.len(),
            iv == crate::ext_calls::item_views(items@),
            vviews(kept@) == kept_elements(iv.take(j as int), vviews(drops@)),
        decreases items.len() - j,
    {
        assert(iv.take(j + 1).drop_last() =~= iv.take(j as int));
        assert(iv.take(j + 1).last() == iv[j as int]);
        let res: Vec<char> = match &items[j].0 {
            Some(r) => chars_of(r.as_str()),
            None => Vec::new(),
        };
        assert(res@ == (match iv[j as int].0 {
            Some(r) => r,
            None => Seq::<char>::empty(),
        }));
        let mut found = false;
        let mut k: usize = 0;
        while k < drops.len()
            invariant
                k <= drops.len(),
                !found ==> forall|m: int| 0 <= m < k ==> drops@[m]@ != res@,
                found ==> vviews(drops@).contains(res@),
            decreases drops.len() - k,
        {
            if crate::text::chars_eq(&drops[k], &res) {
                found = true;
                assert(vviews(drops@)[k as int] == res@);
            }
            k = k + 1;
        }
        if !found {
            assert(!vviews(drops@).contains(res@)) by {
                if vviews(drops@).contains(res@) {
                    let m = choose|m: int| 0 <= m < vviews(drops@).len() && vviews(drops@)[m] == res@;
                    assert(drops@[m]@ == res@);
                }
            }
            let ghost before = vviews(kept@);
            kept.push(chars_of(items[j].1.as_str()));
            assert(vviews(kept@) =~= before.push(iv[j as int].1));
        }
        j = j + 1;
    }
    assert(iv.take(j as int) =~= iv);
    let mut out: Vec<char> = Vec::new();
    extend_str(&mut out, "[");
    push_joined(&mut out, &kept, ",");
    extend_str(&mut out, "]");
    string_of(&out)
}

/// Official listening port of a Cloud module (used only to recognise hard-coded
/// public URLs).
pub open spec fn official_port(suffix: Seq<char>) -> Option<i32> {
    if suffix == "gateway"@ {
        Some(8080)
    } else if suffix == "auth"@ {
        Some(9200)
    } else if suffix == "system"@ {
        Some(9201)
    } else if suffix == "gen"@ {
        Some(9202)
    } else if suffix == "job"@ {
        Some(9203)
    } else if suffix == "file"@ {
        Some(9300)
    } else if suffix == "monitor"@ {
        Some(9100)
    } else {
        None
    }
}

/// The official listening port of a Cloud module; `None` for other names.
pub fn official_module_listen_port(suffix: &str) -> (r: Option<i32>)
    ensures
        r == official_port(suffix@),
{
    let s = chars_of(suffix);
    if eq_str(&s, "gateway") {
        Some(8080)
    } else if eq_str(&s, "auth") {
        Some(9200)
    } else if eq_str(&s, "system") {
        Some(9201)
    } else if eq_str(&s, "gen") {
        Some(9202)
    } else if eq_str(&s, "job") {
        Some(9203)
    } else if eq_str(&s, "file") {
        Some(9300)
    } else if eq_str(&s, "monitor") {
        Some(9100)
    } else {
        None
    }
}

/// Decimal text of a signed number (`i32::to_string`).
pub open spec fn int_text(n: int) -> Seq<char> {
    if n < 0 {
        seq!['-'] + crate::text::decimal((-n) as nat)
    } else {
        crate::text::decimal(n as nat)
    }
}

pub(crate) fn push_int(v: &mut Vec<char>, n: i32)
    ensures
        final(v)@ == old(v)@ + int_text(n as int),
{
    if n < 0 {
        v.push('-');
        let m: i64 = -(n as i64);
        let ghost mid = v@;
        crate::text::push_decimal(v, m as u64);
        assert(v@ =~= old(v)@ + int_text(n as int));
    } else {
        crate::text::push_decimal(v, n as u64);
    }
}

/// Line step of `rewrite_springdoc_gateway_url`.
pub open spec fn gateway_url_step(to: Seq<char>) -> spec_fn(Seq<char>, ()) -> (Seq<char>, ()) {
    |line: Seq<char>, st: ()|
        (
            if line_key(line) == "gatewayUrl"@ {
                crate::placeholders::str_replace(
                    crate::placeholders::str_replace(line, "http://localhost:8080"@, to),
                    "http://127.0.0.1:8080"@,
                    to,
                )
            } else {
                line
            } + seq!['\n'],
            (),
        )
}

/// Points the `gatewayUrl:` lines from the official `localhost:8080` /
/// `127.0.0.1:8080` gateway to `http://127.0.0.1:{gateway_port}`; nothing else changes.
pub fn rewrite_springdoc_gateway_url(yaml: &str, gateway_port: i32) -> (r: String)
    ensures
        r@ == match_final_nl(
            yaml@,
            fold_lines(lines(yaml@), (), gateway_url_step("http://127.0.0.1:"@ + int_text(gateway_port as int))),
        ),
{
    let mut to: Vec<char> = Vec::new();
    extend_str(&mut to, "http://127.0.0.1:");
    push_int(&mut to, gateway_port);
    let s = chars_of(yaml);
    let ls = lines_of(&s);
    let ghost step = gateway_url_step(to@);
    let from1 = chars_of("http://localhost:8080");
    let from2 = chars_of("http://127.0.0.1:8080");
    let mut out: Vec<char> = Vec::new();
    let mut i: usize = 0;
    assert(lines(yaml@).skip(0) =~= lines(yaml@));
    while i < ls.len()
        invariant
            i <= ls.len(),
            vviews(ls@) == lines(yaml@),
            step == gateway_url_step(to@),
            from1@ == "http://localhost:8080"@,
            from2@ == "http://127.0.0.1:8080"@,
            out@ + fold_lines(lines(yaml@).skip(i as int), (), step) == fold_lines(lines(yaml@), (), step),
        decreases ls.len() - i,
    {
        proof {
            lemma_fold_step(lines(yaml@), i as int, (), step);
        }
        let line = &ls[i];
        assert(line@ == lines(yaml@)[i as int]);
        let ghost before = out@;
        if eq_str(&line_key_exec(line), "gatewayUrl") {
            let a = crate::placeholders::str_replace_chars(line, &from1, &to);
            let b = crate::placeholders::str_replace_chars(&a, &from2, &to);
            extend_chars(&mut out, &b);
        } else {
            extend_chars(&mut out, line);
        }
        out.push('\n');
        assert(out@ =~= before + step(line@, ()).0);
        i = i + 1;
    }
    proof {
        lemma_fold_end(lines(yaml@), (), step);
    }
    fix_final_nl(&s, &mut out);
    string_of(&out)
}

/// State of the datasource credential scan: inside `datasource:`, its indent,
/// and the keys seen (url, username, password).
pub struct CredState {
    pub in_ds: bool,
    pub ds_indent: int,
    pub url: bool,
    pub user: bool,
    pub pass: bool,
}

/// One line of the credential scan.
pub open spec fn cred_step(st: CredState, line: Seq<char>) -> CredState {
    let key = line_key(line);
    let t = trim_start(line);
    if key == "datasource"@ {
        CredState { in_ds: true, ds_indent: indent_of(line), ..st }
    } else {
        let in_ds = st.in_ds && !(t.len() > 0 && t[0] != '#' && indent_of(line) <= st.ds_indent);
        if in_ds {
            CredState {
                in_ds,
                ds_indent: st.ds_indent,
                url: st.url || key == "url"@,
                user: st.user || key == "username"@,
                pass: st.pass || key == "password"@,
            }
        } else {
            CredState { in_ds, ..st }
        }
    }
}

/// The credential scan over lines.
pub open spec fn cred_scan(ls: Seq<Seq<char>>) -> CredState
    decreases ls.len(),
{
    if ls.len() == 0 {
        CredState { in_ds: false, ds_indent: 0, url: false, user: false, pass: false }
    } else {
        cred_step(cred_scan(ls.drop_last()), ls.last())
    }
}

/// Whether the `datasource:` scopes of the YAML hold `url`, `username` and
/// `password` keys.
pub fn scan_datasource_cred_keys(yaml: &str) -> (r: (bool, bool, bool))
    ensures
        ({
            let st = cred_scan(lines(yaml@));
            r == (st.url, st.user, st.pass)
        }),
{
    let ls = lines_of(&chars_of(yaml));
    let ghost lv = vviews(ls@);
    let mut in_ds = false;
    let mut ds_indent: usize = 0;
    let mut url = false;
    let mut user = false;
    let mut pass = false;
    let mut i: usize = 0;
    assert(lv.take(0) =~= Seq::<Seq<char>>::empty());
    while i < ls.len()
        invariant
            i <= ls.len(),
            lv == vviews(ls@),
            lv == lines(yaml@),
            cred_scan(lv.take(i as int)) == (CredState { in_ds, ds_indent: ds_indent as int, url, user, pass }),
        decreases ls.len() - i,
    {
        let line = &ls[i];
        assert(lv.take(i + 1).drop_last() =~= lv.take(i as int));
        assert(lv.take(i + 1).last() == line@);
        let key = line_key_exec(line);
        let t = trim_start_chars(line);
        if eq_str(&key, "datasource") {
            in_ds = true;
            ds_indent = indent_width(line);
        } else {
            if in_ds && t.len() > 0 && t[0] != '#' && indent_width(line) <= ds_indent {
                in_ds = false;
            }
            if in_ds {
                if eq_str(&key, "url") {
                    url = true;
                }
                if eq_str(&key, "username") {
                    user = true;
                }
                if eq_str(&key, "password") {
                    pass = true;
                }
            }
        }
        i = i + 1;
    }
    assert(lv.take(i as int) =~= lv);
    (url, user, pass)
}

/// Database name of a `jdbc:mysql://` URL: the text after the last `/` before `?`.
pub open spec fn jdbc_db_name(url: Seq<char>) -> Seq<char> {
    let after = strip_all_prefix(url, "jdbc:mysql://"@);
    let path = crate::text::before_char(after, '?');
    crate::nacos_sql::split_char(path, '/').last()
}

/// `s.trim_start_matches(p)`: every leading copy of a non-empty `p` removed.
pub open spec fn strip_all_prefix(s: Seq<char>, p: Seq<char>) -> Seq<char>
    decreases s.len(),
{
    if p.len() > 0 && starts_with(s, p) {
        strip_all_prefix(s.skip(p.len() as int), p)
    } else {
        s
    }
}

pub(crate) fn strip_all_prefix_exec(s: &Vec<char>, p: &str) -> (r: Vec<char>)
    ensures
        r@ == strip_all_prefix(s@, p@),
{
    let pv = chars_of(p);
    let mut i: usize = 0;
    assert(s@.skip(0) =~= s@);
    while i < s.len() && pv.len() > 0 && matches_at_exec(s, &pv, i)
        invariant
            i <= s.len(),
            pv@ == p@,
            strip_all_prefix(s@, p@) == strip_all_prefix(s@.skip(i as int), p@),
        decreases s.len() - i,
    {
        assert(s@.skip(i as int).take(pv@.len() as int) =~= s@.subrange(i as int, i + pv@.len()));
        assert(s@.skip(i as int).skip(pv@.len() as int) =~= s@.skip(i + pv@.len()));
        i = i + pv.len();
    }
    proof {
        if i < s.len() && pv.len() > 0 {
            if starts_with(s@.skip(i as int), p@) {
                assert(s@.skip(i as int).take(pv@.len() as int) =~= s@.subrange(i as int, i + pv@.len()));
            }
        }
        if i == s.len() {
            assert(s@.skip(i as int) =~= Seq::<char>::empty());
        }
    }
    slice_chars(s, i, s.len())
}

/// The database name of a `jdbc:mysql://` URL.
pub fn jdbc_mysql_db_name(url: &str) -> (r: String)
    ensures
        r@ == jdbc_db_name(url@),
{
    let after = strip_all_prefix_exec(&chars_of(url), "jdbc:mysql://");
    let path = crate::text::before_char_exec(&after, '?');
    let parts = crate::new_module::split_on(&path, '/');
    proof {
        lemma_split_len(path@, '/');
    }
    let k = parts.len() - 1;
    assert(vviews(parts@)[k as int] == parts@[k as int]@);
    string_of(&parts[k])
}

proof fn lemma_split_len(s: Seq<char>, c: char)
    ensures
        crate::nacos_sql::split_char(s, c).len() >= 1,
{
}

/// A business database URL: its database is `ry-cloud`, `ry_cloud` or the given one.
pub open spec fn jdbc_db_is_business(url: Seq<char>, biz_db: Seq<char>) -> bool {
    let name = jdbc_db_name(url);
    name == "ry-cloud"@ || name == "ry_cloud"@ || (biz_db.len() > 0 && name == biz_db)
}

/// Whether a `jdbc:mysql://` URL points at the business database.
pub fn jdbc_mysql_db_is_business(url: &str, biz_db: &str) -> (r: bool)
    ensures
        r == jdbc_db_is_business(url@, biz_db@),
{
    let name = chars_of(jdbc_mysql_db_name(url).as_str());
    eq_str(&name, "ry-cloud") || eq_str(&name, "ry_cloud") || (biz_db.unicode_len() > 0
        && crate::text::chars_eq(&name, &chars_of(biz_db)))
}

/// How each match of a regex is replaced.
pub enum MatchRule {
    /// `${1}{text}`: group 1, then the text.
    Group1Then(String),
    /// A business `jdbc:mysql://` URL pointed at `host:port/db` (query kept).
    Connection(String, u16, String),
    /// `{text}${1}`: the text, then group 1.
    ThenGroup1(String),
    /// `${1}{text}${2}`: the text between groups 1 and 2.
    Between(String),
    /// The match is removed.
    Drop,
    /// The match is replaced by the text.
    Literal(String),
    /// The match is replaced by the expansion of a replacement template
    /// (`$1`, `${1}`, `$$`, ...).
    Template(String),
}

/// The mathematical form of a rule.
pub enum MatchModel {
    Group1Then(Seq<char>),
    Connection(Seq<char>, u16, Seq<char>),
    ThenGroup1(Seq<char>),
    Between(Seq<char>),
    Drop,
    Literal(Seq<char>),
    Template(Seq<char>),
}

impl View for MatchRule {
    type V = MatchModel;

    open spec fn view(&self) -> MatchModel {
        match self {
            MatchRule::Group1Then(db) => MatchModel::Group1Then(db@),
            MatchRule::Connection(h, p, db) => MatchModel::Connection(h@, *p, db@),
            MatchRule::ThenGroup1(to) => MatchModel::ThenGroup1(to@),
            MatchRule::Between(t) => MatchModel::Between(t@),
            MatchRule::Drop => MatchModel::Drop,
            MatchRule::Literal(t) => MatchModel::Literal(t@),
            MatchRule::Template(t) => MatchModel::Template(t@),
        }
    }
}

/// Group `k + 1` as `${k+1}` inserts it (empty when it did not take part).
pub open spec fn group_text(gs: Seq<Option<Seq<char>>>, k: int) -> Seq<char> {
    if 0 <= k < gs.len() {
        match gs[k] {
            Some(x) => x,
            None => Seq::empty(),
        }
    } else {
        Seq::empty()
    }
}

/// `${k+1}` of a match, as text.
pub fn group_exec(gs: &Vec<Option<String>>, k: usize) -> (r: Vec<char>)
    ensures
        r@ == group_text(crate::ext_calls::group_views(gs@), k as int),
{
    if k < gs.len() {
        match &gs[k] {
            Some(x) => chars_of(x.as_str()),
            None => Vec::new(),
        }
    } else {
        Vec::new()
    }
}

/// The query part (`?...`) of a `jdbc:mysql://` URL, empty without one.
pub open spec fn jdbc_query(url: Seq<char>) -> Seq<char> {
    let after = strip_all_prefix(url, "jdbc:mysql://"@);
    match crate::text::index_of(after, '?') {
        Some(i) => after.skip(i),
        None => Seq::empty(),
    }
}

/// The replacement of one match.
pub open spec fn rule_text(rule: MatchModel, m: Seq<char>, g: Seq<Option<Seq<char>>>) -> Seq<char> {
    match rule {
        MatchModel::Group1Then(db) => group_text(g, 0) + db,
        MatchModel::Connection(host, port, db) => if jdbc_db_is_business(m, db) {
            "jdbc:mysql://"@ + host + ":"@ + crate::text::decimal(port as nat) + "/"@ + db + jdbc_query(m)
        } else {
            m
        },
        MatchModel::ThenGroup1(to) => to + group_text(g, 0),
        MatchModel::Between(t) => group_text(g, 0) + t + group_text(g, 1),
        MatchModel::Drop => Seq::empty(),
        MatchModel::Literal(t) => t,
        MatchModel::Template(t) => crate::regex_template::expand(t, m, g),
    }
}

/// The text with every match replaced by its rule text.
pub open spec fn pieces_replaced(
    ps: Seq<crate::ext_calls::PieceModel>,
    tail: Seq<char>,
    rule: MatchModel,
) -> Seq<char>
    decreases ps.len(),
{
    if ps.len() == 0 {
        tail
    } else {
        ps[0].0 + rule_text(rule, ps[0].1, ps[0].2) + pieces_replaced(ps.drop_first(), tail, rule)
    }
}

/// `Regex::replace_all` of `pattern` in `text` with the rule; the text itself when
/// the pattern does not compile.
pub open spec fn regex_replaced(pattern: Seq<char>, text: Seq<char>, rule: MatchModel) -> Seq<char> {
    match crate::ext_calls::regex_pieces_of(pattern, text) {
        Some((ps, tail)) => pieces_replaced(ps, tail, rule),
        None => text,
    }
}

fn rule_text_exec(rule: &MatchRule, m: &String, g: &Vec<Option<String>>) -> (r: Vec<char>)
    ensures
        r@ == rule_text(rule@, m@, crate::ext_calls::group_views(g@)),
{
    let mut out: Vec<char> = Vec::new();
    match rule {
        MatchRule::Group1Then(db) => {
            let g1 = group_exec(g, 0);
            extend_chars(&mut out, &g1);
            extend_str(&mut out, db.as_str());
        },
        MatchRule::Connection(host, port, db) => {
            if jdbc_mysql_db_is_business(m.as_str(), db.as_str()) {
                extend_str(&mut out, "jdbc:mysql://");
                extend_str(&mut out, host.as_str());
                extend_str(&mut out, ":");
                crate::text::push_decimal(&mut out, *port as u64);
                extend_str(&mut out, "/");
                extend_str(&mut out, db.as_str());
                let after = strip_all_prefix_exec(&chars_of(m.as_str()), "jdbc:mysql://");
                proof {
                    lemma_find_from(after@, seq!['?'], 0);
                }
                match crate::text::index_of_from(&after, '?', 0) {
                    Some(i) => {
                        let q = slice_chars(&after, i, after.len());
                        assert(q@ =~= after@.skip(i as int));
                        extend_chars(&mut out, &q);
                    },
                    None => {},
                }
            } else {
                extend_str(&mut out, m.as_str());
            }
        },
        MatchRule::ThenGroup1(to) => {
            extend_str(&mut out, to.as_str());
            let g1 = group_exec(g, 0);
            extend_chars(&mut out, &g1);
        },
        MatchRule::Between(t) => {
            let g1 = group_exec(g, 0);
            extend_chars(&mut out, &g1);
            extend_str(&mut out, t.as_str());
            let g2 = group_exec(g, 1);
            extend_chars(&mut out, &g2);
        },
        MatchRule::Drop => {},
        MatchRule::Literal(t) => {
            extend_str(&mut out, t.as_str());
        },
        MatchRule::Template(t) => {
            let e = crate::regex_template::expand_exec(&chars_of(t.as_str()), &chars_of(m.as_str()), g);
            extend_chars(&mut out, &e);
        },
    }
    proof {
        reveal_strlit("");
    }
    out
}

/// Appends the pieces from index `from` on, then the tail.
pub(crate) fn push_pieces_from(out: &mut Vec<char>, pieces: &Vec<crate::ext_calls::RegexPiece>, from: usize, tail: &String)
    requires
        from <= pieces.len(),
    ensures
        final(out)@ == old(out)@ + pieces_text(piece_views(pieces@).skip(from as int), tail@),
{
    let ghost pv = piece_views(pieces@);
    let ghost start = out@;
    let mut i: usize = from;
    while i < pieces.len()
        invariant
            from <= i <= pieces.len(),
            pv == piece_views(pieces@),
            out@ + pieces_text(pv.skip(i as int), tail@) == start + pieces_text(pv.skip(from as int), tail@),
        decreases pieces.len() - i,
    {
        let ghost before = out@;
        assert(pv.skip(i as int)[0] == pv[i as int]);
        assert(pv.skip(i as int).drop_first() =~= pv.skip(i + 1));
        extend_str(out, pieces[i].0.as_str());
        extend_str(out, pieces[i].1.as_str());
        assert(out@ + pieces_text(pv.skip(i + 1), tail@) =~= before + pieces_text(pv.skip(i as int), tail@));
        i = i + 1;
    }
    assert(pv.skip(i as int) =~= Seq::<PieceModel>::empty());
    extend_str(out, tail.as_str());
}

/// Whether `pattern` compiles and matches somewhere in `text`.
pub open spec fn has_match(pattern: Seq<char>, text: Seq<char>) -> bool {
    match crate::ext_calls::regex_pieces_of(pattern, text) {
        Some((ps, _t)) => ps.len() > 0,
        None => false,
    }
}

/// Whether `pattern` compiles and matches somewhere in `text` (a scan finds a match).
pub fn regex_has_match(pattern: &str, text: &str) -> (r: bool)
    ensures
        r == has_match(pattern@, text@),
{
    match crate::ext_calls::regex_pieces(pattern, text) {
        Some((pieces, _tail)) => pieces.len() > 0,
        None => false,
    }
}

/// `Regex::replace` (first match only) of `pattern` in `text` with the rule; the
/// text itself when the pattern does not compile or does not match.
pub open spec fn regex_replaced_first(pattern: Seq<char>, text: Seq<char>, rule: MatchModel) -> Seq<char> {
    match crate::ext_calls::regex_pieces_of(pattern, text) {
        Some((ps, tail)) => if ps.len() > 0 {
            ps[0].0 + rule_text(rule, ps[0].1, ps[0].2) + crate::ext_calls::pieces_text(ps.drop_first(), tail)
        } else {
            text
        },
        None => text,
    }
}

/// Replaces the first match of `pattern` in `text` by its rule text.
pub fn regex_replace_first(pattern: &str, text: &str, rule: &MatchRule) -> (r: String)
    ensures
        r@ == regex_replaced_first(pattern@, text@, rule@),
{
    match crate::ext_calls::regex_pieces(pattern, text) {
        None => String::from_str(text),
        Some((pieces, tail)) => {
            if pieces.len() == 0 {
                return String::from_str(text);
            }
            let mut out: Vec<char> = Vec::new();
            extend_str(&mut out, pieces[0].0.as_str());
            let rt = rule_text_exec(rule, &pieces[0].1, &pieces[0].2);
            extend_chars(&mut out, &rt);
            push_pieces_from(&mut out, &pieces, 1, &tail);
            assert(crate::ext_calls::piece_views(pieces@).skip(1) =~= crate::ext_calls::piece_views(pieces@).drop_first());
            string_of(&out)
        },
    }
}

/// Replaces every match of `pattern` in `text` by its rule text.
pub fn regex_replace_all(pattern: &str, text: &str, rule: &MatchRule) -> (r: String)
    ensures
        r@ == regex_replaced(pattern@, text@, rule@),
{
    match crate::ext_calls::regex_pieces(pattern, text) {
        None => String::from_str(text),
        Some((pieces, tail)) => {
            let ghost pv = crate::ext_calls::piece_views(pieces@);
            let mut out: Vec<char> = Vec::new();
            let mut i: usize = 0;
            assert(pv.skip(0) =~= pv);
            while i < pieces.len()
                invariant
                    i <= pieces.len(),
                    pv == crate::ext_calls::piece_views(pieces@),
                    out@ + pieces_replaced(pv.skip(i as int), tail@, rule@) == pieces_replaced(pv, tail@, rule@),
                decreases pieces.len() - i,
            {
                let ghost before = out@;
                assert(pv.skip(i as int)[0] == pv[i as int]);
                assert(pv.skip(i as int).drop_first() =~= pv.skip(i + 1));
                extend_str(&mut out, pieces[i].0.as_str());
                let rt = rule_text_exec(rule, &pieces[i].1, &pieces[i].2);
                extend_chars(&mut out, &rt);
                assert(out@ + pieces_replaced(pv.skip(i + 1), tail@, rule@) =~= before + pieces_replaced(
                    pv.skip(i as int),
                    tail@,
                    rule@,
                ));
                i = i + 1;
            }
            assert(pv.skip(i as int) =~= Seq::<crate::ext_calls::PieceModel>::empty());
            extend_str(&mut out, tail.as_str());
            string_of(&out)
        },
    }
}

/// Points `jdbc:mysql://.../ry-cloud` (or `ry_cloud`) at the database `new_db`:
/// each match is replaced by the template `${1}` followed by `new_db`.
pub fn replace_jdbc_db_name(yaml: &str, new_db: &str) -> (r: String)
    ensures
        r@ == regex_replaced(
            "(jdbc:mysql://[^\\s'\\\\]+/)(ry-cloud|ry_cloud)\\b"@,
            yaml@,
            MatchModel::Template("${1}"@ + new_db@),
        ),
{
    let mut t = chars_of("${1}");
    extend_str(&mut t, new_db);
    regex_replace_all("(jdbc:mysql://[^\\s'\\\\]+/)(ry-cloud|ry_cloud)\\b", yaml, &MatchRule::Template(string_of(&t)))
}

/// Points every business `jdbc:mysql://` URL at `host:port/db`, keeping its query.
pub fn replace_jdbc_mysql_connection(yaml: &str, host: &str, port: u16, db: &str) -> (r: String)
    ensures
        r@ == regex_replaced(
            "jdbc:mysql://[^\\s'\"\\\\]+"@,
            yaml@,
            MatchModel::Connection(host@, port, db@),
        ),
{
    let rule = MatchRule::Connection(String::from_str(host), port, String::from_str(db));
    regex_replace_all("jdbc:mysql://[^\\s'\"\\\\]+", yaml, &rule)
}

/// Pattern of a hard-coded official URL of a module on `port`.
pub open spec fn public_url_pattern(official: i32) -> Seq<char> {
    "http://(?:localhost|127\\.0\\.0\\.1):"@ + int_text(official as int) + "([^0-9]|$)"@
}

/// Line step of `rewrite_module_public_urls`.
pub open spec fn public_url_step(pattern: Seq<char>, to: Seq<char>) -> spec_fn(Seq<char>, ()) -> (Seq<char>, ()) {
    |line: Seq<char>, st: ()|
        (
            if line_key(line) == "gatewayUrl"@ {
                line
            } else if line_key(line) == "domain"@ || regex_match(pattern, line) == Some(true) {
                regex_replaced(pattern, line, MatchModel::ThenGroup1(to))
            } else {
                line
            } + seq!['\n'],
            (),
        )
}

/// What `rewrite_module_public_urls` returns.
pub open spec fn public_urls_rewritten(yaml: Seq<char>, suffix: Seq<char>, port: i32) -> Seq<char> {
    if suffix == "gateway"@ {
        yaml
    } else {
        match official_port(suffix) {
            None => yaml,
            Some(official) => match_final_nl(
                yaml,
                fold_lines(
                    lines(yaml),
                    (),
                    public_url_step(public_url_pattern(official), "http://127.0.0.1:"@ + int_text(port as int)),
                ),
            ),
        }
    }
}

/// Rewrites the hard-coded official public URLs of module `suffix`
/// (`http://localhost:{official}` / `http://127.0.0.1:{official}`, and every
/// `domain:` line) to `http://127.0.0.1:{port}`; `gatewayUrl:` lines and the
/// gateway module are left alone.
pub fn rewrite_module_public_urls(yaml: &str, suffix: &str, port: i32) -> (r: String)
    ensures
        r@ == public_urls_rewritten(yaml@, suffix@, port),
{
    if eq_str(&chars_of(suffix), "gateway") {
        return String::from_str(yaml);
    }
    let official = match official_module_listen_port(suffix) {
        Some(o) => o,
        None => {
            return String::from_str(yaml);
        },
    };
    let mut to: Vec<char> = Vec::new();
    extend_str(&mut to, "http://127.0.0.1:");
    push_int(&mut to, port);
    let mut pat: Vec<char> = Vec::new();
    extend_str(&mut pat, "http://(?:localhost|127\\.0\\.0\\.1):");
    push_int(&mut pat, official);
    extend_str(&mut pat, "([^0-9]|$)");
    let pattern = string_of(&pat);
    let rule = MatchRule::ThenGroup1(string_of(&to));
    let s = chars_of(yaml);
    let ls = lines_of(&s);
    let ghost step = public_url_step(pattern@, to@);
    let mut out: Vec<char> = Vec::new();
    let mut i: usize = 0;
    assert(lines(yaml@).skip(0) =~= lines(yaml@));
    while i < ls.len()
        invariant
            i <= ls.len(),
            vviews(ls@) == lines(yaml@),
            step == public_url_step(pattern@, to@),
            rule@ == MatchModel::ThenGroup1(to@),
            out@ + fold_lines(lines(yaml@).skip(i as int), (), step) == fold_lines(lines(yaml@), (), step),
        decreases ls.len() - i,
    {
        proof {
            lemma_fold_step(lines(yaml@), i as int, (), step);
        }
        let line = &ls[i];
        assert(line@ == lines(yaml@)[i as int]);
        let ghost before = out@;
        let key = line_key_exec(line);
        let line_s = string_of(line);
        if eq_str(&key, "gatewayUrl") {
            extend_chars(&mut out, line);
        } else {
            let hit = eq_str(&key, "domain") || match regex_is_match(pattern.as_str(), line_s.as_str()) {
                Some(b) => b,
                None => false,
            };
            if hit {
                let replaced = regex_replace_all(pattern.as_str(), line_s.as_str(), &rule);
                extend_str(&mut out, replaced.as_str());
            } else {
                extend_chars(&mut out, line);
            }
        }
        out.push('\n');
        assert(out@ =~= before + step(line@, ()).0);
        i = i + 1;
    }
    proof {
        lemma_fold_end(lines(yaml@), (), step);
    }
    fix_final_nl(&s, &mut out);
    string_of(&out)
}

/// State of the `ruoyi:` block scan: inside it, its indent, keys seen, insertion done.
pub struct RuoyiState {
    pub in_ruoyi: bool,
    pub indent: int,
    pub year: bool,
    pub icp: bool,
    pub inserted: bool,
}

/// The keys still missing from the `ruoyi:` block.
pub open spec fn ruoyi_missing(st: RuoyiState, year: Seq<char>) -> Seq<char> {
    (if !st.year {
        "  copyrightYear: "@ + year + seq!['\n']
    } else {
        Seq::empty()
    }) + (if !st.icp {
        "  icp:\n"@
    } else {
        Seq::empty()
    })
}

/// Line step of `upsert_ruoyi_block`.
pub open spec fn ruoyi_step(year: Seq<char>) -> spec_fn(Seq<char>, RuoyiState) -> (Seq<char>, RuoyiState) {
    |line: Seq<char>, st: RuoyiState| {
        let key = line_key(line);
        let t = trim_start(line);
        if is_top_level(line) && key == "ruoyi"@ {
            (line + seq!['\n'], RuoyiState { in_ruoyi: true, indent: indent_of(line), ..st })
        } else if st.in_ruoyi {
            let st1 = RuoyiState {
                year: st.year || key == "copyrightYear"@,
                icp: st.icp || key == "icp"@,
                ..st
            };
            if t.len() > 0 && t[0] != '#' && indent_of(line) <= st.indent {
                if !st1.inserted {
                    (
                        ruoyi_missing(st1, year) + line + seq!['\n'],
                        RuoyiState { in_ruoyi: false, inserted: true, ..st1 },
                    )
                } else {
                    (line + seq!['\n'], RuoyiState { in_ruoyi: false, ..st1 })
                }
            } else {
                (line + seq!['\n'], st1)
            }
        } else {
            (line + seq!['\n'], st)
        }
    }
}

/// What `upsert_ruoyi_block` returns: `None` without a top-level `ruoyi:` key,
/// else the YAML with `copyrightYear` / `icp` added at the end of the first
/// `ruoyi:` block when missing.
pub open spec fn ruoyi_upserted(yaml: Seq<char>, year: Seq<char>) -> Option<Seq<char>> {
    let ls = lines(yaml);
    if !(exists|k: int| 0 <= k < ls.len() && opens_top_key(#[trigger] ls[k], "ruoyi"@)) {
        None
    } else {
        let init = RuoyiState { in_ruoyi: false, indent: 0, year: false, icp: false, inserted: false };
        let out = fold_lines(ls, init, ruoyi_step(year));
        let end = fold_state(ls, init, ruoyi_step(year));
        Some(out + if end.in_ruoyi && !end.inserted {
            ruoyi_missing(end, year)
        } else {
            Seq::empty()
        })
    }
}

fn push_ruoyi_missing(out: &mut Vec<char>, year: &str, has_year: bool, has_icp: bool)
    ensures
        final(out)@ == old(out)@ + ruoyi_missing(
            RuoyiState { in_ruoyi: false, indent: 0, year: has_year, icp: has_icp, inserted: false },
            year@,
        ),
{
    let ghost o = out@;
    if !has_year {
        extend_str(out, "  copyrightYear: ");
        extend_str(out, year);
        out.push('\n');
    }
    if !has_icp {
        extend_str(out, "  icp:\n");
    }
    assert(out@ =~= o + ruoyi_missing(
        RuoyiState { in_ruoyi: false, indent: 0, year: has_year, icp: has_icp, inserted: false },
        year@,
    ));
}

/// Adds `copyrightYear: {year}` and `icp:` to the top-level `ruoyi:` block when
/// they are missing; `None` when there is no such block.
pub fn upsert_ruoyi_block(yaml: &str, year: &str) -> (r: Option<String>)
    ensures
        match r {
            Some(x) => ruoyi_upserted(yaml@, year@) == Some(x@),
            None => ruoyi_upserted(yaml@, year@) is None,
        },
{
    if !has_top_level_key(yaml, "ruoyi") {
        return None;
    }
    let s = chars_of(yaml);
    let ls = lines_of(&s);
    let ghost step = ruoyi_step(year@);
    let ghost init = RuoyiState { in_ruoyi: false, indent: 0, year: false, icp: false, inserted: false };
    let mut out: Vec<char> = Vec::new();
    let mut in_ruoyi = false;
    let mut ruoyi_indent: usize = 0;
    let mut has_year = false;
    let mut has_icp = false;
    let mut inserted = false;
    let mut i: usize = 0;
    assert(lines(yaml@).skip(0) =~= lines(yaml@));
    while i < ls.len()
        invariant
            i <= ls.len(),
            vviews(ls@) == lines(yaml@),
            step == ruoyi_step(year@),
            out@ + fold_lines(
                lines(yaml@).skip(i as int),
                RuoyiState { in_ruoyi, indent: ruoyi_indent as int, year: has_year, icp: has_icp, inserted },
                step,
            ) == fold_lines(lines(yaml@), init, step),
            fold_state(
                lines(yaml@).skip(i as int),
                RuoyiState { in_ruoyi, indent: ruoyi_indent as int, year: has_year, icp: has_icp, inserted },
                step,
            ) == fold_state(lines(yaml@), init, step),
        decreases ls.len() - i,
    {
        let ghost st = RuoyiState { in_ruoyi, indent: ruoyi_indent as int, year: has_year, icp: has_icp, inserted };
        proof {
            lemma_fold_step(lines(yaml@), i as int, st, step);
        }
        let line = &ls[i];
        assert(line@ == lines(yaml@)[i as int]);
        let ghost before = out@;
        let key = line_key_exec(line);
        let t = trim_start_chars(line);
        if is_top_level_exec(line) && eq_str(&key, "ruoyi") {
            in_ruoyi = true;
            ruoyi_indent = indent_width(line);
            extend_chars(&mut out, line);
            out.push('\n');
        } else if in_ruoyi {
            if eq_str(&key, "copyrightYear") {
                has_year = true;
            }
            if eq_str(&key, "icp") {
                has_icp = true;
            }
            if t.len() > 0 && t[0] != '#' && indent_width(line) <= ruoyi_indent {
                if !inserted {
                    push_ruoyi_missing(&mut out, year, has_year, has_icp);
                    inserted = true;
                }
                in_ruoyi = false;
            }
            extend_chars(&mut out, line);
            out.push('\n');
        } else {
            extend_chars(&mut out, line);
            out.push('\n');
        }
        assert(out@ =~= before + step(line@, st).0);
        i = i + 1;
    }
    proof {
        lemma_fold_end(lines(yaml@), RuoyiState { in_ruoyi, indent: ruoyi_indent as int, year: has_year, icp: has_icp, inserted }, step);
    }
    if in_ruoyi && !inserted {
        push_ruoyi_missing(&mut out, year, has_year, has_icp);
    }
    proof {
        reveal_strlit("ruoyi");
    }
    Some(string_of(&out))
}

} // verus!
