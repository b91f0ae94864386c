//! Sub-agent definitions: the `name` / `description` front matter of a markdown file.
use vstd::prelude::*;
use crate::text::{chars_of, contains, contains_str, extend_chars, extend_str, find, find_from, lines, lines_of, slice_chars, starts_with, string_of, trim, trim_chars};
use crate::patch::{copy_chars, find_str, find_str_from};

verus! {

/// The text without one pair of matching outer quotes (`"…"` or `'…'`), after trimming.
pub open spec fn unquoted(x: Seq<char>) -> Seq<char> {
    let s = trim(x);
    if s.len() >= 2 && ((s[0] == '"' && s.last() == '"') || (s[0] == '\'' && s.last() == '\'')) {
        s.subrange(1, s.len() - 1)
    } else {
        s
    }
}

/// Removes one pair of matching outer quotes after trimming.
pub fn unquote(s: &str) -> (r: String)
    ensures
        r@ == unquoted(s@),
{
    let t = trim_chars(&chars_of(s));
    if t.len() >= 2 {
        let q = t[0];
        let n = t[t.len() - 1];
        if (q == '"' && n == '"') || (q == '\'' && n == '\'') {
            let inner = slice_chars(&t, 1, t.len() - 1);
            return string_of(&inner);
        }
    }
    string_of(&t)
}

/// Reading state: (name, description, closing `---` seen).
pub open spec fn fm_step(st: (Seq<char>, Seq<char>, bool), line: Seq<char>) -> (Seq<char>, Seq<char>, bool) {
    let t = trim(line);
    if st.2 {
        st
    } else if t == "---"@ {
        (st.0, st.1, true)
    } else if starts_with(t, "name:"@) {
        (if st.0.len() == 0 {
            unquoted(t.skip("name:"@.len() as int))
        } else {
            st.0
        }, st.1, false)
    } else if starts_with(t, "description:"@) {
        (st.0, if st.1.len() == 0 {
            unquoted(t.skip("description:"@.len() as int))
        } else {
            st.1
        }, false)
    } else {
        st
    }
}

/// The state after reading the lines in order.
pub open spec fn fm_fold(ls: Seq<Seq<char>>) -> (Seq<char>, Seq<char>, bool)
    decreases ls.len(),
{
    if ls.len() == 0 {
        (Seq::empty(), Seq::empty(), false)
    } else {
        fm_step(fm_fold(ls.drop_last()), ls.last())
    }
}

/// (name, description) of the front matter: the block between a first line `---`
/// and the next `---`; the first non-empty value of each key counts. Empty
/// strings without front matter.
pub open spec fn frontmatter(content: Seq<char>) -> (Seq<char>, Seq<char>) {
    let ls = lines(content);
    if ls.len() == 0 || trim(ls[0]) != "---"@ {
        (Seq::empty(), Seq::empty())
    } else {
        let st = fm_fold(ls.drop_first());
        (st.0, st.1)
    }
}

/// Reads `name` and `description` from the front matter of a markdown text.
pub fn parse_frontmatter(content: &str) -> (r: (String, String))
    ensures
        (r.0@, r.1@) == frontmatter(content@),
{
    let ls = lines_of(&chars_of(content));
    let ghost all = crate::text::vviews(ls@);
    if ls.len() == 0 {
        return (String::new(), String::new());
    }
    let first = trim_chars(&ls[0]);
    if !crate::text::eq_str(&first, "---") {
        return (String::new(), String::new());
    }
    let mut name: Vec<char> = Vec::new();
    let mut desc: Vec<char> = Vec::new();
    let mut done = false;
    let mut i: usize = 1;
    let ghost body = all.drop_first();
    assert(body.take(0) =~= Seq::<Seq<char>>::empty());
    while i < ls.len()
        invariant
            1 <= i <= ls.len(),
            all == crate::text::vviews(ls@),
            body == all.drop_first(),
            (name@, desc@, done) == fm_fold(body.take(i - 1)),
        decreases ls.len() - i,
    {
        let t = trim_chars(&ls[i]);
        proof {
            reveal_strlit("name:");
            reveal_strlit("description:");
            assert(body.take(i as int).drop_last() =~= body.take(i - 1));
            assert(body.take(i as int).last() == ls@[i as int]@);
        }
        if done {
        } else if crate::text::eq_str(&t, "---") {
            done = true;
        } else if crate::text::starts_with_str(&t, "name:") {
            if name.len() == 0 {
                let rest = slice_chars(&t, 5, t.len());
                proof {
                    assert(rest@ =~= t@.skip("name:"@.len() as int));
                }
                name = chars_of(unquote(string_of(&rest).as_str()).as_str());
            }
        } else if crate::text::starts_with_str(&t, "description:") {
            if desc.len() == 0 {
                let rest = slice_chars(&t, 12, t.len());
                proof {
                    assert(rest@ =~= t@.skip("description:"@.len() as int));
                }
                desc = chars_of(unquote(string_of(&rest).as_str()).as_str());
            }
        }
        i = i + 1;
    }
    assert(body.take(ls.len() - 1) =~= body);
    (string_of(&name), string_of(&desc))
}

// ---------------------------------------------------------------------------
// The guide text and AGENTS.md
// ---------------------------------------------------------------------------

/// The marker before the guide in AGENTS.md.
pub const BEGIN_MARKER: &'static str = "<!-- SUB_AGENTS_RULES_BEGIN -->";

/// The marker after the guide in AGENTS.md.
pub const END_MARKER: &'static str = "<!-- SUB_AGENTS_RULES_END -->";

/// One agent's section: its name as a heading, then its trimmed description or
/// a note that it has none.
pub open spec fn agent_section(name: Seq<char>, desc: Seq<char>) -> Seq<char> {
    let body = if trim(desc).len() == 0 {
        "（该智能体未填写 description）"@
    } else {
        trim(desc)
    };
    "## "@ + name + "\n\n"@ + body
}

/// The sections of the agents, separated by rules; a note when there are none.
pub open spec fn agent_sections(agents: Seq<(Seq<char>, Seq<char>)>) -> Seq<char> {
    if agents.len() == 0 {
        "> 暂未扫描到任何子智能体（请在 agents/ 目录下放置 *.md 智能体定义）。"@
    } else {
        crate::nacos_sql::join(agents.map_values(|a: (Seq<char>, Seq<char>)| agent_section(a.0, a.1)), "\n\n---\n\n"@)
    }
}

/// The guide: the framework text with its `{{SUB_AGENTS_SECTIONS}}` filled.
pub open spec fn default_description(framework: Seq<char>, agents: Seq<(Seq<char>, Seq<char>)>) -> Seq<char> {
    crate::placeholders::str_replace(framework, "{{SUB_AGENTS_SECTIONS}}"@, agent_sections(agents))
}

/// Builds the guide from the framework text and the agents (name, description),
/// in the order given.
pub fn build_default_description(framework: &str, agents: &Vec<(String, String)>) -> (r: String)
    ensures
        r@ == default_description(framework@, crate::placeholders::pair_views(agents@)),
{
    let ghost av = crate::placeholders::pair_views(agents@);
    let mut parts: Vec<Vec<char>> = Vec::new();
    let mut i: usize = 0;
    while i < agents.len()
        invariant
            i <= agents.len(),
            av == crate::placeholders::pair_views(agents@),
            crate::text::vviews(parts@) == av.take(i as int).map_values(|a: (Seq<char>, Seq<char>)| agent_section(a.0, a.1)),
        decreases agents.len() - i,
    {
        let d = trim_chars(&chars_of(agents[i].1.as_str()));
        let mut sec = chars_of("## ");
        extend_str(&mut sec, agents[i].0.as_str());
        extend_str(&mut sec, "\n\n");
        if d.len() == 0 {
            extend_str(&mut sec, "（该智能体未填写 description）");
        } else {
            extend_chars(&mut sec, &d);
        }
        let ghost before = crate::text::vviews(parts@);
        parts.push(sec);
        assert(av.take(i + 1) =~= av.take(i as int).push(av[i as int]));
        assert(crate::text::vviews(parts@) =~= before.push(agent_section(av[i as int].0, av[i as int].1)));
        assert(av.take(i + 1).map_values(|a: (Seq<char>, Seq<char>)| agent_section(a.0, a.1)) =~= av.take(
            i as int,
        ).map_values(|a: (Seq<char>, Seq<char>)| agent_section(a.0, a.1)).push(agent_section(av[i as int].0, av[i as int].1)));
        i = i + 1;
    }
    assert(av.take(i as int) =~= av);
    let mut sections: Vec<char> = Vec::new();
    if agents.len() == 0 {
        extend_str(&mut sections, "> 暂未扫描到任何子智能体（请在 agents/ 目录下放置 *.md 智能体定义）。");
    } else {
        crate::nacos_sql::push_joined(&mut sections, &parts, "\n\n---\n\n");
    }
    let f = chars_of(framework);
    let key = chars_of("{{SUB_AGENTS_SECTIONS}}");
    string_of(&crate::placeholders::str_replace_chars(&f, &key, &sections))
}

/// The guide to write: the user's edited text when it is not blank (trimmed),
/// else the generated one, trimmed.
pub open spec fn guide_text(edited: Seq<char>, generated: Seq<char>) -> Seq<char> {
    if trim(edited).len() > 0 {
        trim(edited)
    } else {
        trim(generated)
    }
}

/// The guide wrapped in its markers.
pub open spec fn marked_guide(inner: Seq<char>) -> Seq<char> {
    "<!-- SUB_AGENTS_RULES_BEGIN -->"@ + "\n"@ + inner + "\n"@ + "<!-- SUB_AGENTS_RULES_END -->"@
}

/// The text with the first marked block (from the begin marker to the first end
/// marker after it) replaced by `marked`; unchanged without a complete block.
pub open spec fn marker_block_replaced(content: Seq<char>, marked: Seq<char>) -> Seq<char> {
    let b = "<!-- SUB_AGENTS_RULES_BEGIN -->"@;
    let e = "<!-- SUB_AGENTS_RULES_END -->"@;
    match find(content, b) {
        Some(i) => match find_from(content, e, i) {
            Some(j) => content.take(i) + marked + content.skip(j + e.len()),
            None => content,
        },
        None => content,
    }
}

/// Replaces the marked block of a text (see `marker_block_replaced`).
pub fn replace_marker_block(content: &str, marked: &str) -> (r: String)
    ensures
        r@ == marker_block_replaced(content@, marked@),
{
    let c = chars_of(content);
    match find_str(&c, BEGIN_MARKER) {
        Some(i) => match find_str_from(&c, END_MARKER, i) {
            Some(j) => {
                let e = chars_of(END_MARKER);
                let mut out = slice_chars(&c, 0, i);
                extend_str(&mut out, marked);
                let rest = slice_chars(&c, j + e.len(), c.len());
                extend_chars(&mut out, &rest);
                assert(out@ =~= c@.take(i as int) + marked@ + c@.skip(j + e@.len()));
                string_of(&out)
            },
            None => String::from_str(content),
        },
        None => String::from_str(content),
    }
}

/// `s.trim_end_matches('\n')`.
pub open spec fn trim_newlines_end(s: Seq<char>) -> Seq<char>
    decreases s.len(),
{
    if s.len() > 0 && s.last() == '\n' {
        trim_newlines_end(s.drop_last())
    } else {
        s
    }
}

/// The new AGENTS.md for a guide: a new file holding the heading and the
/// block when there is none, else the block replaced or appended after one
/// blank line; `None` when the guide is blank or nothing changes.
pub open spec fn agents_md(existing: Option<Seq<char>>, inner: Seq<char>) -> Option<Seq<char>> {
    let marked = marked_guide(inner);
    if inner.len() == 0 {
        None
    } else {
        match existing {
            None => Some("# AI 编码规范\n\n"@ + marked + "\n"@),
            Some(c) => {
                let n = if contains(c, "<!-- SUB_AGENTS_RULES_BEGIN -->"@) {
                    marker_block_replaced(c, marked)
                } else {
                    trim_newlines_end(c) + "\n\n"@ + marked + "\n"@
                };
                if n != c {
                    Some(n)
                } else {
                    None
                }
            },
        }
    }
}

/// The new AGENTS.md for the guide (see `agents_md`, with `guide_text` of the
/// user's text and the generated one).
pub fn inject_sub_agents(existing: Option<&str>, edited: &str, generated: &str) -> (r: Option<String>)
    ensures
        ({
            let want = agents_md(match existing { Some(c) => Some(c@), None => None }, guide_text(edited@, generated@));
            match r {
                Some(x) => want == Some(x@),
                None => want is None,
            }
        }),
{
    let e = trim_chars(&chars_of(edited));
    let inner = if e.len() > 0 {
        e
    } else {
        trim_chars(&chars_of(generated))
    };
    if inner.len() == 0 {
        return None;
    }
    let mut marked = chars_of(BEGIN_MARKER);
    extend_str(&mut marked, "\n");
    extend_chars(&mut marked, &inner);
    extend_str(&mut marked, "\n");
    extend_str(&mut marked, END_MARKER);
    match existing {
        None => {
            let mut out = chars_of("# AI 编码规范\n\n");
            extend_chars(&mut out, &marked);
            extend_str(&mut out, "\n");
            Some(string_of(&out))
        },
        Some(c) => {
            let cv = chars_of(c);
            let n = if contains_str(&cv, BEGIN_MARKER) {
                let m = string_of(&marked);
                chars_of(replace_marker_block(c, m.as_str()).as_str())
            } else {
                let mut k: usize = cv.len();
                assert(cv@.take(k as int) =~= cv@);
                while k > 0 && cv[k - 1] == '\n'
                    invariant
                        k <= cv.len(),
                        trim_newlines_end(cv@) == trim_newlines_end(cv@.take(k as int)),
                    decreases k,
                {
                    assert(cv@.take(k as int).drop_last() =~= cv@.take(k - 1));
                    k = k - 1;
                }
                let mut out = slice_chars(&cv, 0, k);
                assert(trim_newlines_end(cv@.take(k as int)) == cv@.take(k as int));
                extend_str(&mut out, "\n\n");
                extend_chars(&mut out, &marked);
                extend_str(&mut out, "\n");
                out
            };
            if crate::text::chars_eq(&n, &cv) {
                None
            } else {
                Some(string_of(&n))
            }
        },
    }
}

} // verus!
