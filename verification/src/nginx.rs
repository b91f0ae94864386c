//! Nginx reverse-proxy configuration: the `{{#HTTPS}}` conditional blocks and the
//! placeholder table of the template.
use vstd::prelude::*;
use vstd::string::StringExecFns;
use crate::params::CustomizeParams;
use crate::text::{
    chars_of, decimal, decimal_string, extend_chars, find, find_from, find_from_exec, lemma_find_from,
    lemma_find_shift, matches_at, slice_chars, string_of,
};

verus! {

/// Result of generating the Nginx files.
#[derive(Debug, Clone)]
pub struct NginxOutcome {
    pub created_files: usize,
    pub summary: Vec<String>,
}

/// `{{#HTTPS}}`.
pub open spec fn https_open() -> Seq<char> {
    seq!['{', '{', '#', 'H', 'T', 'T', 'P', 'S', '}', '}']
}

/// `{{/HTTPS}}`.
pub open spec fn https_close() -> Seq<char> {
    seq!['{', '{', '/', 'H', 'T', 'T', 'P', 'S', '}', '}']
}

/// Text after the HTTPS blocks are resolved: each `{{#HTTPS}}body{{/HTTPS}}` becomes
/// `body` when `keep`, nothing otherwise; an opening mark without a closing one
/// leaves the rest of the text as it is.
pub open spec fn https_cond(s: Seq<char>, keep: bool) -> Seq<char>
    decreases s.len(),
{
    let fo = find(s, https_open());
    if fo is Some && 0 <= fo->0 && fo->0 + 10 <= s.len() {
        let start = fo->0;
        let after = s.skip(start + 10);
        let fc = find(after, https_close());
        if fc is Some && 0 <= fc->0 && fc->0 + 10 <= after.len() {
            let end = fc->0;
            s.take(start) + (if keep {
                after.take(end)
            } else {
                Seq::empty()
            }) + https_cond(after.skip(end + 10), keep)
        } else {
            s
        }
    } else {
        s
    }
}

/// Keeps (without the marks) or drops every `{{#HTTPS}}...{{/HTTPS}}` block.
pub fn apply_https_conditional(content: &str, use_https: bool) -> (r: String)
    ensures
        r@ == https_cond(content@, use_https),
{
    let c = chars_of(content);
    let open = chars_of("{{#HTTPS}}");
    let close = chars_of("{{/HTTPS}}");
    proof {
        reveal_strlit("{{#HTTPS}}");
        reveal_strlit("{{/HTTPS}}");
        assert(open@ =~= https_open());
        assert(close@ =~= https_close());
        assert(c@.skip(0) =~= c@);
    }
    let mut out: Vec<char> = Vec::new();
    let mut pos: usize = 0;
    while pos <= c.len()
        invariant
            pos <= c.len(),
            c@ == content@,
            open@ == https_open(),
            close@ == https_close(),
            out@ + https_cond(c@.skip(pos as int), use_https) == https_cond(c@, use_https),
        decreases c.len() + 1 - pos,
    {
        let ghost rest = c@.skip(pos as int);
        proof {
            lemma_find_shift(c@, open@, pos as int);
            lemma_find_from(c@, open@, pos as int);
        }
        match find_from_exec(&c, &open, pos) {
            None => {
                let tail = slice_chars(&c, pos, c.len());
                assert(tail@ =~= rest);
                extend_chars(&mut out, &tail);
                return string_of(&out);
            },
            Some(start_abs) => {
                assert(matches_at(c@, open@, start_abs as int));
                let after_abs: usize = start_abs + 10;
                let ghost after = rest.skip(start_abs - pos + 10);
                assert(after =~= c@.skip(after_abs as int));
                proof {
                    lemma_find_shift(c@, close@, after_abs as int);
                    lemma_find_from(c@, close@, after_abs as int);
                }
                match find_from_exec(&c, &close, after_abs) {
                    None => {
                        let tail = slice_chars(&c, pos, c.len());
                        assert(tail@ =~= rest);
                        extend_chars(&mut out, &tail);
                        return string_of(&out);
                    },
                    Some(end_abs) => {
                        assert(matches_at(c@, close@, end_abs as int));
                        let ghost before = out@;
                        let head = slice_chars(&c, pos, start_abs);
                        assert(head@ =~= rest.take(start_abs - pos));
                        extend_chars(&mut out, &head);
                        if use_https {
                            let body = slice_chars(&c, after_abs, end_abs);
                            assert(body@ =~= after.take(end_abs - after_abs));
                            extend_chars(&mut out, &body);
                        }
                        let next: usize = end_abs + 10;
                        assert(after.skip(end_abs - after_abs + 10) =~= c@.skip(next as int));
                        assert(out@ + https_cond(c@.skip(next as int), use_https) =~= before
                            + https_cond(rest, use_https));
                        pos = next;
                    },
                }
            },
        }
    }
    string_of(&out)
}

/// The placeholder table of the Nginx templates, in this order: project name,
/// module prefix, server port, server name (`localhost` when empty) and the
/// front-end directory `{prefix}-ui`.
pub open spec fn nginx_placeholders(p: CustomizeParams) -> Seq<(Seq<char>, Seq<char>)> {
    seq![
        ("{{PROJECT_NAME}}"@, p.new_project_name@),
        ("{{MODULE_PREFIX}}"@, p.new_module_prefix@),
        ("{{SERVER_PORT}}"@, decimal(p.server_port as nat)),
        ("{{SERVER_NAME}}"@, if p.server_name@.len() == 0 {
            "localhost"@
        } else {
            p.server_name@
        }),
        ("{{FRONTEND_DIR}}"@, p.new_module_prefix@ + "-ui"@),
    ]
}

/// Builds the placeholder table of the Nginx templates.
pub fn build_placeholders(params: &CustomizeParams) -> (r: Vec<(String, String)>)
    ensures
        crate::placeholders::pair_views(r@) == nginx_placeholders(*params),
{
    let mut r: Vec<(String, String)> = Vec::new();
    r.push((String::from_str("{{PROJECT_NAME}}"), params.new_project_name.clone()));
    r.push((String::from_str("{{MODULE_PREFIX}}"), params.new_module_prefix.clone()));
    r.push((String::from_str("{{SERVER_PORT}}"), decimal_string(params.server_port as u64)));
    let server_name = if params.server_name.as_str().unicode_len() == 0 {
        String::from_str("localhost")
    } else {
        params.server_name.clone()
    };
    r.push((String::from_str("{{SERVER_NAME}}"), server_name));
    let mut dir = chars_of(params.new_module_prefix.as_str());
    let ghost d0 = dir@;
    crate::text::extend_str(&mut dir, "-ui");
    r.push((String::from_str("{{FRONTEND_DIR}}"), string_of(&dir)));
    assert(crate::placeholders::pair_views(r@) =~= nginx_placeholders(*params));
    r
}

} // verus!
