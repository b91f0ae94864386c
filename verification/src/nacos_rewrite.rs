//! Rewriting the values of one YAML section in place: the Redis connection and
//! the data source account, line by line, keeping comments and layout.
//! The values are given as the YAML text to write (already quoted where needed).
use vstd::prelude::*;
use crate::text::{
    chars_of, eq_str, extend_chars, extend_str, fix_final_nl, fold_lines, fold_state, indent_of, indent_width,
    lemma_fold_end, lemma_fold_step, line_key, line_key_exec, lines, lines_of, match_final_nl, push_spaces, spaces,
    starts_with, starts_with_str, string_of, trim_end, trim_start, trim_start_chars, vviews, find_from_exec,
    slice_chars, index_of,
};

verus! {

/// The YAML scalar that stands for an empty value (a quoted empty string).
pub const EMPTY_YAML_SCALAR: &'static str = "''";

// ---------------------------------------------------------------------------
// One `key: value` line
// ---------------------------------------------------------------------------

/// The comment after a value (from the first `#`, trailing blanks trimmed); empty
/// when there is none.
pub open spec fn trailing_comment(after: Seq<char>) -> Seq<char> {
    match index_of(after, '#') {
        Some(i) => trim_end(after.skip(i)),
        None => Seq::empty(),
    }
}

/// The line `{indent}{key}: {value}` keeping the line's indentation and its
/// comment; `None` when the line does not start (after blanks) with `{key}:`.
pub open spec fn scalar_replaced(line: Seq<char>, key: Seq<char>, value: Seq<char>) -> Option<Seq<char>> {
    let t = trim_start(line);
    let prefix = key + ":"@;
    if !starts_with(t, prefix) {
        None
    } else {
        let indent = line.take(line.len() - t.len());
        let comment = trailing_comment(trim_start(t.skip(prefix.len() as int)));
        Some(indent + key + ": "@ + value + (if comment.len() == 0 { Seq::empty() } else { " "@ + comment }))
    }
}

/// Replaces the value of a `key:` line (see `scalar_replaced`).
pub fn replace_scalar_line(line: &Vec<char>, key: &str, value: &str) -> (r: Option<Vec<char>>)
    ensures
        match scalar_replaced(line@, key@, value@) {
            Some(x) => r matches Some(v) && v@ == x,
            None => r is None,
        },
{
    let t = trim_start_chars(line);
    let mut prefix = chars_of(key);
    extend_str(&mut prefix, ":");
    if prefix.len() > t.len() || !crate::text::chars_eq(&slice_chars(&t, 0, prefix.len()), &prefix) {
        return None;
    }
    assert(t@.subrange(0, prefix@.len() as int) =~= t@.take(prefix@.len() as int));
    proof {
        crate::text::lemma_trim_start_suffix(line@);
    }
    let indent = slice_chars(line, 0, line.len() - t.len());
    let rest = slice_chars(&t, prefix.len(), t.len());
    assert(rest@ =~= t@.skip(prefix@.len() as int));
    let after = trim_start_chars(&rest);
    let hash = vec!['#'];
    proof {
        crate::text::lemma_find_from(after@, seq!['#'], 0);
    }
    let comment: Vec<char> = match find_from_exec(&after, &hash, 0) {
        Some(i) => {
            assert(hash@ =~= seq!['#']);
            let c = slice_chars(&after, i, after.len());
            assert(c@ =~= after@.skip(i as int));
            let j = crate::text::ws_suffix_start(&c, c.len());
            assert(c@.take(c.len() as int) =~= c@);
            slice_chars(&c, 0, j)
        },
        None => {
            assert(hash@ =~= seq!['#']);
            Vec::new()
        },
    };
    let mut out = indent;
    extend_str(&mut out, key);
    extend_str(&mut out, ": ");
    extend_str(&mut out, value);
    if comment.len() > 0 {
        extend_str(&mut out, " ");
        extend_chars(&mut out, &comment);
    }
    Some(out)
}

// ---------------------------------------------------------------------------
// Sections
// ---------------------------------------------------------------------------

/// State of a section scan: inside the section, its indentation, and whether
/// missing entries were already inserted.
pub struct SectionState {
    pub inside: bool,
    pub indent: int,
    pub inserted: bool,
}

/// The scan leaves the section on a non-blank, non-comment line indented no
/// deeper than the section's key.
pub open spec fn leaves(line: Seq<char>, st: SectionState) -> SectionState {
    let t = trim_start(line);
    if st.inside && t.len() > 0 && !starts_with(t, "#"@) && indent_of(line) <= st.indent {
        SectionState { inside: false, indent: st.indent, inserted: st.inserted }
    } else {
        st
    }
}

fn leaves_exec(line: &Vec<char>, inside: bool, indent: usize) -> (r: bool)
    ensures
        r == leaves(line@, SectionState { inside, indent: indent as int, inserted: false }).inside,
{
    let t = trim_start_chars(line);
    if inside && t.len() > 0 && !starts_with_str(&t, "#") && indent_width(line) <= indent {
        false
    } else {
        inside
    }
}

// ---------------------------------------------------------------------------
// Redis
// ---------------------------------------------------------------------------

/// The new text of a Redis entry line: `host` → `localhost`, `port` → `6379`,
/// `database` → `1`, `password` → `blank`; `None` for other keys.
pub open spec fn redis_line(line: Seq<char>, blank: Seq<char>) -> Option<Seq<char>> {
    let key = line_key(line);
    if key == "host"@ {
        scalar_replaced(line, "host"@, "localhost"@)
    } else if key == "port"@ {
        scalar_replaced(line, "port"@, "6379"@)
    } else if key == "database"@ {
        scalar_replaced(line, "database"@, "1"@)
    } else if key == "password"@ {
        scalar_replaced(line, "password"@, blank)
    } else {
        None
    }
}

/// Line step of the Redis rewrite.
pub open spec fn redis_step(blank: Seq<char>) -> spec_fn(Seq<char>, SectionState) -> (Seq<char>, SectionState) {
    |line: Seq<char>, st: SectionState|
        if line_key(line) == "redis"@ {
            (line + seq!['\n'], SectionState { inside: true, indent: indent_of(line), inserted: st.inserted })
        } else {
            let st1 = leaves(line, st);
            if st1.inside {
                match redis_line(line, blank) {
                    Some(nl) => (nl + seq!['\n'], st1),
                    None => (line + seq!['\n'], st1),
                }
            } else {
                (line + seq!['\n'], st1)
            }
        }
}

/// The YAML with every `redis` section pointing at a local Redis: host
/// `localhost`, port `6379`, database `1`, password `blank` (comments and other
/// lines kept; the final line break as in the input).
pub open spec fn redis_rewritten(yaml: Seq<char>, blank: Seq<char>) -> Seq<char> {
    match_final_nl(
        yaml,
        fold_lines(lines(yaml), SectionState { inside: false, indent: 0, inserted: false }, redis_step(blank)),
    )
}

fn redis_line_exec(line: &Vec<char>, blank: &str) -> (r: Option<Vec<char>>)
    ensures
        match redis_line(line@, blank@) {
            Some(x) => r matches Some(v) && v@ == x,
            None => r is None,
        },
{
    let key = line_key_exec(line);
    if eq_str(&key, "host") {
        replace_scalar_line(line, "host", "localhost")
    } else if eq_str(&key, "port") {
        replace_scalar_line(line, "port", "6379")
    } else if eq_str(&key, "database") {
        replace_scalar_line(line, "database", "1")
    } else if eq_str(&key, "password") {
        replace_scalar_line(line, "password", blank)
    } else {
        None
    }
}

/// Points the `redis` sections at a local Redis (see `redis_rewritten`);
/// `blank` is the YAML text written for the emptied password.
pub fn rewrite_redis_in_place(yaml: &str, blank: &str) -> (r: String)
    ensures
        r@ == redis_rewritten(yaml@, blank@),
{
    let s = chars_of(yaml);
    let ls = lines_of(&s);
    let ghost step = redis_step(blank@);
    let ghost init = SectionState { inside: false, indent: 0, inserted: false };
    let mut out: Vec<char> = Vec::new();
    let mut inside = false;
    let mut indent: usize = 0;
    let mut i: usize = 0;
    assert(lines(yaml@).skip(0) =~= lines(yaml@));
    while i < ls.len()
        invariant
            i <= ls.len(),
            vviews(ls@) == lines(yaml@),
            step == redis_step(blank@),
            out@ + fold_lines(
                lines(yaml@).skip(i as int),
                SectionState { inside, indent: indent as int, inserted: false },
                step,
            ) == fold_lines(lines(yaml@), init, step),
        decreases ls.len() - i,
    {
        let ghost st = SectionState { inside, indent: indent as int, inserted: false };
        proof {
            lemma_fold_step(lines(yaml@), i as int, st, step);
        }
        let line = &ls[i];
        assert(line@ == lines(yaml@)[i as int]);
        let ghost before = out@;
        let key = line_key_exec(line);
        if eq_str(&key, "redis") {
            inside = true;
            indent = indent_width(line);
            extend_chars(&mut out, line);
            out.push('\n');
        } else {
            inside = leaves_exec(line, inside, indent);
            let mut done = false;
            if inside {
                match redis_line_exec(line, blank) {
                    Some(nl) => {
                        extend_chars(&mut out, &nl);
                        out.push('\n');
                        done = true;
                    },
                    None => {},
                }
            }
            if !done {
                extend_chars(&mut out, line);
                out.push('\n');
            }
        }
        assert(out@ + fold_lines(
            lines(yaml@).skip(i + 1),
            SectionState { inside, indent: indent as int, inserted: false },
            step,
        ) =~= before + fold_lines(lines(yaml@).skip(i as int), st, step));
        i = i + 1;
    }
    proof {
        lemma_fold_end(lines(yaml@), SectionState { inside, indent: indent as int, inserted: false }, step);
    }
    fix_final_nl(&s, &mut out);
    string_of(&out)
}

// ---------------------------------------------------------------------------
// Data source account
// ---------------------------------------------------------------------------

/// Which data source keys a scan has met: inside a `datasource` section, its
/// indentation, and whether `url`, `username` and `password` occur in one.
pub struct CredKeys {
    pub inside: bool,
    pub indent: int,
    pub url: bool,
    pub user: bool,
    pub pass: bool,
}

/// Line step of the key scan.
pub open spec fn cred_scan_step() -> spec_fn(Seq<char>, CredKeys) -> (Seq<char>, CredKeys) {
    |line: Seq<char>, st: CredKeys|
        if line_key(line) == "datasource"@ {
            (Seq::empty(), CredKeys { inside: true, indent: indent_of(line), ..st })
        } else {
            let s1 = leaves(line, SectionState { inside: st.inside, indent: st.indent, inserted: false });
            let key = line_key(line);
            if s1.inside {
                (Seq::empty(), CredKeys {
                    inside: true,
                    indent: st.indent,
                    url: st.url || key == "url"@,
                    user: st.user || key == "username"@,
                    pass: st.pass || key == "password"@,
                })
            } else {
                (Seq::empty(), CredKeys { inside: false, ..st })
            }
        }
}

/// Whether the data source sections hold `url`, `username` and `password`.
pub open spec fn cred_keys(yaml: Seq<char>) -> CredKeys {
    fold_state(lines(yaml), CredKeys { inside: false, indent: 0, url: false, user: false, pass: false }, cred_scan_step())
}

/// The lines added after the first data source `url` for a missing account
/// or password, at the `url` line's indentation.
pub open spec fn cred_inserts(line: Seq<char>, k: CredKeys, user: Seq<char>, pass: Seq<char>) -> Seq<char> {
    let pad = spaces(indent_of(line) as nat);
    (if !k.user { pad + "username: "@ + user + seq!['\n'] } else { Seq::empty() }) + (if !k.pass {
        pad + "password: "@ + pass + seq!['\n']
    } else {
        Seq::empty()
    })
}

/// Line step of the account rewrite.
pub open spec fn cred_step(k: CredKeys, user: Seq<char>, pass: Seq<char>) -> spec_fn(Seq<char>, SectionState) -> (
    Seq<char>,
    SectionState,
) {
    |line: Seq<char>, st: SectionState|
        if line_key(line) == "datasource"@ {
            (line + seq!['\n'], SectionState { inside: true, indent: indent_of(line), inserted: st.inserted })
        } else {
            let st1 = leaves(line, st);
            let key = line_key(line);
            if st1.inside && key == "username"@ && scalar_replaced(line, "username"@, user) is Some {
                (scalar_replaced(line, "username"@, user)->0 + seq!['\n'], st1)
            } else if st1.inside && key == "password"@ && scalar_replaced(line, "password"@, pass) is Some {
                (scalar_replaced(line, "password"@, pass)->0 + seq!['\n'], st1)
            } else if st1.inside && key == "url"@ && k.url && (!k.user || !k.pass) && !st1.inserted {
                (line + seq!['\n'] + cred_inserts(line, k, user, pass), SectionState { inserted: true, ..st1 })
            } else {
                (line + seq!['\n'], st1)
            }
        }
}

/// The YAML with the data source account set: each `username` / `password`
/// directly in a `datasource` section gets `user` / `pass` (comments kept;
/// `login-username` and other sections untouched), and when a section has a
/// `url` but lacks either, the missing lines follow the first `url`.
pub open spec fn credentials_rewritten(yaml: Seq<char>, user: Seq<char>, pass: Seq<char>) -> Seq<char> {
    match_final_nl(
        yaml,
        fold_lines(
            lines(yaml),
            SectionState { inside: false, indent: 0, inserted: false },
            cred_step(cred_keys(yaml), user, pass),
        ),
    )
}

fn scan_cred_keys(ls: &Vec<Vec<char>>) -> (r: (bool, bool, bool))
    ensures
        ({
            let k = fold_state(vviews(ls@), CredKeys { inside: false, indent: 0, url: false, user: false, pass: false }, cred_scan_step());
            r == (k.url, k.user, k.pass)
        }),
{
    let ghost step = cred_scan_step();
    let ghost init = CredKeys { inside: false, indent: 0, url: false, user: false, pass: false };
    let ghost lv = vviews(ls@);
    let mut inside = false;
    let mut indent: usize = 0;
    let mut url = false;
    let mut user = false;
    let mut pass = false;
    let mut i: usize = 0;
    assert(lv.skip(0) =~= lv);
    while i < ls.len()
        invariant
            i <= ls.len(),
            lv == vviews(ls@),
            step == cred_scan_step(),
            fold_state(lv.skip(i as int), CredKeys { inside, indent: indent as int, url, user, pass }, step)
                == fold_state(lv, init, step),
        decreases ls.len() - i,
    {
        let ghost st = CredKeys { inside, indent: indent as int, url, user, pass };
        proof {
            lemma_fold_step(lv, i as int, st, step);
        }
        let line = &ls[i];
        assert(line@ == lv[i as int]);
        let key = line_key_exec(line);
        if eq_str(&key, "datasource") {
            inside = true;
            indent = indent_width(line);
        } else {
            inside = leaves_exec(line, inside, indent);
            if inside {
                url = url || eq_str(&key, "url");
                user = user || eq_str(&key, "username");
                pass = pass || eq_str(&key, "password");
            }
        }
        i = i + 1;
    }
    proof {
        lemma_fold_end(lv, CredKeys { inside, indent: indent as int, url, user, pass }, step);
    }
    (url, user, pass)
}

fn cred_line_exec(
    line: &Vec<char>,
    user: &str,
    pass: &str,
    has_url: bool,
    has_user: bool,
    has_pass: bool,
    inside: bool,
    indent: usize,
    inserted: bool,
    Ghost(k): Ghost<CredKeys>,
) -> (r: (Vec<char>, bool, usize, bool))
    requires
        k.url == has_url && k.user == has_user && k.pass == has_pass,
    ensures
        ({
            let (o, st) = cred_step(k, user@, pass@)(line@, SectionState { inside, indent: indent as int, inserted });
            r.0@ == o && st == SectionState { inside: r.1, indent: r.2 as int, inserted: r.3 }
        }),
{
    let mut o: Vec<char> = Vec::new();
    let mut inside = inside;
    let mut indent = indent;
    let mut inserted = inserted;
        let key = line_key_exec(line);
        if eq_str(&key, "datasource") {
            inside = true;
            indent = indent_width(line);
            extend_chars(&mut o, line);
            o.push('\n');
        } else {
            inside = leaves_exec(line, inside, indent);
            let mut done = false;
            if inside && eq_str(&key, "username") {
                match replace_scalar_line(line, "username", user) {
                    Some(nl) => {
                        extend_chars(&mut o, &nl);
                        o.push('\n');
                        done = true;
                    },
                    None => {},
                }
            }
            if !done && inside && eq_str(&key, "password") {
                match replace_scalar_line(line, "password", pass) {
                    Some(nl) => {
                        extend_chars(&mut o, &nl);
                        o.push('\n');
                        done = true;
                    },
                    None => {},
                }
            }
            if !done && inside && eq_str(&key, "url") && has_url && (!has_user || !has_pass) && !inserted {
                extend_chars(&mut o, line);
                o.push('\n');
                let w = indent_width(line);
                if !has_user {
                    push_spaces(&mut o, w);
                    extend_str(&mut o, "username: ");
                    extend_str(&mut o, user);
                    o.push('\n');
                }
                if !has_pass {
                    push_spaces(&mut o, w);
                    extend_str(&mut o, "password: ");
                    extend_str(&mut o, pass);
                    o.push('\n');
                }
                inserted = true;
                done = true;
            }
            if !done {
                extend_chars(&mut o, line);
                o.push('\n');
            }
        }
    (o, inside, indent, inserted)
}

/// Sets the data source account (see `credentials_rewritten`); `user` and
/// `pass` are the YAML texts to write.
pub fn rewrite_datasource_credentials(yaml: &str, user: &str, pass: &str) -> (r: String)
    ensures
        r@ == credentials_rewritten(yaml@, user@, pass@),
{
    let s = chars_of(yaml);
    let ls = lines_of(&s);
    let (has_url, has_user, has_pass) = scan_cred_keys(&ls);
    let ghost k = cred_keys(yaml@);
    let ghost step = cred_step(k, user@, pass@);
    let ghost init = SectionState { inside: false, indent: 0, inserted: false };
    let mut out: Vec<char> = Vec::new();
    let mut inside = false;
    let mut indent: usize = 0;
    let mut inserted = false;
    let mut i: usize = 0;
    assert(lines(yaml@).skip(0) =~= lines(yaml@));
    while i < ls.len()
        invariant
            i <= ls.len(),
            vviews(ls@) == lines(yaml@),
            k == cred_keys(yaml@),
            k.url == has_url && k.user == has_user && k.pass == has_pass,
            step == cred_step(k, user@, pass@),
            out@ + fold_lines(
                lines(yaml@).skip(i as int),
                SectionState { inside, indent: indent as int, inserted },
                step,
            ) == fold_lines(lines(yaml@), init, step),
        decreases ls.len() - i,
    {
        let ghost st = SectionState { inside, indent: indent as int, inserted };
        proof {
            lemma_fold_step(lines(yaml@), i as int, st, step);
        }
        let line = &ls[i];
        assert(line@ == lines(yaml@)[i as int]);
        let ghost before = out@;
        let (piece, ni, nd, ns) = cred_line_exec(line, user, pass, has_url, has_user, has_pass, inside, indent, inserted, Ghost(k));
        extend_chars(&mut out, &piece);
        inside = ni;
        indent = nd;
        inserted = ns;
        assert(out@ + fold_lines(
            lines(yaml@).skip(i + 1),
            SectionState { inside, indent: indent as int, inserted },
            step,
        ) =~= before + fold_lines(lines(yaml@).skip(i as int), st, step));
        i = i + 1;
    }
    proof {
        lemma_fold_end(lines(yaml@), SectionState { inside, indent: indent as int, inserted }, step);
    }
    fix_final_nl(&s, &mut out);
    string_of(&out)
}

// ---------------------------------------------------------------------------
// Token settings
// ---------------------------------------------------------------------------

/// The new text of a `token` entry line: `secret` (when one is given) and
/// `expireTime`; `None` for other lines.
pub open spec fn token_line(line: Seq<char>, secret: Option<Seq<char>>, expire: Seq<char>) -> Option<Seq<char>> {
    let key = line_key(line);
    if key == "secret"@ && secret is Some && scalar_replaced(line, "secret"@, secret->0) is Some {
        scalar_replaced(line, "secret"@, secret->0)
    } else if key == "expireTime"@ {
        scalar_replaced(line, "expireTime"@, expire)
    } else {
        None
    }
}

/// Line step of the token rewrite.
pub open spec fn token_step(secret: Option<Seq<char>>, expire: Seq<char>) -> spec_fn(Seq<char>, SectionState) -> (
    Seq<char>,
    SectionState,
) {
    |line: Seq<char>, st: SectionState|
        if line_key(line) == "token"@ {
            (line + seq!['\n'], SectionState { inside: true, indent: indent_of(line), inserted: st.inserted })
        } else {
            let st1 = leaves(line, st);
            if st1.inside {
                match token_line(line, secret, expire) {
                    Some(nl) => (nl + seq!['\n'], st1),
                    None => (line + seq!['\n'], st1),
                }
            } else {
                (line + seq!['\n'], st1)
            }
        }
}

/// The YAML with every `token` section's `secret` (when given) and
/// `expireTime` set (comments and other lines kept).
pub open spec fn token_rewritten(yaml: Seq<char>, secret: Option<Seq<char>>, expire: Seq<char>) -> Seq<char> {
    match_final_nl(
        yaml,
        fold_lines(lines(yaml), SectionState { inside: false, indent: 0, inserted: false }, token_step(secret, expire)),
    )
}

fn token_line_exec(line: &Vec<char>, secret: Option<&str>, expire: &str) -> (r: Option<Vec<char>>)
    ensures
        match token_line(line@, match secret { Some(x) => Some(x@), None => None }, expire@) {
            Some(x) => r matches Some(v) && v@ == x,
            None => r is None,
        },
{
    let key = line_key_exec(line);
    if eq_str(&key, "secret") {
        if let Some(sv) = secret {
            if let Some(nl) = replace_scalar_line(line, "secret", sv) {
                return Some(nl);
            }
        }
    }
    if eq_str(&key, "expireTime") {
        replace_scalar_line(line, "expireTime", expire)
    } else {
        None
    }
}

/// Sets the token secret and expiry (see `token_rewritten`); the values are the
/// YAML texts to write, `secret` `None` leaving the secret as it is.
pub fn rewrite_token_yaml(yaml: &str, secret: Option<&str>, expire: &str) -> (r: String)
    ensures
        r@ == token_rewritten(yaml@, match secret { Some(x) => Some(x@), None => None }, expire@),
{
    let s = chars_of(yaml);
    let ls = lines_of(&s);
    let ghost sv = match secret { Some(x) => Some(x@), None => None };
    let ghost step = token_step(sv, expire@);
    let ghost init = SectionState { inside: false, indent: 0, inserted: false };
    let mut out: Vec<char> = Vec::new();
    let mut inside = false;
    let mut indent: usize = 0;
    let mut i: usize = 0;
    assert(lines(yaml@).skip(0) =~= lines(yaml@));
    while i < ls.len()
        invariant
            i <= ls.len(),
            vviews(ls@) == lines(yaml@),
            sv == (match secret { Some(x) => Some(x@), None => None::<Seq<char>> }),
            step == token_step(sv, expire@),
            out@ + fold_lines(
                lines(yaml@).skip(i as int),
                SectionState { inside, indent: indent as int, inserted: false },
                step,
            ) == fold_lines(lines(yaml@), init, step),
        decreases ls.len() - i,
    {
        let ghost st = SectionState { inside, indent: indent as int, inserted: false };
        proof {
            lemma_fold_step(lines(yaml@), i as int, st, step);
        }
        let line = &ls[i];
        assert(line@ == lines(yaml@)[i as int]);
        let ghost before = out@;
        let key = line_key_exec(line);
        if eq_str(&key, "token") {
            inside = true;
            indent = indent_width(line);
            extend_chars(&mut out, line);
            out.push('\n');
        } else {
            inside = leaves_exec(line, inside, indent);
            let mut done = false;
            if inside {
                match token_line_exec(line, secret, expire) {
                    Some(nl) => {
                        extend_chars(&mut out, &nl);
                        out.push('\n');
                        done = true;
                    },
                    None => {},
                }
            }
            if !done {
                extend_chars(&mut out, line);
                out.push('\n');
            }
        }
        assert(out@ + fold_lines(
            lines(yaml@).skip(i + 1),
            SectionState { inside, indent: indent as int, inserted: false },
            step,
        ) =~= before + fold_lines(lines(yaml@).skip(i as int), st, step));
        i = i + 1;
    }
    proof {
        lemma_fold_end(lines(yaml@), SectionState { inside, indent: indent as int, inserted: false }, step);
    }
    fix_final_nl(&s, &mut out);
    string_of(&out)
}

// ---------------------------------------------------------------------------
// Configurations of the Nacos script
// ---------------------------------------------------------------------------

/// The configurations with their rewritten texts: an entry whose text changed
/// gets it with its MD5 (`md5_hex_of`); the others stay as they were.
pub open spec fn rewritten_configs(
    old: Seq<crate::nacos_sql::ConfigModel>,
    texts: Seq<Seq<char>>,
) -> Seq<crate::nacos_sql::ConfigModel> {
    Seq::new(
        old.len(),
        |i: int|
            if texts[i] == old[i].content {
                old[i]
            } else {
                crate::nacos_sql::with_content(old[i], texts[i], crate::ext_calls::md5_hex_of(texts[i]))
            },
    )
}

/// How many entries got a new text.
pub open spec fn changed_count(old: Seq<crate::nacos_sql::ConfigModel>, texts: Seq<Seq<char>>) -> nat
    decreases old.len(),
{
    if old.len() == 0 || texts.len() == 0 {
        0
    } else {
        changed_count(old.drop_last(), texts.drop_last()) + (if texts.last() == old.last().content { 0nat } else { 1nat })
    }
}

/// Gives each configuration its rewritten text (`texts[i]` for entry `i`),
/// recomputing the MD5 of the changed ones; returns how many changed.
pub fn apply_rewritten_texts(
    configs: &mut Vec<crate::nacos_sql::NacosServiceConfig>,
    texts: &Vec<String>,
) -> (r: usize)
    requires
        texts.len() == old(configs).len(),
    ensures
        crate::nacos_sql::configs_model(final(configs)@) == rewritten_configs(
            crate::nacos_sql::configs_model(old(configs)@),
            crate::module_order::names(texts@),
        ),
        r == changed_count(crate::nacos_sql::configs_model(old(configs)@), crate::module_order::names(texts@)),
{
    let ghost om = crate::nacos_sql::configs_model(configs@);
    let ghost tv = crate::module_order::names(texts@);
    let mut rest: Vec<crate::nacos_sql::NacosServiceConfig> = Vec::new();
    std::mem::swap(&mut rest, configs);
    let mut out: Vec<crate::nacos_sql::NacosServiceConfig> = Vec::new();
    let mut n: usize = 0;
    let mut i: usize = 0;
    let total = rest.len();
    while i < total
        invariant
            total == om.len(),
            tv.len() == om.len(),
            tv == crate::module_order::names(texts@),
            i <= total,
            rest.len() == total - i,
            crate::nacos_sql::configs_model(rest@) == om.skip(i as int),
            crate::nacos_sql::configs_model(out@) == rewritten_configs(om, tv).take(i as int),
            n == changed_count(om.take(i as int), tv.take(i as int)),
            n <= i,
        decreases total - i,
    {
        let ghost prev = rest@;
        assert(crate::nacos_sql::configs_model(prev)[0] == om.skip(i as int)[0]);
        let mut c = rest.remove(0);
        assert(c@ == om[i as int]);
        assert(rest@ =~= prev.subrange(1, prev.len() as int));
        assert forall|k: int| 0 <= k < rest@.len() implies #[trigger] crate::nacos_sql::configs_model(rest@)[k] == om.skip(i + 1)[k] by {
            assert(rest@[k] == prev[k + 1]);
            assert(crate::nacos_sql::configs_model(prev)[k + 1] == om.skip(i as int)[k + 1]);
        }
        assert(crate::nacos_sql::configs_model(rest@) =~= om.skip(i + 1));
        let t = &texts[i];
        assert(t@ == tv[i as int]);
        let changed = !crate::text::chars_eq(&chars_of(t.as_str()), &chars_of(c.content_text().as_str()));
        let ghost before = out@;
        assert(om.take(i + 1).drop_last() =~= om.take(i as int));
        assert(tv.take(i + 1).drop_last() =~= tv.take(i as int));
        if changed {
            let md5 = crate::ext_calls::md5_hex(t.as_str());
            c.set_content(t.clone(), md5);
            n = n + 1;
        }
        out.push(c);
        assert(crate::nacos_sql::configs_model(out@) =~= rewritten_configs(om, tv).take(i + 1)) by {
            assert(crate::nacos_sql::configs_model(out@) =~= crate::nacos_sql::configs_model(before).push(out@.last()@));
        }
        i = i + 1;
    }
    assert(om.take(total as int) =~= om);
    assert(tv.take(total as int) =~= tv);
    assert(rewritten_configs(om, tv).take(total as int) =~= rewritten_configs(om, tv));
    *configs = out;
    n
}

} // verus!
