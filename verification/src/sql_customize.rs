//! Customizing the SQL initialization scripts: the database name, and the
//! Quartz table blocks removed.
use vstd::prelude::*;
use crate::ext_calls::{lowercase_of, regex_pieces, regex_pieces_of, to_lowercase};
use crate::nacos_yaml::{regex_replace_all, regex_replaced, MatchModel, MatchRule};
use crate::params::CustomizeParams;
use crate::security::{admin_password_pattern, demo_users_pattern, match_count, remove_demo_users, replace_admin_password};
use crate::text::{chars_of, contains, contains_str, extend_chars, extend_str, find, find_from, find_from_exec, lemma_find_from, lemma_find_shift, slice_chars, string_of, vviews};

verus! {

/// What customizing the SQL scripts changed.
#[derive(Debug, Clone)]
pub struct SqlOutcome {
    pub modified_files: usize,
    pub summary: Vec<String>,
}


/// `create database` / `use` of a standard RuoYi database name.
pub open spec fn db_name_pattern() -> Seq<char> {
    "(?i)((?:create\\s+database|use)\\s+`?)(ry[-_](?:vue|cloud))(`?)"@
}

/// The number of matches of a pattern (0 when it does not compile).
pub open spec fn matches_in(pattern: Seq<char>, text: Seq<char>) -> nat {
    match regex_pieces_of(pattern, text) {
        Some((ps, _t)) => ps.len(),
        None => 0,
    }
}

/// Puts `new_db` in place of the standard database name in `create database` and
/// `use` statements (each match replaced by the template `${1}`, `new_db`,
/// `${3}`); returns how many there were (the text is unchanged without any).
pub fn replace_db_name(content: &mut String, new_db: &str) -> (r: usize)
    ensures
        r == matches_in(db_name_pattern(), old(content)@),
        r > 0 ==> final(content)@ == regex_replaced(
            db_name_pattern(),
            old(content)@,
            MatchModel::Template("${1}"@ + new_db@ + "${3}"@),
        ),
        r == 0 ==> final(content)@ == old(content)@,
{
    let pattern = "(?i)((?:create\\s+database|use)\\s+`?)(ry[-_](?:vue|cloud))(`?)";
    let n = match regex_pieces(pattern, content.as_str()) {
        Some((pieces, _)) => pieces.len(),
        None => 0,
    };
    if n > 0 {
        let mut t = chars_of("${1}");
        extend_str(&mut t, new_db);
        extend_str(&mut t, "${3}");
        let rule = MatchRule::Template(string_of(&t));
        *content = regex_replace_all(pattern, content.as_str(), &rule);
    }
    n
}

/// `str::split` with a non-empty separator: the pieces between separators.
pub open spec fn split_on(s: Seq<char>, sep: Seq<char>) -> Seq<Seq<char>>
    decreases s.len(),
{
    if sep.len() == 0 {
        seq![s]
    } else {
        match find(s, sep) {
            Some(i) => {
                proof {
                    lemma_find_from(s, sep, 0);
                }
                seq![s.take(i)] + split_on(s.skip(i + sep.len()), sep)
            },
            None => seq![s],
        }
    }
}

/// The separator of the script's table blocks.
pub open spec fn block_separator() -> Seq<char> {
    "-- ----------------------------"@
}

/// Whether a block names a Quartz table (`qrtz_` in its lowercase).
pub open spec fn is_quartz_block(part: Seq<char>) -> bool {
    contains(lowercase_of(part), "qrtz_"@)
}

/// The blocks that are not Quartz blocks, in order.
pub open spec fn kept_blocks(ps: Seq<Seq<char>>) -> Seq<Seq<char>>
    decreases ps.len(),
{
    if ps.len() == 0 {
        Seq::empty()
    } else if is_quartz_block(ps.last()) {
        kept_blocks(ps.drop_last())
    } else {
        kept_blocks(ps.drop_last()).push(ps.last())
    }
}

/// The number of Quartz blocks.
pub open spec fn quartz_count(ps: Seq<Seq<char>>) -> nat
    decreases ps.len(),
{
    if ps.len() == 0 {
        0
    } else {
        quartz_count(ps.drop_last()) + if is_quartz_block(ps.last()) {
            1nat
        } else {
            0nat
        }
    }
}

/// Blocks joined with the separator between them.
pub open spec fn join_blocks(ps: Seq<Seq<char>>, sep: Seq<char>) -> Seq<char>
    decreases ps.len(),
{
    if ps.len() == 0 {
        Seq::empty()
    } else if ps.len() == 1 {
        ps[0]
    } else {
        join_blocks(ps.drop_last(), sep) + sep + ps.last()
    }
}

fn split_exec(s: &Vec<char>, sep: &Vec<char>) -> (r: Vec<Vec<char>>)
    requires
        sep.len() > 0,
    ensures
        vviews(r@) == split_on(s@, sep@),
{
    let mut parts: Vec<Vec<char>> = Vec::new();
    let mut pos: usize = 0;
    assert(s@.skip(0) =~= s@);
    loop
        invariant
            pos <= s.len(),
            sep.len() > 0,
            vviews(parts@) + split_on(s@.skip(pos as int), sep@) == split_on(s@, sep@),
        decreases s.len() - pos,
    {
        let ghost rest = s@.skip(pos as int);
        proof {
            lemma_find_shift(s@, sep@, pos as int);
            lemma_find_from(s@, sep@, pos as int);
        }
        match find_from_exec(s, sep, pos) {
            Some(i) => {
                let piece = slice_chars(s, pos, i);
                proof {
                    assert(piece@ =~= rest.take(i - pos));
                    assert(rest.skip(i - pos + sep.len()) =~= s@.skip(i + sep.len()));
                }
                let ghost before = vviews(parts@);
                parts.push(piece);
                assert(vviews(parts@) =~= before.push(piece@));
                pos = i + sep.len();
            },
            None => {
                let piece = slice_chars(s, pos, s.len());
                assert(piece@ =~= rest);
                let ghost before = vviews(parts@);
                parts.push(piece);
                assert(vviews(parts@) =~= before.push(piece@));
                return parts;
            },
        }
    }
}

/// The script with its Quartz blocks removed (the other blocks joined again by
/// the separator) and how many went; the script is unchanged when none did.
pub open spec fn quartz_removed(content: Seq<char>) -> (Seq<char>, nat) {
    let parts = split_on(content, block_separator());
    if parts.len() <= 1 {
        (content, 0)
    } else {
        let n = quartz_count(parts);
        if n > 0 {
            (join_blocks(kept_blocks(parts), block_separator()), n)
        } else {
            (content, 0)
        }
    }
}

/// Removes the Quartz table blocks from a script (see `quartz_removed`);
/// returns how many were removed.
pub fn remove_quartz_blocks(content: &mut String) -> (r: usize)
    ensures
        r == quartz_removed(old(content)@).1,
        final(content)@ == quartz_removed(old(content)@).0,
{
    let c = chars_of(content.as_str());
    let sep = chars_of("-- ----------------------------");
    proof {
        reveal_strlit("-- ----------------------------");
    }
    let parts = split_exec(&c, &sep);
    if parts.len() <= 1 {
        return 0;
    }
    let ghost ps = vviews(parts@);
    let mut kept: Vec<char> = Vec::new();
    let mut nkept: usize = 0;
    let mut removed: usize = 0;
    let mut i: usize = 0;
    assert(ps.take(0) =~= Seq::<Seq<char>>::empty());
    while i < parts.len()
        invariant
            i <= parts.len(),
            ps == vviews(parts@),
            kept@ == join_blocks(kept_blocks(ps.take(i as int)), sep@),
            nkept == kept_blocks(ps.take(i as int)).len(),
            removed == quartz_count(ps.take(i as int)),
            nkept + removed == i,
            parts.len() <= usize::MAX,
            sep@ == block_separator(),
        decreases parts.len() - i,
    {
        assert(ps.take(i + 1).drop_last() =~= ps.take(i as int));
        assert(ps.take(i + 1).last() == ps[i as int]);
        let part = string_of(&parts[i]);
        let lower = to_lowercase(part.as_str());
        assert(is_quartz_block(ps[i as int]) == contains(lower@, "qrtz_"@));
        if contains_str(&chars_of(lower.as_str()), "qrtz_") {
            removed = removed + 1;
        } else {
            let ghost kb = kept_blocks(ps.take(i as int));
            if nkept > 0 {
                extend_chars(&mut kept, &sep);
            }
            extend_chars(&mut kept, &parts[i]);
            proof {
                let kb2 = kb.push(ps[i as int]);
                assert(kb2.drop_last() =~= kb);
                if kb.len() == 0 {
                    assert(join_blocks(kb, sep@) =~= Seq::<char>::empty());
                    assert(kept@ =~= join_blocks(kb2, sep@));
                }
            }
            nkept = nkept + 1;
        }
        i = i + 1;
    }
    assert(ps.take(i as int) =~= ps);
    if removed > 0 {
        *content = string_of(&kept);
    }
    removed
}

/// The database name of the scripts: the given one, else the module prefix.
pub open spec fn sql_db_name(p: CustomizeParams) -> Seq<char> {
    if p.db_name@.len() == 0 {
        p.new_module_prefix@
    } else {
        p.db_name@
    }
}

/// The database name of the scripts (see `sql_db_name`).
pub fn new_db_name(params: &CustomizeParams) -> (r: String)
    ensures
        r@ == sql_db_name(*params),
{
    if params.db_name.as_str().unicode_len() == 0 {
        String::from_str(params.new_module_prefix.as_str())
    } else {
        String::from_str(params.db_name.as_str())
    }
}

/// What customizing one script does: the new text, whether it changed, how
/// many database names were replaced and how many Quartz blocks went. The
/// database name comes first, then the admin password (when a hash is given),
/// the demo accounts and the Quartz blocks (when asked to).
pub open spec fn sql_customized(
    content: Seq<char>,
    new_db: Seq<char>,
    admin_hash: Option<Seq<char>>,
    clean_demo_users: bool,
    clean_quartz: bool,
) -> (Seq<char>, bool, nat, nat) {
    let n = matches_in(db_name_pattern(), content);
    let c1 = if n > 0 {
        regex_replaced(db_name_pattern(), content, MatchModel::Template("${1}"@ + new_db + "${3}"@))
    } else {
        content
    };
    let admin = match admin_hash {
        Some(h) => match_count(admin_password_pattern(), c1) > 0,
        None => false,
    };
    let c2 = match admin_hash {
        Some(h) => if admin {
            regex_replaced(admin_password_pattern(), c1, MatchModel::Between(h))
        } else {
            c1
        },
        None => c1,
    };
    let demo = if clean_demo_users {
        match_count(demo_users_pattern(), c2)
    } else {
        0
    };
    let c3 = if demo > 0 {
        regex_replaced(demo_users_pattern(), c2, MatchModel::Drop)
    } else {
        c2
    };
    let q = if clean_quartz {
        quartz_removed(c3).1
    } else {
        0
    };
    let c4 = if clean_quartz {
        quartz_removed(c3).0
    } else {
        c3
    };
    (c4, n > 0 || admin || demo > 0 || q > 0, n, q)
}

/// Customizes one SQL script (see `sql_customized`).
pub fn customize_sql_text(
    content: &str,
    new_db: &str,
    admin_hash: Option<&str>,
    clean_demo_users: bool,
    clean_quartz: bool,
) -> (r: (String, bool, usize, usize))
    ensures
        ({
            let e = sql_customized(content@, new_db@, match admin_hash {
                Some(h) => Some(h@),
                None => None,
            }, clean_demo_users, clean_quartz);
            &&& r.0@ == e.0
            &&& r.1 == e.1
            &&& r.2 == e.2
            &&& r.3 == e.3
        }),
{
    let mut c = String::from_str(content);
    let n = replace_db_name(&mut c, new_db);
    let admin = match admin_hash {
        Some(h) => replace_admin_password(&mut c, h),
        None => false,
    };
    let demo = if clean_demo_users {
        remove_demo_users(&mut c)
    } else {
        0
    };
    let q = if clean_quartz {
        remove_quartz_blocks(&mut c)
    } else {
        0
    };
    (c, n > 0 || admin || demo > 0 || q > 0, n, q)
}

} // verus!
