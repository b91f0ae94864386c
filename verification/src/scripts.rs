//! Startup / build scripts: the `<finalName>` of the packaged jar.
use vstd::prelude::*;
use vstd::string::StringExecFns;
use crate::ext_calls::{piece_views, pieces_text, regex_pieces, regex_pieces_of};
use crate::nacos_yaml::replace_first;
use crate::text::{chars_of, extend_chars, extend_str, find_from_exec, lemma_find_from, matches_at, slice_chars, string_of};

verus! {

/// Result of generating scripts.
#[derive(Debug, Clone)]
pub struct ScriptsOutcome {
    pub created_files: usize,
    pub summary: Vec<String>,
}

/// `        <finalName>{name}</finalName>\n`.
pub open spec fn final_name_block(name: Seq<char>) -> Seq<char> {
    "        <finalName>"@ + name + "</finalName>\n"@
}

/// The POM with `<finalName>` added right after the first `<build ...>` tag, or,
/// without one, a new `<build>` section before the first `</project>`.
pub open spec fn final_name_injected(content: Seq<char>, name: Seq<char>) -> Seq<char> {
    match regex_pieces_of("<build\\b[^>]*>"@, content) {
        None => content,
        Some((ps, tail)) => if ps.len() > 0 {
            ps[0].0 + ps[0].1 + final_name_block(name) + pieces_text(ps.drop_first(), tail)
        } else {
            replace_first(
                content,
                "</project>"@,
                "    <build>\n"@ + final_name_block(name) + "    </build>\n</project>"@,
            )
        },
    }
}

fn push_pieces(out: &mut Vec<char>, pieces: &Vec<crate::ext_calls::RegexPiece>, from: usize, tail: &String)
    requires
        from <= pieces.len(),
    ensures
        final(out)@ == old(out)@ + pieces_text(piece_views(pieces@).skip(from as int), tail@),
{
    let ghost pv = piece_views(pieces@);
    let ghost start = out@;
    let mut i: usize = from;
    while i < pieces.len()
        invariant
            from <= i <= pieces.len(),
            pv == piece_views(pieces@),
            out@ + pieces_text(pv.skip(i as int), tail@) == start + pieces_text(pv.skip(from as int), tail@),
        decreases pieces.len() - i,
    {
        let ghost before = out@;
        assert(pv.skip(i as int)[0] == pv[i as int]);
        assert(pv.skip(i as int).drop_first() =~= pv.skip(i + 1));
        extend_str(out, pieces[i].0.as_str());
        extend_str(out, pieces[i].1.as_str());
        assert(out@ + pieces_text(pv.skip(i + 1), tail@) =~= before + pieces_text(pv.skip(i as int), tail@));
        i = i + 1;
    }
    assert(pv.skip(i as int) =~= Seq::<crate::ext_calls::PieceModel>::empty());
    extend_str(out, tail.as_str());
}

/// Adds `<finalName>{name}</finalName>` to a POM (see `final_name_injected`).
pub fn inject_final_name(content: &str, name: &str) -> (r: String)
    ensures
        r@ == final_name_injected(content@, name@),
{
    let mut block: Vec<char> = Vec::new();
    extend_str(&mut block, "        <finalName>");
    extend_str(&mut block, name);
    extend_str(&mut block, "</finalName>\n");
    match regex_pieces("<build\\b[^>]*>", content) {
        None => String::from_str(content),
        Some((pieces, tail)) => {
            if pieces.len() > 0 {
                let mut out: Vec<char> = Vec::new();
                extend_str(&mut out, pieces[0].0.as_str());
                extend_str(&mut out, pieces[0].1.as_str());
                extend_chars(&mut out, &block);
                push_pieces(&mut out, &pieces, 1, &tail);
                proof {
                    assert(piece_views(pieces@).skip(1) =~= piece_views(pieces@).drop_first());
                }
                string_of(&out)
            } else {
                let mut to: Vec<char> = Vec::new();
                extend_str(&mut to, "    <build>\n");
                extend_chars(&mut to, &block);
                extend_str(&mut to, "    </build>\n</project>");
                let c = chars_of(content);
                let close = chars_of("</project>");
                proof {
                    lemma_find_from(c@, close@, 0);
                }
                match find_from_exec(&c, &close, 0) {
                    Some(k) => {
                        let cl: usize = c.len();
                        assert(matches_at(c@, close@, k as int));
                        let end: usize = k + close.len();
                        let mut out = slice_chars(&c, 0, k);
                        extend_chars(&mut out, &to);
                        let rest = slice_chars(&c, end, cl);
                        extend_chars(&mut out, &rest);
                        assert(out@ =~= replace_first(content@, "</project>"@, to@));
                        string_of(&out)
                    },
                    None => String::from_str(content),
                }
            }
        },
    }
}

/// A pom given `finalName` `name`; `None` when it already has a `finalName`
/// or the pom offers no place for it.
pub open spec fn final_name_set(content: Seq<char>, name: Seq<char>) -> Option<Seq<char>> {
    if crate::text::contains(content, "<finalName>"@) {
        None
    } else {
        let n = final_name_injected(content, name);
        if n == content {
            None
        } else {
            Some(n)
        }
    }
}

/// Gives a pom's text the `finalName` `name` (see `final_name_set`).
pub fn set_final_name(content: &str, name: &str) -> (r: Option<String>)
    ensures
        match r {
            Some(x) => final_name_set(content@, name@) == Some(x@),
            None => final_name_set(content@, name@) is None,
        },
{
    let c = crate::text::chars_of(content);
    if crate::text::contains_str(&c, "<finalName>") {
        return None;
    }
    let n = inject_final_name(content, name);
    if crate::text::chars_eq(&crate::text::chars_of(n.as_str()), &c) {
        None
    } else {
        Some(n)
    }
}

/// The admin module's pom named `{prefix}-admin` (see `final_name_set`).
pub fn set_admin_pom_final_name(content: &str, params: &crate::params::CustomizeParams) -> (r: Option<String>)
    ensures
        match r {
            Some(x) => final_name_set(content@, params.new_module_prefix@ + "-admin"@) == Some(x@),
            None => final_name_set(content@, params.new_module_prefix@ + "-admin"@) is None,
        },
{
    let mut name = crate::text::chars_of(params.new_module_prefix.as_str());
    crate::text::extend_str(&mut name, "-admin");
    set_final_name(content, crate::text::string_of(&name).as_str())
}

} // verus!
