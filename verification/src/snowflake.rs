//! Snowflake primary keys: which service methods insert a main entity.
use vstd::prelude::*;
use vstd::string::StringExecFns;
use crate::ext_calls::{char_to_uppercase, piece_views, pieces_text, regex_pieces, regex_pieces_of, upper_of, PieceModel};
use crate::nacos_yaml::{group_exec, group_text, push_pieces_from, regex_replace_all, regex_replaced, MatchModel, MatchRule};
use crate::maven::{add_dependency_block, dep_block, dep_block_text, pom_with_dependency};
use crate::module_order::{names, order_by_rank, rank_order};
use crate::text::{chars_eq, chars_of, contains, contains_str, extend_chars, extend_str, starts_with, string_of};

verus! {

/// The type name without a leading `Sys` (`SysRole` → `Role`).
pub open spec fn short_type(entity: Seq<char>) -> Seq<char> {
    if starts_with(entity, "Sys"@) {
        entity.skip("Sys"@.len() as int)
    } else {
        entity
    }
}

/// A main-entity insert: `insert{Type}` or `insert{Short}`; association inserts
/// such as `insertRoleMenu` are not.
pub open spec fn primary_insert(method: Seq<char>, entity: Seq<char>) -> bool {
    method == "insert"@ + entity || method == "insert"@ + short_type(entity)
}

/// Whether `method` inserts the main entity `entity`.
pub fn is_primary_insert(method: &str, entity: &str) -> (r: bool)
    ensures
        r == primary_insert(method@, entity@),
{
    let m = chars_of(method);
    let t = chars_of(entity);
    let mut full: Vec<char> = Vec::new();
    extend_str(&mut full, "insert");
    extend_str(&mut full, entity);
    let sys = chars_of("Sys");
    let mut short: Vec<char> = Vec::new();
    extend_str(&mut short, "insert");
    if crate::text::starts_with_str(&t, "Sys") {
        let rest = crate::text::slice_chars(&t, sys.len(), t.len());
        assert(rest@ =~= entity@.skip("Sys"@.len() as int));
        crate::text::extend_chars(&mut short, &rest);
    } else {
        extend_str(&mut short, entity);
    }
    chars_eq(&m, &full) || chars_eq(&m, &short)
}

/// Text injected after the insert signature of the generator template.
pub open spec fn vm_line() -> Seq<char> {
    "\n        ${className}.set${pkColumn.capJavaField}(cn.hutool.core.util.IdUtil.getSnowflakeNextId());"@
}

/// The insert method of the generator's `serviceImpl.java.vm`.
pub open spec fn vm_pattern() -> Seq<char> {
    "(public\\s+int\\s+insert\\$\\{ClassName\\}\\(\\$\\{ClassName\\}\\s+\\$\\{className\\}\\)\\s*\\{)"@
}

/// The template with a snowflake key set first in its insert method; `None` when
/// it already uses `IdUtil` or has no such method.
pub open spec fn vm_injected(content: Seq<char>) -> Option<Seq<char>> {
    if contains(content, "IdUtil"@) {
        None
    } else {
        match regex_pieces_of(vm_pattern(), content) {
            None => None,
            Some((ps, tail)) => if ps.len() == 0 {
                None
            } else {
                Some(ps[0].0 + group_text(ps[0].2, 0) + vm_line() + pieces_text(ps.drop_first(), tail))
            },
        }
    }
}

/// Makes the generator template set a snowflake primary key in its insert method.
pub fn inject_snowflake_to_service_impl_vm(content: &str) -> (r: Option<String>)
    ensures
        match r {
            Some(x) => vm_injected(content@) == Some(x@),
            None => vm_injected(content@) is None,
        },
{
    if contains_str(&chars_of(content), "IdUtil") {
        return None;
    }
    let pattern = "(public\\s+int\\s+insert\\$\\{ClassName\\}\\(\\$\\{ClassName\\}\\s+\\$\\{className\\}\\)\\s*\\{)";
    match regex_pieces(pattern, content) {
        None => None,
        Some((pieces, tail)) => {
            if pieces.len() == 0 {
                return None;
            }
            let mut out: Vec<char> = Vec::new();
            extend_str(&mut out, pieces[0].0.as_str());
            let g1 = group_exec(&pieces[0].2, 0);
            extend_chars(&mut out, &g1);
            extend_str(&mut out, "\n        ${className}.set${pkColumn.capJavaField}(cn.hutool.core.util.IdUtil.getSnowflakeNextId());");
            push_pieces_from(&mut out, &pieces, 1, &tail);
            assert(piece_views(pieces@).skip(1) =~= piece_views(pieces@).drop_first());
            Some(string_of(&out))
        },
    }
}

/// `field` with its first character uppercased (Unicode).
pub open spec fn capitalized(field: Seq<char>) -> Seq<char> {
    if field.len() == 0 {
        Seq::empty()
    } else {
        upper_of(field[0]) + field.drop_first()
    }
}

/// `set` + the capitalized field.
pub open spec fn setter_of(field: Seq<char>) -> Seq<char> {
    "set"@ + capitalized(field)
}

/// Uppercases the first character (Unicode).
pub fn capitalize_first(s: &str) -> (r: String)
    ensures
        r@ == capitalized(s@),
{
    let c = chars_of(s);
    if c.len() == 0 {
        return String::new();
    }
    let mut out = chars_of(char_to_uppercase(c[0]).as_str());
    let rest = crate::text::slice_chars(&c, 1, c.len());
    assert(rest@ =~= s@.drop_first());
    extend_chars(&mut out, &rest);
    string_of(&out)
}

/// The setter of a field: `userId` → `setUserId`.
pub fn field_to_setter(field: &str) -> (r: String)
    ensures
        r@ == setter_of(field@),
{
    let mut out: Vec<char> = Vec::new();
    extend_str(&mut out, "set");
    let cap = capitalize_first(field);
    extend_str(&mut out, cap.as_str());
    string_of(&out)
}

/// `select{Entity|Short}ById(Long field)`.
pub open spec fn by_id_pattern(entity: Seq<char>) -> Seq<char> {
    "select(?:"@ + entity + "|"@ + short_type(entity) + ")ById\\(\\s*Long\\s+(\\w+)\\s*\\)"@
}

/// `public {Entity} selectXxx(Long field)`.
pub open spec fn returns_entity_pattern(entity: Seq<char>) -> Seq<char> {
    "public\\s+"@ + entity + "\\s+select\\w+\\(\\s*Long\\s+(\\w+)\\s*\\)"@
}

/// The primary key setter of an entity, from the service's own queries: a
/// `select...ById(Long x)` first, else a `select...(Long x)` returning the entity.
pub open spec fn pk_setter(content: Seq<char>, entity: Seq<char>) -> Option<Seq<char>> {
    match regex_pieces_of(by_id_pattern(entity), content) {
        None => None,
        Some((ps, _t)) => if ps.len() > 0 {
            Some(setter_of(group_text(ps[0].2, 0)))
        } else {
            match regex_pieces_of(returns_entity_pattern(entity), content) {
                None => None,
                Some((qs, _u)) => if qs.len() > 0 {
                    Some(setter_of(group_text(qs[0].2, 0)))
                } else {
                    None
                },
            }
        },
    }
}

fn short_type_exec(entity: &str) -> (r: Vec<char>)
    ensures
        r@ == short_type(entity@),
{
    let t = chars_of(entity);
    if crate::text::starts_with_str(&t, "Sys") {
        let sys = chars_of("Sys");
        let rest = crate::text::slice_chars(&t, sys.len(), t.len());
        assert(rest@ =~= entity@.skip("Sys"@.len() as int));
        rest
    } else {
        t
    }
}

/// Finds the primary key setter of an entity (see `pk_setter`).
pub fn resolve_pk_setter_for_entity(content: &str, entity: &str) -> (r: Option<String>)
    ensures
        match r {
            Some(x) => pk_setter(content@, entity@) == Some(x@),
            None => pk_setter(content@, entity@) is None,
        },
{
    let short = short_type_exec(entity);
    let mut p1: Vec<char> = Vec::new();
    extend_str(&mut p1, "select(?:");
    extend_str(&mut p1, entity);
    extend_str(&mut p1, "|");
    extend_chars(&mut p1, &short);
    extend_str(&mut p1, ")ById\\(\\s*Long\\s+(\\w+)\\s*\\)");
    let p1s = string_of(&p1);
    match regex_pieces(p1s.as_str(), content) {
        None => None,
        Some((ps, _t)) => {
            if ps.len() > 0 {
                let g = group_exec(&ps[0].2, 0);
                return Some(field_to_setter(string_of(&g).as_str()));
            }
            let mut p2: Vec<char> = Vec::new();
            extend_str(&mut p2, "public\\s+");
            extend_str(&mut p2, entity);
            extend_str(&mut p2, "\\s+select\\w+\\(\\s*Long\\s+(\\w+)\\s*\\)");
            let p2s = string_of(&p2);
            match regex_pieces(p2s.as_str(), content) {
                None => None,
                Some((qs, _u)) => {
                    if qs.len() > 0 {
                        let g = group_exec(&qs[0].2, 0);
                        Some(field_to_setter(string_of(&g).as_str()))
                    } else {
                        None
                    }
                },
            }
        },
    }
}

/// The insert methods of a service implementation (signature, method, type, variable).
pub open spec fn insert_pattern() -> Seq<char> {
    "(public\\s+int\\s+(insert\\w+)\\(\\s*(\\w+)\\s+(\\w+)\\s*\\)\\s*\\{)"@
}

/// Whether a match gets a snowflake assignment: a main-entity insert whose key
/// setter is known.
pub open spec fn injects(content: Seq<char>, gs: Seq<Option<Seq<char>>>) -> bool {
    primary_insert(group_text(gs, 1), group_text(gs, 2)) && pk_setter(content, group_text(gs, 2)) is Some
}

/// The replacement of one insert signature.
pub open spec fn insert_replacement(content: Seq<char>, gs: Seq<Option<Seq<char>>>) -> Seq<char> {
    if injects(content, gs) {
        group_text(gs, 0) + "\n        "@ + group_text(gs, 3) + "."@ + pk_setter(content, group_text(gs, 2))->0
            + "(cn.hutool.core.util.IdUtil.getSnowflakeNextId());"@
    } else {
        group_text(gs, 0)
    }
}

/// The text with every insert signature replaced.
pub open spec fn inserts_replaced(content: Seq<char>, ps: Seq<PieceModel>, tail: Seq<char>) -> Seq<char>
    decreases ps.len(),
{
    if ps.len() == 0 {
        tail
    } else {
        ps[0].0 + insert_replacement(content, ps[0].2) + inserts_replaced(content, ps.drop_first(), tail)
    }
}

/// The service source with a snowflake key set first in each main-entity insert
/// method whose key setter can be found; `None` when it already uses `IdUtil` or
/// nothing was injected.
pub open spec fn source_injected(content: Seq<char>) -> Option<Seq<char>> {
    if contains(content, "IdUtil"@) {
        None
    } else {
        match regex_pieces_of(insert_pattern(), content) {
            None => None,
            Some(pt) => replaced_if_injected(content, pt.0, pt.1),
        }
    }
}

/// The replaced text when at least one match injects, else `None`.
pub open spec fn replaced_if_injected(content: Seq<char>, ps: Seq<PieceModel>, tail: Seq<char>) -> Option<Seq<char>> {
    if exists|k: int| 0 <= k < ps.len() && #[trigger] injects(content, ps[k].2) {
        Some(inserts_replaced(content, ps, tail))
    } else {
        None
    }
}

/// Injects snowflake keys into the insert methods of a service implementation.
pub fn inject_snowflake_to_source(content: &str) -> (r: Option<String>)
    ensures
        match r {
            Some(x) => source_injected(content@) == Some(x@),
            None => source_injected(content@) is None,
        },
{
    if contains_str(&chars_of(content), "IdUtil") {
        return None;
    }
    let pattern = "(public\\s+int\\s+(insert\\w+)\\(\\s*(\\w+)\\s+(\\w+)\\s*\\)\\s*\\{)";
    match regex_pieces(pattern, content) {
        None => None,
        Some((pieces, tail)) => {
            let ghost pv = piece_views(pieces@);
            let mut out: Vec<char> = Vec::new();
            let mut any = false;
            let mut i: usize = 0;
            assert(pv.skip(0) =~= pv);
            while i < pieces.len()
                invariant
                    i <= pieces.len(),
                    pv == piece_views(pieces@),
                    out@ + inserts_replaced(content@, pv.skip(i as int), tail@) == inserts_replaced(content@, pv, tail@),
                    any == exists|k: int| 0 <= k < i && #[trigger] injects(content@, pv[k].2),
                decreases pieces.len() - i,
            {
                let ghost before = out@;
                assert(pv.skip(i as int)[0] == pv[i as int]);
                assert(pv.skip(i as int).drop_first() =~= pv.skip(i + 1));
                let gs = &pieces[i].2;
                let sig = group_exec(gs, 0);
                let method = group_exec(gs, 1);
                let ty = group_exec(gs, 2);
                let var = group_exec(gs, 3);
                let ty_s = string_of(&ty);
                let hit = if is_primary_insert(string_of(&method).as_str(), ty_s.as_str()) {
                    resolve_pk_setter_for_entity(content, ty_s.as_str())
                } else {
                    None
                };
                extend_str(&mut out, pieces[i].0.as_str());
                extend_chars(&mut out, &sig);
                match hit {
                    Some(setter) => {
                        extend_str(&mut out, "\n        ");
                        extend_chars(&mut out, &var);
                        extend_str(&mut out, ".");
                        extend_str(&mut out, setter.as_str());
                        extend_str(&mut out, "(cn.hutool.core.util.IdUtil.getSnowflakeNextId());");
                        any = true;
                    },
                    None => {},
                }
                assert(out@ + inserts_replaced(content@, pv.skip(i + 1), tail@) =~= before + inserts_replaced(
                    content@,
                    pv.skip(i as int),
                    tail@,
                ));
                assert(any == exists|k: int| 0 <= k < i + 1 && #[trigger] injects(content@, pv[k].2)) by {
                    if injects(content@, pv[i as int].2) {
                        assert(0 <= i < i + 1);
                    }
                }
                i = i + 1;
            }
            assert(pv.skip(i as int) =~= Seq::<PieceModel>::empty());
            assert(inserts_replaced(content@, pv.skip(i as int), tail@) == tail@);
            if !any {
                return None;
            }
            let ghost before = out@;
            extend_str(&mut out, tail.as_str());
            assert(out@ == before + tail@);
            assert(pattern@ == insert_pattern());
            assert(regex_pieces_of(insert_pattern(), content@) == Some((pv, tail@)));
            assert(i == pv.len());
            assert(exists|k: int| 0 <= k < pv.len() && #[trigger] injects(content@, pv[k].2));
            assert(out@ == inserts_replaced(content@, pv, tail@));
            assert(!contains(content@, "IdUtil"@));
            assert(replaced_if_injected(content@, pv, tail@) == Some(out@));
            let res = string_of(&out);
            assert(res@ == out@);
            Some(res)
        },
    }
}

/// The typed `@TableId(type = ...)` annotation.
pub open spec fn typed_table_id_pattern() -> Seq<char> {
    "@TableId\\s*\\(\\s*type\\s*=\\s*\\w+(\\.\\w+)?\\s*\\)"@
}

/// The `IdType` import.
pub open spec fn idtype_import() -> Seq<char> {
    "import com.baomidou.mybatisplus.annotation.IdType;"@
}

/// The text with the `IdType` import put before the first `import ` when missing.
pub open spec fn with_idtype_import(out: Seq<char>) -> Seq<char> {
    if contains(out, idtype_import()) {
        out
    } else {
        match crate::text::find(out, "import "@) {
            Some(idx) => out.take(idx) + idtype_import() + "\n"@ + out.skip(idx),
            None => out,
        }
    }
}

/// The domain source with its `@TableId` marked `IdType.INPUT` (typed
/// annotations rewritten, a bare `@TableId` line given the type) and the import
/// added; `None` when it already says `IdType.INPUT`, has no `@TableId`, or the
/// pattern does not compile.
pub open spec fn idtype_marked(content: Seq<char>) -> Option<Seq<char>> {
    if contains(content, "IdType.INPUT"@) {
        None
    } else {
        match regex_pieces_of(typed_table_id_pattern(), content) {
            None => None,
            Some((ps, tail)) => if ps.len() > 0 {
                Some(with_idtype_import(regex_replaced(typed_table_id_pattern(), content, MatchModel::Literal("@TableId(type = IdType.INPUT)"@))))
            } else if contains(content, "@TableId"@) {
                Some(with_idtype_import(crate::placeholders::str_replace(content, "@TableId\n"@, "@TableId(type = IdType.INPUT)\n"@)))
            } else {
                None
            },
        }
    }
}

fn add_idtype_import(out: &Vec<char>) -> (r: Vec<char>)
    ensures
        r@ == with_idtype_import(out@),
{
    if contains_str(out, "import com.baomidou.mybatisplus.annotation.IdType;") {
        return crate::text::slice_chars(out, 0, out.len());
    }
    let imp = chars_of("import ");
    proof {
        crate::text::lemma_find_from(out@, imp@, 0);
    }
    match crate::text::find_from_exec(out, &imp, 0) {
        Some(idx) => {
            let mut s = crate::text::slice_chars(out, 0, idx);
            extend_str(&mut s, "import com.baomidou.mybatisplus.annotation.IdType;");
            extend_str(&mut s, "\n");
            let rest = crate::text::slice_chars(out, idx, out.len());
            extend_chars(&mut s, &rest);
            assert(s@ =~= out@.take(idx as int) + idtype_import() + "\n"@ + out@.skip(idx as int));
            s
        },
        None => {
            let r = crate::text::slice_chars(out, 0, out.len());
            assert(r@ =~= out@);
            r
        },
    }
}

/// Marks the `@TableId` of a domain source `IdType.INPUT` (see `idtype_marked`).
pub fn mark_domain_idtype_input(content: &str) -> (r: Option<String>)
    ensures
        match r {
            Some(x) => idtype_marked(content@) == Some(x@),
            None => idtype_marked(content@) is None,
        },
{
    let c = chars_of(content);
    if contains_str(&c, "IdType.INPUT") {
        return None;
    }
    let pattern = "@TableId\\s*\\(\\s*type\\s*=\\s*\\w+(\\.\\w+)?\\s*\\)";
    match regex_pieces(pattern, content) {
        None => None,
        Some((pieces, _tail)) => {
            if pieces.len() > 0 {
                let rule = MatchRule::Literal(String::from_str("@TableId(type = IdType.INPUT)"));
                let out = regex_replace_all(pattern, content, &rule);
                Some(string_of(&add_idtype_import(&chars_of(out.as_str()))))
            } else if contains_str(&c, "@TableId") {
                let from = chars_of("@TableId\n");
                let to = chars_of("@TableId(type = IdType.INPUT)\n");
                let out = crate::placeholders::str_replace_chars(&c, &from, &to);
                Some(string_of(&add_idtype_import(&out)))
            } else {
                None
            }
        },
    }
}

/// The rank of a module by the words in its name: `common` first, then
/// `framework`, then `admin`, then the rest.
pub open spec fn name_rank(m: Seq<char>) -> u8 {
    if contains(m, "common"@) {
        0
    } else if contains(m, "framework"@) {
        1
    } else if contains(m, "admin"@) {
        2
    } else {
        3
    }
}

/// The ranks of a list of module names.
pub open spec fn name_ranks(ms: Seq<Seq<char>>) -> Seq<u8> {
    ms.map_values(|m: Seq<char>| name_rank(m))
}

/// The candidate modules for a new dependency, stably ordered: names holding
/// `common`, then `framework`, then `admin`, then the rest.
pub fn prioritize_modules(modules: &Vec<String>) -> (r: Vec<String>)
    ensures
        names(r@) == rank_order(names(modules@), name_ranks(names(modules@))),
{
    let mut ranks: Vec<u8> = Vec::new();
    let mut i: usize = 0;
    while i < modules.len()
        invariant
            i <= modules.len(),
            ranks.len() == i,
            forall|j: int| 0 <= j < i ==> ranks@[j] == name_rank(#[trigger] modules@[j]@),
        decreases modules.len() - i,
    {
        let m = chars_of(modules[i].as_str());
        let k: u8 = if contains_str(&m, "common") {
            0
        } else if contains_str(&m, "framework") {
            1
        } else if contains_str(&m, "admin") {
            2
        } else {
            3
        };
        ranks.push(k);
        i = i + 1;
    }
    assert(ranks@ =~= name_ranks(names(modules@)));
    order_by_rank(modules, &ranks)
}

/// Hutool version added to the project.
pub const HUTOOL_VERSION: &'static str = "5.8.32";

/// The pom with the `hutool-all` dependency added.
pub open spec fn hutool_pom(pom: Seq<char>) -> Seq<char> {
    pom_with_dependency(pom, dep_block("cn.hutool"@, "hutool-all"@, "5.8.32"@))
}

/// Adds the `hutool-all` dependency to the text of a pom.
pub fn add_hutool_dependency(pom: &str) -> (r: String)
    ensures
        r@ == hutool_pom(pom@),
{
    let block = dep_block_text("cn.hutool", "hutool-all", HUTOOL_VERSION);
    add_dependency_block(pom, &block)
}

} // verus!
