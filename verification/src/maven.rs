//! Maven `pom.xml` text: a dependency block and where it goes.
use vstd::prelude::*;
use crate::patch::{insert_at, insert_at_exec, find_str};
use crate::placeholders::str_replace;
use crate::text::{chars_of, extend_chars, extend_str, find, string_of};

verus! {

/// A `<dependency>` block on its own lines.
pub open spec fn dep_block(group: Seq<char>, artifact: Seq<char>, version: Seq<char>) -> Seq<char> {
    "\n    <dependency>\n        <groupId>"@ + group + "</groupId>\n        <artifactId>"@ + artifact
        + "</artifactId>\n        <version>"@ + version + "</version>\n    </dependency>\n"@
}

/// The text of a `<dependency>` block.
pub fn dep_block_text(group: &str, artifact: &str, version: &str) -> (r: Vec<char>)
    ensures
        r@ == dep_block(group@, artifact@, version@),
{
    let mut v: Vec<char> = Vec::new();
    extend_str(&mut v, "\n    <dependency>\n        <groupId>");
    extend_str(&mut v, group);
    extend_str(&mut v, "</groupId>\n        <artifactId>");
    extend_str(&mut v, artifact);
    extend_str(&mut v, "</artifactId>\n        <version>");
    extend_str(&mut v, version);
    extend_str(&mut v, "</version>\n    </dependency>\n");
    v
}

/// The pom with `block` put right after the first `<dependencies>`, or, when
/// there is none, a `<dependencies>` section holding it put before each
/// `</project>`.
pub open spec fn pom_with_dependency(pom: Seq<char>, block: Seq<char>) -> Seq<char> {
    match find(pom, "<dependencies>"@) {
        Some(i) => insert_at(pom, i + "<dependencies>"@.len(), block),
        None => str_replace(pom, "</project>"@, "    <dependencies>"@ + block + "    </dependencies>\n</project>"@),
    }
}

/// Adds a dependency block to the text of a pom (see `pom_with_dependency`).
pub fn add_dependency_block(pom: &str, block: &Vec<char>) -> (r: String)
    ensures
        r@ == pom_with_dependency(pom@, block@),
{
    let c = chars_of(pom);
    match find_str(&c, "<dependencies>") {
        Some(i) => {
            let open = chars_of("<dependencies>");
            string_of(&insert_at_exec(&c, i + open.len(), block))
        },
        None => {
            let from = chars_of("</project>");
            let mut to = chars_of("    <dependencies>");
            extend_chars(&mut to, block);
            extend_str(&mut to, "    </dependencies>\n</project>");
            string_of(&crate::placeholders::str_replace_chars(&c, &from, &to))
        },
    }
}

/// The index of the first module name ending in `-admin`.
pub open spec fn first_admin_index(ms: Seq<Seq<char>>) -> Option<int>
    decreases ms.len(),
{
    if ms.len() == 0 {
        None
    } else if crate::text::ends_with(ms[0], "-admin"@) {
        Some(0)
    } else {
        match first_admin_index(ms.drop_first()) {
            Some(k) => Some(k + 1),
            None => None,
        }
    }
}

/// The module that hosts generated configuration: the first ending in `-admin`,
/// else the first one; `None` without modules.
pub open spec fn admin_module(ms: Seq<Seq<char>>) -> Option<Seq<char>> {
    match first_admin_index(ms) {
        Some(k) => Some(ms[k]),
        None => if ms.len() > 0 {
            Some(ms[0])
        } else {
            None
        },
    }
}

proof fn lemma_first_admin_skip(ms: Seq<Seq<char>>, i: int)
    requires
        0 <= i <= ms.len(),
        forall|j: int| 0 <= j < i ==> !crate::text::ends_with(#[trigger] ms[j], "-admin"@),
    ensures
        first_admin_index(ms) == (match first_admin_index(ms.skip(i)) {
            Some(k) => Some(k + i),
            None => None::<int>,
        }),
    decreases i,
{
    if i > 0 {
        let t = ms.drop_first();
        assert forall|j: int| 0 <= j < i - 1 implies !crate::text::ends_with(#[trigger] t[j], "-admin"@) by {
            assert(t[j] == ms[j + 1]);
        }
        lemma_first_admin_skip(t, i - 1);
        assert(t.skip(i - 1) =~= ms.skip(i));
        assert(!crate::text::ends_with(ms[0], "-admin"@));
    } else {
        assert(ms.skip(0) =~= ms);
    }
}

/// The module that hosts generated configuration (see `admin_module`).
pub fn find_admin_module(modules: &Vec<String>) -> (r: Option<String>)
    ensures
        match r {
            Some(m) => admin_module(crate::module_order::names(modules@)) == Some(m@),
            None => admin_module(crate::module_order::names(modules@)) is None,
        },
{
    let ghost ms = crate::module_order::names(modules@);
    let mut i: usize = 0;
    while i < modules.len()
        invariant
            i <= modules.len(),
            ms == crate::module_order::names(modules@),
            forall|j: int| 0 <= j < i ==> !crate::text::ends_with(#[trigger] ms[j], "-admin"@),
        decreases modules.len() - i,
    {
        let m = chars_of(modules[i].as_str());
        if crate::text::ends_with_str(&m, "-admin") {
            proof {
                lemma_first_admin_skip(ms, i as int);
                assert(ms.skip(i as int)[0] == ms[i as int]);
            }
            return Some(String::from_str(modules[i].as_str()));
        }
        i = i + 1;
    }
    proof {
        lemma_first_admin_skip(ms, i as int);
        assert(ms.skip(i as int).len() == 0);
    }
    if modules.len() > 0 {
        Some(String::from_str(modules[0].as_str()))
    } else {
        None
    }
}

} // verus!
