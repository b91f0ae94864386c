//! Post-transform checks: result kinds, check items and the expected layout of a
//! replaced admin UI.
use vstd::prelude::*;
use crate::nacos_yaml::{strip_all_prefix, strip_all_prefix_exec};
use crate::text::{
    chars_eq, chars_of, contains, contains_str, decimal, eq_str, extend_str, indent_of, indent_width, line_key,
    line_key_exec, lines, lines_of, push_decimal, starts_with, starts_with_str, string_of, trim, trim_chars,
    trim_start, trim_start_chars,
};

verus! {

/// Outcome of one check.
#[derive(Debug, Clone, PartialEq, Eq)]
pub enum CheckResult {
    Pass,
    Warn,
    Fail,
    Skip,
}

/// One line of the validation report.
#[derive(Debug, Clone)]
pub struct CheckItem {
    pub item: String,
    pub result: CheckResult,
    pub message: String,
}

/// What a replaced admin UI must contain (paths relative to `{prefix}-ui/`).
#[derive(Debug, Clone)]
pub struct UiTemplateSpec {
    /// Message used when the structure check passes.
    pub structure_desc: &'static str,
    /// Files the generated UI must have.
    pub required_files: Vec<&'static str>,
    /// Files checked for leftover placeholders.
    pub placeholder_check_files: Vec<&'static str>,
}

/// The views of a list of string slices.
pub open spec fn str_views(v: Seq<&str>) -> Seq<Seq<char>> {
    v.map_values(|s: &str| s@)
}

/// The layout of the Arco single-package UI.
pub open spec fn is_arco_spec(s: UiTemplateSpec) -> bool {
    &&& s.structure_desc@ == "为 Arco 单包工程结构"@
    &&& str_views(s.required_files@) == seq![
        "package.json"@,
        ".env"@,
        ".env.production"@,
        "vite.config.ts"@,
        "index.html"@,
        "src/main.ts"@,
        "src/views/site/settings/index.vue"@,
        "src/api/site/settings.ts"@,
    ]
    &&& str_views(s.placeholder_check_files@) == seq![
        ".env"@,
        "vite.config.ts"@,
        "package.json"@,
        "src/layouts/index.vue"@,
    ]
}

/// The layout of the Vben monorepo UI.
pub open spec fn is_vben_spec(s: UiTemplateSpec) -> bool {
    &&& s.structure_desc@ == "为 Vben monorepo 结构"@
    &&& str_views(s.required_files@) == seq![
        "package.json"@,
        "pnpm-workspace.yaml"@,
        "apps/web-ele/.env"@,
        "apps/web-ele/package.json"@,
        "apps/web-ele/vite.config.mts"@,
    ]
    &&& str_views(s.placeholder_check_files@) == seq![
        "apps/web-ele/.env"@,
        "apps/web-ele/vite.config.mts"@,
        "apps/web-ele/src/preferences.ts"@,
    ]
}

/// The layout expected for a UI template: `arco` has its own; every other value
/// (empty, `vben-web-ele`, unknown) falls back to the Vben monorepo layout.
pub fn ui_template_spec(ui_template: &str) -> (r: UiTemplateSpec)
    ensures
        ui_template@ == "arco"@ ==> is_arco_spec(r),
        ui_template@ != "arco"@ ==> is_vben_spec(r),
{
    if eq_str(&chars_of(ui_template), "arco") {
        let required_files = vec![
            "package.json",
            ".env",
            ".env.production",
            "vite.config.ts",
            "index.html",
            "src/main.ts",
            "src/views/site/settings/index.vue",
            "src/api/site/settings.ts",
        ];
        let placeholder_check_files = vec![
            ".env",
            "vite.config.ts",
            "package.json",
            "src/layouts/index.vue",
        ];
        let r = UiTemplateSpec {
            structure_desc: "为 Arco 单包工程结构",
            required_files,
            placeholder_check_files,
        };
        assert(str_views(r.required_files@) =~= seq![
            "package.json"@,
            ".env"@,
            ".env.production"@,
            "vite.config.ts"@,
            "index.html"@,
            "src/main.ts"@,
            "src/views/site/settings/index.vue"@,
            "src/api/site/settings.ts"@,
        ]);
        assert(str_views(r.placeholder_check_files@) =~= seq![
            ".env"@,
            "vite.config.ts"@,
            "package.json"@,
            "src/layouts/index.vue"@,
        ]);
        r
    } else {
        let required_files = vec![
            "package.json",
            "pnpm-workspace.yaml",
            "apps/web-ele/.env",
            "apps/web-ele/package.json",
            "apps/web-ele/vite.config.mts",
        ];
        let placeholder_check_files = vec![
            "apps/web-ele/.env",
            "apps/web-ele/vite.config.mts",
            "apps/web-ele/src/preferences.ts",
        ];
        let r = UiTemplateSpec {
            structure_desc: "为 Vben monorepo 结构",
            required_files,
            placeholder_check_files,
        };
        assert(str_views(r.required_files@) =~= seq![
            "package.json"@,
            "pnpm-workspace.yaml"@,
            "apps/web-ele/.env"@,
            "apps/web-ele/package.json"@,
            "apps/web-ele/vite.config.mts"@,
        ]);
        assert(str_views(r.placeholder_check_files@) =~= seq![
            "apps/web-ele/.env"@,
            "apps/web-ele/vite.config.mts"@,
            "apps/web-ele/src/preferences.ts"@,
        ]);
        r
    }
}

// ---------------------------------------------------------------------------
// Gateway whitelist
// ---------------------------------------------------------------------------

/// Scans YAML lines for `path` among the `- ...` items under a `whites:` key.
/// `in_whites` says whether the scan is inside the list, `indent` the key's
/// indentation; a non-item, non-comment line at or left of it ends the list.
pub open spec fn whites_scan(ls: Seq<Seq<char>>, path: Seq<char>, in_whites: bool, indent: int) -> bool
    decreases ls.len(),
{
    if ls.len() == 0 {
        false
    } else {
        let line = ls[0];
        let t = trim_start(line);
        let rest = ls.drop_first();
        if line_key(line) == "whites"@ {
            whites_scan(rest, path, true, indent_of(line))
        } else if in_whites {
            if starts_with(t, "-"@) {
                if trim(strip_all_prefix(t, "-"@)) == path {
                    true
                } else {
                    whites_scan(rest, path, true, indent)
                }
            } else if t.len() == 0 || starts_with(t, "#"@) {
                whites_scan(rest, path, true, indent)
            } else if indent_of(line) <= indent {
                whites_scan(rest, path, false, indent)
            } else {
                whites_scan(rest, path, true, indent)
            }
        } else {
            whites_scan(rest, path, false, indent)
        }
    }
}

/// Whether the YAML lists `path` under a `whites:` key.
pub open spec fn whites_contain(yaml: Seq<char>, path: Seq<char>) -> bool {
    whites_scan(lines(yaml), path, false, 0)
}

/// Whether the YAML lists `path` under a `whites:` key (see `whites_scan`).
pub fn yaml_whites_contain(yaml: &str, path: &str) -> (r: bool)
    ensures
        r == whites_contain(yaml@, path@),
{
    let ls = lines_of(&chars_of(yaml));
    let ghost lv = crate::text::vviews(ls@);
    let p = chars_of(path);
    let mut in_whites = false;
    let mut indent: usize = 0;
    let mut i: usize = 0;
    assert(lv.skip(0) =~= lv);
    while i < ls.len()
        invariant
            i <= ls.len(),
            lv == crate::text::vviews(ls@),
            lv == lines(yaml@),
            p@ == path@,
            whites_scan(lv, path@, false, 0) == whites_scan(lv.skip(i as int), path@, in_whites, indent as int),
        decreases ls.len() - i,
    {
        let line = &ls[i];
        let ghost rest = lv.skip(i as int);
        assert(rest[0] == line@);
        assert(rest.drop_first() =~= lv.skip(i + 1));
        let t = trim_start_chars(line);
        let key = line_key_exec(line);
        if eq_str(&key, "whites") {
            in_whites = true;
            indent = indent_width(line);
        } else if in_whites {
            if starts_with_str(&t, "-") {
                let item = trim_chars(&strip_all_prefix_exec(&t, "-"));
                if chars_eq(&item, &p) {
                    return true;
                }
            } else if t.len() == 0 || starts_with_str(&t, "#") {
            } else if indent_width(line) <= indent {
                in_whites = false;
            }
        }
        i = i + 1;
    }
    false
}

// ---------------------------------------------------------------------------
// MyBatis-Plus dependencies
// ---------------------------------------------------------------------------

/// Whether any of the texts holds `needle`.
pub open spec fn any_contains(texts: Seq<Seq<char>>, needle: Seq<char>) -> bool {
    exists|i: int| 0 <= i < texts.len() && contains(#[trigger] texts[i], needle)
}

fn any_contains_exec(texts: &Vec<String>, needle: &str) -> (r: bool)
    ensures
        r == any_contains(crate::module_order::names(texts@), needle@),
{
    let ghost ts = crate::module_order::names(texts@);
    let mut i: usize = 0;
    while i < texts.len()
        invariant
            i <= texts.len(),
            ts == crate::module_order::names(texts@),
            forall|j: int| 0 <= j < i ==> !contains(#[trigger] ts[j], needle@),
        decreases texts.len() - i,
    {
        if contains_str(&chars_of(texts[i].as_str()), needle) {
            assert(contains(ts[i as int], needle@));
            return true;
        }
        i = i + 1;
    }
    false
}

/// `Boot {major}.x` followed by `rest`.
pub open spec fn boot_msg(major: u32, rest: Seq<char>) -> Seq<char> {
    "Boot "@ + decimal(major as nat) + ".x"@ + rest
}

fn boot_msg_exec(major: u32, rest: &str) -> (r: String)
    ensures
        r@ == boot_msg(major, rest@),
{
    let mut v = chars_of("Boot ");
    push_decimal(&mut v, major as u64);
    extend_str(&mut v, ".x");
    extend_str(&mut v, rest);
    string_of(&v)
}

/// The jsqlparser check: whether it passes and its message, from whether the
/// poms declare the modern module and the JDK 8 (`-4.9`) one.
pub open spec fn jsqlparser_verdict(has_modern: bool, has_jdk8: bool, boot_major: Option<u32>) -> (bool, Seq<char>) {
    match boot_major {
        Some(major) => if major < 3 {
            if has_jdk8 {
                (true, boot_msg(major, " 已声明 mybatis-plus-jsqlparser-4.9"@))
            } else {
                (false, boot_msg(major, " 未找到 mybatis-plus-jsqlparser-4.9（JDK 8 分页模块）"@))
            }
        } else if has_modern && !has_jdk8 {
            (true, boot_msg(major, " 已声明 mybatis-plus-jsqlparser"@))
        } else if has_jdk8 && !has_modern {
            (false, boot_msg(major, " 需要 mybatis-plus-jsqlparser，不要使用 jsqlparser-4.9"@))
        } else if has_modern {
            (true, boot_msg(major, " 已声明 mybatis-plus-jsqlparser"@))
        } else {
            (false, boot_msg(major, " 未找到 mybatis-plus-jsqlparser 分页模块"@))
        },
        None => if has_modern || has_jdk8 {
            (true, "已声明 jsqlparser 分页模块"@)
        } else {
            (false, "未找到 MyBatis-Plus jsqlparser 分页模块"@)
        },
    }
}

/// The jsqlparser pagination module check over the texts of the root and module
/// poms (exact `<artifactId>` tags; a failure when missing or mismatched).
pub fn check_mp_jsqlparser(pom_texts: &Vec<String>, boot_major: Option<u32>) -> (r: CheckItem)
    ensures
        ({
            let ts = crate::module_order::names(pom_texts@);
            let v = jsqlparser_verdict(
                any_contains(ts, "<artifactId>mybatis-plus-jsqlparser</artifactId>"@),
                any_contains(ts, "<artifactId>mybatis-plus-jsqlparser-4.9</artifactId>"@),
                boot_major,
            );
            &&& r.item@ == "MyBatis-Plus jsqlparser 分页模块"@
            &&& r.result == (if v.0 { CheckResult::Pass } else { CheckResult::Fail })
            &&& r.message@ == v.1
        }),
{
    let has_modern = any_contains_exec(pom_texts, "<artifactId>mybatis-plus-jsqlparser</artifactId>");
    let has_jdk8 = any_contains_exec(pom_texts, "<artifactId>mybatis-plus-jsqlparser-4.9</artifactId>");
    let (ok, message) = match boot_major {
        Some(major) => if major < 3 {
            if has_jdk8 {
                (true, boot_msg_exec(major, " 已声明 mybatis-plus-jsqlparser-4.9"))
            } else {
                (false, boot_msg_exec(major, " 未找到 mybatis-plus-jsqlparser-4.9（JDK 8 分页模块）"))
            }
        } else if has_modern && !has_jdk8 {
            (true, boot_msg_exec(major, " 已声明 mybatis-plus-jsqlparser"))
        } else if has_jdk8 && !has_modern {
            (false, boot_msg_exec(major, " 需要 mybatis-plus-jsqlparser，不要使用 jsqlparser-4.9"))
        } else if has_modern {
            (true, boot_msg_exec(major, " 已声明 mybatis-plus-jsqlparser"))
        } else {
            (false, boot_msg_exec(major, " 未找到 mybatis-plus-jsqlparser 分页模块"))
        },
        None => if has_modern || has_jdk8 {
            (true, String::from_str("已声明 jsqlparser 分页模块"))
        } else {
            (false, String::from_str("未找到 MyBatis-Plus jsqlparser 分页模块"))
        },
    };
    CheckItem {
        item: String::from_str("MyBatis-Plus jsqlparser 分页模块"),
        result: if ok {
            CheckResult::Pass
        } else {
            CheckResult::Fail
        },
        message,
    }
}

/// The starters that must not appear for a Boot major version.
pub open spec fn forbidden_starters(boot_major: u32) -> Seq<Seq<char>> {
    if boot_major < 3 {
        seq!["mybatis-plus-spring-boot3-starter"@, "mybatis-plus-spring-boot4-starter"@]
    } else if boot_major == 3 {
        seq!["mybatis-plus-boot-starter"@, "mybatis-plus-spring-boot4-starter"@]
    } else {
        seq!["mybatis-plus-boot-starter"@, "mybatis-plus-spring-boot3-starter"@]
    }
}

/// The forbidden starters found so far, in the order they were first seen
/// (text by text, each text in the order of `forb`).
pub open spec fn starters_found(texts: Seq<Seq<char>>, forb: Seq<Seq<char>>) -> Seq<Seq<char>>
    decreases texts.len(),
{
    if texts.len() == 0 {
        Seq::empty()
    } else {
        let f = starters_found(texts.drop_last(), forb);
        let c = texts.last();
        let f1 = if contains(c, forb[0]) && !f.contains(forb[0]) {
            f.push(forb[0])
        } else {
            f
        };
        if contains(c, forb[1]) && !f1.contains(forb[1]) {
            f1.push(forb[1])
        } else {
            f1
        }
    }
}

/// The starter check over the texts of the root and module poms: a failure
/// naming the starters of other Boot versions that occur.
pub fn check_mp_starter_matches_boot(pom_texts: &Vec<String>, boot_major: u32) -> (r: CheckItem)
    ensures
        ({
            let found = starters_found(crate::module_order::names(pom_texts@), forbidden_starters(boot_major));
            &&& r.item@ == "MyBatis-Plus starter 与 Boot 大版本匹配"@
            &&& r.result == (if found.len() == 0 { CheckResult::Pass } else { CheckResult::Fail })
            &&& r.message@ == (if found.len() == 0 {
                boot_msg(boot_major, " 未发现不匹配的 starter"@)
            } else {
                boot_msg(boot_major, " 不应出现："@ + crate::nacos_sql::join(found, "、"@))
            })
        }),
{
    let (a, b) = if boot_major < 3 {
        ("mybatis-plus-spring-boot3-starter", "mybatis-plus-spring-boot4-starter")
    } else if boot_major == 3 {
        ("mybatis-plus-boot-starter", "mybatis-plus-spring-boot4-starter")
    } else {
        ("mybatis-plus-boot-starter", "mybatis-plus-spring-boot3-starter")
    };
    let ghost forb = forbidden_starters(boot_major);
    assert(forb[0] == a@ && forb[1] == b@);
    let av = chars_of(a);
    let bv = chars_of(b);
    let ghost ts = crate::module_order::names(pom_texts@);
    let mut found: Vec<Vec<char>> = Vec::new();
    let mut i: usize = 0;
    assert(ts.take(0) =~= Seq::<Seq<char>>::empty());
    assert(crate::text::vviews(found@) =~= Seq::<Seq<char>>::empty());
    while i < pom_texts.len()
        invariant
            i <= pom_texts.len(),
            ts == crate::module_order::names(pom_texts@),
            forb == forbidden_starters(boot_major),
            forb[0] == av@,
            forb[1] == bv@,
            av@ == a@,
            bv@ == b@,
            crate::text::vviews(found@) == starters_found(ts.take(i as int), forb),
        decreases pom_texts.len() - i,
    {
        assert(ts.take(i + 1).drop_last() =~= ts.take(i as int));
        assert(ts.take(i + 1).last() == ts[i as int]);
        let c = chars_of(pom_texts[i].as_str());
        if contains_str(&c, a) && !has_name(&found, &av) {
            let ghost before = crate::text::vviews(found@);
            found.push(crate::patch::copy_chars(&av));
            assert(crate::text::vviews(found@) =~= before.push(av@));
        }
        if contains_str(&c, b) && !has_name(&found, &bv) {
            let ghost before = crate::text::vviews(found@);
            found.push(crate::patch::copy_chars(&bv));
            assert(crate::text::vviews(found@) =~= before.push(bv@));
        }
        i = i + 1;
    }
    assert(ts.take(i as int) =~= ts);
    let ok = found.len() == 0;
    let message = if ok {
        boot_msg_exec(boot_major, " 未发现不匹配的 starter")
    } else {
        let mut rest = chars_of(" 不应出现：");
        crate::nacos_sql::push_joined(&mut rest, &found, "、");
        boot_msg_exec(boot_major, string_of(&rest).as_str())
    };
    CheckItem {
        item: String::from_str("MyBatis-Plus starter 与 Boot 大版本匹配"),
        result: if ok {
            CheckResult::Pass
        } else {
            CheckResult::Fail
        },
        message,
    }
}

fn has_name(found: &Vec<Vec<char>>, x: &Vec<char>) -> (r: bool)
    ensures
        r == crate::text::vviews(found@).contains(x@),
{
    let ghost fv = crate::text::vviews(found@);
    let mut i: usize = 0;
    while i < found.len()
        invariant
            i <= found.len(),
            fv == crate::text::vviews(found@),
            forall|j: int| 0 <= j < i ==> fv[j] != x@,
        decreases found.len() - i,
    {
        if chars_eq(&found[i], x) {
            assert(fv[i as int] == x@);
            return true;
        }
        i = i + 1;
    }
    false
}

// ---------------------------------------------------------------------------
// Redis keys
// ---------------------------------------------------------------------------

/// A line, trimmed, that is not a comment and mentions `spring.data.redis`.
pub open spec fn data_redis_line(l: Seq<char>) -> bool {
    !starts_with(trim(l), "#"@) && contains(trim(l), "spring.data.redis"@)
}

/// A line that is not a comment and is `redis:` right under a top-level key.
pub open spec fn direct_redis_line(l: Seq<char>) -> bool {
    !starts_with(trim(l), "#"@) && starts_with(l, "  redis:"@) && !starts_with(l, "   "@)
}

/// Whether the YAML has `spring.data.redis`: by its structure when it parses,
/// else by a non-comment line mentioning it.
pub open spec fn has_data_redis(content: Seq<char>) -> bool {
    match crate::ext_calls::yaml_key_path_of(content, "spring"@, "data"@, Some("redis"@)) {
        Some(b) => b,
        None => exists|i: int| 0 <= i < lines(content).len() && data_redis_line(#[trigger] lines(content)[i]),
    }
}

/// Whether the YAML has `redis` directly under `spring` (Boot 2 keys): by its
/// structure when it parses, else by a `  redis:` line.
pub open spec fn has_direct_redis(content: Seq<char>) -> bool {
    match crate::ext_calls::yaml_key_path_of(content, "spring"@, "redis"@, None) {
        Some(b) => b,
        None => exists|i: int| 0 <= i < lines(content).len() && direct_redis_line(#[trigger] lines(content)[i]),
    }
}

fn any_line(content: &str, data: bool) -> (r: bool)
    ensures
        data ==> (r == exists|i: int| 0 <= i < lines(content@).len() && data_redis_line(#[trigger] lines(content@)[i])),
        !data ==> (r == exists|i: int| 0 <= i < lines(content@).len() && direct_redis_line(#[trigger] lines(content@)[i])),
{
    let ls = lines_of(&chars_of(content));
    let ghost lv = crate::text::vviews(ls@);
    let mut i: usize = 0;
    while i < ls.len()
        invariant
            i <= ls.len(),
            lv == crate::text::vviews(ls@),
            lv == lines(content@),
            data ==> forall|j: int| 0 <= j < i ==> !data_redis_line(#[trigger] lv[j]),
            !data ==> forall|j: int| 0 <= j < i ==> !direct_redis_line(#[trigger] lv[j]),
        decreases ls.len() - i,
    {
        let l = &ls[i];
        let t = trim_chars(l);
        let hit = if data {
            !starts_with_str(&t, "#") && contains_str(&t, "spring.data.redis")
        } else {
            !starts_with_str(&t, "#") && starts_with_str(l, "  redis:") && !starts_with_str(l, "   ")
        };
        if hit {
            assert(lv[i as int] == l@);
            return true;
        }
        i = i + 1;
    }
    false
}

/// Whether the YAML has `spring.data.redis` (see `has_data_redis`).
pub fn yaml_has_spring_data_redis(content: &str) -> (r: bool)
    ensures
        r == has_data_redis(content@),
{
    match crate::ext_calls::yaml_key_path(content, "spring", "data", Some("redis")) {
        Some(b) => b,
        None => any_line(content, true),
    }
}

/// Whether the YAML has `redis` directly under `spring` (see `has_direct_redis`).
pub fn yaml_has_spring_direct_redis(content: &str) -> (r: bool)
    ensures
        r == has_direct_redis(content@),
{
    match crate::ext_calls::yaml_key_path(content, "spring", "redis", None) {
        Some(b) => b,
        None => any_line(content, false),
    }
}

/// The findings of the Redis key check: for each profile file (name, text),
/// a note when Boot 2 meets `spring.data.redis` or a later Boot meets
/// `spring.redis`.
pub open spec fn redis_findings(files: Seq<(Seq<char>, Seq<char>)>, boot_major: u32) -> Seq<Seq<char>>
    decreases files.len(),
{
    if files.len() == 0 {
        Seq::empty()
    } else {
        let prev = redis_findings(files.drop_last(), boot_major);
        let (name, content) = files.last();
        if boot_major == 2 {
            if has_data_redis(content) {
                prev.push(name + " 含 spring.data.redis"@)
            } else {
                prev
            }
        } else if has_direct_redis(content) {
            prev.push(name + " 含 spring.redis 直挂键"@)
        } else {
            prev
        }
    }
}

/// The Redis key check over the profile files that exist (name and text, in
/// the order dev yaml, dev yml, prod yaml, prod yml).
pub fn check_redis_keys_match_boot(files: &Vec<(String, String)>, boot_major: u32) -> (r: CheckItem)
    ensures
        ({
            let bad = redis_findings(crate::placeholders::pair_views(files@), boot_major);
            &&& r.item@ == "Redis 键位与 Boot 大版本匹配"@
            &&& r.result == (if bad.len() == 0 { CheckResult::Pass } else { CheckResult::Fail })
            &&& r.message@ == (if bad.len() > 0 {
                crate::nacos_sql::join(bad, "；"@)
            } else if boot_major == 2 {
                "Boot 2.x 使用 spring.redis，未发现 spring.data.redis"@
            } else {
                boot_msg(boot_major, " 使用 spring.data.redis，未发现 spring.redis 直挂键"@)
            })
        }),
{
    let ghost fs = crate::placeholders::pair_views(files@);
    let mut bad: Vec<Vec<char>> = Vec::new();
    let mut i: usize = 0;
    assert(fs.take(0) =~= Seq::<(Seq<char>, Seq<char>)>::empty());
    assert(crate::text::vviews(bad@) =~= Seq::<Seq<char>>::empty());
    while i < files.len()
        invariant
            i <= files.len(),
            fs == crate::placeholders::pair_views(files@),
            crate::text::vviews(bad@) == redis_findings(fs.take(i as int), boot_major),
        decreases files.len() - i,
    {
        assert(fs.take(i + 1).drop_last() =~= fs.take(i as int));
        assert(fs.take(i + 1).last() == fs[i as int]);
        let name = files[i].0.as_str();
        let content = files[i].1.as_str();
        let ghost before = crate::text::vviews(bad@);
        if boot_major == 2 {
            if yaml_has_spring_data_redis(content) {
                let mut note = chars_of(name);
                extend_str(&mut note, " 含 spring.data.redis");
                bad.push(note);
                assert(crate::text::vviews(bad@) =~= before.push(name@ + " 含 spring.data.redis"@));
            }
        } else if yaml_has_spring_direct_redis(content) {
            let mut note = chars_of(name);
            extend_str(&mut note, " 含 spring.redis 直挂键");
            bad.push(note);
            assert(crate::text::vviews(bad@) =~= before.push(name@ + " 含 spring.redis 直挂键"@));
        }
        i = i + 1;
    }
    assert(fs.take(i as int) =~= fs);
    let ok = bad.len() == 0;
    let message = if !ok {
        let mut m: Vec<char> = Vec::new();
        crate::nacos_sql::push_joined(&mut m, &bad, "；");
        string_of(&m)
    } else if boot_major == 2 {
        String::from_str("Boot 2.x 使用 spring.redis，未发现 spring.data.redis")
    } else {
        boot_msg_exec(boot_major, " 使用 spring.data.redis，未发现 spring.redis 直挂键")
    };
    CheckItem {
        item: String::from_str("Redis 键位与 Boot 大版本匹配"),
        result: if ok {
            CheckResult::Pass
        } else {
            CheckResult::Fail
        },
        message,
    }
}

// ---------------------------------------------------------------------------
// New module in the gateway whitelist
// ---------------------------------------------------------------------------

/// (data id, content) of each configuration.
pub open spec fn config_pairs(cs: Seq<crate::nacos_sql::NacosServiceConfig>) -> Seq<(Seq<char>, Seq<char>)> {
    cs.map_values(|c: crate::nacos_sql::NacosServiceConfig| (c@.data_id, c@.content))
}

/// The number of gateway configurations.
pub open spec fn gateway_count(cs: Seq<(Seq<char>, Seq<char>)>) -> nat
    decreases cs.len(),
{
    if cs.len() == 0 {
        0
    } else {
        gateway_count(cs.drop_last()) + if crate::nacos_yaml::matches_profile(cs.last().0, "gateway"@) {
            1nat
        } else {
            0nat
        }
    }
}

/// The data ids of the gateway configurations whose whitelist lacks `ping`.
pub open spec fn gateways_missing(cs: Seq<(Seq<char>, Seq<char>)>, ping: Seq<char>) -> Seq<Seq<char>>
    decreases cs.len(),
{
    if cs.len() == 0 {
        Seq::empty()
    } else {
        let prev = gateways_missing(cs.drop_last(), ping);
        let (id, content) = cs.last();
        if crate::nacos_yaml::matches_profile(id, "gateway"@) && !whites_contain(content, ping) {
            prev.push(id)
        } else {
            prev
        }
    }
}

/// The whitelist check of a new module over the parsed configurations: a
/// warning without gateway configurations, a pass when each lists
/// `/{name}/ping`, else a failure naming those that do not.
pub fn check_gateway_whitelist(name: &str, configs: &Vec<crate::nacos_sql::NacosServiceConfig>) -> (r: CheckItem)
    ensures
        ({
            let ping = "/"@ + name@ + "/ping"@;
            let cs = config_pairs(configs@);
            let missing = gateways_missing(cs, ping);
            &&& r.item@ == "新模块 "@ + name@ + " 网关白名单"@
            &&& r.result == (if gateway_count(cs) == 0 {
                CheckResult::Warn
            } else if missing.len() == 0 {
                CheckResult::Pass
            } else {
                CheckResult::Fail
            })
            &&& r.message@ == (if gateway_count(cs) == 0 {
                "未找到 gateway yml 条目，跳过白名单校验"@
            } else if missing.len() == 0 {
                "gateway whites 已含 "@ + ping
            } else {
                "gateway whites 缺少 "@ + ping + "："@ + crate::nacos_sql::join(missing, "、"@)
            })
        }),
{
    let mut pv = chars_of("/");
    extend_str(&mut pv, name);
    extend_str(&mut pv, "/ping");
    let ping = string_of(&pv);
    let mut iv = chars_of("新模块 ");
    extend_str(&mut iv, name);
    extend_str(&mut iv, " 网关白名单");
    let item = string_of(&iv);
    let ghost cs = config_pairs(configs@);
    let mut gw: usize = 0;
    let mut missing: Vec<Vec<char>> = Vec::new();
    let mut i: usize = 0;
    assert(cs.take(0) =~= Seq::<(Seq<char>, Seq<char>)>::empty());
    assert(crate::text::vviews(missing@) =~= Seq::<Seq<char>>::empty());
    while i < configs.len()
        invariant
            i <= configs.len(),
            cs == config_pairs(configs@),
            gw == gateway_count(cs.take(i as int)),
            gw <= i,
            crate::text::vviews(missing@) == gateways_missing(cs.take(i as int), ping@),
        decreases configs.len() - i,
    {
        assert(cs.take(i + 1).drop_last() =~= cs.take(i as int));
        assert(cs.take(i + 1).last() == cs[i as int]);
        let c = &configs[i];
        if crate::nacos_yaml::is_gateway_yml(c.data_id_text().as_str()) {
            gw = gw + 1;
            if !yaml_whites_contain(c.content_text().as_str(), ping.as_str()) {
                let ghost before = crate::text::vviews(missing@);
                missing.push(chars_of(c.data_id_text().as_str()));
                assert(crate::text::vviews(missing@) =~= before.push(c@.data_id));
            }
        }
        i = i + 1;
    }
    assert(cs.take(i as int) =~= cs);
    if gw == 0 {
        return CheckItem {
            item,
            result: CheckResult::Warn,
            message: String::from_str("未找到 gateway yml 条目，跳过白名单校验"),
        };
    }
    if missing.len() == 0 {
        let mut m = chars_of("gateway whites 已含 ");
        crate::text::extend_chars(&mut m, &pv);
        CheckItem { item, result: CheckResult::Pass, message: string_of(&m) }
    } else {
        let mut m = chars_of("gateway whites 缺少 ");
        crate::text::extend_chars(&mut m, &pv);
        extend_str(&mut m, "：");
        crate::nacos_sql::push_joined(&mut m, &missing, "、");
        CheckItem { item, result: CheckResult::Fail, message: string_of(&m) }
    }
}

// ---------------------------------------------------------------------------
// PostgreSQL
// ---------------------------------------------------------------------------

/// A line whose text, indentation dropped, starts with `url:` and holds a
/// `jdbc:postgresql://` URL.
pub open spec fn pg_url_line(l: Seq<char>) -> bool {
    starts_with(trim_start(l), "url:"@) && contains(trim_start(l), "jdbc:postgresql://"@)
}

/// The data source checks of one profile file: its URL and its driver.
pub open spec fn pg_profile_verdicts(content: Seq<char>) -> (bool, bool) {
    (
        exists|i: int| 0 <= i < lines(content).len() && pg_url_line(#[trigger] lines(content)[i]),
        contains(content, "org.postgresql.Driver"@),
    )
}

/// The PostgreSQL URL and driver checks of a profile file (`application-dev.yaml`,
/// `application-prod.yaml`; an unreadable file counts as empty).
pub fn postgresql_profile_checks(file: &str, content: &str) -> (r: (CheckItem, CheckItem))
    ensures
        ({
            let (url_ok, driver_ok) = pg_profile_verdicts(content@);
            &&& r.0.item@ == "PostgreSQL 数据源 url（"@ + file@ + "）"@
            &&& r.0.result == (if url_ok { CheckResult::Pass } else { CheckResult::Fail })
            &&& r.0.message@ == (if url_ok { "url 以 jdbc:postgresql:// 开头"@ } else { "url 不是 jdbc:postgresql://"@ })
            &&& r.1.item@ == "PostgreSQL 驱动（"@ + file@ + "）"@
            &&& r.1.result == (if driver_ok { CheckResult::Pass } else { CheckResult::Fail })
            &&& r.1.message@ == (if driver_ok {
                "driverClassName 为 org.postgresql.Driver"@
            } else {
                "未找到 org.postgresql.Driver"@
            })
        }),
{
    let c = chars_of(content);
    let ls = lines_of(&c);
    let ghost lv = crate::text::vviews(ls@);
    let mut url_ok = false;
    let mut i: usize = 0;
    while i < ls.len()
        invariant
            i <= ls.len(),
            lv == crate::text::vviews(ls@),
            lv == lines(content@),
            url_ok == exists|j: int| 0 <= j < i && pg_url_line(#[trigger] lv[j]),
        decreases ls.len() - i,
    {
        let t = trim_start_chars(&ls[i]);
        if starts_with_str(&t, "url:") && contains_str(&t, "jdbc:postgresql://") {
            assert(pg_url_line(lv[i as int]));
            url_ok = true;
        }
        assert(url_ok == exists|j: int| 0 <= j < i + 1 && pg_url_line(#[trigger] lv[j])) by {
            if pg_url_line(lv[i as int]) {
                assert(0 <= i < i + 1);
            }
        }
        i = i + 1;
    }
    let driver_ok = contains_str(&c, "org.postgresql.Driver");
    let mut a = chars_of("PostgreSQL 数据源 url（");
    extend_str(&mut a, file);
    extend_str(&mut a, "）");
    let mut b = chars_of("PostgreSQL 驱动（");
    extend_str(&mut b, file);
    extend_str(&mut b, "）");
    (
        CheckItem {
            item: string_of(&a),
            result: if url_ok { CheckResult::Pass } else { CheckResult::Fail },
            message: String::from_str(if url_ok { "url 以 jdbc:postgresql:// 开头" } else { "url 不是 jdbc:postgresql://" }),
        },
        CheckItem {
            item: string_of(&b),
            result: if driver_ok { CheckResult::Pass } else { CheckResult::Fail },
            message: String::from_str(if driver_ok {
                "driverClassName 为 org.postgresql.Driver"
            } else {
                "未找到 org.postgresql.Driver"
            }),
        },
    )
}

/// The check that no pom still declares the MySQL driver: a warning naming
/// how many do.
pub fn mysql_driver_check(poms_with_mysql: usize) -> (r: CheckItem)
    ensures
        r.item@ == "pom 不再声明 MySQL 驱动"@,
        r.result == (if poms_with_mysql == 0 { CheckResult::Pass } else { CheckResult::Warn }),
        r.message@ == (if poms_with_mysql == 0 {
            "未发现 mysql-connector-j / mysql-connector-java"@
        } else {
            decimal(poms_with_mysql as nat) + " 个 pom 仍含 MySQL 驱动坐标"@
        }),
{
    if poms_with_mysql == 0 {
        CheckItem {
            item: String::from_str("pom 不再声明 MySQL 驱动"),
            result: CheckResult::Pass,
            message: String::from_str("未发现 mysql-connector-j / mysql-connector-java"),
        }
    } else {
        let mut m: Vec<char> = Vec::new();
        push_decimal(&mut m, poms_with_mysql as u64);
        extend_str(&mut m, " 个 pom 仍含 MySQL 驱动坐标");
        CheckItem { item: String::from_str("pom 不再声明 MySQL 驱动"), result: CheckResult::Warn, message: string_of(&m) }
    }
}

/// The code generator mapper check: a failure while GenTableMapper.xml still
/// queries `(select database())`.
pub fn gen_mapper_check(content: &str) -> (r: CheckItem)
    ensures
        r.item@ == "PostgreSQL 代码生成器 mapper"@,
        r.result == (if contains(content@, "(select database())"@) { CheckResult::Fail } else { CheckResult::Pass }),
        r.message@ == (if contains(content@, "(select database())"@) {
            "GenTableMapper.xml 仍含 (select database())"@
        } else {
            "GenTableMapper.xml 已去掉 MySQL information_schema 查询"@
        }),
{
    let stale = contains_str(&chars_of(content), "(select database())");
    CheckItem {
        item: String::from_str("PostgreSQL 代码生成器 mapper"),
        result: if stale { CheckResult::Fail } else { CheckResult::Pass },
        message: String::from_str(if stale {
            "GenTableMapper.xml 仍含 (select database())"
        } else {
            "GenTableMapper.xml 已去掉 MySQL information_schema 查询"
        }),
    }
}

/// A PostgreSQL initialization script: named `ry*.sql` (ASCII case ignored, no
/// `.bak`) and marked as the PostgreSQL script or using identity columns.
pub open spec fn is_pg_init_script(file_name: Seq<char>, content: Seq<char>) -> bool {
    let lower_name = crate::text::lower(file_name);
    &&& starts_with(lower_name, "ry"@)
    &&& crate::text::ends_with(lower_name, ".sql"@)
    &&& !contains(lower_name, ".bak"@)
    &&& (contains(content, "-- RuoYi-Vue PostgreSQL"@) || contains(crate::text::lower(content), "generated by default as identity"@))
}

/// Whether a file of `sql/` is a PostgreSQL initialization script (see `is_pg_init_script`).
pub fn is_postgresql_init_script(file_name: &str, content: &str) -> (r: bool)
    ensures
        r == is_pg_init_script(file_name@, content@),
{
    let n = crate::text::lower_chars(&chars_of(file_name));
    if !starts_with_str(&n, "ry") || !crate::text::ends_with_str(&n, ".sql") || contains_str(&n, ".bak") {
        return false;
    }
    let c = chars_of(content);
    contains_str(&c, "-- RuoYi-Vue PostgreSQL") || contains_str(&crate::text::lower_chars(&c), "generated by default as identity")
}

// ---------------------------------------------------------------------------
// Generated business modules
// ---------------------------------------------------------------------------

/// What the check of one generated module reads from the project.
#[derive(Debug, Clone)]
pub struct GeneratedModuleFiles {
    /// Whether the module's directory exists.
    pub dir_exists: bool,
    /// The root pom (empty when unreadable).
    pub root_pom: String,
    /// `{prefix}-modules/pom.xml` (empty when unreadable).
    pub modules_pom: String,
    /// `{prefix}-admin/pom.xml` (empty when unreadable).
    pub admin_pom: String,
    /// The Nacos `ry_config` SQL, when one was found and read.
    pub config_sql: Option<String>,
    /// The module's HealthController: `None` when it is not a file, else its
    /// text (empty when unreadable).
    pub health: Option<String>,
    /// The module's `bootstrap.yml` (empty when unreadable).
    pub bootstrap: String,
    /// The module's `logback.xml`: `None` when it is not a file.
    pub logback: Option<String>,
}

/// `gaps` with `label` added when `missing` holds.
pub open spec fn gap_if(gaps: Seq<Seq<char>>, missing: bool, label: Seq<char>) -> Seq<Seq<char>> {
    if missing {
        gaps.push(label)
    } else {
        gaps
    }
}

/// The gaps of a HealthController whose `AjaxResult` must come from `path`.
pub open spec fn health_gaps(gaps: Seq<Seq<char>>, health: Option<Seq<char>>, path: Seq<char>) -> Seq<Seq<char>> {
    match health {
        None => gaps.push("HealthController"@),
        Some(h) => gap_if(gaps, !contains(h, path), "Health AjaxResult 路径"@),
    }
}

/// Whether the Nacos SQL declares the module's data id.
pub open spec fn config_has_data_id(cfg: Option<Seq<char>>, full: Seq<char>) -> bool {
    match cfg {
        Some(c) => contains(c, full + "-dev.yml"@),
        None => false,
    }
}

/// Whether the Nacos SQL holds the module's gateway route.
pub open spec fn config_has_route(cfg: Option<Seq<char>>, full: Seq<char>) -> bool {
    match cfg {
        Some(c) => contains(c, "- id: "@ + full) || contains(c, "id: "@ + full),
        None => false,
    }
}

/// Whether `bootstrap.yml` has a Nacos anchor.
pub open spec fn bootstrap_has_nacos(b: Seq<char>) -> bool {
    contains(b, "shared-configs"@) || contains(b, "nacos:"@) || contains(b, "spring.cloud.nacos"@)
}

/// Whether a `logback.xml` lacks `log.path=logs`.
pub open spec fn logback_lacks_logs(l: Seq<char>) -> bool {
    !(contains(l, "log.path"@) && contains(l, "logs"@)) && !contains(l, "value=\"logs\""@)
}

/// The views of a generated module's files.
pub open spec fn files_view(f: GeneratedModuleFiles) -> (
    bool,
    Seq<char>,
    Seq<char>,
    Seq<char>,
    Option<Seq<char>>,
    Option<Seq<char>>,
    Seq<char>,
    Option<Seq<char>>,
) {
    (
        f.dir_exists,
        f.root_pom@,
        f.modules_pom@,
        f.admin_pom@,
        match f.config_sql {
            Some(c) => Some(c@),
            None => None,
        },
        match f.health {
            Some(h) => Some(h@),
            None => None,
        },
        f.bootstrap@,
        match f.logback {
            Some(l) => Some(l@),
            None => None,
        },
    )
}

/// What a generated module lacks, in the order the checks run.
pub open spec fn module_gaps(full: Seq<char>, is_cloud: bool, f: GeneratedModuleFiles) -> Seq<Seq<char>> {
    let (dir, root_pom, modules_pom, admin_pom, cfg, health, boot, logback) = files_view(f);
    let tag = "<module>"@ + full + "</module>"@;
    let g0 = gap_if(Seq::empty(), !dir, "目录"@);
    if is_cloud {
        let g1 = gap_if(g0, !contains(modules_pom, tag), "modules/pom.xml 声明"@);
        let g2 = gap_if(g1, contains(root_pom, tag), "根 pom 不应含叶子 module"@);
        let g3 = gap_if(g2, !config_has_data_id(cfg, full), "Nacos data_id"@);
        let g4 = gap_if(g3, !config_has_route(cfg, full), "网关 - id:"@);
        let g5 = health_gaps(g4, health, "common.core.web.domain.AjaxResult"@);
        let g6 = gap_if(g5, !bootstrap_has_nacos(boot), "bootstrap nacos 锚点"@);
        match logback {
            None => g6.push("logback.xml"@),
            Some(l) => gap_if(g6, logback_lacks_logs(l), "logback log.path=logs"@),
        }
    } else {
        let g1 = gap_if(g0, !contains(root_pom, tag), "根 pom 声明"@);
        let g2 = gap_if(g1, !contains(admin_pom, "<artifactId>"@ + full + "</artifactId>"@), "admin 依赖"@);
        health_gaps(g2, health, "common.core.domain.AjaxResult"@)
    }
}

fn push_gap(gaps: &mut Vec<Vec<char>>, missing: bool, label: &str)
    ensures
        crate::text::vviews(final(gaps)@) == gap_if(crate::text::vviews(old(gaps)@), missing, label@),
{
    if missing {
        gaps.push(chars_of(label));
        assert(crate::text::vviews(gaps@) =~= crate::text::vviews(old(gaps)@).push(label@));
    }
}

fn push_health_gaps(gaps: &mut Vec<Vec<char>>, health: &Option<String>, path: &str)
    ensures
        crate::text::vviews(final(gaps)@) == health_gaps(
            crate::text::vviews(old(gaps)@),
            match health { Some(h) => Some(h@), None => None },
            path@,
        ),
{
    match health {
        None => {
            gaps.push(chars_of("HealthController"));
            assert(crate::text::vviews(gaps@) =~= crate::text::vviews(old(gaps)@).push("HealthController"@));
        },
        Some(h) => {
            let ok = contains_str(&chars_of(h.as_str()), path);
            push_gap(gaps, !ok, "Health AjaxResult 路径");
        },
    }
}

fn has_chars(s: &Vec<char>, p: &Vec<char>) -> (r: bool)
    ensures
        r == contains(s@, p@),
{
    crate::text::find_from_exec(s, p, 0).is_some()
}

/// The text of an optional string's view.
fn opt_chars(o: &Option<String>) -> (r: Option<Vec<char>>)
    ensures
        match o {
            Some(s) => r matches Some(v) && v@ == s@,
            None => r is None,
        },
{
    match o {
        Some(s) => Some(chars_of(s.as_str())),
        None => None,
    }
}

/// The check of one generated business module `name`: `Pass` when it lacks
/// nothing, else `Fail` naming what it lacks, joined by `、`.
pub fn generated_module_check(
    name: &str,
    params: &crate::params::CustomizeParams,
    is_cloud: bool,
    files: &GeneratedModuleFiles,
) -> (r: CheckItem)
    ensures
        ({
            let full = trim(params.new_module_prefix@) + "-"@ + name@;
            let gaps = module_gaps(full, is_cloud, *files);
            &&& r.item@ == "新业务模块 "@ + name@
            &&& r.result == (if gaps.len() == 0 { CheckResult::Pass } else { CheckResult::Fail })
            &&& r.message@ == (if gaps.len() == 0 {
                "空骨架目录 / pom / Health 已齐备"@
            } else {
                "缺失："@ + crate::nacos_sql::join(gaps, "、"@)
            })
        }),
{
    let mut full = trim_chars(&chars_of(params.new_module_prefix.as_str()));
    extend_str(&mut full, "-");
    extend_str(&mut full, name);
    let mut tag = chars_of("<module>");
    crate::text::extend_chars(&mut tag, &full);
    extend_str(&mut tag, "</module>");
    let root_pom = chars_of(files.root_pom.as_str());
    let mut gaps: Vec<Vec<char>> = Vec::new();
    proof {
        assert(crate::text::vviews(gaps@) =~= Seq::<Seq<char>>::empty());
    }
    push_gap(&mut gaps, !files.dir_exists, "目录");
    if is_cloud {
        push_gap(&mut gaps, !has_chars(&chars_of(files.modules_pom.as_str()), &tag), "modules/pom.xml 声明");
        push_gap(&mut gaps, has_chars(&root_pom, &tag), "根 pom 不应含叶子 module");
        let cfg = opt_chars(&files.config_sql);
        let mut data_id = full.clone();
        extend_str(&mut data_id, "-dev.yml");
        let mut dash_id = chars_of("- id: ");
        crate::text::extend_chars(&mut dash_id, &full);
        let mut id = chars_of("id: ");
        crate::text::extend_chars(&mut id, &full);
        let (cfg_ok, gw_ok) = match &cfg {
            Some(c) => (has_chars(c, &data_id), has_chars(c, &dash_id) || has_chars(c, &id)),
            None => (false, false),
        };
        push_gap(&mut gaps, !cfg_ok, "Nacos data_id");
        push_gap(&mut gaps, !gw_ok, "网关 - id:");
        push_health_gaps(&mut gaps, &files.health, "common.core.web.domain.AjaxResult");
        let boot = chars_of(files.bootstrap.as_str());
        let nacos_ok = contains_str(&boot, "shared-configs") || contains_str(&boot, "nacos:") || contains_str(
            &boot,
            "spring.cloud.nacos",
        );
        push_gap(&mut gaps, !nacos_ok, "bootstrap nacos 锚点");
        match &files.logback {
            None => {
                let ghost before = gaps@;
                gaps.push(chars_of("logback.xml"));
                assert(crate::text::vviews(gaps@) =~= crate::text::vviews(before).push("logback.xml"@));
            },
            Some(l) => {
                let lc = chars_of(l.as_str());
                let lacks = !(contains_str(&lc, "log.path") && contains_str(&lc, "logs")) && !contains_str(
                    &lc,
                    "value=\"logs\"",
                );
                push_gap(&mut gaps, lacks, "logback log.path=logs");
            },
        }
    } else {
        push_gap(&mut gaps, !has_chars(&root_pom, &tag), "根 pom 声明");
        let mut art = chars_of("<artifactId>");
        crate::text::extend_chars(&mut art, &full);
        extend_str(&mut art, "</artifactId>");
        push_gap(&mut gaps, !has_chars(&chars_of(files.admin_pom.as_str()), &art), "admin 依赖");
        push_health_gaps(&mut gaps, &files.health, "common.core.domain.AjaxResult");
    }
    let mut item = chars_of("新业务模块 ");
    extend_str(&mut item, name);
    if gaps.len() == 0 {
        CheckItem {
            item: string_of(&item),
            result: CheckResult::Pass,
            message: String::from_str("空骨架目录 / pom / Health 已齐备"),
        }
    } else {
        let mut m = chars_of("缺失：");
        crate::nacos_sql::push_joined(&mut m, &gaps, "、");
        CheckItem { item: string_of(&item), result: CheckResult::Fail, message: string_of(&m) }
    }
}

} // verus!
