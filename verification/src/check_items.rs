//! The items of the post-transform validation, built from what was found in
//! the project (file lists, counts, texts): each says what passes, warns or fails.
use vstd::prelude::*;
use crate::module_order::names;
use crate::nacos_sql::join;
use crate::text::{chars_of, contains, contains_str, decimal, extend_chars, extend_str, push_decimal, string_of, vviews};
use crate::validator::{CheckItem, CheckResult};

verus! {

/// The first `n` entries of a list (all of them when it is shorter).
pub open spec fn first_n(s: Seq<Seq<char>>, n: int) -> Seq<Seq<char>> {
    if s.len() <= n {
        s
    } else {
        s.take(n)
    }
}

/// The chars of the first `n` strings of a list.
fn first_chars(v: &Vec<String>, n: usize) -> (r: Vec<Vec<char>>)
    ensures
        vviews(r@) == first_n(names(v@), n as int),
{
    let mut r: Vec<Vec<char>> = Vec::new();
    let mut i: usize = 0;
    let lim: usize = if v.len() <= n { v.len() } else { n };
    while i < lim
        invariant
            i <= lim,
            lim <= v.len(),
            lim == (if v.len() <= n { v.len() } else { n }),
            vviews(r@) == names(v@).take(i as int),
        decreases lim - i,
    {
        r.push(chars_of(v[i].as_str()));
        assert(names(v@).take(i + 1) =~= names(v@).take(i as int).push(v@[i as int]@));
        assert(vviews(r@) =~= vviews(r@.drop_last()).push(r@.last()@));
        i = i + 1;
    }
    assert(names(v@).take(v.len() as int) =~= names(v@));
    r
}

fn item(label: Vec<char>, result: CheckResult, message: Vec<char>) -> (r: CheckItem)
    ensures
        r.item@ == label@,
        r.result == result,
        r.message@ == message@,
{
    CheckItem { item: string_of(&label), result, message: string_of(&message) }
}

/// `Pass` or the given result.
pub open spec fn pass_or(ok: bool, bad: CheckResult) -> CheckResult {
    if ok {
        CheckResult::Pass
    } else {
        bad
    }
}

// ---------------------------------------------------------------------------
// Residue and layout of the transformed project
// ---------------------------------------------------------------------------

/// The old-package residue item: `Warn` naming how many files still hold the
/// old package and the first five of them.
pub fn package_residue_check(files: &Vec<String>) -> (r: CheckItem)
    ensures
        r.item@ == "旧包名残留扫描"@,
        r.result == pass_or(files.len() == 0, CheckResult::Warn),
        r.message@ == (if files.len() == 0 {
            "未发现旧包名残留"@
        } else {
            decimal(files.len() as nat) + " 个文件仍含旧包名："@ + join(first_n(names(files@), 5), "、"@)
        }),
{
    if files.len() == 0 {
        item(chars_of("旧包名残留扫描"), CheckResult::Pass, chars_of("未发现旧包名残留"))
    } else {
        let mut m: Vec<char> = Vec::new();
        push_decimal(&mut m, files.len() as u64);
        extend_str(&mut m, " 个文件仍含旧包名：");
        crate::nacos_sql::push_joined(&mut m, &first_chars(files, 5), "、");
        item(chars_of("旧包名残留扫描"), CheckResult::Warn, m)
    }
}

/// The old-module-prefix residue item over `count` files.
pub fn module_residue_check(count: usize) -> (r: CheckItem)
    ensures
        r.item@ == "旧模块名残留扫描"@,
        r.result == pass_or(count == 0, CheckResult::Warn),
        r.message@ == (if count == 0 {
            "未发现旧模块名残留"@
        } else {
            decimal(count as nat) + " 个文件仍含旧模块前缀"@
        }),
{
    if count == 0 {
        item(chars_of("旧模块名残留扫描"), CheckResult::Pass, chars_of("未发现旧模块名残留"))
    } else {
        let mut m: Vec<char> = Vec::new();
        push_decimal(&mut m, count as u64);
        extend_str(&mut m, " 个文件仍含旧模块前缀");
        item(chars_of("旧模块名残留扫描"), CheckResult::Warn, m)
    }
}

/// Whether a file is scanned for the old module prefix: `pom.xml` and scripts.
pub open spec fn module_residue_file(name: Seq<char>) -> bool {
    name == "pom.xml"@ || crate::text::ends_with(name, ".bat"@) || crate::text::ends_with(name, ".sh"@)
}

/// Whether a file still holds the old module prefix (`{prefix}-`); only
/// `pom.xml` and scripts count.
pub fn holds_old_module_prefix(file_name: &str, content: &str, old_prefix: &str) -> (r: bool)
    ensures
        r == (module_residue_file(file_name@) && contains(content@, old_prefix@ + "-"@)),
{
    let n = chars_of(file_name);
    let scanned = crate::text::eq_str(&n, "pom.xml") || crate::text::ends_with_str(&n, ".bat")
        || crate::text::ends_with_str(&n, ".sh");
    if !scanned {
        return false;
    }
    let mut p = chars_of(old_prefix);
    extend_str(&mut p, "-");
    crate::text::find_from_exec(&chars_of(content), &p, 0).is_some()
}

/// The item of a protected directory that is still there.
pub fn protected_dir_check(dir: &str) -> (r: CheckItem)
    ensures
        r.item@ == "受保护目录 "@ + dir@ + " 完整性"@,
        r.result == CheckResult::Pass,
        r.message@ == "目录仍存在"@,
{
    let mut l = chars_of("受保护目录 ");
    extend_str(&mut l, dir);
    extend_str(&mut l, " 完整性");
    item(l, CheckResult::Pass, chars_of("目录仍存在"))
}

/// The item of one restructured configuration file: `Pass` when it exists and
/// is valid YAML, `Warn` when it exists only, else `Fail`.
pub fn config_file_check(file: &str, exists: bool, valid: bool) -> (r: CheckItem)
    ensures
        r.item@ == "配置文件 "@ + file@,
        r.result == (if exists && valid {
            CheckResult::Pass
        } else if exists {
            CheckResult::Warn
        } else {
            CheckResult::Fail
        }),
        r.message@ == (if exists && valid {
            "存在且 YAML 合法"@
        } else if exists {
            "存在但 YAML 不合法"@
        } else {
            "不存在"@
        }),
{
    let mut l = chars_of("配置文件 ");
    extend_str(&mut l, file);
    if exists && valid {
        item(l, CheckResult::Pass, chars_of("存在且 YAML 合法"))
    } else if exists {
        item(l, CheckResult::Warn, chars_of("存在但 YAML 不合法"))
    } else {
        item(l, CheckResult::Fail, chars_of("不存在"))
    }
}

/// The logback item.
pub fn logback_check(ok: bool) -> (r: CheckItem)
    ensures
        r.item@ == "logback log.path"@,
        r.result == pass_or(ok, CheckResult::Warn),
        r.message@ == (if ok { "log.path 已为 logs"@ } else { "未找到或未修正为 logs"@ }),
{
    if ok {
        item(chars_of("logback log.path"), CheckResult::Pass, chars_of("log.path 已为 logs"))
    } else {
        item(chars_of("logback log.path"), CheckResult::Warn, chars_of("未找到或未修正为 logs"))
    }
}

/// Whether a logback file settles the check: when it sets `log.path`, the
/// verdict is whether it uses `value="logs"`; `None` when it does not set it.
pub fn logback_verdict(content: &str) -> (r: Option<bool>)
    ensures
        r == (if contains(content@, "log.path"@) {
            Some(contains(content@, "value=\"logs\""@))
        } else {
            None
        }),
{
    let c = chars_of(content);
    if contains_str(&c, "log.path") {
        Some(contains_str(&c, "value=\"logs\""))
    } else {
        None
    }
}

/// Whether a pom names a MyBatis-Plus starter (Boot 2, 3 or 4).
pub open spec fn names_mp_starter(pom: Seq<char>) -> bool {
    contains(pom, "mybatis-plus-boot-starter"@) || contains(pom, "mybatis-plus-spring-boot3-starter"@)
        || contains(pom, "mybatis-plus-spring-boot4-starter"@)
}

/// Whether a pom names a MyBatis-Plus starter.
pub fn pom_names_mp_starter(pom: &str) -> (r: bool)
    ensures
        r == names_mp_starter(pom@),
{
    let c = chars_of(pom);
    contains_str(&c, "mybatis-plus-boot-starter") || contains_str(&c, "mybatis-plus-spring-boot3-starter")
        || contains_str(&c, "mybatis-plus-spring-boot4-starter")
}

/// The MyBatis-Plus dependency item.
pub fn mp_dependency_check(ok: bool) -> (r: CheckItem)
    ensures
        r.item@ == "MyBatis-Plus 依赖"@,
        r.result == pass_or(ok, CheckResult::Fail),
        r.message@ == (if ok { "依赖已添加"@ } else { "未找到依赖"@ }),
{
    if ok {
        item(chars_of("MyBatis-Plus 依赖"), CheckResult::Pass, chars_of("依赖已添加"))
    } else {
        item(chars_of("MyBatis-Plus 依赖"), CheckResult::Fail, chars_of("未找到依赖"))
    }
}

/// The generator Mapper template item.
pub fn generator_mapper_check(adapted: bool) -> (r: CheckItem)
    ensures
        r.item@ == "generator Mapper 模板适配"@,
        r.result == pass_or(adapted, CheckResult::Warn),
        r.message@ == (if adapted { "Mapper 已继承 BaseMapper"@ } else { "未检测到适配"@ }),
{
    if adapted {
        item(chars_of("generator Mapper 模板适配"), CheckResult::Pass, chars_of("Mapper 已继承 BaseMapper"))
    } else {
        item(chars_of("generator Mapper 模板适配"), CheckResult::Warn, chars_of("未检测到适配"))
    }
}

// ---------------------------------------------------------------------------
// Generated front ends
// ---------------------------------------------------------------------------

/// The completeness item of a generated project directory: `Pass` with
/// `ok_message` when nothing is missing, else `Fail` listing the missing files.
pub open spec fn files_item_message(missing: Seq<Seq<char>>, ok_message: Seq<char>) -> Seq<char> {
    if missing.len() == 0 {
        ok_message
    } else {
        "缺少文件："@ + join(missing, "、"@)
    }
}

fn missing_message(missing: &Vec<String>, ok_message: Vec<char>) -> (r: Vec<char>)
    ensures
        r@ == files_item_message(names(missing@), ok_message@),
{
    if missing.len() == 0 {
        ok_message
    } else {
        let mut m = chars_of("缺少文件：");
        let parts = first_chars(missing, missing.len());
        crate::nacos_sql::push_joined(&mut m, &parts, "、");
        m
    }
}

/// The UniApp completeness item.
pub fn uniapp_files_check(prefix: &str, missing: &Vec<String>) -> (r: CheckItem)
    ensures
        r.item@ == "UniApp 产物完整性"@,
        r.result == pass_or(missing.len() == 0, CheckResult::Fail),
        r.message@ == files_item_message(names(missing@), prefix@ + "-uniapp 目录结构完整"@),
{
    let mut ok = chars_of(prefix);
    extend_str(&mut ok, "-uniapp 目录结构完整");
    let m = missing_message(missing, ok);
    item(chars_of("UniApp 产物完整性"), pass_or_exec(missing.len() == 0, CheckResult::Fail), m)
}

fn pass_or_exec(ok: bool, bad: CheckResult) -> (r: CheckResult)
    ensures
        r == pass_or(ok, bad),
{
    if ok {
        CheckResult::Pass
    } else {
        bad
    }
}

/// The JSON validity item of a UniApp file.
pub fn uniapp_json_check(file: &str, valid: bool) -> (r: CheckItem)
    ensures
        r.item@ == "UniApp "@ + file@ + " 合法性"@,
        r.result == pass_or(valid, CheckResult::Fail),
        r.message@ == (if valid { "JSON 合法"@ } else { "不存在或 JSON 不合法"@ }),
{
    let mut l = chars_of("UniApp ");
    extend_str(&mut l, file);
    extend_str(&mut l, " 合法性");
    if valid {
        item(l, CheckResult::Pass, chars_of("JSON 合法"))
    } else {
        item(l, CheckResult::Fail, chars_of("不存在或 JSON 不合法"))
    }
}

/// The placeholders a generated UniApp file must not keep, in the order checked.
pub open spec fn uniapp_placeholders() -> Seq<Seq<char>> {
    seq![
        "{{PROJECT_NAME}}"@,
        "{{MODULE_PREFIX}}"@,
        "{{UNIAPP_NAME}}"@,
        "{{API_BASE_URL_DEV}}"@,
        "{{API_BASE_URL_PROD}}"@,
    ]
}

/// The first UniApp placeholder left in a text, if any.
pub open spec fn first_placeholder_in(content: Seq<char>, phs: Seq<Seq<char>>) -> Option<Seq<char>>
    decreases phs.len(),
{
    if phs.len() == 0 {
        None
    } else if contains(content, phs[0]) {
        Some(phs[0])
    } else {
        first_placeholder_in(content, phs.drop_first())
    }
}

/// The residue entry of a UniApp file: `{file} 含 {placeholder}` for the first
/// placeholder it keeps, `None` when it keeps none.
pub fn uniapp_placeholder_residue(file_name: &str, content: &str) -> (r: Option<String>)
    ensures
        match first_placeholder_in(content@, uniapp_placeholders()) {
            Some(ph) => r matches Some(x) && x@ == file_name@ + " 含 "@ + ph,
            None => r is None,
        },
{
    let phs = vec!["{{PROJECT_NAME}}", "{{MODULE_PREFIX}}", "{{UNIAPP_NAME}}", "{{API_BASE_URL_DEV}}", "{{API_BASE_URL_PROD}}"];
    let c = chars_of(content);
    let mut i: usize = 0;
    proof {
        assert(crate::validator::str_views(phs@) =~= uniapp_placeholders());
        assert(crate::validator::str_views(phs@).skip(0) =~= uniapp_placeholders());
    }
    while i < phs.len()
        invariant
            i <= phs.len(),
            c@ == content@,
            crate::validator::str_views(phs@) == uniapp_placeholders(),
            first_placeholder_in(content@, uniapp_placeholders()) == first_placeholder_in(
                content@,
                uniapp_placeholders().skip(i as int),
            ),
        decreases phs.len() - i,
    {
        let ghost rest = uniapp_placeholders().skip(i as int);
        assert(rest[0] == phs@[i as int]@);
        assert(rest.drop_first() =~= uniapp_placeholders().skip(i + 1));
        if contains_str(&c, phs[i]) {
            let mut m = chars_of(file_name);
            extend_str(&mut m, " 含 ");
            extend_str(&mut m, phs[i]);
            return Some(string_of(&m));
        }
        i = i + 1;
    }
    assert(uniapp_placeholders().skip(phs.len() as int).len() == 0);
    None
}

/// The UniApp placeholder item over `count` files that keep one.
pub fn uniapp_placeholder_check(count: usize) -> (r: CheckItem)
    ensures
        r.item@ == "UniApp 占位符残留"@,
        r.result == pass_or(count == 0, CheckResult::Fail),
        r.message@ == (if count == 0 {
            "未发现占位符残留"@
        } else {
            decimal(count as nat) + " 个文件含未替换占位符"@
        }),
{
    if count == 0 {
        item(chars_of("UniApp 占位符残留"), CheckResult::Pass, chars_of("未发现占位符残留"))
    } else {
        let mut m: Vec<char> = Vec::new();
        push_decimal(&mut m, count as u64);
        extend_str(&mut m, " 个文件含未替换占位符");
        item(chars_of("UniApp 占位符残留"), CheckResult::Fail, m)
    }
}

/// The completeness item of the replaced admin UI: the success message is
/// `{prefix}-ui` and the layout's description.
pub fn ui_files_check(prefix: &str, structure_desc: &str, missing: &Vec<String>) -> (r: CheckItem)
    ensures
        r.item@ == "替换后台 UI 产物完整性"@,
        r.result == pass_or(missing.len() == 0, CheckResult::Fail),
        r.message@ == files_item_message(names(missing@), prefix@ + "-ui "@ + structure_desc@),
{
    let mut ok = chars_of(prefix);
    extend_str(&mut ok, "-ui ");
    extend_str(&mut ok, structure_desc);
    let m = missing_message(missing, ok);
    item(chars_of("替换后台 UI 产物完整性"), pass_or_exec(missing.len() == 0, CheckResult::Fail), m)
}

/// The placeholders the replaced UI's files must not keep, in the order checked.
pub open spec fn ui_placeholders() -> Seq<Seq<char>> {
    seq!["{{FRONTEND_TITLE}}"@, "{{API_BASE_URL_DEV}}"@, "{{COPYRIGHT_HOLDER}}"@, "{{COPYRIGHT_YEAR}}"@]
}

/// The residue entries of one UI file, one per placeholder it keeps.
pub open spec fn ui_residue_of(rel: Seq<char>, content: Seq<char>, phs: Seq<Seq<char>>) -> Seq<Seq<char>>
    decreases phs.len(),
{
    if phs.len() == 0 {
        Seq::empty()
    } else {
        let rest = ui_residue_of(rel, content, phs.drop_last());
        if contains(content, phs.last()) {
            rest.push(rel + " 含 "@ + phs.last())
        } else {
            rest
        }
    }
}

/// Appends to `residue` an entry `{rel} 含 {placeholder}` for each UI
/// placeholder the file keeps.
pub fn push_ui_placeholder_residue(residue: &mut Vec<String>, rel: &str, content: &str)
    ensures
        names(final(residue)@) == names(old(residue)@) + ui_residue_of(rel@, content@, ui_placeholders()),
{
    let phs = vec!["{{FRONTEND_TITLE}}", "{{API_BASE_URL_DEV}}", "{{COPYRIGHT_HOLDER}}", "{{COPYRIGHT_YEAR}}"];
    let c = chars_of(content);
    let ghost start = names(residue@);
    proof {
        assert(crate::validator::str_views(phs@) =~= ui_placeholders());
    }
    let mut i: usize = 0;
    while i < phs.len()
        invariant
            i <= phs.len(),
            c@ == content@,
            crate::validator::str_views(phs@) == ui_placeholders(),
            names(residue@) == start + ui_residue_of(rel@, content@, ui_placeholders().take(i as int)),
        decreases phs.len() - i,
    {
        assert(ui_placeholders().take(i + 1).drop_last() =~= ui_placeholders().take(i as int));
        assert(ui_placeholders().take(i + 1).last() == phs@[i as int]@);
        if contains_str(&c, phs[i]) {
            let mut m = chars_of(rel);
            extend_str(&mut m, " 含 ");
            extend_str(&mut m, phs[i]);
            let ghost before = residue@;
            residue.push(string_of(&m));
            assert(names(residue@) =~= names(before).push(m@));
        }
        i = i + 1;
    }
    assert(ui_placeholders().take(4) =~= ui_placeholders());
}

/// The placeholder item of the replaced UI: the residue entries joined by `；`.
pub fn ui_placeholder_check(residue: &Vec<String>) -> (r: CheckItem)
    ensures
        r.item@ == "替换后台 UI 占位符残留"@,
        r.result == pass_or(residue.len() == 0, CheckResult::Fail),
        r.message@ == (if residue.len() == 0 {
            "标题/端口/版权占位符已替换"@
        } else {
            join(names(residue@), "；"@)
        }),
{
    if residue.len() == 0 {
        item(chars_of("替换后台 UI 占位符残留"), CheckResult::Pass, chars_of("标题/端口/版权占位符已替换"))
    } else {
        let mut m: Vec<char> = Vec::new();
        crate::nacos_sql::push_joined(&mut m, &first_chars(residue, residue.len()), "；");
        item(chars_of("替换后台 UI 占位符残留"), CheckResult::Fail, m)
    }
}

// ---------------------------------------------------------------------------
// Encodings
// ---------------------------------------------------------------------------

/// The item of the files read as GBK and written back as UTF-8.
pub fn transcoded_check(files: &Vec<String>) -> (r: CheckItem)
    ensures
        r.item@ == "非 UTF-8 文件转码"@,
        r.result == pass_or(files.len() == 0, CheckResult::Warn),
        r.message@ == (if files.len() == 0 {
            "全部文本文件均为 UTF-8"@
        } else {
            decimal(files.len() as nat) + " 个文件已按 GBK 转码并统一写回 UTF-8："@ + join(
                first_n(names(files@), 5),
                "、"@,
            ) + "；请确认项目构建编码为 UTF-8（如 pom 的 project.build.sourceEncoding），避免编译时中文乱码"@
        }),
{
    if files.len() == 0 {
        item(chars_of("非 UTF-8 文件转码"), CheckResult::Pass, chars_of("全部文本文件均为 UTF-8"))
    } else {
        let mut m: Vec<char> = Vec::new();
        push_decimal(&mut m, files.len() as u64);
        extend_str(&mut m, " 个文件已按 GBK 转码并统一写回 UTF-8：");
        crate::nacos_sql::push_joined(&mut m, &first_chars(files, 5), "、");
        extend_str(&mut m, "；请确认项目构建编码为 UTF-8（如 pom 的 project.build.sourceEncoding），避免编译时中文乱码");
        item(chars_of("非 UTF-8 文件转码"), CheckResult::Warn, m)
    }
}

/// The item of the files that could not be decoded.
pub fn undecodable_check(files: &Vec<String>) -> (r: CheckItem)
    ensures
        r.item@ == "编码无法识别的文件"@,
        r.result == pass_or(files.len() == 0, CheckResult::Fail),
        r.message@ == (if files.len() == 0 {
            "无编码无法识别的文本文件"@
        } else {
            decimal(files.len() as nat) + " 个文件无法按 UTF-8/GBK 解码，未参与文本替换，需人工处理："@ + join(
                first_n(names(files@), 5),
                "、"@,
            )
        }),
{
    if files.len() == 0 {
        item(chars_of("编码无法识别的文件"), CheckResult::Pass, chars_of("无编码无法识别的文本文件"))
    } else {
        let mut m: Vec<char> = Vec::new();
        push_decimal(&mut m, files.len() as u64);
        extend_str(&mut m, " 个文件无法按 UTF-8/GBK 解码，未参与文本替换，需人工处理：");
        crate::nacos_sql::push_joined(&mut m, &first_chars(files, 5), "、");
        item(chars_of("编码无法识别的文件"), CheckResult::Fail, m)
    }
}

// ---------------------------------------------------------------------------
// Cloud projects
// ---------------------------------------------------------------------------

/// Whether a file of `sql/` is the business database script: `ry_*.sql`, not
/// the configuration, Seata or Quartz one (names compared in ASCII lower case).
pub open spec fn biz_sql_name(name: Seq<char>) -> bool {
    let n = crate::text::lower(name);
    &&& crate::text::starts_with(n, "ry_"@)
    &&& crate::text::ends_with(n, ".sql"@)
    &&& !crate::text::starts_with(n, "ry_config"@)
    &&& !contains(n, "seata"@)
    &&& !contains(n, "quartz"@)
}

/// Whether a file of `sql/` is the business database script (see `biz_sql_name`).
pub fn is_biz_sql_name(name: &str) -> (r: bool)
    ensures
        r == biz_sql_name(name@),
{
    let n = crate::text::lower_chars(&chars_of(name));
    crate::text::starts_with_str(&n, "ry_") && crate::text::ends_with_str(&n, ".sql") && !crate::text::starts_with_str(
        &n,
        "ry_config",
    ) && !contains_str(&n, "seata") && !contains_str(&n, "quartz")
}

/// The verdict on a database script of a Cloud project. With SQL customization
/// off, a present script passes. With it on, the official name (`dash` or `us`)
/// must stay when it is the one asked for; another name must appear and none of
/// the `stale` texts may.
pub open spec fn script_verdict(
    db: Seq<char>,
    script: Option<Seq<char>>,
    customize: bool,
    dash: Seq<char>,
    us: Seq<char>,
    stale1: Seq<char>,
    stale2: Seq<char>,
    label: Seq<char>,
    not_found: Seq<char>,
) -> (bool, Seq<char>) {
    match script {
        None => (false, not_found),
        Some(c) => if !customize {
            (true, label + "脚本存在（未开启 SQL 定制，不检查库名）"@)
        } else if db == dash || db == us {
            if contains(c, dash) || contains(c, us) {
                (true, label + "脚本保持官方默认 "@ + dash)
            } else {
                (false, label + "脚本缺少官方库名 "@ + dash)
            }
        } else if contains(c, db) && !contains(c, stale1) && !contains(c, stale2) {
            (true, label + "脚本已替换为 "@ + db)
        } else {
            (false, label + "脚本尚未将 "@ + dash + " 替换为 "@ + db)
        },
    }
}

fn script_check(
    title: &str,
    db: &str,
    script: Option<&str>,
    customize: bool,
    dash: &str,
    us: &str,
    stale1: &str,
    stale2: &str,
    label: &str,
    not_found: &str,
) -> (r: CheckItem)
    ensures
        ({
            let (ok, msg) = script_verdict(
                db@,
                match script { Some(c) => Some(c@), None => None },
                customize,
                dash@,
                us@,
                stale1@,
                stale2@,
                label@,
                not_found@,
            );
            &&& r.item@ == title@
            &&& r.result == pass_or(ok, CheckResult::Fail)
            &&& r.message@ == msg
        }),
{
    let t = chars_of(title);
    match script {
        None => item(t, CheckResult::Fail, chars_of(not_found)),
        Some(c) => {
            let mut m = chars_of(label);
            if !customize {
                extend_str(&mut m, "脚本存在（未开启 SQL 定制，不检查库名）");
                return item(t, CheckResult::Pass, m);
            }
            let cv = chars_of(c);
            let d = chars_of(db);
            if crate::text::eq_str(&d, dash) || crate::text::eq_str(&d, us) {
                if contains_str(&cv, dash) || contains_str(&cv, us) {
                    extend_str(&mut m, "脚本保持官方默认 ");
                    extend_str(&mut m, dash);
                    item(t, CheckResult::Pass, m)
                } else {
                    extend_str(&mut m, "脚本缺少官方库名 ");
                    extend_str(&mut m, dash);
                    item(t, CheckResult::Fail, m)
                }
            } else if crate::text::find_from_exec(&cv, &d, 0).is_some() && !contains_str(&cv, stale1)
                && !contains_str(&cv, stale2) {
                extend_str(&mut m, "脚本已替换为 ");
                extend_str(&mut m, db);
                item(t, CheckResult::Pass, m)
            } else {
                extend_str(&mut m, "脚本尚未将 ");
                extend_str(&mut m, dash);
                extend_str(&mut m, " 替换为 ");
                extend_str(&mut m, db);
                item(t, CheckResult::Fail, m)
            }
        },
    }
}

/// The business database script item of a Cloud project (`biz_db` is the
/// database name the run resolved; `script` the text of `sql/ry_*.sql` found).
pub fn cloud_biz_script_check(biz_db: &str, script: Option<&str>, customize: bool) -> (r: CheckItem)
    ensures
        ({
            let (ok, msg) = script_verdict(
                biz_db@,
                match script { Some(c) => Some(c@), None => None },
                customize,
                "ry-cloud"@,
                "ry_cloud"@,
                "`ry-cloud`"@,
                "ry-cloud"@,
                "业务库"@,
                "未找到业务库脚本 sql/ry_*.sql"@,
            );
            &&& r.item@ == "Cloud 业务库脚本"@
            &&& r.result == pass_or(ok, CheckResult::Fail)
            &&& r.message@ == msg
        }),
{
    script_check(
        "Cloud 业务库脚本",
        biz_db,
        script,
        customize,
        "ry-cloud",
        "ry_cloud",
        "`ry-cloud`",
        "ry-cloud",
        "业务库",
        "未找到业务库脚本 sql/ry_*.sql",
    )
}

/// The configuration database script item of a Cloud project.
pub fn cloud_config_script_check(cfg_db: &str, script: Option<&str>, customize: bool) -> (r: CheckItem)
    ensures
        ({
            let (ok, msg) = script_verdict(
                cfg_db@,
                match script { Some(c) => Some(c@), None => None },
                customize,
                "ry-config"@,
                "ry_config"@,
                "`ry-config`"@,
                "CREATE DATABASE `ry-config`"@,
                "配置库"@,
                "未找到配置库脚本 sql/ry_config*.sql"@,
            );
            &&& r.item@ == "Cloud 配置库脚本"@
            &&& r.result == pass_or(ok, CheckResult::Fail)
            &&& r.message@ == msg
        }),
{
    script_check(
        "Cloud 配置库脚本",
        cfg_db,
        script,
        customize,
        "ry-config",
        "ry_config",
        "`ry-config`",
        "CREATE DATABASE `ry-config`",
        "配置库",
        "未找到配置库脚本 sql/ry_config*.sql",
    )
}

/// `s` without its leading `c`s.
pub open spec fn strip_leading(s: Seq<char>, c: char) -> Seq<char>
    decreases s.len(),
{
    if s.len() > 0 && s[0] == c {
        strip_leading(s.drop_first(), c)
    } else {
        s
    }
}

/// `s` without its trailing `c`s.
pub open spec fn strip_trailing(s: Seq<char>, c: char) -> Seq<char>
    decreases s.len(),
{
    if s.len() > 0 && s.last() == c {
        strip_trailing(s.drop_last(), c)
    } else {
        s
    }
}

/// `str::trim_matches('"')`.
pub open spec fn trim_quotes(s: Seq<char>) -> Seq<char> {
    strip_trailing(strip_leading(s, '"'), '"')
}

fn trim_quotes_exec(s: &Vec<char>) -> (r: Vec<char>)
    ensures
        r@ == trim_quotes(s@),
{
    let mut lo: usize = 0;
    assert(s@.skip(0) =~= s@);
    while lo < s.len() && s[lo] == '"'
        invariant
            lo <= s.len(),
            strip_leading(s@, '"') == strip_leading(s@.skip(lo as int), '"'),
        decreases s.len() - lo,
    {
        assert(s@.skip(lo as int).drop_first() =~= s@.skip(lo + 1));
        lo = lo + 1;
    }
    assert(strip_leading(s@.skip(lo as int), '"') == s@.skip(lo as int));
    let mut hi: usize = s.len();
    let ghost t = s@.skip(lo as int);
    while hi > lo && s[hi - 1] == '"'
        invariant
            lo <= hi <= s.len(),
            t == s@.skip(lo as int),
            strip_trailing(t, '"') == strip_trailing(s@.subrange(lo as int, hi as int), '"'),
        decreases hi,
    {
        assert(s@.subrange(lo as int, hi as int).drop_last() =~= s@.subrange(lo as int, hi - 1));
        hi = hi - 1;
    }
    assert(t =~= s@.subrange(lo as int, s.len() as int));
    crate::text::slice_chars(s, lo, hi)
}

/// Whether a configuration line names the account `user`:
/// `username: {user}`, the value trimmed and unquoted.
pub open spec fn names_user(line: Seq<char>, user: Seq<char>) -> bool {
    let t = crate::text::trim_start(line);
    crate::text::starts_with(t, "username:"@) && trim_quotes(crate::text::trim(t.skip(9))) == user
}

/// The JDBC URL of the business database.
pub open spec fn mysql_jdbc(host: Seq<char>, port: Seq<char>, db: Seq<char>) -> Seq<char> {
    "jdbc:mysql://"@ + host + ":"@ + port + "/"@ + db
}

/// Whether a configuration (its YAML text) names the account on some line.
pub open spec fn content_names_user(content: Seq<char>, user: Seq<char>) -> bool {
    exists|j: int| 0 <= j < crate::text::lines(content).len() && names_user(#[trigger] crate::text::lines(content)[j], user)
}

/// The verdict on the data source of a Cloud project: the raw configuration
/// script, or one of its parsed configurations, must hold the JDBC URL and
/// (unless no account is set) the account.
pub open spec fn datasource_verdict(
    raw: Option<Seq<char>>,
    contents: Seq<Seq<char>>,
    jdbc: Seq<char>,
    user: Seq<char>,
) -> (bool, Seq<char>) {
    match raw {
        None => (false, "未找到配置库脚本，无法核验数据源连接"@),
        Some(r) => {
            let jdbc_ok = contains(r, jdbc) || exists|i: int| 0 <= i < contents.len() && contains(#[trigger] contents[i], jdbc);
            let user_ok = user.len() == 0 || contains(r, "username: "@ + user) || exists|i: int|
                0 <= i < contents.len() && content_names_user(#[trigger] contents[i], user);
            if !jdbc_ok {
                (false, "配置库脚本未见数据源 "@ + jdbc)
            } else if !user_ok {
                (false, "配置库脚本未见数据源账号 "@ + user)
            } else {
                (true, "配置库数据源已指向 "@ + jdbc)
            }
        },
    }
}

fn any_contains(contents: &Vec<String>, p: &Vec<char>) -> (r: bool)
    ensures
        r == exists|i: int| 0 <= i < contents.len() && contains(#[trigger] names(contents@)[i], p@),
{
    let mut i: usize = 0;
    while i < contents.len()
        invariant
            i <= contents.len(),
            forall|k: int| 0 <= k < i ==> !contains(#[trigger] names(contents@)[k], p@),
        decreases contents.len() - i,
    {
        if crate::text::find_from_exec(&chars_of(contents[i].as_str()), p, 0).is_some() {
            assert(contains(names(contents@)[i as int], p@));
            return true;
        }
        i = i + 1;
    }
    false
}

fn names_user_exec(line: &Vec<char>, user: &Vec<char>) -> (r: bool)
    ensures
        r == names_user(line@, user@),
{
    let t = crate::text::trim_start_chars(line);
    if !crate::text::starts_with_str(&t, "username:") {
        return false;
    }
    proof {
        reveal_strlit("username:");
    }
    let rest = crate::text::slice_chars(&t, 9, t.len());
    assert(rest@ =~= t@.skip(9));
    let v = trim_quotes_exec(&crate::text::trim_chars(&rest));
    crate::text::chars_eq(&v, user)
}

fn content_names_user_exec(content: &str, user: &Vec<char>) -> (r: bool)
    ensures
        r == content_names_user(content@, user@),
{
    let ls = crate::text::lines_of(&chars_of(content));
    let mut j: usize = 0;
    while j < ls.len()
        invariant
            j <= ls.len(),
            vviews(ls@) == crate::text::lines(content@),
            forall|k: int| 0 <= k < j ==> !names_user(#[trigger] crate::text::lines(content@)[k], user@),
        decreases ls.len() - j,
    {
        if names_user_exec(&ls[j], user) {
            assert(vviews(ls@)[j as int] == ls@[j as int]@);
            return true;
        }
        assert(vviews(ls@)[j as int] == ls@[j as int]@);
        j = j + 1;
    }
    false
}

/// The data source item of a Cloud project. `contents` are the YAML texts of
/// the configurations parsed from the script (none when it did not parse).
pub fn cloud_datasource_check(
    host: &str,
    port: &str,
    biz_db: &str,
    user: &str,
    config_sql: Option<&str>,
    contents: &Vec<String>,
) -> (r: CheckItem)
    ensures
        ({
            let (ok, msg) = datasource_verdict(
                match config_sql { Some(c) => Some(c@), None => None },
                names(contents@),
                mysql_jdbc(host@, port@, biz_db@),
                user@,
            );
            &&& r.item@ == "Cloud 数据源连接"@
            &&& r.result == pass_or(ok, CheckResult::Fail)
            &&& r.message@ == msg
        }),
{
    let t = chars_of("Cloud 数据源连接");
    let raw = match config_sql {
        None => return item(t, CheckResult::Fail, chars_of("未找到配置库脚本，无法核验数据源连接")),
        Some(c) => chars_of(c),
    };
    let mut jdbc = chars_of("jdbc:mysql://");
    extend_str(&mut jdbc, host);
    extend_str(&mut jdbc, ":");
    extend_str(&mut jdbc, port);
    extend_str(&mut jdbc, "/");
    extend_str(&mut jdbc, biz_db);
    let jdbc_ok = crate::text::find_from_exec(&raw, &jdbc, 0).is_some() || any_contains(contents, &jdbc);
    let u = chars_of(user);
    let mut uline = chars_of("username: ");
    extend_str(&mut uline, user);
    let mut user_ok = u.len() == 0 || crate::text::find_from_exec(&raw, &uline, 0).is_some();
    let mut i: usize = 0;
    while !user_ok && i < contents.len()
        invariant
            i <= contents.len(),
            u@ == user@,
            !user_ok ==> forall|k: int| 0 <= k < i ==> !content_names_user(#[trigger] names(contents@)[k], user@),
            user_ok == (user@.len() == 0 || contains(raw@, "username: "@ + user@) || exists|k: int|
                0 <= k < contents.len() && content_names_user(#[trigger] names(contents@)[k], user@)) || !user_ok,
            user_ok ==> (user@.len() == 0 || contains(raw@, "username: "@ + user@) || exists|k: int|
                0 <= k < contents.len() && content_names_user(#[trigger] names(contents@)[k], user@)),
            !user_ok ==> !(user@.len() == 0 || contains(raw@, "username: "@ + user@)),
        decreases contents.len() - i,
    {
        if content_names_user_exec(contents[i].as_str(), &u) {
            assert(content_names_user(names(contents@)[i as int], user@));
            user_ok = true;
        }
        i = i + 1;
    }
    if !jdbc_ok {
        let mut m = chars_of("配置库脚本未见数据源 ");
        extend_chars(&mut m, &jdbc);
        item(t, CheckResult::Fail, m)
    } else if !user_ok {
        let mut m = chars_of("配置库脚本未见数据源账号 ");
        extend_str(&mut m, user);
        item(t, CheckResult::Fail, m)
    } else {
        let mut m = chars_of("配置库数据源已指向 ");
        extend_chars(&mut m, &jdbc);
        item(t, CheckResult::Pass, m)
    }
}

/// Whether a `bootstrap.yml` keeps a Nacos anchor (see `bootstrap_has_nacos`).
pub fn has_nacos_anchor(content: &str) -> (r: bool)
    ensures
        r == crate::validator::bootstrap_has_nacos(content@),
{
    let c = chars_of(content);
    contains_str(&c, "shared-configs") || contains_str(&c, "nacos:") || contains_str(&c, "spring.cloud.nacos")
}

/// The bootstrap item over `checked` bootstrap files, `missing` those without
/// a Nacos anchor.
pub fn bootstrap_anchor_check(checked: usize, missing: &Vec<String>) -> (r: CheckItem)
    ensures
        r.item@ == "Cloud bootstrap Nacos 锚点"@,
        r.result == pass_or(checked > 0 && missing.len() == 0, CheckResult::Fail),
        r.message@ == (if checked == 0 {
            "未找到 bootstrap.yml"@
        } else if missing.len() == 0 {
            decimal(checked as nat) + " 个 bootstrap 仍含 nacos 锚点（shared-configs 或 nacos: import）"@
        } else {
            "bootstrap 缺失 nacos 锚点："@ + join(names(missing@), "、"@)
        }),
{
    let t = chars_of("Cloud bootstrap Nacos 锚点");
    if checked == 0 {
        item(t, CheckResult::Fail, chars_of("未找到 bootstrap.yml"))
    } else if missing.len() == 0 {
        let mut m: Vec<char> = Vec::new();
        push_decimal(&mut m, checked as u64);
        extend_str(&mut m, " 个 bootstrap 仍含 nacos 锚点（shared-configs 或 nacos: import）");
        item(t, CheckResult::Pass, m)
    } else {
        let mut m = chars_of("bootstrap 缺失 nacos 锚点：");
        crate::nacos_sql::push_joined(&mut m, &first_chars(missing, missing.len()), "、");
        item(t, CheckResult::Fail, m)
    }
}

/// A check item as plain values.
pub open spec fn item_view(i: CheckItem) -> (Seq<char>, CheckResult, Seq<char>) {
    (i.item@, i.result, i.message@)
}

/// The menu link items of the business script: the Nacos console must point at
/// `127.0.0.1:8848` (an item only when either host shows), and the API docs must
/// not point at port 8080.
pub open spec fn console_link_items(c: Seq<char>) -> Seq<(Seq<char>, CheckResult, Seq<char>)> {
    let nacos: Seq<(Seq<char>, CheckResult, Seq<char>)> = if contains(c, "localhost:8848"@) {
        seq![("Cloud Nacos 控制台链接"@, CheckResult::Fail, "业务库 SQL 菜单仍含 localhost:8848，应为 127.0.0.1:8848"@)]
    } else if contains(c, "127.0.0.1:8848"@) {
        seq![("Cloud Nacos 控制台链接"@, CheckResult::Pass, "Nacos 控制台链接已为 127.0.0.1:8848"@)]
    } else {
        Seq::empty()
    };
    if contains(c, "localhost:8080/swagger"@) || contains(c, "localhost:8080/doc.html"@) {
        nacos.push(("Cloud 系统接口链接"@, CheckResult::Fail, "业务库 SQL 菜单仍含 localhost:8080 的 swagger/doc.html，应改为网关端口"@))
    } else {
        nacos
    }
}

/// The menu link items of the business script (see `console_link_items`).
pub fn console_link_checks(biz_sql: &str) -> (r: Vec<CheckItem>)
    ensures
        r@.map_values(|i: CheckItem| item_view(i)) == console_link_items(biz_sql@),
{
    let c = chars_of(biz_sql);
    let mut r: Vec<CheckItem> = Vec::new();
    if contains_str(&c, "localhost:8848") {
        r.push(item(chars_of("Cloud Nacos 控制台链接"), CheckResult::Fail, chars_of("业务库 SQL 菜单仍含 localhost:8848，应为 127.0.0.1:8848")));
    } else if contains_str(&c, "127.0.0.1:8848") {
        r.push(item(chars_of("Cloud Nacos 控制台链接"), CheckResult::Pass, chars_of("Nacos 控制台链接已为 127.0.0.1:8848")));
    }
    let ghost first = r@;
    if contains_str(&c, "localhost:8080/swagger") || contains_str(&c, "localhost:8080/doc.html") {
        r.push(item(chars_of("Cloud 系统接口链接"), CheckResult::Fail, chars_of("业务库 SQL 菜单仍含 localhost:8080 的 swagger/doc.html，应改为网关端口")));
        assert(r@ =~= first.push(r@.last()));
    }
    assert(r@.map_values(|i: CheckItem| item_view(i)) =~= console_link_items(biz_sql@));
    r
}

/// Whether a pom or SQL file still carries a removed module `m` (its short name,
/// trimmed and lower-cased): `monitor` by `ruoyi-visual` / `ruoyi-monitor`;
/// another by its `<module>` entry under the old or new prefix, or, in SQL, by
/// `ruoyi-{m}-` / `{prefix}-{m}-`.
pub open spec fn removed_module_left(m: Seq<char>, file_name: Seq<char>, content: Seq<char>, prefix: Seq<char>) -> bool {
    let key = crate::text::lower(crate::text::trim(m));
    let sql = crate::text::ends_with(file_name, ".sql"@);
    if file_name != "pom.xml"@ && !sql {
        false
    } else if key == "monitor"@ {
        contains(content, "ruoyi-visual"@) || contains(content, "ruoyi-monitor"@)
    } else {
        let marker = "ruoyi-"@ + key;
        let renamed = prefix + "-"@ + key;
        contains(content, "<module>"@ + marker + "</module>"@) || contains(content, "<module>"@ + renamed + "</module>"@)
            || (sql && (contains(content, marker + "-"@) || contains(content, renamed + "-"@)))
    }
}

/// Whether a file still carries a removed module (see `removed_module_left`).
pub fn removed_module_leftover(module: &str, file_name: &str, content: &str, prefix: &str) -> (r: bool)
    ensures
        r == removed_module_left(module@, file_name@, content@, prefix@),
{
    let key = crate::text::lower_chars(&crate::text::trim_chars(&chars_of(module)));
    let n = chars_of(file_name);
    let sql = crate::text::ends_with_str(&n, ".sql");
    if !crate::text::eq_str(&n, "pom.xml") && !sql {
        return false;
    }
    let c = chars_of(content);
    if crate::text::eq_str(&key, "monitor") {
        return contains_str(&c, "ruoyi-visual") || contains_str(&c, "ruoyi-monitor");
    }
    let mut marker = chars_of("ruoyi-");
    extend_chars(&mut marker, &key);
    let mut renamed = chars_of(prefix);
    extend_str(&mut renamed, "-");
    extend_chars(&mut renamed, &key);
    let mut m1 = chars_of("<module>");
    extend_chars(&mut m1, &marker);
    extend_str(&mut m1, "</module>");
    let mut m2 = chars_of("<module>");
    extend_chars(&mut m2, &renamed);
    extend_str(&mut m2, "</module>");
    let mut d1 = marker.clone();
    extend_str(&mut d1, "-");
    let mut d2 = renamed.clone();
    extend_str(&mut d2, "-");
    crate::text::find_from_exec(&c, &m1, 0).is_some() || crate::text::find_from_exec(&c, &m2, 0).is_some() || (sql && (
    crate::text::find_from_exec(&c, &d1, 0).is_some() || crate::text::find_from_exec(&c, &d2, 0).is_some()))
}

/// The removed-module residue item over `count` files.
pub fn removed_modules_check(count: usize) -> (r: CheckItem)
    ensures
        r.item@ == "Cloud 裁剪模块残留"@,
        r.result == pass_or(count == 0, CheckResult::Fail),
        r.message@ == (if count == 0 {
            "被裁模块在 pom / Nacos 中无残留"@
        } else {
            decimal(count as nat) + " 处仍有被裁模块残留"@
        }),
{
    if count == 0 {
        item(chars_of("Cloud 裁剪模块残留"), CheckResult::Pass, chars_of("被裁模块在 pom / Nacos 中无残留"))
    } else {
        let mut m: Vec<char> = Vec::new();
        push_decimal(&mut m, count as u64);
        extend_str(&mut m, " 处仍有被裁模块残留");
        item(chars_of("Cloud 裁剪模块残留"), CheckResult::Fail, m)
    }
}

} // verus!
