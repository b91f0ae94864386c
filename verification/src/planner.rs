//! The transform planner: which tasks a run performs, in which order, and
//! what each of them touches. Planning is a dry run: everything it needs from
//! the disk arrives in `PlanFacts`.
use vstd::prelude::*;
use crate::new_module::{norm_names, normalize_new_module_names};
use crate::params::{CustomizeParams, ProjectInfo};
use crate::rules::Template;
use crate::task::{sviews, RiskLevel, Task, TaskStatus, TaskType};
use crate::text::{
    chars_of, decimal, digit, eq_str, ends_with, ends_with_str, extend_chars, extend_str, lower,
    lower_chars, push_decimal, starts_with, string_of, trim, trim_chars,
};
use crate::web_footer::{footer_start_year_with, start_year};

verus! {

/// What planning reads from the project on disk (gathered before planning).
pub struct PlanFacts {
    /// Text files (relative paths) that mention the original package, dotted or slashed.
    pub files_with_old_package: Vec<String>,
    /// Back-end modules whose `src/main/java/<original package path>` directory exists.
    pub modules_with_java_base: Vec<String>,
    /// Every `pom.xml` outside excluded directories (relative paths).
    pub pom_files: Vec<String>,
    /// The front-end files whose title is rewritten and that exist (relative paths).
    pub frontend_files: Vec<String>,
    /// Whether the project is a RuoYi-Cloud project.
    pub is_cloud: bool,
    /// The Cloud module whose leaf name ends in `system`, when one was found.
    pub cloud_system_module: Option<String>,
    /// The database host the SQL and Nacos steps write.
    pub db_host: String,
    /// The database port the SQL and Nacos steps write.
    pub db_port: String,
    /// The Cloud business database name.
    pub cloud_biz_db_name: String,
    /// The current year.
    pub current_year: String,
    /// The AI rule files the rules step writes, in order.
    pub ai_rule_files: Vec<String>,
}

/// A task as the planner describes it, by value.
pub struct TaskShape {
    pub id: Seq<char>,
    pub name: Seq<char>,
    pub kind: TaskType,
    pub risk: RiskLevel,
    pub files: Seq<Seq<char>>,
    pub dirs: Seq<Seq<char>>,
    pub created: Seq<Seq<char>>,
    pub status: TaskStatus,
    pub error: Seq<char>,
}

/// The value of a task.
pub open spec fn task_view(t: Task) -> TaskShape {
    TaskShape {
        id: t.id@,
        name: t.name@,
        kind: t.task_type,
        risk: t.risk_level,
        files: sviews(t.affected_files@),
        dirs: sviews(t.affected_dirs@),
        created: sviews(t.created_files@),
        status: t.status,
        error: t.error_message@,
    }
}

/// The values of a list of tasks.
pub open spec fn tviews(v: Seq<Task>) -> Seq<TaskShape> {
    v.map_values(|t: Task| task_view(t))
}

/// A pending task without an id.
pub open spec fn shape(
    name: Seq<char>,
    kind: TaskType,
    risk: RiskLevel,
    files: Seq<Seq<char>>,
    dirs: Seq<Seq<char>>,
    created: Seq<Seq<char>>,
) -> TaskShape {
    TaskShape {
        id: Seq::empty(),
        name,
        kind,
        risk,
        files,
        dirs,
        created,
        status: TaskStatus::Pending,
        error: Seq::empty(),
    }
}

/// The id of the task at index `i`: its number `i + 1`, at least two digits (`{:02}`).
pub open spec fn task_id(i: nat) -> Seq<char> {
    if i + 1 < 10 {
        seq!['0', digit(i + 1)]
    } else {
        decimal(i + 1)
    }
}

/// A task with the given id.
pub open spec fn with_id(t: TaskShape, id: Seq<char>) -> TaskShape {
    TaskShape {
        id,
        name: t.name,
        kind: t.kind,
        risk: t.risk,
        files: t.files,
        dirs: t.dirs,
        created: t.created,
        status: t.status,
        error: t.error,
    }
}

/// Tasks numbered in order.
pub open spec fn numbered(s: Seq<TaskShape>) -> Seq<TaskShape> {
    Seq::new(s.len(), |i: int| with_id(s[i], task_id(i as nat)))
}

/// Tasks with their ids removed.
pub open spec fn unnumbered(s: Seq<TaskShape>) -> Seq<TaskShape> {
    s.map_values(|t: TaskShape| with_id(t, Seq::empty()))
}

/// Every task carries the id of its position.
pub open spec fn ids_in_order(s: Seq<TaskShape>) -> bool {
    forall|i: int| 0 <= i < s.len() ==> (#[trigger] s[i]).id == task_id(i as nat)
}

proof fn lemma_numbered(s: Seq<TaskShape>)
    requires
        ids_in_order(s),
    ensures
        s == numbered(unnumbered(s)),
{
    assert(s =~= numbered(unnumbered(s)));
}

// ---------------------------------------------------------------------------
// Text helpers
// ---------------------------------------------------------------------------

/// `PathBuf::push` of a relative or absolute piece onto a path (Unix separators).
pub open spec fn path_push(p: Seq<char>, seg: Seq<char>) -> Seq<char> {
    if seg.len() > 0 && seg[0] == '/' {
        seg
    } else if p.len() == 0 {
        seg
    } else if p.last() == '/' {
        p + seg
    } else {
        p + seq!['/'] + seg
    }
}

/// Splitting `rest` at dots and pushing each piece onto `done`, `cur` being the
/// piece read so far.
pub open spec fn push_pieces(done: Seq<char>, cur: Seq<char>, rest: Seq<char>) -> Seq<char>
    decreases rest.len(),
{
    if rest.len() == 0 {
        path_push(done, cur)
    } else if rest[0] == '.' {
        push_pieces(path_push(done, cur), Seq::empty(), rest.drop_first())
    } else {
        push_pieces(done, cur.push(rest[0]), rest.drop_first())
    }
}

/// The directory of a Java package: its dot-separated pieces pushed onto an empty path.
pub open spec fn package_path(pkg: Seq<char>) -> Seq<char> {
    push_pieces(Seq::empty(), Seq::empty(), pkg)
}

fn path_push_exec(p: &Vec<char>, seg: &Vec<char>) -> (r: Vec<char>)
    ensures
        r@ == path_push(p@, seg@),
{
    if seg.len() > 0 && seg[0] == '/' {
        return clone_chars(seg);
    }
    if p.len() == 0 {
        return clone_chars(seg);
    }
    let mut r = clone_chars(p);
    if p[p.len() - 1] != '/' {
        r.push('/');
    }
    extend_chars(&mut r, seg);
    r
}

fn clone_chars(v: &Vec<char>) -> (r: Vec<char>)
    ensures
        r@ == v@,
{
    let mut r: Vec<char> = Vec::new();
    extend_chars(&mut r, v);
    r
}

/// The directory of a Java package (`a.b.c` gives `a/b/c`).
pub fn package_to_path(pkg: &str) -> (r: Vec<char>)
    ensures
        r@ == package_path(pkg@),
{
    let s = chars_of(pkg);
    let mut done: Vec<char> = Vec::new();
    let mut cur: Vec<char> = Vec::new();
    let mut i: usize = 0;
    assert(s@.skip(0) =~= s@);
    while i < s.len()
        invariant
            i <= s.len(),
            push_pieces(done@, cur@, s@.skip(i as int)) == package_path(pkg@),
            s@ == pkg@,
        decreases s.len() - i,
    {
        assert(s@.skip(i as int).drop_first() =~= s@.skip(i as int + 1));
        if s[i] == '.' {
            done = path_push_exec(&done, &cur);
            cur = Vec::new();
        } else {
            cur.push(s[i]);
        }
        i = i + 1;
    }
    path_push_exec(&done, &cur)
}

/// `PathBuf::join` of a path and a relative piece, as text.
fn join_lit(p: &Vec<char>, seg: &str) -> (r: Vec<char>)
    ensures
        r@ == path_push(p@, seg@),
{
    path_push_exec(p, &chars_of(seg))
}

/// Text made of a path and a suffix.
fn cat(a: &Vec<char>, b: &str) -> (r: String)
    ensures
        r@ == a@ + b@,
{
    let mut v = clone_chars(a);
    extend_str(&mut v, b);
    string_of(&v)
}

/// Whether a string is empty.
fn is_empty(s: &String) -> (r: bool)
    ensures
        r == (s@.len() == 0),
{
    chars_of(s.as_str()).len() == 0
}

/// A string with the given characters.
fn owned(s: &str) -> (r: String)
    ensures
        r@ == s@,
{
    String::from_str(s)
}

/// `prefix` followed by each item.
pub open spec fn each_prefixed(items: Seq<Seq<char>>, prefix: Seq<char>) -> Seq<Seq<char>> {
    items.map_values(|m: Seq<char>| prefix + m)
}

/// Each item followed by `suffix`.
pub open spec fn each_suffixed(items: Seq<Seq<char>>, suffix: Seq<char>) -> Seq<Seq<char>> {
    items.map_values(|m: Seq<char>| m + suffix)
}

proof fn lemma_sviews_push(v: Seq<String>, x: String)
    ensures
        sviews(v.push(x)) == sviews(v).push(x@),
{
    assert(sviews(v.push(x)) =~= sviews(v).push(x@));
}

fn map_affix(items: &Vec<String>, prefix: &Vec<char>, suffix: &Vec<char>) -> (r: Vec<String>)
    ensures
        sviews(r@) == sviews(items@).map_values(|m: Seq<char>| prefix@ + m + suffix@),
{
    let mut out: Vec<String> = Vec::new();
    let mut i: usize = 0;
    while i < items.len()
        invariant
            i <= items.len(),
            sviews(out@) == sviews(items@).take(i as int).map_values(|m: Seq<char>| prefix@ + m + suffix@),
        decreases items.len() - i,
    {
        let mut v = clone_chars(prefix);
        extend_str(&mut v, items[i].as_str());
        extend_chars(&mut v, suffix);
        let sv = string_of(&v);
        proof { lemma_sviews_push(out@, sv); }
        out.push(sv);
        assert(sviews(items@).take(i as int + 1) =~= sviews(items@).take(i as int).push(items@[i as int]@));
        assert(sviews(out@) =~= sviews(items@).take(i as int + 1).map_values(|m: Seq<char>| prefix@ + m + suffix@));
        i = i + 1;
    }
    assert(sviews(items@).take(i as int) =~= sviews(items@));
    out
}

/// The items that start with `p`, in order.
pub open spec fn starting_with(items: Seq<Seq<char>>, p: Seq<char>) -> Seq<Seq<char>>
    decreases items.len(),
{
    if items.len() == 0 {
        Seq::empty()
    } else if starts_with(items.last(), p) {
        starting_with(items.drop_last(), p).push(items.last())
    } else {
        starting_with(items.drop_last(), p)
    }
}

/// The items that end with `p`, in order.
pub open spec fn ending_with(items: Seq<Seq<char>>, p: Seq<char>) -> Seq<Seq<char>>
    decreases items.len(),
{
    if items.len() == 0 {
        Seq::empty()
    } else if ends_with(items.last(), p) {
        ending_with(items.drop_last(), p).push(items.last())
    } else {
        ending_with(items.drop_last(), p)
    }
}

fn starts_with_chars(s: &Vec<char>, p: &Vec<char>) -> (r: bool)
    ensures
        r == starts_with(s@, p@),
{
    if p.len() > s.len() {
        return false;
    }
    let mut i: usize = 0;
    while i < p.len()
        invariant
            p.len() <= s.len(),
            i <= p.len(),
            forall|k: int| 0 <= k < i ==> s@[k] == p@[k],
        decreases p.len() - i,
    {
        if s[i] != p[i] {
            assert(s@.take(p.len() as int)[i as int] != p@[i as int]);
            return false;
        }
        i = i + 1;
    }
    assert(s@.take(p.len() as int) =~= p@);
    true
}

/// Appends the items of `items` that start with `p`.
fn push_starting_with(out: &mut Vec<String>, items: &Vec<String>, p: &Vec<char>)
    ensures
        sviews(final(out)@) == sviews(old(out)@) + starting_with(sviews(items@), p@),
{
    let mut i: usize = 0;
    while i < items.len()
        invariant
            i <= items.len(),
            sviews(out@) == sviews(old(out)@) + starting_with(sviews(items@).take(i as int), p@),
        decreases items.len() - i,
    {
        let c = chars_of(items[i].as_str());
        assert(sviews(items@).take(i as int + 1).drop_last() =~= sviews(items@).take(i as int));
        if starts_with_chars(&c, p) {
            let sv = string_of(&c);
            proof { lemma_sviews_push(out@, sv); }
            out.push(sv);
            assert(sviews(out@) =~= sviews(old(out)@) + starting_with(sviews(items@).take(i as int + 1), p@));
        } else {
            assert(sviews(out@) =~= sviews(old(out)@) + starting_with(sviews(items@).take(i as int + 1), p@));
        }
        i = i + 1;
    }
    assert(sviews(items@).take(i as int) =~= sviews(items@));
}

/// The items of `items` that end with `p`.
fn keep_ending_with(items: &Vec<String>, p: &str) -> (r: Vec<String>)
    ensures
        sviews(r@) == ending_with(sviews(items@), p@),
{
    let mut out: Vec<String> = Vec::new();
    let mut i: usize = 0;
    while i < items.len()
        invariant
            i <= items.len(),
            sviews(out@) == ending_with(sviews(items@).take(i as int), p@),
        decreases items.len() - i,
    {
        let c = chars_of(items[i].as_str());
        assert(sviews(items@).take(i as int + 1).drop_last() =~= sviews(items@).take(i as int));
        if ends_with_str(&c, p) {
            let sv = string_of(&c);
            proof { lemma_sviews_push(out@, sv); }
            out.push(sv);
            assert(sviews(out@) =~= ending_with(sviews(items@).take(i as int + 1), p@));
        }
        i = i + 1;
    }
    assert(sviews(items@).take(i as int) =~= sviews(items@));
    out
}

/// The items joined with `sep` between them (`[..].join(sep)`).
pub open spec fn joined(items: Seq<Seq<char>>, sep: Seq<char>) -> Seq<char>
    decreases items.len(),
{
    if items.len() == 0 {
        Seq::empty()
    } else if items.len() == 1 {
        items[0]
    } else {
        joined(items.drop_last(), sep) + sep + items.last()
    }
}

fn push_joined(out: &mut Vec<char>, items: &Vec<String>, sep: &str)
    ensures
        final(out)@ == old(out)@ + joined(sviews(items@), sep@),
{
    let mut i: usize = 0;
    while i < items.len()
        invariant
            i <= items.len(),
            out@ == old(out)@ + joined(sviews(items@).take(i as int), sep@),
        decreases items.len() - i,
    {
        assert(sviews(items@).take(i as int + 1).drop_last() =~= sviews(items@).take(i as int));
        if i > 0 {
            extend_str(out, sep);
        }
        extend_str(out, items[i].as_str());
        assert(out@ =~= old(out)@ + joined(sviews(items@).take(i as int + 1), sep@));
        i = i + 1;
    }
    assert(sviews(items@).take(i as int) =~= sviews(items@));
}

// ---------------------------------------------------------------------------
// Building the list
// ---------------------------------------------------------------------------

fn id_string(n: usize) -> (r: String)
    requires
        n < 1000,
    ensures
        r@ == task_id(n as nat),
{
    let k: u64 = (n + 1) as u64;
    let mut v: Vec<char> = Vec::new();
    if k < 10 {
        v.push('0');
    }
    push_decimal(&mut v, k);
    proof {
        if k < 10 {
            assert(decimal(k as nat) == seq![digit(k as nat)]);
            assert(v@ =~= seq!['0', digit(k as nat)]);
        }
    }
    string_of(&v)
}

/// The tasks built so far carry the ids of their positions.
pub open spec fn well_numbered(out: Seq<Task>) -> bool {
    ids_in_order(tviews(out))
}

/// Appends a pending task numbered after the ones before it.
fn push_task(
    out: &mut Vec<Task>,
    name: Vec<char>,
    kind: TaskType,
    risk: RiskLevel,
    files: Vec<String>,
    dirs: Vec<String>,
    created: Vec<String>,
)
    requires
        old(out).len() < 900,
        well_numbered(old(out)@),
    ensures
        well_numbered(final(out)@),
        final(out).len() == old(out).len() + 1,
        unnumbered(tviews(final(out)@)) == unnumbered(tviews(old(out)@)).push(
            shape(name@, kind, risk, sviews(files@), sviews(dirs@), sviews(created@)),
        ),
{
    let ghost before = out@;
    let ghost sh = shape(name@, kind, risk, sviews(files@), sviews(dirs@), sviews(created@));
    let id = id_string(out.len());
    let t = Task {
        id,
        name: string_of(&name),
        task_type: kind,
        risk_level: risk,
        affected_files: files,
        affected_dirs: dirs,
        created_files: created,
        status: TaskStatus::Pending,
        error_message: String::new(),
    };
    out.push(t);
    proof {
        assert(tviews(out@) =~= tviews(before).push(task_view(t)));
        assert(with_id(task_view(t), Seq::empty()) == sh);
        assert(unnumbered(tviews(out@)) =~= unnumbered(tviews(before)).push(sh));
    }
}

/// A task with no files, directories or creations besides those given.
fn none() -> (r: Vec<String>)
    ensures
        sviews(r@) == Seq::<Seq<char>>::empty(),
{
    let v: Vec<String> = Vec::new();
    assert(sviews(v@) =~= Seq::<Seq<char>>::empty());
    v
}

fn one(a: &str) -> (r: Vec<String>)
    ensures
        sviews(r@) == seq![a@],
{
    let mut v: Vec<String> = Vec::new();
    v.push(owned(a));
    assert(sviews(v@) =~= seq![a@]);
    v
}

fn two(a: &str, b: &str) -> (r: Vec<String>)
    ensures
        sviews(r@) == seq![a@, b@],
{
    let mut v: Vec<String> = Vec::new();
    v.push(owned(a));
    v.push(owned(b));
    assert(sviews(v@) =~= seq![a@, b@]);
    v
}

fn copy_strings(items: &Vec<String>) -> (r: Vec<String>)
    ensures
        sviews(r@) == sviews(items@),
{
    let e: Vec<char> = Vec::new();
    let r = map_affix(items, &e, &e);
    assert(sviews(r@) =~= sviews(items@));
    r
}


/// A one-task segment when `c` holds, else an empty one.
pub open spec fn one_if(c: bool, t: TaskShape) -> Seq<TaskShape> {
    if c {
        seq![t]
    } else {
        Seq::empty()
    }
}

// ---------------------------------------------------------------------------
// The segments of the plan, in order
// ---------------------------------------------------------------------------

/// Package replacement, package directory move, pom update, module renames.
#[verifier::opaque]
pub open spec fn seg_packages(info: ProjectInfo, p: CustomizeParams, f: PlanFacts) -> Seq<TaskShape> {
    let dash = p.original_module_prefix@ + "-"@;
    seq![
        shape(
            "替换包名 "@ + p.original_package@ + " → "@ + p.new_package@,
            TaskType::ReplacePackageName,
            RiskLevel::Medium,
            sviews(f.files_with_old_package@),
            Seq::empty(),
            Seq::empty(),
        ),
        shape(
            "移动 Java 包目录"@,
            TaskType::MovePackageDirectory,
            RiskLevel::High,
            Seq::empty(),
            each_suffixed(sviews(f.modules_with_java_base@), "/src/main/java/"@ + package_path(p.original_package@)),
            Seq::empty(),
        ),
        shape(
            "修改 Maven pom（groupId / artifactId / modules）"@,
            TaskType::UpdateMavenPom,
            RiskLevel::Medium,
            sviews(f.pom_files@),
            Seq::empty(),
            Seq::empty(),
        ),
        shape(
            "重命名模块目录 "@ + p.original_module_prefix@ + " → "@ + p.new_module_prefix@,
            TaskType::RenameMavenModule,
            RiskLevel::High,
            Seq::empty(),
            starting_with(sviews(info.backend_modules@), dash) + starting_with(sviews(info.frontend_dirs@), dash),
            Seq::empty(),
        ),
    ]
}

#[verifier::spinoff_prover]
#[verifier::rlimit(30)]
fn step_packages(out: &mut Vec<Task>, info: &ProjectInfo, params: &CustomizeParams, facts: &PlanFacts)
    requires
        old(out).len() < 800,
        well_numbered(old(out)@),
    ensures
        well_numbered(final(out)@),
        final(out).len() <= old(out).len() + 6,
        unnumbered(tviews(final(out)@)) == unnumbered(tviews(old(out)@)) + seg_packages(*info, *params, *facts),
{
    proof {
        reveal(seg_packages);
    }
    let ghost u0 = unnumbered(tviews(out@));
    let mut n = chars_of("替换包名 ");
    extend_str(&mut n, params.original_package.as_str());
    extend_str(&mut n, " → ");
    extend_str(&mut n, params.new_package.as_str());
    push_task(out, n, TaskType::ReplacePackageName, RiskLevel::Medium, copy_strings(&facts.files_with_old_package), none(), none());

    let mut suffix = chars_of("/src/main/java/");
    let pkg = package_to_path(params.original_package.as_str());
    extend_chars(&mut suffix, &pkg);
    let e: Vec<char> = Vec::new();
    let dirs = map_affix(&facts.modules_with_java_base, &e, &suffix);
    assert(sviews(dirs@) =~= each_suffixed(sviews(facts.modules_with_java_base@), suffix@));
    push_task(out, chars_of("移动 Java 包目录"), TaskType::MovePackageDirectory, RiskLevel::High, none(), dirs, none());

    push_task(out, chars_of("修改 Maven pom（groupId / artifactId / modules）"), TaskType::UpdateMavenPom, RiskLevel::Medium, copy_strings(&facts.pom_files), none(), none());

    let mut n = chars_of("重命名模块目录 ");
    extend_str(&mut n, params.original_module_prefix.as_str());
    extend_str(&mut n, " → ");
    extend_str(&mut n, params.new_module_prefix.as_str());
    let mut dash = chars_of(params.original_module_prefix.as_str());
    dash.push('-');
    assert(dash@ =~= params.original_module_prefix@ + "-"@) by { reveal_strlit("-"); }
    let mut rn: Vec<String> = Vec::new();
    push_starting_with(&mut rn, &info.backend_modules, &dash);
    push_starting_with(&mut rn, &info.frontend_dirs, &dash);
    assert(sviews(rn@) =~= starting_with(sviews(info.backend_modules@), dash@) + starting_with(sviews(info.frontend_dirs@), dash@));
    push_task(out, n, TaskType::RenameMavenModule, RiskLevel::High, none(), rn, none());
    assert(unnumbered(tviews(out@)) =~= u0 + seg_packages(*info, *params, *facts));
}

/// The front-end title task's name.
pub open spec fn frontend_title_name(p: CustomizeParams) -> Seq<char> {
    "修改前端标题 → "@ + p.frontend_title@
        + (if p.copyright_year@.len() > 0 || p.copyright_holder@.len() > 0 {
            "，替换版权（"@ + p.copyright_year@ + " "@ + p.copyright_holder@ + "）"@
        } else {
            Seq::empty()
        })
        + (if p.enable_clear_home { "，清空首页"@ } else { Seq::empty() })
        + (if p.enable_remove_github && p.enable_remove_docs {
            "，移除顶部栏github/文档外链"@
        } else if p.enable_remove_github {
            "，移除顶部栏github外链"@
        } else if p.enable_remove_docs {
            "，移除顶部栏文档外链"@
        } else {
            Seq::empty()
        })
}

/// Front-end title (unless the UI is replaced); Nacos or profile restructuring;
/// logback fixes.
#[verifier::opaque]
pub open spec fn seg_frontend_config(info: ProjectInfo, p: CustomizeParams, f: PlanFacts) -> Seq<TaskShape> {
    one_if(
        !p.enable_replace_ui,
        shape(frontend_title_name(p), TaskType::UpdateFrontendTitle, RiskLevel::Low, sviews(f.frontend_files@), Seq::empty(), Seq::empty()),
    ) + (if f.is_cloud && (p.enable_config_rewrite || p.enable_sql_customize) {
        seq![shape(
            if p.enable_sql_customize {
                "Nacos 配置定制（连接 "@ + f.db_host@ + ":"@ + f.db_port@ + "）"@
            } else {
                "Nacos 配置定制"@
            },
            TaskType::RewriteNacosConfig,
            RiskLevel::High,
            seq!["sql/ry_config*.sql"@],
            Seq::empty(),
            seq!["sql/ry_config*.sql"@],
        )]
    } else if p.enable_config_rewrite && info.config_files@.len() > 0 {
        seq![shape(
            "重构配置文件为 application.yaml + dev + prod 三件套"@,
            TaskType::RewriteApplicationProfiles,
            RiskLevel::High,
            sviews(info.config_files@),
            Seq::empty(),
            seq!["application.yaml"@, "application-dev.yaml"@, "application-prod.yaml"@],
        )]
    } else {
        Seq::empty()
    }) + one_if(
        p.enable_logback_rewrite && info.logback_files@.len() > 0,
        shape("统一 logback log.path 为 logs"@, TaskType::RewriteLogbackPath, RiskLevel::Low, sviews(info.logback_files@), Seq::empty(), Seq::empty()),
    ) + one_if(
        info.logback_files@.len() > 0,
        shape(
            "注入 logback 彩色控制台日志（%highlight + 文件纯文本）"@,
            TaskType::InjectColoredConsolePattern,
            RiskLevel::Low,
            sviews(info.logback_files@),
            Seq::empty(),
            Seq::empty(),
        ),
    )
}

#[verifier::spinoff_prover]
#[verifier::rlimit(30)]
fn step_frontend_config(out: &mut Vec<Task>, info: &ProjectInfo, params: &CustomizeParams, facts: &PlanFacts)
    requires
        old(out).len() < 800,
        well_numbered(old(out)@),
    ensures
        well_numbered(final(out)@),
        final(out).len() <= old(out).len() + 6,
        unnumbered(tviews(final(out)@)) == unnumbered(tviews(old(out)@)) + seg_frontend_config(*info, *params, *facts),
{
    proof {
        reveal(seg_frontend_config);
    }
    let ghost u0 = unnumbered(tviews(out@));
    let ghost p = *params;
    let ghost f = *facts;
    let ghost i = *info;
    if !params.enable_replace_ui {
        let mut n = chars_of("修改前端标题 → ");
        extend_str(&mut n, params.frontend_title.as_str());
        if !is_empty(&params.copyright_year) || !is_empty(&params.copyright_holder) {
            extend_str(&mut n, "，替换版权（");
            extend_str(&mut n, params.copyright_year.as_str());
            extend_str(&mut n, " ");
            extend_str(&mut n, params.copyright_holder.as_str());
            extend_str(&mut n, "）");
        }
        if params.enable_clear_home {
            extend_str(&mut n, "，清空首页");
        }
        if params.enable_remove_github && params.enable_remove_docs {
            extend_str(&mut n, "，移除顶部栏github/文档外链");
        } else if params.enable_remove_github {
            extend_str(&mut n, "，移除顶部栏github外链");
        } else if params.enable_remove_docs {
            extend_str(&mut n, "，移除顶部栏文档外链");
        }
        assert(n@ =~= frontend_title_name(p));
        push_task(out, n, TaskType::UpdateFrontendTitle, RiskLevel::Low, copy_strings(&facts.frontend_files), none(), none());
    }
    let ghost u1 = unnumbered(tviews(out@));
    assert(u1 =~= u0 + one_if(
        !p.enable_replace_ui,
        shape(frontend_title_name(p), TaskType::UpdateFrontendTitle, RiskLevel::Low, sviews(f.frontend_files@), Seq::empty(), Seq::empty()),
    ));
    if facts.is_cloud && (params.enable_config_rewrite || params.enable_sql_customize) {
        let n = if params.enable_sql_customize {
            let mut n = chars_of("Nacos 配置定制（连接 ");
            extend_str(&mut n, facts.db_host.as_str());
            extend_str(&mut n, ":");
            extend_str(&mut n, facts.db_port.as_str());
            extend_str(&mut n, "）");
            n
        } else {
            chars_of("Nacos 配置定制")
        };
        push_task(out, n, TaskType::RewriteNacosConfig, RiskLevel::High, one("sql/ry_config*.sql"), none(), one("sql/ry_config*.sql"));
    } else if params.enable_config_rewrite && info.config_files.len() > 0 {
        let mut created: Vec<String> = Vec::new();
        created.push(owned("application.yaml"));
        created.push(owned("application-dev.yaml"));
        created.push(owned("application-prod.yaml"));
        assert(sviews(created@) =~= seq!["application.yaml"@, "application-dev.yaml"@, "application-prod.yaml"@]);
        push_task(out, chars_of("重构配置文件为 application.yaml + dev + prod 三件套"), TaskType::RewriteApplicationProfiles, RiskLevel::High, copy_strings(&info.config_files), none(), created);
    }
    let ghost u2 = unnumbered(tviews(out@));
    assert(u2 =~= u1 + (if f.is_cloud && (p.enable_config_rewrite || p.enable_sql_customize) {
        seq![shape(
            if p.enable_sql_customize {
                "Nacos 配置定制（连接 "@ + f.db_host@ + ":"@ + f.db_port@ + "）"@
            } else {
                "Nacos 配置定制"@
            },
            TaskType::RewriteNacosConfig,
            RiskLevel::High,
            seq!["sql/ry_config*.sql"@],
            Seq::empty(),
            seq!["sql/ry_config*.sql"@],
        )]
    } else if p.enable_config_rewrite && i.config_files@.len() > 0 {
        seq![shape(
            "重构配置文件为 application.yaml + dev + prod 三件套"@,
            TaskType::RewriteApplicationProfiles,
            RiskLevel::High,
            sviews(i.config_files@),
            Seq::empty(),
            seq!["application.yaml"@, "application-dev.yaml"@, "application-prod.yaml"@],
        )]
    } else {
        Seq::empty()
    }));
    if params.enable_logback_rewrite && info.logback_files.len() > 0 {
        push_task(out, chars_of("统一 logback log.path 为 logs"), TaskType::RewriteLogbackPath, RiskLevel::Low, copy_strings(&info.logback_files), none(), none());
    }
    let ghost u3 = unnumbered(tviews(out@));
    assert(u3 =~= u2 + one_if(
        p.enable_logback_rewrite && i.logback_files@.len() > 0,
        shape("统一 logback log.path 为 logs"@, TaskType::RewriteLogbackPath, RiskLevel::Low, sviews(i.logback_files@), Seq::empty(), Seq::empty()),
    ));
    if info.logback_files.len() > 0 {
        push_task(out, chars_of("注入 logback 彩色控制台日志（%highlight + 文件纯文本）"), TaskType::InjectColoredConsolePattern, RiskLevel::Low, copy_strings(&info.logback_files), none(), none());
    }
    assert(unnumbered(tviews(out@)) =~= u0 + seg_frontend_config(*info, *params, *facts));
}


// ---------------------------------------------------------------------------
// Paths shared by several tasks
// ---------------------------------------------------------------------------

/// The package directory of the configuration classes.
pub open spec fn config_pkg(p: CustomizeParams, f: PlanFacts) -> Seq<char> {
    path_push(package_path(p.new_package@), if f.is_cloud { "system/config"@ } else { "framework/config"@ })
}

fn config_pkg_exec(params: &CustomizeParams, facts: &PlanFacts) -> (r: Vec<char>)
    ensures
        r@ == config_pkg(*params, *facts),
{
    let base = package_to_path(params.new_package.as_str());
    if facts.is_cloud {
        join_lit(&base, "system/config")
    } else {
        join_lit(&base, "framework/config")
    }
}

/// The first item that ends with `s`.
pub open spec fn first_ending(items: Seq<Seq<char>>, s: Seq<char>) -> Option<Seq<char>>
    decreases items.len(),
{
    if items.len() == 0 {
        None
    } else if ends_with(items[0], s) {
        Some(items[0])
    } else {
        first_ending(items.drop_first(), s)
    }
}

/// The module that receives new dependencies: on Cloud the `system` module
/// (or its stock path), otherwise the first `-admin` module, else the first
/// module, else nothing.
pub open spec fn admin_module(info: ProjectInfo, f: PlanFacts) -> Seq<char> {
    if f.is_cloud {
        match f.cloud_system_module {
            Some(m) => m@,
            None => "ruoyi-modules/ruoyi-system"@,
        }
    } else {
        match first_ending(sviews(info.backend_modules@), "-admin"@) {
            Some(m) => m,
            None => if info.backend_modules@.len() > 0 { info.backend_modules@[0]@ } else { Seq::empty() },
        }
    }
}

fn admin_module_exec(info: &ProjectInfo, facts: &PlanFacts) -> (r: Vec<char>)
    ensures
        r@ == admin_module(*info, *facts),
{
    if facts.is_cloud {
        return match &facts.cloud_system_module {
            Some(m) => chars_of(m.as_str()),
            None => chars_of("ruoyi-modules/ruoyi-system"),
        };
    }
    let ms = &info.backend_modules;
    let mut i: usize = 0;
    assert(sviews(ms@).skip(0) =~= sviews(ms@));
    while i < ms.len()
        invariant
            i <= ms.len(),
            first_ending(sviews(ms@).skip(i as int), "-admin"@) == first_ending(sviews(ms@), "-admin"@),
            ms@ == info.backend_modules@,
            !facts.is_cloud,
        decreases ms.len() - i,
    {
        assert(sviews(ms@).skip(i as int).drop_first() =~= sviews(ms@).skip(i as int + 1));
        assert(sviews(ms@).skip(i as int)[0] == ms@[i as int]@);
        let c = chars_of(ms[i].as_str());
        if ends_with_str(&c, "-admin") {
            assert(first_ending(sviews(ms@).skip(i as int), "-admin"@) == Some(c@));
            assert(first_ending(sviews(info.backend_modules@), "-admin"@) == Some(c@));
            assert(!facts.is_cloud);
            return c;
        }
        i = i + 1;
    }
    assert(sviews(ms@).skip(i as int) =~= Seq::<Seq<char>>::empty());
    if ms.len() > 0 {
        chars_of(ms[0].as_str())
    } else {
        Vec::new()
    }
}

// ---------------------------------------------------------------------------
// MyBatis-Plus, generator templates, ids
// ---------------------------------------------------------------------------

/// Where the MyBatis-Plus configuration class is created.
pub open spec fn mp_config_rel(p: CustomizeParams, f: PlanFacts) -> Seq<char> {
    if f.is_cloud {
        package_path(p.new_package@) + "/system/config/MybatisPlusConfig.java"@
    } else {
        path_push(package_path(p.new_package@), "framework/config"@) + "/framework/config/MybatisPlusConfig.java"@
    }
}

/// MyBatis-Plus dependency and configuration class; generator templates; `Long`
/// ids as strings; snowflake ids.
#[verifier::opaque]
pub open spec fn seg_mybatis(info: ProjectInfo, p: CustomizeParams, f: PlanFacts) -> Seq<TaskShape> {
    let gen = sviews(info.generator_template_files@);
    (if p.enable_mybatis_plus {
        seq![
            shape("添加 MyBatis-Plus 依赖"@, TaskType::AddMybatisPlusDependency, RiskLevel::High, sviews(f.pom_files@), Seq::empty(), Seq::empty()),
            shape("生成 MyBatis-Plus 配置类"@, TaskType::AddMybatisPlusConfig, RiskLevel::Medium, Seq::empty(), Seq::empty(), seq![mp_config_rel(p, f)]),
        ]
    } else {
        Seq::empty()
    }) + one_if(
        p.enable_generator_mybatis_plus && gen.len() > 0,
        shape("代码生成器模板适配 MyBatis-Plus"@, TaskType::UpdateGeneratorTemplatesForMybatisPlus, RiskLevel::High, gen, Seq::empty(), Seq::empty()),
    ) + one_if(
        p.enable_long_id_json_string && gen.len() > 0,
        shape("Long 主键 ID JSON 序列化为字符串"@, TaskType::AddLongIdJsonSerializeAnnotation, RiskLevel::Medium, ending_with(gen, "domain.java.vm"@), Seq::empty(), Seq::empty()),
    ) + one_if(
        p.enable_snowflake_id,
        shape(
            "全局雪花ID：注入 Hutool IdUtil + 主键 setId"@ + (if p.enable_mybatis_plus { "（domain 主键标记 IdType.INPUT）"@ } else { Seq::empty() }),
            TaskType::InjectSnowflakeId,
            RiskLevel::Medium,
            Seq::empty(),
            Seq::empty(),
            Seq::empty(),
        ),
    )
}

#[verifier::spinoff_prover]
#[verifier::rlimit(30)]
fn step_mybatis(out: &mut Vec<Task>, info: &ProjectInfo, params: &CustomizeParams, facts: &PlanFacts)
    requires
        old(out).len() < 800,
        well_numbered(old(out)@),
    ensures
        well_numbered(final(out)@),
        final(out).len() <= old(out).len() + 6,
        unnumbered(tviews(final(out)@)) == unnumbered(tviews(old(out)@)) + seg_mybatis(*info, *params, *facts),
{
    proof {
        reveal(seg_mybatis);
    }
    let ghost u0 = unnumbered(tviews(out@));
    let ghost i = *info;
    let ghost p = *params;
    let ghost f = *facts;
    if params.enable_mybatis_plus {
        push_task(out, chars_of("添加 MyBatis-Plus 依赖"), TaskType::AddMybatisPlusDependency, RiskLevel::High, copy_strings(&facts.pom_files), none(), none());
        let base = package_to_path(params.new_package.as_str());
        let rel = if facts.is_cloud {
            cat(&base, "/system/config/MybatisPlusConfig.java")
        } else {
            cat(&join_lit(&base, "framework/config"), "/framework/config/MybatisPlusConfig.java")
        };
        let mut created: Vec<String> = Vec::new();
        created.push(rel);
        assert(sviews(created@) =~= seq![mp_config_rel(p, f)]);
        push_task(out, chars_of("生成 MyBatis-Plus 配置类"), TaskType::AddMybatisPlusConfig, RiskLevel::Medium, none(), none(), created);
    }
    let ghost u1 = unnumbered(tviews(out@));
    assert(u1 =~= u0 + (if p.enable_mybatis_plus {
        seq![
            shape("添加 MyBatis-Plus 依赖"@, TaskType::AddMybatisPlusDependency, RiskLevel::High, sviews(f.pom_files@), Seq::empty(), Seq::empty()),
            shape("生成 MyBatis-Plus 配置类"@, TaskType::AddMybatisPlusConfig, RiskLevel::Medium, Seq::empty(), Seq::empty(), seq![mp_config_rel(p, f)]),
        ]
    } else {
        Seq::empty()
    }));
    let has_gen = info.generator_template_files.len() > 0;
    if params.enable_generator_mybatis_plus && has_gen {
        push_task(out, chars_of("代码生成器模板适配 MyBatis-Plus"), TaskType::UpdateGeneratorTemplatesForMybatisPlus, RiskLevel::High, copy_strings(&info.generator_template_files), none(), none());
    }
    let ghost u2 = unnumbered(tviews(out@));
    assert(u2 =~= u1 + one_if(
        p.enable_generator_mybatis_plus && sviews(i.generator_template_files@).len() > 0,
        shape("代码生成器模板适配 MyBatis-Plus"@, TaskType::UpdateGeneratorTemplatesForMybatisPlus, RiskLevel::High, sviews(i.generator_template_files@), Seq::empty(), Seq::empty()),
    ));
    if params.enable_long_id_json_string && has_gen {
        push_task(out, chars_of("Long 主键 ID JSON 序列化为字符串"), TaskType::AddLongIdJsonSerializeAnnotation, RiskLevel::Medium, keep_ending_with(&info.generator_template_files, "domain.java.vm"), none(), none());
    }
    let ghost u3 = unnumbered(tviews(out@));
    assert(u3 =~= u2 + one_if(
        p.enable_long_id_json_string && sviews(i.generator_template_files@).len() > 0,
        shape("Long 主键 ID JSON 序列化为字符串"@, TaskType::AddLongIdJsonSerializeAnnotation, RiskLevel::Medium, ending_with(sviews(i.generator_template_files@), "domain.java.vm"@), Seq::empty(), Seq::empty()),
    ));
    if params.enable_snowflake_id {
        let mut n = chars_of("全局雪花ID：注入 Hutool IdUtil + 主键 setId");
        if params.enable_mybatis_plus {
            extend_str(&mut n, "（domain 主键标记 IdType.INPUT）");
        }
        assert(n@ =~= "全局雪花ID：注入 Hutool IdUtil + 主键 setId"@ + (if p.enable_mybatis_plus { "（domain 主键标记 IdType.INPUT）"@ } else { Seq::empty() }));
        push_task(out, n, TaskType::InjectSnowflakeId, RiskLevel::Medium, none(), none(), none());
    }
    assert(unnumbered(tviews(out@)) =~= u0 + seg_mybatis(*info, *params, *facts));
}


// ---------------------------------------------------------------------------
// Mini-program, admin UI, object storage
// ---------------------------------------------------------------------------

/// The mini-program project, its WeChat configuration and login back end, and
/// (with payment) the WeChat Pay dependency, configuration classes and
/// certificate directory.
#[verifier::opaque]
pub open spec fn seg_uniapp(info: ProjectInfo, p: CustomizeParams, f: PlanFacts) -> Seq<TaskShape> {
    let dir = p.new_module_prefix@ + "-uniapp"@;
    let admin = admin_module(info, f);
    let cfg = config_pkg(p, f);
    if !p.enable_uniapp {
        Seq::empty()
    } else {
        seq![
            shape("生成 UniApp 小程序项目："@ + dir, TaskType::GenerateUniappProject, RiskLevel::Medium, Seq::empty(), Seq::empty(), seq![dir + "/package.json"@]),
            shape(
                if p.pay_included { "追加微信小程序 + 支付配置到 application.yaml"@ } else { "追加微信小程序配置到 application.yaml"@ },
                TaskType::AppendWechatConfig,
                RiskLevel::Low,
                seq!["application.yaml"@],
                Seq::empty(),
                Seq::empty(),
            ),
            shape(
                "生成微信小程序登录后端（AppAuthController + 放行）"@,
                TaskType::SetupWechatLogin,
                RiskLevel::Medium,
                seq!["SecurityConfig.java"@],
                Seq::empty(),
                seq!["AppAuthController.java"@],
            ),
        ] + (if p.pay_included {
            seq![
                shape(
                    "注入微信支付官方 SDK 依赖（wechatpay-java:"@ + crate::wechat::WECHATPAY_JAVA_VERSION@ + "）"@,
                    TaskType::AddWechatPayDependency,
                    RiskLevel::Medium,
                    seq![admin + "/pom.xml"@],
                    Seq::empty(),
                    Seq::empty(),
                ),
                shape(
                    "生成微信支付配置类（WxPayProperties + WechatPayConfig）"@,
                    TaskType::AddWechatPayConfig,
                    RiskLevel::Medium,
                    Seq::empty(),
                    Seq::empty(),
                    seq![cfg + "/WxPayProperties.java"@, cfg + "/WechatPayConfig.java"@],
                ),
                shape(
                    "创建证书目录 src/main/resources/cert/"@,
                    TaskType::CreateWechatCertDir,
                    RiskLevel::Low,
                    Seq::empty(),
                    Seq::empty(),
                    seq![admin + "/src/main/resources/cert/.gitkeep"@],
                ),
            ]
        } else {
            Seq::empty()
        })
    }
}

#[verifier::spinoff_prover]
#[verifier::rlimit(30)]
fn step_uniapp(out: &mut Vec<Task>, info: &ProjectInfo, params: &CustomizeParams, facts: &PlanFacts)
    requires
        old(out).len() < 800,
        well_numbered(old(out)@),
    ensures
        well_numbered(final(out)@),
        final(out).len() <= old(out).len() + 6,
        unnumbered(tviews(final(out)@)) == unnumbered(tviews(old(out)@)) + seg_uniapp(*info, *params, *facts),
{
    proof {
        reveal(seg_uniapp);
    }
    let ghost u0 = unnumbered(tviews(out@));
    let ghost i = *info;
    let ghost p = *params;
    let ghost f = *facts;
    if params.enable_uniapp {
        let mut dir = chars_of(params.new_module_prefix.as_str());
        extend_str(&mut dir, "-uniapp");
        let mut n = chars_of("生成 UniApp 小程序项目：");
        extend_chars(&mut n, &dir);
        let mut created: Vec<String> = Vec::new();
        created.push(cat(&dir, "/package.json"));
        assert(sviews(created@) =~= seq![dir@ + "/package.json"@]);
        push_task(out, n, TaskType::GenerateUniappProject, RiskLevel::Medium, none(), none(), created);
        let n = if params.pay_included {
            chars_of("追加微信小程序 + 支付配置到 application.yaml")
        } else {
            chars_of("追加微信小程序配置到 application.yaml")
        };
        push_task(out, n, TaskType::AppendWechatConfig, RiskLevel::Low, one("application.yaml"), none(), none());
        push_task(out, chars_of("生成微信小程序登录后端（AppAuthController + 放行）"), TaskType::SetupWechatLogin, RiskLevel::Medium, one("SecurityConfig.java"), none(), one("AppAuthController.java"));
        if params.pay_included {
            let admin = admin_module_exec(info, facts);
            let cfg = config_pkg_exec(params, facts);
            let mut n = chars_of("注入微信支付官方 SDK 依赖（wechatpay-java:");
            extend_str(&mut n, crate::wechat::WECHATPAY_JAVA_VERSION);
            extend_str(&mut n, "）");
            let mut files: Vec<String> = Vec::new();
            files.push(cat(&admin, "/pom.xml"));
            assert(sviews(files@) =~= seq![admin@ + "/pom.xml"@]);
            push_task(out, n, TaskType::AddWechatPayDependency, RiskLevel::Medium, files, none(), none());
            let mut created: Vec<String> = Vec::new();
            created.push(cat(&cfg, "/WxPayProperties.java"));
            created.push(cat(&cfg, "/WechatPayConfig.java"));
            assert(sviews(created@) =~= seq![cfg@ + "/WxPayProperties.java"@, cfg@ + "/WechatPayConfig.java"@]);
            push_task(out, chars_of("生成微信支付配置类（WxPayProperties + WechatPayConfig）"), TaskType::AddWechatPayConfig, RiskLevel::Medium, none(), none(), created);
            let mut created: Vec<String> = Vec::new();
            created.push(cat(&admin, "/src/main/resources/cert/.gitkeep"));
            assert(sviews(created@) =~= seq![admin@ + "/src/main/resources/cert/.gitkeep"@]);
            push_task(out, chars_of("创建证书目录 src/main/resources/cert/"), TaskType::CreateWechatCertDir, RiskLevel::Low, none(), none(), created);
        }
    }
    assert(unnumbered(tviews(out@)) =~= u0 + seg_uniapp(*info, *params, *facts));
}

/// The admin UI directory.
pub open spec fn ui_dir(p: CustomizeParams) -> Seq<char> {
    p.new_module_prefix@ + "-ui"@
}

/// Replacing (or, without a front end, generating) the admin UI.
#[verifier::opaque]
pub open spec fn seg_replace_ui(info: ProjectInfo, p: CustomizeParams, f: PlanFacts) -> Seq<TaskShape> {
    let ui = ui_dir(p);
    one_if(
        p.enable_replace_ui,
        shape(
            if info.frontend_dirs@.len() == 0 {
                "生成后台 UI：写入模板 "@ + p.ui_template@ + " 到 "@ + ui + "（源仓无前端目录）"@
            } else {
                "替换后台 UI：删除原 "@ + ui + " 并生成模板 "@ + p.ui_template@ + "（标题/端口/版权同步写入）"@
            },
            TaskType::ReplaceUI,
            RiskLevel::High,
            Seq::empty(),
            seq![ui],
            if p.ui_template@ == "arco"@ {
                seq![ui + "/.env"@, ui + "/vite.config.ts"@, ui + "/src/"@]
            } else {
                seq![ui + "/package.json"@, ui + "/apps/web-ele/.env"@]
            },
        ),
    )
}

#[verifier::spinoff_prover]
#[verifier::rlimit(30)]
fn step_replace_ui(out: &mut Vec<Task>, info: &ProjectInfo, params: &CustomizeParams, facts: &PlanFacts)
    requires
        old(out).len() < 800,
        well_numbered(old(out)@),
    ensures
        well_numbered(final(out)@),
        final(out).len() <= old(out).len() + 6,
        unnumbered(tviews(final(out)@)) == unnumbered(tviews(old(out)@)) + seg_replace_ui(*info, *params, *facts),
{
    proof {
        reveal(seg_replace_ui);
    }
    let ghost u0 = unnumbered(tviews(out@));
    let ghost i = *info;
    let ghost p = *params;
    let ghost f = *facts;
    if params.enable_replace_ui {
        let mut ui = chars_of(params.new_module_prefix.as_str());
        extend_str(&mut ui, "-ui");
        let tpl = chars_of(params.ui_template.as_str());
        let mut created: Vec<String> = Vec::new();
        if eq_str(&tpl, "arco") {
            created.push(cat(&ui, "/.env"));
            created.push(cat(&ui, "/vite.config.ts"));
            created.push(cat(&ui, "/src/"));
        } else {
            created.push(cat(&ui, "/package.json"));
            created.push(cat(&ui, "/apps/web-ele/.env"));
        }
        assert(sviews(created@) =~= (if p.ui_template@ == "arco"@ {
            seq![ui@ + "/.env"@, ui@ + "/vite.config.ts"@, ui@ + "/src/"@]
        } else {
            seq![ui@ + "/package.json"@, ui@ + "/apps/web-ele/.env"@]
        }));
        let n = if info.frontend_dirs.len() == 0 {
            let mut n = chars_of("生成后台 UI：写入模板 ");
            extend_chars(&mut n, &tpl);
            extend_str(&mut n, " 到 ");
            extend_chars(&mut n, &ui);
            extend_str(&mut n, "（源仓无前端目录）");
            n
        } else {
            let mut n = chars_of("替换后台 UI：删除原 ");
            extend_chars(&mut n, &ui);
            extend_str(&mut n, " 并生成模板 ");
            extend_chars(&mut n, &tpl);
            extend_str(&mut n, "（标题/端口/版权同步写入）");
            n
        };
        let mut dirs: Vec<String> = Vec::new();
        dirs.push(string_of(&ui));
        assert(sviews(dirs@) =~= seq![ui@]);
        push_task(out, n, TaskType::ReplaceUI, RiskLevel::High, none(), dirs, created);
    }
    assert(unnumbered(tviews(out@)) =~= u0 + seg_replace_ui(*info, *params, *facts));
}

/// The display name of an object storage vendor.
pub open spec fn provider_label(provider: Seq<char>) -> Seq<char> {
    if provider == "aliyun"@ {
        "阿里云 OSS"@
    } else if provider == "tencent"@ {
        "腾讯云 COS"@
    } else if provider == "minio"@ {
        "MinIO"@
    } else if provider == "qiniu"@ {
        "七牛云 Kodo"@
    } else {
        "OSS"@
    }
}

/// Where the upload controller is created.
pub open spec fn oss_controller(p: CustomizeParams, f: PlanFacts) -> Seq<char> {
    if f.is_cloud {
        path_push(package_path(p.new_package@), "system/controller/OssController.java"@)
    } else {
        config_pkg(p, f) + "/../web/controller/common/OssController.java"@
    }
}

/// Object storage: SDK dependency, configuration classes and upload controller.
#[verifier::opaque]
pub open spec fn seg_oss(info: ProjectInfo, p: CustomizeParams, f: PlanFacts) -> Seq<TaskShape> {
    let cfg = config_pkg(p, f);
    one_if(
        p.enable_oss,
        shape(
            "OSS 集成："@ + provider_label(p.oss_provider@) + "（依赖 + 配置类 + 上传接口）"@,
            TaskType::SetupOss,
            RiskLevel::Medium,
            seq![admin_module(info, f) + "/pom.xml"@],
            Seq::empty(),
            seq![cfg + "/OssProperties.java"@, cfg + "/OssClient.java"@, oss_controller(p, f)],
        ),
    )
}

#[verifier::spinoff_prover]
#[verifier::rlimit(30)]
fn step_oss(out: &mut Vec<Task>, info: &ProjectInfo, params: &CustomizeParams, facts: &PlanFacts)
    requires
        old(out).len() < 800,
        well_numbered(old(out)@),
    ensures
        well_numbered(final(out)@),
        final(out).len() <= old(out).len() + 6,
        unnumbered(tviews(final(out)@)) == unnumbered(tviews(old(out)@)) + seg_oss(*info, *params, *facts),
{
    proof {
        reveal(seg_oss);
    }
    let ghost u0 = unnumbered(tviews(out@));
    let ghost i = *info;
    let ghost p = *params;
    let ghost f = *facts;
    if params.enable_oss {
        let prov = chars_of(params.oss_provider.as_str());
        let label = if eq_str(&prov, "aliyun") {
            chars_of("阿里云 OSS")
        } else if eq_str(&prov, "tencent") {
            chars_of("腾讯云 COS")
        } else if eq_str(&prov, "minio") {
            chars_of("MinIO")
        } else if eq_str(&prov, "qiniu") {
            chars_of("七牛云 Kodo")
        } else {
            chars_of("OSS")
        };
        let mut n = chars_of("OSS 集成：");
        extend_chars(&mut n, &label);
        extend_str(&mut n, "（依赖 + 配置类 + 上传接口）");
        let cfg = config_pkg_exec(params, facts);
        let ctrl = if facts.is_cloud {
            string_of(&join_lit(&package_to_path(params.new_package.as_str()), "system/controller/OssController.java"))
        } else {
            cat(&cfg, "/../web/controller/common/OssController.java")
        };
        let admin = admin_module_exec(info, facts);
        let mut files: Vec<String> = Vec::new();
        files.push(cat(&admin, "/pom.xml"));
        assert(sviews(files@) =~= seq![admin@ + "/pom.xml"@]);
        let mut created: Vec<String> = Vec::new();
        created.push(cat(&cfg, "/OssProperties.java"));
        created.push(cat(&cfg, "/OssClient.java"));
        created.push(ctrl);
        assert(sviews(created@) =~= seq![cfg@ + "/OssProperties.java"@, cfg@ + "/OssClient.java"@, oss_controller(p, f)]);
        push_task(out, n, TaskType::SetupOss, RiskLevel::Medium, files, none(), created);
    }
    assert(unnumbered(tviews(out@)) =~= u0 + seg_oss(*info, *params, *facts));
}


// ---------------------------------------------------------------------------
// Logins and hardening
// ---------------------------------------------------------------------------

/// The security hardening task's name.
pub open spec fn security_name(p: CustomizeParams) -> Seq<char> {
    "安全加固"@ + (if p.enable_security {
        "："@ + (if p.admin_password@.len() == 0 { "admin 密码（未修改）"@ } else { "admin 密码修改"@ }) + "："@
            + (if p.clean_demo_users { "清除演示账号"@ } else { "保留演示账号"@ })
    } else {
        Seq::empty()
    }) + (if p.enable_jwt {
        "："@ + "JWT secret"@ + (if p.jwt_secret@.len() == 0 { "（随机生成）"@ } else { "（自定义）"@ })
    } else {
        Seq::empty()
    })
}

/// SMS login, slider captcha, API encryption, security hardening.
#[verifier::opaque]
pub open spec fn seg_logins(info: ProjectInfo, p: CustomizeParams, f: PlanFacts) -> Seq<TaskShape> {
    one_if(
        p.enable_sms_login,
        shape(
            "短信登录（"@ + p.sms_provider@ + "）：发码/登录接口 + SysLoginService.smsLogin"@,
            TaskType::SetupSmsLogin,
            RiskLevel::Medium,
            seq!["SysLoginService.java"@, "SecurityConfig.java"@],
            Seq::empty(),
            seq!["SmsAuthController.java"@, "SmsCodeService.java"@],
        ),
    ) + one_if(
        p.enable_captcha_slider,
        shape(
            "滑块验证码（AJ-Captcha）：/captcha/get /captcha/check，保留原 CaptchaController"@,
            TaskType::SetupCaptchaSlider,
            RiskLevel::Medium,
            seq!["SecurityConfig.java"@],
            Seq::empty(),
            seq!["CaptchaSliderController.java"@],
        ),
    ) + one_if(
        p.enable_api_encrypt,
        shape(
            "接口 AES 加密：前端密钥随包分发，属传输混淆级防护，不能替代 HTTPS"@,
            TaskType::SetupApiEncrypt,
            RiskLevel::High,
            seq!["request"@],
            Seq::empty(),
            seq!["ApiEncryptAdvice.java"@],
        ),
    ) + one_if(
        p.enable_security || p.enable_jwt,
        shape(security_name(p), TaskType::ApplySecurityHardening, RiskLevel::Medium, Seq::empty(), Seq::empty(), Seq::empty()),
    )
}

#[verifier::spinoff_prover]
#[verifier::rlimit(30)]
fn step_logins(out: &mut Vec<Task>, info: &ProjectInfo, params: &CustomizeParams, facts: &PlanFacts)
    requires
        old(out).len() < 800,
        well_numbered(old(out)@),
    ensures
        well_numbered(final(out)@),
        final(out).len() <= old(out).len() + 6,
        unnumbered(tviews(final(out)@)) == unnumbered(tviews(old(out)@)) + seg_logins(*info, *params, *facts),
{
    proof {
        reveal(seg_logins);
    }
    let ghost u0 = unnumbered(tviews(out@));
    let ghost i = *info;
    let ghost p = *params;
    let ghost f = *facts;
    if params.enable_sms_login {
        let mut n = chars_of("短信登录（");
        extend_str(&mut n, params.sms_provider.as_str());
        extend_str(&mut n, "）：发码/登录接口 + SysLoginService.smsLogin");
        push_task(out, n, TaskType::SetupSmsLogin, RiskLevel::Medium, two("SysLoginService.java", "SecurityConfig.java"), none(), two("SmsAuthController.java", "SmsCodeService.java"));
    }
    if params.enable_captcha_slider {
        push_task(out, chars_of("滑块验证码（AJ-Captcha）：/captcha/get /captcha/check，保留原 CaptchaController"), TaskType::SetupCaptchaSlider, RiskLevel::Medium, one("SecurityConfig.java"), none(), one("CaptchaSliderController.java"));
    }
    if params.enable_api_encrypt {
        push_task(out, chars_of("接口 AES 加密：前端密钥随包分发，属传输混淆级防护，不能替代 HTTPS"), TaskType::SetupApiEncrypt, RiskLevel::High, one("request"), none(), one("ApiEncryptAdvice.java"));
    }
    if params.enable_security || params.enable_jwt {
        let mut n = chars_of("安全加固");
        if params.enable_security {
            extend_str(&mut n, "：");
            if is_empty(&params.admin_password) {
                extend_str(&mut n, "admin 密码（未修改）");
            } else {
                extend_str(&mut n, "admin 密码修改");
            }
            extend_str(&mut n, "：");
            if params.clean_demo_users {
                extend_str(&mut n, "清除演示账号");
            } else {
                extend_str(&mut n, "保留演示账号");
            }
        }
        if params.enable_jwt {
            extend_str(&mut n, "：");
            extend_str(&mut n, "JWT secret");
            if is_empty(&params.jwt_secret) {
                extend_str(&mut n, "（随机生成）");
            } else {
                extend_str(&mut n, "（自定义）");
            }
        }
        assert(n@ =~= security_name(p));
        push_task(out, n, TaskType::ApplySecurityHardening, RiskLevel::Medium, none(), none(), none());
    }
    assert(unnumbered(tviews(out@)) =~= u0 + seg_logins(*info, *params, *facts));
}


// ---------------------------------------------------------------------------
// Database, modules, admin account
// ---------------------------------------------------------------------------

/// Whether the PostgreSQL templates exist for an edition: only RuoYi-Vue (or an
/// edition not named) has them.
pub open spec fn supports_postgresql_template(template_dir: Seq<char>) -> bool {
    template_dir.len() == 0 || template_dir == "ruoyi-vue"@
}

/// Whether the PostgreSQL template exists for the edition in `template_dir`.
pub fn supports_postgresql(template_dir: &str) -> (r: bool)
    ensures
        r == supports_postgresql_template(template_dir@),
{
    let d = chars_of(template_dir);
    d.len() == 0 || eq_str(&d, "ruoyi-vue")
}

/// Whether the dialect switch is planned: a database other than MySQL, on an
/// edition that has the PostgreSQL templates.
pub open spec fn plans_dialect_switch(info: ProjectInfo, p: CustomizeParams) -> bool {
    lower(trim(p.db_type@)) != "mysql"@ && supports_postgresql_template(info.template_dir@)
}

/// Whether the database dialect switch is planned (see `plans_dialect_switch`).
pub fn should_plan_switch_database_dialect(info: &ProjectInfo, params: &CustomizeParams) -> (r: bool)
    ensures
        r == plans_dialect_switch(*info, *params),
{
    let t = lower_chars(&trim_chars(&chars_of(params.db_type.as_str())));
    if eq_str(&t, "mysql") {
        return false;
    }
    supports_postgresql(info.template_dir.as_str())
}

/// The database name the SQL step writes.
pub open spec fn sql_db_name(p: CustomizeParams, f: PlanFacts) -> Seq<char> {
    if f.is_cloud {
        f.cloud_biz_db_name@
    } else if p.db_name@.len() == 0 {
        p.new_module_prefix@
    } else {
        p.db_name@
    }
}

/// The SQL customization task's name.
pub open spec fn sql_name(p: CustomizeParams, f: PlanFacts) -> Seq<char> {
    "定制 SQL 初始化脚本：库名 → "@ + sql_db_name(p, f) + "，连接 "@ + f.db_host@ + ":"@ + f.db_port@
        + (if p.admin_password@.len() == 0 { Seq::empty() } else { "，admin 密码修改"@ })
        + (if p.clean_quartz { "，清除 quartz"@ } else { Seq::empty() })
}

/// Dialect switch and SQL script customization.
#[verifier::opaque]
pub open spec fn seg_sql(info: ProjectInfo, p: CustomizeParams, f: PlanFacts) -> Seq<TaskShape> {
    one_if(
        plans_dialect_switch(info, p),
        shape(
            "数据库方言切换（PostgreSQL）"@,
            TaskType::SwitchDatabaseDialect,
            RiskLevel::High,
            seq![
                "pom.xml（驱动坐标）"@,
                "application-dev/prod.yaml（数据源，由配置重构生成）"@,
                "MybatisPlusConfig.java（分页方言）"@,
                "GenTableMapper.xml / GenTableColumnMapper.xml"@,
            ],
            Seq::empty(),
            Seq::empty(),
        ),
    ) + one_if(
        p.enable_sql_customize,
        shape(sql_name(p, f), TaskType::CustomizeSqlScripts, RiskLevel::Medium, Seq::empty(), Seq::empty(), Seq::empty()),
    )
}

#[verifier::spinoff_prover]
#[verifier::rlimit(30)]
fn step_sql(out: &mut Vec<Task>, info: &ProjectInfo, params: &CustomizeParams, facts: &PlanFacts)
    requires
        old(out).len() < 800,
        well_numbered(old(out)@),
    ensures
        well_numbered(final(out)@),
        final(out).len() <= old(out).len() + 6,
        unnumbered(tviews(final(out)@)) == unnumbered(tviews(old(out)@)) + seg_sql(*info, *params, *facts),
{
    proof {
        reveal(seg_sql);
    }
    let ghost u0 = unnumbered(tviews(out@));
    let ghost i = *info;
    let ghost p = *params;
    let ghost f = *facts;
    if should_plan_switch_database_dialect(info, params) {
        let mut files: Vec<String> = Vec::new();
        files.push(owned("pom.xml（驱动坐标）"));
        files.push(owned("application-dev/prod.yaml（数据源，由配置重构生成）"));
        files.push(owned("MybatisPlusConfig.java（分页方言）"));
        files.push(owned("GenTableMapper.xml / GenTableColumnMapper.xml"));
        assert(sviews(files@) =~= seq![
            "pom.xml（驱动坐标）"@,
            "application-dev/prod.yaml（数据源，由配置重构生成）"@,
            "MybatisPlusConfig.java（分页方言）"@,
            "GenTableMapper.xml / GenTableColumnMapper.xml"@,
        ]);
        push_task(out, chars_of("数据库方言切换（PostgreSQL）"), TaskType::SwitchDatabaseDialect, RiskLevel::High, files, none(), none());
    }
    let ghost u1 = unnumbered(tviews(out@));
    assert(u1 =~= u0 + one_if(
        plans_dialect_switch(i, p),
        shape(
            "数据库方言切换（PostgreSQL）"@,
            TaskType::SwitchDatabaseDialect,
            RiskLevel::High,
            seq![
                "pom.xml（驱动坐标）"@,
                "application-dev/prod.yaml（数据源，由配置重构生成）"@,
                "MybatisPlusConfig.java（分页方言）"@,
                "GenTableMapper.xml / GenTableColumnMapper.xml"@,
            ],
            Seq::empty(),
            Seq::empty(),
        ),
    ));
    if params.enable_sql_customize {
        let mut n = chars_of("定制 SQL 初始化脚本：库名 → ");
        if facts.is_cloud {
            extend_str(&mut n, facts.cloud_biz_db_name.as_str());
        } else if is_empty(&params.db_name) {
            extend_str(&mut n, params.new_module_prefix.as_str());
        } else {
            extend_str(&mut n, params.db_name.as_str());
        }
        extend_str(&mut n, "，连接 ");
        extend_str(&mut n, facts.db_host.as_str());
        extend_str(&mut n, ":");
        extend_str(&mut n, facts.db_port.as_str());
        if !is_empty(&params.admin_password) {
            extend_str(&mut n, "，admin 密码修改");
        }
        if params.clean_quartz {
            extend_str(&mut n, "，清除 quartz");
        }
        assert(n@ =~= sql_name(p, f));
        push_task(out, n, TaskType::CustomizeSqlScripts, RiskLevel::Medium, none(), none(), none());
    }
    assert(unnumbered(tviews(out@)) =~= u0 + seg_sql(*info, *params, *facts));
}

/// Where a new business module goes: `<prefix>-modules/<prefix>-` on Cloud,
/// `<prefix>-` otherwise (the prefix trimmed).
pub open spec fn module_base(p: CustomizeParams, f: PlanFacts) -> Seq<char> {
    let prefix = trim(p.new_module_prefix@);
    if f.is_cloud {
        prefix + "-modules/"@ + prefix + "-"@
    } else {
        prefix + "-"@
    }
}

/// Whether the admin account or nickname changes.
pub open spec fn renames_admin(p: CustomizeParams) -> bool {
    (p.admin_username@ != "admin"@ && p.admin_username@.len() > 0) || (p.admin_nickname@ != "若依"@ && p.admin_nickname@.len() > 0)
}

/// What the admin rename changes, in words.
pub open spec fn admin_rename_parts(p: CustomizeParams) -> Seq<char> {
    let user = p.admin_username@ != "admin"@ && p.admin_username@.len() > 0;
    let nick = p.admin_nickname@ != "若依"@ && p.admin_nickname@.len() > 0;
    (if user { "账号 admin → "@ + p.admin_username@ } else { Seq::empty() })
        + (if user && nick { "，"@ } else { Seq::empty() })
        + (if nick { "昵称 若依 → "@ + p.admin_nickname@ } else { Seq::empty() })
}

/// Cloud module trimming, new business modules, admin account rename.
#[verifier::opaque]
pub open spec fn seg_modules(info: ProjectInfo, p: CustomizeParams, f: PlanFacts) -> Seq<TaskShape> {
    let names = norm_names(sviews(p.new_modules@));
    one_if(
        f.is_cloud && p.remove_modules@.len() > 0,
        shape(
            "裁剪微服务模块："@ + joined(sviews(p.remove_modules@), "、"@),
            TaskType::TrimCloudModules,
            RiskLevel::High,
            seq!["pom.xml"@, "sql/ry_config*.sql"@],
            each_prefixed(sviews(p.remove_modules@), "ruoyi-modules/ruoyi-"@),
            Seq::empty(),
        ),
    ) + one_if(
        names.len() > 0 && info.template_dir@ != "ruoyi"@,
        shape(
            "生成业务模块："@ + joined(names, "、"@),
            TaskType::GenerateNewModules,
            RiskLevel::High,
            Seq::empty(),
            names.map_values(|m: Seq<char>| module_base(p, f) + m + Seq::empty()),
            names.map_values(|m: Seq<char>| module_base(p, f) + m + "/pom.xml"@),
        ),
    ) + one_if(
        p.enable_sql_customize && renames_admin(p),
        shape("管理员账号定制："@ + admin_rename_parts(p), TaskType::RenameAdminAccount, RiskLevel::Medium, Seq::empty(), Seq::empty(), Seq::empty()),
    )
}

#[verifier::spinoff_prover]
#[verifier::rlimit(30)]
fn step_modules(out: &mut Vec<Task>, info: &ProjectInfo, params: &CustomizeParams, facts: &PlanFacts)
    requires
        old(out).len() < 800,
        well_numbered(old(out)@),
    ensures
        well_numbered(final(out)@),
        final(out).len() <= old(out).len() + 6,
        unnumbered(tviews(final(out)@)) == unnumbered(tviews(old(out)@)) + seg_modules(*info, *params, *facts),
{
    proof {
        reveal(seg_modules);
    }
    let ghost u0 = unnumbered(tviews(out@));
    let ghost i = *info;
    let ghost p = *params;
    let ghost f = *facts;
    if facts.is_cloud && params.remove_modules.len() > 0 {
        let mut n = chars_of("裁剪微服务模块：");
        push_joined(&mut n, &params.remove_modules, "、");
        let pre = chars_of("ruoyi-modules/ruoyi-");
        let e: Vec<char> = Vec::new();
        let dirs = map_affix(&params.remove_modules, &pre, &e);
        assert(sviews(dirs@) =~= each_prefixed(sviews(p.remove_modules@), "ruoyi-modules/ruoyi-"@));
        push_task(out, n, TaskType::TrimCloudModules, RiskLevel::High, two("pom.xml", "sql/ry_config*.sql"), dirs, none());
    }
    let ghost u1 = unnumbered(tviews(out@));
    assert(u1 =~= u0 + one_if(
        f.is_cloud && p.remove_modules@.len() > 0,
        shape(
            "裁剪微服务模块："@ + joined(sviews(p.remove_modules@), "、"@),
            TaskType::TrimCloudModules,
            RiskLevel::High,
            seq!["pom.xml"@, "sql/ry_config*.sql"@],
            each_prefixed(sviews(p.remove_modules@), "ruoyi-modules/ruoyi-"@),
            Seq::empty(),
        ),
    ));
    let names = normalize_new_module_names(&params.new_modules);
    let tdir = chars_of(info.template_dir.as_str());
    if names.len() > 0 && !eq_str(&tdir, "ruoyi") {
        let prefix = trim_chars(&chars_of(params.new_module_prefix.as_str()));
        let mut base = clone_chars(&prefix);
        if facts.is_cloud {
            extend_str(&mut base, "-modules/");
            extend_chars(&mut base, &prefix);
        }
        extend_str(&mut base, "-");
        assert(base@ =~= module_base(p, f));
        let mut n = chars_of("生成业务模块：");
        push_joined(&mut n, &names, "、");
        let e: Vec<char> = Vec::new();
        let dirs = map_affix(&names, &base, &e);
        let created = map_affix(&names, &base, &chars_of("/pom.xml"));
        push_task(out, n, TaskType::GenerateNewModules, RiskLevel::High, none(), dirs, created);
    }
    let ghost u2 = unnumbered(tviews(out@));
    assert(u2 =~= u1 + one_if(
        norm_names(sviews(p.new_modules@)).len() > 0 && i.template_dir@ != "ruoyi"@,
        shape(
            "生成业务模块："@ + joined(norm_names(sviews(p.new_modules@)), "、"@),
            TaskType::GenerateNewModules,
            RiskLevel::High,
            Seq::empty(),
            norm_names(sviews(p.new_modules@)).map_values(|m: Seq<char>| module_base(p, f) + m + Seq::empty()),
            norm_names(sviews(p.new_modules@)).map_values(|m: Seq<char>| module_base(p, f) + m + "/pom.xml"@),
        ),
    ));
    let user_c = chars_of(params.admin_username.as_str());
    let nick_c = chars_of(params.admin_nickname.as_str());
    let user = !eq_str(&user_c, "admin") && user_c.len() > 0;
    let nick = !eq_str(&nick_c, "若依") && nick_c.len() > 0;
    if params.enable_sql_customize && (user || nick) {
        let mut n = chars_of("管理员账号定制：");
        if user {
            extend_str(&mut n, "账号 admin → ");
            extend_chars(&mut n, &user_c);
        }
        if user && nick {
            extend_str(&mut n, "，");
        }
        if nick {
            extend_str(&mut n, "昵称 若依 → ");
            extend_chars(&mut n, &nick_c);
        }
        assert(n@ =~= "管理员账号定制："@ + admin_rename_parts(p));
        push_task(out, n, TaskType::RenameAdminAccount, RiskLevel::Medium, none(), none(), none());
    }
    assert(unnumbered(tviews(out@)) =~= u0 + seg_modules(*info, *params, *facts));
}


// ---------------------------------------------------------------------------
// Footer, settings page, generator, AI files, split, Nginx
// ---------------------------------------------------------------------------

/// The generator configuration task's name.
pub open spec fn generator_name(p: CustomizeParams) -> Seq<char> {
    "定制代码生成器配置：作者="@ + (if p.generator_author@.len() == 0 { "（保留默认）"@ } else { p.generator_author@ })
        + "、包名="@ + p.new_package@
        + (if p.generator_table_prefix@.len() == 0 { Seq::empty() } else { "、表前缀="@ + p.generator_table_prefix@ })
        + (if p.generator_vue3 { "、Vue3 模板升级"@ } else { Seq::empty() })
}

/// Footer and ICP record; site settings page.
#[verifier::opaque]
pub open spec fn seg_pages(info: ProjectInfo, p: CustomizeParams, f: PlanFacts) -> Seq<TaskShape> {
    one_if(
        p.enable_footer_icp,
        shape(
            "页脚版权与 ICP 备案定制（起始年 "@ + start_year(p.copyright_year@, f.current_year@) + "，备案号配置于 application.yaml）"@,
            TaskType::CustomizeWebFooter,
            RiskLevel::Medium,
            seq![
                "application.yaml（ruoyi 块）"@,
                "RuoYiConfig.java"@,
                "SecurityConfig.java"@,
                "settings.js / AppMain.vue / login.vue / register.vue"@,
            ],
            Seq::empty(),
            seq![
                "WebInfoController.java（GET /webInfo）"@,
                "src/api/webInfo.js"@,
                "src/layout/components/Copyright/index.vue"@,
            ],
        ),
    ) + one_if(
        p.enable_site_settings,
        shape(
            "后台设置页面定制（站点标题/Logo/ICP 运行时可改，即时生效）"@,
            TaskType::CustomizeSiteSettings,
            RiskLevel::Medium,
            seq![
                "SQL 种子（sys_menu + sys_config 追加）"@,
                "store/modules/settings.js"@,
                "permission.js"@,
                "Sidebar/Logo.vue / login.vue / register.vue"@,
                "utils/dynamicTitle.js"@,
            ],
            Seq::empty(),
            seq![
                "SiteSettingsController.java（GET/PUT /site/settings）"@,
                "src/api/site/settings.js"@,
                "src/views/site/settings/index.vue"@,
            ],
        ),
    )
}

fn strings4(a: &str, b: &str, c: &str, d: &str) -> (r: Vec<String>)
    ensures
        sviews(r@) == seq![a@, b@, c@, d@],
{
    let mut v: Vec<String> = Vec::new();
    v.push(owned(a));
    v.push(owned(b));
    v.push(owned(c));
    v.push(owned(d));
    assert(sviews(v@) =~= seq![a@, b@, c@, d@]);
    v
}

fn strings3(a: &str, b: &str, c: &str) -> (r: Vec<String>)
    ensures
        sviews(r@) == seq![a@, b@, c@],
{
    let mut v: Vec<String> = Vec::new();
    v.push(owned(a));
    v.push(owned(b));
    v.push(owned(c));
    assert(sviews(v@) =~= seq![a@, b@, c@]);
    v
}

#[verifier::spinoff_prover]
#[verifier::rlimit(30)]
fn step_pages(out: &mut Vec<Task>, info: &ProjectInfo, params: &CustomizeParams, facts: &PlanFacts)
    requires
        old(out).len() < 800,
        well_numbered(old(out)@),
    ensures
        well_numbered(final(out)@),
        final(out).len() <= old(out).len() + 6,
        unnumbered(tviews(final(out)@)) == unnumbered(tviews(old(out)@)) + seg_pages(*info, *params, *facts),
{
    proof {
        reveal(seg_pages);
    }
    let ghost u0 = unnumbered(tviews(out@));
    let ghost i = *info;
    let ghost p = *params;
    let ghost f = *facts;
    if params.enable_footer_icp {
        let year = footer_start_year_with(params.copyright_year.as_str(), facts.current_year.as_str());
        let mut n = chars_of("页脚版权与 ICP 备案定制（起始年 ");
        extend_str(&mut n, year.as_str());
        extend_str(&mut n, "，备案号配置于 application.yaml）");
        let files = strings4("application.yaml（ruoyi 块）", "RuoYiConfig.java", "SecurityConfig.java", "settings.js / AppMain.vue / login.vue / register.vue");
        let created = strings3("WebInfoController.java（GET /webInfo）", "src/api/webInfo.js", "src/layout/components/Copyright/index.vue");
        push_task(out, n, TaskType::CustomizeWebFooter, RiskLevel::Medium, files, none(), created);
    }
    if params.enable_site_settings {
        let mut files = strings4("SQL 种子（sys_menu + sys_config 追加）", "store/modules/settings.js", "permission.js", "Sidebar/Logo.vue / login.vue / register.vue");
        let last = owned("utils/dynamicTitle.js");
        proof { lemma_sviews_push(files@, last); }
        files.push(last);
        let created = strings3("SiteSettingsController.java（GET/PUT /site/settings）", "src/api/site/settings.js", "src/views/site/settings/index.vue");
        assert(sviews(files@) =~= seq![
            "SQL 种子（sys_menu + sys_config 追加）"@,
            "store/modules/settings.js"@,
            "permission.js"@,
            "Sidebar/Logo.vue / login.vue / register.vue"@,
            "utils/dynamicTitle.js"@,
        ]);
        push_task(out, chars_of("后台设置页面定制（站点标题/Logo/ICP 运行时可改，即时生效）"), TaskType::CustomizeSiteSettings, RiskLevel::Medium, files, none(), created);
    }
    assert(unnumbered(tviews(out@)) =~= u0 + seg_pages(*info, *params, *facts));
}

/// Generator configuration, AI rule files, sub-agent guide, front-end split, Nginx.
#[verifier::opaque]
pub open spec fn seg_tools(info: ProjectInfo, p: CustomizeParams, f: PlanFacts) -> Seq<TaskShape> {
    one_if(
        p.enable_generator_config,
        shape(generator_name(p), TaskType::CustomizeGeneratorConfig, RiskLevel::Medium, Seq::empty(), Seq::empty(), Seq::empty()),
    ) + one_if(
        p.enable_ai_rules,
        shape(
            "生成 AI 规范文件（"@ + joined(sviews(f.ai_rule_files@), " + "@) + "）"@,
            TaskType::GenerateAiRules,
            RiskLevel::Low,
            Seq::empty(),
            Seq::empty(),
            sviews(f.ai_rule_files@),
        ),
    ) + one_if(
        p.enable_sub_agents,
        shape("向 AGENTS.md 注入子智能体协作说明"@, TaskType::GenerateSubAgents, RiskLevel::Low, seq!["AGENTS.md"@], Seq::empty(), Seq::empty()),
    ) + one_if(
        p.enable_frontend_split,
        shape(
            "前后端分离：前端目录移动到 "@ + p.new_module_prefix@ + "-ui-frontend（与后端平级）"@,
            TaskType::SplitFrontend,
            RiskLevel::High,
            Seq::empty(),
            seq![p.new_module_prefix@ + "-ui"@],
            Seq::empty(),
        ),
    ) + one_if(
        p.enable_nginx_config,
        shape(
            "生成 Nginx 反向代理配置（端口 "@ + decimal(p.server_port as nat) + "，"@ + (if p.use_https { "HTTPS"@ } else { "HTTP"@ }) + "）"@,
            TaskType::GenerateNginxConfig,
            RiskLevel::Low,
            Seq::empty(),
            Seq::empty(),
            seq!["nginx/nginx.conf"@, "nginx/README.md"@],
        ),
    )
}

#[verifier::spinoff_prover]
#[verifier::rlimit(30)]
fn step_tools(out: &mut Vec<Task>, info: &ProjectInfo, params: &CustomizeParams, facts: &PlanFacts)
    requires
        old(out).len() < 800,
        well_numbered(old(out)@),
    ensures
        well_numbered(final(out)@),
        final(out).len() <= old(out).len() + 6,
        unnumbered(tviews(final(out)@)) == unnumbered(tviews(old(out)@)) + seg_tools(*info, *params, *facts),
{
    proof {
        reveal(seg_tools);
    }
    let ghost u0 = unnumbered(tviews(out@));
    let ghost i = *info;
    let ghost p = *params;
    let ghost f = *facts;
    if params.enable_generator_config {
        let mut n = chars_of("定制代码生成器配置：作者=");
        if is_empty(&params.generator_author) {
            extend_str(&mut n, "（保留默认）");
        } else {
            extend_str(&mut n, params.generator_author.as_str());
        }
        extend_str(&mut n, "、包名=");
        extend_str(&mut n, params.new_package.as_str());
        if !is_empty(&params.generator_table_prefix) {
            extend_str(&mut n, "、表前缀=");
            extend_str(&mut n, params.generator_table_prefix.as_str());
        }
        if params.generator_vue3 {
            extend_str(&mut n, "、Vue3 模板升级");
        }
        assert(n@ =~= generator_name(p));
        push_task(out, n, TaskType::CustomizeGeneratorConfig, RiskLevel::Medium, none(), none(), none());
    }
    if params.enable_ai_rules {
        let mut n = chars_of("生成 AI 规范文件（");
        push_joined(&mut n, &facts.ai_rule_files, " + ");
        extend_str(&mut n, "）");
        push_task(out, n, TaskType::GenerateAiRules, RiskLevel::Low, none(), none(), copy_strings(&facts.ai_rule_files));
    }
    if params.enable_sub_agents {
        push_task(out, chars_of("向 AGENTS.md 注入子智能体协作说明"), TaskType::GenerateSubAgents, RiskLevel::Low, one("AGENTS.md"), none(), none());
    }
    if params.enable_frontend_split {
        let mut n = chars_of("前后端分离：前端目录移动到 ");
        extend_str(&mut n, params.new_module_prefix.as_str());
        extend_str(&mut n, "-ui-frontend（与后端平级）");
        let mut d = chars_of(params.new_module_prefix.as_str());
        extend_str(&mut d, "-ui");
        let mut dirs: Vec<String> = Vec::new();
        dirs.push(string_of(&d));
        assert(sviews(dirs@) =~= seq![p.new_module_prefix@ + "-ui"@]);
        push_task(out, n, TaskType::SplitFrontend, RiskLevel::High, none(), dirs, none());
    }
    if params.enable_nginx_config {
        let mut n = chars_of("生成 Nginx 反向代理配置（端口 ");
        push_decimal(&mut n, params.server_port as u64);
        extend_str(&mut n, "，");
        if params.use_https {
            extend_str(&mut n, "HTTPS");
        } else {
            extend_str(&mut n, "HTTP");
        }
        extend_str(&mut n, "）");
        assert(n@ =~= "生成 Nginx 反向代理配置（端口 "@ + decimal(p.server_port as nat) + "，"@ + (if p.use_https { "HTTPS"@ } else { "HTTP"@ }) + "）"@);
        push_task(out, n, TaskType::GenerateNginxConfig, RiskLevel::Low, none(), none(), two("nginx/nginx.conf", "nginx/README.md"));
    }
    assert(unnumbered(tviews(out@)) =~= u0 + seg_tools(*info, *params, *facts));
}


// ---------------------------------------------------------------------------
// Scripts, packaging, validation, report
// ---------------------------------------------------------------------------

/// The leaf names of the runnable RuoYi-Cloud services.
pub open spec fn runnable_suffixes() -> Seq<Seq<char>> {
    seq!["gateway"@, "auth"@, "system"@, "gen"@, "job"@, "file"@, "monitor"@]
}

/// The leaf names of the runnable RuoYi-Cloud services, in start order.
pub fn cloud_runnable_leaf_suffixes() -> (r: Vec<String>)
    ensures
        sviews(r@) == runnable_suffixes(),
{
    let mut v = strings4("gateway", "auth", "system", "gen");
    let x = owned("job");
    proof { lemma_sviews_push(v@, x); }
    v.push(x);
    let x = owned("file");
    proof { lemma_sviews_push(v@, x); }
    v.push(x);
    let x = owned("monitor");
    proof { lemma_sviews_push(v@, x); }
    v.push(x);
    assert(sviews(v@) =~= runnable_suffixes());
    v
}

/// The removed modules as keys (trimmed, lowercased, empty ones dropped).
pub open spec fn removed_keys(ms: Seq<Seq<char>>) -> Seq<Seq<char>>
    decreases ms.len(),
{
    if ms.len() == 0 {
        Seq::empty()
    } else {
        let k = lower(trim(ms.last()));
        removed_keys(ms.drop_last()) + (if k.len() == 0 { Seq::empty() } else { seq![k] })
    }
}

/// `run-<name>.sh` and `run-<name>.bat` for each name that is neither removed nor skipped.
pub open spec fn run_pairs(names: Seq<Seq<char>>, removed: Seq<Seq<char>>, skip: Seq<Seq<char>>) -> Seq<Seq<char>>
    decreases names.len(),
{
    if names.len() == 0 {
        Seq::empty()
    } else {
        let n = names.last();
        run_pairs(names.drop_last(), removed, skip) + (if removed.contains(n) || skip.contains(n) {
            Seq::empty()
        } else {
            seq!["run-"@ + n + ".sh"@, "run-"@ + n + ".bat"@]
        })
    }
}

/// The development scripts of a Cloud project: the menu scripts, then one pair
/// per runnable service and per new module that is not removed.
pub open spec fn cloud_dev_files(p: CustomizeParams) -> Seq<Seq<char>> {
    let removed = removed_keys(sviews(p.remove_modules@));
    seq!["run.sh"@, "run.bat"@, "run.ps1"@]
        + run_pairs(runnable_suffixes(), removed, Seq::empty())
        + run_pairs(norm_names(sviews(p.new_modules@)), removed, runnable_suffixes())
}

fn holds_str(v: &Vec<String>, c: &Vec<char>) -> (r: bool)
    ensures
        r == sviews(v@).contains(c@),
{
    let mut i: usize = 0;
    while i < v.len()
        invariant
            i <= v.len(),
            forall|k: int| 0 <= k < i ==> v@[k]@ != c@,
        decreases v.len() - i,
    {
        let x = chars_of(v[i].as_str());
        if crate::text::chars_eq(&x, c) {
            assert(sviews(v@)[i as int] == c@);
            return true;
        }
        i = i + 1;
    }
    assert(!sviews(v@).contains(c@)) by {
        if sviews(v@).contains(c@) {
            let k = choose|k: int| 0 <= k < sviews(v@).len() && sviews(v@)[k] == c@;
            assert(v@[k]@ == c@);
        }
    }
    false
}

fn removed_keys_exec(ms: &Vec<String>) -> (r: Vec<String>)
    ensures
        sviews(r@) == removed_keys(sviews(ms@)),
{
    let mut out: Vec<String> = Vec::new();
    let mut i: usize = 0;
    while i < ms.len()
        invariant
            i <= ms.len(),
            sviews(out@) == removed_keys(sviews(ms@).take(i as int)),
        decreases ms.len() - i,
    {
        assert(sviews(ms@).take(i as int + 1).drop_last() =~= sviews(ms@).take(i as int));
        let k = lower_chars(&trim_chars(&chars_of(ms[i].as_str())));
        if k.len() > 0 {
            let s = string_of(&k);
            proof { lemma_sviews_push(out@, s); }
            out.push(s);
        }
        assert(sviews(out@) =~= removed_keys(sviews(ms@).take(i as int + 1)));
        i = i + 1;
    }
    assert(sviews(ms@).take(i as int) =~= sviews(ms@));
    out
}

fn push_run_pairs(out: &mut Vec<String>, names: &Vec<String>, removed: &Vec<String>, skip: &Vec<String>)
    ensures
        sviews(final(out)@) == sviews(old(out)@) + run_pairs(sviews(names@), sviews(removed@), sviews(skip@)),
{
    let mut i: usize = 0;
    while i < names.len()
        invariant
            i <= names.len(),
            sviews(out@) == sviews(old(out)@) + run_pairs(sviews(names@).take(i as int), sviews(removed@), sviews(skip@)),
        decreases names.len() - i,
    {
        assert(sviews(names@).take(i as int + 1).drop_last() =~= sviews(names@).take(i as int));
        let n = chars_of(names[i].as_str());
        if !holds_str(removed, &n) && !holds_str(skip, &n) {
            let mut a = chars_of("run-");
            extend_chars(&mut a, &n);
            let b = cat(&a, ".bat");
            let a = cat(&a, ".sh");
            proof { lemma_sviews_push(out@, a); }
            out.push(a);
            proof { lemma_sviews_push(out@, b); }
            out.push(b);
        }
        assert(sviews(out@) =~= sviews(old(out)@) + run_pairs(sviews(names@).take(i as int + 1), sviews(removed@), sviews(skip@)));
        i = i + 1;
    }
    assert(sviews(names@).take(i as int) =~= sviews(names@));
}

/// The packaging-name task.
pub open spec fn final_name_task(p: CustomizeParams, f: PlanFacts) -> TaskShape {
    if f.is_cloud {
        shape(
            "设置 Cloud 可运行服务打包名（gateway/auth/system/…）"@,
            TaskType::UpdateAdminPomFinalName,
            RiskLevel::Low,
            seq!["*-gateway/pom.xml"@, "*-auth/pom.xml"@, "*-modules/*-system/pom.xml"@],
            Seq::empty(),
            Seq::empty(),
        )
    } else {
        shape(
            "设置 admin 打包名 → "@ + p.new_module_prefix@ + "-admin.jar"@,
            TaskType::UpdateAdminPomFinalName,
            RiskLevel::Low,
            seq![p.new_module_prefix@ + "-admin/pom.xml"@],
            Seq::empty(),
            Seq::empty(),
        )
    }
}

/// Start/stop and build scripts; development scripts.
#[verifier::opaque]
pub open spec fn seg_scripts(info: ProjectInfo, p: CustomizeParams, f: PlanFacts) -> Seq<TaskShape> {
    (if p.enable_startup_scripts {
        seq![
            shape(
                if f.is_cloud {
                    "生成启动/停止脚本（Cloud 多服务 start/stop：按模块端口，gateway→auth→system，先检查 Nacos 8848）"@
                } else {
                    "生成启动/停止脚本（start/stop .sh + .bat）"@
                },
                TaskType::GenerateStartupScripts,
                RiskLevel::Low,
                Seq::empty(),
                Seq::empty(),
                seq!["scripts/start.sh"@, "scripts/stop.sh"@, "scripts/start.bat"@, "scripts/stop.bat"@],
            ),
            shape(
                if f.is_cloud {
                    "生成一键打包脚本（build.sh / build.bat，Cloud 多服务 jar，产物输出到 build/）"@
                } else {
                    "生成一键打包脚本（build.sh / build.bat，产物输出到 build/）"@
                },
                TaskType::GenerateBuildScripts,
                RiskLevel::Low,
                Seq::empty(),
                Seq::empty(),
                seq!["build.sh"@, "build.bat"@],
            ),
        ]
    } else {
        Seq::empty()
    }) + seq![if f.is_cloud {
        shape(
            "生成开发脚本（根 run.sh/run.bat/run.ps1 方向键勾选菜单，排除 run-ui；以及各模块 run-<suffix>.sh/.bat，按模块端口）"@,
            TaskType::GenerateDevScripts,
            RiskLevel::Low,
            Seq::empty(),
            Seq::empty(),
            cloud_dev_files(p),
        )
    } else {
        shape(
            "生成开发脚本（run.sh / run.bat，cd "@ + p.new_module_prefix@ + "-admin）"@,
            TaskType::GenerateDevScripts,
            RiskLevel::Low,
            Seq::empty(),
            Seq::empty(),
            seq!["run.sh"@, "run.bat"@],
        )
    }]
}

#[verifier::spinoff_prover]
#[verifier::rlimit(30)]
fn step_scripts(out: &mut Vec<Task>, info: &ProjectInfo, params: &CustomizeParams, facts: &PlanFacts)
    requires
        old(out).len() < 800,
        well_numbered(old(out)@),
    ensures
        well_numbered(final(out)@),
        final(out).len() <= old(out).len() + 6,
        unnumbered(tviews(final(out)@)) == unnumbered(tviews(old(out)@)) + seg_scripts(*info, *params, *facts),
{
    proof {
        reveal(seg_scripts);
    }
    let ghost u0 = unnumbered(tviews(out@));
    let ghost i = *info;
    let ghost p = *params;
    let ghost f = *facts;
    if params.enable_startup_scripts {
        let n = if facts.is_cloud {
            chars_of("生成启动/停止脚本（Cloud 多服务 start/stop：按模块端口，gateway→auth→system，先检查 Nacos 8848）")
        } else {
            chars_of("生成启动/停止脚本（start/stop .sh + .bat）")
        };
        push_task(out, n, TaskType::GenerateStartupScripts, RiskLevel::Low, none(), none(), strings4("scripts/start.sh", "scripts/stop.sh", "scripts/start.bat", "scripts/stop.bat"));
        let n = if facts.is_cloud {
            chars_of("生成一键打包脚本（build.sh / build.bat，Cloud 多服务 jar，产物输出到 build/）")
        } else {
            chars_of("生成一键打包脚本（build.sh / build.bat，产物输出到 build/）")
        };
        push_task(out, n, TaskType::GenerateBuildScripts, RiskLevel::Low, none(), none(), two("build.sh", "build.bat"));
    }
    let ghost u1 = unnumbered(tviews(out@));
    if facts.is_cloud {
        let mut files = strings3("run.sh", "run.bat", "run.ps1");
        let removed = removed_keys_exec(&params.remove_modules);
        let suffixes = cloud_runnable_leaf_suffixes();
        let nothing: Vec<String> = Vec::new();
        assert(sviews(nothing@) =~= Seq::<Seq<char>>::empty());
        push_run_pairs(&mut files, &suffixes, &removed, &nothing);
        let names = normalize_new_module_names(&params.new_modules);
        push_run_pairs(&mut files, &names, &removed, &suffixes);
        assert(sviews(files@) =~= cloud_dev_files(p));
        push_task(out, chars_of("生成开发脚本（根 run.sh/run.bat/run.ps1 方向键勾选菜单，排除 run-ui；以及各模块 run-<suffix>.sh/.bat，按模块端口）"), TaskType::GenerateDevScripts, RiskLevel::Low, none(), none(), files);
    } else {
        let mut n = chars_of("生成开发脚本（run.sh / run.bat，cd ");
        extend_str(&mut n, params.new_module_prefix.as_str());
        extend_str(&mut n, "-admin）");
        push_task(out, n, TaskType::GenerateDevScripts, RiskLevel::Low, none(), none(), two("run.sh", "run.bat"));
    }
    assert(unnumbered(tviews(out@)) =~= u0 + seg_scripts(*info, *params, *facts));
}

/// Front-end dev scripts (when the edition has a front end), source export
/// scripts, packaging names, validation, report.
#[verifier::opaque]
pub open spec fn seg_finish(p: CustomizeParams, f: PlanFacts, has_frontend: bool) -> Seq<TaskShape> {
    one_if(
        has_frontend,
        shape(
            "生成前端开发脚本（run-ui.sh / run-ui.bat，cd "@ + p.new_module_prefix@ + "-ui）"@,
            TaskType::GenerateDevUiScripts,
            RiskLevel::Low,
            Seq::empty(),
            Seq::empty(),
            seq!["run-ui.sh"@, "run-ui.bat"@],
        ),
    ) + seq![
        shape(
            "生成源码导出脚本（export-source.sh / export-source.bat，交付干净源码包）"@,
            TaskType::GenerateExportSourceScripts,
            RiskLevel::Low,
            Seq::empty(),
            Seq::empty(),
            seq!["export-source.sh"@, "export-source.bat"@],
        ),
        final_name_task(p, f),
        shape("执行后校验"@, TaskType::ValidateProject, RiskLevel::Low, Seq::empty(), Seq::empty(), Seq::empty()),
    ] + one_if(
        p.enable_report,
        shape(
            "生成 Markdown 执行报告"@,
            TaskType::GenerateReport,
            RiskLevel::Low,
            Seq::empty(),
            Seq::empty(),
            seq![".ry-forge-report/<timestamp>/report.md"@],
        ),
    )
}

#[verifier::spinoff_prover]
#[verifier::rlimit(30)]
fn step_finish(out: &mut Vec<Task>, params: &CustomizeParams, facts: &PlanFacts, has_frontend: bool)
    requires
        old(out).len() < 800,
        well_numbered(old(out)@),
    ensures
        well_numbered(final(out)@),
        final(out).len() <= old(out).len() + 6,
        unnumbered(tviews(final(out)@)) == unnumbered(tviews(old(out)@)) + seg_finish(*params, *facts, has_frontend),
{
    proof {
        reveal(seg_finish);
    }
    let ghost u0 = unnumbered(tviews(out@));
    let ghost p = *params;
    let ghost f = *facts;
    if has_frontend {
        let mut n = chars_of("生成前端开发脚本（run-ui.sh / run-ui.bat，cd ");
        extend_str(&mut n, params.new_module_prefix.as_str());
        extend_str(&mut n, "-ui）");
        push_task(out, n, TaskType::GenerateDevUiScripts, RiskLevel::Low, none(), none(), two("run-ui.sh", "run-ui.bat"));
    }
    push_task(out, chars_of("生成源码导出脚本（export-source.sh / export-source.bat，交付干净源码包）"), TaskType::GenerateExportSourceScripts, RiskLevel::Low, none(), none(), two("export-source.sh", "export-source.bat"));
    if facts.is_cloud {
        push_task(out, chars_of("设置 Cloud 可运行服务打包名（gateway/auth/system/…）"), TaskType::UpdateAdminPomFinalName, RiskLevel::Low, strings3("*-gateway/pom.xml", "*-auth/pom.xml", "*-modules/*-system/pom.xml"), none(), none());
    } else {
        let mut n = chars_of("设置 admin 打包名 → ");
        extend_str(&mut n, params.new_module_prefix.as_str());
        extend_str(&mut n, "-admin.jar");
        let mut m = chars_of(params.new_module_prefix.as_str());
        extend_str(&mut m, "-admin/pom.xml");
        let mut files: Vec<String> = Vec::new();
        files.push(string_of(&m));
        assert(sviews(files@) =~= seq![p.new_module_prefix@ + "-admin/pom.xml"@]);
        push_task(out, n, TaskType::UpdateAdminPomFinalName, RiskLevel::Low, files, none(), none());
    }
    push_task(out, chars_of("执行后校验"), TaskType::ValidateProject, RiskLevel::Low, none(), none(), none());
    if params.enable_report {
        push_task(out, chars_of("生成 Markdown 执行报告"), TaskType::GenerateReport, RiskLevel::Low, none(), none(), one(".ry-forge-report/<timestamp>/report.md"));
    }
    assert(unnumbered(tviews(out@)) =~= u0 + seg_finish(*params, *facts, has_frontend));
}

// ---------------------------------------------------------------------------
// The plan
// ---------------------------------------------------------------------------

/// Whether the edition has its own front-end module.
pub open spec fn has_frontend(template: Template) -> bool {
    template.module.frontend_modules@.len() > 0
}

/// Every task of a run, in execution order, before numbering.
pub open spec fn planned_tasks(info: ProjectInfo, p: CustomizeParams, template: Template, f: PlanFacts) -> Seq<TaskShape> {
    seg_packages(info, p, f)
        + seg_frontend_config(info, p, f)
        + seg_mybatis(info, p, f)
        + seg_uniapp(info, p, f)
        + seg_replace_ui(info, p, f)
        + seg_oss(info, p, f)
        + seg_logins(info, p, f)
        + seg_sql(info, p, f)
        + seg_modules(info, p, f)
        + seg_pages(info, p, f)
        + seg_tools(info, p, f)
        + seg_scripts(info, p, f)
        + seg_finish(p, f, has_frontend(template))
}

/// The plan of a run: every task in execution order, numbered `01`, `02`, ...
pub open spec fn planned(info: ProjectInfo, p: CustomizeParams, template: Template, f: PlanFacts) -> Seq<TaskShape> {
    numbered(planned_tasks(info, p, template, f))
}

/// Plans a run: every task in execution order, with its risk and what it
/// touches, numbered from `01`. Nothing is written.
#[verifier::rlimit(40)]
pub fn plan_tasks(info: &ProjectInfo, params: &CustomizeParams, template: &Template, facts: &PlanFacts) -> (r: Vec<Task>)
    ensures
        tviews(r@) == planned(*info, *params, *template, *facts),
{
    let mut out: Vec<Task> = Vec::new();
    assert(tviews(out@) =~= Seq::<TaskShape>::empty());
    step_packages(&mut out, info, params, facts);
    assert(unnumbered(tviews(out@)) =~= seg_packages(*info, *params, *facts));
    step_frontend_config(&mut out, info, params, facts);
    step_mybatis(&mut out, info, params, facts);
    step_uniapp(&mut out, info, params, facts);
    step_replace_ui(&mut out, info, params, facts);
    step_oss(&mut out, info, params, facts);
    step_logins(&mut out, info, params, facts);
    step_sql(&mut out, info, params, facts);
    step_modules(&mut out, info, params, facts);
    step_pages(&mut out, info, params, facts);
    step_tools(&mut out, info, params, facts);
    step_scripts(&mut out, info, params, facts);
    let fe = template.module.frontend_modules.len() > 0;
    step_finish(&mut out, params, facts, fe);
    proof {
        lemma_numbered(tviews(out@));
    }
    out
}

} // verus!
