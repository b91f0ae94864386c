//! The Markdown execution report.
use vstd::prelude::*;
use crate::nacos_sql::join;
use crate::params::{CustomizeParams, ProjectInfo};
use crate::task::{sviews, TaskResult, TaskStatus};
use crate::text::{before_char, before_char_exec, chars_of, decimal, eq_str, extend_chars, extend_str, push_decimal, string_of};
use crate::validator::{CheckItem, CheckResult};

verus! {

/// `开启` / `关闭`.
pub open spec fn bool_cn(b: bool) -> Seq<char> {
    if b {
        "开启"@
    } else {
        "关闭"@
    }
}

fn push_bool_cn(v: &mut Vec<char>, b: bool)
    ensures
        final(v)@ == old(v)@ + bool_cn(b),
{
    if b {
        extend_str(v, "开启");
    } else {
        extend_str(v, "关闭");
    }
}

fn push_joined_strings(v: &mut Vec<char>, parts: &Vec<String>, sep: &str)
    ensures
        final(v)@ == old(v)@ + join(sviews(parts@), sep@),
{
    let mut cs: Vec<Vec<char>> = Vec::new();
    let mut i: usize = 0;
    while i < parts.len()
        invariant
            i <= parts.len(),
            crate::text::vviews(cs@) == sviews(parts@).take(i as int),
        decreases parts.len() - i,
    {
        let ghost before = crate::text::vviews(cs@);
        cs.push(chars_of(parts[i].as_str()));
        assert(crate::text::vviews(cs@) =~= before.push(parts@[i as int]@));
        assert(crate::text::vviews(cs@) =~= sviews(parts@).take(i + 1));
        i = i + 1;
    }
    assert(sviews(parts@).take(i as int) =~= sviews(parts@));
    crate::nacos_sql::push_joined(v, &cs, sep);
}

/// Project information and parameters at the top of the report.
pub open spec fn report_head(info: ProjectInfo, p: CustomizeParams, generated_at: Seq<char>) -> Seq<char> {
    "# 若依锻造台 执行报告\n\n"@ + "生成时间："@ + generated_at + "\n\n"@ + "## 项目信息\n\n"@ + "- 项目路径："@
        + info.root_path@ + "\n"@ + "- 项目类型："@ + info.project_type@ + "\n"@ + "- 后端模块："@ + join(
        sviews(info.backend_modules@),
        "、"@,
    ) + "\n"@ + "- 前端目录："@ + join(sviews(info.frontend_dirs@), "、"@) + "\n"@ + "\n## 改造参数\n\n"@
        + "- 原包名 → 新包名："@ + p.original_package@ + " → "@ + p.new_package@ + "\n"@
        + "- 原模块前缀 → 新模块前缀："@ + p.original_module_prefix@ + " → "@ + p.new_module_prefix@ + "\n"@
        + "- 前端标题："@ + p.frontend_title@ + "\n"@ + "- MyBatis-Plus："@ + bool_cn(p.enable_mybatis_plus)
        + "\n"@ + "- 配置文件重构："@ + bool_cn(p.enable_config_rewrite) + "\n"@ + "- logback 修正："@ + bool_cn(
        p.enable_logback_rewrite,
    ) + "\n"@ + if p.enable_uniapp {
        "- UniApp 小程序：已生成 "@ + p.new_module_prefix@ + "-uniapp\n"@
    } else {
        "- UniApp 小程序：未启用\n"@
    }
}

/// A task whose message belongs to the security / SQL section.
pub open spec fn security_task(r: TaskResult) -> bool {
    let head = before_char(r.task_name@, '：');
    (head == "安全加固"@ || head == "定制 SQL 初始化脚本"@ || head == "管理员账号定制"@) && r.message@.len() > 0
}

/// Messages of the security / SQL tasks, in order.
pub open spec fn security_messages(rs: Seq<TaskResult>) -> Seq<Seq<char>>
    decreases rs.len(),
{
    if rs.len() == 0 {
        Seq::empty()
    } else if security_task(rs.last()) {
        security_messages(rs.drop_last()).push(rs.last().message@)
    } else {
        security_messages(rs.drop_last())
    }
}

/// `- {m}\n` for each message.
pub open spec fn bullets(ms: Seq<Seq<char>>) -> Seq<char>
    decreases ms.len(),
{
    if ms.len() == 0 {
        Seq::empty()
    } else {
        bullets(ms.drop_last()) + "- "@ + ms.last() + "\n"@
    }
}

/// The security / SQL section (absent without messages).
pub open spec fn security_section(rs: Seq<TaskResult>) -> Seq<char> {
    let ms = security_messages(rs);
    if ms.len() == 0 {
        Seq::empty()
    } else {
        "\n## 安全加固 & SQL 定制结果\n\n"@ + "> ⚠️ admin 密码明文显示于此，请妥善保管，确认后建议删除本节。\n\n"@ + bullets(ms)
    }
}

/// How a task status is shown.
pub open spec fn status_cn(s: TaskStatus) -> Seq<char> {
    match s {
        TaskStatus::Success => "✅ 成功"@,
        TaskStatus::Failed => "❌ 失败"@,
        TaskStatus::Skipped => "⏭️ 跳过"@,
        TaskStatus::Running => "🔄 进行中"@,
        TaskStatus::Pending => "⏳ 待执行"@,
    }
}

/// One row of the task table.
pub open spec fn task_row(r: TaskResult) -> Seq<char> {
    "| "@ + r.task_id@ + " | "@ + r.task_name@ + " | "@ + status_cn(r.status) + " | "@ + decimal(
        r.modified_files as nat,
    ) + " | "@ + decimal(r.created_files as nat) + " | "@ + decimal(r.renamed_dirs as nat) + " | "@
        + r.message@ + " |\n"@
}

/// Rows of the task table.
pub open spec fn task_rows(rs: Seq<TaskResult>) -> Seq<char>
    decreases rs.len(),
{
    if rs.len() == 0 {
        Seq::empty()
    } else {
        task_rows(rs.drop_last()) + task_row(rs.last())
    }
}

/// Totals of modified files, created files and renamed directories.
pub open spec fn totals(rs: Seq<TaskResult>) -> (nat, nat, nat)
    decreases rs.len(),
{
    if rs.len() == 0 {
        (0, 0, 0)
    } else {
        let t = totals(rs.drop_last());
        let r = rs.last();
        (t.0 + r.modified_files as nat, t.1 + r.created_files as nat, t.2 + r.renamed_dirs as nat)
    }
}

/// How a check result is shown.
pub open spec fn check_cn(c: CheckResult) -> Seq<char> {
    match c {
        CheckResult::Pass => "✅ PASS"@,
        CheckResult::Warn => "⚠️ WARN"@,
        CheckResult::Fail => "❌ FAIL"@,
        CheckResult::Skip => "⏭️ SKIP"@,
    }
}

/// Rows of the check table.
pub open spec fn check_rows(cs: Seq<CheckItem>) -> Seq<char>
    decreases cs.len(),
{
    if cs.len() == 0 {
        Seq::empty()
    } else {
        check_rows(cs.drop_last()) + "| "@ + cs.last().item@ + " | "@ + check_cn(cs.last().result) + " | "@
            + cs.last().message@ + " |\n"@
    }
}

/// The whole report.
pub open spec fn report_text(
    info: ProjectInfo,
    p: CustomizeParams,
    rs: Seq<TaskResult>,
    cs: Seq<CheckItem>,
    generated_at: Seq<char>,
) -> Seq<char> {
    let t = totals(rs);
    report_head(info, p, generated_at) + security_section(rs) + "\n## 任务执行结果\n\n"@
        + "| 序号 | 任务 | 状态 | 修改文件 | 新增文件 | 重命名目录 | 说明 |\n"@
        + "| --- | --- | --- | --- | --- | --- | --- |\n"@ + task_rows(rs) + "\n## 统计\n\n"@ + "- 修改文件总数："@
        + decimal(t.0) + "\n"@ + "- 新增文件总数："@ + decimal(t.1) + "\n"@ + "- 重命名目录总数："@ + decimal(t.2)
        + "\n"@ + "\n## 校验结果\n\n"@ + "| 校验项 | 结果 | 说明 |\n"@ + "| --- | --- | --- |\n"@ + check_rows(cs)
        + "\n## 风险提示与人工检查建议\n\n"@ + "- 请检查校验结果中的 WARN 项，按需手动处理。\n"@
        + "- FAIL 项需人工修复后方可编译运行。\n"@ + "- 建议执行 `mvn -DskipTests package` 验证后端可编译。\n"@
        + "- 建议在 IDE 中刷新 Maven 并检查依赖树。\n"@
}

/// The Markdown report of a transform run; `generated_at` is the generation time
/// as it is to be shown. The totals must fit in a `usize`.
pub fn report_markdown(
    info: &ProjectInfo,
    params: &CustomizeParams,
    task_results: &Vec<TaskResult>,
    checks: &Vec<CheckItem>,
    generated_at: &str,
) -> (r: String)
    requires
        totals(task_results@).0 <= u64::MAX,
        totals(task_results@).1 <= u64::MAX,
        totals(task_results@).2 <= u64::MAX,
    ensures
        r@ == report_text(*info, *params, task_results@, checks@, generated_at@),
{
    let mut md: Vec<char> = Vec::new();
    extend_str(&mut md, "# 若依锻造台 执行报告\n\n");
    extend_str(&mut md, "生成时间：");
    extend_str(&mut md, generated_at);
    extend_str(&mut md, "\n\n");
    extend_str(&mut md, "## 项目信息\n\n");
    extend_str(&mut md, "- 项目路径：");
    extend_str(&mut md, info.root_path.as_str());
    extend_str(&mut md, "\n");
    extend_str(&mut md, "- 项目类型：");
    extend_str(&mut md, info.project_type.as_str());
    extend_str(&mut md, "\n");
    extend_str(&mut md, "- 后端模块：");
    push_joined_strings(&mut md, &info.backend_modules, "、");
    extend_str(&mut md, "\n");
    extend_str(&mut md, "- 前端目录：");
    push_joined_strings(&mut md, &info.frontend_dirs, "、");
    extend_str(&mut md, "\n");
    extend_str(&mut md, "\n## 改造参数\n\n");
    extend_str(&mut md, "- 原包名 → 新包名：");
    extend_str(&mut md, params.original_package.as_str());
    extend_str(&mut md, " → ");
    extend_str(&mut md, params.new_package.as_str());
    extend_str(&mut md, "\n");
    extend_str(&mut md, "- 原模块前缀 → 新模块前缀：");
    extend_str(&mut md, params.original_module_prefix.as_str());
    extend_str(&mut md, " → ");
    extend_str(&mut md, params.new_module_prefix.as_str());
    extend_str(&mut md, "\n");
    extend_str(&mut md, "- 前端标题：");
    extend_str(&mut md, params.frontend_title.as_str());
    extend_str(&mut md, "\n");
    extend_str(&mut md, "- MyBatis-Plus：");
    push_bool_cn(&mut md, params.enable_mybatis_plus);
    extend_str(&mut md, "\n");
    extend_str(&mut md, "- 配置文件重构：");
    push_bool_cn(&mut md, params.enable_config_rewrite);
    extend_str(&mut md, "\n");
    extend_str(&mut md, "- logback 修正：");
    push_bool_cn(&mut md, params.enable_logback_rewrite);
    extend_str(&mut md, "\n");
    if params.enable_uniapp {
        extend_str(&mut md, "- UniApp 小程序：已生成 ");
        extend_str(&mut md, params.new_module_prefix.as_str());
        extend_str(&mut md, "-uniapp\n");
    } else {
        extend_str(&mut md, "- UniApp 小程序：未启用\n");
    }
    let ghost head = md@;
    assert(head =~= report_head(*info, *params, generated_at@));
    push_security_section(&mut md, task_results);
    let ghost h2 = md@;
    extend_str(&mut md, "\n## 任务执行结果\n\n");
    extend_str(&mut md, "| 序号 | 任务 | 状态 | 修改文件 | 新增文件 | 重命名目录 | 说明 |\n");
    extend_str(&mut md, "| --- | --- | --- | --- | --- | --- | --- |\n");
    let (m, c, d) = push_task_rows(&mut md, task_results);
    extend_str(&mut md, "\n## 统计\n\n");
    extend_str(&mut md, "- 修改文件总数：");
    push_decimal(&mut md, m);
    extend_str(&mut md, "\n");
    extend_str(&mut md, "- 新增文件总数：");
    push_decimal(&mut md, c);
    extend_str(&mut md, "\n");
    extend_str(&mut md, "- 重命名目录总数：");
    push_decimal(&mut md, d);
    extend_str(&mut md, "\n");
    extend_str(&mut md, "\n## 校验结果\n\n");
    extend_str(&mut md, "| 校验项 | 结果 | 说明 |\n");
    extend_str(&mut md, "| --- | --- | --- |\n");
    push_check_rows(&mut md, checks);
    extend_str(&mut md, "\n## 风险提示与人工检查建议\n\n");
    extend_str(&mut md, "- 请检查校验结果中的 WARN 项，按需手动处理。\n");
    extend_str(&mut md, "- FAIL 项需人工修复后方可编译运行。\n");
    extend_str(&mut md, "- 建议执行 `mvn -DskipTests package` 验证后端可编译。\n");
    extend_str(&mut md, "- 建议在 IDE 中刷新 Maven 并检查依赖树。\n");
    assert(md@ =~= report_text(*info, *params, task_results@, checks@, generated_at@));
    string_of(&md)
}

fn is_security_task(r: &TaskResult) -> (b: bool)
    ensures
        b == security_task(*r),
{
    let head = before_char_exec(&chars_of(r.task_name.as_str()), '：');
    (eq_str(&head, "安全加固") || eq_str(&head, "定制 SQL 初始化脚本") || eq_str(&head, "管理员账号定制"))
        && r.message.as_str().unicode_len() > 0
}

fn push_security_section(md: &mut Vec<char>, rs: &Vec<TaskResult>)
    ensures
        final(md)@ == old(md)@ + security_section(rs@),
{
    let mut any = false;
    let mut i: usize = 0;
    assert(rs@.take(0) =~= Seq::<TaskResult>::empty());
    while i < rs.len()
        invariant
            i <= rs.len(),
            any == (security_messages(rs@.take(i as int)).len() > 0),
        decreases rs.len() - i,
    {
        assert(rs@.take(i + 1).drop_last() =~= rs@.take(i as int));
        assert(rs@.take(i + 1).last() == rs@[i as int]);
        if is_security_task(&rs[i]) {
            any = true;
        }
        i = i + 1;
    }
    assert(rs@.take(i as int) =~= rs@);
    if !any {
        return;
    }
    let ghost start = md@;
    extend_str(md, "\n## 安全加固 & SQL 定制结果\n\n");
    extend_str(md, "> ⚠️ admin 密码明文显示于此，请妥善保管，确认后建议删除本节。\n\n");
    let ghost mid = md@;
    let mut k: usize = 0;
    assert(rs@.take(0) =~= Seq::<TaskResult>::empty());
    while k < rs.len()
        invariant
            k <= rs.len(),
            md@ == mid + bullets(security_messages(rs@.take(k as int))),
        decreases rs.len() - k,
    {
        assert(rs@.take(k + 1).drop_last() =~= rs@.take(k as int));
        assert(rs@.take(k + 1).last() == rs@[k as int]);
        let ghost b0 = md@;
        if is_security_task(&rs[k]) {
            extend_str(md, "- ");
            extend_str(md, rs[k].message.as_str());
            extend_str(md, "\n");
            let ghost sm = security_messages(rs@.take(k as int));
            assert(security_messages(rs@.take(k + 1)) == sm.push(rs@[k as int].message@));
            assert(sm.push(rs@[k as int].message@).drop_last() =~= sm);
            assert(md@ =~= mid + bullets(sm.push(rs@[k as int].message@)));
        }
        k = k + 1;
    }
    assert(rs@.take(k as int) =~= rs@);
}

fn push_status(md: &mut Vec<char>, s: &TaskStatus)
    ensures
        final(md)@ == old(md)@ + status_cn(*s),
{
    match s {
        TaskStatus::Success => extend_str(md, "✅ 成功"),
        TaskStatus::Failed => extend_str(md, "❌ 失败"),
        TaskStatus::Skipped => extend_str(md, "⏭️ 跳过"),
        TaskStatus::Running => extend_str(md, "🔄 进行中"),
        TaskStatus::Pending => extend_str(md, "⏳ 待执行"),
    }
}

proof fn lemma_totals_prefix(rs: Seq<TaskResult>, i: int)
    requires
        0 <= i <= rs.len(),
    ensures
        totals(rs.take(i)).0 <= totals(rs).0,
        totals(rs.take(i)).1 <= totals(rs).1,
        totals(rs.take(i)).2 <= totals(rs).2,
    decreases rs.len() - i,
{
    if i < rs.len() {
        lemma_totals_prefix(rs, i + 1);
        assert(rs.take(i + 1).drop_last() =~= rs.take(i));
    } else {
        assert(rs.take(i) =~= rs);
    }
}

fn push_task_rows(md: &mut Vec<char>, rs: &Vec<TaskResult>) -> (r: (u64, u64, u64))
    requires
        totals(rs@).0 <= u64::MAX,
        totals(rs@).1 <= u64::MAX,
        totals(rs@).2 <= u64::MAX,
    ensures
        final(md)@ == old(md)@ + task_rows(rs@),
        (r.0 as nat, r.1 as nat, r.2 as nat) == totals(rs@),
{
    let ghost start = md@;
    let mut m: u64 = 0;
    let mut c: u64 = 0;
    let mut d: u64 = 0;
    let mut i: usize = 0;
    assert(rs@.take(0) =~= Seq::<TaskResult>::empty());
    while i < rs.len()
        invariant
            i <= rs.len(),
            totals(rs@).0 <= u64::MAX,
            totals(rs@).1 <= u64::MAX,
            totals(rs@).2 <= u64::MAX,
            md@ == start + task_rows(rs@.take(i as int)),
            (m as nat, c as nat, d as nat) == totals(rs@.take(i as int)),
        decreases rs.len() - i,
    {
        assert(rs@.take(i + 1).drop_last() =~= rs@.take(i as int));
        assert(rs@.take(i + 1).last() == rs@[i as int]);
        proof {
            lemma_totals_prefix(rs@, i + 1);
        }
        let r = &rs[i];
        let ghost before = md@;
        extend_str(md, "| ");
        extend_str(md, r.task_id.as_str());
        extend_str(md, " | ");
        extend_str(md, r.task_name.as_str());
        extend_str(md, " | ");
        push_status(md, &r.status);
        extend_str(md, " | ");
        push_decimal(md, r.modified_files as u64);
        extend_str(md, " | ");
        push_decimal(md, r.created_files as u64);
        extend_str(md, " | ");
        push_decimal(md, r.renamed_dirs as u64);
        extend_str(md, " | ");
        extend_str(md, r.message.as_str());
        extend_str(md, " |\n");
        assert(md@ =~= before + task_row(*r));
        m = m + r.modified_files as u64;
        c = c + r.created_files as u64;
        d = d + r.renamed_dirs as u64;
        i = i + 1;
    }
    assert(rs@.take(i as int) =~= rs@);
    (m, c, d)
}

fn push_check_rows(md: &mut Vec<char>, cs: &Vec<CheckItem>)
    ensures
        final(md)@ == old(md)@ + check_rows(cs@),
{
    let ghost start = md@;
    let mut i: usize = 0;
    assert(cs@.take(0) =~= Seq::<CheckItem>::empty());
    while i < cs.len()
        invariant
            i <= cs.len(),
            md@ == start + check_rows(cs@.take(i as int)),
        decreases cs.len() - i,
    {
        assert(cs@.take(i + 1).drop_last() =~= cs@.take(i as int));
        assert(cs@.take(i + 1).last() == cs@[i as int]);
        let c = &cs[i];
        extend_str(md, "| ");
        extend_str(md, c.item.as_str());
        extend_str(md, " | ");
        match c.result {
            CheckResult::Pass => extend_str(md, "✅ PASS"),
            CheckResult::Warn => extend_str(md, "⚠️ WARN"),
            CheckResult::Fail => extend_str(md, "❌ FAIL"),
            CheckResult::Skip => extend_str(md, "⏭️ SKIP"),
        }
        extend_str(md, " | ");
        extend_str(md, c.message.as_str());
        extend_str(md, " |\n");
        i = i + 1;
    }
    assert(cs@.take(i as int) =~= cs@);
}

} // verus!
