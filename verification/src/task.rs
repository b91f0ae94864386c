//! The task model of a transform plan and its preview summary.
use vstd::prelude::*;
use crate::text::{chars_eq, chars_of, vviews};

verus! {

/// What a planned task does.
#[derive(Debug, Clone, PartialEq, Eq)]
pub enum TaskType {
    ReplacePackageName,
    MovePackageDirectory,
    UpdateMavenPom,
    RenameMavenModule,
    UpdateFrontendTitle,
    RewriteApplicationProfiles,
    RewriteLogbackPath,
    InjectColoredConsolePattern,
    AddMybatisPlusDependency,
    AddMybatisPlusConfig,
    UpdateGeneratorTemplatesForMybatisPlus,
    AddLongIdJsonSerializeAnnotation,
    InjectSnowflakeId,
    GenerateUniappProject,
    ReplaceUI,
    AppendWechatConfig,
    AddWechatPayDependency,
    AddWechatPayConfig,
    CreateWechatCertDir,
    SetupOss,
    ApplySecurityHardening,
    CustomizeSqlScripts,
    CustomizeGeneratorConfig,
    GenerateAiRules,
    SplitFrontend,
    GenerateNginxConfig,
    GenerateStartupScripts,
    GenerateDevScripts,
    GenerateDevUiScripts,
    GenerateBuildScripts,
    UpdateAdminPomFinalName,
    ValidateProject,
    GenerateReport,
    RewriteNacosConfig,
    SetupWechatLogin,
    SetupSmsLogin,
    SetupCaptchaSlider,
    SetupApiEncrypt,
    SwitchDatabaseDialect,
    TrimCloudModules,
    GenerateNewModules,
    RenameAdminAccount,
    CustomizeWebFooter,
    CustomizeSiteSettings,
    GenerateSubAgents,
    GenerateExportSourceScripts,
}

/// One planned task with its dry-run footprint.
#[derive(Debug, Clone)]
pub struct Task {
    pub id: String,
    pub name: String,
    pub task_type: TaskType,
    pub risk_level: RiskLevel,
    pub affected_files: Vec<String>,
    pub affected_dirs: Vec<String>,
    pub created_files: Vec<String>,
    pub status: TaskStatus,
    pub error_message: String,
}

/// How risky a task is.
#[derive(Debug, Clone, PartialEq, Eq)]
pub enum RiskLevel {
    Low,
    Medium,
    High,
}

/// Where a task stands.
#[derive(Debug, Clone, PartialEq, Eq)]
pub enum TaskStatus {
    Pending,
    Running,
    Success,
    Skipped,
    Failed,
}

/// What executing one task did.
#[derive(Debug, Clone)]
pub struct TaskResult {
    pub task_id: String,
    pub task_name: String,
    pub status: TaskStatus,
    pub modified_files: usize,
    pub created_files: usize,
    pub renamed_dirs: usize,
    pub message: String,
}

/// Totals shown before a transform runs.
#[derive(Debug, Clone)]
pub struct PreviewSummary {
    pub task_count: usize,
    pub modify_file_count: usize,
    pub create_file_count: usize,
    pub rename_dir_count: usize,
    pub high_risk_items: Vec<String>,
}

/// The views of a list of strings, as a set.
pub open spec fn string_set(v: Seq<String>) -> Set<Seq<char>> {
    Set::new(|s: Seq<char>| exists|j: int| 0 <= j < v.len() && #[trigger] v[j]@ == s)
}

/// Which list of a task: 0 = affected files, 1 = created files, otherwise affected dirs.
pub open spec fn task_list(t: Task, which: nat) -> Seq<String> {
    if which == 0 {
        t.affected_files@
    } else if which == 1 {
        t.created_files@
    } else {
        t.affected_dirs@
    }
}

/// Every distinct path named by the chosen list of some task.
pub open spec fn listed(tasks: Seq<Task>, which: nat) -> Set<Seq<char>>
    decreases tasks.len(),
{
    if tasks.len() == 0 {
        Set::empty()
    } else {
        listed(tasks.drop_last(), which) + string_set(task_list(tasks.last(), which))
    }
}

/// The names of the high-risk tasks, in order.
pub open spec fn high_risk_names(tasks: Seq<Task>) -> Seq<Seq<char>>
    decreases tasks.len(),
{
    if tasks.len() == 0 {
        Seq::empty()
    } else if tasks.last().risk_level is High {
        high_risk_names(tasks.drop_last()).push(tasks.last().name@)
    } else {
        high_risk_names(tasks.drop_last())
    }
}

/// The views of a vector of strings.
pub open spec fn sviews(v: Seq<String>) -> Seq<Seq<char>> {
    v.map_values(|s: String| s@)
}

/// Adds to `seen` the strings of `items` it does not hold yet.
fn add_distinct(seen: &mut Vec<Vec<char>>, items: &Vec<String>)
    requires
        vviews(old(seen)@).no_duplicates(),
    ensures
        vviews(final(seen)@).no_duplicates(),
        vviews(final(seen)@).to_set() == vviews(old(seen)@).to_set() + string_set(items@),
{
    let ghost start = vviews(seen@).to_set();
    let mut i: usize = 0;
    while i < items.len()
        invariant
            i <= items.len(),
            vviews(seen@).no_duplicates(),
            vviews(seen@).to_set() == start + string_set(items@.take(i as int)),
        decreases items.len() - i,
    {
        let c = chars_of(items[i].as_str());
        let mut found = false;
        let mut k: usize = 0;
        while k < seen.len()
            invariant
                k <= seen.len(),
                c@ == items@[i as int]@,
                !found ==> forall|m: int| 0 <= m < k ==> seen@[m]@ != c@,
                found ==> vviews(seen@).contains(c@),
            decreases seen.len() - k,
        {
            if chars_eq(&seen[k], &c) {
                found = true;
                assert(vviews(seen@)[k as int] == c@);
            }
            k = k + 1;
        }
        let ghost before = vviews(seen@);
        proof {
            assert(string_set(items@.take(i as int + 1)) =~= string_set(items@.take(i as int)).insert(
                c@,
            )) by {
                assert forall|s: Seq<char>|
                    string_set(items@.take(i as int + 1)).contains(s) implies string_set(
                    items@.take(i as int),
                ).insert(c@).contains(s) by {
                    let j = choose|j: int|
                        0 <= j < items@.take(i as int + 1).len() && #[trigger] items@.take(
                            i as int + 1,
                        )[j]@ == s;
                    if j < i {
                        assert(items@.take(i as int)[j]@ == s);
                    }
                }
                assert forall|s: Seq<char>|
                    string_set(items@.take(i as int)).insert(c@).contains(s) implies string_set(
                    items@.take(i as int + 1),
                ).contains(s) by {
                    if s == c@ {
                        assert(items@.take(i as int + 1)[i as int]@ == s);
                    } else {
                        let j = choose|j: int|
                            0 <= j < items@.take(i as int).len() && #[trigger] items@.take(
                                i as int,
                            )[j]@ == s;
                        assert(items@.take(i as int + 1)[j]@ == s);
                    }
                }
            }
        }
        if !found {
            seen.push(c);
            proof {
                assert(vviews(seen@) =~= before.push(c@));
                assert(!before.contains(c@)) by {
                    if before.contains(c@) {
                        let m = choose|m: int| 0 <= m < before.len() && before[m] == c@;
                        assert(seen@[m]@ == c@);
                    }
                }
                before.lemma_push_to_set_commute(c@);
                assert forall|a: int, b: int|
                    0 <= a < b < vviews(seen@).len() implies vviews(seen@)[a] != vviews(
                    seen@,
                )[b] by {
                    if b == before.len() {
                        assert(before.contains(before[a]));
                    }
                }
            }
        } else {
            proof {
                assert(vviews(seen@).to_set().insert(c@) =~= vviews(seen@).to_set());
            }
        }
        i = i + 1;
    }
    proof {
        assert(items@.take(items@.len() as int) =~= items@);
    }
}

/// Totals of a plan: task count, distinct modified / created files, distinct
/// renamed directories, and the names of the high-risk tasks.
pub fn summarize(tasks: &Vec<Task>) -> (r: PreviewSummary)
    ensures
        r.task_count == tasks@.len(),
        r.modify_file_count == listed(tasks@, 0).len(),
        r.create_file_count == listed(tasks@, 1).len(),
        r.rename_dir_count == listed(tasks@, 2).len(),
        sviews(r.high_risk_items@) == high_risk_names(tasks@),
{
    let mut modify: Vec<Vec<char>> = Vec::new();
    let mut create: Vec<Vec<char>> = Vec::new();
    let mut dirs: Vec<Vec<char>> = Vec::new();
    let mut high: Vec<String> = Vec::new();
    let mut i: usize = 0;
    proof {
        assert(vviews(modify@).to_set() =~= Set::empty());
        assert(vviews(create@).to_set() =~= Set::empty());
        assert(vviews(dirs@).to_set() =~= Set::empty());
        assert(tasks@.take(0) =~= Seq::<Task>::empty());
    }
    while i < tasks.len()
        invariant
            i <= tasks.len(),
            vviews(modify@).no_duplicates(),
            vviews(create@).no_duplicates(),
            vviews(dirs@).no_duplicates(),
            vviews(modify@).to_set() == listed(tasks@.take(i as int), 0),
            vviews(create@).to_set() == listed(tasks@.take(i as int), 1),
            vviews(dirs@).to_set() == listed(tasks@.take(i as int), 2),
            sviews(high@) == high_risk_names(tasks@.take(i as int)),
        decreases tasks.len() - i,
    {
        let t = &tasks[i];
        add_distinct(&mut modify, &t.affected_files);
        add_distinct(&mut create, &t.created_files);
        add_distinct(&mut dirs, &t.affected_dirs);
        let ghost hb = high@;
        match t.risk_level {
            RiskLevel::High => {
                high.push(t.name.clone());
                proof {
                    assert(sviews(high@) =~= sviews(hb).push(t.name@));
                }
            },
            _ => {},
        }
        proof {
            assert(tasks@.take(i as int + 1).drop_last() =~= tasks@.take(i as int));
            assert(tasks@.take(i as int + 1).last() == tasks@[i as int]);
        }
        i = i + 1;
    }
    proof {
        assert(tasks@.take(tasks@.len() as int) =~= tasks@);
        vviews(modify@).unique_seq_to_set();
        vviews(create@).unique_seq_to_set();
        vviews(dirs@).unique_seq_to_set();
    }
    PreviewSummary {
        task_count: tasks.len(),
        modify_file_count: modify.len(),
        create_file_count: create.len(),
        rename_dir_count: dirs.len(),
        high_risk_items: high,
    }
}

} // verus!
