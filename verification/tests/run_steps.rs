use ruoyi_forge::nacos_yaml::append_whitelist;
use ruoyi_forge::pipeline::{failed_count, finish_event, next_step, run_precheck, RunState, StepAction, StepEvent};
use ruoyi_forge::security::{bcrypt_hash, password_matches};
use ruoyi_forge::task::{TaskResult, TaskStatus};

#[test]
fn precheck_reports_validation_then_empty_output_dir() {
    assert_eq!(run_precheck(Some("新包名不能为空"), "/out"), Some("新包名不能为空".to_string()));
    assert_eq!(run_precheck(None, ""), Some("输出目录不能为空".to_string()));
    assert_eq!(run_precheck(None, "/out"), None);
}

fn begin(zip: bool) -> StepEvent {
    StepEvent::Begin { validation: None, output_dir: "/out".into(), zip }
}

#[test]
fn run_steps_walk_through_a_whole_run() {
    let (s, a) = next_step(&RunState::Start, &begin(true));
    assert_eq!(s, RunState::Preparing);
    assert!(matches!(a, StepAction::Extract));
    let (_, a) = next_step(&RunState::Start, &begin(false));
    assert!(matches!(a, StepAction::Copy));
    let (s, a) = next_step(&s, &StepEvent::Prepared);
    assert_eq!(s, RunState::Moving);
    assert!(matches!(a, StepAction::MoveToOutput));
    let (s, a) = next_step(&s, &StepEvent::Moved);
    assert_eq!(s, RunState::Detecting);
    assert!(matches!(a, StepAction::Detect));
    let (s, a) = next_step(&s, &StepEvent::Detected { refusal: None });
    assert_eq!(s, RunState::Running);
    assert!(matches!(a, StepAction::PlanAndExecute));
    let (s, a) = next_step(&s, &StepEvent::Executed { failed: 2 });
    assert_eq!(s, RunState::Checking { failed: 2 });
    assert!(matches!(a, StepAction::Validate));
    let (s, a) = next_step(&s, &StepEvent::Checked);
    assert_eq!(s, RunState::Reporting { failed: 2 });
    assert!(matches!(a, StepAction::Report));
    let (s, a) = next_step(&s, &StepEvent::Reported);
    assert_eq!(s, RunState::Done);
    assert!(matches!(a, StepAction::Finish { failed: 2 }));
}

#[test]
fn run_steps_stop_abort_and_ignore() {
    let ev = StepEvent::Begin { validation: None, output_dir: String::new(), zip: false };
    let (s, a) = next_step(&RunState::Start, &ev);
    assert_eq!(s, RunState::Done);
    match a {
        StepAction::Stop { message, at_output } => {
            assert_eq!(message, "输出目录不能为空");
            assert!(!at_output);
        }
        _ => panic!("expected Stop"),
    }
    let (s, a) = next_step(&RunState::Detecting, &StepEvent::Detected { refusal: Some("不支持".into()) });
    assert_eq!(s, RunState::Done);
    match a {
        StepAction::Stop { message, at_output } => {
            assert_eq!(message, "不支持");
            assert!(at_output);
        }
        _ => panic!("expected Stop"),
    }
    let (s, a) = next_step(&RunState::Running, &StepEvent::Failed { message: "复制失败".into() });
    assert_eq!(s, RunState::Done);
    match a {
        StepAction::Abort { message } => assert_eq!(message, "复制失败"),
        _ => panic!("expected Abort"),
    }
    let (s, a) = next_step(&RunState::Moving, &StepEvent::Checked);
    assert_eq!(s, RunState::Moving);
    assert!(matches!(a, StepAction::Ignore));
}

fn result(status: TaskStatus) -> TaskResult {
    TaskResult {
        task_id: "01".into(),
        task_name: "t".into(),
        status,
        modified_files: 0,
        created_files: 0,
        renamed_dirs: 0,
        message: String::new(),
    }
}

#[test]
fn closing_event_counts_failed_tasks() {
    let e = finish_event(0, "/x");
    assert_eq!((e.level.as_str(), e.message.as_str()), ("SUCCESS", "改造完成，输出目录：/x"));
    let e = finish_event(2, "/x");
    assert_eq!((e.level.as_str(), e.message.as_str()), ("WARN", "改造完成但有 2 个任务失败，详见报告"));
    let rs = vec![result(TaskStatus::Failed), result(TaskStatus::Success), result(TaskStatus::Failed), result(TaskStatus::Skipped)];
    assert_eq!(failed_count(&rs), 2);
    assert_eq!(failed_count(&vec![]), 0);
}

#[test]
fn bcrypt_hash_verifies_against_its_password() {
    let h = bcrypt_hash("admin123").unwrap();
    assert_eq!(h.len(), 60);
    assert!(h.starts_with("$2a$10$"));
    assert_eq!(password_matches("admin123", &h), Some(true));
    assert_eq!(password_matches("other", &h), Some(false));
    assert_eq!(password_matches("admin123", "not a hash"), None);
}

#[test]
fn whitelist_append_settles_on_plain_text() {
    let yaml = "a: 1\nb: 2\n";
    let once = append_whitelist(yaml, "/webInfo");
    let twice = append_whitelist(&once, "/webInfo");
    assert_eq!(once, twice);
}
