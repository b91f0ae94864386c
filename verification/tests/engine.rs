use ruoyi_forge::pipeline::LogEvent;
use ruoyi_forge::rules::{
    ConfigRules, DetectRules, GeneratorRules, GeneratorTemplateFiles, ModuleEngine, ModuleRules,
    ReplaceEngine, ReplaceRules, TemplateLoadError, TemplateSet,
};
use ruoyi_forge::task::{summarize, RiskLevel, Task, TaskStatus, TaskType};

fn rules() -> ReplaceRules {
    ReplaceRules {
        exclude_dirs: vec!["node_modules".into(), ".git".into()],
        text_extensions: vec!["java".into(), "XML".into()],
        binary_extensions: vec!["png".into()],
    }
}

#[test]
fn replace_engine_classifies_names() {
    let e = ReplaceEngine::new(rules());
    assert!(e.is_excluded_dir(".git"));
    assert!(!e.is_excluded_dir("src"));
    assert!(e.is_text_extension("JAVA"));
    assert!(e.is_text_extension("xml"));
    assert!(!e.is_text_extension("png"));
    assert!(e.is_binary_extension("PNG"));
}

#[test]
fn replace_package_counts_both_forms() {
    let e = ReplaceEngine::new(rules());
    let (out, n) = e.replace_package(
        "package com.ruoyi.system; // com/ruoyi/x com.ruoyi",
        "com.ruoyi",
        "com.acme",
        "com/ruoyi",
        "com/acme",
    );
    assert_eq!(out, "package com.acme.system; // com/acme/x com.acme");
    assert_eq!(n, 3);
    let (out, n) = e.replace_package("abc", "", "x", "b", "b");
    assert_eq!((out.as_str(), n), ("abc", 0));
}

#[test]
fn replace_prefix_dashed_only_touches_dashed_form() {
    let e = ReplaceEngine::new(rules());
    let (out, n) = e.replace_prefix_dashed("ruoyi-admin ruoyi ruoyi-ui", "ruoyi", "demo");
    assert_eq!(out, "demo-admin ruoyi demo-ui");
    assert_eq!(n, 2);
    let (out, n) = e.replace_prefix_dashed("ruoyi-admin", "ruoyi", "ruoyi");
    assert_eq!((out.as_str(), n), ("ruoyi-admin", 0));
}

#[test]
fn module_engine_renames_first_prefix() {
    let m = ModuleEngine::new(ModuleRules {
        default_prefix: "ruoyi".into(),
        modules: vec![],
        frontend_modules: vec![],
    });
    assert_eq!(m.rename_module("ruoyi-admin", "demo"), "demo-admin");
    assert_eq!(m.rename_module("ruoyi-ruoyi", "demo"), "demo-ruoyi");
    assert_eq!(m.rename_module("admin", "demo"), "admin");
}

fn detect() -> DetectRules {
    DetectRules {
        name: "RuoYi-Vue".into(),
        required_files: vec!["pom.xml".into()],
        optional_files: vec![],
        config_files: vec![],
        logback_files: vec![],
        generator_template_files: vec![],
    }
}

#[test]
fn full_template_needs_detect_module_replace_and_defaults_the_rest() {
    let set = TemplateSet {
        detect: Some(detect()),
        replace: Some(rules()),
        module: Some(ModuleRules {
            default_prefix: "ruoyi".into(),
            modules: vec![],
            frontend_modules: vec![],
        }),
        config: None,
        generator: None,
    };
    let t = set.clone().into_full_template().expect("complete");
    assert_eq!(t.name, "RuoYi-Vue");
    assert_eq!(t.config.target_files, vec!["application.yaml", "application-dev.yaml", "application-prod.yaml"]);
    assert_eq!(t.config.active_profile, "dev");
    assert!(!t.generator.enable_mybatis_plus_templates);
    let mut partial = set;
    partial.replace = None;
    assert!(partial.into_full_template().is_none());
    let cfg = ConfigRules {
        target_files: vec![],
        legacy_druid_files: vec![],
        active_profile: "prod".into(),
        log_path_value: "/var/log".into(),
    };
    let generator = GeneratorRules {
        enable_mybatis_plus_templates: true,
        enable_long_id_json_string: false,
        template_files: GeneratorTemplateFiles {
            domain: "d".into(),
            mapper: "m".into(),
            service: "s".into(),
            service_impl: "i".into(),
            xml_mapper: "x".into(),
        },
        long_id_annotation: String::new(),
    };
    let set = TemplateSet {
        detect: Some(detect()),
        replace: Some(rules()),
        module: Some(ModuleRules {
            default_prefix: "ruoyi".into(),
            modules: vec![],
            frontend_modules: vec![],
        }),
        config: Some(cfg),
        generator: Some(generator),
    };
    let t = set.into_full_template().unwrap();
    assert_eq!(t.config.active_profile, "prod");
    assert!(t.generator.enable_mybatis_plus_templates);
}

#[test]
fn template_load_error_messages() {
    let e = TemplateLoadError::Read("detect.json".into(), "denied".into());
    assert_eq!(e.message(), "读取模板文件 detect.json 失败: denied");
    let e = TemplateLoadError::Parse("module-rules.json".into(), "eof".into());
    assert_eq!(e.message(), "解析模板文件 module-rules.json 失败: eof");
}

fn task(name: &str, risk: RiskLevel, files: &[&str], created: &[&str], dirs: &[&str]) -> Task {
    Task {
        id: "01".into(),
        name: name.into(),
        task_type: TaskType::ReplacePackageName,
        risk_level: risk,
        affected_files: files.iter().map(|s| s.to_string()).collect(),
        affected_dirs: dirs.iter().map(|s| s.to_string()).collect(),
        created_files: created.iter().map(|s| s.to_string()).collect(),
        status: TaskStatus::Pending,
        error_message: String::new(),
    }
}

#[test]
fn summarize_counts_distinct_paths_and_high_risk_names() {
    let tasks = vec![
        task("替换包名", RiskLevel::High, &["a", "b", "a"], &["x"], &["d1"]),
        task("改标题", RiskLevel::Low, &["b", "c"], &["x", "y"], &[]),
        task("移动目录", RiskLevel::High, &[], &[], &["d1", "d2"]),
    ];
    let s = summarize(&tasks);
    assert_eq!(s.task_count, 3);
    assert_eq!(s.modify_file_count, 3);
    assert_eq!(s.create_file_count, 2);
    assert_eq!(s.rename_dir_count, 2);
    assert_eq!(s.high_risk_items, vec!["替换包名".to_string(), "移动目录".to_string()]);
    let empty = summarize(&vec![]);
    assert_eq!((empty.task_count, empty.modify_file_count), (0, 0));
}

#[test]
fn log_events_carry_level_and_message() {
    let e = LogEvent::info("开始".to_string());
    assert_eq!((e.level.as_str(), e.message.as_str()), ("INFO", "开始"));
    assert_eq!(LogEvent::warn("w".into()).level, "WARN");
    assert_eq!(LogEvent::error("e".into()).level, "ERROR");
    assert_eq!(LogEvent::success("s".into()).level, "SUCCESS");
}
