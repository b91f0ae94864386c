use ruoyi_forge::params::{CustomizeParams, ProjectInfo};
use ruoyi_forge::report::report_markdown;
use ruoyi_forge::security::{
    bcrypt_hash, demo_mode_disabled, disable_register, harden_sql_script, remove_demo_users,
    replace_admin_password,
};
use ruoyi_forge::task::{TaskResult, TaskStatus};
use ruoyi_forge::validator::{CheckItem, CheckResult};

const SQL: &str = "insert into sys_user values(1, 103, 'admin', '若依', '00', 'ry@163.com', '15888888888', '1', '', '$2a$10$old', '0', '0');\ninsert into sys_user values(2, 105, 'ry', '若依', '00', 'ry@qq.com', '15666666666', '1', '', '$2a$10$old', '0', '0');\nupdate sys_user set password = '$2a$10$old' where login_name = 'admin';\ninsert into sys_config values(5, '账号自助-是否开启用户注册功能', 'sys.account.registerUser', 'true', 'Y');\ninsert into sys_config (config_key, config_value) values ('x', 'y'), ('sys.account.registerUser', config_value = 'true');\n";

#[test]
fn bcrypt_hash_is_spring_compatible() {
    let h = bcrypt_hash("admin123").unwrap();
    assert_eq!(h.len(), 60);
    assert!(h.starts_with("$2a$10$"));
    assert_ne!(h, bcrypt_hash("admin123").unwrap(), "每次盐值不同");
}

#[test]
fn admin_password_statement_gets_new_hash() {
    let mut c = SQL.to_string();
    assert!(replace_admin_password(&mut c, "$2a$10$NEW$x"));
    assert!(c.contains("update sys_user set password = '$2a$10$NEW$x' where login_name = 'admin';"));
    let mut none = "select 1;".to_string();
    assert!(!replace_admin_password(&mut none, "h"));
    assert_eq!(none, "select 1;");
}

#[test]
fn registration_switched_off() {
    let mut c = "values ('sys.account.registerUser', config_value = 'true');".to_string();
    assert!(disable_register(&mut c));
    assert_eq!(c, "values ('sys.account.registerUser', config_value = 'false');");
    assert!(!disable_register(&mut c), "已关闭时不再改动");
}

#[test]
fn demo_accounts_removed() {
    let mut c = SQL.to_string();
    let n = remove_demo_users(&mut c);
    assert_eq!(n, 1);
    assert!(!c.contains("'ry', '若依'"));
    assert!(c.contains("'admin'"));
    let mut d = "select 1;".to_string();
    assert_eq!(remove_demo_users(&mut d), 0);
}

#[test]
fn demo_mode_turned_off() {
    assert_eq!(demo_mode_disabled("ruoyi:\n  demoEnabled: true\n  x: trueish\n"), "ruoyi:\n  demoEnabled: false\n  x: trueish\n");
    assert_eq!(demo_mode_disabled("demoEnabled : truex"), "demoEnabled : truex");
}

#[test]
fn hardening_one_script() {
    let (out, admin, reg, n) = harden_sql_script(SQL, Some("$2a$10$H"), true);
    assert!(admin);
    assert!(reg);
    assert_eq!(n, 1);
    assert!(out.contains("password = '$2a$10$H'"));
    let (out2, admin2, _, n2) = harden_sql_script(SQL, None, false);
    assert!(!admin2);
    assert_eq!(n2, 0);
    assert!(out2.contains("'ry', '若依'"));
}

#[test]
fn report_lists_params_tasks_totals_and_checks() {
    let info = ProjectInfo {
        root_path: "/p".into(),
        project_type: "RuoYi-Vue".into(),
        template_dir: "ruoyi-vue".into(),
        backend_modules: vec!["ruoyi-admin".into(), "ruoyi-system".into()],
        frontend_dirs: vec![],
        config_files: vec![],
        logback_files: vec![],
        generator_template_files: vec![],
    };
    let mut p = CustomizeParams::default();
    p.original_package = "com.ruoyi".into();
    p.new_package = "com.acme".into();
    p.enable_mybatis_plus = true;
    let results = vec![
        TaskResult {
            task_id: "01".into(),
            task_name: "安全加固：admin".into(),
            status: TaskStatus::Success,
            modified_files: 2,
            created_files: 1,
            renamed_dirs: 0,
            message: "密码已改".into(),
        },
        TaskResult {
            task_id: "02".into(),
            task_name: "替换包名".into(),
            status: TaskStatus::Failed,
            modified_files: 10,
            created_files: 0,
            renamed_dirs: 3,
            message: "x".into(),
        },
    ];
    let checks = vec![CheckItem { item: "残留".into(), result: CheckResult::Warn, message: "2 处".into() }];
    let md = report_markdown(&info, &p, &results, &checks, "2026-01-01T00:00:00+08:00");
    assert!(md.starts_with("# 若依锻造台 执行报告\n\n生成时间：2026-01-01T00:00:00+08:00\n\n## 项目信息\n\n- 项目路径：/p\n"));
    assert!(md.contains("- 后端模块：ruoyi-admin、ruoyi-system\n- 前端目录：\n"));
    assert!(md.contains("- MyBatis-Plus：开启\n- 配置文件重构：关闭\n"));
    assert!(md.contains("- UniApp 小程序：未启用\n"));
    assert!(md.contains("\n## 安全加固 & SQL 定制结果\n\n"));
    assert!(md.contains("- 密码已改\n"));
    assert!(md.contains("| 01 | 安全加固：admin | ✅ 成功 | 2 | 1 | 0 | 密码已改 |\n"));
    assert!(md.contains("| 02 | 替换包名 | ❌ 失败 | 10 | 0 | 3 | x |\n"));
    assert!(md.contains("- 修改文件总数：12\n- 新增文件总数：1\n- 重命名目录总数：3\n"));
    assert!(md.contains("| 残留 | ⚠️ WARN | 2 处 |\n"));
    assert!(md.ends_with("- 建议在 IDE 中刷新 Maven 并检查依赖树。\n"));
    let quiet = report_markdown(&info, &p, &vec![], &vec![], "t");
    assert!(!quiet.contains("安全加固 & SQL"));
}
