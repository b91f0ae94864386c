use ruoyi_forge::params::{CustomizeParams, ProjectInfo};
use ruoyi_forge::planner::{cloud_runnable_leaf_suffixes, package_to_path, plan_tasks, should_plan_switch_database_dialect, supports_postgresql, PlanFacts};
use ruoyi_forge::rules::{DetectRules, ModuleRules, ReplaceRules, Template, TemplateSet};
use ruoyi_forge::task::{RiskLevel, Task, TaskStatus, TaskType};

fn dummy_info(template_dir: &str) -> ProjectInfo {
    ProjectInfo {
        root_path: "/tmp/p".into(),
        project_type: "test".into(),
        template_dir: template_dir.into(),
        backend_modules: vec![],
        frontend_dirs: vec![],
        config_files: vec![],
        logback_files: vec![],
        generator_template_files: vec![],
    }
}

fn vue_template() -> Template {
    TemplateSet {
        detect: Some(DetectRules {
            name: "RuoYi-Vue".into(),
            required_files: vec!["pom.xml".into()],
            optional_files: vec![],
            config_files: vec![],
            logback_files: vec![],
            generator_template_files: vec![],
        }),
        replace: Some(ReplaceRules { exclude_dirs: vec![], text_extensions: vec![], binary_extensions: vec![] }),
        module: Some(ModuleRules {
            default_prefix: "ruoyi".into(),
            modules: vec!["ruoyi-admin".into()],
            frontend_modules: vec!["ruoyi-ui".into()],
        }),
        config: None,
        generator: None,
    }
    .into_full_template()
    .unwrap()
}

fn no_facts() -> PlanFacts {
    PlanFacts {
        files_with_old_package: vec![],
        modules_with_java_base: vec![],
        pom_files: vec![],
        frontend_files: vec![],
        is_cloud: false,
        cloud_system_module: None,
        db_host: "localhost".into(),
        db_port: "3306".into(),
        cloud_biz_db_name: "ry-cloud".into(),
        current_year: "2026".into(),
        ai_rule_files: vec!["AGENTS.md".into(), "GUIDE.md".into()],
    }
}

fn plan(info: &ProjectInfo, params: &CustomizeParams) -> Vec<Task> {
    plan_tasks(info, params, &vue_template(), &no_facts())
}

#[test]
fn postgresql_not_planned_for_non_vue_template() {
    let mut params = CustomizeParams::default();
    params.db_type = "postgresql".into();

    let ruoyi = dummy_info("ruoyi");
    assert!(!should_plan_switch_database_dialect(&ruoyi, &params));
    let tasks = plan(&ruoyi, &params);
    assert!(!tasks.iter().any(|t| t.task_type == TaskType::SwitchDatabaseDialect), "ruoyi 模板不应规划 PG 方言任务");

    let cloud = dummy_info("ruoyi-cloud");
    assert!(!should_plan_switch_database_dialect(&cloud, &params));
    let tasks = plan(&cloud, &params);
    assert!(!tasks.iter().any(|t| t.task_type == TaskType::SwitchDatabaseDialect), "ruoyi-cloud 模板不应规划 PG 方言任务");

    let vue = dummy_info("ruoyi-vue");
    assert!(should_plan_switch_database_dialect(&vue, &params));
    let tasks = plan(&vue, &params);
    assert!(tasks.iter().any(|t| t.task_type == TaskType::SwitchDatabaseDialect), "ruoyi-vue 应规划 PG 方言任务");
}

#[test]
fn replace_ui_task_name_depends_on_frontend_dirs() {
    let mut params = CustomizeParams::default();
    params.enable_replace_ui = true;
    params.ui_template = "vben-web-ele".into();
    params.new_module_prefix = "demo".into();

    let mut info = dummy_info("ruoyi-vue");
    let tasks = plan(&info, &params);
    let name = tasks.iter().find(|t| t.task_type == TaskType::ReplaceUI).map(|t| t.name.clone()).expect("应规划 ReplaceUI");
    assert!(name.contains("源仓无前端目录") && name.contains("demo-ui"), "无前端目录时应写生成语义，实际：{name}");

    info.frontend_dirs = vec!["ruoyi-ui".into()];
    let tasks = plan(&info, &params);
    let name = tasks.iter().find(|t| t.task_type == TaskType::ReplaceUI).map(|t| t.name.clone()).expect("应规划 ReplaceUI");
    assert!(name.contains("删除原") && name.contains("demo-ui"), "有前端目录时应写删除语义，实际：{name}");
}

#[test]
fn dialect_switch_needs_a_database_other_than_mysql() {
    let mut params = CustomizeParams::default();
    params.db_type = "  MySQL ".into();
    assert!(!should_plan_switch_database_dialect(&dummy_info("ruoyi-vue"), &params));
    params.db_type = "postgresql".into();
    assert!(should_plan_switch_database_dialect(&dummy_info(""), &params));
    assert!(supports_postgresql(""));
    assert!(supports_postgresql("ruoyi-vue"));
    assert!(!supports_postgresql("ruoyi-cloud"));
}

#[test]
fn minimal_plan_lists_the_fixed_tasks_in_order() {
    let mut params = CustomizeParams::default();
    params.original_package = "com.ruoyi".into();
    params.new_package = "com.acme".into();
    params.original_module_prefix = "ruoyi".into();
    params.new_module_prefix = "acme".into();
    params.frontend_title = "Acme".into();
    params.db_type = "mysql".into();
    let mut info = dummy_info("ruoyi-vue");
    info.backend_modules = vec!["ruoyi-admin".into(), "ruoyi-system".into(), "other".into()];
    info.frontend_dirs = vec!["ruoyi-ui".into()];
    let mut facts = no_facts();
    facts.modules_with_java_base = vec!["ruoyi-admin".into()];
    facts.pom_files = vec!["pom.xml".into()];
    let tasks = plan_tasks(&info, &params, &vue_template(), &facts);
    let kinds: Vec<TaskType> = tasks.iter().map(|t| t.task_type.clone()).collect();
    assert_eq!(
        kinds,
        vec![
            TaskType::ReplacePackageName,
            TaskType::MovePackageDirectory,
            TaskType::UpdateMavenPom,
            TaskType::RenameMavenModule,
            TaskType::UpdateFrontendTitle,
            TaskType::GenerateDevScripts,
            TaskType::GenerateDevUiScripts,
            TaskType::GenerateExportSourceScripts,
            TaskType::UpdateAdminPomFinalName,
            TaskType::ValidateProject,
        ]
    );
    let ids: Vec<&str> = tasks.iter().map(|t| t.id.as_str()).collect();
    assert_eq!(ids, vec!["01", "02", "03", "04", "05", "06", "07", "08", "09", "10"]);
    assert_eq!(tasks[0].name, "替换包名 com.ruoyi → com.acme");
    assert_eq!(tasks[1].affected_dirs, vec!["ruoyi-admin/src/main/java/com/ruoyi"]);
    assert_eq!(tasks[1].risk_level, RiskLevel::High);
    assert_eq!(tasks[3].name, "重命名模块目录 ruoyi → acme");
    assert_eq!(tasks[3].affected_dirs, vec!["ruoyi-admin", "ruoyi-system", "ruoyi-ui"]);
    assert_eq!(tasks[4].name, "修改前端标题 → Acme");
    assert_eq!(tasks[5].name, "生成开发脚本（run.sh / run.bat，cd acme-admin）");
    assert_eq!(tasks[8].name, "设置 admin 打包名 → acme-admin.jar");
    assert_eq!(tasks[8].affected_files, vec!["acme-admin/pom.xml"]);
    assert!(tasks.iter().all(|t| t.status == TaskStatus::Pending && t.error_message.is_empty()));
}

#[test]
fn frontend_title_name_lists_copyright_home_and_links() {
    let mut params = CustomizeParams::default();
    params.frontend_title = "T".into();
    params.copyright_year = "2024".into();
    params.copyright_holder = "Acme".into();
    params.enable_clear_home = true;
    params.enable_remove_github = true;
    params.enable_remove_docs = true;
    let tasks = plan(&dummy_info("ruoyi-vue"), &params);
    let t = tasks.iter().find(|t| t.task_type == TaskType::UpdateFrontendTitle).unwrap();
    assert_eq!(t.name, "修改前端标题 → T，替换版权（2024 Acme），清空首页，移除顶部栏github/文档外链");
    params.enable_remove_github = false;
    let tasks = plan(&dummy_info("ruoyi-vue"), &params);
    let t = tasks.iter().find(|t| t.task_type == TaskType::UpdateFrontendTitle).unwrap();
    assert_eq!(t.name, "修改前端标题 → T，替换版权（2024 Acme），清空首页，移除顶部栏文档外链");
}

#[test]
fn cloud_plan_uses_nacos_trim_and_per_service_scripts() {
    let mut params = CustomizeParams::default();
    params.new_module_prefix = "acme".into();
    params.new_package = "com.acme".into();
    params.enable_sql_customize = true;
    params.enable_mybatis_plus = true;
    params.remove_modules = vec!["job".into(), " File ".into()];
    params.new_modules = vec!["Shop".into(), "auth".into(), "shop".into()];
    let mut facts = no_facts();
    facts.is_cloud = true;
    let tasks = plan_tasks(&dummy_info("ruoyi-cloud"), &params, &vue_template(), &facts);
    let nacos = tasks.iter().find(|t| t.task_type == TaskType::RewriteNacosConfig).unwrap();
    assert_eq!(nacos.name, "Nacos 配置定制（连接 localhost:3306）");
    let mp = tasks.iter().find(|t| t.task_type == TaskType::AddMybatisPlusConfig).unwrap();
    assert_eq!(mp.created_files, vec!["com/acme/system/config/MybatisPlusConfig.java"]);
    let trim = tasks.iter().find(|t| t.task_type == TaskType::TrimCloudModules).unwrap();
    assert_eq!(trim.name, "裁剪微服务模块：job、 File ");
    assert_eq!(trim.affected_dirs, vec!["ruoyi-modules/ruoyi-job", "ruoyi-modules/ruoyi- File "]);
    let sql = tasks.iter().find(|t| t.task_type == TaskType::CustomizeSqlScripts).unwrap();
    assert_eq!(sql.name, "定制 SQL 初始化脚本：库名 → ry-cloud，连接 localhost:3306");
    let new_mods = tasks.iter().find(|t| t.task_type == TaskType::GenerateNewModules).unwrap();
    assert_eq!(new_mods.name, "生成业务模块：shop、auth");
    assert_eq!(new_mods.affected_dirs, vec!["acme-modules/acme-shop", "acme-modules/acme-auth"]);
    let dev = tasks.iter().find(|t| t.task_type == TaskType::GenerateDevScripts).unwrap();
    assert_eq!(
        dev.created_files,
        vec![
            "run.sh", "run.bat", "run.ps1", "run-gateway.sh", "run-gateway.bat", "run-auth.sh", "run-auth.bat",
            "run-system.sh", "run-system.bat", "run-gen.sh", "run-gen.bat", "run-monitor.sh", "run-monitor.bat",
            "run-shop.sh", "run-shop.bat",
        ]
    );
    let fin = tasks.iter().find(|t| t.task_type == TaskType::UpdateAdminPomFinalName).unwrap();
    assert_eq!(fin.affected_files, vec!["*-gateway/pom.xml", "*-auth/pom.xml", "*-modules/*-system/pom.xml"]);
}

#[test]
fn optional_tasks_follow_their_switches() {
    let mut params = CustomizeParams::default();
    params.new_module_prefix = "acme".into();
    params.new_package = "com.acme".into();
    params.enable_uniapp = true;
    params.pay_included = true;
    params.enable_oss = true;
    params.oss_provider = "minio".into();
    params.enable_security = true;
    params.enable_jwt = true;
    params.clean_demo_users = true;
    params.enable_footer_icp = true;
    params.copyright_year = "x".into();
    params.enable_nginx_config = true;
    params.server_port = 8080;
    params.use_https = true;
    params.enable_sql_customize = true;
    params.admin_username = "root".into();
    params.admin_nickname = "若依".into();
    params.enable_report = true;
    params.enable_ai_rules = true;
    let mut info = dummy_info("ruoyi-vue");
    info.backend_modules = vec!["ruoyi-common".into(), "ruoyi-admin".into()];
    let tasks = plan(&info, &params);
    let find = |k: TaskType| tasks.iter().find(|t| t.task_type == k).unwrap().clone();
    assert_eq!(find(TaskType::GenerateUniappProject).created_files, vec!["acme-uniapp/package.json"]);
    assert_eq!(find(TaskType::AppendWechatConfig).name, "追加微信小程序 + 支付配置到 application.yaml");
    assert_eq!(find(TaskType::AddWechatPayDependency).name, "注入微信支付官方 SDK 依赖（wechatpay-java:0.2.17）");
    assert_eq!(find(TaskType::AddWechatPayDependency).affected_files, vec!["ruoyi-admin/pom.xml"]);
    assert_eq!(
        find(TaskType::AddWechatPayConfig).created_files,
        vec!["com/acme/framework/config/WxPayProperties.java", "com/acme/framework/config/WechatPayConfig.java"]
    );
    let oss = find(TaskType::SetupOss);
    assert_eq!(oss.name, "OSS 集成：MinIO（依赖 + 配置类 + 上传接口）");
    assert_eq!(oss.created_files[2], "com/acme/framework/config/../web/controller/common/OssController.java");
    assert_eq!(find(TaskType::ApplySecurityHardening).name, "安全加固：admin 密码（未修改）：清除演示账号：JWT secret（随机生成）");
    assert_eq!(find(TaskType::CustomizeWebFooter).name, "页脚版权与 ICP 备案定制（起始年 2026，备案号配置于 application.yaml）");
    assert_eq!(find(TaskType::GenerateNginxConfig).name, "生成 Nginx 反向代理配置（端口 8080，HTTPS）");
    assert_eq!(find(TaskType::RenameAdminAccount).name, "管理员账号定制：账号 admin → root");
    assert_eq!(find(TaskType::CustomizeSqlScripts).name, "定制 SQL 初始化脚本：库名 → acme，连接 localhost:3306");
    assert_eq!(tasks.last().unwrap().task_type, TaskType::GenerateReport);
    let ai = find(TaskType::GenerateAiRules);
    assert_eq!(ai.name, "生成 AI 规范文件（AGENTS.md + GUIDE.md）");
    assert_eq!(ai.created_files, vec!["AGENTS.md", "GUIDE.md"]);
}

#[test]
fn mybatis_plus_config_path_on_the_single_app() {
    let mut params = CustomizeParams::default();
    params.new_package = "com.acme".into();
    params.enable_mybatis_plus = true;
    let tasks = plan(&dummy_info("ruoyi-vue"), &params);
    let mp = tasks.iter().find(|t| t.task_type == TaskType::AddMybatisPlusConfig).unwrap();
    assert_eq!(mp.created_files, vec!["com/acme/framework/config/framework/config/MybatisPlusConfig.java"]);
}

#[test]
fn package_path_pushes_each_piece() {
    assert_eq!(package_to_path("com.acme.app").iter().collect::<String>(), "com/acme/app");
    assert_eq!(package_to_path("").iter().collect::<String>(), "");
    assert_eq!(package_to_path("com..x").iter().collect::<String>(), "com/x");
    let s: Vec<String> = cloud_runnable_leaf_suffixes();
    assert_eq!(s, vec!["gateway", "auth", "system", "gen", "job", "file", "monitor"]);
}
