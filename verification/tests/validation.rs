use ruoyi_forge::check_items::{
    bootstrap_anchor_check, cloud_biz_script_check, cloud_config_script_check, cloud_datasource_check,
    config_file_check, console_link_checks, has_nacos_anchor, holds_old_module_prefix, is_biz_sql_name,
    logback_verdict, module_residue_check, package_residue_check, pom_names_mp_starter, push_ui_placeholder_residue,
    removed_module_leftover, removed_modules_check, transcoded_check, ui_files_check, ui_placeholder_check,
    undecodable_check, uniapp_files_check, uniapp_placeholder_residue,
};
use ruoyi_forge::validator::{ui_template_spec, CheckResult};

fn strings(v: &[&str]) -> Vec<String> {
    v.iter().map(|s| s.to_string()).collect()
}

#[test]
fn package_residue_lists_first_five() {
    let ok = package_residue_check(&vec![]);
    assert_eq!(ok.result, CheckResult::Pass);
    assert_eq!(ok.message, "未发现旧包名残留");
    let files = strings(&["a", "b", "c", "d", "e", "f", "g"]);
    let warn = package_residue_check(&files);
    assert_eq!(warn.result, CheckResult::Warn);
    assert_eq!(warn.message, "7 个文件仍含旧包名：a、b、c、d、e");
    assert_eq!(module_residue_check(3).message, "3 个文件仍含旧模块前缀");
    assert!(holds_old_module_prefix("pom.xml", "<artifactId>ruoyi-common</artifactId>", "ruoyi"));
    assert!(holds_old_module_prefix("start.sh", "java -jar ruoyi-admin.jar", "ruoyi"));
    assert!(!holds_old_module_prefix("App.java", "ruoyi-admin", "ruoyi"));
}

#[test]
fn config_and_logback_items() {
    assert_eq!(config_file_check("application.yaml", true, true).result, CheckResult::Pass);
    let w = config_file_check("application-dev.yaml", true, false);
    assert_eq!(w.result, CheckResult::Warn);
    assert_eq!(w.message, "存在但 YAML 不合法");
    assert_eq!(w.item, "配置文件 application-dev.yaml");
    assert_eq!(config_file_check("x", false, false).message, "不存在");
    assert_eq!(logback_verdict("<property name=\"log.path\" value=\"logs\" />"), Some(true));
    assert_eq!(logback_verdict("<property name=\"log.path\" value=\"/home/ruoyi/logs\" />"), Some(false));
    assert_eq!(logback_verdict("<configuration/>"), None);
    assert!(pom_names_mp_starter("<artifactId>mybatis-plus-spring-boot3-starter</artifactId>"));
    assert!(!pom_names_mp_starter("<artifactId>mybatis-spring-boot-starter</artifactId>"));
}

#[test]
fn uniapp_items() {
    let ok = uniapp_files_check("demo", &vec![]);
    assert_eq!(ok.message, "demo-uniapp 目录结构完整");
    let bad = uniapp_files_check("demo", &strings(&["App.vue", "main.js"]));
    assert_eq!(bad.result, CheckResult::Fail);
    assert_eq!(bad.message, "缺少文件：App.vue、main.js");
    assert_eq!(
        uniapp_placeholder_residue("env.js", "base: '{{API_BASE_URL_DEV}}', name: '{{PROJECT_NAME}}'").as_deref(),
        Some("env.js 含 {{PROJECT_NAME}}")
    );
    assert!(uniapp_placeholder_residue("env.js", "base: 'http://x'").is_none());
}

#[test]
fn arco_ui_complete_passes() {
    let spec = ui_template_spec("arco");
    let files = ui_files_check("demo", spec.structure_desc, &vec![]);
    assert_eq!(files.result, CheckResult::Pass);
    assert!(files.message.contains("Arco 单包工程"));
    let residue: Vec<String> = Vec::new();
    assert_eq!(ui_placeholder_check(&residue).result, CheckResult::Pass);
}

#[test]
fn arco_ui_missing_vite_config_fails() {
    let spec = ui_template_spec("arco");
    let files = ui_files_check("demo", spec.structure_desc, &strings(&["vite.config.ts"]));
    assert_eq!(files.result, CheckResult::Fail);
    assert!(files.message.contains("vite.config.ts"));
}

#[test]
fn arco_ui_placeholder_residue_fails() {
    let mut residue: Vec<String> = Vec::new();
    push_ui_placeholder_residue(&mut residue, ".env", "VITE_APP_TITLE={{FRONTEND_TITLE}}\n");
    push_ui_placeholder_residue(&mut residue, "vite.config.ts", "export default {}");
    let item = ui_placeholder_check(&residue);
    assert_eq!(item.result, CheckResult::Fail);
    assert!(item.message.contains("{{FRONTEND_TITLE}}"));
    assert_eq!(item.message, ".env 含 {{FRONTEND_TITLE}}");
    push_ui_placeholder_residue(&mut residue, "b", "{{COPYRIGHT_YEAR}} {{FRONTEND_TITLE}}");
    assert_eq!(
        ui_placeholder_check(&residue).message,
        ".env 含 {{FRONTEND_TITLE}}；b 含 {{FRONTEND_TITLE}}；b 含 {{COPYRIGHT_YEAR}}"
    );
}

#[test]
fn encoding_items() {
    assert_eq!(transcoded_check(&vec![]).message, "全部文本文件均为 UTF-8");
    let t = transcoded_check(&strings(&["a.java"]));
    assert_eq!(t.result, CheckResult::Warn);
    assert!(t.message.starts_with("1 个文件已按 GBK 转码并统一写回 UTF-8：a.java；"));
    let u = undecodable_check(&strings(&["x.sql", "y.sql"]));
    assert_eq!(u.result, CheckResult::Fail);
    assert_eq!(u.message, "2 个文件无法按 UTF-8/GBK 解码，未参与文本替换，需人工处理：x.sql、y.sql");
}

#[test]
fn cloud_script_items() {
    assert!(is_biz_sql_name("RY_20250523.SQL"));
    assert!(!is_biz_sql_name("ry_config_20250902.sql"));
    assert!(!is_biz_sql_name("ry_seata_20210128.sql"));
    assert!(!is_biz_sql_name("quartz.sql"));
    let none = cloud_biz_script_check("shop", None, true);
    assert_eq!(none.message, "未找到业务库脚本 sql/ry_*.sql");
    let kept = cloud_biz_script_check("ry-cloud", Some("create database `ry-cloud`"), true);
    assert_eq!(kept.result, CheckResult::Pass);
    assert_eq!(kept.message, "业务库脚本保持官方默认 ry-cloud");
    let done = cloud_biz_script_check("shop", Some("create database `shop`"), true);
    assert_eq!(done.message, "业务库脚本已替换为 shop");
    let stale = cloud_biz_script_check("shop", Some("use `ry-cloud`; shop"), true);
    assert_eq!(stale.result, CheckResult::Fail);
    assert_eq!(stale.message, "业务库脚本尚未将 ry-cloud 替换为 shop");
    assert_eq!(
        cloud_biz_script_check("shop", Some(""), false).message,
        "业务库脚本存在（未开启 SQL 定制，不检查库名）"
    );
    let cfg = cloud_config_script_check("shop-config", Some("CREATE DATABASE `shop-config`"), true);
    assert_eq!(cfg.item, "Cloud 配置库脚本");
    assert_eq!(cfg.message, "配置库脚本已替换为 shop-config");
    let cfg_bad = cloud_config_script_check("ry_config", Some("nothing"), true);
    assert_eq!(cfg_bad.message, "配置库脚本缺少官方库名 ry-config");
}

#[test]
fn cloud_datasource_item() {
    let raw = "url: jdbc:mysql://127.0.0.1:3306/shop?useSSL=false\\n    username: root\\n";
    let ok = cloud_datasource_check("127.0.0.1", "3306", "shop", "root", Some(raw), &vec![]);
    assert_eq!(ok.result, CheckResult::Pass);
    assert_eq!(ok.message, "配置库数据源已指向 jdbc:mysql://127.0.0.1:3306/shop");
    let no_user = cloud_datasource_check("127.0.0.1", "3306", "shop", "admin", Some(raw), &vec![]);
    assert_eq!(no_user.message, "配置库脚本未见数据源账号 admin");
    let parsed = strings(&["spring:\n  datasource:\n    username: \"admin\"\n"]);
    let via_config = cloud_datasource_check("127.0.0.1", "3306", "shop", "admin", Some(raw), &parsed);
    assert_eq!(via_config.result, CheckResult::Pass);
    let no_url = cloud_datasource_check("db", "3306", "shop", "", Some(raw), &vec![]);
    assert_eq!(no_url.message, "配置库脚本未见数据源 jdbc:mysql://db:3306/shop");
    assert_eq!(
        cloud_datasource_check("db", "3306", "shop", "", None, &vec![]).message,
        "未找到配置库脚本，无法核验数据源连接"
    );
}

#[test]
fn cloud_bootstrap_console_and_leftovers() {
    assert!(has_nacos_anchor("spring:\n  cloud:\n    nacos:\n"));
    assert!(!has_nacos_anchor("server:\n  port: 9201\n"));
    assert_eq!(bootstrap_anchor_check(0, &vec![]).message, "未找到 bootstrap.yml");
    assert_eq!(
        bootstrap_anchor_check(3, &vec![]).message,
        "3 个 bootstrap 仍含 nacos 锚点（shared-configs 或 nacos: import）"
    );
    let miss = bootstrap_anchor_check(2, &strings(&["a/bootstrap.yml"]));
    assert_eq!(miss.result, CheckResult::Fail);
    assert_eq!(miss.message, "bootstrap 缺失 nacos 锚点：a/bootstrap.yml");
    let links = console_link_checks("'http://localhost:8848/nacos' 'http://localhost:8080/swagger-ui'");
    assert_eq!(links.len(), 2);
    assert_eq!(links[0].result, CheckResult::Fail);
    assert_eq!(links[1].item, "Cloud 系统接口链接");
    let fixed = console_link_checks("'http://127.0.0.1:8848/nacos'");
    assert_eq!(fixed.len(), 1);
    assert_eq!(fixed[0].result, CheckResult::Pass);
    assert!(console_link_checks("nothing").is_empty());
    assert!(removed_module_leftover(" Monitor ", "pom.xml", "<module>ruoyi-visual</module>", "demo"));
    assert!(removed_module_leftover("gen", "pom.xml", "<module>demo-gen</module>", "demo"));
    assert!(removed_module_leftover("gen", "ry_config.sql", "'ruoyi-gen-dev.yml'", "demo"));
    assert!(!removed_module_leftover("gen", "pom.xml", "ruoyi-gen-dev.yml", "demo"));
    assert!(!removed_module_leftover("gen", "a.yml", "<module>ruoyi-gen</module>", "demo"));
    assert_eq!(removed_modules_check(2).message, "2 处仍有被裁模块残留");
    assert_eq!(removed_modules_check(0).result, CheckResult::Pass);
}
