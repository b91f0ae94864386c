use ruoyi_forge::new_module::{insert_admin_dependency, upsert_module_tag, PomUpdate};
use ruoyi_forge::validator::{
    gen_mapper_check, generated_module_check, GeneratedModuleFiles, is_postgresql_init_script, mysql_driver_check, postgresql_profile_checks, CheckResult,
};

#[test]
fn module_tag_upsert_settles_after_one_update() {
    let pom = "<project>\n  <modules>\n    <module>a-common</module>\n  </modules>\n</project>\n";
    let once = match upsert_module_tag(pom, "a-shop") {
        PomUpdate::Updated(t) => t,
        other => panic!("{other:?}"),
    };
    assert!(once.contains("<module>a-shop</module>"));
    assert!(matches!(upsert_module_tag(&once, "a-shop"), PomUpdate::Present));
}

#[test]
fn admin_dependency_settles_without_dependencies_section() {
    let admin = "<project>\n  <artifactId>a-admin</artifactId>\n</project>";
    let once = match insert_admin_dependency(admin, "com.a", "a-shop") {
        PomUpdate::Updated(t) => t,
        other => panic!("{other:?}"),
    };
    assert_eq!(
        once,
        "<project>\n  <artifactId>a-admin</artifactId>\n    <dependencies>\n        <dependency>\n            <groupId>com.a</groupId>\n            <artifactId>a-shop</artifactId>\n        </dependency>\n    </dependencies>\n</project>"
    );
    assert!(matches!(insert_admin_dependency(&once, "com.a", "a-shop"), PomUpdate::Present));
}

#[test]
fn prioritized_modules_are_a_sorted_reordering() {
    let mods: Vec<String> = vec!["x-api", "x-admin", "x-common", "x-system", "y-common", "x-framework"]
        .into_iter()
        .map(String::from)
        .collect();
    let out = ruoyi_forge::oss::prioritize_modules(&mods);
    assert_eq!(out, vec!["x-common", "y-common", "x-framework", "x-admin", "x-api", "x-system"]);
    let mut a = out.clone();
    a.sort();
    let mut b = mods.clone();
    b.sort();
    assert_eq!(a, b);
    let named = ruoyi_forge::snowflake::prioritize_modules(&vec!["admin-x".to_string(), "common-core".to_string()]);
    assert_eq!(named, vec!["common-core", "admin-x"]);
}

#[test]
fn postgresql_profile_url_and_driver() {
    let good = "spring:\n  datasource:\n    url: jdbc:postgresql://localhost:5432/ry\n    driverClassName: org.postgresql.Driver\n";
    let (url, drv) = postgresql_profile_checks("application-dev.yml", good);
    assert_eq!(url.item, "PostgreSQL 数据源 url（application-dev.yml）");
    assert_eq!(url.result, CheckResult::Pass);
    assert_eq!(url.message, "url 以 jdbc:postgresql:// 开头");
    assert_eq!(drv.item, "PostgreSQL 驱动（application-dev.yml）");
    assert_eq!(drv.result, CheckResult::Pass);
    assert_eq!(drv.message, "driverClassName 为 org.postgresql.Driver");
    let bad = "url: jdbc:mysql://localhost/ry\n# url: jdbc:postgresql://x\n";
    let (url, drv) = postgresql_profile_checks("application-prod.yml", bad);
    assert_eq!(url.result, CheckResult::Fail);
    assert_eq!(url.message, "url 不是 jdbc:postgresql://");
    assert_eq!(drv.result, CheckResult::Fail);
    assert_eq!(drv.message, "未找到 org.postgresql.Driver");
    let (url, _) = postgresql_profile_checks("f", "");
    assert_eq!(url.result, CheckResult::Fail);
}

#[test]
fn mysql_driver_and_mapper_checks() {
    let ok = mysql_driver_check(0);
    assert_eq!(ok.result, CheckResult::Pass);
    assert_eq!(ok.message, "未发现 mysql-connector-j / mysql-connector-java");
    let warn = mysql_driver_check(12);
    assert_eq!(warn.result, CheckResult::Warn);
    assert_eq!(warn.message, "12 个 pom 仍含 MySQL 驱动坐标");
    assert_eq!(warn.item, "pom 不再声明 MySQL 驱动");
    let stale = gen_mapper_check("where table_schema = (select database())");
    assert_eq!(stale.result, CheckResult::Fail);
    assert_eq!(stale.message, "GenTableMapper.xml 仍含 (select database())");
    let fixed = gen_mapper_check("where table_schema = current_schema()");
    assert_eq!(fixed.result, CheckResult::Pass);
}

#[test]
fn postgresql_init_script_recognition() {
    assert!(is_postgresql_init_script("ry_20250522.sql", "-- RuoYi-Vue PostgreSQL\ncreate table x();"));
    assert!(is_postgresql_init_script("RY-Vue.SQL", "id int8 GENERATED BY DEFAULT AS IDENTITY"));
    assert!(!is_postgresql_init_script("ry_20250522.sql", "CREATE TABLE x (id bigint AUTO_INCREMENT);"));
    assert!(!is_postgresql_init_script("ry.bak.sql", "-- RuoYi-Vue PostgreSQL"));
    assert!(!is_postgresql_init_script("quartz.sql", "-- RuoYi-Vue PostgreSQL"));
}

fn params_with_prefix(prefix: &str) -> ruoyi_forge::params::CustomizeParams {
    let mut p = ruoyi_forge::params::CustomizeParams::default();
    p.new_module_prefix = prefix.into();
    p
}

#[test]
fn generated_module_check_vue_and_cloud() {
    let files = GeneratedModuleFiles {
        dir_exists: true,
        root_pom: "<module>demo-shop</module>".into(),
        modules_pom: String::new(),
        admin_pom: "<artifactId>demo-shop</artifactId>".into(),
        config_sql: None,
        health: Some("import com.demo.common.core.domain.AjaxResult;".into()),
        bootstrap: String::new(),
        logback: None,
    };
    let ok = generated_module_check("shop", &params_with_prefix(" demo "), false, &files);
    assert_eq!(ok.item, "新业务模块 shop");
    assert_eq!(ok.result, CheckResult::Pass);
    assert_eq!(ok.message, "空骨架目录 / pom / Health 已齐备");
    let mut bare = files.clone();
    bare.dir_exists = false;
    bare.health = None;
    bare.admin_pom = String::new();
    let bad = generated_module_check("shop", &params_with_prefix("demo"), false, &bare);
    assert_eq!(bad.result, CheckResult::Fail);
    assert_eq!(bad.message, "缺失：目录、admin 依赖、HealthController");
    let cloud = GeneratedModuleFiles {
        dir_exists: true,
        root_pom: "<module>demo-shop</module>".into(),
        modules_pom: "<module>demo-shop</module>".into(),
        admin_pom: String::new(),
        config_sql: Some("'demo-shop-dev.yml' ... - id: demo-shop".into()),
        health: Some("common.core.web.domain.AjaxResult".into()),
        bootstrap: "spring:\n  cloud:\n    nacos:\n".into(),
        logback: Some("<property name=\"log.path\" value=\"logs\" />".into()),
    };
    let c = generated_module_check("shop", &params_with_prefix("demo"), true, &cloud);
    assert_eq!(c.message, "缺失：根 pom 不应含叶子 module");
    let mut c2 = cloud.clone();
    c2.root_pom = String::new();
    c2.logback = None;
    c2.config_sql = None;
    let r = generated_module_check("shop", &params_with_prefix("demo"), true, &c2);
    assert_eq!(r.message, "缺失：Nacos data_id、网关 - id:、logback.xml");
}

#[test]
fn agents_md_second_injection_changes_nothing() {
    use_agents();
}

fn use_agents() {
    let inject = ruoyi_forge::sub_agents::inject_sub_agents;
    let created = inject(None, "guide", "").unwrap();
    assert!(inject(Some(&created), "guide", "").is_none());
    let existing = "# Rules\n<!-- SUB_AGENTS_RULES_BEGIN -->\nold\n<!-- SUB_AGENTS_RULES_END -->\ntail\n";
    let replaced = inject(Some(existing), "new guide", "").unwrap();
    assert_eq!(replaced, "# Rules\n<!-- SUB_AGENTS_RULES_BEGIN -->\nnew guide\n<!-- SUB_AGENTS_RULES_END -->\ntail\n");
    assert!(inject(Some(&replaced), "new guide", "").is_none());
    // a guide holding the end marker itself is where a second run differs
    let odd = "a <!-- SUB_AGENTS_RULES_END --> b";
    let once = inject(None, odd, "").unwrap();
    assert!(inject(Some(&once), odd, "").is_some());
}

#[test]
fn normalized_names_are_stable_keys() {
    let raw: Vec<String> = vec![" Order ", "member", "", "ORDER", "  ", "pay"].into_iter().map(String::from).collect();
    let once = ruoyi_forge::new_module::normalize_new_module_names(&raw);
    assert_eq!(once, vec!["order", "member", "pay"]);
    assert_eq!(ruoyi_forge::new_module::normalize_new_module_names(&once), once);
}

#[test]
fn footer_year_falls_back_to_clock() {
    let mut p = ruoyi_forge::params::CustomizeParams::default();
    p.copyright_year = " 2026 ".into();
    assert_eq!(ruoyi_forge::web_footer::footer_start_year(&p), "2026");
    p.copyright_year = "abcd".into();
    let y = ruoyi_forge::web_footer::footer_start_year(&p);
    assert!(y.len() >= 4 && y.chars().all(|c| c.is_ascii_digit()), "{y}");
}
