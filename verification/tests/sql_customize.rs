use ruoyi_forge::params::CustomizeParams;
use ruoyi_forge::sql_customize::{customize_sql_text, new_db_name, remove_quartz_blocks, replace_db_name};

#[test]
fn db_name_replaced_in_create_and_use() {
    let mut c = "CREATE DATABASE `ry-vue`;\nuse ry_cloud;\nselect 'ry-vue';".to_string();
    assert_eq!(replace_db_name(&mut c, "demo"), 2);
    assert_eq!(c, "CREATE DATABASE `demo`;\nuse demo;\nselect 'ry-vue';");
    let mut none = "select 1;".to_string();
    assert_eq!(replace_db_name(&mut none, "demo"), 0);
    assert_eq!(none, "select 1;");
}

#[test]
fn quartz_blocks_removed_between_separators() {
    let sep = "-- ----------------------------";
    let mut c = format!("head\n{sep}\ncreate table sys_user();\n{sep}\ncreate table QRTZ_JOB();\n{sep}\ncreate table sys_role();\n");
    assert_eq!(remove_quartz_blocks(&mut c), 1);
    assert_eq!(c, format!("head\n{sep}\ncreate table sys_user();\n{sep}\ncreate table sys_role();\n"));
    let mut plain = "no separators qrtz_x".to_string();
    assert_eq!(remove_quartz_blocks(&mut plain), 0);
    assert_eq!(plain, "no separators qrtz_x");
    let mut first = format!("qrtz_a\n{sep}\nkeep");
    assert_eq!(remove_quartz_blocks(&mut first), 1);
    assert_eq!(first, "\nkeep");
}

#[test]
fn customize_one_script() {
    let sql = "create database ry_vue;\nupdate sys_user set password = 'old' where login_name = 'admin';\ninsert into sys_user values('ry');\n";
    let (out, changed, n, q) = customize_sql_text(sql, "shop", Some("$2a$10$h"), true, true);
    assert!(changed);
    assert_eq!(n, 1);
    assert_eq!(q, 0);
    assert!(out.starts_with("create database shop;\nupdate sys_user set password = '$2a$10$h' where login_name = 'admin';\n"));
    assert!(!out.contains("'ry'"));
    let (same, changed, _, _) = customize_sql_text("select 1;", "shop", None, false, false);
    assert!(!changed);
    assert_eq!(same, "select 1;");
}

#[test]
fn db_name_defaults_to_prefix() {
    let mut p = CustomizeParams::default();
    p.new_module_prefix = "demo".into();
    assert_eq!(new_db_name(&p), "demo");
    p.db_name = "shop".into();
    assert_eq!(new_db_name(&p), "shop");
}
