use ruoyi_forge::ext_calls::md5_hex;
use ruoyi_forge::nacos_sql::{
    escape_nacos_content, parse_config_sql, parse_config_sql_text, parse_sql_value,
    unescape_nacos_content, write_back_text,
};
use ruoyi_forge::nacos_yaml::{
    append_block_if_missing, append_whitelist, has_top_level_key, is_application_yml,
    is_gateway_yml, is_sentinel_gateway, is_system_yml, remove_gateway_routes,
    rename_top_level_key, should_drop_data_id,
};

fn insert_sql(yaml: &str) -> String {
    let escaped = escape_nacos_content(yaml);
    let md5 = md5_hex(yaml);
    format!(
        "CREATE DATABASE `ry-config`;\nUSE `ry-config`;\ninsert into config_info(id, data_id, group_id, content, md5, gmt_create, gmt_modified, src_user, src_ip, app_name, tenant_id, c_desc, c_use, effect, type, c_schema, encrypted_data_key) values (1,'application-dev.yml','DEFAULT_GROUP','{escaped}','{md5}','2020-01-01 00:00:00','2020-01-01 00:00:00',NULL,'127.0.0.1','','','','','','yaml','','');\n"
    )
}

#[test]
fn escape_unescape_roundtrip_keeps_yaml() {
    let yaml = "server:\n  port: 8080\nfoo: 'bar'\nconnectionProperties: useUnicode=true;characterEncoding=utf8\n";
    let escaped = escape_nacos_content(yaml);
    assert!(escaped.contains("\\n"), "换行应写成 \\n：{escaped}");
    assert!(escaped.contains("\\'"), "单引号应写成 \\'：{escaped}");
    assert!(escaped.contains("\\\\="), "connectionProperties 的 = 应写成 \\\\=：{escaped}");
    let back = unescape_nacos_content(&escaped);
    assert_eq!(back, yaml);
}

#[test]
fn data_id_match_is_prefix_agnostic() {
    assert!(is_gateway_yml("ruoyi-gateway-dev.yml"));
    assert!(is_gateway_yml("demo-gateway-prod.yml"));
    assert!(is_system_yml("foo-system-dev.yml"));
    assert!(is_application_yml("application-dev.yml"));
    assert!(is_application_yml("application-prod.yaml"));
    assert!(is_sentinel_gateway("sentinel-ruoyi-gateway"));
    assert!(is_sentinel_gateway("sentinel-demo-gateway"));
    assert!(!is_system_yml("application-dev.yml"));
}

#[test]
fn whitelist_append_is_idempotent() {
    let yaml = "security:\n  ignore:\n    whites:\n      - /auth/login\n      - /csrf\n";
    let once = append_whitelist(yaml, "/system/webInfo");
    assert!(once.contains("/system/webInfo"));
    let twice = append_whitelist(&once, "/system/webInfo");
    assert_eq!(once.matches("/system/webInfo").count(), twice.matches("/system/webInfo").count());
}

#[test]
fn gateway_routes_removed_for_gen_job() {
    let yaml = "spring:\n  cloud:\n    gateway:\n      routes:\n        - id: ruoyi-system\n          uri: lb://ruoyi-system\n          predicates:\n            - Path=/system/**\n        - id: ruoyi-gen\n          uri: lb://ruoyi-gen\n          predicates:\n            - Path=/code/**\n        - id: ruoyi-job\n          uri: lb://ruoyi-job\n          predicates:\n            - Path=/schedule/**\n";
    let out = remove_gateway_routes(yaml, &["gen".into(), "job".into()]);
    assert!(out.contains("ruoyi-system"));
    assert!(!out.contains("/code/**"));
    assert!(!out.contains("/schedule/**"));
}

#[test]
fn boot4_webflux_routes_also_trimmed() {
    let yaml = "spring:\n  cloud:\n    gateway:\n      server:\n        webflux:\n          routes:\n            - id: ruoyi-file\n              uri: lb://ruoyi-file\n              predicates:\n                - Path=/file/**\n            - id: ruoyi-auth\n              uri: lb://ruoyi-auth\n              predicates:\n                - Path=/auth/**\n";
    let out = remove_gateway_routes(yaml, &["file".into()]);
    assert!(out.contains("ruoyi-auth"));
    assert!(!out.contains("/file/**"));
}

#[test]
fn parse_sql_value_chinese_prefix_does_not_panic() {
    let s = "本系统配置,1)";
    let mut i = 0usize;
    let r = parse_sql_value(s, &mut i);
    assert!(r.is_err(), "值以中文开头应报错而非 panic：{r:?}");
    assert_eq!(i, 0);
}

#[test]
fn parse_values_skips_chinese_line_comment_and_quoted_desc() {
    let yaml = "server:\n  port: 8080\nfoo: 中文配置\n";
    let escaped = escape_nacos_content(yaml);
    let md5 = md5_hex(yaml);
    let sql = format!(
        "CREATE DATABASE `ry-config`;\nUSE `ry-config`;\ninsert into config_info(id, data_id, group_id, content, md5, gmt_create, gmt_modified, src_user, src_ip, app_name, tenant_id, c_desc, c_use, effect, type, c_schema, encrypted_data_key) values (1,'application-dev.yml','DEFAULT_GROUP','{escaped}','{md5}','2020-01-01 00:00:00','2020-01-01 00:00:00',NULL,'127.0.0.1','','',\n-- 本系统配置\n'系统配置描述','','','yaml','','');\n"
    );
    let configs = parse_config_sql_text(&sql).expect("中文行注释 + 中文 c_desc 必须解析成功");
    assert_eq!(configs.len(), 1);
    assert_eq!(configs[0].data_id, "application-dev.yml");
    assert_eq!(configs[0].content, yaml);
    assert_eq!(configs[0].string_value_at(11).as_deref(), Some("系统配置描述"));

    let written = write_back_text(&sql, &configs).expect("含中文注释的 SQL 应能写回");
    let again = parse_config_sql_text(&written).expect("写回后再解析应成功");
    assert_eq!(again[0].content, yaml);
    assert_eq!(again[0].md5, md5);
}

#[test]
fn parse_values_skips_block_comment_with_chinese() {
    let yaml = "k: v\n";
    let escaped = escape_nacos_content(yaml);
    let md5 = md5_hex(yaml);
    let sql = format!(
        "insert into config_info(id, data_id, group_id, content, md5, gmt_create, gmt_modified, src_user, src_ip, app_name, tenant_id, c_desc, c_use, effect, type, c_schema, encrypted_data_key) values (1,'application-dev.yml','DEFAULT_GROUP','{escaped}','{md5}','2020-01-01 00:00:00','2020-01-01 00:00:00',NULL,'127.0.0.1','','',/* 本系统块注释 */'中文描述','','','yaml','','');\n"
    );
    let configs = parse_config_sql_text(&sql).expect("中文块注释必须跳过");
    assert_eq!(configs.len(), 1);
    assert_eq!(configs[0].string_value_at(11).as_deref(), Some("中文描述"));
}

// ----- further cases -----

#[test]
fn write_back_keeps_other_statements_and_roundtrips() {
    let yaml = "spring:\n  datasource:\n    url: jdbc:mysql://localhost:3306/ry-cloud\nmybatis:\n  typeAliasesPackage: com.ruoyi.system\n";
    let sql = insert_sql(yaml);
    let mut configs = parse_config_sql(&sql).unwrap();
    assert_eq!(configs.len(), 1);
    assert_eq!(configs[0].group_id, "DEFAULT_GROUP");
    configs[0].content = rename_top_level_key(&configs[0].content, "mybatis", "mybatis-plus");
    configs[0].md5 = md5_hex(&configs[0].content);
    let written = write_back_text(&sql, &configs).unwrap();
    assert!(written.starts_with("CREATE DATABASE `ry-config`;\nUSE `ry-config`;\n"));
    let again = parse_config_sql_text(&written).unwrap();
    assert_eq!(again[0].content, configs[0].content);
    assert_eq!(again[0].md5, configs[0].md5);
    assert!(again[0].content.contains("\nmybatis-plus:\n"));
}

#[test]
fn write_back_without_insert_is_an_error() {
    let r = write_back_text("select 1;", &[]);
    assert_eq!(r.unwrap_err(), "写回失败：未找到 insert into config_info 语句");
}

#[test]
fn missing_md5_column_is_reported() {
    let sql = "insert into config_info(id, data_id, content) values (1,'a','b');";
    assert_eq!(parse_config_sql_text(sql).unwrap_err(), "config_info 缺少 md5 列");
}

#[test]
fn unclosed_tuple_is_reported() {
    let sql = "insert into config_info(data_id, content, md5) values ('a','b','c';";
    assert!(parse_config_sql_text(sql).is_err());
}

#[test]
fn unescape_handles_every_escape() {
    assert_eq!(unescape_nacos_content("a\\nb\\tc\\rd\\'e\\\\=f\\\\g\\x"), "a\nb\tc\rd'e=f\\gx");
}

#[test]
fn md5_of_empty_text() {
    assert_eq!(md5_hex(""), "d41d8cd98f00b204e9800998ecf8427e");
}

#[test]
fn parse_sql_value_reads_null_number_and_string() {
    let s = " NULL, 42 ,'x\\'y'";
    let mut i = 0usize;
    assert!(parse_sql_value(s, &mut i).is_ok());
    assert_eq!(i, 5);
    i += 1;
    assert!(parse_sql_value(s, &mut i).is_ok());
    assert_eq!(i, 9);
    i += 2;
    assert!(parse_sql_value(s, &mut i).is_ok());
    assert_eq!(i, s.chars().count());
}

#[test]
fn top_level_key_detection_and_rename() {
    let yaml = "mybatis:\n  a: 1\nb:\n  mybatis: x\n";
    assert!(has_top_level_key(yaml, "mybatis"));
    assert!(!has_top_level_key(yaml, "a"));
    let out = rename_top_level_key(yaml, "mybatis", "mybatis-plus");
    assert_eq!(out, "mybatis-plus:\n  a: 1\nb:\n  mybatis: x\n");
}

#[test]
fn append_block_only_when_marker_missing() {
    assert_eq!(append_block_if_missing("a: 1", "  oss:", "b:\n  oss: 1"), "a: 1\nb:\n  oss: 1\n");
    assert_eq!(append_block_if_missing("x:\n  oss: 1\n", "  oss:", "zzz"), "x:\n  oss: 1\n");
}

#[test]
fn whitelist_inserted_inside_list() {
    let yaml = "security:\n  ignore:\n    whites:\n      - /a\nother: 1\n";
    let out = append_whitelist(yaml, "/b");
    assert_eq!(out, "security:\n  ignore:\n    whites:\n      - /a\n      - /b\nother: 1\n");
}

#[test]
fn drop_data_id_for_removed_modules() {
    let keys = vec!["gen".to_string(), "monitor".to_string()];
    assert!(should_drop_data_id("ruoyi-gen-dev.yml", &keys));
    assert!(should_drop_data_id("RuoYi-Monitor-dev.yml", &keys));
    assert!(!should_drop_data_id("ruoyi-system-dev.yml", &keys));
}

#[test]
fn whitelist_appends_to_list_that_ends_the_text() {
    let yaml = "security:\n  ignore:\n    whites:\n      - /auth/login\n      - /csrf\n";
    let once = append_whitelist(yaml, "/system/webInfo");
    assert_eq!(once, "security:\n  ignore:\n    whites:\n      - /auth/login\n      - /csrf\n      - /system/webInfo\n");
    assert_eq!(append_whitelist(&once, "/system/webInfo"), once);
    let bare = append_whitelist("security:\n  xss:\n    enabled: true", "/a");
    assert_eq!(bare, "security:\n  xss:\n    enabled: true\n  ignore:\n    whites:\n      - /a\n");
}

fn row(id: u32, data_id: &str, yaml: &str) -> String {
    format!(
        "insert into config_info(id, data_id, group_id, content, md5) values ({id},'{data_id}','DEFAULT_GROUP','{}','{}');\n",
        escape_nacos_content(yaml),
        md5_hex(yaml)
    )
}

#[test]
fn write_back_merges_every_later_insert() {
    let sql = format!(
        "USE `ry-config`;\n{}{}-- keep\n{}select 1;\n",
        row(1, "a-dev.yml", "a: 1\n"),
        row(2, "b-dev.yml", "b: 2\n"),
        row(3, "c-dev.yml", "c: 3\n")
    );
    let mut configs = parse_config_sql_text(&sql).unwrap();
    assert_eq!(configs.len(), 3);
    configs[1].content = "b: 20\n".into();
    configs[1].md5 = md5_hex("b: 20\n");
    let written = write_back_text(&sql, &configs).unwrap();
    assert!(written.starts_with("USE `ry-config`;\n"));
    assert!(written.contains("-- keep\n"));
    assert!(written.ends_with("select 1;\n"));
    assert_eq!(written.matches("insert into config_info").count(), 1);
    let again = parse_config_sql_text(&written).unwrap();
    assert_eq!(again.len(), 3);
    for k in 0..3 {
        assert_eq!(again[k].data_id, configs[k].data_id);
        assert_eq!(again[k].content, configs[k].content);
        assert_eq!(again[k].md5, configs[k].md5);
    }
}

#[test]
fn written_content_and_ids_read_back() {
    let content = "spring:\n  name: 'demo'\n  datasource:\n    connectionProperties: a=b;c=d\n";
    let sql = format!(
        "insert into config_info(data_id, content, md5) values ('demo-dev.yml','{}','0123abcd'), ('x.yml','',NULL);",
        escape_nacos_content(content)
    );
    let cfgs = parse_config_sql_text(&sql).unwrap();
    assert_eq!(cfgs.len(), 2);
    assert_eq!(cfgs[0].data_id, "demo-dev.yml");
    assert_eq!(cfgs[0].content, content);
    assert_eq!(cfgs[0].md5, "0123abcd");
    let again = write_back_text(&sql, &cfgs).unwrap();
    let back = parse_config_sql_text(&again).unwrap();
    assert_eq!(back[0].content, content);
    assert_eq!(back[0].data_id, "demo-dev.yml");
}
