use ruoyi_forge::ext_calls::md5_hex;
use ruoyi_forge::nacos_sql::{escape_nacos_content, parse_config_sql_text};
use ruoyi_forge::validator::{
    check_gateway_whitelist, check_mp_jsqlparser, check_mp_starter_matches_boot, check_redis_keys_match_boot,
    yaml_has_spring_data_redis, yaml_has_spring_direct_redis, yaml_whites_contain, CheckResult,
};

#[test]
fn whites_list_lookup() {
    let y = "security:\n  ignore:\n    whites:\n      - /auth/logout\n      # comment\n      - /demo/ping\n  xss:\n    - /other/ping\n";
    assert!(yaml_whites_contain(y, "/demo/ping"));
    assert!(yaml_whites_contain(y, "/auth/logout"));
    assert!(!yaml_whites_contain(y, "/other/ping"));
    assert!(!yaml_whites_contain("a: 1\n", "/demo/ping"));
}

#[test]
fn jsqlparser_check_by_boot_version() {
    let modern = vec!["<artifactId>mybatis-plus-jsqlparser</artifactId>".to_string()];
    let jdk8 = vec!["<artifactId>mybatis-plus-jsqlparser-4.9</artifactId>".to_string()];
    let r = check_mp_jsqlparser(&modern, Some(3));
    assert_eq!(r.result, CheckResult::Pass);
    assert_eq!(r.message, "Boot 3.x 已声明 mybatis-plus-jsqlparser");
    let r = check_mp_jsqlparser(&jdk8, Some(3));
    assert_eq!(r.result, CheckResult::Fail);
    assert_eq!(r.message, "Boot 3.x 需要 mybatis-plus-jsqlparser，不要使用 jsqlparser-4.9");
    let r = check_mp_jsqlparser(&modern, Some(2));
    assert_eq!(r.result, CheckResult::Fail);
    assert_eq!(r.message, "Boot 2.x 未找到 mybatis-plus-jsqlparser-4.9（JDK 8 分页模块）");
    let r = check_mp_jsqlparser(&Vec::new(), None);
    assert_eq!(r.result, CheckResult::Fail);
    assert_eq!(r.item, "MyBatis-Plus jsqlparser 分页模块");
}

#[test]
fn starter_check_names_foreign_starters_in_order_seen() {
    let poms = vec![
        "mybatis-plus-spring-boot4-starter".to_string(),
        "x mybatis-plus-boot-starter mybatis-plus-spring-boot4-starter".to_string(),
    ];
    let r = check_mp_starter_matches_boot(&poms, 3);
    assert_eq!(r.result, CheckResult::Fail);
    assert_eq!(r.message, "Boot 3.x 不应出现：mybatis-plus-spring-boot4-starter、mybatis-plus-boot-starter");
    let ok = check_mp_starter_matches_boot(&vec!["mybatis-plus-spring-boot3-starter".to_string()], 3);
    assert_eq!(ok.result, CheckResult::Pass);
    assert_eq!(ok.message, "Boot 3.x 未发现不匹配的 starter");
}

#[test]
fn redis_keys_by_structure_and_fallback() {
    assert!(yaml_has_spring_data_redis("spring:\n  data:\n    redis:\n      host: x\n"));
    assert!(!yaml_has_spring_data_redis("spring:\n  redis:\n    host: x\n"));
    assert!(yaml_has_spring_direct_redis("spring:\n  redis:\n    host: x\n"));
    // unparsable YAML: fall back to the lines
    assert!(yaml_has_spring_data_redis("a: [\nspring.data.redis.host: x\n"));
    assert!(!yaml_has_spring_data_redis("a: [\n# spring.data.redis\n"));
    assert!(yaml_has_spring_direct_redis("a: [\n  redis:\n"));
    let files = vec![
        ("application-dev.yml".to_string(), "spring:\n  data:\n    redis:\n      host: x\n".to_string()),
        ("application-prod.yml".to_string(), "spring:\n  redis:\n    host: x\n".to_string()),
    ];
    let r = check_redis_keys_match_boot(&files, 2);
    assert_eq!(r.result, CheckResult::Fail);
    assert_eq!(r.message, "application-dev.yml 含 spring.data.redis");
    let r = check_redis_keys_match_boot(&files, 3);
    assert_eq!(r.message, "application-prod.yml 含 spring.redis 直挂键");
    let r = check_redis_keys_match_boot(&Vec::new(), 3);
    assert_eq!(r.result, CheckResult::Pass);
    assert_eq!(r.message, "Boot 3.x 使用 spring.data.redis，未发现 spring.redis 直挂键");
}

fn config_sql(rows: &[(&str, &str)]) -> String {
    let mut values = Vec::new();
    for (i, (id, yaml)) in rows.iter().enumerate() {
        values.push(format!(
            "({},'{}','DEFAULT_GROUP','{}','{}','2020-01-01 00:00:00','2020-01-01 00:00:00',NULL,'127.0.0.1','','','','','','yaml','','')",
            i + 1,
            id,
            escape_nacos_content(yaml),
            md5_hex(yaml)
        ));
    }
    format!("insert into config_info(id, data_id, group_id, content, md5, gmt_create, gmt_modified, src_user, src_ip, app_name, tenant_id, c_desc, c_use, effect, type, c_schema, encrypted_data_key) values {};\n", values.join(","))
}

#[test]
fn gateway_whitelist_check() {
    let ok = "security:\n  ignore:\n    whites:\n      - /shop/ping\n";
    let bad = "security:\n  ignore:\n    whites:\n      - /auth/login\n";
    let sql = config_sql(&[("ruoyi-gateway-dev.yml", ok), ("ruoyi-gateway-prod.yml", bad), ("ruoyi-system-dev.yml", bad)]);
    let cs = parse_config_sql_text(&sql).unwrap();
    let r = check_gateway_whitelist("shop", &cs);
    assert_eq!(r.item, "新模块 shop 网关白名单");
    assert_eq!(r.result, CheckResult::Fail);
    assert_eq!(r.message, "gateway whites 缺少 /shop/ping：ruoyi-gateway-prod.yml");
    let sql = config_sql(&[("ruoyi-gateway-dev.yml", ok)]);
    let r = check_gateway_whitelist("shop", &parse_config_sql_text(&sql).unwrap());
    assert_eq!(r.result, CheckResult::Pass);
    assert_eq!(r.message, "gateway whites 已含 /shop/ping");
    let sql = config_sql(&[("ruoyi-system-dev.yml", ok)]);
    let r = check_gateway_whitelist("shop", &parse_config_sql_text(&sql).unwrap());
    assert_eq!(r.result, CheckResult::Warn);
}
