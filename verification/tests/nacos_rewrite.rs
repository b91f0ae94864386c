use ruoyi_forge::ext_calls::md5_hex;
use ruoyi_forge::nacos_sql::{escape_nacos_content, parse_config_sql_text};
use ruoyi_forge::nacos_rewrite::{rewrite_datasource_credentials, rewrite_redis_in_place, rewrite_token_yaml};
use ruoyi_forge::nacos_yaml::{replace_jdbc_db_name, replace_jdbc_mysql_connection};

const SAMPLE_YAML: &str = "spring:\n  datasource:\n    url: jdbc:mysql://localhost:3306/ry-cloud?useSSL=false\n  redis:\n    # 地址\n    host: 127.0.0.1\n    port: 6379\n    password: secret\n    database: 0\nmybatis:\n  typeAliasesPackage: com.ruoyi.system\n  mapperLocations: classpath*:mapper/**/*.xml\n";

/// The steps of an entry's rewrite with SQL customization on: the JDBC
/// connection, the data source account, then Redis.
fn customized(yaml: &str, host: &str, port: u16, db: &str, user: &str, pass: &str) -> String {
    let a = replace_jdbc_mysql_connection(yaml, host, port, db);
    let b = rewrite_datasource_credentials(&a, user, pass);
    rewrite_redis_in_place(&b, "''")
}

#[test]
fn yaml_rewrite_keeps_comments() {
    let yaml = "spring:\n  redis:\n    # 地址\n    host: 10.0.0.1 # keep\n    port: 6380\n";
    let out = rewrite_redis_in_place(yaml, "''");
    assert!(out.contains("# 地址"), "注释行应保留：{out}");
    assert!(out.contains("host: localhost # keep"), "行内注释应保留：{out}");
    assert_eq!(out, "spring:\n  redis:\n    # 地址\n    host: localhost # keep\n    port: 6379\n");
}

#[test]
fn spring_data_redis_rewritten_without_changing_keys() {
    let yaml = "spring:\n  data:\n    redis:\n      host: 1.2.3.4\n      port: 6380\n      password: x\n      database: 2\n";
    let out = rewrite_redis_in_place(yaml, "''");
    assert!(out.contains("data:"), "不得把 spring.data.redis 改成 spring.redis：{out}");
    assert!(out.contains("host: localhost"));
    assert!(out.contains("port: 6379"));
    assert_eq!(
        out,
        "spring:\n  data:\n    redis:\n      host: localhost\n      port: 6379\n      password: ''\n      database: 1\n"
    );
}

#[test]
fn sql_customize_rewrites_jdbc_host_and_datasource_credentials() {
    let yaml = "spring:\n  datasource:\n    url: jdbc:mysql://localhost:3306/ry-cloud?useSSL=false\n    username: root\n    password: password\n  redis:\n    host: 127.0.0.1\n    password: secret\n    database: 0\n";
    let out = customized(yaml, "127.0.0.1", 3306, "demo", "app", "s3cret");
    assert!(out.contains("jdbc:mysql://127.0.0.1:3306/demo?useSSL=false"), "应改写 host/port/库名：{out}");
    assert!(out.contains("username: app"), "datasource 账号应写入：{out}");
    assert!(out.contains("password: s3cret"), "datasource 密码应写入：{out}");
    assert_eq!(out.matches("s3cret").count(), 1, "redis 密码不得改成数据库密码：{out}");
    assert!(out.contains("host: localhost"), "redis host 仍由 redis 改写：{out}");
}

#[test]
fn sql_customize_inserts_credentials_when_missing() {
    let yaml = "spring:\n  datasource:\n    url: jdbc:mysql://localhost:3306/ry-cloud?useSSL=false\n  redis:\n    password: secret\n";
    let out = customized(yaml, "127.0.0.1", 3306, "demo", "app", "s3cret");
    assert!(out.contains("jdbc:mysql://127.0.0.1:3306/demo?useSSL=false"), "{out}");
    assert!(out.contains("username: app"), "缺账号时应在 url 后补上：{out}");
    assert!(out.contains("password: s3cret"), "缺密码时应在 url 后补上：{out}");
    assert_eq!(out.matches("s3cret").count(), 1, "{out}");
    assert!(out.starts_with(
        "spring:\n  datasource:\n    url: jdbc:mysql://127.0.0.1:3306/demo?useSSL=false\n    username: app\n    password: s3cret\n"
    ));
}

#[test]
fn sql_customize_does_not_touch_login_username() {
    let yaml = "spring:\n  datasource:\n    url: jdbc:mysql://localhost:3306/ry-cloud?useSSL=false\n    username: root\n    password: password\n    druid:\n      login-username: admin\n      login-password: keepme\n";
    let out = customized(yaml, "127.0.0.1", 3306, "ry-cloud", "app", "s3cret");
    assert!(out.contains("login-username: admin"), "{out}");
    assert!(out.contains("login-password: keepme"), "{out}");
    assert!(out.contains("username: app"), "{out}");
}

#[test]
fn without_sql_customize_keeps_official_localhost_host() {
    let a = replace_jdbc_db_name(SAMPLE_YAML, "demo");
    let out = rewrite_redis_in_place(&a, "''");
    assert!(out.contains("jdbc:mysql://localhost:3306/demo"), "未开 SQL 定制应只改库名、保持 localhost：{out}");
    assert!(!out.contains("192.168.1.10"), "{out}");
    assert!(!out.contains("username: app"), "未开 SQL 定制不应改账号：{out}");
    assert!(!out.contains("s3cret"), "未开 SQL 定制不应写数据库密码：{out}");
    assert!(out.contains("    # 地址\n    host: localhost\n"));
}

#[test]
fn token_secret_and_expiry() {
    let yaml = "token:\n  header: Authorization\n  secret: abc # 令牌密钥\n  expireTime: 30\nother:\n  expireTime: 5";
    let out = rewrite_token_yaml(yaml, Some("xyz"), "720");
    assert_eq!(out, "token:\n  header: Authorization\n  secret: xyz # 令牌密钥\n  expireTime: 720\nother:\n  expireTime: 5");
    let kept = rewrite_token_yaml(yaml, None, "30");
    assert_eq!(kept, yaml);
}

#[test]
fn rewritten_texts_refresh_md5_of_changed_entries() {
    let row = |id: u32, d: &str, y: &str| {
        format!(
            "insert into config_info(id, data_id, group_id, content, md5) values ({id},'{d}','DEFAULT_GROUP','{}','{}');\n",
            escape_nacos_content(y),
            md5_hex(y)
        )
    };
    let sql = format!("{}{}", row(1, "a-dev.yml", "spring:\n  redis:\n    host: 1.1.1.1\n"), row(2, "b-dev.yml", "k: v\n"));
    let mut configs = parse_config_sql_text(&sql).unwrap();
    let texts: Vec<String> = configs.iter().map(|c| rewrite_redis_in_place(c.content_text(), "''")).collect();
    let n = ruoyi_forge::nacos_rewrite::apply_rewritten_texts(&mut configs, &texts);
    assert_eq!(n, 1);
    assert_eq!(configs[0].content_text(), "spring:\n  redis:\n    host: localhost\n");
    assert_eq!(configs[0].md5, md5_hex("spring:\n  redis:\n    host: localhost\n"));
    assert_eq!(configs[1].md5, md5_hex("k: v\n"));
}

#[test]
fn empty_yaml_scalar_is_a_quoted_empty_string() {
    assert_eq!(ruoyi_forge::nacos_rewrite::EMPTY_YAML_SCALAR, "''");
}
