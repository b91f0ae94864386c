use ruoyi_forge::nacos_datasource::{
    is_flat_datasource_conn_key, take_indented_block, unwrap_simple_dynamic_master_to_flat,
    wrap_flat_datasource_as_dynamic,
};
use ruoyi_forge::nacos_yaml::has_top_level_key;

const JOB_FLAT_DS: &str = "spring:\n  datasource:\n    driver-class-name: com.mysql.cj.jdbc.Driver\n    url: jdbc:mysql://127.0.0.1:3306/ry-cloud?useSSL=false\n    username: root\n    password: password\n# mybatis配置\n";

const SYSTEM_DYNAMIC_DS: &str = "spring:\n  datasource:\n    dynamic:\n      datasource:\n        master:\n          url: jdbc:mysql://127.0.0.1:3306/ry-cloud?useSSL=false\n          username: root\n          password: password\n";

const GEN_WRAPPED_DS: &str = "server:\n  port: 9202\nspring:\n  datasource:\n    dynamic:\n      datasource:\n        master:\n          url: jdbc:mysql://localhost:3306/ry-cloud?useSSL=false\n          username: root\n          password: password\nmybatis-plus:\n  typeAliasesPackage: com.ruoyi.gen.domain\nspringdoc:\n  gatewayUrl: http://localhost:8080/${spring.application.name}\n";

const SYSTEM_DRUID_DYNAMIC_DS: &str = "spring:\n  datasource:\n    druid:\n      stat-view-servlet:\n        enabled: true\n    dynamic:\n      datasource:\n        master:\n          url: jdbc:mysql://127.0.0.1:3306/ry-cloud?useSSL=false\n          username: root\n          password: password\nmybatis-plus:\n  typeAliasesPackage: com.ruoyi.system\n";

fn indent(line: &str) -> usize {
    line.len() - line.trim_start().len()
}

fn datasource_direct_child_keys(yaml: &str) -> Vec<String> {
    let mut in_ds = false;
    let mut ds_indent = 0usize;
    let mut child_indent: Option<usize> = None;
    let mut keys = Vec::new();
    for line in yaml.lines() {
        let ind = indent(line);
        let trimmed = line.trim_start();
        let key = trimmed.split(':').next().unwrap_or("").trim();
        if !trimmed.is_empty() && !trimmed.starts_with('#') && key == "datasource" && !in_ds {
            in_ds = true;
            ds_indent = ind;
            continue;
        }
        if in_ds && !trimmed.is_empty() && !trimmed.starts_with('#') && ind <= ds_indent {
            break;
        }
        if in_ds && !trimmed.is_empty() && !trimmed.starts_with('#') {
            if child_indent.is_none() && ind > ds_indent {
                child_indent = Some(ind);
            }
            if child_indent == Some(ind) {
                keys.push(key.to_string());
            }
        }
    }
    keys
}

#[test]
fn flat_job_datasource_wrapped_as_dynamic_master() {
    let out = wrap_flat_datasource_as_dynamic(JOB_FLAT_DS);
    assert_eq!(
        out,
        "spring:\n  datasource:\n    dynamic:\n      datasource:\n        master:\n          driver-class-name: com.mysql.cj.jdbc.Driver\n          url: jdbc:mysql://127.0.0.1:3306/ry-cloud?useSSL=false\n          username: root\n          password: password\n# mybatis配置\n"
    );
    assert_eq!(datasource_direct_child_keys(&out), vec!["dynamic".to_string()]);
    let again = wrap_flat_datasource_as_dynamic(&out);
    assert_eq!(again, out, "wrap 必须幂等");
    let (comment_pos, dyn_pos) = (out.find("# mybatis配置").unwrap(), out.find("dynamic:").unwrap());
    assert!(dyn_pos < comment_pos);
}

#[test]
fn existing_dynamic_datasource_not_rewrapped() {
    let out = wrap_flat_datasource_as_dynamic(SYSTEM_DYNAMIC_DS);
    assert_eq!(out, SYSTEM_DYNAMIC_DS);
    assert_eq!(datasource_direct_child_keys(&out), vec!["dynamic".to_string()]);
}

#[test]
fn yaml_without_datasource_url_untouched() {
    let yaml = "server:\n  port: 8080\n";
    assert_eq!(wrap_flat_datasource_as_dynamic(yaml), yaml);
    let no_nl = "spring:\n  datasource:\n    driver-class-name: x";
    assert_eq!(wrap_flat_datasource_as_dynamic(no_nl), no_nl);
}

#[test]
fn other_children_stay_and_blank_lines_follow_moved_keys() {
    let yaml = "spring:\n    datasource:\n        type: com.zaxxer.hikari.HikariDataSource\n        hikari:\n            max: 5\n        url: jdbc:x\n\n        username: u\n";
    let out = wrap_flat_datasource_as_dynamic(yaml);
    assert_eq!(
        out,
        "spring:\n    datasource:\n        hikari:\n            max: 5\n        dynamic:\n            datasource:\n                master:\n                    type: com.zaxxer.hikari.HikariDataSource\n                    url: jdbc:x\n\n                    username: u\n"
    );
}

#[test]
fn miswrapped_gen_datasource_unwrapped_back_to_flat() {
    let out = unwrap_simple_dynamic_master_to_flat(GEN_WRAPPED_DS);
    let keys = datasource_direct_child_keys(&out);
    assert!(keys.contains(&"url".to_string()), "{out}");
    assert!(!keys.contains(&"dynamic".to_string()), "{out}");
    assert!(out.contains("    url: jdbc:mysql://localhost:3306/ry-cloud?useSSL=false\n"), "{out}");
    assert!(has_top_level_key(&out, "mybatis-plus"));
    let again = unwrap_simple_dynamic_master_to_flat(&out);
    assert_eq!(again, out, "unwrap 必须幂等");
    assert_eq!(wrap_flat_datasource_as_dynamic(&out).matches("master:").count(), 1);
}

#[test]
fn druid_plus_dynamic_datasource_not_unwrapped() {
    let out = unwrap_simple_dynamic_master_to_flat(SYSTEM_DRUID_DYNAMIC_DS);
    assert_eq!(out, SYSTEM_DRUID_DYNAMIC_DS);
    let keys = datasource_direct_child_keys(&out);
    assert!(keys.contains(&"druid".to_string()) && keys.contains(&"dynamic".to_string()));
    assert!(!keys.contains(&"url".to_string()));
}

#[test]
fn dynamic_without_url_is_not_unwrapped() {
    let yaml = "spring:\n  datasource:\n    dynamic:\n      primary: master\n";
    assert_eq!(unwrap_simple_dynamic_master_to_flat(yaml), yaml);
}

#[test]
fn indented_block_stops_at_sibling_but_keeps_blank_lines() {
    let lines: Vec<Vec<char>> = ["a:", "  b: 1", "", "  c: 2", "d: 3"].iter().map(|l| l.chars().collect()).collect();
    let (block, next) = take_indented_block(&lines, 1, 0);
    assert_eq!(next, 4);
    assert_eq!(block.len(), 3);
    let (block, next) = take_indented_block(&lines, 4, 0);
    assert_eq!((block.len(), next), (0, 4));
}

#[test]
fn connection_keys() {
    for k in ["url", "username", "password", "driver-class-name", "driverClassName", "type"] {
        assert!(is_flat_datasource_conn_key(k));
    }
    assert!(!is_flat_datasource_conn_key("druid"));
    assert!(!is_flat_datasource_conn_key("URL"));
}

use ruoyi_forge::nacos_yaml::{
    jdbc_mysql_db_is_business, jdbc_mysql_db_name, official_module_listen_port, replace_jdbc_db_name,
    replace_jdbc_mysql_connection, rewrite_module_public_urls, rewrite_springdoc_gateway_url,
    scan_datasource_cred_keys, upsert_ruoyi_block,
};

const FILE_YML: &str = "server:\n  port: 9300\n# 本地文件上传\nfile:\n  domain: http://127.0.0.1:9300\n  path: D:/ruoyi/uploadPath\n  prefix: /statics\n# FastDFS配置\nfdfs:\n  domain: http://127.0.0.1:9300\n  soTimeout: 3000\n  connectTimeout: 2000\n  trackerList: 127.0.0.1:22122\n# Minio配置\nminio:\n  url: http://localhost:9000\n  accessKey: minioadmin\n  secretKey: minioadmin\n  bucketName: ruoyi\n";

#[test]
fn file_domain_follows_resolved_module_port() {
    let out = rewrite_module_public_urls(FILE_YML, "file", 5015);
    assert!(out.contains("  domain: http://127.0.0.1:5015\n"), "{out}");
    assert!(!out.contains("http://127.0.0.1:9300"), "{out}");
    assert!(out.contains("soTimeout: 3000"), "{out}");
    assert!(out.contains("url: http://localhost:9000"), "{out}");
    assert!(out.contains("port: 9300"), "{out}");
}

#[test]
fn public_url_rewrite_keeps_longer_ports_and_gateway_urls() {
    let yaml = "a: http://localhost:93000/x\nb: http://localhost:9300/y\ngatewayUrl: http://localhost:9300";
    let out = rewrite_module_public_urls(yaml, "file", 1);
    assert_eq!(out, "a: http://localhost:93000/x\nb: http://127.0.0.1:1/y\ngatewayUrl: http://localhost:9300");
    assert_eq!(rewrite_module_public_urls(yaml, "gateway", 1), yaml);
    assert_eq!(rewrite_module_public_urls(yaml, "other", 1), yaml);
    assert_eq!(official_module_listen_port("monitor"), Some(9100));
    assert_eq!(official_module_listen_port("x"), None);
}

#[test]
fn gateway_url_line_points_at_gateway_port() {
    let yaml = "springdoc:\n  gatewayUrl: http://localhost:8080/${spring.application.name}\nother: http://localhost:8080\n";
    let out = rewrite_springdoc_gateway_url(yaml, 5010);
    assert_eq!(
        out,
        "springdoc:\n  gatewayUrl: http://127.0.0.1:5010/${spring.application.name}\nother: http://localhost:8080\n"
    );
    assert!(rewrite_springdoc_gateway_url("gatewayUrl: http://127.0.0.1:8080", -1).ends_with(":-1"));
}

#[test]
fn datasource_credential_keys_are_scoped() {
    let yaml = "spring:\n  datasource:\n    url: x\n    username: u\n  redis:\n    password: p\n";
    assert_eq!(scan_datasource_cred_keys(yaml), (true, true, false));
    assert_eq!(scan_datasource_cred_keys("password: p\n"), (false, false, false));
}

#[test]
fn jdbc_urls_are_recognised_and_rewritten() {
    assert_eq!(jdbc_mysql_db_name("jdbc:mysql://h:3306/ry-cloud?useSSL=false"), "ry-cloud");
    assert_eq!(jdbc_mysql_db_name("jdbc:mysql://h:3306"), "h:3306");
    assert!(jdbc_mysql_db_is_business("jdbc:mysql://h/ry_cloud", ""));
    assert!(jdbc_mysql_db_is_business("jdbc:mysql://h/demo?x", "demo"));
    assert!(!jdbc_mysql_db_is_business("jdbc:mysql://h/ry-seata", "demo"));
    let yaml = "url: jdbc:mysql://localhost:3306/ry-cloud?useUnicode=true\nseata: jdbc:mysql://localhost:3306/ry-seata\n";
    let out = replace_jdbc_mysql_connection(yaml, "10.0.0.1", 3307, "demo");
    assert_eq!(
        out,
        "url: jdbc:mysql://10.0.0.1:3307/demo?useUnicode=true\nseata: jdbc:mysql://localhost:3306/ry-seata\n"
    );
    let out = replace_jdbc_db_name("u: 'jdbc:mysql://h:1/ry-cloud?x' v: jdbc:mysql://h/ry_cloudy", "demo");
    assert_eq!(out, "u: 'jdbc:mysql://h:1/demo?x' v: jdbc:mysql://h/ry_cloudy");
}

#[test]
fn ruoyi_block_gets_year_and_icp() {
    assert_eq!(upsert_ruoyi_block("server:\n  port: 1\n", "2026"), None);
    let out = upsert_ruoyi_block("ruoyi:\n  name: RuoYi\nspring:\n  x: 1\n", "2026").unwrap();
    assert_eq!(out, "ruoyi:\n  name: RuoYi\n  copyrightYear: 2026\n  icp:\nspring:\n  x: 1\n");
    let out = upsert_ruoyi_block("ruoyi:\n  icp: 京ICP\n", "2026").unwrap();
    assert_eq!(out, "ruoyi:\n  icp: 京ICP\n  copyrightYear: 2026\n");
    let out = upsert_ruoyi_block("ruoyi:\n  copyrightYear: 2020\n  icp:\n", "2026").unwrap();
    assert_eq!(out, "ruoyi:\n  copyrightYear: 2020\n  icp:\n");
}

#[test]
fn replace_jdbc_db_name_value_is_a_template() {
    // `$b` in the new name is a reference to a group named `b`, which the
    // pattern does not have, so it expands to nothing; `$$` is one `$`
    let out = replace_jdbc_db_name("url: jdbc:mysql://h:1/ry-cloud?x", "a$b");
    assert_eq!(out, "url: jdbc:mysql://h:1/a?x");
    let out = replace_jdbc_db_name("url: jdbc:mysql://h:1/ry-cloud?x", "a$$b");
    assert_eq!(out, "url: jdbc:mysql://h:1/a$b?x");
}
