use ruoyi_forge::new_module::{insert_admin_dependency, upsert_module_tag, PomUpdate};
use ruoyi_forge::new_module::{extract_project_version, read_parent_version};
use ruoyi_forge::new_module::module_placeholders;
use ruoyi_forge::archive::ExtractError;
use ruoyi_forge::encoding::{decode_bytes, looks_like_utf8, Decoded};
use ruoyi_forge::ext_calls::md5_hex;
use ruoyi_forge::nacos_sql::{escape_nacos_content, parse_config_sql_text, trim_removed_modules};
use ruoyi_forge::nacos_yaml::remove_sentinel_resources;
use ruoyi_forge::new_module::{module_leaf, validate_against_project};
use ruoyi_forge::params::{CustomizeParams, ProjectInfo};
use ruoyi_forge::uniapp::wechat_yaml_block;

#[test]
fn utf8_check_rejects_bom_and_malformed_bytes() {
    assert!(looks_like_utf8("若依 ruoyi".as_bytes()));
    assert!(looks_like_utf8(&[]));
    assert!(!looks_like_utf8(&[0xFF, 0xFE, 0x41, 0x00]));
    assert!(!looks_like_utf8(&[0xFE, 0xFF, 0x00, 0x41]));
    assert!(!looks_like_utf8(&[0xC4, 0xE3]));
    assert!(!looks_like_utf8(&[0xED, 0xA0, 0x80]));
    assert!(!looks_like_utf8(&[0xE4, 0xBD]));
    assert!(looks_like_utf8(&[0xF0, 0x9F, 0x98, 0x80]));
}

#[test]
fn decode_prefers_utf8_then_gbk() {
    assert_eq!(decode_bytes("中文".as_bytes()), Some(Decoded::Utf8("中文".to_string())));
    assert_eq!(decode_bytes(&[0xC4, 0xE3, 0xBA, 0xC3]), Some(Decoded::Gbk("你好".to_string())));
    assert_eq!(decode_bytes(&[0xFF, 0xFE, 0x41, 0x00]), None);
    assert_eq!(decode_bytes(&[0x81]), None);
}

#[test]
fn extract_error_messages() {
    assert_eq!(ExtractError::Open("x.zip".into()).message(), "打开压缩包失败：x.zip");
    assert_eq!(
        ExtractError::DestNotEmpty("/tmp/a".into()).message(),
        "目标目录已存在且非空，拒绝覆盖：/tmp/a"
    );
    assert_eq!(ExtractError::Write("w".into()).message(), "写入文件失败：w");
}

#[test]
fn wechat_block_without_and_with_pay() {
    let mut p = CustomizeParams::default();
    p.new_module_prefix = "demo".into();
    p.wx_appid = "wx123".into();
    p.wx_appsecret = "sec".into();
    let b = wechat_yaml_block(&p);
    assert_eq!(
        b,
        "\n# ===== demo 微信小程序 / 支付配置 =====\ndemo:\n  wx: # 微信小程序\n    appid: wx123 # 小程序 AppID\n    appsecret: sec # 小程序 AppSecret\n"
    );
    p.pay_included = true;
    p.pay_enabled = true;
    p.pay_mode = "public-key".into();
    p.pay_public_key_id = "PUB_KEY_ID".into();
    let b = wechat_yaml_block(&p);
    assert!(b.contains("      enabled: true # 是否启用微信支付\n"));
    assert!(b.contains("      public-key-id: PUB_KEY_ID # 微信支付平台公钥 ID\n"));
    assert!(b.ends_with("      notify-url:  # 支付回调地址（微信异步通知）\n"));
    p.pay_mode = "v2".into();
    let b = wechat_yaml_block(&p);
    assert!(b.contains("      api-key:  # APIv2 密钥（32位）\n"));
    assert!(!b.contains("public-key-id"));
}

fn info(template: &str, backend: &[&str], frontend: &[&str]) -> ProjectInfo {
    ProjectInfo {
        root_path: "/tmp/p".into(),
        project_type: "RuoYi-Vue".into(),
        template_dir: template.into(),
        backend_modules: backend.iter().map(|s| s.to_string()).collect(),
        frontend_dirs: frontend.iter().map(|s| s.to_string()).collect(),
        config_files: vec![],
        logback_files: vec![],
        generator_template_files: vec![],
    }
}

#[test]
fn new_modules_must_not_collide_with_project_modules() {
    let i = info(
        "ruoyi-vue",
        &["ruoyi-admin", "ruoyi-modules/ruoyi-system/"],
        &["ruoyi-ui"],
    );
    let mut p = CustomizeParams::default();
    p.new_modules = vec!["order".into(), " System ".into(), "ui".into(), "admin".into()];
    assert_eq!(
        validate_against_project(&i, &p),
        Some("新增模块与现有后端模块冲突：system、ui、admin".to_string())
    );
    p.new_modules = vec!["order".into()];
    assert_eq!(validate_against_project(&i, &p), None);
    p.new_modules = vec!["system".into()];
    assert_eq!(validate_against_project(&info("ruoyi", &["ruoyi-system"], &[]), &p), None);
}

#[test]
fn module_leaf_follows_path_file_name() {
    assert_eq!(module_leaf("a/b/").iter().collect::<String>(), "b");
    assert_eq!(module_leaf("a/./").iter().collect::<String>(), "a");
    assert_eq!(module_leaf("x\\y").iter().collect::<String>(), "x\\y");
    assert_eq!(module_leaf("a/..").iter().collect::<String>(), "..");
    assert_eq!(module_leaf("a\\..").iter().collect::<String>(), "a\\..");
    assert_eq!(module_leaf("..").iter().collect::<String>(), "..");
}

#[test]
fn sentinel_rules_of_removed_modules_are_dropped() {
    let content = "[{\"resource\":\"/code/**\",\"count\":1},{\"resource\":\"/system/**\",\"count\":2},{\"count\":3}]";
    let out = remove_sentinel_resources(content, &["gen".into()]);
    assert_eq!(out, "[{\"count\":2,\"resource\":\"/system/**\"},{\"count\":3}]");
    assert_eq!(remove_sentinel_resources("not json", &["gen".into()]), "not json");
    assert_eq!(remove_sentinel_resources("[oops", &["gen".into()]), "[oops");
}

fn sql_with(entries: &[(&str, &str)]) -> String {
    let mut rows = Vec::new();
    for (i, (id, yaml)) in entries.iter().enumerate() {
        rows.push(format!(
            "({},'{}','DEFAULT_GROUP','{}','{}','2020-01-01 00:00:00','2020-01-01 00:00:00',NULL,'127.0.0.1','','','','','','yaml','','')",
            i + 1,
            id,
            escape_nacos_content(yaml),
            md5_hex(yaml)
        ));
    }
    format!(
        "insert into config_info(id, data_id, group_id, content, md5, gmt_create, gmt_modified, src_user, src_ip, app_name, tenant_id, c_desc, c_use, effect, type, c_schema, encrypted_data_key) values {};\n",
        rows.join(",\n")
    )
}

#[test]
fn trimming_drops_removed_services_and_their_routes() {
    let gateway = "spring:\n  cloud:\n    gateway:\n      routes:\n        - id: ruoyi-system\n          uri: lb://ruoyi-system\n          predicates:\n            - Path=/system/**\n        - id: ruoyi-gen\n          uri: lb://ruoyi-gen\n          predicates:\n            - Path=/code/**\n";
    let sql = sql_with(&[
        ("application-dev.yml", "a: 1\n"),
        ("ruoyi-gateway-dev.yml", gateway),
        ("ruoyi-gen-dev.yml", "g: 1\n"),
        ("sentinel-ruoyi-gateway", "[{\"resource\":\"/code/**\"},{\"resource\":\"/system/**\"}]"),
    ]);
    let mut configs = parse_config_sql_text(&sql).unwrap();
    let removed = trim_removed_modules(&mut configs, &vec![" GEN ".into(), "".into()]);
    assert_eq!(removed, 1);
    let ids: Vec<&str> = configs.iter().map(|c| c.data_id.as_str()).collect();
    assert_eq!(ids, vec!["application-dev.yml", "ruoyi-gateway-dev.yml", "sentinel-ruoyi-gateway"]);
    assert!(!configs[1].content.contains("/code/**"));
    assert!(configs[1].content.contains("/system/**"));
    assert_eq!(configs[1].md5, md5_hex(&configs[1].content));
    assert_eq!(configs[2].content, "[{\"resource\":\"/system/**\"}]");
    assert_eq!(configs[0].md5, md5_hex("a: 1\n"));
    let mut same = parse_config_sql_text(&sql).unwrap();
    assert_eq!(trim_removed_modules(&mut same, &vec!["  ".into()]), 0);
    assert_eq!(same.len(), 4);
}

#[test]
fn module_tag_and_admin_dependency_edits() {
    let pom = "<project>\n    <modules>\n        <module>demo-admin</module>\n    </modules>\n</project>";
    match upsert_module_tag(pom, "demo-shop") {
        PomUpdate::Updated(t) => assert_eq!(
            t,
            // the text before `</modules>` ends in spaces, so a newline goes first
            "<project>\n    <modules>\n        <module>demo-admin</module>\n    \n        <module>demo-shop</module>\n</modules>\n</project>"
        ),
        other => panic!("{other:?}"),
    }
    assert!(matches!(upsert_module_tag(pom, "demo-admin"), PomUpdate::Present));
    assert!(matches!(upsert_module_tag("<project/>", "x"), PomUpdate::MissingAnchor));
    let admin = "<project>\n    <dependencies>\n    </dependencies>\n</project>";
    match insert_admin_dependency(admin, "com.demo", "demo-shop") {
        PomUpdate::Updated(t) => assert_eq!(
            t,
            "<project>\n    <dependencies>\n        <dependency>\n            <groupId>com.demo</groupId>\n            <artifactId>demo-shop</artifactId>\n        </dependency>\n    </dependencies>\n</project>"
        ),
        other => panic!("{other:?}"),
    }
    assert!(matches!(insert_admin_dependency("<artifactId>demo-shop</artifactId>", "g", "demo-shop"), PomUpdate::Present));
    assert!(matches!(insert_admin_dependency("nothing", "g", "a"), PomUpdate::MissingAnchor));
}

#[test]
fn project_version_skips_parent_and_properties() {
    let pom = "<parent><version>2.7.0</version></parent><properties><version>9</version></properties><version> 3.9.2 </version>";
    assert_eq!(extract_project_version(pom).as_deref(), Some("3.9.2"));
    assert_eq!(extract_project_version("<version>${revision}</version>"), None);
    assert_eq!(extract_project_version("<project/>"), None);
    assert_eq!(read_parent_version(Some("<project/>"), Some("<version>1.0</version>"), true), "1.0");
    assert_eq!(read_parent_version(None, None, true), "3.6.8");
    assert_eq!(read_parent_version(None, None, false), "3.9.2");
}

#[test]
fn module_skeleton_placeholders() {
    let mut p = ruoyi_forge::params::CustomizeParams::default();
    p.new_package = "com.demo".into();
    p.new_module_prefix = " demo ".into();
    let v = module_placeholders(&p, "order-item", 9301, "3.6.8", true, 3);
    let get = |k: &str| v.iter().find(|(a, _)| a == k).map(|(_, b)| b.clone()).unwrap();
    assert_eq!(get("{{PREFIX}}"), "demo");
    assert_eq!(get("{{CLASS_NAME}}"), "OrderItem");
    assert_eq!(get("{{PKG_SEGMENT}}"), "orderitem");
    assert_eq!(get("{{PORT}}"), "9301");
    assert_eq!(get("{{MYSQL_ARTIFACT}}"), "mysql-connector-j");
    assert_eq!(module_placeholders(&p, "x", 1, "1", false, 3).len(), 7);
}
