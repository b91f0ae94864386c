use ruoyi_forge::scripts::{set_admin_pom_final_name, set_final_name};
use ruoyi_forge::new_module::{
    infer_child_indent, insert_dep_block, insert_module_before_close, is_valid_new_module_name,
    java_pkg_segment, normalize_new_module_names, to_pascal_case, validate_new_modules,
};
use ruoyi_forge::nginx::{apply_https_conditional, build_placeholders};
use ruoyi_forge::params::CustomizeParams;
use ruoyi_forge::placeholders::replace_placeholders;
use ruoyi_forge::replace_ui::{build_prod_base_url, placeholders_for_year};
use ruoyi_forge::validator::ui_template_spec;

fn lookup<'a>(table: &'a [(String, String)], key: &str) -> Option<&'a String> {
    table.iter().find(|(k, _)| k == key).map(|(_, v)| v)
}

// ---------- new modules ----------

#[test]
fn validate_new_modules_rejects_illegal_name() {
    let mut mods = vec!["Order".to_string()];
    let err = validate_new_modules(&mut mods, &vec![]).expect("应拒绝大写");
    assert!(err.contains("不合法"), "{err}");
    let mut mods = vec!["1order".to_string()];
    assert!(validate_new_modules(&mut mods, &vec![]).is_some());
    let mut mods = vec!["order_member".to_string()];
    assert!(validate_new_modules(&mut mods, &vec![]).is_some());
    let mut mods = vec!["-order".to_string()];
    assert!(validate_new_modules(&mut mods, &vec![]).is_some());
}

#[test]
fn validate_new_modules_rejects_remove_conflict() {
    let mut mods = vec!["gen".to_string(), "order".to_string()];
    let err = validate_new_modules(&mut mods, &vec![" GEN ".to_string()]).expect("应冲突");
    assert!(err.contains("冲突"), "{err}");
}

#[test]
fn validate_new_modules_dedupes() {
    let mut mods = vec![
        "order".to_string(),
        " order ".to_string(),
        "order".to_string(),
        "member".to_string(),
    ];
    assert!(validate_new_modules(&mut mods, &vec![]).is_none());
    assert_eq!(mods, vec!["order".to_string(), "member".to_string()]);
}

#[test]
fn pascal_and_pkg_segment() {
    assert_eq!(to_pascal_case("order"), "Order");
    assert_eq!(to_pascal_case("member-card"), "MemberCard");
    assert_eq!(java_pkg_segment("member-card"), "membercard");
}

#[test]
fn illegal_name_message_quotes_the_raw_entry() {
    let mut mods = vec!["ok".to_string(), " Bad ".to_string()];
    let err = validate_new_modules(&mut mods, &vec![]).unwrap();
    assert_eq!(err, "新增模块「 Bad 」不合法：须为小写字母/数字/短横线，以字母开头");
    assert_eq!(mods, vec!["ok".to_string(), " Bad ".to_string()]);
}

#[test]
fn conflict_message_names_the_normalized_entry() {
    let mut mods = vec![" order ".to_string()];
    let err = validate_new_modules(&mut mods, &vec!["ORDER".to_string()]).unwrap();
    assert_eq!(err, "新增模块「order」与裁剪模块 remove_modules 冲突，不能同时增删同名项");
    assert_eq!(mods, vec![" order ".to_string()]);
}

#[test]
fn name_rules_reject_trailing_and_double_dashes() {
    assert!(is_valid_new_module_name("member-card"));
    assert!(is_valid_new_module_name("a1"));
    assert!(!is_valid_new_module_name("order-"));
    assert!(!is_valid_new_module_name("a--b"));
    assert!(!is_valid_new_module_name(""));
}

#[test]
fn normalize_trims_lowercases_and_drops_empty() {
    let v = normalize_new_module_names(&vec![
        "  ".to_string(),
        "B".to_string(),
        "a".to_string(),
        " b ".to_string(),
    ]);
    assert_eq!(v, vec!["b".to_string(), "a".to_string()]);
}

#[test]
fn module_tag_goes_before_close_with_sibling_indent() {
    let pom = "<project>\n    <modules>\n        <module>demo-system</module>\n    </modules>\n</project>\n";
    let out = insert_module_before_close(pom, "<module>demo-order</module>");
    assert_eq!(
        out,
        "<project>\n    <modules>\n        <module>demo-system</module>\n    \n        <module>demo-order</module>\n</modules>\n</project>\n"
    );
    let flush = "<modules>\n  <module>a</module>\n</modules>";
    assert_eq!(
        insert_module_before_close(flush, "<module>b</module>"),
        "<modules>\n  <module>a</module>\n  <module>b</module>\n</modules>"
    );
    let crlf = "<modules>\r\n  <module>a</module>\r\n</modules>";
    let out = insert_module_before_close(crlf, "<module>b</module>");
    assert_eq!(out, "<modules>\r\n  <module>a</module>\r\n  <module>b</module>\r\n</modules>");
    assert_eq!(insert_module_before_close("<project/>", "<module>x</module>"), "<project/>");
}

#[test]
fn child_indent_comes_from_last_module_line() {
    assert_eq!(infer_child_indent("x\n  <module>a</module>\n\t<module>b</module>\n"), Some("\t".to_string()));
    assert_eq!(infer_child_indent("<modules>\n"), None);
}

#[test]
fn dependency_block_after_first_dependencies_or_new_section() {
    let out = insert_dep_block("<project><dependencies><x/></dependencies></project>", "<d/>");
    assert_eq!(out, "<project><dependencies><d/><x/></dependencies></project>");
    let out = insert_dep_block("<project>\n</project>", "<d/>");
    assert_eq!(out, "<project>\n    <dependencies><d/>\n    </dependencies>\n</project>");
    assert_eq!(insert_dep_block("<project>", "<d/>"), "<project>");
}

// ---------- nginx ----------

fn sample_params() -> CustomizeParams {
    let mut p = CustomizeParams::default();
    p.new_module_prefix = "myapp".into();
    p.new_project_name = "myapp".into();
    p.server_port = 8080;
    p.server_name = "demo.example.com".into();
    p
}

#[test]
fn https_block_kept_when_use_https_true() {
    let input = "before\n{{#HTTPS}}\nHTTPS_LINE\n{{/HTTPS}}\nafter";
    let out = apply_https_conditional(input, true);
    assert!(out.contains("HTTPS_LINE"));
    assert!(!out.contains("{{#HTTPS}}"));
    assert!(!out.contains("{{/HTTPS}}"));
    assert!(out.contains("before"));
    assert!(out.contains("after"));
}

#[test]
fn https_block_removed_when_use_https_false() {
    let input = "before\n{{#HTTPS}}\nHTTPS_LINE\n{{/HTTPS}}\nafter";
    let out = apply_https_conditional(input, false);
    assert!(!out.contains("HTTPS_LINE"));
    assert!(!out.contains("{{#HTTPS}}"));
    assert!(out.contains("before"));
    assert!(out.contains("after"));
}

#[test]
fn https_block_without_close_is_kept_verbatim() {
    let input = "a{{#HTTPS}}b{{/HTTPS}}c{{#HTTPS}}d";
    assert_eq!(apply_https_conditional(input, false), "ac{{#HTTPS}}d");
    assert_eq!(apply_https_conditional(input, true), "abc{{#HTTPS}}d");
}

#[test]
fn server_name_defaults_to_localhost_when_empty() {
    let mut p = sample_params();
    p.server_name = String::new();
    let map = build_placeholders(&p);
    assert_eq!(lookup(&map, "{{SERVER_NAME}}"), Some(&"localhost".to_string()));
}

#[test]
fn frontend_dir_uses_module_prefix() {
    let p = sample_params();
    let map = build_placeholders(&p);
    assert_eq!(lookup(&map, "{{FRONTEND_DIR}}"), Some(&"myapp-ui".to_string()));
    assert_eq!(lookup(&map, "{{SERVER_PORT}}"), Some(&"8080".to_string()));
    assert_eq!(lookup(&map, "{{SERVER_NAME}}"), Some(&"demo.example.com".to_string()));
}

// ---------- placeholder substitution ----------

#[test]
fn replace_placeholders_substitutes_all_keys() {
    let map = vec![
        ("{{MODULE_PREFIX}}".to_string(), "myapp".to_string()),
        ("{{SERVER_PORT}}".to_string(), "8080".to_string()),
    ];
    let input = "java -jar {{MODULE_PREFIX}}-admin.jar --port={{SERVER_PORT}}";
    let out = replace_placeholders(input, &map);
    assert_eq!(out, "java -jar myapp-admin.jar --port=8080");
}

#[test]
fn replace_placeholders_with_empty_key_matches_str_replace() {
    let map = vec![(String::new(), "-".to_string())];
    assert_eq!(replace_placeholders("ab", &map), "ab".replace("", "-"));
}

// ---------- replacement UI ----------

fn base_params() -> CustomizeParams {
    let mut p = CustomizeParams::default();
    p.new_module_prefix = "demo".into();
    p.new_project_name = "Demo".into();
    p.frontend_title = "演示系统".into();
    p.server_port = 9000;
    p.copyright_year = "2026".into();
    p.copyright_holder = "演示公司".into();
    p
}

#[test]
fn placeholders_include_title_port_copyright() {
    let map = ruoyi_forge::replace_ui::build_placeholders(&base_params());
    assert_eq!(lookup(&map, "{{FRONTEND_TITLE}}").map(String::as_str), Some("演示系统"));
    assert_eq!(
        lookup(&map, "{{API_BASE_URL_DEV}}").map(String::as_str),
        Some("http://localhost:9000")
    );
    assert_eq!(lookup(&map, "{{COPYRIGHT_YEAR}}").map(String::as_str), Some("2026"));
    assert_eq!(lookup(&map, "{{COPYRIGHT_HOLDER}}").map(String::as_str), Some("演示公司"));
    assert_eq!(lookup(&map, "{{SERVER_PORT}}").map(String::as_str), Some("9000"));
}

#[test]
fn copyright_holder_falls_back_to_title_then_project() {
    let mut p = base_params();
    p.copyright_holder = String::new();
    let map = placeholders_for_year(&p, "2030");
    assert_eq!(lookup(&map, "{{COPYRIGHT}}").map(String::as_str), Some("2030 演示系统"));
    p.frontend_title = String::new();
    let map = placeholders_for_year(&p, "2030");
    assert_eq!(lookup(&map, "{{COPYRIGHT_HOLDER}}").map(String::as_str), Some("Demo"));
}

#[test]
fn prod_base_url_follows_server_name_and_scheme() {
    let mut p = base_params();
    assert_eq!(build_prod_base_url(&p), "https://your-domain.com");
    p.server_name = "a.example.com".into();
    assert_eq!(build_prod_base_url(&p), "http://a.example.com");
    p.use_https = true;
    assert_eq!(build_prod_base_url(&p), "https://a.example.com");
}

#[test]
fn current_year_is_used_when_none_given() {
    let mut p = base_params();
    p.copyright_year = String::new();
    let map = ruoyi_forge::replace_ui::build_placeholders(&p);
    let year = lookup(&map, "{{COPYRIGHT_YEAR}}").unwrap();
    assert_eq!(year.len(), 4);
    assert!(year.chars().all(|c| c.is_ascii_digit()));
}

// ---------- validator ----------

#[test]
fn unknown_ui_template_falls_back_to_vben_spec() {
    let spec = ui_template_spec("unknown-ui");
    assert!(spec.required_files.contains(&"pnpm-workspace.yaml"));
    assert!(spec.placeholder_check_files.contains(&"apps/web-ele/.env"));
    assert_eq!(spec.structure_desc, "为 Vben monorepo 结构");
}

#[test]
fn empty_ui_template_matches_vben_spec() {
    assert_eq!(
        ui_template_spec("").required_files,
        ui_template_spec("vben-web-ele").required_files
    );
}

#[test]
fn arco_ui_template_has_its_own_spec() {
    let spec = ui_template_spec("arco");
    assert_eq!(spec.structure_desc, "为 Arco 单包工程结构");
    assert!(spec.required_files.contains(&"src/main.ts"));
    assert_eq!(spec.placeholder_check_files.len(), 4);
}

// ---------- finalName ----------

use ruoyi_forge::scripts::inject_final_name;

#[test]
fn inject_final_name_into_plain_build_tag() {
    let pom = "<project>\n  <build>\n    <plugins/>\n  </build>\n</project>";
    let out = inject_final_name(pom, "myapp-admin");
    assert!(out.contains("<finalName>myapp-admin</finalName>"), "应注入 finalName");
    let idx_build = out.find("<build>").unwrap();
    let idx_final = out.find("<finalName>").unwrap();
    assert!(idx_final > idx_build, "finalName 应在 <build> 之后");
    assert!(out.contains("</project>"), "不应破坏 </project>");
}

#[test]
fn inject_final_name_into_build_tag_with_attributes() {
    let pom = "<project>\n  <build xmlns=\"http://maven\">\n    <plugins/>\n  </build>\n</project>";
    let out = inject_final_name(pom, "demo-admin");
    assert!(out.contains("<finalName>demo-admin</finalName>"));
    assert!(out.contains("<build xmlns=\"http://maven\">"));
}

#[test]
fn inject_final_name_creates_build_section_when_absent() {
    let pom = "<project>\n  <dependencies/>\n</project>";
    let out = inject_final_name(pom, "foo-admin");
    assert!(out.contains("<finalName>foo-admin</finalName>"));
    assert!(out.contains("<build>"), "无 build 段时应自动新建");
    assert!(out.contains("</build>"));
    assert!(out.contains("</project>"));
}

#[test]
fn inject_final_name_returns_unchanged_when_no_project_close_tag() {
    let pom = "<project><dependencies/>";
    let out = inject_final_name(pom, "x-admin");
    assert_eq!(out, pom);
}

#[test]
fn inject_final_name_exact_text() {
    assert_eq!(
        inject_final_name("<project><build><x/></build></project>", "a"),
        "<project><build>        <finalName>a</finalName>\n<x/></build></project>"
    );
    assert_eq!(
        inject_final_name("<project><buildx/></project>", "a"),
        "<project><buildx/>    <build>\n        <finalName>a</finalName>\n    </build>\n</project>"
    );
}

#[test]
fn oss_and_wechat_prioritize_modules_by_suffix() {
    let mods: Vec<String> = ["x-admin", "a", "demo-framework", "common-x", "demo-common"]
        .iter()
        .map(|s| s.to_string())
        .collect();
    let want = vec!["demo-common", "demo-framework", "x-admin", "a", "common-x"];
    assert_eq!(ruoyi_forge::oss::prioritize_modules(&mods), want);
    assert_eq!(ruoyi_forge::wechat::prioritize_modules(&mods), want);
}

#[test]
fn pom_dependencies_added_after_open_tag_or_as_new_section() {
    let pom = "<project>\n  <dependencies>\n  </dependencies>\n</project>";
    let out = ruoyi_forge::snowflake::add_hutool_dependency(pom);
    assert_eq!(
        out,
        "<project>\n  <dependencies>\n    <dependency>\n        <groupId>cn.hutool</groupId>\n        <artifactId>hutool-all</artifactId>\n        <version>5.8.32</version>\n    </dependency>\n\n  </dependencies>\n</project>"
    );
    let bare = ruoyi_forge::wechat::add_wechat_dependency("<project>\n</project>");
    assert_eq!(
        bare,
        "<project>\n    <dependencies>\n    <dependency>\n        <groupId>com.github.wechatpay-apiv3</groupId>\n        <artifactId>wechatpay-java</artifactId>\n        <version>0.2.17</version>\n    </dependency>\n    </dependencies>\n</project>"
    );
    let oss = ruoyi_forge::oss::add_oss_dependency("<dependencies></dependencies>", "minio").unwrap();
    assert!(oss.contains("<artifactId>minio</artifactId>\n        <version>8.5.12</version>"));
    assert!(ruoyi_forge::oss::add_oss_dependency("<dependencies></dependencies>", "s3").is_none());
}

#[test]
fn oss_yml_block_appended_once() {
    let mut p = CustomizeParams::default();
    p.new_module_prefix = "demo".into();
    p.enable_oss = true;
    p.oss_provider = "minio".into();
    p.oss_bucket = "it's".into();
    let out = ruoyi_forge::oss::append_oss_yml("server:\n  port: 8080", &p).unwrap();
    assert!(out.starts_with("server:\n  port: 8080\n\n# ===== demo OSS 对象存储配置 =====\ndemo:\n  oss: # 对象存储\n    enabled: true # 是否启用 OSS\n    provider: 'minio'"));
    assert!(out.contains("    bucket: 'it''s' # bucket 名称\n"));
    assert!(out.ends_with("    custom-domain: '' # 自定义域名（CDN，留空用默认域名）\n"));
    assert!(ruoyi_forge::oss::append_oss_yml(&out, &p).is_none());
}

#[test]
fn admin_module_is_first_admin_else_first() {
    let mods: Vec<String> = ["demo-common", "demo-admin", "x-admin"].iter().map(|s| s.to_string()).collect();
    assert_eq!(ruoyi_forge::maven::find_admin_module(&mods).as_deref(), Some("demo-admin"));
    let mods: Vec<String> = ["demo-common", "demo-system"].iter().map(|s| s.to_string()).collect();
    assert_eq!(ruoyi_forge::maven::find_admin_module(&mods).as_deref(), Some("demo-common"));
    assert_eq!(ruoyi_forge::maven::find_admin_module(&Vec::new()), None);
}

#[test]
fn wechat_renders_and_gitignore() {
    let mut p = CustomizeParams::default();
    p.new_package = "com.demo".into();
    p.new_module_prefix = "demo".into();
    p.pay_mode = "public-key".into();
    let props = ruoyi_forge::wechat::render_wx_pay_properties(&p);
    assert!(props.starts_with("package com.demo.framework.config;"));
    assert!(props.contains("@ConfigurationProperties(prefix = \"demo.wechat.pay\")"));
    assert!(props.contains("public boolean isEnabled() { return enabled; }"));
    let cfg = ruoyi_forge::wechat::render_wechat_pay_config(&p);
    assert!(cfg.contains("@ConditionalOnProperty(prefix = \"demo.wechat.pay\", name = \"mode\", havingValue = \"public-key\")"));
    assert!(cfg.contains("private String readResource(String path) throws IOException"));
    let readme = ruoyi_forge::wechat::render_cert_readme(&p);
    assert!(readme.contains("（`public-key`）"));
    assert!(readme.contains("- `apiclient_key.pem (商户 API 私钥)`\n- `wxp_pub.pem (微信支付平台公钥)`\n"));
    assert!(readme.contains("`demo.wechat.pay.private-key-path`"));
    p.pay_mode = "v2".into();
    assert!(ruoyi_forge::wechat::render_cert_readme(&p).contains("apiclient_cert.p12 (V2 商户证书)"));
    let g = ruoyi_forge::wechat::append_gitignore("target/").unwrap();
    assert!(g.starts_with("target/\n\n# wechat pay certs\n"));
    assert!(ruoyi_forge::wechat::append_gitignore(&g).is_none());
    assert_eq!(
        ruoyi_forge::wechat::append_gitignore("").unwrap(),
        "\n# wechat pay certs\nsrc/main/resources/cert/*.pem\nsrc/main/resources/cert/*.p12\n!src/main/resources/cert/.gitkeep\n!src/main/resources/cert/README.md\n"
    );
}

#[test]
fn final_name_set_once() {
    let mut p = CustomizeParams::default();
    p.new_module_prefix = "demo".into();
    let pom = "<project>\n    <build>\n    </build>\n</project>";
    let out = set_admin_pom_final_name(pom, &p).unwrap();
    assert!(out.contains("<build>        <finalName>demo-admin</finalName>\n\n    </build>"));
    assert!(set_admin_pom_final_name(&out, &p).is_none());
    assert!(set_final_name("no project tag", "x").is_none());
}
