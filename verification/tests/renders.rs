use ruoyi_forge::uniapp::append_config_if_missing;
use ruoyi_forge::sub_agents::{build_default_description, inject_sub_agents, replace_marker_block};
use ruoyi_forge::oss::{maven_dep, provider_cn, render_oss_client, render_oss_controller, render_oss_properties};
use ruoyi_forge::params::CustomizeParams;
use ruoyi_forge::paths::{first_existing, missing_resource_msg, require_found};
use ruoyi_forge::sms_login::{
    graphic_check, render_cloud_sms_login, render_phone_inner_controller, render_sms_code_service,
    render_sms_controller, render_sms_properties, render_vue_sms_login, servlet_ns, slider_check,
    ALIYUN_SMS_GAV, TENCENT_COMMON_GAV, TENCENT_SMS_GAV,
};
use ruoyi_forge::snowflake::is_primary_insert;
use ruoyi_forge::sub_agents::{parse_frontmatter, unquote};
use ruoyi_forge::wechat_login::{render_cloud_controller, render_vue_controller};

// ---------- OSS ----------

#[test]
fn oss_client_uses_jakarta_for_boot3() {
    let mut params = CustomizeParams::default();
    params.new_package = "com.example".into();
    params.new_module_prefix = "demo".into();
    params.oss_provider = "aliyun".into();

    let src = render_oss_client(&params, Some(3));
    assert!(
        src.contains("@jakarta.annotation.PostConstruct"),
        "SB3 应使用 jakarta，生成内容:\n{src}"
    );
    assert!(!src.contains("@javax.annotation.PostConstruct"), "SB3 不应出现 javax");

    let src_unknown = render_oss_client(&params, None);
    assert!(src_unknown.contains("@jakarta.annotation.PostConstruct"));
}

#[test]
fn oss_client_uses_javax_for_boot2() {
    let mut params = CustomizeParams::default();
    params.new_package = "com.example".into();
    params.new_module_prefix = "demo".into();
    params.oss_provider = "minio".into();

    let src = render_oss_client(&params, Some(2));
    assert!(
        src.contains("@javax.annotation.PostConstruct"),
        "SB2 应使用 javax，生成内容:\n{src}"
    );
    assert!(!src.contains("@jakarta.annotation.PostConstruct"), "SB2 不应出现 jakarta");
}

#[test]
fn oss_client_uses_javax_for_boot_2_5() {
    let params = CustomizeParams::default();
    let src = render_oss_client(&params, Some(2));
    assert!(src.contains("@javax.annotation.PostConstruct"));
}

#[test]
fn oss_client_carries_vendor_code_and_package() {
    let mut params = CustomizeParams::default();
    params.new_package = "com.example".into();
    params.new_module_prefix = "demo".into();
    params.oss_provider = "tencent".into();
    let src = render_oss_client(&params, Some(3));
    assert!(src.starts_with("package com.example.framework.config;\n"));
    assert!(src.contains("import com.qcloud.cos.COSClient;"));
    assert!(src.contains("private final COSClient cosClient;"));
    assert!(src.contains("prefix = \"demo.oss\""));
    params.oss_provider = "other".into();
    let src = render_oss_client(&params, Some(3));
    assert!(src.contains("不支持的 OSS 厂商"));
}

#[test]
fn oss_properties_and_controller_use_prefix_and_package() {
    let mut params = CustomizeParams::default();
    params.new_package = "com.example".into();
    params.new_module_prefix = "demo".into();
    let props = render_oss_properties(&params);
    assert!(props.starts_with("package com.example.framework.config;"));
    assert!(props.contains("@ConfigurationProperties(prefix = \"demo.oss\")"));
    let ctrl = render_oss_controller(&params);
    assert!(ctrl.contains("import com.example.framework.config.OssClient;"));
    assert!(ctrl.contains("@PostMapping(\"/common/oss/upload\")"));
}

#[test]
fn oss_vendor_tables() {
    assert_eq!(maven_dep("minio"), Some(("io.minio", "minio", "8.5.12")));
    assert_eq!(maven_dep("aliyun"), Some(("com.aliyun.oss", "aliyun-sdk-oss", "3.17.4")));
    assert_eq!(maven_dep("s3"), None);
    assert_eq!(provider_cn("qiniu"), "七牛云 Kodo");
    assert_eq!(provider_cn("s3"), "未知");
}

// ---------- SMS login ----------

#[test]
fn aliyun_coord_documented() {
    assert_eq!(ALIYUN_SMS_GAV, ("com.aliyun", "dysmsapi20170525", "4.5.1"));
}

#[test]
fn tencent_coord_is_official_not_scheme_typo() {
    assert_eq!(TENCENT_SMS_GAV.0, "com.tencentcloudapi");
    assert_eq!(TENCENT_SMS_GAV.1, "tencentcloud-sdk-java-sms");
    assert_eq!(TENCENT_COMMON_GAV.1, "tencentcloud-sdk-java-common");
    assert_eq!(TENCENT_SMS_GAV.2, TENCENT_COMMON_GAV.2);
}

#[test]
fn vue_controller_paths() {
    let mut p = CustomizeParams::default();
    p.new_package = "com.example".into();
    p.new_module_prefix = "demo".into();
    let src = render_sms_controller(&p, false, Some(2), false);
    assert!(src.contains("@PostMapping(\"/smsCode\")"), "{src}");
    assert!(src.contains("@PostMapping(\"/smsLogin\")"), "{src}");
    assert!(src.contains("javax.servlet"), "{src}");
    assert!(src.contains("请先完成图形验证码"), "{src}");
}

#[test]
fn slider_branch_in_controller() {
    let mut p = CustomizeParams::default();
    p.new_package = "com.example".into();
    p.enable_captcha_slider = true;
    let src = render_sms_controller(&p, false, Some(3), false);
    assert!(src.contains("captchaVerification"), "{src}");
    assert!(src.contains("jakarta.servlet"), "{src}");
}

#[test]
fn cloud_sms_login_and_inner_check_status_delflag() {
    let src = render_cloud_sms_login("com.example.auth.config.SmsCodeService", "selectUserByPhonenumber");
    assert!(src.contains("getDelFlag()"), "{src}");
    assert!(src.contains("getStatus()"), "{src}");
    assert!(src.contains("UserStatus.DELETED"), "{src}");
    assert!(src.contains("UserStatus.DISABLE"), "{src}");
    assert!(src.contains("ServiceException"), "{src}");
    let mut p = CustomizeParams::default();
    p.new_package = "com.example".into();
    let inner = render_phone_inner_controller(&p, "selectUserByPhonenumber");
    assert!(inner.contains("getDelFlag()"), "{inner}");
    assert!(inner.contains("getStatus()"), "{inner}");
    assert!(inner.contains("throw new ServiceException"), "{inner}");
}

#[test]
fn cloud_controller_uses_r_and_token_service() {
    let mut p = CustomizeParams::default();
    p.new_package = "com.example".into();
    let src = render_sms_controller(&p, true, None, true);
    assert!(src.starts_with("package com.example.auth.controller;"));
    assert!(src.contains("import com.example.auth.config.SmsCodeService;"));
    assert!(src.contains("public R<?> smsCode("));
    assert!(src.contains("private RedisService redisService;"));
    assert!(src.contains("com.example.common.security.service.TokenService tokenService;"));
    assert!(src.contains("\"captcha_codes:\" + uuid"));
}

#[test]
fn captcha_checks_and_servlet_namespace() {
    let g = graphic_check(false, false, "com.x");
    assert!(g.contains("com.x.common.constant.CacheConstants.CAPTCHA_CODE_KEY + uuid"));
    assert!(g.contains("redisCache.getCacheObject(verifyKey)"));
    assert!(slider_check(true).contains("return R.fail(\"滑块验证失败\")"));
    assert_eq!(servlet_ns(Some(2)), "javax");
    assert_eq!(servlet_ns(Some(3)), "jakarta");
    assert_eq!(servlet_ns(None), "jakarta");
}

#[test]
fn sms_properties_and_code_service() {
    let mut p = CustomizeParams::default();
    p.new_package = "com.example".into();
    p.new_module_prefix = "demo".into();
    p.sms_provider = "tencent".into();
    let props = render_sms_properties(&p, true);
    assert!(props.starts_with("package com.example.auth.config;"));
    assert!(props.contains("(prefix = \"demo.sms\")"));
    let svc = render_sms_code_service(&p, false, false);
    assert!(svc.starts_with("package com.example.framework.config;\n\nimport com.example.common.core.redis.RedisCache;"));
    assert!(svc.contains("SmsClient"));
    assert!(svc.contains("phone.matches(\"^1\\\\d{10}$\")"));
    p.sms_provider = "aliyun".into();
    let svc = render_sms_code_service(&p, true, true);
    assert!(svc.contains("dysmsapi.aliyuncs.com"));
    assert!(svc.contains("redisService.setCacheObject(coolKey"));
    let vue = render_vue_sms_login("a.B", "selectUserByPhone");
    assert!(vue.contains("private a.B forgeSmsCodeService;"));
    assert!(vue.contains("userService.selectUserByPhone(phone);"));
}

// ---------- WeChat login ----------

#[test]
fn vue_controller_mapping_and_token_service() {
    let mut p = CustomizeParams::default();
    p.new_package = "com.example".into();
    p.new_module_prefix = "demo".into();
    let src = render_vue_controller(&p);
    assert!(src.contains("@RequestMapping(\"/app/demo/auth\")"), "{src}");
    assert!(src.contains("@PostMapping(\"/wechat-login\")"), "{src}");
    assert!(src.contains("framework.web.service.TokenService"), "{src}");
    assert!(src.contains("jscode2session"), "{src}");
    assert!(src.contains("getDelFlag()"), "{src}");
    assert!(src.contains("getStatus()"), "{src}");
    assert!(!src.contains("common.security.service.TokenService"), "{src}");
}

#[test]
fn cloud_controller_uses_security_token_service() {
    let mut p = CustomizeParams::default();
    p.new_package = "com.example".into();
    p.new_module_prefix = "demo".into();
    let src = render_cloud_controller(&p);
    assert!(src.contains("package com.example.system.controller"), "{src}");
    assert!(src.contains("@RequestMapping(\"/app/demo/auth\")"), "{src}");
    assert!(src.contains("common.security.service.TokenService"), "{src}");
    assert!(src.contains("核实日期 2026-09-06"), "{src}");
    assert!(src.contains("common.core.web.domain.AjaxResult"), "{src}");
    assert!(src.contains("getDelFlag()"), "{src}");
    assert!(src.contains("getStatus()"), "{src}");
}

// ---------- snowflake ----------

#[test]
fn is_primary_insert_rules() {
    assert!(is_primary_insert("insertRole", "SysRole"));
    assert!(is_primary_insert("insertSysRole", "SysRole"));
    assert!(is_primary_insert("insertUser", "SysUser"));
    assert!(!is_primary_insert("insertRoleMenu", "SysRole"));
    assert!(!is_primary_insert("insertUserPost", "SysUser"));
}

#[test]
fn primary_insert_without_sys_prefix() {
    assert!(is_primary_insert("insertOrder", "Order"));
    assert!(!is_primary_insert("insertOrders", "Order"));
}

// ---------- sub-agents ----------

#[test]
fn parse_frontmatter_extracts_name_and_description() {
    let content = "---\nname: \"demo\"\ndescription: '测试用说明'\ncolor: green\ntools:\n  - Read\n---\n正文";
    let (name, desc) = parse_frontmatter(content);
    assert_eq!(name, "demo");
    assert_eq!(desc, "测试用说明");
}

#[test]
fn frontmatter_needs_leading_fence_and_stops_at_closing_one() {
    assert_eq!(parse_frontmatter("name: x\n---\n"), (String::new(), String::new()));
    let (n, d) = parse_frontmatter("---\n---\nname: late\n");
    assert_eq!((n.as_str(), d.as_str()), ("", ""));
    let (n, _) = parse_frontmatter("  ---  \nname:\nname: second\n");
    assert_eq!(n, "second");
}

#[test]
fn unquote_strips_one_matching_pair() {
    assert_eq!(unquote(" \"a\" "), "a");
    assert_eq!(unquote("'b'"), "b");
    assert_eq!(unquote("\"c'"), "\"c'");
    assert_eq!(unquote("\""), "\"");
}

// ---------- bundled resources ----------

#[test]
fn require_error_message_avoids_machine_path_on_total_miss() {
    let err = require_found(None, "zz-definitely-missing/pkg", "示例").unwrap_err();
    assert!(err.contains("zz-definitely-missing/pkg"), "应包含相对路径：{err}");
    assert_eq!(err, "示例 模板不存在：zz-definitely-missing/pkg（随包资源缺失或安装不完整）");
}

#[test]
fn resource_lookup_takes_first_existing_candidate() {
    let c = vec![("a".to_string(), false), ("b".to_string(), true), ("c".to_string(), true)];
    assert_eq!(first_existing(&c, "p"), "b");
    assert_eq!(first_existing(&vec![("a".to_string(), false)], "p"), "p");
    assert_eq!(require_found(Some("x".into()), "r", "l"), Ok("x".to_string()));
    assert_eq!(missing_resource_msg("Nginx", "templates/n"), "Nginx 模板不存在：templates/n（随包资源缺失或安装不完整）");
}

#[test]
fn config_block_appended_unless_top_key_present() {
    let out = append_config_if_missing("server:\n  port: 1", "demo", "\ndemo:\n  a: 1\n").unwrap();
    assert_eq!(out, "server:\n  port: 1\n\ndemo:\n  a: 1\n");
    assert!(append_config_if_missing("x: 1\ndemo:  \n  a: 1\n", "demo", "b").is_none());
    // an indented `demo:` is not the top-level key
    assert!(append_config_if_missing("x:\n  demo:\n", "demo", "b").is_some());
}

#[test]
fn sub_agent_guide_and_agents_md() {
    let agents = vec![
        ("architect".to_string(), " 设计 ".to_string()),
        ("vision".to_string(), "  ".to_string()),
    ];
    let d = build_default_description("# 协作\n\n{{SUB_AGENTS_SECTIONS}}\n", &agents);
    assert_eq!(d, "# 协作\n\n## architect\n\n设计\n\n---\n\n## vision\n\n（该智能体未填写 description）\n");
    let empty = build_default_description("{{SUB_AGENTS_SECTIONS}}", &Vec::new());
    assert!(empty.starts_with("> 暂未扫描到任何子智能体"));

    let created = inject_sub_agents(None, "", " guide ").unwrap();
    assert_eq!(created, "# AI 编码规范\n\n<!-- SUB_AGENTS_RULES_BEGIN -->\nguide\n<!-- SUB_AGENTS_RULES_END -->\n");
    let appended = inject_sub_agents(Some("# Rules\n\n\n"), "mine", "gen").unwrap();
    assert_eq!(appended, "# Rules\n\n<!-- SUB_AGENTS_RULES_BEGIN -->\nmine\n<!-- SUB_AGENTS_RULES_END -->\n");
    assert!(inject_sub_agents(Some(&appended), "mine", "gen").is_none());
    let replaced = inject_sub_agents(Some(&appended), "new", "gen").unwrap();
    assert_eq!(replaced, "# Rules\n\n<!-- SUB_AGENTS_RULES_BEGIN -->\nnew\n<!-- SUB_AGENTS_RULES_END -->\n");
    assert!(inject_sub_agents(Some("x"), " ", "").is_none());
    assert_eq!(replace_marker_block("<!-- SUB_AGENTS_RULES_BEGIN --> no end", "m"), "<!-- SUB_AGENTS_RULES_BEGIN --> no end");
}
