use ruoyi_forge::params::CustomizeParams;
use ruoyi_forge::web_footer::{
    enable_footer_visible, footer_start_year, footer_start_year_with, patch_app_main, patch_auth_page,
    patch_ruoyi_config, patch_ruoyi_yaml_block, patch_security_config, remove_footer_switch,
    render_cloud_web_info_controller,
};

fn params_with(year: &str) -> CustomizeParams {
    let mut p = CustomizeParams::default();
    p.new_package = "com.example.demo".into();
    p.new_module_prefix = "demo".into();
    p.original_module_prefix = "ruoyi".into();
    p.copyright_year = year.into();
    p
}

// ---------- yaml 补丁 ----------

#[test]
fn yaml_patch_syncs_year_and_inserts_icp() {
    let content = "ruoyi:\n  name: RuoYi\n  version: 3.9.2\n  copyrightYear: 2018\n  profile: /tmp\n";
    let out = patch_ruoyi_yaml_block(content, "2026").unwrap();
    assert!(out.contains("copyrightYear: 2026"), "应同步起始年：{out}");
    assert!(out.contains("icp: ''"), "应插入 icp 占位：{out}");
    let icp_pos = out.find("icp: ''").unwrap();
    let year_pos = out.find("copyrightYear: 2026").unwrap();
    let profile_pos = out.find("profile:").unwrap();
    assert!(year_pos < icp_pos && icp_pos < profile_pos);
}

#[test]
fn yaml_patch_idempotent_when_icp_present() {
    let content = "ruoyi:\n  copyrightYear: 2026\n  icp: '浙ICP备1号'\n";
    let out = patch_ruoyi_yaml_block(content, "2026").unwrap();
    assert_eq!(out, content, "重复执行不应再改动");
}

#[test]
fn yaml_patch_inserts_all_when_no_copyright_year() {
    let content = "ruoyi:\n  name: RuoYi\n  profile: /tmp\n";
    let out = patch_ruoyi_yaml_block(content, "2026").unwrap();
    assert!(out.contains("copyrightYear: 2026"));
    assert!(out.contains("icp: ''"));
}

#[test]
fn yaml_patch_returns_none_without_ruoyi_block() {
    let content = "server:\n  port: 8080\n";
    assert!(patch_ruoyi_yaml_block(content, "2026").is_none());
}

#[test]
fn yaml_patch_exact_text_keeps_indent() {
    let content = "ruoyi:\n    copyrightYear: 2018\n";
    let out = patch_ruoyi_yaml_block(content, "2026").unwrap();
    assert_eq!(
        out,
        "ruoyi:\n    copyrightYear: 2026\n    # ICP备案号：备案通过后填写（如 浙ICP备2026000000号-1），修改后重启后端生效；留空则页脚不显示备案号\n    icp: ''\n"
    );
}

#[test]
fn yaml_patch_year_is_a_replacement_template() {
    // the year goes into a regex replacement template: `$$` there is one `$`
    let content = "ruoyi:\n  copyrightYear: 2018\n  icp: x\n";
    let out = patch_ruoyi_yaml_block(content, "20$$26").unwrap();
    assert_eq!(out, "ruoyi:\n  copyrightYear: 20$26\n  icp: x\n");
}

// ---------- 起始年 ----------

#[test]
fn start_year_prefers_plain_four_digit_param() {
    assert_eq!(footer_start_year(&params_with("2026")), "2026");
    let p = params_with("2024-2026");
    assert_eq!(footer_start_year(&p), chrono::Local::now().format("%Y").to_string());
    let p = params_with("");
    assert_eq!(footer_start_year(&p), chrono::Local::now().format("%Y").to_string());
}

#[test]
fn start_year_with_given_current_year() {
    assert_eq!(footer_start_year_with(" 2021 ", "2030"), "2021");
    assert_eq!(footer_start_year_with("20a1", "2030"), "2030");
    assert_eq!(footer_start_year_with("12345", "2030"), "2030");
}

// ---------- RuoYiConfig / SecurityConfig ----------

#[test]
fn ruoyi_config_inserts_field_and_accessors() {
    let src = "public class RuoYiConfig {\n    private String copyrightYear;\n\n    public void setCopyrightYear(String copyrightYear) {\n        this.copyrightYear = copyrightYear;\n    }\n}\n";
    let out = patch_ruoyi_config(src).unwrap();
    assert!(out.contains("private String icp;"), "应插入字段：{out}");
    assert!(out.contains("public String getIcp()"), "应插入 getter：{out}");
    assert!(out.contains("public void setIcp(String icp)"), "应插入 setter：{out}");
    assert!(patch_ruoyi_config(&out).is_none());
    assert!(patch_ruoyi_config("public class X {}").is_none());
}

#[test]
fn security_config_adds_webinfo_after_captcha() {
    let src = "requests.requestMatchers(\"/login\", \"/register\", \"/captchaImage\").permitAll()";
    let out = patch_security_config(src).unwrap();
    assert_eq!(
        out,
        "requests.requestMatchers(\"/login\", \"/register\", \"/captchaImage\", \"/webInfo\").permitAll()"
    );
    assert!(patch_security_config(&out).is_none());
    assert!(patch_security_config("no anchor").is_none());
}

#[test]
fn cloud_web_info_controller_uses_package() {
    let out = render_cloud_web_info_controller(&params_with("2026"));
    assert!(out.starts_with("package com.example.demo.system.controller;\n"));
    assert!(out.contains("@Value(\"${ruoyi.icp:}\")"));
    assert!(out.contains("import com.example.demo.system.service.ISysConfigService;"));
}

// ---------- 经典前端 ----------

#[test]
fn settings_footer_visible_turned_on() {
    let s = "module.exports = {\n  footerVisible: false,\n  x: 1\n}\n";
    assert_eq!(enable_footer_visible(s), "module.exports = {\n  footerVisible: true,\n  x: 1\n}\n");
    assert_eq!(enable_footer_visible("footerVisible: true"), "footerVisible: true");
}

#[test]
fn settings_drawer_footer_switch_removed() {
    let s = "<div>\n      <div class=\"drawer-item\">\n        <span>动态标题</span>\n      </div>\n\n      <div class=\"drawer-item\">\n        <span>底部版权</span>\n        <el-switch v-model=\"footerVisible\" class=\"drawer-switch\" />\n      </div>\n</div>";
    let out = remove_footer_switch(s);
    assert!(!out.contains("底部版权"));
    assert!(out.contains("动态标题"));
}

#[test]
fn app_main_gets_copyright() {
    let s = "<template>\n  <section class=\"app-main\">\n    <router-view />\n  </section>\n</template>\n<script>\nexport default {\n  name: 'AppMain'\n}\n</script>\n";
    let out = patch_app_main(s).unwrap();
    assert!(out.contains("  <copyright />\n  </section>"), "{out}");
    assert!(out.contains("<script>\nimport copyright from \"./Copyright/index\""), "{out}");
    assert!(out.contains("export default {\n  components: { copyright },"), "{out}");
    assert!(patch_app_main(&out).is_none());
    assert!(patch_app_main("<template></template>").is_none());
}

#[test]
fn auth_page_footer_replaced() {
    let login = "<template>\n  <div class=\"login\">\n    <div class=\"el-login-footer\">\n      <span>{{ footerContent }}</span>\n    </div>\n  </div>\n</template>\n\n<script>\nimport { getCodeImg } from \"@/api/login\"\nimport defaultSettings from '@/settings'\n\nexport default {\n  name: \"Login\",\n  data() {\n    return {}\n  }\n}\n</script>\n";
    let out = patch_auth_page(login, "el-login-footer", "name: \"Login\"").unwrap();
    assert!(!out.contains("el-login-footer"));
    assert!(out.contains("<copyright />"));
    assert!(out.contains("import defaultSettings from '@/settings'\nimport copyright from \"@/layout/components/Copyright\"\n"));
    assert!(out.contains("name: \"Login\",\n  components: { copyright },"));
    assert!(!out.contains(",,"));
    assert!(patch_auth_page(&out, "el-login-footer", "name: \"Login\"").is_none());
}
