use ruoyi_forge::check_items::ui_files_check;
use ruoyi_forge::encoding::{decode_bytes, looks_like_utf8, Decoded};
use ruoyi_forge::params::CustomizeParams;
use ruoyi_forge::scripts::set_admin_pom_final_name;
use ruoyi_forge::validator::{check_mp_jsqlparser, check_mp_starter_matches_boot, ui_template_spec, CheckResult};

#[test]
fn ascii_decoded_as_utf8() {
    let bytes = b"public class App {}";
    assert!(looks_like_utf8(bytes));
    assert_eq!(decode_bytes(bytes), Some(Decoded::Utf8("public class App {}".into())));
}

#[test]
fn utf8_chinese_decoded_as_utf8() {
    let s = "若依管理系统";
    let bytes = s.as_bytes();
    assert!(looks_like_utf8(bytes));
    assert_eq!(decode_bytes(bytes), Some(Decoded::Utf8(s.into())));
}

#[test]
fn gbk_chinese_transcoded_to_utf8() {
    let gbk_bytes = [0xB9, 0xDC, 0xC0, 0xED, 0xCF, 0xB5, 0xCD, 0xB3];
    assert!(!looks_like_utf8(&gbk_bytes));
    assert_eq!(decode_bytes(&gbk_bytes), Some(Decoded::Gbk("管理系统".into())));
}

#[test]
fn invalid_bytes_rejected() {
    let bad = [0xFF, 0xFE, 0xFF, 0x41, 0x00];
    assert!(!looks_like_utf8(&bad));
    assert_eq!(decode_bytes(&bad), None);
    let bad2 = [0xFF, 0x41, 0x42];
    assert_eq!(decode_bytes(&bad2), None);
    let bad3 = [0x81, 0x30];
    assert_eq!(decode_bytes(&bad3), None);
}

/// The files of an Arco UI laid out on disk, as the completeness check sees
/// them: the Vben layout's files that it lacks.
#[test]
fn arco_ui_under_vben_spec_fails() {
    let arco = ui_template_spec("arco").required_files;
    let vben = ui_template_spec("vben-web-ele");
    let missing: Vec<String> =
        vben.required_files.iter().filter(|f| !arco.contains(f)).map(|f| f.to_string()).collect();
    let integrity = ui_files_check("demo", vben.structure_desc, &missing);
    assert!(
        matches!(integrity.result, CheckResult::Fail),
        "arco 结构不含 pnpm-workspace.yaml，vben 规格应 FAIL：{}",
        integrity.message
    );
    assert!(integrity.message.contains("pnpm-workspace.yaml"));
}

#[test]
fn boot4_with_boot3_starter_residue_fails() {
    let poms = vec![
        "<project>\n  <properties>\n    <spring-boot.version>4.0.0</spring-boot.version>\n  </properties>\n</project>\n".to_string(),
        "<project>\n  <dependencies>\n    <dependency>\n      <groupId>com.baomidou</groupId>\n      <artifactId>mybatis-plus-spring-boot3-starter</artifactId>\n      <version>3.5.15</version>\n    </dependency>\n  </dependencies>\n</project>\n".to_string(),
    ];
    let item = check_mp_starter_matches_boot(&poms, 4);
    assert!(item.item.contains("starter 与 Boot"));
    assert!(matches!(item.result, CheckResult::Fail), "Boot 4 + boot3 starter 残留应 FAIL，实际: {} - {}", item.message, item.item);
    assert!(item.message.contains("mybatis-plus-spring-boot3-starter"));
}

#[test]
fn enable_mp_without_jsqlparser_fails() {
    let poms = vec![
        "<project>\n  <properties>\n    <spring-boot.version>4.0.3</spring-boot.version>\n  </properties>\n</project>\n".to_string(),
        "<project>\n  <dependencies>\n    <dependency>\n      <groupId>com.baomidou</groupId>\n      <artifactId>mybatis-plus-spring-boot4-starter</artifactId>\n      <version>3.5.15</version>\n    </dependency>\n  </dependencies>\n</project>\n".to_string(),
    ];
    let item = check_mp_jsqlparser(&poms, Some(4));
    assert!(item.item.contains("jsqlparser 分页模块"));
    assert!(matches!(item.result, CheckResult::Fail), "开启 MP 且无 jsqlparser 应 FAIL，实际: {} - {}", item.message, item.item);
}

fn sample_params() -> CustomizeParams {
    let mut p = CustomizeParams::default();
    p.new_module_prefix = "myapp".into();
    p.new_project_name = "myapp".into();
    p
}

#[test]
fn set_admin_pom_final_name_writes_and_is_idempotent() {
    let pom = "<project>\n  <build>\n    <plugins/>\n  </build>\n</project>";
    let p = sample_params();
    let first = set_admin_pom_final_name(pom, &p);
    assert!(first.is_some(), "首次应修改");
    let content = first.unwrap();
    assert!(content.contains("<finalName>myapp-admin</finalName>"));
    assert!(set_admin_pom_final_name(&content, &p).is_none(), "已有 finalName 应跳过");
}

#[test]
fn ruoyi_config_inserts_field_and_accessors_via_temp_file() {
    let src = "public class RuoYiConfig {\n    private String copyrightYear;\n\n    public void setCopyrightYear(String copyrightYear) {\n        this.copyrightYear = copyrightYear;\n    }\n}\n";
    let out = ruoyi_forge::web_footer::patch_ruoyi_config(src).unwrap();
    assert!(out.contains("private String icp;"), "应插入字段：{out}");
    assert!(out.contains("public String getIcp()"), "应插入 getter：{out}");
    assert!(out.contains("public void setIcp(String icp)"), "应插入 setter：{out}");
    assert!(ruoyi_forge::web_footer::patch_ruoyi_config(&out).is_none());
}
