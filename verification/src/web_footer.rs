//! Footer copyright and ICP filing: the `ruoyi` block of the application
//! configuration, the `icp` property of RuoYiConfig, the public `/webInfo`
//! endpoint and the classic front end's footer, each as a change of a file's text.
use vstd::prelude::*;
use crate::ext_calls::{current_year, regex_is_match};
use crate::nacos_yaml::{
    group_exec, group_text, has_match, regex_has_match, regex_replace_first,
    regex_replaced_first, MatchModel, MatchRule,
};
use crate::params::CustomizeParams;
use crate::nacos_yaml::replace_first;
use crate::patch::{
    copy_chars, find_str, find_str_from, insert_at, insert_at_exec, last_index, last_index_exec,
    replace_first_str,
};
use crate::text::{chars_of, contains, contains_str, extend_chars, extend_str, find, find_from, string_of, trim, trim_chars};

verus! {

// ---------------------------------------------------------------------------
// Start year
// ---------------------------------------------------------------------------

/// Four ASCII digits.
pub open spec fn is_year4(s: Seq<char>) -> bool {
    s.len() == 4 && forall|i: int| 0 <= i < 4 ==> '0' <= #[trigger] s[i] && s[i] <= '9'
}

/// The footer's start year: the configured copyright year when, trimmed, it is
/// four digits, else the current year.
pub open spec fn start_year(copyright_year: Seq<char>, now_year: Seq<char>) -> Seq<char> {
    if is_year4(trim(copyright_year)) {
        trim(copyright_year)
    } else {
        now_year
    }
}

/// The footer's start year given the current year (see `start_year`).
pub fn footer_start_year_with(copyright_year: &str, now_year: &str) -> (r: String)
    ensures
        r@ == start_year(copyright_year@, now_year@),
{
    let y = trim_chars(&chars_of(copyright_year));
    let mut ok = y.len() == 4;
    let mut i: usize = 0;
    while ok && i < y.len()
        invariant
            i <= y.len(),
            ok ==> y.len() == 4,
            ok ==> forall|j: int| 0 <= j < i ==> '0' <= #[trigger] y@[j] && y@[j] <= '9',
            !ok ==> !is_year4(y@),
        decreases y.len() - i,
    {
        if !('0' <= y[i] && y[i] <= '9') {
            ok = false;
        }
        i = i + 1;
    }
    if ok {
        string_of(&y)
    } else {
        String::from_str(now_year)
    }
}

/// The footer's start year: the configured copyright year when, trimmed, it is
/// four digits, else the current local year (read from the clock).
pub fn footer_start_year(params: &CustomizeParams) -> (r: String)
    ensures
        is_year4(trim(params.copyright_year@)) ==> r@ == trim(params.copyright_year@),
        !is_year4(trim(params.copyright_year@)) ==> r@.len() >= 4,
{
    let now = current_year();
    footer_start_year_with(params.copyright_year.as_str(), now.as_str())
}

// ---------------------------------------------------------------------------
// application.yml: the `ruoyi` block
// ---------------------------------------------------------------------------

/// A line holding an `icp:` key.
pub open spec fn icp_key_pattern() -> Seq<char> {
    "(?m)^\\s*icp\\s*:"@
}

/// The `copyrightYear:` line, its indentation captured.
pub open spec fn year_line_pattern() -> Seq<char> {
    "(?m)^([ \\t]*)copyrightYear\\s*:.*$"@
}

/// The `ruoyi:` line.
pub open spec fn ruoyi_line_pattern() -> Seq<char> {
    "(?m)^ruoyi:[ \\t]*$"@
}

/// The commented empty `icp` entry at the given indentation.
pub open spec fn icp_block(indent: Seq<char>) -> Seq<char> {
    "\n"@
        + indent
        + "# ICP备案号：备案通过后填写（如 浙ICP备2026000000号-1），修改后重启后端生效；留空则页脚不显示备案号\n"@
        + indent
        + "icp: ''"@
}

fn icp_block_exec(indent: &Vec<char>) -> (r: Vec<char>)
    ensures
        r@ == icp_block(indent@),
{
    let mut v: Vec<char> = Vec::new();
    extend_str(&mut v, "\n");
    extend_chars(&mut v, indent);
    extend_str(&mut v, "# ICP备案号：备案通过后填写（如 浙ICP备2026000000号-1），修改后重启后端生效；留空则页脚不显示备案号\n");
    extend_chars(&mut v, indent);
    extend_str(&mut v, "icp: ''");
    v
}

/// Group `k + 1` of a match, or `dflt` when it did not take part.
pub open spec fn group_or(gs: Seq<Option<Seq<char>>>, k: int, dflt: Seq<char>) -> Seq<char> {
    if 0 <= k < gs.len() && gs[k] is Some {
        gs[k]->0
    } else {
        dflt
    }
}

/// The `ruoyi` block with `copyrightYear` set to the start year and an empty
/// `icp` entry after it when the file has no `icp:` line: the existing
/// `copyrightYear` line is rewritten (its indentation kept), else the lines are
/// put after `ruoyi:`. `None` when neither line is found.
pub open spec fn ruoyi_yaml_patched(c: Seq<char>, year: Seq<char>) -> Option<Seq<char>> {
    let has_icp = crate::ext_calls::regex_match(icp_key_pattern(), c) == Some(true);
    match crate::ext_calls::regex_pieces_of(year_line_pattern(), c) {
        Some((ps, _t)) if ps.len() > 0 => {
            let indent = group_or(ps[0].2, 0, "  "@);
            let icp = if has_icp { Seq::empty() } else { icp_block(indent) };
            Some(regex_replaced_first(year_line_pattern(), c, MatchModel::Template("${1}copyrightYear: "@ + year + icp)))
        },
        _ => if has_match(ruoyi_line_pattern(), c) {
            let icp = if has_icp { Seq::empty() } else { icp_block("  "@) };
            Some(regex_replaced_first(ruoyi_line_pattern(), c, MatchModel::Template("ruoyi:\n  copyrightYear: "@ + year + icp)))
        } else {
            None
        },
    }
}

/// Sets the start year and the ICP entry in the `ruoyi` block (see `ruoyi_yaml_patched`).
pub fn patch_ruoyi_yaml_block(content: &str, start_year: &str) -> (r: Option<String>)
    ensures
        match r {
            Some(x) => ruoyi_yaml_patched(content@, start_year@) == Some(x@),
            None => ruoyi_yaml_patched(content@, start_year@) is None,
        },
{
    let has_icp = match regex_is_match("(?m)^\\s*icp\\s*:", content) {
        Some(b) => b,
        None => false,
    };
    match crate::ext_calls::regex_pieces("(?m)^([ \\t]*)copyrightYear\\s*:.*$", content) {
        Some((pieces, _tail)) if pieces.len() > 0 => {
            let indent = match &pieces[0].2.first() {
                Some(Some(g)) => chars_of(g.as_str()),
                _ => chars_of("  "),
            };
            proof {
                reveal_strlit("  ");
            }
            let mut t = chars_of("${1}copyrightYear: ");
            extend_str(&mut t, start_year);
            if !has_icp {
                extend_chars(&mut t, &icp_block_exec(&indent));
            }
            let rule = MatchRule::Template(string_of(&t));
            Some(regex_replace_first("(?m)^([ \\t]*)copyrightYear\\s*:.*$", content, &rule))
        },
        _ => if regex_has_match("(?m)^ruoyi:[ \\t]*$", content) {
            let mut t = chars_of("ruoyi:\n  copyrightYear: ");
            extend_str(&mut t, start_year);
            if !has_icp {
                extend_chars(&mut t, &icp_block_exec(&chars_of("  ")));
            }
            let rule = MatchRule::Template(string_of(&t));
            Some(regex_replace_first("(?m)^ruoyi:[ \\t]*$", content, &rule))
        } else {
            None
        },
    }
}

// ---------------------------------------------------------------------------
// RuoYiConfig.java
// ---------------------------------------------------------------------------

/// The `copyrightYear` field.
pub open spec fn year_field_pattern() -> Seq<char> {
    "(private String copyrightYear;)"@
}

/// The `setCopyrightYear` method.
pub open spec fn year_setter_pattern() -> Seq<char> {
    "(?s)(public void setCopyrightYear\\(String copyrightYear\\)\\s*\\{[^{}]*\\})"@
}

/// RuoYiConfig with an `icp` field after `copyrightYear` and its accessors after
/// `setCopyrightYear`; `None` when it already has `getIcp` or lacks either anchor.
pub open spec fn ruoyi_config_patched(c: Seq<char>) -> Option<Seq<char>> {
    if contains(c, "getIcp"@) || !has_match(year_field_pattern(), c) || !has_match(year_setter_pattern(), c) {
        None
    } else {
        let s1 = regex_replaced_first(year_field_pattern(), c, MatchModel::Template("$1\n\n    /** ICP备案号（页脚展示，配置于 application.yaml 的 ruoyi.icp） */\n    private String icp;"@));
        Some(regex_replaced_first(year_setter_pattern(), s1, MatchModel::Template("$1\n\n    public String getIcp()\n    {\n        return icp;\n    }\n\n    public void setIcp(String icp)\n    {\n        this.icp = icp;\n    }"@)))
    }
}

/// Adds the `icp` property to the text of RuoYiConfig (see `ruoyi_config_patched`).
pub fn patch_ruoyi_config(content: &str) -> (r: Option<String>)
    ensures
        match r {
            Some(x) => ruoyi_config_patched(content@) == Some(x@),
            None => ruoyi_config_patched(content@) is None,
        },
{
    if contains_str(&chars_of(content), "getIcp") || !regex_has_match("(private String copyrightYear;)", content)
        || !regex_has_match("(?s)(public void setCopyrightYear\\(String copyrightYear\\)\\s*\\{[^{}]*\\})", content) {
        return None;
    }
    let f = MatchRule::Template(String::from_str("$1\n\n    /** ICP备案号（页脚展示，配置于 application.yaml 的 ruoyi.icp） */\n    private String icp;"));
    let s1 = regex_replace_first("(private String copyrightYear;)", content, &f);
    let g = MatchRule::Template(String::from_str("$1\n\n    public String getIcp()\n    {\n        return icp;\n    }\n\n    public void setIcp(String icp)\n    {\n        this.icp = icp;\n    }"));
    Some(regex_replace_first("(?s)(public void setCopyrightYear\\(String copyrightYear\\)\\s*\\{[^{}]*\\})", s1.as_str(), &g))
}

// ---------------------------------------------------------------------------
// WebInfoController (Cloud)
// ---------------------------------------------------------------------------

/// Text of the Cloud WebInfoController (system module, `/webInfo`, ICP read
/// from the system configuration with the `ruoyi.icp` property as fallback).
pub open spec fn cloud_web_info_controller_text(pkg: Seq<char>) -> Seq<char> {
    "package "@
        + pkg
        + ".system.controller;\n\nimport java.util.HashMap;\nimport java.util.Map;\n\nimport org.springframework.beans.factory.annotation.Autowired;\nimport org.springframework.beans.factory.annotation.Value;\nimport org.springframework.web.bind.annotation.GetMapping;\nimport org.springframework.web.bind.annotation.RequestMapping;\nimport org.springframework.web.bind.annotation.RestController;\nimport "@
        + pkg
        + ".common.core.utils.StringUtils;\nimport "@
        + pkg
        + ".common.core.web.domain.AjaxResult;\nimport "@
        + pkg
        + ".system.service.ISysConfigService;\n\n/**\n* 网站公开信息（免登录）\n*\n* Cloud：网关 /system/** StripPrefix=1，本接口映射 /webInfo，外部门户 /system/webInfo。\n* 官方仓库无 RuoYiConfig，ICP 回退读取 Nacos system 文本 ruoyi.icp。\n*/\n@RestController\n@RequestMapping(\"/webInfo\")\npublic class WebInfoController\n{\n@Value(\"${ruoyi.icp:}\")\nprivate String icpFallback;\n\n@Value(\"${ruoyi.copyrightYear:}\")\nprivate String copyrightYearFallback;\n\n@Autowired\nprivate ISysConfigService configService;\n\n@GetMapping\npublic AjaxResult getWebInfo()\n{\nMap<String, Object> data = new HashMap<>();\ndata.put(\"copyrightYear\", copyrightYearFallback);\ndata.put(\"title\", configService.selectConfigByKey(\"sys.site.title\"));\ndata.put(\"logo\", configService.selectConfigByKey(\"sys.site.logo\"));\nString icp = configService.selectConfigByKey(\"sys.site.icp\");\ndata.put(\"icp\", StringUtils.isNotEmpty(icp) ? icp : icpFallback);\nreturn AjaxResult.success(data);\n}\n}\n"@
}

/// The Cloud WebInfoController for the project's package.
pub fn render_cloud_web_info_controller(params: &CustomizeParams) -> (r: String)
    ensures
        r@ == cloud_web_info_controller_text(params.new_package@),
{
    let pkg = params.new_package.as_str();
    let mut v: Vec<char> = Vec::new();
    extend_str(&mut v, "package ");
    extend_str(&mut v, pkg);
    extend_str(&mut v, ".system.controller;\n\nimport java.util.HashMap;\nimport java.util.Map;\n\nimport org.springframework.beans.factory.annotation.Autowired;\nimport org.springframework.beans.factory.annotation.Value;\nimport org.springframework.web.bind.annotation.GetMapping;\nimport org.springframework.web.bind.annotation.RequestMapping;\nimport org.springframework.web.bind.annotation.RestController;\nimport ");
    extend_str(&mut v, pkg);
    extend_str(&mut v, ".common.core.utils.StringUtils;\nimport ");
    extend_str(&mut v, pkg);
    extend_str(&mut v, ".common.core.web.domain.AjaxResult;\nimport ");
    extend_str(&mut v, pkg);
    extend_str(&mut v, ".system.service.ISysConfigService;\n\n/**\n* 网站公开信息（免登录）\n*\n* Cloud：网关 /system/** StripPrefix=1，本接口映射 /webInfo，外部门户 /system/webInfo。\n* 官方仓库无 RuoYiConfig，ICP 回退读取 Nacos system 文本 ruoyi.icp。\n*/\n@RestController\n@RequestMapping(\"/webInfo\")\npublic class WebInfoController\n{\n@Value(\"${ruoyi.icp:}\")\nprivate String icpFallback;\n\n@Value(\"${ruoyi.copyrightYear:}\")\nprivate String copyrightYearFallback;\n\n@Autowired\nprivate ISysConfigService configService;\n\n@GetMapping\npublic AjaxResult getWebInfo()\n{\nMap<String, Object> data = new HashMap<>();\ndata.put(\"copyrightYear\", copyrightYearFallback);\ndata.put(\"title\", configService.selectConfigByKey(\"sys.site.title\"));\ndata.put(\"logo\", configService.selectConfigByKey(\"sys.site.logo\"));\nString icp = configService.selectConfigByKey(\"sys.site.icp\");\ndata.put(\"icp\", StringUtils.isNotEmpty(icp) ? icp : icpFallback);\nreturn AjaxResult.success(data);\n}\n}\n");
    string_of(&v)
}

// ---------------------------------------------------------------------------
// SecurityConfig.java
// ---------------------------------------------------------------------------

/// SecurityConfig with `/webInfo` permitted next to the first `"/captchaImage"`;
/// `None` when `/webInfo` is already there or there is no such anchor.
pub open spec fn security_config_patched(c: Seq<char>) -> Option<Seq<char>> {
    if contains(c, "\"/webInfo\""@) {
        None
    } else {
        let n = replace_first(c, "\"/captchaImage\""@, "\"/captchaImage\", \"/webInfo\""@);
        if n != c {
            Some(n)
        } else {
            None
        }
    }
}

/// Permits `/webInfo` in the text of SecurityConfig (see `security_config_patched`).
pub fn patch_security_config(content: &str) -> (r: Option<String>)
    ensures
        match r {
            Some(x) => security_config_patched(content@) == Some(x@),
            None => security_config_patched(content@) is None,
        },
{
    let c = chars_of(content);
    if contains_str(&c, "\"/webInfo\"") {
        return None;
    }
    let n = replace_first_str(&c, "\"/captchaImage\"", "\"/captchaImage\", \"/webInfo\"");
    if crate::text::chars_eq(&n, &c) {
        None
    } else {
        Some(string_of(&n))
    }
}

// ---------------------------------------------------------------------------
// Classic front end
// ---------------------------------------------------------------------------

/// `footerVisible: false` in settings.js.
pub open spec fn footer_visible_pattern() -> Seq<char> {
    "(?m)^([ \\t]*footerVisible[ \\t]*:[ \\t]*)false([ \\t]*,?[ \\t]*)$"@
}

/// settings.js with the first `footerVisible: false` set to `true`.
pub open spec fn footer_visible_on(c: Seq<char>) -> Seq<char> {
    regex_replaced_first(footer_visible_pattern(), c, MatchModel::Template("${1}true${2}"@))
}

/// Turns the footer on in the text of settings.js (see `footer_visible_on`).
pub fn enable_footer_visible(content: &str) -> (r: String)
    ensures
        r@ == footer_visible_on(content@),
{
    let rule = MatchRule::Template(String::from_str("${1}true${2}"));
    regex_replace_first("(?m)^([ \\t]*footerVisible[ \\t]*:[ \\t]*)false([ \\t]*,?[ \\t]*)$", content, &rule)
}

/// The footer switch of the settings drawer.
pub open spec fn footer_switch_pattern() -> Seq<char> {
    "(?s)\\n\\s*<div class=\"drawer-item\">\\s*<span>底部版权</span>\\s*<el-switch[^>]*/>\\s*</div>"@
}

/// The settings drawer without its first footer switch.
pub open spec fn footer_switch_removed(c: Seq<char>) -> Seq<char> {
    regex_replaced_first(footer_switch_pattern(), c, MatchModel::Drop)
}

/// Removes the footer switch from the text of the settings drawer.
pub fn remove_footer_switch(content: &str) -> (r: String)
    ensures
        r@ == footer_switch_removed(content@),
{
    regex_replace_first("(?s)\\n\\s*<div class=\"drawer-item\">\\s*<span>底部版权</span>\\s*<el-switch[^>]*/>\\s*</div>", content, &MatchRule::Drop)
}

/// The closing `</section>` line of AppMain, its indentation captured.
pub open spec fn section_close_pattern() -> Seq<char> {
    "(?m)^([ \\t]*)</section>[ \\t]*$"@
}

/// The `components: {` key.
pub open spec fn components_pattern() -> Seq<char> {
    "(components\\s*:\\s*\\{)"@
}

/// AppMain with the component registered in its `components` (or a new
/// `components` entry after `export default {`).
pub open spec fn app_main_registered(s: Seq<char>) -> Option<Seq<char>> {
    if contains(s, "components:"@) {
        Some(regex_replaced_first(components_pattern(), s, MatchModel::Template("${1} copyright,"@)))
    } else {
        match find(s, "export default {"@) {
            Some(q) => Some(insert_at(s, q + "export default {"@.len(), "\n  components: { copyright },"@)),
            None => None,
        }
    }
}

/// AppMain with `<copyright />` before its closing `</section>`, the component
/// imported after `<script>` and registered; `None` when it already uses the
/// component or one of the anchors is missing.
pub open spec fn app_main_patched(c: Seq<char>) -> Option<Seq<char>> {
    if contains(c, "<copyright"@) || !has_match(section_close_pattern(), c) {
        None
    } else {
        let s1 = regex_replaced_first(section_close_pattern(), c, MatchModel::Template("${1}<copyright />\n${1}</section>"@));
        match find(s1, "<script>"@) {
            Some(p) => app_main_registered(insert_at(s1, p + "<script>"@.len(), "\nimport copyright from \"./Copyright/index\""@)),
            None => None,
        }
    }
}

/// Adds the footer component to the text of AppMain.vue (see `app_main_patched`).
pub fn patch_app_main(content: &str) -> (r: Option<String>)
    ensures
        match r {
            Some(x) => app_main_patched(content@) == Some(x@),
            None => app_main_patched(content@) is None,
        },
{
    if contains_str(&chars_of(content), "<copyright") || !regex_has_match("(?m)^([ \\t]*)</section>[ \\t]*$", content) {
        return None;
    }
    let rule = MatchRule::Template(String::from_str("${1}<copyright />\n${1}</section>"));
    let s1 = chars_of(regex_replace_first("(?m)^([ \\t]*)</section>[ \\t]*$", content, &rule).as_str());
    let p = match find_str(&s1, "<script>") {
        Some(p) => p,
        None => return None,
    };
    let script = chars_of("<script>");
    let imp = chars_of("\nimport copyright from \"./Copyright/index\"");
    let s2 = insert_at_exec(&s1, p + script.len(), &imp);
    if contains_str(&s2, "components:") {
        let rule = MatchRule::Template(String::from_str("${1} copyright,"));
        Some(regex_replace_first("(components\\s*:\\s*\\{)", string_of(&s2).as_str(), &rule))
    } else {
        match find_str(&s2, "export default {") {
            Some(q) => {
                let anchor = chars_of("export default {");
                let reg = chars_of("\n  components: { copyright },");
                Some(string_of(&insert_at_exec(&s2, q + anchor.len(), &reg)))
            },
            None => None,
        }
    }
}

/// The footer `div` of the login or register page with the given class.
pub open spec fn footer_div_pattern(footer_class: Seq<char>) -> Seq<char> {
    "(?s)<div class=\""@
        + footer_class
        + "\">\\s*<span>\\{\\{ footerContent \\}\\}</span>\\s*</div>"@
}

/// The import of the footer component.
pub open spec fn copyright_import() -> Seq<char> {
    "import copyright from \"@/layout/components/Copyright\""@
}

/// The page with the component imported on the line after
/// `import defaultSettings` (else right after `<script>`).
pub open spec fn auth_import_step(s: Seq<char>) -> Option<Seq<char>> {
    match find(s, "import defaultSettings"@) {
        Some(pos) => {
            let line_start = match last_index(s.take(pos), '\n') {
                Some(i) => i + 1,
                None => pos,
            };
            let line_end = match find_from(s, "\n"@, line_start) {
                Some(i) => i + 1,
                None => s.len() as int,
            };
            Some(insert_at(s, line_end, copyright_import() + "\n"@))
        },
        None => match find(s, "<script>"@) {
            Some(p) => Some(insert_at(s, p + "<script>"@.len(), "\n"@ + copyright_import())),
            None => None,
        },
    }
}

/// The page with the component registered after the `name_anchor,` line (else
/// after `export default {`).
pub open spec fn auth_register_step(s: Seq<char>, name_anchor: Seq<char>) -> Option<Seq<char>> {
    match find(s, name_anchor + ","@) {
        Some(p) => Some(insert_at(s, p + name_anchor.len() + 1, "\n  components: { copyright },"@)),
        None => match find(s, "export default {"@) {
            Some(q) => Some(insert_at(s, q + "export default {"@.len(), "\n  components: { copyright },"@)),
            None => None,
        },
    }
}

/// The login or register page with its footer `div` replaced by
/// `<copyright />`, the component imported and registered; `None` when it
/// already uses the component, has no such `div`, or an anchor is missing.
pub open spec fn auth_page_patched(c: Seq<char>, footer_class: Seq<char>, name_anchor: Seq<char>) -> Option<Seq<char>> {
    if contains(c, "<copyright"@) || !has_match(footer_div_pattern(footer_class), c) {
        None
    } else {
        let s1 = regex_replaced_first(footer_div_pattern(footer_class), c, MatchModel::Template("<copyright />"@));
        match auth_import_step(s1) {
            Some(s2) => auth_register_step(s2, name_anchor),
            None => None,
        }
    }
}

/// Puts the footer component into the text of a login or register page (see
/// `auth_page_patched`).
pub fn patch_auth_page(content: &str, footer_class: &str, name_anchor: &str) -> (r: Option<String>)
    ensures
        match r {
            Some(x) => auth_page_patched(content@, footer_class@, name_anchor@) == Some(x@),
            None => auth_page_patched(content@, footer_class@, name_anchor@) is None,
        },
{
    if contains_str(&chars_of(content), "<copyright") {
        return None;
    }
    let mut pv: Vec<char> = Vec::new();
    extend_str(&mut pv, "(?s)<div class=\"");
    extend_str(&mut pv, footer_class);
    extend_str(&mut pv, "\">\\s*<span>\\{\\{ footerContent \\}\\}</span>\\s*</div>");
    let pat = string_of(&pv);
    if !regex_has_match(pat.as_str(), content) {
        return None;
    }
    let rule = MatchRule::Template(String::from_str("<copyright />"));
    let s1 = chars_of(regex_replace_first(pat.as_str(), content, &rule).as_str());
    match auth_import_exec(&s1) {
        Some(s2) => match auth_register_exec(&s2, name_anchor) {
            Some(v) => Some(string_of(&v)),
            None => None,
        },
        None => None,
    }
}

fn auth_import_exec(s1: &Vec<char>) -> (r: Option<Vec<char>>)
    ensures
        match r {
            Some(v) => auth_import_step(s1@) == Some(v@),
            None => auth_import_step(s1@) is None,
        },
{
    match find_str(s1, "import defaultSettings") {
        Some(pos) => {
            let head = crate::text::slice_chars(s1, 0, pos);
            let line_start = match last_index_exec(&head, '\n') {
                Some(i) => {
                    assert(i < head.len());
                    i + 1
                },
                None => pos,
            };
            proof {
                reveal_strlit("\n");
            }
            let line_end = match find_str_from(s1, "\n", line_start) {
                Some(i) => i + 1,
                None => s1.len(),
            };
            proof {
                assert(head@ =~= s1@.take(pos as int));
            }
            let mut ins = chars_of("import copyright from \"@/layout/components/Copyright\"");
            extend_str(&mut ins, "\n");
            Some(insert_at_exec(s1, line_end, &ins))
        },
        None => match find_str(s1, "<script>") {
            Some(p) => {
                let script = chars_of("<script>");
                let mut ins = chars_of("\n");
                extend_str(&mut ins, "import copyright from \"@/layout/components/Copyright\"");
                Some(insert_at_exec(s1, p + script.len(), &ins))
            },
            None => None,
        },
    }
}

fn auth_register_exec(s2: &Vec<char>, name_anchor: &str) -> (r: Option<Vec<char>>)
    ensures
        match r {
            Some(v) => auth_register_step(s2@, name_anchor@) == Some(v@),
            None => auth_register_step(s2@, name_anchor@) is None,
        },
{
    let mut anchored = chars_of(name_anchor);
    extend_str(&mut anchored, ",");
    let anchored_s = string_of(&anchored);
    let reg = chars_of("\n  components: { copyright },");
    proof {
        reveal_strlit(",");
    }
    match find_str(s2, anchored_s.as_str()) {
        Some(p) => Some(insert_at_exec(s2, p + anchored.len(), &reg)),
        None => match find_str(s2, "export default {") {
            Some(q) => {
                let anchor = chars_of("export default {");
                Some(insert_at_exec(s2, q + anchor.len(), &reg))
            },
            None => None,
        },
    }
}

} // verus!
