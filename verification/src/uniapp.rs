//! UniApp mini-program support: the WeChat configuration block of the back end
//! and the placeholders and file kinds of the project skeleton.
use vstd::prelude::*;
use crate::params::CustomizeParams;
use crate::text::{chars_of, eq_str, extend_str, string_of, lines, lines_of, starts_with, starts_with_str, trim_end, ends_with_str, ends_with};

verus! {

/// Result of generating the UniApp project.
#[derive(Debug, Clone)]
pub struct UniappGenerateResult {
    pub output_dir: String,
    pub files_created: usize,
    pub files_modified: usize,
}

/// `true` / `false`.
pub open spec fn bool_text(b: bool) -> Seq<char> {
    if b {
        "true"@
    } else {
        "false"@
    }
}

/// The mini-program part of the block.
pub open spec fn wx_part(p: CustomizeParams) -> Seq<char> {
    "\n# ===== "@ + p.new_module_prefix@ + " 微信小程序 / 支付配置 =====\n"@ + p.new_module_prefix@ + ":\n"@
        + "  wx: # 微信小程序\n"@ + "    appid: "@ + p.wx_appid@ + " # 小程序 AppID\n"@ + "    appsecret: "@
        + p.wx_appsecret@ + " # 小程序 AppSecret\n"@
}

/// The key fields of the chosen payment mode.
pub open spec fn pay_mode_fields(p: CustomizeParams) -> Seq<char> {
    if p.pay_mode@ == "public-key"@ {
        "      mch-serial-no: "@ + p.pay_mch_serial_no@ + " # 商户证书序列号\n"@ + "      api-v3-key: "@
            + p.pay_api_v3_key@ + " # APIv3 密钥（32位）\n"@ + "      private-key-path: "@
            + p.pay_private_key_path@ + " # 商户 API 私钥 apiclient_key.pem 路径\n"@
            + "      public-key-id: "@ + p.pay_public_key_id@ + " # 微信支付平台公钥 ID\n"@
            + "      public-key-path: "@ + p.pay_public_key_path@
            + " # 微信支付平台公钥 wxp_pub.pem 路径\n"@
    } else if p.pay_mode@ == "certificate"@ {
        "      mch-serial-no: "@ + p.pay_mch_serial_no@ + " # 商户证书序列号\n"@ + "      api-v3-key: "@
            + p.pay_api_v3_key@ + " # APIv3 密钥（32位）\n"@ + "      private-key-path: "@
            + p.pay_private_key_path@ + " # 商户 API 私钥 apiclient_key.pem 路径\n"@
    } else {
        "      api-key: "@ + p.pay_api_key@ + " # APIv2 密钥（32位）\n"@ + "      cert-path: "@
            + p.pay_cert_path@ + " # 商户证书 apiclient_cert.p12 路径\n"@
    }
}

/// The WeChat Pay part of the block.
pub open spec fn pay_part(p: CustomizeParams) -> Seq<char> {
    "  wechat: # 微信支付\n"@ + "    pay:\n"@ + "      enabled: "@ + bool_text(p.pay_enabled)
        + " # 是否启用微信支付\n"@ + "      mode: "@ + p.pay_mode@
        + " # 支付模式：public-key(V3公钥,推荐) | certificate(V3平台证书) | v2(旧模式)\n"@
        + "      mch-id: "@ + p.pay_mch_id@ + " # 商户号\n"@ + pay_mode_fields(p) + "      notify-url: "@
        + p.pay_notify_url@ + " # 支付回调地址（微信异步通知）\n"@
}

/// The WeChat configuration block: the mini-program keys, and the payment keys
/// when payment is included. Values are written unquoted.
pub open spec fn wechat_config(p: CustomizeParams) -> Seq<char> {
    if p.pay_included {
        wx_part(p) + pay_part(p)
    } else {
        wx_part(p)
    }
}

fn push_mode_fields(v: &mut Vec<char>, params: &CustomizeParams)
    ensures
        final(v)@ == old(v)@ + pay_mode_fields(*params),
{
    let mode = chars_of(params.pay_mode.as_str());
    let ghost v0 = v@;
    if eq_str(&mode, "public-key") {
        extend_str(v, "      mch-serial-no: ");
        extend_str(v, params.pay_mch_serial_no.as_str());
        extend_str(v, " # 商户证书序列号\n");
        extend_str(v, "      api-v3-key: ");
        extend_str(v, params.pay_api_v3_key.as_str());
        extend_str(v, " # APIv3 密钥（32位）\n");
        extend_str(v, "      private-key-path: ");
        extend_str(v, params.pay_private_key_path.as_str());
        extend_str(v, " # 商户 API 私钥 apiclient_key.pem 路径\n");
        extend_str(v, "      public-key-id: ");
        extend_str(v, params.pay_public_key_id.as_str());
        extend_str(v, " # 微信支付平台公钥 ID\n");
        extend_str(v, "      public-key-path: ");
        extend_str(v, params.pay_public_key_path.as_str());
        extend_str(v, " # 微信支付平台公钥 wxp_pub.pem 路径\n");
    } else if eq_str(&mode, "certificate") {
        extend_str(v, "      mch-serial-no: ");
        extend_str(v, params.pay_mch_serial_no.as_str());
        extend_str(v, " # 商户证书序列号\n");
        extend_str(v, "      api-v3-key: ");
        extend_str(v, params.pay_api_v3_key.as_str());
        extend_str(v, " # APIv3 密钥（32位）\n");
        extend_str(v, "      private-key-path: ");
        extend_str(v, params.pay_private_key_path.as_str());
        extend_str(v, " # 商户 API 私钥 apiclient_key.pem 路径\n");
    } else {
        extend_str(v, "      api-key: ");
        extend_str(v, params.pay_api_key.as_str());
        extend_str(v, " # APIv2 密钥（32位）\n");
        extend_str(v, "      cert-path: ");
        extend_str(v, params.pay_cert_path.as_str());
        extend_str(v, " # 商户证书 apiclient_cert.p12 路径\n");
    }
    assert(v@ =~= v0 + pay_mode_fields(*params));
}

/// Builds the WeChat configuration block.
pub fn format_wechat_config(params: &CustomizeParams) -> (r: String)
    ensures
        r@ == wechat_config(*params),
{
    let prefix = params.new_module_prefix.as_str();
    let mut v: Vec<char> = Vec::new();
    extend_str(&mut v, "\n# ===== ");
    extend_str(&mut v, prefix);
    extend_str(&mut v, " 微信小程序 / 支付配置 =====\n");
    extend_str(&mut v, prefix);
    extend_str(&mut v, ":\n");
    extend_str(&mut v, "  wx: # 微信小程序\n");
    extend_str(&mut v, "    appid: ");
    extend_str(&mut v, params.wx_appid.as_str());
    extend_str(&mut v, " # 小程序 AppID\n");
    extend_str(&mut v, "    appsecret: ");
    extend_str(&mut v, params.wx_appsecret.as_str());
    extend_str(&mut v, " # 小程序 AppSecret\n");
    let ghost head = v@;
    assert(head =~= wx_part(*params));
    if params.pay_included {
        extend_str(&mut v, "  wechat: # 微信支付\n");
        extend_str(&mut v, "    pay:\n");
        extend_str(&mut v, "      enabled: ");
        if params.pay_enabled {
            extend_str(&mut v, "true");
        } else {
            extend_str(&mut v, "false");
        }
        extend_str(&mut v, " # 是否启用微信支付\n");
        extend_str(&mut v, "      mode: ");
        extend_str(&mut v, params.pay_mode.as_str());
        extend_str(&mut v, " # 支付模式：public-key(V3公钥,推荐) | certificate(V3平台证书) | v2(旧模式)\n");
        extend_str(&mut v, "      mch-id: ");
        extend_str(&mut v, params.pay_mch_id.as_str());
        extend_str(&mut v, " # 商户号\n");
        push_mode_fields(&mut v, params);
        extend_str(&mut v, "      notify-url: ");
        extend_str(&mut v, params.pay_notify_url.as_str());
        extend_str(&mut v, " # 支付回调地址（微信异步通知）\n");
        assert(v@ =~= head + pay_part(*params));
    }
    string_of(&v)
}

/// The WeChat block that the Nacos engine appends to the system service.
pub fn wechat_yaml_block(params: &CustomizeParams) -> (r: String)
    ensures
        r@ == wechat_config(*params),
{
    format_wechat_config(params)
}

/// A top-level `{prefix}:` line: not indented, and `prefix:` once trailing
/// whitespace is dropped.
pub open spec fn is_top_key_line(line: Seq<char>, prefix: Seq<char>) -> bool {
    !starts_with(line, " "@) && !starts_with(line, "\t"@) && trim_end(line) == prefix + ":"@
}

/// The configuration with `block` appended (after a newline when the text does
/// not end with one); `None` when it already has a top-level `{prefix}:` line.
pub open spec fn config_appended(content: Seq<char>, prefix: Seq<char>, block: Seq<char>) -> Option<Seq<char>> {
    if exists|i: int| 0 <= i < lines(content).len() && is_top_key_line(#[trigger] lines(content)[i], prefix) {
        None
    } else if ends_with(content, "\n"@) {
        Some(content + block)
    } else {
        Some(content + "\n"@ + block)
    }
}

/// Appends a configuration block unless its top-level key is there (see
/// `config_appended`).
pub fn append_config_if_missing(content: &str, prefix: &str, block: &str) -> (r: Option<String>)
    ensures
        match r {
            Some(x) => config_appended(content@, prefix@, block@) == Some(x@),
            None => config_appended(content@, prefix@, block@) is None,
        },
{
    let c = chars_of(content);
    let mut marker = chars_of(prefix);
    extend_str(&mut marker, ":");
    let ls = lines_of(&c);
    let ghost lv = crate::text::vviews(ls@);
    let mut i: usize = 0;
    while i < ls.len()
        invariant
            i <= ls.len(),
            lv == crate::text::vviews(ls@),
            lv == lines(content@),
            marker@ == prefix@ + ":"@,
            forall|j: int| 0 <= j < i ==> !is_top_key_line(#[trigger] lv[j], prefix@),
        decreases ls.len() - i,
    {
        let line = &ls[i];
        let j = crate::text::ws_suffix_start(line, line.len());
        let t = crate::text::slice_chars(line, 0, j);
        assert(line@.take(line.len() as int) =~= line@);
        if !starts_with_str(line, " ") && !starts_with_str(line, "\t") && crate::text::chars_eq(&t, &marker) {
            assert(lv[i as int] == line@);
            assert(is_top_key_line(lv[i as int], prefix@));
            return None;
        }
        i = i + 1;
    }
    let mut out = c;
    if !ends_with_str(&out, "\n") {
        extend_str(&mut out, "\n");
    }
    extend_str(&mut out, block);
    Some(string_of(&out))
}

/// The application configuration with the WeChat block appended, unless its
/// top-level `{prefix}:` key is there.
pub fn append_wechat_config(content: &str, params: &CustomizeParams) -> (r: Option<String>)
    ensures
        match r {
            Some(x) => config_appended(content@, params.new_module_prefix@, wechat_config(*params)) == Some(x@),
            None => config_appended(content@, params.new_module_prefix@, wechat_config(*params)) is None,
        },
{
    let block = format_wechat_config(params);
    append_config_if_missing(content, params.new_module_prefix.as_str(), block.as_str())
}

// ---------------------------------------------------------------------------
// The project skeleton
// ---------------------------------------------------------------------------

/// The production API base address of the mini-program: a placeholder domain
/// without a server name, else `{scheme}://{server}/{prefix}`.
pub open spec fn uniapp_prod_url(p: CustomizeParams) -> Seq<char> {
    if p.server_name@.len() == 0 {
        "https://your-domain.com"@
    } else {
        (if p.use_https { "https"@ } else { "http"@ }) + "://"@ + p.server_name@ + "/"@ + p.new_module_prefix@
    }
}

/// The placeholder table of the UniApp template for a given copyright year.
pub open spec fn uniapp_pairs(p: CustomizeParams, year: Seq<char>) -> Seq<(Seq<char>, Seq<char>)> {
    seq![
        ("{{PROJECT_NAME}}"@, p.new_project_name@),
        ("{{PROJECT_DESCRIPTION}}"@, p.new_project_name@ + " 小程序"@),
        ("{{MODULE_PREFIX}}"@, p.new_module_prefix@),
        ("{{UNIAPP_NAME}}"@, p.new_module_prefix@ + "-uniapp"@),
        ("{{API_BASE_URL_DEV}}"@, "http://localhost:"@ + crate::text::decimal(p.server_port as nat)),
        ("{{API_BASE_URL_PROD}}"@, uniapp_prod_url(p)),
        ("{{COPYRIGHT}}"@, year + " "@ + p.new_project_name@),
        ("{{WX_APPID}}"@, p.wx_appid@),
        ("{{SERVER_PORT}}"@, crate::text::decimal(p.server_port as nat)),
    ]
}

/// The production API base address of the mini-program (see `uniapp_prod_url`).
pub fn uniapp_prod_base_url(params: &CustomizeParams) -> (r: String)
    ensures
        r@ == uniapp_prod_url(*params),
{
    let name = chars_of(params.server_name.as_str());
    if name.len() == 0 {
        return String::from_str("https://your-domain.com");
    }
    let mut v: Vec<char> = Vec::new();
    if params.use_https {
        extend_str(&mut v, "https");
    } else {
        extend_str(&mut v, "http");
    }
    extend_str(&mut v, "://");
    extend_str(&mut v, params.server_name.as_str());
    extend_str(&mut v, "/");
    extend_str(&mut v, params.new_module_prefix.as_str());
    string_of(&v)
}

fn pair(k: &str, v: Vec<char>) -> (r: (String, String))
    ensures
        r.0@ == k@,
        r.1@ == v@,
{
    (String::from_str(k), string_of(&v))
}

/// The placeholder table of the UniApp template for the given copyright year.
pub fn uniapp_placeholders_for_year(params: &CustomizeParams, year: &str) -> (r: Vec<(String, String)>)
    ensures
        crate::placeholders::pair_views(r@) == uniapp_pairs(*params, year@),
{
    let mut desc = chars_of(params.new_project_name.as_str());
    extend_str(&mut desc, " 小程序");
    let mut name = chars_of(params.new_module_prefix.as_str());
    extend_str(&mut name, "-uniapp");
    let mut dev = chars_of("http://localhost:");
    crate::text::push_decimal(&mut dev, params.server_port as u64);
    let mut copyright = chars_of(year);
    extend_str(&mut copyright, " ");
    extend_str(&mut copyright, params.new_project_name.as_str());
    let mut port: Vec<char> = Vec::new();
    crate::text::push_decimal(&mut port, params.server_port as u64);
    let mut r: Vec<(String, String)> = Vec::new();
    r.push(pair("{{PROJECT_NAME}}", chars_of(params.new_project_name.as_str())));
    r.push(pair("{{PROJECT_DESCRIPTION}}", desc));
    r.push(pair("{{MODULE_PREFIX}}", chars_of(params.new_module_prefix.as_str())));
    r.push(pair("{{UNIAPP_NAME}}", name));
    r.push(pair("{{API_BASE_URL_DEV}}", dev));
    r.push(pair("{{API_BASE_URL_PROD}}", chars_of(uniapp_prod_base_url(params).as_str())));
    r.push(pair("{{COPYRIGHT}}", copyright));
    r.push(pair("{{WX_APPID}}", chars_of(params.wx_appid.as_str())));
    r.push(pair("{{SERVER_PORT}}", port));
    assert(crate::placeholders::pair_views(r@) =~= uniapp_pairs(*params, year@));
    r
}

/// The placeholder table of the UniApp template, with the current local year.
pub fn uniapp_placeholders(params: &CustomizeParams) -> (r: Vec<(String, String)>)
    ensures
        exists|year: Seq<char>| crate::placeholders::pair_views(r@) == uniapp_pairs(*params, year),
{
    let year = crate::ext_calls::current_year();
    uniapp_placeholders_for_year(params, year.as_str())
}

/// How a template file is copied.
#[derive(Debug, Clone, Copy, PartialEq, Eq)]
pub enum TemplateFileKind {
    /// Copied byte for byte.
    Binary,
    /// Read as text, placeholders replaced.
    Text,
    /// Copied as it is (neither listed kind).
    Other,
}

/// The kind of a template file by its lower-case extension with the dot:
/// images and fonts are binary, sources and documents are text.
pub open spec fn file_kind(ext: Seq<char>) -> TemplateFileKind {
    if ext == ".png"@ || ext == ".jpg"@ || ext == ".jpeg"@ || ext == ".gif"@ || ext == ".ico"@ || ext == ".woff"@
        || ext == ".woff2"@ || ext == ".ttf"@ || ext == ".eot"@ {
        TemplateFileKind::Binary
    } else if ext == ".vue"@ || ext == ".js"@ || ext == ".ts"@ || ext == ".json"@ || ext == ".md"@ || ext == ".scss"@
        || ext == ".css"@ || ext == ".html"@ {
        TemplateFileKind::Text
    } else {
        TemplateFileKind::Other
    }
}

/// The kind of a template file (see `file_kind`).
pub fn template_file_kind(ext: &str) -> (r: TemplateFileKind)
    ensures
        r == file_kind(ext@),
{
    let e = chars_of(ext);
    if eq_str(&e, ".png") || eq_str(&e, ".jpg") || eq_str(&e, ".jpeg") || eq_str(&e, ".gif") || eq_str(&e, ".ico")
        || eq_str(&e, ".woff") || eq_str(&e, ".woff2") || eq_str(&e, ".ttf") || eq_str(&e, ".eot") {
        TemplateFileKind::Binary
    } else if eq_str(&e, ".vue") || eq_str(&e, ".js") || eq_str(&e, ".ts") || eq_str(&e, ".json") || eq_str(&e, ".md")
        || eq_str(&e, ".scss") || eq_str(&e, ".css") || eq_str(&e, ".html") {
        TemplateFileKind::Text
    } else {
        TemplateFileKind::Other
    }
}

} // verus!
