//! Placeholders of the replacement admin UI (vben / arco templates).
use vstd::prelude::*;
use vstd::string::StringExecFns;
use crate::ext_calls::current_year;
use crate::params::CustomizeParams;
use crate::placeholders::pair_views;
use crate::text::{chars_of, decimal, eq_str, extend_str, push_decimal, string_of};

verus! {

/// Result of generating the replacement UI.
#[derive(Debug, Clone)]
pub struct ReplaceUiResult {
    pub output_dir: String,
    pub files_created: usize,
    pub files_modified: usize,
}

/// The copyright holder: the given holder, else the front-end title, else the project name.
pub open spec fn copyright_holder_of(p: CustomizeParams) -> Seq<char> {
    if p.copyright_holder@.len() > 0 {
        p.copyright_holder@
    } else if p.frontend_title@.len() > 0 {
        p.frontend_title@
    } else {
        p.new_project_name@
    }
}

/// The production API base: a placeholder domain without a server name, else
/// `http(s)://{server_name}`.
pub open spec fn prod_base_url(p: CustomizeParams) -> Seq<char> {
    if p.server_name@.len() == 0 {
        "https://your-domain.com"@
    } else if p.use_https {
        "https://"@ + p.server_name@
    } else {
        "http://"@ + p.server_name@
    }
}

/// The placeholder table of the UI templates for a given copyright year.
pub open spec fn ui_placeholders(p: CustomizeParams, year: Seq<char>) -> Seq<(Seq<char>, Seq<char>)> {
    seq![
        ("{{PROJECT_NAME}}"@, p.new_project_name@),
        ("{{FRONTEND_TITLE}}"@, p.frontend_title@),
        ("{{MODULE_PREFIX}}"@, p.new_module_prefix@),
        ("{{API_BASE_URL_DEV}}"@, "http://localhost:"@ + decimal(p.server_port as nat)),
        ("{{API_BASE_URL_PROD}}"@, prod_base_url(p)),
        ("{{COPYRIGHT_YEAR}}"@, year),
        ("{{COPYRIGHT_HOLDER}}"@, copyright_holder_of(p)),
        ("{{COPYRIGHT}}"@, year + " "@ + copyright_holder_of(p)),
        ("{{SERVER_PORT}}"@, decimal(p.server_port as nat)),
    ]
}

/// Builds the production API base URL.
pub fn build_prod_base_url(params: &CustomizeParams) -> (r: String)
    ensures
        r@ == prod_base_url(*params),
{
    if params.server_name.as_str().unicode_len() == 0 {
        return String::from_str("https://your-domain.com");
    }
    let mut v: Vec<char> = Vec::new();
    if params.use_https {
        extend_str(&mut v, "https://");
    } else {
        extend_str(&mut v, "http://");
    }
    extend_str(&mut v, params.server_name.as_str());
    string_of(&v)
}

fn holder_of(params: &CustomizeParams) -> (r: String)
    ensures
        r@ == copyright_holder_of(*params),
{
    if params.copyright_holder.as_str().unicode_len() > 0 {
        params.copyright_holder.clone()
    } else if params.frontend_title.as_str().unicode_len() > 0 {
        params.frontend_title.clone()
    } else {
        params.new_project_name.clone()
    }
}

/// The placeholder table of the UI templates for the given copyright year.
pub fn placeholders_for_year(params: &CustomizeParams, year: &str) -> (r: Vec<(String, String)>)
    ensures
        pair_views(r@) == ui_placeholders(*params, year@),
{
    let holder = holder_of(params);
    let mut dev: Vec<char> = Vec::new();
    extend_str(&mut dev, "http://localhost:");
    push_decimal(&mut dev, params.server_port as u64);
    let mut copyright: Vec<char> = chars_of(year);
    extend_str(&mut copyright, " ");
    extend_str(&mut copyright, holder.as_str());
    let mut port: Vec<char> = Vec::new();
    push_decimal(&mut port, params.server_port as u64);
    let mut r: Vec<(String, String)> = Vec::new();
    r.push((String::from_str("{{PROJECT_NAME}}"), params.new_project_name.clone()));
    r.push((String::from_str("{{FRONTEND_TITLE}}"), params.frontend_title.clone()));
    r.push((String::from_str("{{MODULE_PREFIX}}"), params.new_module_prefix.clone()));
    r.push((String::from_str("{{API_BASE_URL_DEV}}"), string_of(&dev)));
    r.push((String::from_str("{{API_BASE_URL_PROD}}"), build_prod_base_url(params)));
    r.push((String::from_str("{{COPYRIGHT_YEAR}}"), String::from_str(year)));
    r.push((String::from_str("{{COPYRIGHT_HOLDER}}"), holder));
    r.push((String::from_str("{{COPYRIGHT}}"), string_of(&copyright)));
    r.push((String::from_str("{{SERVER_PORT}}"), string_of(&port)));
    assert(pair_views(r@) =~= ui_placeholders(*params, year@));
    r
}

/// The placeholder table of the UI templates: the copyright year is the given
/// one, or the current local year when none is given.
pub fn build_placeholders(params: &CustomizeParams) -> (r: Vec<(String, String)>)
    ensures
        exists|year: Seq<char>| pair_views(r@) == ui_placeholders(*params, year),
        params.copyright_year@.len() > 0 ==> pair_views(r@) == ui_placeholders(
            *params,
            params.copyright_year@,
        ),
{
    if params.copyright_year.as_str().unicode_len() == 0 {
        let year = current_year();
        placeholders_for_year(params, year.as_str())
    } else {
        placeholders_for_year(params, params.copyright_year.as_str())
    }
}

/// Whether a directory of the UI template is left out of the copy
/// (dependencies, caches and build output).
pub open spec fn skipped_dir(name: Seq<char>) -> bool {
    name == "node_modules"@ || name == ".turbo"@ || name == "dist"@ || name == ".git"@ || name == ".cache"@
        || name == ".nitro"@ || name == ".output"@ || name == "coverage"@ || name == ".pnpm-store"@
        || name == "playwright-report"@ || name == "test-results"@
}

/// Whether a directory of the UI template is left out (see `skipped_dir`).
pub fn is_skipped_dir(name: &str) -> (r: bool)
    ensures
        r == skipped_dir(name@),
{
    let n = chars_of(name);
    eq_str(&n, "node_modules") || eq_str(&n, ".turbo") || eq_str(&n, "dist") || eq_str(&n, ".git") || eq_str(
        &n,
        ".cache",
    ) || eq_str(&n, ".nitro") || eq_str(&n, ".output") || eq_str(&n, "coverage") || eq_str(&n, ".pnpm-store")
        || eq_str(&n, "playwright-report") || eq_str(&n, "test-results")
}

/// Whether an extension (lower case, with the dot) is one of the UI's binary ones.
pub open spec fn ui_binary_ext(ext: Seq<char>) -> bool {
    ext == ".png"@ || ext == ".jpg"@ || ext == ".jpeg"@ || ext == ".gif"@ || ext == ".ico"@ || ext == ".svg"@
        || ext == ".woff"@ || ext == ".woff2"@ || ext == ".ttf"@ || ext == ".eot"@ || ext == ".lock"@
}

/// Whether an extension (lower case, with the dot) is one of the UI's text ones.
pub open spec fn ui_text_ext(ext: Seq<char>) -> bool {
    ext == ".vue"@ || ext == ".js"@ || ext == ".mjs"@ || ext == ".cjs"@ || ext == ".mts"@ || ext == ".cts"@
        || ext == ".ts"@ || ext == ".tsx"@ || ext == ".json"@ || ext == ".md"@ || ext == ".scss"@ || ext == ".css"@
        || ext == ".html"@ || ext == ".env"@ || ext == ".yaml"@ || ext == ".yml"@ || ext == ".conf"@ || ext == ".sh"@
        || ext == ".bat"@ || ext == ".toml"@
}

/// How a file of the UI template is copied: binary extensions as they are;
/// `.env*` files, text extensions and files without an extension with their
/// placeholders replaced; anything else as it is.
pub open spec fn ui_file_kind(file_name: Seq<char>, ext: Seq<char>) -> crate::uniapp::TemplateFileKind {
    if ui_binary_ext(ext) {
        crate::uniapp::TemplateFileKind::Binary
    } else if crate::text::starts_with(file_name, ".env"@) || ui_text_ext(ext) || ext.len() == 0 {
        crate::uniapp::TemplateFileKind::Text
    } else {
        crate::uniapp::TemplateFileKind::Other
    }
}

/// How a file of the UI template is copied (see `ui_file_kind`).
pub fn ui_template_file_kind(file_name: &str, ext: &str) -> (r: crate::uniapp::TemplateFileKind)
    ensures
        r == ui_file_kind(file_name@, ext@),
{
    let e = chars_of(ext);
    let binary = eq_str(&e, ".png") || eq_str(&e, ".jpg") || eq_str(&e, ".jpeg") || eq_str(&e, ".gif") || eq_str(
        &e,
        ".ico",
    ) || eq_str(&e, ".svg") || eq_str(&e, ".woff") || eq_str(&e, ".woff2") || eq_str(&e, ".ttf") || eq_str(&e, ".eot")
        || eq_str(&e, ".lock");
    if binary {
        return crate::uniapp::TemplateFileKind::Binary;
    }
    let text = eq_str(&e, ".vue") || eq_str(&e, ".js") || eq_str(&e, ".mjs") || eq_str(&e, ".cjs") || eq_str(&e, ".mts")
        || eq_str(&e, ".cts") || eq_str(&e, ".ts") || eq_str(&e, ".tsx") || eq_str(&e, ".json") || eq_str(&e, ".md")
        || eq_str(&e, ".scss") || eq_str(&e, ".css") || eq_str(&e, ".html") || eq_str(&e, ".env") || eq_str(&e, ".yaml")
        || eq_str(&e, ".yml") || eq_str(&e, ".conf") || eq_str(&e, ".sh") || eq_str(&e, ".bat") || eq_str(&e, ".toml");
    if crate::text::starts_with_str(&chars_of(file_name), ".env") || text || e.len() == 0 {
        crate::uniapp::TemplateFileKind::Text
    } else {
        crate::uniapp::TemplateFileKind::Other
    }
}

} // verus!
