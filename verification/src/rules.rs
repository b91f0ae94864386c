//! Rule templates: the data of one RuoYi edition (detection, replacement,
//! module, configuration and generator rules) and the engines applying them.
use vstd::prelude::*;
use vstd::string::StringExecFns;
use crate::nacos_yaml::{replace_first, strings_model};
use crate::text::{
    chars_eq, chars_of, count_matches, extend_chars, extend_str, find, find_from_exec, lemma_find_from,
    lower, lower_chars, matches_at, replace_all, replace_count, slice_chars, string_of,
};

verus! {

/// detect.json: how an edition is recognised.
#[derive(Debug, Clone)]
pub struct DetectRules {
    pub name: String,
    pub required_files: Vec<String>,
    pub optional_files: Vec<String>,
    pub config_files: Vec<String>,
    pub logback_files: Vec<String>,
    pub generator_template_files: Vec<String>,
}

/// replace-rules.json: scan exclusions and extension classes.
#[derive(Debug, Clone)]
pub struct ReplaceRules {
    pub exclude_dirs: Vec<String>,
    pub text_extensions: Vec<String>,
    pub binary_extensions: Vec<String>,
}

/// module-rules.json: Maven modules and their default prefix.
#[derive(Debug, Clone)]
pub struct ModuleRules {
    pub default_prefix: String,
    pub modules: Vec<String>,
    pub frontend_modules: Vec<String>,
}

/// config-rules.json: configuration file restructuring.
#[derive(Debug, Clone)]
pub struct ConfigRules {
    pub target_files: Vec<String>,
    pub legacy_druid_files: Vec<String>,
    pub active_profile: String,
    pub log_path_value: String,
}

/// generator-rules.json: code generator template adaptation.
#[derive(Debug, Clone)]
pub struct GeneratorRules {
    pub enable_mybatis_plus_templates: bool,
    pub enable_long_id_json_string: bool,
    pub template_files: GeneratorTemplateFiles,
    pub long_id_annotation: String,
}

/// Paths of the generator's template files.
#[derive(Debug, Clone)]
pub struct GeneratorTemplateFiles {
    pub domain: String,
    pub mapper: String,
    pub service: String,
    pub service_impl: String,
    pub xml_mapper: String,
}

/// A complete edition template.
#[derive(Debug, Clone)]
pub struct Template {
    pub name: String,
    pub detect: DetectRules,
    pub replace: ReplaceRules,
    pub module: ModuleRules,
    pub config: ConfigRules,
    pub generator: GeneratorRules,
}

/// The rule files found in one template directory (missing ones are `None`).
#[derive(Debug, Clone)]
pub struct TemplateSet {
    pub detect: Option<DetectRules>,
    pub replace: Option<ReplaceRules>,
    pub module: Option<ModuleRules>,
    pub config: Option<ConfigRules>,
    pub generator: Option<GeneratorRules>,
}

/// Why a template file could not be loaded: (file name, reason).
#[derive(Debug)]
pub enum TemplateLoadError {
    Read(String, String),
    Parse(String, String),
}

impl TemplateLoadError {
    /// The message shown for this error.
    pub fn message(&self) -> (r: String)
        ensures
            r@ == match self {
                TemplateLoadError::Read(n, e) => "读取模板文件 "@ + n@ + " 失败: "@ + e@,
                TemplateLoadError::Parse(n, e) => "解析模板文件 "@ + n@ + " 失败: "@ + e@,
            },
    {
        let mut v: Vec<char> = Vec::new();
        match self {
            TemplateLoadError::Read(n, e) => {
                extend_str(&mut v, "读取模板文件 ");
                extend_str(&mut v, n.as_str());
                extend_str(&mut v, " 失败: ");
                extend_str(&mut v, e.as_str());
            },
            TemplateLoadError::Parse(n, e) => {
                extend_str(&mut v, "解析模板文件 ");
                extend_str(&mut v, n.as_str());
                extend_str(&mut v, " 失败: ");
                extend_str(&mut v, e.as_str());
            },
        }
        string_of(&v)
    }
}

fn strings_from(a: &str, b: &str, c: Option<&str>) -> (r: Vec<String>)
    ensures
        r@.len() == (if c is Some { 3int } else { 2int }),
        r@[0]@ == a@,
        r@[1]@ == b@,
        c matches Some(x) ==> r@[2]@ == x@,
{
    let mut r: Vec<String> = Vec::new();
    r.push(String::from_str(a));
    r.push(String::from_str(b));
    match c {
        Some(x) => r.push(String::from_str(x)),
        None => {},
    }
    r
}

/// The configuration rules used when config-rules.json is absent.
pub open spec fn is_default_config(c: ConfigRules) -> bool {
    &&& c.target_files@.len() == 3
    &&& c.target_files@[0]@ == "application.yaml"@
    &&& c.target_files@[1]@ == "application-dev.yaml"@
    &&& c.target_files@[2]@ == "application-prod.yaml"@
    &&& c.legacy_druid_files@.len() == 2
    &&& c.legacy_druid_files@[0]@ == "application-druid.yml"@
    &&& c.legacy_druid_files@[1]@ == "application-druid.yaml"@
    &&& c.active_profile@ == "dev"@
    &&& c.log_path_value@ == "logs"@
}

/// The generator rules used when generator-rules.json is absent (all fields empty/false).
pub open spec fn is_default_generator(g: GeneratorRules) -> bool {
    &&& !g.enable_mybatis_plus_templates
    &&& !g.enable_long_id_json_string
    &&& g.long_id_annotation@.len() == 0
    &&& g.template_files.domain@.len() == 0
    &&& g.template_files.mapper@.len() == 0
    &&& g.template_files.service@.len() == 0
    &&& g.template_files.service_impl@.len() == 0
    &&& g.template_files.xml_mapper@.len() == 0
}

impl TemplateSet {
    /// Assembles a full template: detect, module and replace rules are required;
    /// missing config and generator rules take their defaults.
    pub fn into_full_template(self) -> (r: Option<Template>)
        ensures
            (self.detect is Some && self.module is Some && self.replace is Some) <==> r is Some,
            r matches Some(t) ==> {
                &&& t.name@ == self.detect->0.name@
                &&& t.detect == self.detect->0
                &&& t.module == self.module->0
                &&& t.replace == self.replace->0
                &&& (self.config matches Some(c) ==> t.config == c)
                &&& (self.config is None ==> is_default_config(t.config))
                &&& (self.generator matches Some(g) ==> t.generator == g)
                &&& (self.generator is None ==> is_default_generator(t.generator))
            },
    {
        let detect = match self.detect {
            Some(d) => d,
            None => {
                return None;
            },
        };
        let module = match self.module {
            Some(m) => m,
            None => {
                return None;
            },
        };
        let replace = match self.replace {
            Some(r) => r,
            None => {
                return None;
            },
        };
        let config = match self.config {
            Some(c) => c,
            None => ConfigRules {
                target_files: strings_from(
                    "application.yaml",
                    "application-dev.yaml",
                    Some("application-prod.yaml"),
                ),
                legacy_druid_files: strings_from("application-druid.yml", "application-druid.yaml", None),
                active_profile: String::from_str("dev"),
                log_path_value: String::from_str("logs"),
            },
        };
        let generator = match self.generator {
            Some(g) => g,
            None => GeneratorRules {
                enable_mybatis_plus_templates: false,
                enable_long_id_json_string: false,
                template_files: GeneratorTemplateFiles {
                    domain: String::new(),
                    mapper: String::new(),
                    service: String::new(),
                    service_impl: String::new(),
                    xml_mapper: String::new(),
                },
                long_id_annotation: String::new(),
            },
        };
        let name = copy_string(&detect.name);
        Some(Template { name, detect, replace, module, config, generator })
    }
}

fn copy_string(s: &String) -> (r: String)
    ensures
        r@ == s@,
{
    String::from_str(s.as_str())
}

// ---------------------------------------------------------------------------
// Replacement engine
// ---------------------------------------------------------------------------

/// Applies the package and prefix replacements of a template.
pub struct ReplaceEngine {
    pub rules: ReplaceRules,
}

/// Some string of `v` equals `s`.
pub open spec fn has_string(v: Seq<String>, s: Seq<char>) -> bool {
    exists|k: int| 0 <= k < v.len() && #[trigger] v[k]@ == s
}

/// Some string of `v` equals `s` up to ASCII case.
pub open spec fn has_string_ignore_case(v: Seq<String>, s: Seq<char>) -> bool {
    exists|k: int| 0 <= k < v.len() && lower(#[trigger] v[k]@) == lower(s)
}

impl ReplaceEngine {
    /// Wraps the replacement rules.
    pub fn new(rules: ReplaceRules) -> (r: Self)
        ensures
            r.rules == rules,
    {
        Self { rules }
    }

    /// Whether a directory name is excluded from scanning.
    pub fn is_excluded_dir(&self, dir_name: &str) -> (r: bool)
        ensures
            r == has_string(self.rules.exclude_dirs@, dir_name@),
    {
        let n = chars_of(dir_name);
        let v = &self.rules.exclude_dirs;
        let mut i: usize = 0;
        while i < v.len()
            invariant
                i <= v.len(),
                v@ == self.rules.exclude_dirs@,
                n@ == dir_name@,
                forall|k: int| 0 <= k < i ==> v@[k]@ != dir_name@,
            decreases v.len() - i,
        {
            if chars_eq(&chars_of(v[i].as_str()), &n) {
                assert(v@[i as int]@ == dir_name@);
                return true;
            }
            i = i + 1;
        }
        false
    }

    /// Whether an extension is one of the text extensions (ASCII case-insensitive).
    pub fn is_text_extension(&self, ext: &str) -> (r: bool)
        ensures
            r == has_string_ignore_case(self.rules.text_extensions@, ext@),
    {
        any_ignore_case(&self.rules.text_extensions, ext)
    }

    /// Whether an extension is one of the binary extensions (ASCII case-insensitive).
    pub fn is_binary_extension(&self, ext: &str) -> (r: bool)
        ensures
            r == has_string_ignore_case(self.rules.binary_extensions@, ext@),
    {
        any_ignore_case(&self.rules.binary_extensions, ext)
    }

    /// Replaces the dotted and the slashed package form; returns the text and the
    /// number of replacements.
    pub fn replace_package(
        &self,
        content: &str,
        from_dot: &str,
        to_dot: &str,
        from_slash: &str,
        to_slash: &str,
    ) -> (r: (String, usize))
        ensures
            ({
                let dot_on = from_dot@.len() > 0 && from_dot@ != to_dot@;
                let after_dot = if dot_on {
                    replace_all(content@, from_dot@, to_dot@)
                } else {
                    content@
                };
                let slash_on = from_slash@.len() > 0 && from_slash@ != to_slash@;
                let after_slash = if slash_on {
                    replace_all(after_dot, from_slash@, to_slash@)
                } else {
                    after_dot
                };
                let n1 = if dot_on {
                    count_matches(content@, from_dot@)
                } else {
                    0
                };
                let n2 = if slash_on {
                    count_matches(after_dot, from_slash@)
                } else {
                    0
                };
                &&& r.0@ == after_slash
                &&& r.1 == (if n1 + n2 > usize::MAX { usize::MAX as int } else { (n1 + n2) as int })
            }),
    {
        let c = chars_of(content);
        let fd = chars_of(from_dot);
        let td = chars_of(to_dot);
        let fs = chars_of(from_slash);
        let ts = chars_of(to_slash);
        let mut out = c;
        let mut count: usize = 0;
        if fd.len() > 0 && !chars_eq(&fd, &td) {
            let (o, n) = replace_count(&out, &fd, &td);
            out = o;
            count = n;
        }
        if fs.len() > 0 && !chars_eq(&fs, &ts) {
            let (o, n) = replace_count(&out, &fs, &ts);
            out = o;
            count = count.saturating_add(n);
        }
        (string_of(&out), count)
    }

    /// Replaces `{from_prefix}-` with `{to_prefix}-`; returns the text and the count.
    pub fn replace_prefix_dashed(&self, content: &str, from_prefix: &str, to_prefix: &str) -> (r: (
        String,
        usize,
    ))
        ensures
            from_prefix@.len() == 0 || from_prefix@ == to_prefix@ ==> r.0@ == content@ && r.1 == 0,
            !(from_prefix@.len() == 0 || from_prefix@ == to_prefix@) ==> r.0@ == replace_all(
                content@,
                from_prefix@ + seq!['-'],
                to_prefix@ + seq!['-'],
            ) && r.1 == count_matches(content@, from_prefix@ + seq!['-']),
    {
        let fp = chars_of(from_prefix);
        let tp = chars_of(to_prefix);
        if fp.len() == 0 || chars_eq(&fp, &tp) {
            return (String::from_str(content), 0);
        }
        let mut from = fp;
        from.push('-');
        let mut to = tp;
        to.push('-');
        assert(from@ =~= from_prefix@ + seq!['-']);
        assert(to@ =~= to_prefix@ + seq!['-']);
        let c = chars_of(content);
        let (out, n) = replace_count(&c, &from, &to);
        if n == 0 {
            proof {
                lemma_no_match_no_change(c@, from@, to@);
            }
            return (String::from_str(content), 0);
        }
        (string_of(&out), n)
    }
}

/// Without a match, replacing changes nothing.
pub proof fn lemma_no_match_no_change(s: Seq<char>, from: Seq<char>, to: Seq<char>)
    requires
        from.len() > 0,
        count_matches(s, from) == 0,
    ensures
        replace_all(s, from, to) == s,
    decreases s.len(),
{
    if s.len() == 0 {
    } else if crate::text::starts_with(s, from) {
    } else {
        lemma_no_match_no_change(s.drop_first(), from, to);
        assert(seq![s[0]] + s.drop_first() =~= s);
    }
}

fn any_ignore_case(v: &Vec<String>, ext: &str) -> (r: bool)
    ensures
        r == has_string_ignore_case(v@, ext@),
{
    let le = lower_chars(&chars_of(ext));
    let mut i: usize = 0;
    while i < v.len()
        invariant
            i <= v.len(),
            le@ == lower(ext@),
            forall|k: int| 0 <= k < i ==> lower(v@[k]@) != lower(ext@),
        decreases v.len() - i,
    {
        let li = lower_chars(&chars_of(v[i].as_str()));
        if chars_eq(&li, &le) {
            assert(lower(v@[i as int]@) == lower(ext@));
            return true;
        }
        i = i + 1;
    }
    false
}

// ---------------------------------------------------------------------------
// Module engine
// ---------------------------------------------------------------------------

/// Computes new module names from the template's default prefix.
pub struct ModuleEngine {
    pub rules: ModuleRules,
}

impl ModuleEngine {
    /// Wraps the module rules.
    pub fn new(rules: ModuleRules) -> (r: Self)
        ensures
            r.rules == rules,
    {
        Self { rules }
    }

    /// `module.replacen(default_prefix, new_prefix, 1)`, e.g. ruoyi-admin + demo → demo-admin.
    pub fn rename_module(&self, module: &str, new_prefix: &str) -> (r: String)
        ensures
            r@ == replace_first(module@, self.rules.default_prefix@, new_prefix@),
    {
        let m = chars_of(module);
        let p = chars_of(self.rules.default_prefix.as_str());
        let np = chars_of(new_prefix);
        proof {
            lemma_find_from(m@, p@, 0);
        }
        match find_from_exec(&m, &p, 0) {
            Some(k) => {
                let ml: usize = m.len();
                assert(matches_at(m@, p@, k as int));
                let end: usize = k + p.len();
                let mut out = slice_chars(&m, 0, k);
                extend_chars(&mut out, &np);
                let tail = slice_chars(&m, end, ml);
                extend_chars(&mut out, &tail);
                string_of(&out)
            },
            None => String::from_str(module),
        }
    }
}

} // verus!
