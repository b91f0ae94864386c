//! The user's customization choices, as far as the library reads them.
use vstd::prelude::*;

verus! {

/// Customization parameters of one transform run.
#[derive(Debug, Clone)]
pub struct CustomizeParams {
    /// Java package before the transform (e.g. `com.ruoyi`).
    pub original_package: String,
    /// Java package after the transform (e.g. `com.example`).
    pub new_package: String,
    /// Maven module prefix before the transform (e.g. `ruoyi`).
    pub original_module_prefix: String,
    /// Whether MyBatis-Plus replaces MyBatis.
    pub enable_mybatis_plus: bool,
    /// Whether the configuration files are restructured.
    pub enable_config_rewrite: bool,
    /// Whether the logback paths are fixed.
    pub enable_logback_rewrite: bool,
    /// Whether a UniApp mini-program is generated.
    pub enable_uniapp: bool,
    /// Maven module prefix after the transform (e.g. `demo` for `demo-admin`).
    pub new_module_prefix: String,
    /// Project name.
    pub new_project_name: String,
    /// Front-end title / brand name.
    pub frontend_title: String,
    /// Back-end port.
    pub server_port: u16,
    /// Public server name (domain); empty when unknown.
    pub server_name: String,
    /// Whether the deployment uses HTTPS.
    pub use_https: bool,
    /// Copyright year; empty means the current year.
    pub copyright_year: String,
    /// Copyright holder; empty falls back to the title, then the project name.
    pub copyright_holder: String,
    /// Database name of the SQL scripts; empty falls back to the module prefix.
    pub db_name: String,
    /// New admin password in plain text; empty keeps the scripts' one.
    pub admin_password: String,
    /// Whether the demo accounts are removed from the scripts.
    pub clean_demo_users: bool,
    /// Whether the Quartz tables are removed from the scripts.
    pub clean_quartz: bool,
    /// The sub-agent guide written into AGENTS.md; empty uses the generated one.
    pub sub_agents_description: String,
    /// Whether object storage is switched on.
    pub enable_oss: bool,
    /// Object storage vendor: `aliyun`, `tencent`, `minio` or `qiniu`.
    pub oss_provider: String,
    /// Object storage endpoint (region or address).
    pub oss_endpoint: String,
    /// Object storage bucket.
    pub oss_bucket: String,
    /// Object storage access key.
    pub oss_access_key: String,
    /// Object storage secret key.
    pub oss_secret_key: String,
    /// Custom (CDN) domain of the bucket; empty for the default domain.
    pub oss_custom_domain: String,
    /// SMS vendor: `aliyun` or `tencent`.
    pub sms_provider: String,
    /// Whether the login uses the slider captcha instead of the picture captcha.
    pub enable_captcha_slider: bool,
    /// Business modules to add (short names).
    pub new_modules: Vec<String>,
    /// Modules to remove (short names).
    pub remove_modules: Vec<String>,
    /// Mini-program AppID.
    pub wx_appid: String,
    /// Mini-program AppSecret.
    pub wx_appsecret: String,
    /// WeChat Pay mode: `public-key`, `certificate` or `v2`.
    pub pay_mode: String,
    /// Merchant id.
    pub pay_mch_id: String,
    /// Merchant certificate serial number.
    pub pay_mch_serial_no: String,
    /// APIv3 key.
    pub pay_api_v3_key: String,
    /// Path of the merchant private key.
    pub pay_private_key_path: String,
    /// Platform public key id.
    pub pay_public_key_id: String,
    /// Path of the platform public key.
    pub pay_public_key_path: String,
    /// APIv2 key.
    pub pay_api_key: String,
    /// Path of the merchant certificate (v2).
    pub pay_cert_path: String,
    /// Payment callback URL.
    pub pay_notify_url: String,
    /// Whether the WeChat Pay block is generated.
    pub pay_included: bool,
    /// Whether WeChat Pay is enabled in the generated configuration.
    pub pay_enabled: bool,
    /// Database kind (`mysql`, `postgresql`, ...).
    pub db_type: String,
    /// Whether the admin UI is replaced by a packaged template.
    pub enable_replace_ui: bool,
    /// The UI template (`vben-web-ele` or `arco`).
    pub ui_template: String,
    /// Whether the home page is emptied.
    pub enable_clear_home: bool,
    /// Whether the top bar's GitHub link is removed.
    pub enable_remove_github: bool,
    /// Whether the top bar's documentation link is removed.
    pub enable_remove_docs: bool,
    /// Whether the SQL init scripts are customized.
    pub enable_sql_customize: bool,
    /// Whether the generator templates are adapted to MyBatis-Plus.
    pub enable_generator_mybatis_plus: bool,
    /// Whether `Long` ids are serialized as JSON strings.
    pub enable_long_id_json_string: bool,
    /// Whether inserts get snowflake ids.
    pub enable_snowflake_id: bool,
    /// Whether SMS login is generated.
    pub enable_sms_login: bool,
    /// Whether API payloads are AES encrypted.
    pub enable_api_encrypt: bool,
    /// Whether the security hardening step runs.
    pub enable_security: bool,
    /// Whether the JWT settings are customized.
    pub enable_jwt: bool,
    /// JWT secret; empty means a random one.
    pub jwt_secret: String,
    /// New admin account name; empty or `admin` keeps it.
    pub admin_username: String,
    /// New admin nickname; empty or the stock one keeps it.
    pub admin_nickname: String,
    /// Whether the footer copyright and ICP record are customized.
    pub enable_footer_icp: bool,
    /// Whether the site settings page is generated.
    pub enable_site_settings: bool,
    /// Whether the code generator configuration is customized.
    pub enable_generator_config: bool,
    /// Generator author; empty keeps the default.
    pub generator_author: String,
    /// Generator table prefix; empty keeps none.
    pub generator_table_prefix: String,
    /// Whether the generator's Vue templates are upgraded to Vue 3.
    pub generator_vue3: bool,
    /// Whether the AI rule files (AGENTS.md and its companion) are generated.
    pub enable_ai_rules: bool,
    /// Whether the sub-agent guide is written into AGENTS.md.
    pub enable_sub_agents: bool,
    /// Whether the front end is moved beside the back end.
    pub enable_frontend_split: bool,
    /// Whether an Nginx configuration is generated.
    pub enable_nginx_config: bool,
    /// Whether start/stop and build scripts are generated.
    pub enable_startup_scripts: bool,
    /// Whether a Markdown report is written.
    pub enable_report: bool,
}

/// What project detection found, as far as the library reads it.
#[derive(Debug, Clone)]
pub struct ProjectInfo {
    /// Absolute path of the project root.
    pub root_path: String,
    /// Project kind as detected (e.g. `RuoYi-Vue`).
    pub project_type: String,
    /// Directory name of the matched template (e.g. `ruoyi-vue`, `ruoyi-cloud`, `ruoyi`).
    pub template_dir: String,
    /// Back-end module paths, relative to the project root.
    pub backend_modules: Vec<String>,
    /// Front-end directory paths, relative to the project root.
    pub frontend_dirs: Vec<String>,
    /// Configuration files found (relative paths).
    pub config_files: Vec<String>,
    /// logback files found (relative paths).
    pub logback_files: Vec<String>,
    /// Code generator template files found (relative paths).
    pub generator_template_files: Vec<String>,
}

impl Default for CustomizeParams {
    /// All strings and lists empty, all switches off, port 0.
    fn default() -> (r: Self)
        ensures
            r.original_package@.len() == 0,
            r.new_package@.len() == 0,
            r.original_module_prefix@.len() == 0,
            !r.enable_mybatis_plus,
            !r.enable_config_rewrite,
            !r.enable_logback_rewrite,
            !r.enable_uniapp,
            r.new_module_prefix@.len() == 0,
            r.new_project_name@.len() == 0,
            r.frontend_title@.len() == 0,
            r.server_port == 0,
            r.server_name@.len() == 0,
            !r.use_https,
            r.copyright_year@.len() == 0,
            r.copyright_holder@.len() == 0,
            r.db_name@.len() == 0,
            r.admin_password@.len() == 0,
            !r.clean_demo_users,
            !r.clean_quartz,
            r.sub_agents_description@.len() == 0,
            !r.enable_oss,
            r.oss_provider@.len() == 0,
            r.oss_endpoint@.len() == 0,
            r.oss_bucket@.len() == 0,
            r.oss_access_key@.len() == 0,
            r.oss_secret_key@.len() == 0,
            r.oss_custom_domain@.len() == 0,
            r.sms_provider@.len() == 0,
            !r.enable_captcha_slider,
            r.new_modules@.len() == 0,
            r.remove_modules@.len() == 0,
            r.wx_appid@.len() == 0,
            r.wx_appsecret@.len() == 0,
            r.pay_mode@.len() == 0,
            r.pay_mch_id@.len() == 0,
            r.pay_mch_serial_no@.len() == 0,
            r.pay_api_v3_key@.len() == 0,
            r.pay_private_key_path@.len() == 0,
            r.pay_public_key_id@.len() == 0,
            r.pay_public_key_path@.len() == 0,
            r.pay_api_key@.len() == 0,
            r.pay_cert_path@.len() == 0,
            r.pay_notify_url@.len() == 0,
            !r.pay_included,
            !r.pay_enabled,
            r.db_type@.len() == 0,
            !r.enable_replace_ui,
            r.ui_template@.len() == 0,
            !r.enable_clear_home,
            !r.enable_remove_github,
            !r.enable_remove_docs,
            !r.enable_sql_customize,
            !r.enable_generator_mybatis_plus,
            !r.enable_long_id_json_string,
            !r.enable_snowflake_id,
            !r.enable_sms_login,
            !r.enable_api_encrypt,
            !r.enable_security,
            !r.enable_jwt,
            r.jwt_secret@.len() == 0,
            r.admin_username@.len() == 0,
            r.admin_nickname@.len() == 0,
            !r.enable_footer_icp,
            !r.enable_site_settings,
            !r.enable_generator_config,
            r.generator_author@.len() == 0,
            r.generator_table_prefix@.len() == 0,
            !r.generator_vue3,
            !r.enable_ai_rules,
            !r.enable_sub_agents,
            !r.enable_frontend_split,
            !r.enable_nginx_config,
            !r.enable_startup_scripts,
            !r.enable_report,
    {
        CustomizeParams {
            original_package: String::new(),
            new_package: String::new(),
            original_module_prefix: String::new(),
            enable_mybatis_plus: false,
            enable_config_rewrite: false,
            enable_logback_rewrite: false,
            enable_uniapp: false,
            new_module_prefix: String::new(),
            new_project_name: String::new(),
            frontend_title: String::new(),
            server_port: 0,
            server_name: String::new(),
            use_https: false,
            copyright_year: String::new(),
            copyright_holder: String::new(),
            db_name: String::new(),
            admin_password: String::new(),
            clean_demo_users: false,
            clean_quartz: false,
            sub_agents_description: String::new(),
            enable_oss: false,
            oss_provider: String::new(),
            oss_endpoint: String::new(),
            oss_bucket: String::new(),
            oss_access_key: String::new(),
            oss_secret_key: String::new(),
            oss_custom_domain: String::new(),
            sms_provider: String::new(),
            enable_captcha_slider: false,
            new_modules: Vec::new(),
            remove_modules: Vec::new(),
            wx_appid: String::new(),
            wx_appsecret: String::new(),
            pay_mode: String::new(),
            pay_mch_id: String::new(),
            pay_mch_serial_no: String::new(),
            pay_api_v3_key: String::new(),
            pay_private_key_path: String::new(),
            pay_public_key_id: String::new(),
            pay_public_key_path: String::new(),
            pay_api_key: String::new(),
            pay_cert_path: String::new(),
            pay_notify_url: String::new(),
            pay_included: false,
            pay_enabled: false,
            db_type: String::new(),
            enable_replace_ui: false,
            ui_template: String::new(),
            enable_clear_home: false,
            enable_remove_github: false,
            enable_remove_docs: false,
            enable_sql_customize: false,
            enable_generator_mybatis_plus: false,
            enable_long_id_json_string: false,
            enable_snowflake_id: false,
            enable_sms_login: false,
            enable_api_encrypt: false,
            enable_security: false,
            enable_jwt: false,
            jwt_secret: String::new(),
            admin_username: String::new(),
            admin_nickname: String::new(),
            enable_footer_icp: false,
            enable_site_settings: false,
            enable_generator_config: false,
            generator_author: String::new(),
            generator_table_prefix: String::new(),
            generator_vue3: false,
            enable_ai_rules: false,
            enable_sub_agents: false,
            enable_frontend_split: false,
            enable_nginx_config: false,
            enable_startup_scripts: false,
            enable_report: false,
        }
    }
}

} // verus!
