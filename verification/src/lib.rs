//! Rewriting engines for RuoYi projects: Nacos configuration scripts, YAML
//! configuration blocks and generated source text.
use vstd::prelude::*;

pub mod archive;
pub mod check_items;
pub mod encoding;
pub mod ext_calls;
pub mod laws;
pub mod maven;
pub mod module_order;
pub mod nacos_datasource;
pub mod nacos_rewrite;
pub mod nacos_sql;
pub mod nacos_yaml;
pub mod new_module;
pub mod nginx;
pub mod oss;
pub mod params;
pub mod patch;
pub mod paths;
pub mod pipeline;
pub mod planner;
pub mod placeholders;
pub mod regex_template;
pub mod replace_ui;
pub mod report;
pub mod rules;
pub mod scripts;
pub mod security;
pub mod site_settings;
pub mod sms_login;
pub mod sms_patches;
pub mod sql_customize;
pub mod snowflake;
pub mod sub_agents;
pub mod task;
pub mod text;
pub mod uniapp;
pub mod validator;
pub mod web_footer;
pub mod wechat;
pub mod wechat_login;

verus! {
}
