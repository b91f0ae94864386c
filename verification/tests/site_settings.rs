use ruoyi_forge::site_settings::{
    append_site_seeds, has_sys_menu_route_name, inject_sql_seeds, next_seed_id, patch_auth_title,
    patch_dynamic_title, patch_permission_js, patch_settings_store, patch_sidebar_logo,
};

fn sample_sql(with_route_name: bool) -> String {
    let route_col = if with_route_name { "  route_name       varchar(50)     default ''                comment '路由名称',\n" } else { "" };
    format!(
        "drop table if exists sys_menu;\ncreate table sys_menu (\n  menu_id bigint not null auto_increment comment '菜单ID',\n  path varchar(200) default '' comment '路由地址',\n{route_col}  primary key (menu_id)\n) engine=innodb auto_increment=2000 comment = '菜单权限表';\n\ninsert into sys_menu values('1', '系统管理', '0', '1', 'system', null, '', '', 1, 0, 'M', '0', '0', '', 'system', 'admin', sysdate(), '', null, '系统管理目录');\ninsert into sys_menu values('106', '参数设置', '1', '7', 'config', 'system/config/index', '', '', 1, 0, 'C', '0', '0', 'system:config:list', 'edit', 'admin', sysdate(), '', null, '参数设置菜单');\n\ninsert into sys_config values(1, '主框架页-默认皮肤样式名称', 'sys.index.skinName', 'skin-blue', 'Y', 'admin', sysdate(), '', null, '蓝色');\ninsert into sys_config values(4, '账号自助-验证码开关', 'sys.account.captchaEnabled', 'true', 'Y', 'admin', sysdate(), '', null, '');\n"
    )
}

fn sample_pg_sql(with_route_name: bool) -> String {
    let route_col = if with_route_name { "  route_name varchar(50) default '',\n" } else { "" };
    format!(
        "drop table if exists sys_menu;\ncreate table sys_menu (\n  menu_id int8 not null generated by default as identity,\n  path varchar(200) default '',\n{route_col}  primary key (menu_id)\n);\n\ninsert into sys_menu values('1', '系统管理', '0', '1', 'system', null, '', '', 1, 0, 'M', '0', '0', '', 'system', 'admin', now(), '', null, '系统管理目录');\ninsert into sys_config values(1, '主框架页-默认皮肤样式名称', 'sys.index.skinName', 'skin-blue', 'Y', 'admin', now(), '', null, '蓝色');\n"
    )
}

#[test]
fn route_name_detection() {
    assert!(has_sys_menu_route_name(&sample_sql(true).to_lowercase()));
    assert!(!has_sys_menu_route_name(&sample_sql(false).to_lowercase()));
}

#[test]
fn route_name_detection_pg_create_table_without_engine() {
    assert!(has_sys_menu_route_name(&sample_pg_sql(true).to_lowercase()));
    assert!(!has_sys_menu_route_name(&sample_pg_sql(false).to_lowercase()));
}

#[test]
fn sql_seeds_appended_with_route_name_and_id_continuation() {
    let out = inject_sql_seeds(&sample_sql(true), false).unwrap();
    assert!(out.contains("values (2000, '后台设置', 0, 5, 'site'"), "{out}");
    assert!(out.contains("'site/settings/index'"), "{out}");
    assert!(out.contains("'site:settings:edit'"), "{out}");
    assert!(out.contains("query, route_name,"), "{out}");
    assert!(out.contains("'sys.site.title'"), "{out}");
    assert!(out.contains("values (100, '站点标题'"), "{out}");
    assert!(out.contains("'sys.site.icp'"), "{out}");
}

#[test]
fn sql_seeds_without_route_name_column_for_sb2() {
    let out = inject_sql_seeds(&sample_sql(false), false).unwrap();
    assert!(!out.contains("route_name,"), "SB2 不应带 route_name 列：{out}");
    assert!(out.contains("query, is_frame,"), "{out}");
}

#[test]
fn sql_seeds_id_continues_from_existing_custom_rows() {
    let mut content = sample_sql(true);
    content.push_str("insert into sys_menu values('2001', '自定义', '0', '9', 'custom', null, '', '', 1, 0, 'M', '0', '0', '', '#', 'admin', sysdate(), '', null, '');\n");
    let out = inject_sql_seeds(&content, false).unwrap();
    assert!(out.contains("values (2002, '后台设置'"), "应从 2002 续接：{out}");
    assert!(out.contains("values (2003, '站点设置', 2002,"), "{out}");
    assert!(out.contains("values (2004, '站点修改', 2003,"), "{out}");
}

#[test]
fn sql_seeds_idempotent_and_skip_non_seed_files() {
    assert!(inject_sql_seeds("create table qrtz_job_details (...);\n", false).is_none());
    let first = inject_sql_seeds(&sample_sql(true), false).unwrap();
    assert!(inject_sql_seeds(&first, false).is_none(), "重复执行不应再追加");
}

#[test]
fn sql_seeds_pg_uses_now_not_sysdate() {
    let out = inject_sql_seeds(&sample_pg_sql(true), true).unwrap();
    assert!(out.contains("now()"));
    let appended = out.split("-- 后台设置").nth(1).unwrap_or("");
    assert!(!appended.contains("sysdate()"), "追加块不应含 sysdate()：{appended}");
    assert!(appended.contains("'sys.site.title'"), "{out}");
    assert!(out.contains("query, route_name,"), "{out}");
    let title_at = appended.find("'sys.site.title'").expect("应有站点设置 insert");
    let setval_at = appended.find("setval").expect("追加块应含 setval");
    assert!(setval_at > title_at);
    assert!(appended.contains("pg_get_serial_sequence('sys_menu', 'menu_id')"));
    assert!(appended.contains("pg_get_serial_sequence('sys_config', 'config_id')"));
}

#[test]
fn sql_seed_exact_config_row_and_newline() {
    let out = append_site_seeds("insert into sys_config values(7, 'x')", "insert into sys_config values(7, 'x')", false).unwrap();
    assert!(out.starts_with("insert into sys_config values(7, 'x')\n\n-- ----------------------------\n"));
    assert!(out.contains("insert into sys_config (config_id, config_name, config_key, config_value, config_type, create_by, create_time, remark) values (100, '站点标题', 'sys.site.title', '', 'Y', 'admin', sysdate(), '后台设置页面维护，留空用打包默认标题');\n"));
    assert!(out.ends_with("values (102, 'ICP备案号', 'sys.site.icp', '', 'Y', 'admin', sysdate(), '后台设置页面维护，留空回退 application.yaml 的 ruoyi.icp');\n"));
    assert!(!out.contains("sys_menu ("));
}

#[test]
fn next_seed_id_scans_quoted_and_column_forms() {
    let sql = "INSERT INTO sys_menu (menu_id, x) VALUES ('2500', 1);\ninsert into sys_menu values(7, 1);";
    assert_eq!(next_seed_id(sql, "sys_menu", 2000), 2501);
    assert_eq!(next_seed_id("nothing", "sys_menu", 2000), 2000);
    assert_eq!(next_seed_id("insert into t values(5)", "t", 1), 6);
    // a value past i64::MAX does not parse and is skipped
    assert_eq!(next_seed_id("insert into t values(99999999999999999999)", "t", 3), 3);
}

#[test]
fn classic_frontend_text_patches() {
    let store = "import defaultSettings from '@/settings'\nimport { useDynamicTitle } from '@/utils/dynamicTitle'\n\nconst state = {\n  title: ''\n}\nconst mutations = {\n}\n\nconst actions = {\n  a() {}\n}\n\nexport default {\n  namespaced: true\n}\n";
    let s = patch_settings_store(store);
    assert!(s.contains("import defaultSettings from '@/settings'\nimport { getWebInfo } from '@/api/webInfo'\n"));
    assert!(s.contains("siteTitle: ''"));
    assert!(s.contains("GetSiteInfo"));
    assert!(s.contains("setSite"));
    assert_eq!(patch_settings_store(&s), s);
    assert_eq!(patch_settings_store("no import"), "no import");

    let perm = "router.beforeEach((to, from, next) => {\n  NProgress.start()\n  next()\n})\n";
    let p = patch_permission_js(perm);
    assert!(p.contains("store.dispatch('settings/GetSiteInfo')"));
    assert_eq!(patch_permission_js(&p), p);

    let logo = "<script>\nimport logoImg from '@/assets/logo/logo.png'\n\nexport default {\n  computed: {\n    navType() {\n      return this.$store.state.settings.navType\n    }\n  },\n  data() {\n    return {\n      title: process.env.VUE_APP_TITLE,\n      logo: logoImg\n    }\n  }\n}\n</script>\n";
    let l = patch_sidebar_logo(logo);
    assert!(!l.contains("title: process.env.VUE_APP_TITLE"), "{l}");
    assert!(l.contains("    navType() {\n      return this.$store.state.settings.navType\n    },\n    title() {\n      return this.$store.state.settings.siteTitle || process.env.VUE_APP_TITLE\n    },"), "{l}");
    assert!(l.contains("VUE_APP_BASE_API + siteLogo"));
    assert_eq!(patch_sidebar_logo("<script></script>"), "<script></script>");

    let login = "export default {\n  data() {\n    return {\n      title: process.env.VUE_APP_TITLE,\n      codeUrl: \"\"\n    }\n  },\n  created() {\n    this.getCode()\n  }\n}\n";
    let t = patch_auth_title(login);
    assert!(!t.contains("title: process.env.VUE_APP_TITLE"));
    assert!(t.contains("  computed: {\n    title() {"));
    assert_eq!(patch_auth_title(&t), t);

    let dt = "document.title = store.state.settings.title + ' - ' + defaultSettings.title\n  } else {\n    document.title = defaultSettings.title\n";
    let d = patch_dynamic_title(dt);
    assert!(d.contains("(store.state.settings.siteTitle || defaultSettings.title)"));
    assert!(d.contains("document.title = store.state.settings.siteTitle || defaultSettings.title"));
}
