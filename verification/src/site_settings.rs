//! Site settings: seed rows of the settings menu and `sys.site.*` configuration
//! appended to the main SQL script, and the classic front end's dynamic title
//! and logo, each as a change of a file's text.
use vstd::prelude::*;
use crate::ext_calls::{lowercase_of, pieces_text, regex_pieces, regex_pieces_of, to_lowercase, PieceModel};
use crate::nacos_yaml::{group_exec, group_text, int_text, regex_replace_first, regex_replaced_first, MatchModel, MatchRule};
use crate::nacos_yaml::replace_first;
use crate::patch::{copy_chars, find_str, insert_at, insert_at_exec, replace_first_str, replace_str};
use crate::placeholders::str_replace;
use crate::regex_template::{all_digits, digits_value};
use crate::text::{chars_of, contains, contains_str, ends_with, ends_with_str, extend_chars, extend_str, find, string_of};
use crate::web_footer::group_or;

verus! {

// ---------------------------------------------------------------------------
// Reading the script
// ---------------------------------------------------------------------------

/// The `create table sys_menu (...)` definition, up to its engine clause or `);`.
pub open spec fn menu_table_pattern() -> Seq<char> {
    "(?s)create\\s+table\\s+sys_menu\\s+\\(.*?(?:engine\\s*=|\\)\\s*;)"@
}

/// Whether the (lowercased) script defines `sys_menu` with a `route_name` column:
/// the first table definition found holds `route_name`.
pub open spec fn menu_has_route_name(lower: Seq<char>) -> bool {
    match regex_pieces_of(menu_table_pattern(), lower) {
        Some((ps, _t)) => ps.len() > 0 && contains(ps[0].1, "route_name"@),
        None => false,
    }
}

/// Whether `sys_menu` has a `route_name` column (see `menu_has_route_name`).
pub fn has_sys_menu_route_name(lower_content: &str) -> (r: bool)
    ensures
        r == menu_has_route_name(lower_content@),
{
    match regex_pieces("(?s)create\\s+table\\s+sys_menu\\s+\\(.*?(?:engine\\s*=|\\)\\s*;)", lower_content) {
        Some((pieces, _tail)) => pieces.len() > 0 && contains_str(&chars_of(pieces[0].1.as_str()), "route_name"),
        None => false,
    }
}

/// The first id of each `insert into <table> [(cols)] values (id, ...`.
pub open spec fn seed_id_pattern(table: Seq<char>) -> Seq<char> {
    "(?i)insert\\s+into\\s+"@
        + table
        + "\\s*(?:\\([^)]*\\)\\s*)?values\\s*\\(\\s*'?(\\d+)"@
}

/// `s.parse::<i64>()` of a run of digits: ASCII digits only, at most `i64::MAX`.
pub open spec fn parsed_id(s: Seq<char>) -> Option<int> {
    if s.len() > 0 && all_digits(s) && digits_value(s) <= i64::MAX {
        Some(digits_value(s) as int)
    } else {
        None
    }
}

/// The largest id that parses among the matches, 0 without any.
pub open spec fn max_seed_id(ps: Seq<PieceModel>) -> int
    decreases ps.len(),
{
    if ps.len() == 0 {
        0
    } else {
        let m = max_seed_id(ps.drop_last());
        match parsed_id(group_text(ps.last().2, 0)) {
            Some(v) => if v > m {
                v
            } else {
                m
            },
            None => m,
        }
    }
}

/// The next free id of a table: one past the largest seed id (wrapping as `i64`
/// arithmetic does in release builds), at least `floor`.
pub open spec fn next_seed(content: Seq<char>, table: Seq<char>, floor: i64) -> i64 {
    match regex_pieces_of(seed_id_pattern(table), content) {
        Some((ps, _t)) => {
            let n = (max_seed_id(ps) as i64).wrapping_add(1);
            if n > floor {
                n
            } else {
                floor
            }
        },
        None => floor,
    }
}

fn parse_id_exec(s: &Vec<char>) -> (r: Option<i64>)
    ensures
        r matches Some(v) ==> parsed_id(s@) == Some(v as int),
        r is None ==> parsed_id(s@) is None,
{
    if s.len() == 0 {
        return None;
    }
    let mut v: i64 = 0;
    let mut i: usize = 0;
    while i < s.len()
        invariant
            i <= s.len(),
            all_digits(s@.take(i as int)),
            0 <= v,
            v as nat == digits_value(s@.take(i as int)),
        decreases s.len() - i,
    {
        let c = s[i];
        let ghost pre = s@.take(i as int);
        let ghost next = s@.take(i + 1);
        assert(next.drop_last() =~= pre);
        if !('0' <= c && c <= '9') {
            assert(!all_digits(s@)) by {
                assert(s@[i as int] == c);
            }
            return None;
        }
        assert(all_digits(next)) by {
            assert forall|j: int| 0 <= j < next.len() implies '0' <= #[trigger] next[j] && next[j] <= '9' by {
                if j < pre.len() {
                    assert(next[j] == pre[j]);
                }
            }
        }
        let d: i64 = ((c as u32) - ('0' as u32)) as i64;
        assert(next.last() == c);
        assert(digits_value(next) == digits_value(pre) * 10 + d);
        match v.checked_mul(10) {
            Some(t) => match t.checked_add(d) {
                Some(u) => {
                    v = u;
                },
                None => {
                    proof {
                        lemma_digits_prefix(s@, i + 1);
                    }
                    return None;
                },
            },
            None => {
                proof {
                    lemma_digits_prefix(s@, i + 1);
                }
                return None;
            },
        }
        i = i + 1;
    }
    assert(s@.take(i as int) =~= s@);
    Some(v)
}

proof fn lemma_digits_prefix(s: Seq<char>, k: int)
    requires
        0 <= k <= s.len(),
    ensures
        digits_value(s.take(k)) <= digits_value(s),
    decreases s.len() - k,
{
    if k < s.len() {
        lemma_digits_prefix(s, k + 1);
        assert(s.take(k + 1).drop_last() =~= s.take(k));
    } else {
        assert(s.take(k) =~= s);
    }
}

/// The next free id of `table` in the script (see `next_seed`).
pub fn next_seed_id(content: &str, table: &str, floor: i64) -> (r: i64)
    ensures
        r == next_seed(content@, table@, floor),
{
    let mut pv: Vec<char> = Vec::new();
    extend_str(&mut pv, "(?i)insert\\s+into\\s+");
    extend_str(&mut pv, table);
    extend_str(&mut pv, "\\s*(?:\\([^)]*\\)\\s*)?values\\s*\\(\\s*'?(\\d+)");
    let pattern = string_of(&pv);
    match regex_pieces(pattern.as_str(), content) {
        Some((pieces, _tail)) => {
            let ghost ps = crate::ext_calls::piece_views(pieces@);
            let mut max: i64 = 0;
            let mut i: usize = 0;
            assert(ps.take(0) =~= Seq::<PieceModel>::empty());
            while i < pieces.len()
                invariant
                    i <= pieces.len(),
                    ps == crate::ext_calls::piece_views(pieces@),
                    max as int == max_seed_id(ps.take(i as int)),
                    0 <= max,
                decreases pieces.len() - i,
            {
                assert(ps.take(i + 1).drop_last() =~= ps.take(i as int));
                assert(ps.take(i + 1).last() == ps[i as int]);
                let g = group_exec(&pieces[i].2, 0);
                match parse_id_exec(&g) {
                    Some(v) => if v > max {
                        max = v;
                    },
                    None => {},
                }
                i = i + 1;
            }
            assert(ps.take(i as int) =~= ps);
            let n = max.wrapping_add(1);
            if n > floor {
                n
            } else {
                floor
            }
        },
        None => floor,
    }
}

// ---------------------------------------------------------------------------
// Seed rows
// ---------------------------------------------------------------------------

/// An `i64` in decimal, with a `-` when negative.
fn push_i64(v: &mut Vec<char>, n: i64)
    ensures
        final(v)@ == old(v)@ + int_text(n as int),
{
    if n < 0 {
        v.push('-');
        let m: i128 = -(n as i128);
        crate::text::push_decimal(v, m as u64);
        assert(v@ =~= old(v)@ + int_text(n as int));
    } else {
        crate::text::push_decimal(v, n as u64);
    }
}

/// The SQL function for the current time: `now()` for PostgreSQL, else `sysdate()`.
pub open spec fn now_fn(pg: bool) -> Seq<char> {
    if pg {
        "now()"@
    } else {
        "sysdate()"@
    }
}

/// One `sys_config` seed row.
pub open spec fn config_row(id: i64, name: Seq<char>, key: Seq<char>, remark: Seq<char>, pg: bool) -> Seq<char> {
    "insert into sys_config (config_id, config_name, config_key, config_value, config_type, create_by, create_time, remark) values ("@
        + int_text(id as int)
        + ", '"@
        + name
        + "', '"@
        + key
        + "', '', 'Y', 'admin', "@
        + now_fn(pg)
        + ", '"@
        + remark
        + "');\n"@
}

/// The three `sys.site.*` rows, ids from `first` on.
#[verifier::opaque]
pub open spec fn config_rows(first: i64, pg: bool) -> Seq<char> {
    config_row(first, "站点标题"@, "sys.site.title"@, "后台设置页面维护，留空用打包默认标题"@, pg)
        + config_row(first.wrapping_add(1), "后台Logo"@, "sys.site.logo"@, "后台设置页面维护，留空用默认Logo"@, pg)
        + config_row(first.wrapping_add(2), "ICP备案号"@, "sys.site.icp"@, "后台设置页面维护，留空回退 application.yaml 的 ruoyi.icp"@, pg)
}

/// The column list of a `sys_menu` row, `route_name` included when the table has it.
pub open spec fn menu_cols(route: bool) -> Seq<char> {
    let route_col = if route {
        ", route_name"@
    } else {
        Seq::empty()
    };
    "menu_id, menu_name, parent_id, order_num, path, component, query"@
        + route_col
        + ", is_frame, is_cache, menu_type, visible, status, perms, icon, create_by, create_time, remark"@
}

/// The directory row of the settings menu.
pub open spec fn menu_dir_row(cols: Seq<char>, m_dir: Seq<char>, route_val: Seq<char>, now: Seq<char>) -> Seq<char> {
    "insert into sys_menu ("@
        + cols
        + ") values ("@
        + m_dir
        + ", '后台设置', 0, 5, 'site', null, ''"@
        + route_val
        + ", 1, 0, 'M', '0', '0', '', 'edit', 'admin', "@
        + now
        + ", '后台设置目录');\n"@
}

/// The page row of the settings menu.
pub open spec fn menu_page_row(cols: Seq<char>, m_dir: Seq<char>, m_page: Seq<char>, route_val: Seq<char>, now: Seq<char>) -> Seq<char> {
    "insert into sys_menu ("@
        + cols
        + ") values ("@
        + m_page
        + ", '站点设置', "@
        + m_dir
        + ", 1, 'settings', 'site/settings/index', ''"@
        + route_val
        + ", 1, 0, 'C', '0', '0', 'site:settings:list', 'form', 'admin', "@
        + now
        + ", '站点设置菜单');\n"@
}

/// The button row of the settings menu.
pub open spec fn menu_btn_row(cols: Seq<char>, m_page: Seq<char>, m_btn: Seq<char>, route_val: Seq<char>, now: Seq<char>) -> Seq<char> {
    "insert into sys_menu ("@
        + cols
        + ") values ("@
        + m_btn
        + ", '站点修改', "@
        + m_page
        + ", 1, '#', '', ''"@
        + route_val
        + ", 1, 0, 'F', '0', '0', 'site:settings:edit', '#', 'admin', "@
        + now
        + ", '');\n"@
}

/// The directory, page and button rows of the settings menu, ids from `first` on.
#[verifier::opaque]
pub open spec fn menu_rows(first: i64, route: bool, pg: bool) -> Seq<char> {
    let cols = menu_cols(route);
    let route_val = if route {
        ", ''"@
    } else {
        Seq::empty()
    };
    let m_dir = int_text(first as int);
    let m_page = int_text(first.wrapping_add(1) as int);
    let m_btn = int_text(first.wrapping_add(2) as int);
    let now = now_fn(pg);
    menu_dir_row(cols, m_dir, route_val, now) + menu_page_row(cols, m_dir, m_page, route_val, now)
        + menu_btn_row(cols, m_page, m_btn, route_val, now)
}

fn menu_dir_row_exec(v: &mut Vec<char>, cols: &str, m_dir: &str, route_val: &str, now_fn: &str)
    ensures
        final(v)@ == old(v)@ + menu_dir_row(cols@, m_dir@, route_val@, now_fn@),
{
    extend_str(v, "insert into sys_menu (");
    extend_str(v, cols);
    extend_str(v, ") values (");
    extend_str(v, m_dir);
    extend_str(v, ", '后台设置', 0, 5, 'site', null, ''");
    extend_str(v, route_val);
    extend_str(v, ", 1, 0, 'M', '0', '0', '', 'edit', 'admin', ");
    extend_str(v, now_fn);
    extend_str(v, ", '后台设置目录');\n");
}

fn menu_page_row_exec(v: &mut Vec<char>, cols: &str, m_dir: &str, m_page: &str, route_val: &str, now_fn: &str)
    ensures
        final(v)@ == old(v)@ + menu_page_row(cols@, m_dir@, m_page@, route_val@, now_fn@),
{
    extend_str(v, "insert into sys_menu (");
    extend_str(v, cols);
    extend_str(v, ") values (");
    extend_str(v, m_page);
    extend_str(v, ", '站点设置', ");
    extend_str(v, m_dir);
    extend_str(v, ", 1, 'settings', 'site/settings/index', ''");
    extend_str(v, route_val);
    extend_str(v, ", 1, 0, 'C', '0', '0', 'site:settings:list', 'form', 'admin', ");
    extend_str(v, now_fn);
    extend_str(v, ", '站点设置菜单');\n");
}

fn menu_btn_row_exec(v: &mut Vec<char>, cols: &str, m_page: &str, m_btn: &str, route_val: &str, now_fn: &str)
    ensures
        final(v)@ == old(v)@ + menu_btn_row(cols@, m_page@, m_btn@, route_val@, now_fn@),
{
    extend_str(v, "insert into sys_menu (");
    extend_str(v, cols);
    extend_str(v, ") values (");
    extend_str(v, m_btn);
    extend_str(v, ", '站点修改', ");
    extend_str(v, m_page);
    extend_str(v, ", 1, '#', '', ''");
    extend_str(v, route_val);
    extend_str(v, ", 1, 0, 'F', '0', '0', 'site:settings:edit', '#', 'admin', ");
    extend_str(v, now_fn);
    extend_str(v, ", '');\n");
}

/// The script with the settings seeds appended (after a newline when it does
/// not end with one): the `sys.site.*` rows when it seeds `sys_config` without
/// them, the menu rows when it seeds `sys_menu` without the edit button, and
/// for PostgreSQL the sequences re-aligned. `lower` is the script lowercased.
/// `None` when it seeds neither table or already has both.
pub open spec fn site_seeds_appended(content: Seq<char>, lower: Seq<char>, pg: bool) -> Option<Seq<char>> {
    let has_menu = contains(lower, "insert into sys_menu"@);
    let has_config = contains(lower, "insert into sys_config"@);
    let config_done = contains(lower, "sys.site.title"@);
    let menu_done = contains(lower, "site:settings:edit"@);
    if !has_menu && !has_config {
        None
    } else if config_done && menu_done {
        None
    } else {
        let wrote_config = has_config && !config_done;
        let wrote_menu = has_menu && !menu_done;
        let header = "\n-- ----------------------------\n"@ + "-- 后台设置（由若依锻造台 RuoYi Forge 追加）：站点设置菜单 + sys.site.* 配置\n"@ + "-- ----------------------------\n"@;
        let cfg = if wrote_config {
            config_rows(next_seed(content, "sys_config"@, 100), pg)
        } else {
            Seq::empty()
        };
        let menu = if wrote_menu {
            menu_rows(next_seed(content, "sys_menu"@, 2000), menu_has_route_name(lower), pg)
        } else {
            Seq::empty()
        };
        let seq_menu = if pg && wrote_menu {
            "SELECT setval(pg_get_serial_sequence('sys_menu', 'menu_id'), GREATEST((SELECT MAX(menu_id) FROM sys_menu), 2000));\n"@
        } else {
            Seq::empty()
        };
        let seq_config = if pg && wrote_config {
            "SELECT setval(pg_get_serial_sequence('sys_config', 'config_id'), GREATEST((SELECT MAX(config_id) FROM sys_config), 100));\n"@
        } else {
            Seq::empty()
        };
        let base = if ends_with(content, "\n"@) {
            content
        } else {
            content + "\n"@
        };
        Some(base + header + cfg + menu + seq_menu + seq_config)
    }
}

fn config_row_exec(v: &mut Vec<char>, id: i64, name: &str, key: &str, remark: &str, pg: bool)
    ensures
        final(v)@ == old(v)@ + config_row(id, name@, key@, remark@, pg),
{
    let now_fn = if pg {
        "now()"
    } else {
        "sysdate()"
    };
    extend_str(v, "insert into sys_config (config_id, config_name, config_key, config_value, config_type, create_by, create_time, remark) values (");
    push_i64(v, id);
    extend_str(v, ", '");
    extend_str(v, name);
    extend_str(v, "', '");
    extend_str(v, key);
    extend_str(v, "', '', 'Y', 'admin', ");
    extend_str(v, now_fn);
    extend_str(v, ", '");
    extend_str(v, remark);
    extend_str(v, "');\n");
}

fn config_rows_exec(v: &mut Vec<char>, first: i64, pg: bool)
    ensures
        final(v)@ == old(v)@ + config_rows(first, pg),
{
    let ghost start = v@;
    config_row_exec(v, first, "站点标题", "sys.site.title", "后台设置页面维护，留空用打包默认标题", pg);
    config_row_exec(v, first.wrapping_add(1), "后台Logo", "sys.site.logo", "后台设置页面维护，留空用默认Logo", pg);
    config_row_exec(v, first.wrapping_add(2), "ICP备案号", "sys.site.icp", "后台设置页面维护，留空回退 application.yaml 的 ruoyi.icp", pg);
    assert(v@ =~= start + config_rows(first, pg)) by {
        reveal(config_rows);
    }
}

fn menu_rows_exec(v: &mut Vec<char>, first: i64, route: bool, pg: bool)
    ensures
        final(v)@ == old(v)@ + menu_rows(first, route, pg),
{
    let route_col = if route {
        ", route_name"
    } else {
        ""
    };
    let route_val = if route {
        ", ''"
    } else {
        ""
    };
    proof {
        reveal_strlit("");
    }
    let mut cv: Vec<char> = Vec::new();
    extend_str(&mut cv, "menu_id, menu_name, parent_id, order_num, path, component, query");
    extend_str(&mut cv, route_col);
    extend_str(&mut cv, ", is_frame, is_cache, menu_type, visible, status, perms, icon, create_by, create_time, remark");
    let cols = string_of(&cv);
    let cols = cols.as_str();
    let mut dv: Vec<char> = Vec::new();
    push_i64(&mut dv, first);
    let m_dir = string_of(&dv);
    let m_dir = m_dir.as_str();
    let mut pgv: Vec<char> = Vec::new();
    push_i64(&mut pgv, first.wrapping_add(1));
    let m_page = string_of(&pgv);
    let m_page = m_page.as_str();
    let mut bv: Vec<char> = Vec::new();
    push_i64(&mut bv, first.wrapping_add(2));
    let m_btn = string_of(&bv);
    let m_btn = m_btn.as_str();
    let now_fn = if pg {
        "now()"
    } else {
        "sysdate()"
    };
    let ghost start = v@;
    menu_dir_row_exec(v, cols, m_dir, route_val, now_fn);
    menu_page_row_exec(v, cols, m_dir, m_page, route_val, now_fn);
    menu_btn_row_exec(v, cols, m_page, m_btn, route_val, now_fn);
    assert(v@ =~= start + menu_rows(first, route, pg)) by {
        reveal(menu_rows);
    }
}

/// Appends the settings seeds to a script given its lowercased text (see
/// `site_seeds_appended`).
#[verifier::rlimit(40)]
pub fn append_site_seeds(content: &str, lower: &str, pg: bool) -> (r: Option<String>)
    ensures
        match r {
            Some(x) => site_seeds_appended(content@, lower@, pg) == Some(x@),
            None => site_seeds_appended(content@, lower@, pg) is None,
        },
{
    let lc = chars_of(lower);
    let has_menu = contains_str(&lc, "insert into sys_menu");
    let has_config = contains_str(&lc, "insert into sys_config");
    let config_done = contains_str(&lc, "sys.site.title");
    let menu_done = contains_str(&lc, "site:settings:edit");
    if !has_menu && !has_config {
        return None;
    }
    if config_done && menu_done {
        return None;
    }
    let wrote_config = has_config && !config_done;
    let wrote_menu = has_menu && !menu_done;
    let mut out = chars_of(content);
    if !ends_with_str(&out, "\n") {
        extend_str(&mut out, "\n");
    }
    extend_str(&mut out, "\n-- ----------------------------\n");
    extend_str(&mut out, "-- 后台设置（由若依锻造台 RuoYi Forge 追加）：站点设置菜单 + sys.site.* 配置\n");
    extend_str(&mut out, "-- ----------------------------\n");
    let ghost base = out@;
    let ghost header = out@;
    if wrote_config {
        let first = next_seed_id(content, "sys_config", 100);
        config_rows_exec(&mut out, first, pg);
    }
    let ghost after_cfg = out@;
    if wrote_menu {
        let first = next_seed_id(content, "sys_menu", 2000);
        let route = has_sys_menu_route_name(lower);
        menu_rows_exec(&mut out, first, route, pg);
    }
    let ghost after_menu = out@;
    if pg && wrote_menu {
        extend_str(&mut out, "SELECT setval(pg_get_serial_sequence('sys_menu', 'menu_id'), GREATEST((SELECT MAX(menu_id) FROM sys_menu), 2000));\n");
    }
    if pg && wrote_config {
        extend_str(&mut out, "SELECT setval(pg_get_serial_sequence('sys_config', 'config_id'), GREATEST((SELECT MAX(config_id) FROM sys_config), 100));\n");
    }
    proof {
        reveal_strlit("");
    }
    Some(string_of(&out))
}

/// Appends the settings seeds to a script (see `site_seeds_appended`, with the
/// script's Unicode lowercase as `lower`).
pub fn inject_sql_seeds(content: &str, pg: bool) -> (r: Option<String>)
    ensures
        match r {
            Some(x) => site_seeds_appended(content@, lowercase_of(content@), pg) == Some(x@),
            None => site_seeds_appended(content@, lowercase_of(content@), pg) is None,
        },
{
    let lower = to_lowercase(content);
    append_site_seeds(content, lower.as_str(), pg)
}

// ---------------------------------------------------------------------------
// Classic front end
// ---------------------------------------------------------------------------

/// The settings store with the site state and the `GetSiteInfo` / `setSite`
/// actions: `getWebInfo` imported after the `defaultSettings` import, state keys
/// before `const mutations`, actions before `export default`; unchanged when it
/// already has `siteTitle` or lacks the import.
pub open spec fn settings_store_patched(c: Seq<char>) -> Seq<char> {
    if contains(c, "siteTitle"@) {
        c
    } else {
        match find(c, "import defaultSettings from '@/settings'"@) {
            Some(p) => {
                let out = insert_at(c, p + "import defaultSettings from '@/settings'"@.len(), "\nimport { getWebInfo } from '@/api/webInfo'"@);
                let out2 = replace_first(out, "}\nconst mutations = {"@, ",\n  siteTitle: '',\n  siteLogo: '',\n  siteLoaded: false\n}\nconst mutations = {"@);
                replace_first(out2, "}\n\nexport default {"@, ",\n  // 拉取站点公开信息（标题/Logo，登录页也需要，未登录可访问）\n  GetSiteInfo({ commit }) {\n    return getWebInfo().then(res => {\n      commit('CHANGE_SETTING', { key: 'siteTitle', value: (res.data && res.data.title) || '' })\n      commit('CHANGE_SETTING', { key: 'siteLogo', value: (res.data && res.data.logo) || '' })\n    }).catch(() => {})\n  },\n  // 站点设置页保存后即时生效\n  setSite({ commit }, data) {\n    commit('CHANGE_SETTING', { key: 'siteTitle', value: (data && data.title) || '' })\n    commit('CHANGE_SETTING', { key: 'siteLogo', value: (data && data.logo) || '' })\n    useDynamicTitle()\n  }\n}\n\nexport default {"@)
            },
            None => c,
        }
    }
}

/// Adds the site state and actions to the text of the settings store.
pub fn patch_settings_store(content: &str) -> (r: String)
    ensures
        r@ == settings_store_patched(content@),
{
    let c = chars_of(content);
    if contains_str(&c, "siteTitle") {
        return String::from_str(content);
    }
    match find_str(&c, "import defaultSettings from '@/settings'") {
        Some(p) => {
            let anchor = chars_of("import defaultSettings from '@/settings'");
            let imp = chars_of("\nimport { getWebInfo } from '@/api/webInfo'");
            let out = insert_at_exec(&c, p + anchor.len(), &imp);
            let out2 = replace_first_str(&out, "}\nconst mutations = {", ",\n  siteTitle: '',\n  siteLogo: '',\n  siteLoaded: false\n}\nconst mutations = {");
            string_of(&replace_first_str(&out2, "}\n\nexport default {", ",\n  // 拉取站点公开信息（标题/Logo，登录页也需要，未登录可访问）\n  GetSiteInfo({ commit }) {\n    return getWebInfo().then(res => {\n      commit('CHANGE_SETTING', { key: 'siteTitle', value: (res.data && res.data.title) || '' })\n      commit('CHANGE_SETTING', { key: 'siteLogo', value: (res.data && res.data.logo) || '' })\n    }).catch(() => {})\n  },\n  // 站点设置页保存后即时生效\n  setSite({ commit }, data) {\n    commit('CHANGE_SETTING', { key: 'siteTitle', value: (data && data.title) || '' })\n    commit('CHANGE_SETTING', { key: 'siteLogo', value: (data && data.logo) || '' })\n    useDynamicTitle()\n  }\n}\n\nexport default {"))
        },
        None => String::from_str(content),
    }
}

/// permission.js fetching the site information on the first route, unless it
/// already does.
pub open spec fn permission_patched(c: Seq<char>) -> Seq<char> {
    if contains(c, "GetSiteInfo"@) {
        c
    } else {
        replace_first(c, "router.beforeEach((to, from, next) => {\n  NProgress.start()"@, "router.beforeEach((to, from, next) => {\n  NProgress.start()\n  // 站点公开信息（标题/Logo）：首个路由触发一次，登录页也生效\n  if (!store.state.settings.siteLoaded) {\n    store.commit('settings/CHANGE_SETTING', { key: 'siteLoaded', value: true })\n    store.dispatch('settings/GetSiteInfo')\n  }"@)
    }
}

/// Makes the text of permission.js fetch the site information.
pub fn patch_permission_js(content: &str) -> (r: String)
    ensures
        r@ == permission_patched(content@),
{
    let c = chars_of(content);
    if contains_str(&c, "GetSiteInfo") {
        return String::from_str(content);
    }
    string_of(&replace_first_str(&c, "router.beforeEach((to, from, next) => {\n  NProgress.start()", "router.beforeEach((to, from, next) => {\n  NProgress.start()\n  // 站点公开信息（标题/Logo）：首个路由触发一次，登录页也生效\n  if (!store.state.settings.siteLoaded) {\n    store.commit('settings/CHANGE_SETTING', { key: 'siteLoaded', value: true })\n    store.dispatch('settings/GetSiteInfo')\n  }"))
}

/// The computed `title` and `logo` of the sidebar logo at an indentation.
pub open spec fn dynamic_logo(indent: Seq<char>) -> Seq<char> {
    indent
        + "title() {\n"@
        + indent
        + "  return this.$store.state.settings.siteTitle || process.env.VUE_APP_TITLE\n"@
        + indent
        + "},\n"@
        + indent
        + "logo() {\n"@
        + indent
        + "  const siteLogo = this.$store.state.settings.siteLogo\n"@
        + indent
        + "  return siteLogo ? process.env.VUE_APP_BASE_API + siteLogo : logoImg\n"@
        + indent
        + "}"@
}

fn dynamic_logo_exec(indent: &str) -> (r: Vec<char>)
    ensures
        r@ == dynamic_logo(indent@),
{
    let mut v: Vec<char> = Vec::new();
    extend_str(&mut v, indent);
    extend_str(&mut v, "title() {\n");
    extend_str(&mut v, indent);
    extend_str(&mut v, "  return this.$store.state.settings.siteTitle || process.env.VUE_APP_TITLE\n");
    extend_str(&mut v, indent);
    extend_str(&mut v, "},\n");
    extend_str(&mut v, indent);
    extend_str(&mut v, "logo() {\n");
    extend_str(&mut v, indent);
    extend_str(&mut v, "  const siteLogo = this.$store.state.settings.siteLogo\n");
    extend_str(&mut v, indent);
    extend_str(&mut v, "  return siteLogo ? process.env.VUE_APP_BASE_API + siteLogo : logoImg\n");
    extend_str(&mut v, indent);
    extend_str(&mut v, "}");
    v
}

/// The `navType()` computed property of the sidebar logo.
pub open spec fn nav_type_pattern() -> Seq<char> {
    "(?m)^([ \\t]*)navType\\(\\)[ \\t]*\\{[ \\t]*\\n[ \\t]*return this\\.\\$store\\.state\\.settings\\.navType[ \\t]*\\n[ \\t]*\\}"@
}

/// The static `title` / `logo` data of the sidebar logo.
pub open spec fn static_logo_pattern() -> Seq<char> {
    "(?m)^([ \\t]*)title:[ \\t]*process\\.env\\.VUE_APP_TITLE,?[ \\t]*\\n[ \\t]*logo:[ \\t]*logoImg,?[ \\t]*\\n"@
}

/// The sidebar logo with computed `title` / `logo` after `navType()` (or first
/// in `computed: {`) and the static data removed; unchanged when it already
/// has `siteTitle` or has no place for them.
pub open spec fn sidebar_logo_patched(c: Seq<char>) -> Seq<char> {
    if contains(c, "siteTitle"@) {
        c
    } else {
        let out = match regex_pieces_of(nav_type_pattern(), c) {
            Some((ps, _t)) if ps.len() > 0 => {
                let whole = ps[0].1;
                let indent = group_or(ps[0].2, 0, "    "@);
                Some(replace_first(c, whole, whole + ",\n"@ + dynamic_logo(indent)))
            },
            _ => match find(c, "computed: {"@) {
                Some(p) => Some(insert_at(c, p + "computed: {"@.len(), "\n"@ + dynamic_logo("    "@) + ","@)),
                None => None,
            },
        };
        match out {
            Some(o) => regex_replaced_first(static_logo_pattern(), o, MatchModel::Drop),
            None => c,
        }
    }
}

/// Makes the sidebar logo's title and image follow the site settings.
pub fn patch_sidebar_logo(content: &str) -> (r: String)
    ensures
        r@ == sidebar_logo_patched(content@),
{
    let c = chars_of(content);
    if contains_str(&c, "siteTitle") {
        return String::from_str(content);
    }
    let out = match regex_pieces("(?m)^([ \\t]*)navType\\(\\)[ \\t]*\\{[ \\t]*\\n[ \\t]*return this\\.\\$store\\.state\\.settings\\.navType[ \\t]*\\n[ \\t]*\\}", content) {
        Some((pieces, _tail)) if pieces.len() > 0 => {
            let whole = chars_of(pieces[0].1.as_str());
            let indent = match pieces[0].2.first() {
                Some(Some(g)) => chars_of(g.as_str()),
                _ => chars_of("    "),
            };
            let mut to = copy_chars(&whole);
            extend_str(&mut to, ",\n");
            extend_chars(&mut to, &dynamic_logo_exec(string_of(&indent).as_str()));
            let whole_s = string_of(&whole);
            let to_s = string_of(&to);
            Some(replace_first_str(&c, whole_s.as_str(), to_s.as_str()))
        },
        _ => match find_str(&c, "computed: {") {
            Some(p) => {
                let anchor = chars_of("computed: {");
                let mut ins = chars_of("\n");
                extend_chars(&mut ins, &dynamic_logo_exec("    "));
                extend_str(&mut ins, ",");
                Some(insert_at_exec(&c, p + anchor.len(), &ins))
            },
            None => None,
        },
    };
    match out {
        Some(o) => regex_replace_first("(?m)^([ \\t]*)title:[ \\t]*process\\.env\\.VUE_APP_TITLE,?[ \\t]*\\n[ \\t]*logo:[ \\t]*logoImg,?[ \\t]*\\n", string_of(&o).as_str(), &MatchRule::Drop),
        None => String::from_str(content),
    }
}

/// The static `title` line of the login or register page.
pub open spec fn static_title_pattern() -> Seq<char> {
    "(?m)^[ \\t]*title:[ \\t]*process\\.env\\.VUE_APP_TITLE,?[ \\t]*\\n"@
}

/// The login or register page with a computed `title` before `created()` and
/// the static one removed; unchanged when it has `siteTitle` or no `created()`.
pub open spec fn auth_title_patched(c: Seq<char>) -> Seq<char> {
    if contains(c, "siteTitle"@) || !contains(c, "  created() {"@) {
        c
    } else {
        regex_replaced_first(static_title_pattern(), replace_first(c, "  created() {"@, "  computed: {\n    title() {\n      return this.$store.state.settings.siteTitle || process.env.VUE_APP_TITLE\n    }\n  },\n  created() {"@), MatchModel::Drop)
    }
}

/// Makes the title of the login or register page follow the site settings.
pub fn patch_auth_title(content: &str) -> (r: String)
    ensures
        r@ == auth_title_patched(content@),
{
    let c = chars_of(content);
    if contains_str(&c, "siteTitle") || !contains_str(&c, "  created() {") {
        return String::from_str(content);
    }
    let out = replace_first_str(&c, "  created() {", "  computed: {\n    title() {\n      return this.$store.state.settings.siteTitle || process.env.VUE_APP_TITLE\n    }\n  },\n  created() {");
    regex_replace_first("(?m)^[ \\t]*title:[ \\t]*process\\.env\\.VUE_APP_TITLE,?[ \\t]*\\n", string_of(&out).as_str(), &MatchRule::Drop)
}

/// dynamicTitle.js preferring the site title; unchanged when it has `siteTitle`.
pub open spec fn dynamic_title_patched(c: Seq<char>) -> Seq<char> {
    if contains(c, "siteTitle"@) {
        c
    } else {
        str_replace(str_replace(c, "document.title = store.state.settings.title + ' - ' + defaultSettings.title"@, "document.title = store.state.settings.title + ' - ' + (store.state.settings.siteTitle || defaultSettings.title)"@), "document.title = defaultSettings.title"@, "document.title = store.state.settings.siteTitle || defaultSettings.title"@)
    }
}

/// Makes the browser tab title follow the site settings.
pub fn patch_dynamic_title(content: &str) -> (r: String)
    ensures
        r@ == dynamic_title_patched(content@),
{
    let c = chars_of(content);
    if contains_str(&c, "siteTitle") {
        return String::from_str(content);
    }
    let s1 = replace_str(&c, "document.title = store.state.settings.title + ' - ' + defaultSettings.title", "document.title = store.state.settings.title + ' - ' + (store.state.settings.siteTitle || defaultSettings.title)");
    string_of(&replace_str(&s1, "document.title = defaultSettings.title", "document.title = store.state.settings.siteTitle || defaultSettings.title"))
}

} // verus!
