//! Security hardening of the SQL seed scripts: the admin password hash, the
//! registration switch and the demo accounts.
use vstd::prelude::*;
use vstd::string::StringExecFns;
use crate::ext_calls::{bcrypt_2a_cost10, regex_pieces, regex_pieces_of};
use crate::nacos_yaml::{pieces_replaced, regex_replace_all, regex_replaced, MatchModel, MatchRule};
use crate::text::{chars_eq, chars_of, extend_str, string_of};

verus! {

/// Result of the hardening.
#[derive(Debug, Clone)]
pub struct SecurityOutcome {
    pub modified_files: usize,
    pub summary: Vec<String>,
}

/// Hashes a password with BCrypt (cost 10, `$2a$` form, compatible with Spring
/// Security). The salt is random: only the shape of a hash is stated.
pub fn bcrypt_hash(plain: &str) -> (r: Result<String, String>)
    ensures
        r matches Ok(h) ==> h@.len() == 60 && h@.take(7) == "$2a$10$"@,
        r matches Ok(h) ==> crate::ext_calls::bcrypt_verified_of(plain@, h@) == Some(true),
        r matches Err(e) ==> exists|d: Seq<char>| e@ == "BCrypt 加密失败："@ + d,
{
    match bcrypt_2a_cost10(plain) {
        Ok(h) => Ok(h),
        Err(d) => {
            let mut v: Vec<char> = Vec::new();
            extend_str(&mut v, "BCrypt 加密失败：");
            extend_str(&mut v, d.as_str());
            Err(string_of(&v))
        },
    }
}

/// Whether a password matches a BCrypt hash (`None` for a malformed hash).
pub fn password_matches(plain: &str, hash: &str) -> (r: Option<bool>)
    ensures
        r == crate::ext_calls::bcrypt_verified_of(plain@, hash@),
{
    crate::ext_calls::bcrypt_verify(plain, hash)
}

/// The `update sys_user ... password = '...' ... where login_name = 'admin'` statements.
pub open spec fn admin_password_pattern() -> Seq<char> {
    "(?i)(update\\s+sys_user\\b[^;]*?\\bpassword\\s*=\\s*')[^']*('[^;]*?where\\s+login_name\\s*=\\s*'admin')"@
}

/// The `sys.account.registerUser` config value.
pub open spec fn register_pattern() -> Seq<char> {
    "(?is)(sys\\.account\\.registerUser'[^;]*?config_value\\s*=\\s*')(?:true|false)(')"@
}

/// The `insert into sys_user` statements of the demo accounts `ry` / `ryadmin`.
pub open spec fn demo_users_pattern() -> Seq<char> {
    "(?is)\\binsert\\s+into\\s+sys_user\\b[^;]*?'(?:ry|ryadmin)'[^;]*;\\s*\\n?"@
}

/// `demoEnabled: true` lines.
pub open spec fn demo_mode_pattern() -> Seq<char> {
    "(?m)(demoEnabled\\s*:\\s*)true\\b"@
}

/// Number of matches of a pattern (0 when it does not compile).
pub open spec fn match_count(pattern: Seq<char>, text: Seq<char>) -> nat {
    match regex_pieces_of(pattern, text) {
        Some((ps, tail)) => ps.len(),
        None => 0,
    }
}

/// Puts `new_hash` in place of the admin password in the SQL; says whether any
/// statement matched (the text is unchanged otherwise).
pub fn replace_admin_password(content: &mut String, new_hash: &str) -> (r: bool)
    ensures
        r == (match_count(admin_password_pattern(), old(content)@) > 0),
        r ==> final(content)@ == regex_replaced(
            admin_password_pattern(),
            old(content)@,
            MatchModel::Between(new_hash@),
        ),
        !r ==> final(content)@ == old(content)@,
{
    let pattern = "(?i)(update\\s+sys_user\\b[^;]*?\\bpassword\\s*=\\s*')[^']*('[^;]*?where\\s+login_name\\s*=\\s*'admin')";
    let n = match regex_pieces(pattern, content.as_str()) {
        Some((pieces, _)) => pieces.len(),
        None => 0,
    };
    if n == 0 {
        return false;
    }
    let rule = MatchRule::Between(String::from_str(new_hash));
    let replaced = regex_replace_all(pattern, content.as_str(), &rule);
    *content = replaced;
    true
}

/// Sets `sys.account.registerUser` to `false`; says whether the text changed.
pub fn disable_register(content: &mut String) -> (r: bool)
    ensures
        ({
            let new = regex_replaced(register_pattern(), old(content)@, MatchModel::Between("false"@));
            &&& r == (new != old(content)@)
            &&& final(content)@ == new
        }),
{
    let rule = MatchRule::Between(String::from_str("false"));
    let new = regex_replace_all(
        "(?is)(sys\\.account\\.registerUser'[^;]*?config_value\\s*=\\s*')(?:true|false)(')",
        content.as_str(),
        &rule,
    );
    if !chars_eq(&chars_of(new.as_str()), &chars_of(content.as_str())) {
        *content = new;
        true
    } else {
        false
    }
}

/// Deletes the demo account inserts; returns how many statements went.
pub fn remove_demo_users(content: &mut String) -> (r: usize)
    ensures
        r == match_count(demo_users_pattern(), old(content)@),
        r > 0 ==> final(content)@ == regex_replaced(demo_users_pattern(), old(content)@, MatchModel::Drop),
        r == 0 ==> final(content)@ == old(content)@,
{
    let pattern = "(?is)\\binsert\\s+into\\s+sys_user\\b[^;]*?'(?:ry|ryadmin)'[^;]*;\\s*\\n?";
    let n = match regex_pieces(pattern, content.as_str()) {
        Some((pieces, _)) => pieces.len(),
        None => 0,
    };
    if n > 0 {
        let replaced = regex_replace_all(pattern, content.as_str(), &MatchRule::Drop);
        *content = replaced;
    }
    n
}

/// The configuration with `demoEnabled: true` turned to `false`.
pub fn demo_mode_disabled(content: &str) -> (r: String)
    ensures
        r@ == regex_replaced(demo_mode_pattern(), content@, MatchModel::Group1Then("false"@)),
{
    let rule = MatchRule::Group1Then(String::from_str("false"));
    regex_replace_all("(?m)(demoEnabled\\s*:\\s*)true\\b", content, &rule)
}

/// What hardening does to one SQL script: the new text, whether the admin
/// password was replaced, whether registration was switched off, and how many
/// demo account statements were removed (only when asked to).
pub open spec fn hardened(content: Seq<char>, admin_hash: Option<Seq<char>>, clean_demo_users: bool) -> (
    Seq<char>,
    bool,
    bool,
    nat,
) {
    let (c1, admin) = match admin_hash {
        Some(h) => if match_count(admin_password_pattern(), content) > 0 {
            (regex_replaced(admin_password_pattern(), content, MatchModel::Between(h)), true)
        } else {
            (content, false)
        },
        None => (content, false),
    };
    let c2 = regex_replaced(register_pattern(), c1, MatchModel::Between("false"@));
    let reg = c2 != c1;
    let n = if clean_demo_users { match_count(demo_users_pattern(), c2) } else { 0 };
    let c3 = if n > 0 { regex_replaced(demo_users_pattern(), c2, MatchModel::Drop) } else { c2 };
    (c3, admin, reg, n)
}

/// Hardens one SQL script (see `hardened`).
pub fn harden_sql_script(content: &str, admin_hash: Option<&str>, clean_demo_users: bool) -> (r: (
    String,
    bool,
    bool,
    usize,
))
    ensures
        ({
            let h = hardened(content@, match admin_hash {
                Some(x) => Some(x@),
                None => None,
            }, clean_demo_users);
            &&& r.0@ == h.0
            &&& r.1 == h.1
            &&& r.2 == h.2
            &&& r.3 == h.3
        }),
{
    let mut c = String::from_str(content);
    let admin = match admin_hash {
        Some(h) => replace_admin_password(&mut c, h),
        None => false,
    };
    let reg = disable_register(&mut c);
    let n = if clean_demo_users {
        remove_demo_users(&mut c)
    } else {
        0
    };
    (c, admin, reg, n)
}

} // verus!
