//! SMS login: patches of the login service and of the login pages, each a
//! function from the file's text to its new text (`None` when it is already
//! patched or the anchor it needs is missing).
use vstd::prelude::*;
use crate::params::CustomizeParams;
use crate::patch::{
    copy_chars,     find_str, find_str_from, insert_after_first, insert_after_str, insert_at, insert_at_exec,
    insert_before_first, insert_before_last, insert_before_last_exec, insert_before_str, replace_str,
};
use crate::placeholders::str_replace;
use crate::sms_login::{cloud_sms_login_text, render_cloud_sms_login, render_vue_sms_login, vue_sms_login_text};
use crate::text::{chars_eq, chars_of, contains, contains_str, extend_chars, extend_str, find, find_from, string_of};

verus! {

/// The SMS code endpoint: under `/auth` for Cloud.
pub open spec fn sms_code_url(cloud: bool) -> Seq<char> {
    if cloud {
        "/auth/smsCode"@
    } else {
        "/smsCode"@
    }
}

/// The SMS login endpoint: under `/auth` for Cloud.
pub open spec fn sms_login_url(cloud: bool) -> Seq<char> {
    if cloud {
        "/auth/smsLogin"@
    } else {
        "/smsLogin"@
    }
}

fn code_url(cloud: bool) -> (r: &'static str)
    ensures
        r@ == sms_code_url(cloud),
{
    if cloud {
        "/auth/smsCode"
    } else {
        "/smsCode"
    }
}

fn login_url(cloud: bool) -> (r: &'static str)
    ensures
        r@ == sms_login_url(cloud),
{
    if cloud {
        "/auth/smsLogin"
    } else {
        "/smsLogin"
    }
}

/// `s + t` as a new vector.
fn concat(s: &Vec<char>, t: &Vec<char>) -> (r: Vec<char>)
    ensures
        r@ == s@ + t@,
{
    let mut out: Vec<char> = Vec::new();
    extend_chars(&mut out, s);
    extend_chars(&mut out, t);
    out
}

/// `lit + s` as a new vector.
fn prepend_str(lit: &str, s: &Vec<char>) -> (r: Vec<char>)
    ensures
        r@ == lit@ + s@,
{
    let mut out = chars_of(lit);
    extend_chars(&mut out, s);
    out
}

// ---------------------------------------------------------------------------
// Backend
// ---------------------------------------------------------------------------

/// The class of the SMS code service seen from SysLoginService.
pub open spec fn sms_service_fqcn(pkg: Seq<char>, cloud: bool) -> Seq<char> {
    if cloud {
        pkg + ".auth.config.SmsCodeService"@
    } else {
        pkg + ".framework.config.SmsCodeService"@
    }
}

/// SysLoginService with the `smsLogin` method put before its last `}`; `None`
/// when it already has one or has no `}`.
pub open spec fn sys_login_service_patched(c: Seq<char>, pkg: Seq<char>, cloud: bool, method: Seq<char>) -> Option<Seq<char>> {
    if contains(c, "smsLogin("@) {
        None
    } else if cloud {
        insert_before_last(c, '}', cloud_sms_login_text(sms_service_fqcn(pkg, true), method))
    } else {
        insert_before_last(c, '}', vue_sms_login_text(sms_service_fqcn(pkg, false), method))
    }
}

/// Adds `smsLogin` to the text of SysLoginService (see `sys_login_service_patched`).
pub fn patch_sys_login_service(content: &str, params: &CustomizeParams, cloud: bool, phone_method: &str) -> (r: Option<String>)
    ensures
        match r {
            Some(x) => sys_login_service_patched(content@, params.new_package@, cloud, phone_method@) == Some(x@),
            None => sys_login_service_patched(content@, params.new_package@, cloud, phone_method@) is None,
        },
{
    let c = chars_of(content);
    if contains_str(&c, "smsLogin(") {
        return None;
    }
    let mut fq = chars_of(params.new_package.as_str());
    let insert = if cloud {
        extend_str(&mut fq, ".auth.config.SmsCodeService");
        chars_of(render_cloud_sms_login(string_of(&fq).as_str(), phone_method).as_str())
    } else {
        extend_str(&mut fq, ".framework.config.SmsCodeService");
        chars_of(render_vue_sms_login(string_of(&fq).as_str(), phone_method).as_str())
    };
    match insert_before_last_exec(&c, '}', &insert) {
        Some(v) => Some(string_of(&v)),
        None => None,
    }
}

/// The Feign method declared in RemoteUserService.
pub open spec fn remote_phone_method() -> Seq<char> {
    "\n    @GetMapping(\"/user/info/phone/{phonenumber}\")\n    R<LoginUser> getUserInfoByPhonenumber(@PathVariable(\"phonenumber\") String phonenumber, @RequestHeader(SecurityConstants.FROM_SOURCE) String source);\n"@
}

/// RemoteUserService with `getUserInfoByPhonenumber` put before its last `}`;
/// `None` when it already has it or has no `}`.
pub open spec fn remote_user_service_patched(c: Seq<char>) -> Option<Seq<char>> {
    if contains(c, "getUserInfoByPhonenumber"@) {
        None
    } else {
        insert_before_last(c, '}', remote_phone_method())
    }
}

/// Adds the phone lookup to the text of the Cloud RemoteUserService.
pub fn patch_cloud_phone_lookup(content: &str) -> (r: Option<String>)
    ensures
        match r {
            Some(x) => remote_user_service_patched(content@) == Some(x@),
            None => remote_user_service_patched(content@) is None,
        },
{
    let c = chars_of(content);
    if contains_str(&c, "getUserInfoByPhonenumber") {
        return None;
    }
    let insert = chars_of("\n    @GetMapping(\"/user/info/phone/{phonenumber}\")\n    R<LoginUser> getUserInfoByPhonenumber(@PathVariable(\"phonenumber\") String phonenumber, @RequestHeader(SecurityConstants.FROM_SOURCE) String source);\n");
    match insert_before_last_exec(&c, '}', &insert) {
        Some(v) => Some(string_of(&v)),
        None => None,
    }
}

// ---------------------------------------------------------------------------
// API modules of the front ends
// ---------------------------------------------------------------------------

/// The SMS functions appended to the classic `api/login.js`.
pub open spec fn classic_api_block(cloud: bool) -> Seq<char> {
    "\nexport function getSmsCode(data) {\n  return request({ url: '"@
        + sms_code_url(cloud)
        + "', headers: { isToken: false }, method: 'post', data })\n}\nexport function smsLogin(data) {\n  return request({ url: '"@
        + sms_login_url(cloud)
        + "', headers: { isToken: false, repeatSubmit: false }, method: 'post', data })\n}\n"@
}

fn classic_api_block_exec(cloud: bool) -> (r: Vec<char>)
    ensures
        r@ == classic_api_block(cloud),
{
    let mut v: Vec<char> = Vec::new();
    extend_str(&mut v, "\nexport function getSmsCode(data) {\n  return request({ url: '");
    extend_str(&mut v, code_url(cloud));
    extend_str(&mut v, "', headers: { isToken: false }, method: 'post', data })\n}\nexport function smsLogin(data) {\n  return request({ url: '");
    extend_str(&mut v, login_url(cloud));
    extend_str(&mut v, "', headers: { isToken: false, repeatSubmit: false }, method: 'post', data })\n}\n");
    v
}

/// The classic `api/login.js` with the SMS functions appended; `None` when it
/// already exports `smsLogin`.
pub open spec fn classic_api_patched(c: Seq<char>, cloud: bool) -> Option<Seq<char>> {
    if contains(c, "export function smsLogin"@) {
        None
    } else {
        Some(c + classic_api_block(cloud))
    }
}

/// Appends the SMS functions to the classic `api/login.js`.
pub fn patch_classic_api(content: &str, cloud: bool) -> (r: Option<String>)
    ensures
        match r {
            Some(x) => classic_api_patched(content@, cloud) == Some(x@),
            None => classic_api_patched(content@, cloud) is None,
        },
{
    let c = chars_of(content);
    if contains_str(&c, "export function smsLogin") {
        return None;
    }
    Some(string_of(&concat(&c, &classic_api_block_exec(cloud))))
}

/// The SMS functions appended to the vben `api/core/auth.ts`.
pub open spec fn vben_auth_block(cloud: bool) -> Seq<char> {
    "\nexport async function getSmsCodeApi(data: Record<string, any>) {\n  return baseRequestClient.post('"@
        + sms_code_url(cloud)
        + "', data);\n}\nexport async function smsLoginApi(data: Record<string, any>) {\n  const resp = (await baseRequestClient.post('"@
        + sms_login_url(cloud)
        + "', data)) as any;\n  const body = resp?.data ?? resp;\n  const token = body?.data?.access_token || body?.access_token || body?.token;\n  if (token) return { accessToken: token };\n  throw new Error(body?.msg || '短信登录失败');\n}\n"@
}

fn vben_auth_block_exec(cloud: bool) -> (r: Vec<char>)
    ensures
        r@ == vben_auth_block(cloud),
{
    let mut v: Vec<char> = Vec::new();
    extend_str(&mut v, "\nexport async function getSmsCodeApi(data: Record<string, any>) {\n  return baseRequestClient.post('");
    extend_str(&mut v, code_url(cloud));
    extend_str(&mut v, "', data);\n}\nexport async function smsLoginApi(data: Record<string, any>) {\n  const resp = (await baseRequestClient.post('");
    extend_str(&mut v, login_url(cloud));
    extend_str(&mut v, "', data)) as any;\n  const body = resp?.data ?? resp;\n  const token = body?.data?.access_token || body?.access_token || body?.token;\n  if (token) return { accessToken: token };\n  throw new Error(body?.msg || '短信登录失败');\n}\n");
    v
}

/// The vben `auth.ts` with the SMS functions appended; `None` when it already
/// has `smsLoginApi`.
pub open spec fn vben_auth_patched(c: Seq<char>, cloud: bool) -> Option<Seq<char>> {
    if contains(c, "smsLoginApi"@) {
        None
    } else {
        Some(c + vben_auth_block(cloud))
    }
}

/// Appends the SMS functions to the vben `auth.ts`.
pub fn patch_vben_auth(content: &str, cloud: bool) -> (r: Option<String>)
    ensures
        match r {
            Some(x) => vben_auth_patched(content@, cloud) == Some(x@),
            None => vben_auth_patched(content@, cloud) is None,
        },
{
    let c = chars_of(content);
    if contains_str(&c, "smsLoginApi") {
        return None;
    }
    Some(string_of(&concat(&c, &vben_auth_block_exec(cloud))))
}

/// The SMS functions appended to the arco `api/login.ts`.
pub open spec fn arco_api_block(cloud: bool) -> Seq<char> {
    "\nexport function getSmsCode(data: Record<string, unknown>) {\n  return request.post('"@
        + sms_code_url(cloud)
        + "', data, { isRawResponse: true })\n}\nexport function smsLogin(data: Record<string, unknown>): Promise<string> {\n  return request.post<any, any>('"@
        + sms_login_url(cloud)
        + "', data, { isRawResponse: true }).then((body) => body?.data?.access_token || body?.access_token || body?.token)\n}\n"@
}

fn arco_api_block_exec(cloud: bool) -> (r: Vec<char>)
    ensures
        r@ == arco_api_block(cloud),
{
    let mut v: Vec<char> = Vec::new();
    extend_str(&mut v, "\nexport function getSmsCode(data: Record<string, unknown>) {\n  return request.post('");
    extend_str(&mut v, code_url(cloud));
    extend_str(&mut v, "', data, { isRawResponse: true })\n}\nexport function smsLogin(data: Record<string, unknown>): Promise<string> {\n  return request.post<any, any>('");
    extend_str(&mut v, login_url(cloud));
    extend_str(&mut v, "', data, { isRawResponse: true }).then((body) => body?.data?.access_token || body?.access_token || body?.token)\n}\n");
    v
}

/// The arco `login.ts` with the SMS functions appended; `None` when it has both
/// `smsLogin` and `getSmsCode`.
pub open spec fn arco_api_patched(c: Seq<char>, cloud: bool) -> Option<Seq<char>> {
    if contains(c, "smsLogin"@) && contains(c, "getSmsCode"@) {
        None
    } else {
        Some(c + arco_api_block(cloud))
    }
}

/// Appends the SMS functions to the arco `login.ts`.
pub fn patch_arco_api(content: &str, cloud: bool) -> (r: Option<String>)
    ensures
        match r {
            Some(x) => arco_api_patched(content@, cloud) == Some(x@),
            None => arco_api_patched(content@, cloud) is None,
        },
{
    let c = chars_of(content);
    if contains_str(&c, "smsLogin") && contains_str(&c, "getSmsCode") {
        return None;
    }
    Some(string_of(&concat(&c, &arco_api_block_exec(cloud))))
}

/// The SMS functions appended to the uniapp `api/auth.js`.
pub open spec fn uniapp_auth_block(cloud: bool) -> Seq<char> {
    "\nexport function getSmsCode(data) { return request.post('"@
        + sms_code_url(cloud)
        + "', data) }\nexport function smsLogin(data) { return request.post('"@
        + sms_login_url(cloud)
        + "', data) }\n"@
}

fn uniapp_auth_block_exec(cloud: bool) -> (r: Vec<char>)
    ensures
        r@ == uniapp_auth_block(cloud),
{
    let mut v: Vec<char> = Vec::new();
    extend_str(&mut v, "\nexport function getSmsCode(data) { return request.post('");
    extend_str(&mut v, code_url(cloud));
    extend_str(&mut v, "', data) }\nexport function smsLogin(data) { return request.post('");
    extend_str(&mut v, login_url(cloud));
    extend_str(&mut v, "', data) }\n");
    v
}

/// The uniapp `auth.js` with the SMS functions appended; `None` when it already
/// has `smsLogin`.
pub open spec fn uniapp_auth_patched(c: Seq<char>, cloud: bool) -> Option<Seq<char>> {
    if contains(c, "smsLogin"@) {
        None
    } else {
        Some(c + uniapp_auth_block(cloud))
    }
}

/// Appends the SMS functions to the uniapp `api/auth.js`.
pub fn patch_uniapp_auth_api(content: &str, cloud: bool) -> (r: Option<String>)
    ensures
        match r {
            Some(x) => uniapp_auth_patched(content@, cloud) == Some(x@),
            None => uniapp_auth_patched(content@, cloud) is None,
        },
{
    let c = chars_of(content);
    if contains_str(&c, "smsLogin") {
        return None;
    }
    Some(string_of(&concat(&c, &uniapp_auth_block_exec(cloud))))
}

// ---------------------------------------------------------------------------
// vben auth store
// ---------------------------------------------------------------------------

/// The vben auth store calling `smsLoginApi` for SMS logins: the import widened
/// (by the full import line, else by any `from '#/api';`) and the login call
/// made conditional; `None` when it has both `smsLoginApi` and `forgeSms`.
pub open spec fn vben_store_patched(c: Seq<char>) -> Option<Seq<char>> {
    if contains(c, "smsLoginApi"@) && contains(c, "forgeSms"@) {
        None
    } else {
        let s1 = str_replace(c, "import { getAccessCodesApi, getUserInfoApi, loginApi, logoutApi } from '#/api';"@, "import { getAccessCodesApi, getUserInfoApi, loginApi, logoutApi, smsLoginApi } from '#/api';"@);
        let s2 = if !contains(s1, "smsLoginApi"@) {
            str_replace(s1, "from '#/api';"@, ", smsLoginApi } from '#/api';"@)
        } else {
            s1
        };
        let s3 = if !contains(s2, "forgeSms"@) {
            str_replace(s2, "const { accessToken } = await loginApi(params);"@, "const { accessToken } = (params as any)?.forgeSms ? await smsLoginApi(params) : await loginApi(params);"@)
        } else {
            s2
        };
        Some(s3)
    }
}

/// Wires `smsLoginApi` into the vben auth store.
pub fn patch_vben_auth_store(content: &str) -> (r: Option<String>)
    ensures
        match r {
            Some(x) => vben_store_patched(content@) == Some(x@),
            None => vben_store_patched(content@) is None,
        },
{
    let c = chars_of(content);
    if contains_str(&c, "smsLoginApi") && contains_str(&c, "forgeSms") {
        return None;
    }
    let s1 = replace_str(&c, "import { getAccessCodesApi, getUserInfoApi, loginApi, logoutApi } from '#/api';", "import { getAccessCodesApi, getUserInfoApi, loginApi, logoutApi, smsLoginApi } from '#/api';");
    let s2 = if !contains_str(&s1, "smsLoginApi") {
        replace_str(&s1, "from '#/api';", ", smsLoginApi } from '#/api';")
    } else {
        s1
    };
    let s3 = if !contains_str(&s2, "forgeSms") {
        replace_str(&s2, "const { accessToken } = await loginApi(params);", "const { accessToken } = (params as any)?.forgeSms ? await smsLoginApi(params) : await loginApi(params);")
    } else {
        s2
    };
    Some(string_of(&s3))
}

// ---------------------------------------------------------------------------
// Login pages
// ---------------------------------------------------------------------------

/// `ins` put after the first `inner` that follows the first `outer`.
pub open spec fn insert_after_within(s: Seq<char>, outer: Seq<char>, inner: Seq<char>, ins: Seq<char>) -> Seq<char> {
    match find(s, outer) {
        Some(i) => match find_from(s, inner, i) {
            Some(j) => insert_at(s, j + inner.len(), ins),
            None => s,
        },
        None => s,
    }
}

fn insert_after_within_exec(s: &Vec<char>, outer: &str, inner: &str, ins: &Vec<char>) -> (r: Vec<char>)
    ensures
        r@ == insert_after_within(s@, outer@, inner@, ins@),
{
    match find_str(s, outer) {
        Some(i) => match find_str_from(s, inner, i) {
            Some(j) => {
                let n = chars_of(inner);
                insert_at_exec(s, j + n.len(), ins)
            },
            None => copy_chars(s),
        },
        None => copy_chars(s),
    }
}

/// The hint on the send button: slider or picture captcha first.
pub open spec fn send_hint(slider: bool) -> Seq<char> {
    if slider {
        "需先通过滑块验证码"@
    } else {
        "需先填写图形验证码"@
    }
}

/// The mode switch and the phone and code items of the classic login page.
pub open spec fn classic_phone_item(slider: bool) -> Seq<char> {
    "      <!-- FORGE_SMS_LOGIN -->\n      <div style=\"margin-bottom:12px;font-size:13px;\">\n        <span :style=\"loginMode==='pwd' ? 'font-weight:bold' : ''\" @click=\"loginMode='pwd'\">账号登录</span>\n        &nbsp;|&nbsp;\n        <span :style=\"loginMode==='sms' ? 'font-weight:bold' : ''\" @click=\"loginMode='sms'\">短信登录</span>\n      </div>\n      <el-form-item v-if=\"loginMode==='sms'\" prop=\"phone\">\n        <el-input v-model=\"loginForm.phone\" placeholder=\"手机号\" auto-complete=\"off\">\n          <svg-icon slot=\"prefix\" icon-class=\"phone\" class=\"el-input__icon input-icon\" />\n        </el-input>\n      </el-form-item>\n      <el-form-item v-if=\"loginMode==='sms'\" prop=\"smsCode\">\n        <el-input v-model=\"loginForm.smsCode\" placeholder=\"短信验证码\" style=\"width:63%\">\n        </el-input>\n        <el-button size=\"mini\" :disabled=\"smsCooldown>0\" @click.native.prevent=\"handleSendSms\">"@
        + send_hint(slider)
        + "</el-button>\n      </el-form-item>\n"@
}

fn classic_phone_item_exec(slider: bool) -> (r: Vec<char>)
    ensures
        r@ == classic_phone_item(slider),
{
    let hint = if slider {
        "需先通过滑块验证码"
    } else {
        "需先填写图形验证码"
    };
    let mut v: Vec<char> = Vec::new();
    extend_str(&mut v, "      <!-- FORGE_SMS_LOGIN -->\n      <div style=\"margin-bottom:12px;font-size:13px;\">\n        <span :style=\"loginMode==='pwd' ? 'font-weight:bold' : ''\" @click=\"loginMode='pwd'\">账号登录</span>\n        &nbsp;|&nbsp;\n        <span :style=\"loginMode==='sms' ? 'font-weight:bold' : ''\" @click=\"loginMode='sms'\">短信登录</span>\n      </div>\n      <el-form-item v-if=\"loginMode==='sms'\" prop=\"phone\">\n        <el-input v-model=\"loginForm.phone\" placeholder=\"手机号\" auto-complete=\"off\">\n          <svg-icon slot=\"prefix\" icon-class=\"phone\" class=\"el-input__icon input-icon\" />\n        </el-input>\n      </el-form-item>\n      <el-form-item v-if=\"loginMode==='sms'\" prop=\"smsCode\">\n        <el-input v-model=\"loginForm.smsCode\" placeholder=\"短信验证码\" style=\"width:63%\">\n        </el-input>\n        <el-button size=\"mini\" :disabled=\"smsCooldown>0\" @click.native.prevent=\"handleSendSms\">");
    extend_str(&mut v, hint);
    extend_str(&mut v, "</el-button>\n      </el-form-item>\n");
    v
}

/// The classic login page with the SMS functions imported (the double-quoted
/// import, else the single-quoted one).
pub open spec fn classic_import_step(c: Seq<char>) -> Seq<char> {
    let s = str_replace(c, "import { getCodeImg } from \"@/api/login\""@, "import { getCodeImg, getSmsCode, smsLogin } from \"@/api/login\""@);
    if s == c {
        str_replace(c, "import { getCodeImg } from '@/api/login'"@, "import { getCodeImg, getSmsCode, smsLogin } from '@/api/login'"@)
    } else {
        s
    }
}

/// The data fields of the SMS mode, put after `return {` in `data() {`.
pub open spec fn classic_data_fields() -> Seq<char> {
    "\n      loginMode: 'pwd',\n      smsCooldown: 0,\n"@
}

/// The `handleSendSms` method of the classic login page.
pub open spec fn classic_send_method() -> Seq<char> {
    "\n    handleSendSms() {\n      const phone = this.loginForm.phone\n      if (!phone) { this.$modal.msgError(\"请填写手机号\"); return }\n      const payload = { phone, uuid: this.loginForm.uuid, code: this.loginForm.code, captchaVerification: this.loginForm.captchaVerification }\n      getSmsCode(payload).then(() => {\n        this.$modal.msgSuccess(\"验证码已发送\")\n        this.smsCooldown = 60\n        const t = setInterval(() => { this.smsCooldown--; if (this.smsCooldown <= 0) clearInterval(t) }, 1000)\n      })\n    },\n"@
}

/// The classic login page with the login form fields added, unless present.
pub open spec fn classic_form_step(s: Seq<char>) -> Seq<char> {
    if !contains(s, "phone: \"\""@) && !contains(s, "phone: ''"@) {
        str_replace(s, "rememberMe: false"@, "rememberMe: false,\n        phone: \"\",\n        smsCode: \"\""@)
    } else {
        s
    }
}

/// The classic login page with `handleSendSms` put first in `methods:`, unless present.
pub open spec fn classic_methods_step(s: Seq<char>) -> Seq<char> {
    if !contains(s, "handleSendSms"@) {
        insert_after_within(s, "methods:"@, "{"@, classic_send_method())
    } else {
        s
    }
}

/// The classic login page with the SMS branch at the start of `handleLogin`,
/// unless the page already switches on the mode.
pub open spec fn classic_handle_login_step(s: Seq<char>) -> Seq<char> {
    if !contains(s, "loginMode==='sms'"@) {
        let t = str_replace(s, "handleLogin() {"@, "handleLogin() {\n      if (this.loginMode === 'sms') {\n        this.$refs.loginForm.validate(valid => {\n          if (!valid) return\n          this.loading = true\n          smsLogin({ phone: this.loginForm.phone, smsCode: this.loginForm.smsCode }).then(res => {\n            this.$store.dispatch(\"Login\", { ...this.loginForm, token: res.token }).catch(() => {})\n            this.$router.push({ path: this.redirect || \"/\" }).catch(() => {})\n          }).catch(() => { this.loading = false; this.getCode && this.getCode() })\n        })\n        return\n      }"@);
        if !contains(t, "if (this.loginMode === 'sms')"@) {
            str_replace(t, "handleLogin() {"@, "handleLogin() {\n      if (this.loginMode === 'sms') { this.loading = true; smsLogin({ phone: this.loginForm.phone, smsCode: this.loginForm.smsCode }).finally(() => { this.loading = false }); return }"@)
        } else {
            t
        }
    } else {
        s
    }
}

/// The classic (Vue 2) login page with an SMS mode: imports, mode switch and
/// phone items before the username item, data fields, form fields, the send
/// method and the login branch; `None` when it is already marked.
pub open spec fn classic_login_patched(c: Seq<char>, slider: bool) -> Option<Seq<char>> {
    if contains(c, "FORGE_SMS_LOGIN"@) {
        None
    } else {
        let s1 = classic_import_step(c);
        let s2 = insert_before_first(s1, "<el-form-item prop=\"username\">"@, classic_phone_item(slider));
        let s3 = insert_after_within(s2, "data() {"@, "return {"@, classic_data_fields());
        Some(classic_handle_login_step(classic_methods_step(classic_form_step(s3))))
    }
}

/// Gives the classic login page an SMS mode (see `classic_login_patched`).
pub fn patch_classic_login(content: &str, params: &CustomizeParams) -> (r: Option<String>)
    ensures
        match r {
            Some(x) => classic_login_patched(content@, params.enable_captcha_slider) == Some(x@),
            None => classic_login_patched(content@, params.enable_captcha_slider) is None,
        },
{
    let c = chars_of(content);
    if contains_str(&c, "FORGE_SMS_LOGIN") {
        return None;
    }
    let s = replace_str(&c, "import { getCodeImg } from \"@/api/login\"", "import { getCodeImg, getSmsCode, smsLogin } from \"@/api/login\"");
    let s1 = if chars_eq(&s, &c) {
        replace_str(&c, "import { getCodeImg } from '@/api/login'", "import { getCodeImg, getSmsCode, smsLogin } from '@/api/login'")
    } else {
        s
    };
    let item = classic_phone_item_exec(params.enable_captcha_slider);
    let s2 = insert_before_str(&s1, "<el-form-item prop=\"username\">", &item);
    let fields = chars_of("\n      loginMode: 'pwd',\n      smsCooldown: 0,\n");
    let s3 = insert_after_within_exec(&s2, "data() {", "return {", &fields);
    let s4 = if !contains_str(&s3, "phone: \"\"") && !contains_str(&s3, "phone: ''") {
        replace_str(&s3, "rememberMe: false", "rememberMe: false,\n        phone: \"\",\n        smsCode: \"\"")
    } else {
        s3
    };
    let s5 = if !contains_str(&s4, "handleSendSms") {
        let m = chars_of("\n    handleSendSms() {\n      const phone = this.loginForm.phone\n      if (!phone) { this.$modal.msgError(\"请填写手机号\"); return }\n      const payload = { phone, uuid: this.loginForm.uuid, code: this.loginForm.code, captchaVerification: this.loginForm.captchaVerification }\n      getSmsCode(payload).then(() => {\n        this.$modal.msgSuccess(\"验证码已发送\")\n        this.smsCooldown = 60\n        const t = setInterval(() => { this.smsCooldown--; if (this.smsCooldown <= 0) clearInterval(t) }, 1000)\n      })\n    },\n");
        insert_after_within_exec(&s4, "methods:", "{", &m)
    } else {
        s4
    };
    let s6 = if !contains_str(&s5, "loginMode==='sms'") {
        let t = replace_str(&s5, "handleLogin() {", "handleLogin() {\n      if (this.loginMode === 'sms') {\n        this.$refs.loginForm.validate(valid => {\n          if (!valid) return\n          this.loading = true\n          smsLogin({ phone: this.loginForm.phone, smsCode: this.loginForm.smsCode }).then(res => {\n            this.$store.dispatch(\"Login\", { ...this.loginForm, token: res.token }).catch(() => {})\n            this.$router.push({ path: this.redirect || \"/\" }).catch(() => {})\n          }).catch(() => { this.loading = false; this.getCode && this.getCode() })\n        })\n        return\n      }");
        if !contains_str(&t, "if (this.loginMode === 'sms')") {
            replace_str(&t, "handleLogin() {", "handleLogin() {\n      if (this.loginMode === 'sms') { this.loading = true; smsLogin({ phone: this.loginForm.phone, smsCode: this.loginForm.smsCode }).finally(() => { this.loading = false }); return }")
        } else {
            t
        }
    } else {
        s5
    };
    Some(string_of(&s6))
}

/// The vben login page with `getSmsCodeApi` imported: the `#/api` import widened
/// (the one-name form, else the open form), else a new import line first.
pub open spec fn vben_import_step(c: Seq<char>) -> Seq<char> {
    let s1 = if contains(c, "from '#/api'"@) {
        let t = str_replace(c, "import { getCaptchaApi } from '#/api';"@, "import { getCaptchaApi, getSmsCodeApi } from '#/api';"@);
        if !contains(t, "getSmsCodeApi"@) {
            str_replace(t, "import { getCaptchaApi,"@, "import { getCaptchaApi, getSmsCodeApi,"@)
        } else {
            t
        }
    } else {
        c
    };
    if !contains(s1, "getSmsCodeApi"@) {
        "import { getSmsCodeApi } from '#/api';\n"@ + s1
    } else {
        s1
    }
}

/// The SMS state and `handleSendSms` of the vben login page.
pub open spec fn vben_sms_state() -> Seq<char> {
    "\n/** FORGE_SMS_LOGIN */\nconst loginMode = ref<'pwd' | 'sms'>('pwd')\nconst smsCooldown = ref(0)\nlet smsTimer: ReturnType<typeof setInterval> | undefined\nasync function handleSendSms() {\n  const api = loginRef.value?.getFormApi?.()\n  const values = ((await api?.getValues?.()) || {}) as Record<string, any>\n  const phone = String(values.phone || '')\n  if (!/^1\\d{10}$/.test(phone)) { ElMessage.error('请填写正确手机号'); return }\n  if (smsCooldown.value > 0) return\n  try {\n    await getSmsCodeApi({ phone, uuid: captchaUuid.value, code: values.code, captchaVerification: values.captchaVerification })\n    ElMessage.success('验证码已发送')\n    smsCooldown.value = 60\n    smsTimer = setInterval(() => { smsCooldown.value--; if (smsCooldown.value <= 0 && smsTimer) { clearInterval(smsTimer); smsTimer = undefined } }, 1000)\n  } catch (e: any) { ElMessage.error(e?.message || '发送失败') }\n}\n"@
}

/// The SMS fields returned by the vben form schema in SMS mode.
pub open spec fn vben_sms_fields() -> Seq<char> {
    "\n  if (loginMode.value === 'sms') {\n    void smsCooldown.value\n    const smsFields: VbenFormSchema[] = [\n      { component: 'VbenInput', componentProps: { placeholder: '手机号' }, fieldName: 'phone', label: '手机号', rules: z.string().regex(/^1\\d{10}$/, { message: '请输入正确手机号' }) },\n      { component: 'VbenInput', componentProps: { placeholder: '短信验证码' }, fieldName: 'smsCode', label: '短信验证码', rules: z.string().min(4, { message: '请输入短信验证码' }), suffix: (() => h('button', { type: 'button', disabled: smsCooldown.value > 0, onClick: (e: Event) => { e.preventDefault(); void handleSendSms() } }, smsCooldown.value > 0 ? `${smsCooldown.value}s` : '发送验证码')) as any },\n    ]\n    if (captchaEnabled.value) {\n      smsFields.push({ component: 'VbenInput', componentProps: { placeholder: '请输入验证码' }, fieldName: 'code', label: '验证码', rules: z.string().min(1, { message: '请输入验证码' }), suffix: renderCaptchaImage })\n    }\n    return smsFields\n  }\n"@
}

/// The mode switch put before `<AuthenticationLogin`.
pub open spec fn vben_switch() -> Seq<char> {
    "<!-- FORGE_SMS_LOGIN -->\n  <div style=\"margin-bottom:12px;font-size:13px;text-align:center;\">\n    <span :style=\"loginMode==='pwd' ? 'font-weight:600;cursor:pointer' : 'cursor:pointer'\" @click=\"loginMode='pwd'\">账号登录</span>\n    &nbsp;|&nbsp;\n    <span :style=\"loginMode==='sms' ? 'font-weight:600;cursor:pointer' : 'cursor:pointer'\" @click=\"loginMode='sms'\">短信登录</span>\n  </div>\n  "@
}

/// The vben login page with the mode switch before `<AuthenticationLogin`, or
/// only the marker appended when there is no such tag.
pub open spec fn vben_switch_step(s: Seq<char>) -> Seq<char> {
    match find(s, "<AuthenticationLogin"@) {
        Some(i) => if !contains(s, "<!-- FORGE_SMS_LOGIN -->"@) {
            insert_at(s, i, vben_switch())
        } else {
            s
        },
        None => if !contains(s, "<!-- FORGE_SMS_LOGIN -->"@) {
            s + "\n<!-- FORGE_SMS_LOGIN -->\n"@
        } else {
            s
        },
    }
}

/// The vben login page with an SMS mode: import, state and send function after
/// `const captchaEnabled = ref(true);`, SMS fields before `return fields;`, the
/// SMS login call and the mode switch; `None` when it already has the marker,
/// `loginMode` and `handleSendSms`.
pub open spec fn vben_login_patched(c: Seq<char>) -> Option<Seq<char>> {
    if contains(c, "FORGE_SMS_LOGIN"@) && contains(c, "loginMode"@) && contains(c, "handleSendSms"@) {
        None
    } else {
        let s2 = vben_import_step(c);
        let s3 = if !contains(s2, "const loginMode"@) {
            insert_after_first(s2, "const captchaEnabled = ref(true);"@, vben_sms_state())
        } else {
            s2
        };
        let s4 = if !contains(s3, "loginMode.value === 'sms'"@) {
            insert_before_first(s3, "return fields;"@, vben_sms_fields())
        } else {
            s3
        };
        let s5 = if !contains(s4, "forgeSms"@) {
            str_replace(s4, "await authStore.authLogin({"@, "if (loginMode.value === 'sms') {\n      await authStore.authLogin({ phone: values.phone, smsCode: values.smsCode, forgeSms: true } as any)\n      return\n    }\n    await authStore.authLogin({"@)
        } else {
            s4
        };
        Some(vben_switch_step(s5))
    }
}

/// Gives the vben login page an SMS mode (see `vben_login_patched`).
pub fn patch_vben_login(content: &str) -> (r: Option<String>)
    ensures
        match r {
            Some(x) => vben_login_patched(content@) == Some(x@),
            None => vben_login_patched(content@) is None,
        },
{
    let c = chars_of(content);
    if contains_str(&c, "FORGE_SMS_LOGIN") && contains_str(&c, "loginMode") && contains_str(&c, "handleSendSms") {
        return None;
    }
    let s1 = if contains_str(&c, "from '#/api'") {
        let t = replace_str(&c, "import { getCaptchaApi } from '#/api';", "import { getCaptchaApi, getSmsCodeApi } from '#/api';");
        if !contains_str(&t, "getSmsCodeApi") {
            replace_str(&t, "import { getCaptchaApi,", "import { getCaptchaApi, getSmsCodeApi,")
        } else {
            t
        }
    } else {
        copy_chars(&c)
    };
    let s2 = if !contains_str(&s1, "getSmsCodeApi") {
        prepend_str("import { getSmsCodeApi } from '#/api';\n", &s1)
    } else {
        s1
    };
    let s3 = if !contains_str(&s2, "const loginMode") {
        let ins = chars_of("\n/** FORGE_SMS_LOGIN */\nconst loginMode = ref<'pwd' | 'sms'>('pwd')\nconst smsCooldown = ref(0)\nlet smsTimer: ReturnType<typeof setInterval> | undefined\nasync function handleSendSms() {\n  const api = loginRef.value?.getFormApi?.()\n  const values = ((await api?.getValues?.()) || {}) as Record<string, any>\n  const phone = String(values.phone || '')\n  if (!/^1\\d{10}$/.test(phone)) { ElMessage.error('请填写正确手机号'); return }\n  if (smsCooldown.value > 0) return\n  try {\n    await getSmsCodeApi({ phone, uuid: captchaUuid.value, code: values.code, captchaVerification: values.captchaVerification })\n    ElMessage.success('验证码已发送')\n    smsCooldown.value = 60\n    smsTimer = setInterval(() => { smsCooldown.value--; if (smsCooldown.value <= 0 && smsTimer) { clearInterval(smsTimer); smsTimer = undefined } }, 1000)\n  } catch (e: any) { ElMessage.error(e?.message || '发送失败') }\n}\n");
        insert_after_str(&s2, "const captchaEnabled = ref(true);", &ins)
    } else {
        s2
    };
    let s4 = if !contains_str(&s3, "loginMode.value === 'sms'") {
        let ins = chars_of("\n  if (loginMode.value === 'sms') {\n    void smsCooldown.value\n    const smsFields: VbenFormSchema[] = [\n      { component: 'VbenInput', componentProps: { placeholder: '手机号' }, fieldName: 'phone', label: '手机号', rules: z.string().regex(/^1\\d{10}$/, { message: '请输入正确手机号' }) },\n      { component: 'VbenInput', componentProps: { placeholder: '短信验证码' }, fieldName: 'smsCode', label: '短信验证码', rules: z.string().min(4, { message: '请输入短信验证码' }), suffix: (() => h('button', { type: 'button', disabled: smsCooldown.value > 0, onClick: (e: Event) => { e.preventDefault(); void handleSendSms() } }, smsCooldown.value > 0 ? `${smsCooldown.value}s` : '发送验证码')) as any },\n    ]\n    if (captchaEnabled.value) {\n      smsFields.push({ component: 'VbenInput', componentProps: { placeholder: '请输入验证码' }, fieldName: 'code', label: '验证码', rules: z.string().min(1, { message: '请输入验证码' }), suffix: renderCaptchaImage })\n    }\n    return smsFields\n  }\n");
        insert_before_str(&s3, "return fields;", &ins)
    } else {
        s3
    };
    let s5 = if !contains_str(&s4, "forgeSms") {
        replace_str(&s4, "await authStore.authLogin({", "if (loginMode.value === 'sms') {\n      await authStore.authLogin({ phone: values.phone, smsCode: values.smsCode, forgeSms: true } as any)\n      return\n    }\n    await authStore.authLogin({")
    } else {
        s4
    };
    let marked = contains_str(&s5, "<!-- FORGE_SMS_LOGIN -->");
    let s6 = match find_str(&s5, "<AuthenticationLogin") {
        Some(i) => if !marked {
            let sw = chars_of("<!-- FORGE_SMS_LOGIN -->\n  <div style=\"margin-bottom:12px;font-size:13px;text-align:center;\">\n    <span :style=\"loginMode==='pwd' ? 'font-weight:600;cursor:pointer' : 'cursor:pointer'\" @click=\"loginMode='pwd'\">账号登录</span>\n    &nbsp;|&nbsp;\n    <span :style=\"loginMode==='sms' ? 'font-weight:600;cursor:pointer' : 'cursor:pointer'\" @click=\"loginMode='sms'\">短信登录</span>\n  </div>\n  ");
            insert_at_exec(&s5, i, &sw)
        } else {
            s5
        },
        None => if !marked {
            let mut t = s5;
            extend_str(&mut t, "\n<!-- FORGE_SMS_LOGIN -->\n");
            t
        } else {
            s5
        },
    };
    Some(string_of(&s6))
}

/// The SMS state and `handleSendSms` of the arco login page.
pub open spec fn arco_sms_state() -> Seq<char> {
    "\n/** FORGE_SMS_LOGIN */\nconst loginMode = ref<'pwd' | 'sms'>('pwd')\nconst smsPhone = ref('')\nconst smsCode = ref('')\nconst smsCooldown = ref(0)\nlet smsTimer: ReturnType<typeof setInterval> | undefined\nasync function handleSendSms() {\n  const phone = smsPhone.value.trim()\n  if (!/^1\\d{10}$/.test(phone)) return\n  if (smsCooldown.value > 0) return\n  await getSmsCode({ phone, uuid: form.uuid, code: form.code })\n  smsCooldown.value = 60\n  smsTimer = setInterval(() => { smsCooldown.value--; if (smsCooldown.value <= 0 && smsTimer) { clearInterval(smsTimer); smsTimer = undefined } }, 1000)\n}\n"@
}

/// The mode switch and SMS items put before the arco username item.
pub open spec fn arco_sms_items() -> Seq<char> {
    "<!-- FORGE_SMS_LOGIN -->\n        <div style=\"margin-bottom:12px;font-size:13px;\">\n          <span :style=\"loginMode==='pwd' ? 'font-weight:600;cursor:pointer' : 'cursor:pointer'\" @click=\"loginMode='pwd'\">账号登录</span>\n          &nbsp;|&nbsp;\n          <span :style=\"loginMode==='sms' ? 'font-weight:600;cursor:pointer' : 'cursor:pointer'\" @click=\"loginMode='sms'\">短信登录</span>\n        </div>\n        <a-form-item v-if=\"loginMode==='sms'\" field=\"phone\" hide-asterisk>\n          <a-input v-model.trim=\"smsPhone\" placeholder=\"手机号\" allow-clear />\n        </a-form-item>\n        <a-form-item v-if=\"loginMode==='sms'\" field=\"smsCode\" hide-asterisk>\n          <div class=\"login-form__captcha\">\n            <a-input v-model.trim=\"smsCode\" placeholder=\"短信验证码\" allow-clear />\n            <a-button :disabled=\"smsCooldown>0\" @click=\"handleSendSms\">{{ smsCooldown>0 ? smsCooldown + 's' : '发送验证码' }}</a-button>\n          </div>\n        </a-form-item>\n        "@
}

/// The arco login page with the SMS imports (widened, else added first).
pub open spec fn arco_import_step(c: Seq<char>) -> Seq<char> {
    let s1 = str_replace(c, "import { getCaptchaImage } from '@/api/login'"@, "import { getCaptchaImage, getSmsCode, smsLogin } from '@/api/login'"@);
    let s2 = if !contains(s1, "getSmsCode"@) {
        "import { getSmsCode, smsLogin } from '@/api/login'\n"@ + s1
    } else {
        s1
    };
    if !contains(s2, "setToken"@) {
        "import { setToken } from '@/utils/auth'\n"@ + s2
    } else {
        s2
    }
}

/// The arco login page with the SMS items before the username item, when it
/// lacks the marker or the mode label.
pub open spec fn arco_items_step(s: Seq<char>) -> Seq<char> {
    match find(s, "<a-form-item field=\"username\""@) {
        Some(i) => if !contains(s, "FORGE_SMS_LOGIN"@) || !contains(s, "短信登录"@) {
            insert_at(s, i, arco_sms_items())
        } else {
            s
        },
        None => s,
    }
}

/// The arco login page with an SMS mode: imports, state before
/// `const captchaEnabled = ref(false)`, the SMS login branch, the SMS items and
/// the password items shown in password mode only; `None` when it already has
/// the marker, `handleSendSms` and `smsPhone`.
pub open spec fn arco_login_patched(c: Seq<char>) -> Option<Seq<char>> {
    if contains(c, "FORGE_SMS_LOGIN"@) && contains(c, "handleSendSms"@) && contains(c, "smsPhone"@) {
        None
    } else {
        let s3 = arco_import_step(c);
        let s4 = if !contains(s3, "smsPhone"@) {
            insert_before_first(s3, "const captchaEnabled = ref(false)"@, arco_sms_state())
        } else {
            s3
        };
        let s5 = if !contains(s4, "loginMode.value === 'sms'"@) {
            str_replace(s4, "await userStore.login({"@, "if (loginMode.value === 'sms') {\n      const tk = await smsLogin({ phone: smsPhone.value, smsCode: smsCode.value })\n      setToken(tk)\n      ;(userStore as any).token = tk\n    } else await userStore.login({"@)
        } else {
            s4
        };
        let s6 = arco_items_step(s5);
        let s7 = str_replace(s6, "<a-form-item field=\"username\" hide-asterisk>"@, "<a-form-item v-if=\"loginMode==='pwd'\" field=\"username\" hide-asterisk>"@);
        Some(str_replace(s7, "<a-form-item field=\"password\" hide-asterisk>"@, "<a-form-item v-if=\"loginMode==='pwd'\" field=\"password\" hide-asterisk>"@))
    }
}

/// Gives the arco login page an SMS mode (see `arco_login_patched`).
pub fn patch_arco_login(content: &str) -> (r: Option<String>)
    ensures
        match r {
            Some(x) => arco_login_patched(content@) == Some(x@),
            None => arco_login_patched(content@) is None,
        },
{
    let c = chars_of(content);
    if contains_str(&c, "FORGE_SMS_LOGIN") && contains_str(&c, "handleSendSms") && contains_str(&c, "smsPhone") {
        return None;
    }
    let s1 = replace_str(&c, "import { getCaptchaImage } from '@/api/login'", "import { getCaptchaImage, getSmsCode, smsLogin } from '@/api/login'");
    let s2 = if !contains_str(&s1, "getSmsCode") {
        prepend_str("import { getSmsCode, smsLogin } from '@/api/login'\n", &s1)
    } else {
        s1
    };
    let s3 = if !contains_str(&s2, "setToken") {
        prepend_str("import { setToken } from '@/utils/auth'\n", &s2)
    } else {
        s2
    };
    let s4 = if !contains_str(&s3, "smsPhone") {
        let ins = chars_of("\n/** FORGE_SMS_LOGIN */\nconst loginMode = ref<'pwd' | 'sms'>('pwd')\nconst smsPhone = ref('')\nconst smsCode = ref('')\nconst smsCooldown = ref(0)\nlet smsTimer: ReturnType<typeof setInterval> | undefined\nasync function handleSendSms() {\n  const phone = smsPhone.value.trim()\n  if (!/^1\\d{10}$/.test(phone)) return\n  if (smsCooldown.value > 0) return\n  await getSmsCode({ phone, uuid: form.uuid, code: form.code })\n  smsCooldown.value = 60\n  smsTimer = setInterval(() => { smsCooldown.value--; if (smsCooldown.value <= 0 && smsTimer) { clearInterval(smsTimer); smsTimer = undefined } }, 1000)\n}\n");
        insert_before_str(&s3, "const captchaEnabled = ref(false)", &ins)
    } else {
        s3
    };
    let s5 = if !contains_str(&s4, "loginMode.value === 'sms'") {
        replace_str(&s4, "await userStore.login({", "if (loginMode.value === 'sms') {\n      const tk = await smsLogin({ phone: smsPhone.value, smsCode: smsCode.value })\n      setToken(tk)\n      ;(userStore as any).token = tk\n    } else await userStore.login({")
    } else {
        s4
    };
    let s6 = match find_str(&s5, "<a-form-item field=\"username\"") {
        Some(i) => if !contains_str(&s5, "FORGE_SMS_LOGIN") || !contains_str(&s5, "短信登录") {
            let ins = chars_of("<!-- FORGE_SMS_LOGIN -->\n        <div style=\"margin-bottom:12px;font-size:13px;\">\n          <span :style=\"loginMode==='pwd' ? 'font-weight:600;cursor:pointer' : 'cursor:pointer'\" @click=\"loginMode='pwd'\">账号登录</span>\n          &nbsp;|&nbsp;\n          <span :style=\"loginMode==='sms' ? 'font-weight:600;cursor:pointer' : 'cursor:pointer'\" @click=\"loginMode='sms'\">短信登录</span>\n        </div>\n        <a-form-item v-if=\"loginMode==='sms'\" field=\"phone\" hide-asterisk>\n          <a-input v-model.trim=\"smsPhone\" placeholder=\"手机号\" allow-clear />\n        </a-form-item>\n        <a-form-item v-if=\"loginMode==='sms'\" field=\"smsCode\" hide-asterisk>\n          <div class=\"login-form__captcha\">\n            <a-input v-model.trim=\"smsCode\" placeholder=\"短信验证码\" allow-clear />\n            <a-button :disabled=\"smsCooldown>0\" @click=\"handleSendSms\">{{ smsCooldown>0 ? smsCooldown + 's' : '发送验证码' }}</a-button>\n          </div>\n        </a-form-item>\n        ");
            insert_at_exec(&s5, i, &ins)
        } else {
            s5
        },
        None => s5,
    };
    let s7 = replace_str(&s6, "<a-form-item field=\"username\" hide-asterisk>", "<a-form-item v-if=\"loginMode==='pwd'\" field=\"username\" hide-asterisk>");
    let s8 = replace_str(&s7, "<a-form-item field=\"password\" hide-asterisk>", "<a-form-item v-if=\"loginMode==='pwd'\" field=\"password\" hide-asterisk>");
    Some(string_of(&s8))
}

/// The SMS items of the uniapp login page.
pub open spec fn uniapp_sms_items() -> Seq<char> {
    "\n      <!-- FORGE_SMS_LOGIN -->\n      <view class=\"sms-login\">\n        <input v-model=\"phone\" placeholder=\"手机号\" />\n        <input v-model=\"smsCode\" placeholder=\"短信验证码\" />\n        <button @click=\"handleSendSms\">发送验证码</button>\n        <button @click=\"handleSmsLogin\">短信登录</button>\n      </view>\n"@
}

/// The uniapp login page with an SMS section: the import widened, the items
/// before the closing `</view>` of the template (else before `</template>`), and
/// the data fields and methods when `handleSendSms` is still missing; `None`
/// when it is already marked.
pub open spec fn uniapp_login_patched(c: Seq<char>) -> Option<Seq<char>> {
    if contains(c, "FORGE_SMS_LOGIN"@) {
        None
    } else {
        let s1 = str_replace(c, "import { wechatLogin } from '@/api/auth.js'"@, "import { wechatLogin, getSmsCode, smsLogin } from '@/api/auth.js'"@);
        let s2 = match find(s1, "</view>\n</template>"@) {
            Some(i) => insert_at(s1, i, uniapp_sms_items()),
            None => insert_before_first(s1, "</template>"@, uniapp_sms_items()),
        };
        if !contains(s2, "handleSendSms"@) {
            Some(str_replace(str_replace(s2, "data() {\n    return {\n      loading: false\n    }"@, "data() {\n    return {\n      loading: false,\n      phone: '',\n      smsCode: ''\n    }"@), "methods: {"@, "methods: {\n    async handleSendSms() { await getSmsCode({ phone: this.phone }) },\n    async handleSmsLogin() { const res = await smsLogin({ phone: this.phone, smsCode: this.smsCode }); if (res && (res.token || res.access_token)) { setStorageSync('token', res.token || res.access_token) } },"@))
        } else {
            Some(s2)
        }
    }
}

/// Gives the uniapp login page an SMS section (see `uniapp_login_patched`).
pub fn patch_uniapp_login_page(content: &str) -> (r: Option<String>)
    ensures
        match r {
            Some(x) => uniapp_login_patched(content@) == Some(x@),
            None => uniapp_login_patched(content@) is None,
        },
{
    let c = chars_of(content);
    if contains_str(&c, "FORGE_SMS_LOGIN") {
        return None;
    }
    let s1 = replace_str(&c, "import { wechatLogin } from '@/api/auth.js'", "import { wechatLogin, getSmsCode, smsLogin } from '@/api/auth.js'");
    let items = chars_of("\n      <!-- FORGE_SMS_LOGIN -->\n      <view class=\"sms-login\">\n        <input v-model=\"phone\" placeholder=\"手机号\" />\n        <input v-model=\"smsCode\" placeholder=\"短信验证码\" />\n        <button @click=\"handleSendSms\">发送验证码</button>\n        <button @click=\"handleSmsLogin\">短信登录</button>\n      </view>\n");
    let s2 = match find_str(&s1, "</view>\n</template>") {
        Some(i) => insert_at_exec(&s1, i, &items),
        None => insert_before_str(&s1, "</template>", &items),
    };
    if !contains_str(&s2, "handleSendSms") {
        let t = replace_str(&s2, "data() {\n    return {\n      loading: false\n    }", "data() {\n    return {\n      loading: false,\n      phone: '',\n      smsCode: ''\n    }");
        Some(string_of(&replace_str(&t, "methods: {", "methods: {\n    async handleSendSms() { await getSmsCode({ phone: this.phone }) },\n    async handleSmsLogin() { const res = await smsLogin({ phone: this.phone, smsCode: this.smsCode }); if (res && (res.token || res.access_token)) { setStorageSync('token', res.token || res.access_token) } },")))
    } else {
        Some(string_of(&s2))
    }
}

} // verus!
