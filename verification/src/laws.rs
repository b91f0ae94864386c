//! Laws of the library: properties that relate several calls, each proved over
//! the specifications the functions' own contracts use.
use vstd::prelude::*;
use crate::text::{contains, lemma_contains_at, lemma_contains_mid};

verus! {

proof fn lemma_contains_prefix(a: Seq<char>, b: Seq<char>, p: Seq<char>)
    requires
        contains(a, p),
    ensures
        contains(a + b, p),
{
    lemma_contains_mid(Seq::empty(), a, b, p);
    assert(Seq::<char>::empty() + a + b =~= a + b);
}

proof fn lemma_contains_suffix(a: Seq<char>, b: Seq<char>, p: Seq<char>)
    requires
        contains(b, p),
    ensures
        contains(a + b, p),
{
    lemma_contains_mid(a, b, Seq::empty(), p);
    assert(a + b + Seq::<char>::empty() =~= a + b);
}

// ---------------------------------------------------------------------------
// Snowflake keys
// ---------------------------------------------------------------------------

/// Injecting snowflake keys into the generator template is idempotent: a
/// template that was just changed is left alone the second time.
pub proof fn law_vm_injection_idempotent(content: Seq<char>)
    requires
        crate::snowflake::vm_injected(content) is Some,
    ensures
        crate::snowflake::vm_injected(crate::snowflake::vm_injected(content)->0) is None,
{
    let line = crate::snowflake::vm_line();
    reveal_strlit("\n        ${className}.set${pkColumn.capJavaField}(cn.hutool.core.util.IdUtil.getSnowflakeNextId());");
    reveal_strlit("IdUtil");
    assert(line.subrange(70, 76) =~= "IdUtil"@);
    lemma_contains_at(line, "IdUtil"@, 70);
    let (ps, tail) = crate::ext_calls::regex_pieces_of(crate::snowflake::vm_pattern(), content)->0;
    let a = ps[0].0 + crate::nacos_yaml::group_text(ps[0].2, 0);
    lemma_contains_mid(a, line, crate::ext_calls::pieces_text(ps.drop_first(), tail), "IdUtil"@);
}

proof fn lemma_inserts_contain_idutil(content: Seq<char>, ps: Seq<crate::ext_calls::PieceModel>, tail: Seq<char>, k: int)
    requires
        0 <= k < ps.len(),
        crate::snowflake::injects(content, ps[k].2),
    ensures
        contains(crate::snowflake::inserts_replaced(content, ps, tail), "IdUtil"@),
    decreases ps.len(),
{
    let rest = crate::snowflake::inserts_replaced(content, ps.drop_first(), tail);
    if k == 0 {
        let gs = ps[0].2;
        let lit = "(cn.hutool.core.util.IdUtil.getSnowflakeNextId());"@;
        reveal_strlit("(cn.hutool.core.util.IdUtil.getSnowflakeNextId());");
        reveal_strlit("IdUtil");
        assert(lit.subrange(21, 27) =~= "IdUtil"@);
        lemma_contains_at(lit, "IdUtil"@, 21);
        let head = crate::nacos_yaml::group_text(gs, 0) + "\n        "@ + crate::nacos_yaml::group_text(gs, 3) + "."@
            + crate::snowflake::pk_setter(content, crate::nacos_yaml::group_text(gs, 2))->0;
        lemma_contains_suffix(head, lit, "IdUtil"@);
        let rep = crate::snowflake::insert_replacement(content, gs);
        assert(rep == head + lit);
        lemma_contains_mid(ps[0].0, rep, rest, "IdUtil"@);
    } else {
        assert(ps.drop_first()[k - 1] == ps[k]);
        lemma_inserts_contain_idutil(content, ps.drop_first(), tail, k - 1);
        lemma_contains_suffix(ps[0].0 + crate::snowflake::insert_replacement(content, ps[0].2), rest, "IdUtil"@);
    }
}

/// Injecting snowflake keys into a service implementation is idempotent: a
/// source that was just changed is left alone the second time.
pub proof fn law_source_injection_idempotent(content: Seq<char>)
    requires
        crate::snowflake::source_injected(content) is Some,
    ensures
        crate::snowflake::source_injected(crate::snowflake::source_injected(content)->0) is None,
{
    let (ps, tail) = crate::ext_calls::regex_pieces_of(crate::snowflake::insert_pattern(), content)->0;
    let k = choose|k: int| 0 <= k < ps.len() && #[trigger] crate::snowflake::injects(content, ps[k].2);
    lemma_inserts_contain_idutil(content, ps, tail, k);
}

// ---------------------------------------------------------------------------
// SMS login patches
// ---------------------------------------------------------------------------

/// Appending the SMS functions to the classic `api/login.js` is idempotent.
pub proof fn law_classic_api_idempotent(c: Seq<char>, cloud: bool)
    requires
        crate::sms_patches::classic_api_patched(c, cloud) is Some,
    ensures
        crate::sms_patches::classic_api_patched(crate::sms_patches::classic_api_patched(c, cloud)->0, cloud) is None,
{
    reveal_strlit("', headers: { isToken: false }, method: 'post', data })\n}\nexport function smsLogin(data) {\n  return request({ url: '");
    reveal_strlit("export function smsLogin");
    assert("', headers: { isToken: false }, method: 'post', data })\n}\nexport function smsLogin(data) {\n  return request({ url: '"@.subrange(58, 82) =~= "export function smsLogin"@);
    lemma_contains_at("', headers: { isToken: false }, method: 'post', data })\n}\nexport function smsLogin(data) {\n  return request({ url: '"@, "export function smsLogin"@, 58);
    lemma_contains_mid("\nexport function getSmsCode(data) {\n  return request({ url: '"@ + crate::sms_patches::sms_code_url(cloud), "', headers: { isToken: false }, method: 'post', data })\n}\nexport function smsLogin(data) {\n  return request({ url: '"@, crate::sms_patches::sms_login_url(cloud) + "', headers: { isToken: false, repeatSubmit: false }, method: 'post', data })\n}\n"@, "export function smsLogin"@);
    assert(("\nexport function getSmsCode(data) {\n  return request({ url: '"@ + crate::sms_patches::sms_code_url(cloud)) + "', headers: { isToken: false }, method: 'post', data })\n}\nexport function smsLogin(data) {\n  return request({ url: '"@ + (crate::sms_patches::sms_login_url(cloud) + "', headers: { isToken: false, repeatSubmit: false }, method: 'post', data })\n}\n"@) =~= crate::sms_patches::classic_api_block(cloud));
    lemma_contains_suffix(c, crate::sms_patches::classic_api_block(cloud), "export function smsLogin"@);
}

/// Appending the SMS functions to the vben `auth.ts` is idempotent.
pub proof fn law_vben_auth_idempotent(c: Seq<char>, cloud: bool)
    requires
        crate::sms_patches::vben_auth_patched(c, cloud) is Some,
    ensures
        crate::sms_patches::vben_auth_patched(crate::sms_patches::vben_auth_patched(c, cloud)->0, cloud) is None,
{
    reveal_strlit("', data);\n}\nexport async function smsLoginApi(data: Record<string, any>) {\n  const resp = (await baseRequestClient.post('");
    reveal_strlit("smsLoginApi");
    assert("', data);\n}\nexport async function smsLoginApi(data: Record<string, any>) {\n  const resp = (await baseRequestClient.post('"@.subrange(34, 45) =~= "smsLoginApi"@);
    lemma_contains_at("', data);\n}\nexport async function smsLoginApi(data: Record<string, any>) {\n  const resp = (await baseRequestClient.post('"@, "smsLoginApi"@, 34);
    lemma_contains_mid("\nexport async function getSmsCodeApi(data: Record<string, any>) {\n  return baseRequestClient.post('"@ + crate::sms_patches::sms_code_url(cloud), "', data);\n}\nexport async function smsLoginApi(data: Record<string, any>) {\n  const resp = (await baseRequestClient.post('"@, crate::sms_patches::sms_login_url(cloud) + "', data)) as any;\n  const body = resp?.data ?? resp;\n  const token = body?.data?.access_token || body?.access_token || body?.token;\n  if (token) return { accessToken: token };\n  throw new Error(body?.msg || '短信登录失败');\n}\n"@, "smsLoginApi"@);
    assert(("\nexport async function getSmsCodeApi(data: Record<string, any>) {\n  return baseRequestClient.post('"@ + crate::sms_patches::sms_code_url(cloud)) + "', data);\n}\nexport async function smsLoginApi(data: Record<string, any>) {\n  const resp = (await baseRequestClient.post('"@ + (crate::sms_patches::sms_login_url(cloud) + "', data)) as any;\n  const body = resp?.data ?? resp;\n  const token = body?.data?.access_token || body?.access_token || body?.token;\n  if (token) return { accessToken: token };\n  throw new Error(body?.msg || '短信登录失败');\n}\n"@) =~= crate::sms_patches::vben_auth_block(cloud));
    lemma_contains_suffix(c, crate::sms_patches::vben_auth_block(cloud), "smsLoginApi"@);
}

/// Appending the SMS functions to the arco `login.ts` is idempotent.
pub proof fn law_arco_api_idempotent(c: Seq<char>, cloud: bool)
    requires
        crate::sms_patches::arco_api_patched(c, cloud) is Some,
    ensures
        crate::sms_patches::arco_api_patched(crate::sms_patches::arco_api_patched(c, cloud)->0, cloud) is None,
{
    assert(contains(crate::sms_patches::arco_api_block(cloud), "smsLogin"@)) by {
    reveal_strlit("', data, { isRawResponse: true })\n}\nexport function smsLogin(data: Record<string, unknown>): Promise<string> {\n  return request.post<any, any>('");
    reveal_strlit("smsLogin");
    assert("', data, { isRawResponse: true })\n}\nexport function smsLogin(data: Record<string, unknown>): Promise<string> {\n  return request.post<any, any>('"@.subrange(52, 60) =~= "smsLogin"@);
    lemma_contains_at("', data, { isRawResponse: true })\n}\nexport function smsLogin(data: Record<string, unknown>): Promise<string> {\n  return request.post<any, any>('"@, "smsLogin"@, 52);
    lemma_contains_mid("\nexport function getSmsCode(data: Record<string, unknown>) {\n  return request.post('"@ + crate::sms_patches::sms_code_url(cloud), "', data, { isRawResponse: true })\n}\nexport function smsLogin(data: Record<string, unknown>): Promise<string> {\n  return request.post<any, any>('"@, crate::sms_patches::sms_login_url(cloud) + "', data, { isRawResponse: true }).then((body) => body?.data?.access_token || body?.access_token || body?.token)\n}\n"@, "smsLogin"@);
    assert(("\nexport function getSmsCode(data: Record<string, unknown>) {\n  return request.post('"@ + crate::sms_patches::sms_code_url(cloud)) + "', data, { isRawResponse: true })\n}\nexport function smsLogin(data: Record<string, unknown>): Promise<string> {\n  return request.post<any, any>('"@ + (crate::sms_patches::sms_login_url(cloud) + "', data, { isRawResponse: true }).then((body) => body?.data?.access_token || body?.access_token || body?.token)\n}\n"@) =~= crate::sms_patches::arco_api_block(cloud));
    }
    assert(contains(crate::sms_patches::arco_api_block(cloud), "getSmsCode"@)) by {
    reveal_strlit("\nexport function getSmsCode(data: Record<string, unknown>) {\n  return request.post('");
    reveal_strlit("getSmsCode");
    assert("\nexport function getSmsCode(data: Record<string, unknown>) {\n  return request.post('"@.subrange(17, 27) =~= "getSmsCode"@);
    lemma_contains_at("\nexport function getSmsCode(data: Record<string, unknown>) {\n  return request.post('"@, "getSmsCode"@, 17);
    lemma_contains_mid(Seq::<char>::empty(), "\nexport function getSmsCode(data: Record<string, unknown>) {\n  return request.post('"@, crate::sms_patches::sms_code_url(cloud)+"', data, { isRawResponse: true })\n}\nexport function smsLogin(data: Record<string, unknown>): Promise<string> {\n  return request.post<any, any>('"@+crate::sms_patches::sms_login_url(cloud)+"', data, { isRawResponse: true }).then((body) => body?.data?.access_token || body?.access_token || body?.token)\n}\n"@, "getSmsCode"@);
    assert((Seq::<char>::empty()) + "\nexport function getSmsCode(data: Record<string, unknown>) {\n  return request.post('"@ + (crate::sms_patches::sms_code_url(cloud)+"', data, { isRawResponse: true })\n}\nexport function smsLogin(data: Record<string, unknown>): Promise<string> {\n  return request.post<any, any>('"@+crate::sms_patches::sms_login_url(cloud)+"', data, { isRawResponse: true }).then((body) => body?.data?.access_token || body?.access_token || body?.token)\n}\n"@) =~= crate::sms_patches::arco_api_block(cloud));
    }
    lemma_contains_suffix(c, crate::sms_patches::arco_api_block(cloud), "smsLogin"@);
    lemma_contains_suffix(c, crate::sms_patches::arco_api_block(cloud), "getSmsCode"@);
}

/// Appending the SMS functions to the uniapp `api/auth.js` is idempotent.
pub proof fn law_uniapp_auth_idempotent(c: Seq<char>, cloud: bool)
    requires
        crate::sms_patches::uniapp_auth_patched(c, cloud) is Some,
    ensures
        crate::sms_patches::uniapp_auth_patched(crate::sms_patches::uniapp_auth_patched(c, cloud)->0, cloud) is None,
{
    reveal_strlit("', data) }\nexport function smsLogin(data) { return request.post('");
    reveal_strlit("smsLogin");
    assert("', data) }\nexport function smsLogin(data) { return request.post('"@.subrange(27, 35) =~= "smsLogin"@);
    lemma_contains_at("', data) }\nexport function smsLogin(data) { return request.post('"@, "smsLogin"@, 27);
    lemma_contains_mid("\nexport function getSmsCode(data) { return request.post('"@ + crate::sms_patches::sms_code_url(cloud), "', data) }\nexport function smsLogin(data) { return request.post('"@, crate::sms_patches::sms_login_url(cloud) + "', data) }\n"@, "smsLogin"@);
    assert(("\nexport function getSmsCode(data) { return request.post('"@ + crate::sms_patches::sms_code_url(cloud)) + "', data) }\nexport function smsLogin(data) { return request.post('"@ + (crate::sms_patches::sms_login_url(cloud) + "', data) }\n"@) =~= crate::sms_patches::uniapp_auth_block(cloud));
    lemma_contains_suffix(c, crate::sms_patches::uniapp_auth_block(cloud), "smsLogin"@);
}

/// Adding `smsLogin` to SysLoginService is idempotent.
pub proof fn law_sys_login_service_idempotent(c: Seq<char>, pkg: Seq<char>, cloud: bool, method: Seq<char>)
    requires
        crate::sms_patches::sys_login_service_patched(c, pkg, cloud, method) is Some,
    ensures
        crate::sms_patches::sys_login_service_patched(
            crate::sms_patches::sys_login_service_patched(c, pkg, cloud, method)->0,
            pkg,
            cloud,
            method,
        ) is None,
{
    let fq = crate::sms_patches::sms_service_fqcn(pkg, cloud);
    reveal_strlit("smsLogin(");
    let t = if cloud {
        reveal_strlit(" forgeSmsCodeService;\n\n    /**\n     * 短信验证码登录（Cloud auth）。手机号用户经 RemoteUserService 拉取。\n     * selectUserByPhonenumber 在 system 侧，auth 通过 Feign inner 接口访问。\n     */\n    public LoginUser smsLogin(String phone, String code)\n    {\n        if (forgeSmsCodeService == null || !forgeSmsCodeService.verifyLoginCode(phone, code))\n        {\n            throw new ServiceException(\"短信验证码错误或已过期\");\n        }\n        R<LoginUser> userResult = remoteUserService.getUserInfoByPhonenumber(phone, SecurityConstants.INNER);\n        if (StringUtils.isNull(userResult) || StringUtils.isNull(userResult.getData()))\n        {\n            throw new ServiceException(\"该手机号未注册\");\n        }\n        LoginUser userInfo = userResult.getData();\n        SysUser sysUser = userInfo.getSysUser();\n        if (sysUser != null)\n        {\n            if (UserStatus.DELETED.getCode().equals(sysUser.getDelFlag()))\n            {\n                throw new ServiceException(\"对不起，您的账号已被删除\");\n            }\n            if (UserStatus.DISABLE.getCode().equals(sysUser.getStatus()))\n            {\n                throw new ServiceException(\"对不起，您的账号已停用\");\n            }\n        }\n        recordLoginInfo(userInfo.getSysUser());\n        return userInfo;\n    }\n\n    // 保留 ");
        assert(" forgeSmsCodeService;\n\n    /**\n     * 短信验证码登录（Cloud auth）。手机号用户经 RemoteUserService 拉取。\n     * selectUserByPhonenumber 在 system 侧，auth 通过 Feign inner 接口访问。\n     */\n    public LoginUser smsLogin(String phone, String code)\n    {\n        if (forgeSmsCodeService == null || !forgeSmsCodeService.verifyLoginCode(phone, code))\n        {\n            throw new ServiceException(\"短信验证码错误或已过期\");\n        }\n        R<LoginUser> userResult = remoteUserService.getUserInfoByPhonenumber(phone, SecurityConstants.INNER);\n        if (StringUtils.isNull(userResult) || StringUtils.isNull(userResult.getData()))\n        {\n            throw new ServiceException(\"该手机号未注册\");\n        }\n        LoginUser userInfo = userResult.getData();\n        SysUser sysUser = userInfo.getSysUser();\n        if (sysUser != null)\n        {\n            if (UserStatus.DELETED.getCode().equals(sysUser.getDelFlag()))\n            {\n                throw new ServiceException(\"对不起，您的账号已被删除\");\n            }\n            if (UserStatus.DISABLE.getCode().equals(sysUser.getStatus()))\n            {\n                throw new ServiceException(\"对不起，您的账号已停用\");\n            }\n        }\n        recordLoginInfo(userInfo.getSysUser());\n        return userInfo;\n    }\n\n    // 保留 "@.subrange(184, 193) =~= "smsLogin("@);
        lemma_contains_at(" forgeSmsCodeService;\n\n    /**\n     * 短信验证码登录（Cloud auth）。手机号用户经 RemoteUserService 拉取。\n     * selectUserByPhonenumber 在 system 侧，auth 通过 Feign inner 接口访问。\n     */\n    public LoginUser smsLogin(String phone, String code)\n    {\n        if (forgeSmsCodeService == null || !forgeSmsCodeService.verifyLoginCode(phone, code))\n        {\n            throw new ServiceException(\"短信验证码错误或已过期\");\n        }\n        R<LoginUser> userResult = remoteUserService.getUserInfoByPhonenumber(phone, SecurityConstants.INNER);\n        if (StringUtils.isNull(userResult) || StringUtils.isNull(userResult.getData()))\n        {\n            throw new ServiceException(\"该手机号未注册\");\n        }\n        LoginUser userInfo = userResult.getData();\n        SysUser sysUser = userInfo.getSysUser();\n        if (sysUser != null)\n        {\n            if (UserStatus.DELETED.getCode().equals(sysUser.getDelFlag()))\n            {\n                throw new ServiceException(\"对不起，您的账号已被删除\");\n            }\n            if (UserStatus.DISABLE.getCode().equals(sysUser.getStatus()))\n            {\n                throw new ServiceException(\"对不起，您的账号已停用\");\n            }\n        }\n        recordLoginInfo(userInfo.getSysUser());\n        return userInfo;\n    }\n\n    // 保留 "@, "smsLogin("@, 184);
        lemma_contains_mid("\n    @org.springframework.beans.factory.annotation.Autowired(required = false)\n    private "@ + fq, " forgeSmsCodeService;\n\n    /**\n     * 短信验证码登录（Cloud auth）。手机号用户经 RemoteUserService 拉取。\n     * selectUserByPhonenumber 在 system 侧，auth 通过 Feign inner 接口访问。\n     */\n    public LoginUser smsLogin(String phone, String code)\n    {\n        if (forgeSmsCodeService == null || !forgeSmsCodeService.verifyLoginCode(phone, code))\n        {\n            throw new ServiceException(\"短信验证码错误或已过期\");\n        }\n        R<LoginUser> userResult = remoteUserService.getUserInfoByPhonenumber(phone, SecurityConstants.INNER);\n        if (StringUtils.isNull(userResult) || StringUtils.isNull(userResult.getData()))\n        {\n            throw new ServiceException(\"该手机号未注册\");\n        }\n        LoginUser userInfo = userResult.getData();\n        SysUser sysUser = userInfo.getSysUser();\n        if (sysUser != null)\n        {\n            if (UserStatus.DELETED.getCode().equals(sysUser.getDelFlag()))\n            {\n                throw new ServiceException(\"对不起，您的账号已被删除\");\n            }\n            if (UserStatus.DISABLE.getCode().equals(sysUser.getStatus()))\n            {\n                throw new ServiceException(\"对不起，您的账号已停用\");\n            }\n        }\n        recordLoginInfo(userInfo.getSysUser());\n        return userInfo;\n    }\n\n    // 保留 "@, method + " 名称供对照：实际走 Feign getUserInfoByPhonenumber\n"@, "smsLogin("@);
        assert(("\n    @org.springframework.beans.factory.annotation.Autowired(required = false)\n    private "@ + fq) + " forgeSmsCodeService;\n\n    /**\n     * 短信验证码登录（Cloud auth）。手机号用户经 RemoteUserService 拉取。\n     * selectUserByPhonenumber 在 system 侧，auth 通过 Feign inner 接口访问。\n     */\n    public LoginUser smsLogin(String phone, String code)\n    {\n        if (forgeSmsCodeService == null || !forgeSmsCodeService.verifyLoginCode(phone, code))\n        {\n            throw new ServiceException(\"短信验证码错误或已过期\");\n        }\n        R<LoginUser> userResult = remoteUserService.getUserInfoByPhonenumber(phone, SecurityConstants.INNER);\n        if (StringUtils.isNull(userResult) || StringUtils.isNull(userResult.getData()))\n        {\n            throw new ServiceException(\"该手机号未注册\");\n        }\n        LoginUser userInfo = userResult.getData();\n        SysUser sysUser = userInfo.getSysUser();\n        if (sysUser != null)\n        {\n            if (UserStatus.DELETED.getCode().equals(sysUser.getDelFlag()))\n            {\n                throw new ServiceException(\"对不起，您的账号已被删除\");\n            }\n            if (UserStatus.DISABLE.getCode().equals(sysUser.getStatus()))\n            {\n                throw new ServiceException(\"对不起，您的账号已停用\");\n            }\n        }\n        recordLoginInfo(userInfo.getSysUser());\n        return userInfo;\n    }\n\n    // 保留 "@ + (method + " 名称供对照：实际走 Feign getUserInfoByPhonenumber\n"@) =~= crate::sms_login::cloud_sms_login_text(fq, method));
        crate::sms_login::cloud_sms_login_text(fq, method)
    } else {
        reveal_strlit(" → 复用权限/日志/token */\n    public String smsLogin(String phone, String code)\n    {\n        if (forgeSmsCodeService == null || !forgeSmsCodeService.verifyLoginCode(phone, code))\n        {\n            AsyncManager.me().execute(AsyncFactory.recordLogininfor(phone, Constants.LOGIN_FAIL, \"短信验证码错误\"));\n            throw new ServiceException(\"短信验证码错误或已过期\");\n        }\n        SysUser user = userService.");
        assert(" → 复用权限/日志/token */\n    public String smsLogin(String phone, String code)\n    {\n        if (forgeSmsCodeService == null || !forgeSmsCodeService.verifyLoginCode(phone, code))\n        {\n            AsyncManager.me().execute(AsyncFactory.recordLogininfor(phone, Constants.LOGIN_FAIL, \"短信验证码错误\"));\n            throw new ServiceException(\"短信验证码错误或已过期\");\n        }\n        SysUser user = userService."@.subrange(38, 47) =~= "smsLogin("@);
        lemma_contains_at(" → 复用权限/日志/token */\n    public String smsLogin(String phone, String code)\n    {\n        if (forgeSmsCodeService == null || !forgeSmsCodeService.verifyLoginCode(phone, code))\n        {\n            AsyncManager.me().execute(AsyncFactory.recordLogininfor(phone, Constants.LOGIN_FAIL, \"短信验证码错误\"));\n            throw new ServiceException(\"短信验证码错误或已过期\");\n        }\n        SysUser user = userService."@, "smsLogin("@, 38);
        lemma_contains_mid("\n    @org.springframework.beans.factory.annotation.Autowired(required = false)\n    private "@ + fq + " forgeSmsCodeService;\n\n    /** 短信验证码登录：校验 Redis 码 → "@ + method, " → 复用权限/日志/token */\n    public String smsLogin(String phone, String code)\n    {\n        if (forgeSmsCodeService == null || !forgeSmsCodeService.verifyLoginCode(phone, code))\n        {\n            AsyncManager.me().execute(AsyncFactory.recordLogininfor(phone, Constants.LOGIN_FAIL, \"短信验证码错误\"));\n            throw new ServiceException(\"短信验证码错误或已过期\");\n        }\n        SysUser user = userService."@, method + "(phone);\n        if (StringUtils.isNull(user))\n        {\n            throw new ServiceException(\"该手机号未注册\");\n        }\n        if (UserStatus.DELETED.getCode().equals(user.getDelFlag()))\n        {\n            throw new ServiceException(\"对不起，您的账号已被删除\");\n        }\n        if (UserStatus.DISABLE.getCode().equals(user.getStatus()))\n        {\n            throw new ServiceException(\"对不起，您的账号已停用\");\n        }\n        AsyncManager.me().execute(AsyncFactory.recordLogininfor(user.getUserName(), Constants.LOGIN_SUCCESS, MessageUtils.message(\"user.login.success\")));\n        LoginUser loginUser = new LoginUser(user.getUserId(), user.getDeptId(), user, permissionService.getMenuPermission(user));\n        recordLoginInfo(loginUser.getUserId());\n        return tokenService.createToken(loginUser);\n    }\n\n"@, "smsLogin("@);
        assert(("\n    @org.springframework.beans.factory.annotation.Autowired(required = false)\n    private "@ + fq + " forgeSmsCodeService;\n\n    /** 短信验证码登录：校验 Redis 码 → "@ + method) + " → 复用权限/日志/token */\n    public String smsLogin(String phone, String code)\n    {\n        if (forgeSmsCodeService == null || !forgeSmsCodeService.verifyLoginCode(phone, code))\n        {\n            AsyncManager.me().execute(AsyncFactory.recordLogininfor(phone, Constants.LOGIN_FAIL, \"短信验证码错误\"));\n            throw new ServiceException(\"短信验证码错误或已过期\");\n        }\n        SysUser user = userService."@ + (method + "(phone);\n        if (StringUtils.isNull(user))\n        {\n            throw new ServiceException(\"该手机号未注册\");\n        }\n        if (UserStatus.DELETED.getCode().equals(user.getDelFlag()))\n        {\n            throw new ServiceException(\"对不起，您的账号已被删除\");\n        }\n        if (UserStatus.DISABLE.getCode().equals(user.getStatus()))\n        {\n            throw new ServiceException(\"对不起，您的账号已停用\");\n        }\n        AsyncManager.me().execute(AsyncFactory.recordLogininfor(user.getUserName(), Constants.LOGIN_SUCCESS, MessageUtils.message(\"user.login.success\")));\n        LoginUser loginUser = new LoginUser(user.getUserId(), user.getDeptId(), user, permissionService.getMenuPermission(user));\n        recordLoginInfo(loginUser.getUserId());\n        return tokenService.createToken(loginUser);\n    }\n\n"@) =~= crate::sms_login::vue_sms_login_text(fq, method));
        crate::sms_login::vue_sms_login_text(fq, method)
    };
    let i = crate::patch::last_index(c, '}')->0;
    lemma_contains_mid(c.take(i), t, c.skip(i), "smsLogin("@);
}

/// Adding the phone lookup to RemoteUserService is idempotent.
pub proof fn law_remote_user_service_idempotent(c: Seq<char>)
    requires
        crate::sms_patches::remote_user_service_patched(c) is Some,
    ensures
        crate::sms_patches::remote_user_service_patched(crate::sms_patches::remote_user_service_patched(c)->0) is None,
{
    let t = crate::sms_patches::remote_phone_method();
    reveal_strlit("\n    @GetMapping(\"/user/info/phone/{phonenumber}\")\n    R<LoginUser> getUserInfoByPhonenumber(@PathVariable(\"phonenumber\") String phonenumber, @RequestHeader(SecurityConstants.FROM_SOURCE) String source);\n");
    reveal_strlit("getUserInfoByPhonenumber");
    assert(t.subrange(68, 92) =~= "getUserInfoByPhonenumber"@);
    lemma_contains_at(t, "getUserInfoByPhonenumber"@, 68);
    let i = crate::patch::last_index(c, '}')->0;
    lemma_contains_mid(c.take(i), t, c.skip(i), "getUserInfoByPhonenumber"@);
}

// ---------------------------------------------------------------------------
// Configuration and build files
// ---------------------------------------------------------------------------

/// Appending the OSS block to the application configuration is idempotent.
pub proof fn law_oss_yml_idempotent(content: Seq<char>, p: crate::params::CustomizeParams)
    requires
        crate::oss::oss_yml_appended(content, p) is Some,
    ensures
        crate::oss::oss_yml_appended(crate::oss::oss_yml_appended(content, p)->0, p) is None,
{
    let l = ":\n  oss: # 对象存储\n    enabled: "@;
    reveal_strlit(":\n  oss: # 对象存储\n    enabled: ");
    reveal_strlit("  oss:");
    assert(l.subrange(2, 8) =~= "  oss:"@);
    lemma_contains_at(l, "  oss:"@, 2);
    let a = "\n# ===== "@ + p.new_module_prefix@ + " OSS 对象存储配置 =====\n"@ + p.new_module_prefix@;
    let r = crate::oss::bool_text(p.enable_oss)
        + " # 是否启用 OSS\n    provider: "@ + crate::oss::single_quoted(p.oss_provider@)
        + " # 厂商：aliyun|tencent|minio|qiniu\n    endpoint: "@ + crate::oss::single_quoted(p.oss_endpoint@)
        + " # endpoint（区域/地址）\n    bucket: "@ + crate::oss::single_quoted(p.oss_bucket@)
        + " # bucket 名称\n    access-key: "@ + crate::oss::single_quoted(p.oss_access_key@)
        + " # accessKey\n    secret-key: "@ + crate::oss::single_quoted(p.oss_secret_key@)
        + " # secretKey\n    custom-domain: "@ + crate::oss::single_quoted(p.oss_custom_domain@)
        + " # 自定义域名（CDN，留空用默认域名）\n"@;
    lemma_contains_mid(a, l, r, "  oss:"@);
    assert((a) + l + (r) =~= crate::oss::oss_yml_block(p));
    let b = crate::oss::oss_yml_block(p);
    if crate::text::ends_with(content, "\n"@) {
        lemma_contains_suffix(content, b, "  oss:"@);
    } else {
        lemma_contains_suffix(content + "\n"@, b, "  oss:"@);
    }
}

/// Appending the certificate rules to `.gitignore` is idempotent.
pub proof fn law_gitignore_idempotent(existing: Seq<char>)
    requires
        crate::wechat::gitignore_with_certs(existing) is Some,
    ensures
        crate::wechat::gitignore_with_certs(crate::wechat::gitignore_with_certs(existing)->0) is None,
{
    let b = crate::wechat::cert_ignore_block();
    reveal_strlit("\n# wechat pay certs\nsrc/main/resources/cert/*.pem\nsrc/main/resources/cert/*.p12\n!src/main/resources/cert/.gitkeep\n!src/main/resources/cert/README.md\n");
    reveal_strlit("# wechat pay certs");
    assert(b.subrange(1, 19) =~= "# wechat pay certs"@);
    lemma_contains_at(b, "# wechat pay certs"@, 1);
    if existing.len() > 0 && !crate::text::ends_with(existing, "\n"@) {
        lemma_contains_suffix(existing + "\n"@, b, "# wechat pay certs"@);
    } else {
        lemma_contains_suffix(existing, b, "# wechat pay certs"@);
    }
}

/// Permitting `/webInfo` in SecurityConfig is idempotent.
pub proof fn law_security_config_idempotent(c: Seq<char>)
    requires
        crate::web_footer::security_config_patched(c) is Some,
    ensures
        crate::web_footer::security_config_patched(crate::web_footer::security_config_patched(c)->0) is None,
{
    let a = "\"/captchaImage\""@;
    let b = "\"/captchaImage\", \"/webInfo\""@;
    reveal_strlit("\"/captchaImage\", \"/webInfo\"");
    reveal_strlit("\"/webInfo\"");
    assert(b.subrange(17, 27) =~= "\"/webInfo\""@);
    lemma_contains_at(b, "\"/webInfo\""@, 17);
    let i = crate::text::find(c, a)->0;
    lemma_contains_mid(c.take(i), b, c.skip(i + a.len()), "\"/webInfo\""@);
}

/// Setting the jar's `finalName` is idempotent.
pub proof fn law_final_name_idempotent(content: Seq<char>, name: Seq<char>)
    requires
        crate::scripts::final_name_set(content, name) is Some,
    ensures
        crate::scripts::final_name_set(crate::scripts::final_name_set(content, name)->0, name) is None,
{
    let blk = crate::scripts::final_name_block(name);
    reveal_strlit("        <finalName>");
    reveal_strlit("<finalName>");
    assert("        <finalName>"@.subrange(8, 19) =~= "<finalName>"@);
    lemma_contains_at("        <finalName>"@, "<finalName>"@, 8);
    lemma_contains_prefix("        <finalName>"@, name + "</finalName>\n"@, "<finalName>"@);
    assert("        <finalName>"@ + (name + "</finalName>\n"@) =~= blk);
    match crate::ext_calls::regex_pieces_of("<build\\b[^>]*>"@, content) {
        Some((ps, tail)) => if ps.len() > 0 {
            lemma_contains_mid(ps[0].0 + ps[0].1, blk, crate::ext_calls::pieces_text(ps.drop_first(), tail), "<finalName>"@);
        } else {
            let to = "    <build>\n"@ + blk + "    </build>\n</project>"@;
            lemma_contains_mid("    <build>\n"@, blk, "    </build>\n</project>"@, "<finalName>"@);
            let i = crate::text::find(content, "</project>"@)->0;
            lemma_contains_mid(content.take(i), to, content.skip(i + "</project>"@.len()), "<finalName>"@);
        },
        None => {},
    }
}

// ---------------------------------------------------------------------------
// Module poms
// ---------------------------------------------------------------------------

proof fn lemma_self_contains(p: Seq<char>)
    ensures
        contains(p, p),
{
    assert(p.subrange(0, p.len() as int) =~= p);
    lemma_contains_at(p, p, 0);
}

proof fn lemma_contains_trans(s: Seq<char>, q: Seq<char>, p: Seq<char>)
    requires
        contains(s, q),
        contains(q, p),
    ensures
        contains(s, p),
{
    crate::text::lemma_find_from(s, q, 0);
    let k = crate::text::find(s, q)->0;
    assert(s =~= s.take(k) + q + s.skip(k + q.len()));
    lemma_contains_mid(s.take(k), q, s.skip(k + q.len()), p);
}

proof fn lemma_replaced_contains(s: Seq<char>, from: Seq<char>, to: Seq<char>)
    requires
        from.len() > 0,
        crate::text::replace_all(s, from, to) != s,
    ensures
        contains(crate::text::replace_all(s, from, to), to),
    decreases s.len(),
{
    let r = crate::text::replace_all(s, from, to);
    if s.len() == 0 {
    } else if crate::text::starts_with(s, from) {
        let rest = crate::text::replace_all(s.skip(from.len() as int), from, to);
        lemma_self_contains(to);
        lemma_contains_prefix(to, rest, to);
    } else {
        let rest = crate::text::replace_all(s.drop_first(), from, to);
        if rest == s.drop_first() {
            assert(seq![s[0]] + s.drop_first() =~= s);
        } else {
            lemma_replaced_contains(s.drop_first(), from, to);
            lemma_contains_suffix(seq![s[0]], rest, to);
        }
    }
}

/// Once `upsert_module_tag` has updated an aggregator pom, a second call on
/// the updated text finds the entry present.
pub proof fn law_module_tag_upsert_settles(content: Seq<char>, module: Seq<char>)
    requires
        !contains(content, crate::new_module::module_tag(module)),
        crate::new_module::with_module_entry(content, crate::new_module::module_tag(module)) != content,
    ensures
        contains(
            crate::new_module::with_module_entry(content, crate::new_module::module_tag(module)),
            crate::new_module::module_tag(module),
        ),
{
    let tag = crate::new_module::module_tag(module);
    let idx = crate::new_module::rfind(content, "</modules>"@)->0;
    let before = content.take(idx);
    let indent = match crate::new_module::module_indent(crate::text::lines(before)) {
        Some(x) => x,
        None => crate::text::spaces(8),
    };
    let nl = crate::new_module::newline_of(before);
    let lead: Seq<char> = if before.len() > 0 && before.last() == '\n' {
        Seq::empty()
    } else {
        nl
    };
    lemma_self_contains(tag);
    lemma_contains_mid(before + lead + indent, tag, nl + content.skip(idx), tag);
    assert(before + lead + indent + tag + (nl + content.skip(idx)) =~= before + lead + indent + tag + nl
        + content.skip(idx));
}

/// Once `insert_admin_dependency` has updated the admin pom, a second call on
/// the updated text finds the artifact present.
pub proof fn law_admin_dependency_settles(content: Seq<char>, group_id: Seq<char>, artifact_id: Seq<char>)
    requires
        !contains(content, "<artifactId>"@ + artifact_id + "</artifactId>"@),
        crate::new_module::with_dependency(content, crate::new_module::admin_dep_block(group_id, artifact_id))
            != content,
    ensures
        contains(
            crate::new_module::with_dependency(content, crate::new_module::admin_dep_block(group_id, artifact_id)),
            "<artifactId>"@ + artifact_id + "</artifactId>"@,
        ),
{
    let art = "<artifactId>"@ + artifact_id + "</artifactId>"@;
    let blk = crate::new_module::admin_dep_block(group_id, artifact_id);
    let head = "\n        <dependency>\n            <groupId>"@ + group_id + "</groupId>\n            "@;
    let tail = "\n        </dependency>"@;
    reveal_strlit("</groupId>\n            <artifactId>");
    reveal_strlit("</groupId>\n            ");
    reveal_strlit("<artifactId>");
    reveal_strlit("</artifactId>\n        </dependency>");
    reveal_strlit("</artifactId>");
    reveal_strlit("\n        </dependency>");
    assert(head + art + tail =~= blk);
    lemma_self_contains(art);
    lemma_contains_mid(head, art, tail, art);
    match crate::text::find(content, "<dependencies>"@) {
        Some(idx) => {
            let k = idx + "<dependencies>"@.len();
            lemma_contains_mid(content.take(k), blk, content.skip(k), art);
        },
        None => {
            let to = "    <dependencies>"@ + blk + "\n    </dependencies>\n</project>"@;
            reveal_strlit("</project>");
            lemma_replaced_contains(content, "</project>"@, to);
            lemma_contains_mid("    <dependencies>"@, blk, "\n    </dependencies>\n</project>"@, art);
            lemma_contains_trans(crate::placeholders::str_replace(content, "</project>"@, to), to, art);
        },
    }
}

// ---------------------------------------------------------------------------
// Module order
// ---------------------------------------------------------------------------

proof fn lemma_bucket_ranked(ms: Seq<Seq<char>>, f: spec_fn(Seq<char>) -> u8, k: u8)
    ensures
        forall|i: int|
            0 <= i < crate::module_order::bucket(ms, ms.map_values(f), k).len() ==> f(
                #[trigger] crate::module_order::bucket(ms, ms.map_values(f), k)[i],
            ) == k,
    decreases ms.len(),
{
    if ms.len() > 0 {
        let ms2 = ms.drop_last();
        assert(ms.map_values(f).drop_last() =~= ms2.map_values(f));
        lemma_bucket_ranked(ms2, f, k);
        let b = crate::module_order::bucket(ms2, ms2.map_values(f), k);
        let bb = crate::module_order::bucket(ms, ms.map_values(f), k);
        assert(ms.map_values(f).last() == f(ms.last()));
        assert forall|i: int| 0 <= i < bb.len() implies f(#[trigger] bb[i]) == k by {
            if i < b.len() {
                assert(bb[i] == b[i]);
            }
        }
    }
}

proof fn lemma_bucket_multiset(ms: Seq<Seq<char>>, rs: Seq<u8>)
    requires
        rs.len() == ms.len(),
        forall|i: int| 0 <= i < rs.len() ==> rs[i] < 4,
    ensures
        crate::module_order::bucket(ms, rs, 0).to_multiset().add(
            crate::module_order::bucket(ms, rs, 1).to_multiset(),
        ).add(crate::module_order::bucket(ms, rs, 2).to_multiset()).add(
            crate::module_order::bucket(ms, rs, 3).to_multiset(),
        ) =~= ms.to_multiset(),
    decreases ms.len(),
{
    broadcast use vstd::multiset::group_multiset_axioms, vstd::seq_lib::to_multiset_build;
    if ms.len() == 0 {
        vstd::seq_lib::to_multiset_len(ms);
        vstd::multiset::lemma_multiset_empty_len(ms.to_multiset());
        assert(crate::module_order::bucket(ms, rs, 0) =~= ms);
        assert(crate::module_order::bucket(ms, rs, 1) =~= ms);
        assert(crate::module_order::bucket(ms, rs, 2) =~= ms);
        assert(crate::module_order::bucket(ms, rs, 3) =~= ms);
    } else {
        let ms2 = ms.drop_last();
        let rs2 = rs.drop_last();
        lemma_bucket_multiset(ms2, rs2);
        assert(ms2.push(ms.last()) =~= ms);
    }
}

proof fn lemma_rank_order(ms: Seq<Seq<char>>, f: spec_fn(Seq<char>) -> u8)
    requires
        forall|m: Seq<char>| #[trigger] f(m) < 4,
    ensures
        crate::module_order::rank_order(ms, ms.map_values(f)).to_multiset() =~= ms.to_multiset(),
        forall|i: int, j: int|
            0 <= i < j < crate::module_order::rank_order(ms, ms.map_values(f)).len() ==> f(
                #[trigger] crate::module_order::rank_order(ms, ms.map_values(f))[i],
            ) <= f(#[trigger] crate::module_order::rank_order(ms, ms.map_values(f))[j]),
{
    let rs = ms.map_values(f);
    let b0 = crate::module_order::bucket(ms, rs, 0);
    let b1 = crate::module_order::bucket(ms, rs, 1);
    let b2 = crate::module_order::bucket(ms, rs, 2);
    let b3 = crate::module_order::bucket(ms, rs, 3);
    lemma_bucket_multiset(ms, rs);
    vstd::seq_lib::lemma_multiset_commutative(b0, b1);
    vstd::seq_lib::lemma_multiset_commutative(b0 + b1, b2);
    vstd::seq_lib::lemma_multiset_commutative(b0 + b1 + b2, b3);
    lemma_bucket_ranked(ms, f, 0);
    lemma_bucket_ranked(ms, f, 1);
    lemma_bucket_ranked(ms, f, 2);
    lemma_bucket_ranked(ms, f, 3);
    let ro = b0 + b1 + b2 + b3;
    assert forall|i: int| 0 <= i < ro.len() implies f(#[trigger] ro[i]) == (if i < b0.len() {
        0int
    } else if i < b0.len() + b1.len() {
        1int
    } else if i < b0.len() + b1.len() + b2.len() {
        2int
    } else {
        3int
    }) by {
        if i < b0.len() {
            assert(ro[i] == b0[i]);
        } else if i < b0.len() + b1.len() {
            assert(ro[i] == b1[i - b0.len()]);
        } else if i < b0.len() + b1.len() + b2.len() {
            assert(ro[i] == b2[i - b0.len() - b1.len()]);
        } else {
            assert(ro[i] == b3[i - b0.len() - b1.len() - b2.len()]);
        }
    }
}

/// `prioritize_modules` of the OSS and WeChat Pay steps reorders the modules
/// and nothing more (same names, each as often), and puts them in order of
/// their suffix rank.
pub proof fn law_suffix_order_is_sorted_permutation(ms: Seq<Seq<char>>)
    ensures
        crate::module_order::rank_order(ms, crate::module_order::suffix_ranks(ms)).to_multiset()
            =~= ms.to_multiset(),
        forall|i: int, j: int|
            0 <= i < j < crate::module_order::rank_order(ms, crate::module_order::suffix_ranks(ms)).len()
                ==> crate::module_order::suffix_rank(
                #[trigger] crate::module_order::rank_order(ms, crate::module_order::suffix_ranks(ms))[i],
            ) <= crate::module_order::suffix_rank(
                #[trigger] crate::module_order::rank_order(ms, crate::module_order::suffix_ranks(ms))[j],
            ),
{
    let f = |m: Seq<char>| crate::module_order::suffix_rank(m);
    assert(crate::module_order::suffix_ranks(ms) =~= ms.map_values(f));
    lemma_rank_order(ms, f);
}

/// `prioritize_modules` of the snowflake step reorders the modules and nothing
/// more, and puts them in order of their name rank.
pub proof fn law_name_order_is_sorted_permutation(ms: Seq<Seq<char>>)
    ensures
        crate::module_order::rank_order(ms, crate::snowflake::name_ranks(ms)).to_multiset() =~= ms.to_multiset(),
        forall|i: int, j: int|
            0 <= i < j < crate::module_order::rank_order(ms, crate::snowflake::name_ranks(ms)).len()
                ==> crate::snowflake::name_rank(
                #[trigger] crate::module_order::rank_order(ms, crate::snowflake::name_ranks(ms))[i],
            ) <= crate::snowflake::name_rank(
                #[trigger] crate::module_order::rank_order(ms, crate::snowflake::name_ranks(ms))[j],
            ),
{
    let f = |m: Seq<char>| crate::snowflake::name_rank(m);
    assert(crate::snowflake::name_ranks(ms) =~= ms.map_values(f));
    lemma_rank_order(ms, f);
}

// ---------------------------------------------------------------------------
// AGENTS.md
// ---------------------------------------------------------------------------

/// No line break in `p`.
spec fn no_nl(p: Seq<char>) -> bool {
    forall|t: int| 0 <= t < p.len() ==> p[t] != '\n'
}

/// Only line breaks in `n`.
spec fn all_nl(n: Seq<char>) -> bool {
    forall|t: int| 0 <= t < n.len() ==> n[t] == '\n'
}

proof fn lemma_find_is(s: Seq<char>, p: Seq<char>, from: int, m: int)
    requires
        0 <= from <= m,
        crate::text::matches_at(s, p, m),
        forall|k: int| from <= k < m ==> !crate::text::matches_at(s, p, k),
    ensures
        crate::text::find_from(s, p, from) == Some(m),
    decreases m - from,
{
    if from < m {
        lemma_find_is(s, p, from + 1, m);
    }
}

/// A pattern without line breaks that is not in `t` is not in `t` followed by
/// line breaks.
proof fn lemma_no_match_nl_suffix(t: Seq<char>, n: Seq<char>, p: Seq<char>)
    requires
        !contains(t, p),
        no_nl(p),
        all_nl(n),
        p.len() > 0,
    ensures
        !contains(t + n, p),
{
    let s = t + n;
    crate::text::lemma_find_from(s, p, 0);
    if contains(s, p) {
        let k = crate::text::find(s, p)->0;
        if k + p.len() <= t.len() {
            assert(t.subrange(k, k + p.len()) =~= s.subrange(k, k + p.len()));
            crate::text::lemma_match_contains(t, p, k);
        } else {
            let x = p.len() - 1;
            assert(s.subrange(k, k + p.len())[x] == s[k + x]);
            assert(s[k + x] == n[k + x - t.len()]);
        }
    }
}

/// No match of a line-break-free pattern starts inside a prefix that lacks it
/// and ends with a line break.
proof fn lemma_no_match_before(a: Seq<char>, b: Seq<char>, p: Seq<char>, k: int)
    requires
        0 <= k < a.len(),
        a.last() == '\n',
        !contains(a, p),
        no_nl(p),
    ensures
        !crate::text::matches_at(a + b, p, k),
{
    let s = a + b;
    if crate::text::matches_at(s, p, k) {
        if k + p.len() <= a.len() {
            assert(a.subrange(k, k + p.len()) =~= s.subrange(k, k + p.len()));
            crate::text::lemma_match_contains(a, p, k);
        } else {
            let x = a.len() - 1 - k;
            assert(s.subrange(k, k + p.len())[x] == s[a.len() - 1]);
        }
    }
}

proof fn lemma_markers()
    ensures
        no_nl("<!-- SUB_AGENTS_RULES_BEGIN -->"@),
        no_nl("<!-- SUB_AGENTS_RULES_END -->"@),
        "<!-- SUB_AGENTS_RULES_BEGIN -->"@.len() == 31,
        "<!-- SUB_AGENTS_RULES_END -->"@.len() == 29,
        !contains("<!-- SUB_AGENTS_RULES_BEGIN -->"@, "<!-- SUB_AGENTS_RULES_END -->"@),
        !contains("# AI 编码规范"@, "<!-- SUB_AGENTS_RULES_BEGIN -->"@),
{
    let b = "<!-- SUB_AGENTS_RULES_BEGIN -->"@;
    let e = "<!-- SUB_AGENTS_RULES_END -->"@;
    let h = "# AI 编码规范"@;
    reveal_strlit("<!-- SUB_AGENTS_RULES_BEGIN -->");
    reveal_strlit("<!-- SUB_AGENTS_RULES_END -->");
    reveal_strlit("# AI 编码规范");
    crate::text::lemma_find_from(b, e, 0);
    if contains(b, e) {
        let k = crate::text::find(b, e)->0;
        assert(k <= 2);
        assert(b.subrange(k, k + 29)[0] == b[k]);
        assert(b.subrange(k, k + 29)[22] == b[k + 22]);
        assert(e[0] == '<' && e[22] == 'E');
        assert(b[22] == 'B');
    }
    crate::text::lemma_find_from(h, b, 0);
    assert(h.len() < b.len());
}

/// Where the markers sit in a marked guide whose text holds no end marker.
proof fn lemma_marked_layout(inner: Seq<char>)
    requires
        !contains(inner, "<!-- SUB_AGENTS_RULES_END -->"@),
    ensures
        crate::text::matches_at(crate::sub_agents::marked_guide(inner), "<!-- SUB_AGENTS_RULES_BEGIN -->"@, 0),
        crate::text::matches_at(
            crate::sub_agents::marked_guide(inner),
            "<!-- SUB_AGENTS_RULES_END -->"@,
            crate::sub_agents::marked_guide(inner).len() - 29,
        ),
        forall|k: int|
            0 <= k < crate::sub_agents::marked_guide(inner).len() - 29 ==> !crate::text::matches_at(
                crate::sub_agents::marked_guide(inner),
                "<!-- SUB_AGENTS_RULES_END -->"@,
                k,
            ),
{
    let b = "<!-- SUB_AGENTS_RULES_BEGIN -->"@;
    let e = "<!-- SUB_AGENTS_RULES_END -->"@;
    let m = crate::sub_agents::marked_guide(inner);
    lemma_markers();
    reveal_strlit("\n");
    let a0 = b + "\n"@;
    let a1 = inner + "\n"@;
    assert(m =~= a0 + (a1 + e));
    assert(all_nl("\n"@));
    lemma_no_match_nl_suffix(b, "\n"@, e);
    lemma_no_match_nl_suffix(inner, "\n"@, e);
    assert(m.subrange(0, 31) =~= b);
    assert(m.subrange(m.len() - 29, m.len() as int) =~= e);
    assert forall|k: int| 0 <= k < m.len() - 29 implies !crate::text::matches_at(m, e, k) by {
        if k < a0.len() {
            lemma_no_match_before(a0, a1 + e, e, k);
        } else {
            let k2 = k - a0.len();
            lemma_no_match_before(a1, e, e, k2);
            if crate::text::matches_at(m, e, k) {
                assert((a1 + e).subrange(k2, k2 + 29) =~= m.subrange(k, k + 29));
            }
        }
    }
}

proof fn lemma_trim_newlines_prefix(c: Seq<char>)
    ensures
        crate::sub_agents::trim_newlines_end(c).len() <= c.len(),
        c.take(crate::sub_agents::trim_newlines_end(c).len() as int) == crate::sub_agents::trim_newlines_end(c),
    decreases c.len(),
{
    if c.len() > 0 && c.last() == '\n' {
        lemma_trim_newlines_prefix(c.drop_last());
        assert(c.take(crate::sub_agents::trim_newlines_end(c).len() as int) =~= c.drop_last().take(
            crate::sub_agents::trim_newlines_end(c).len() as int,
        ));
    } else {
        assert(c.take(c.len() as int) =~= c);
    }
}

/// With the guide at `i` of `r` (the begin marker first found there), a second
/// injection of the same guide finds `r` unchanged.
proof fn lemma_reinjection_at(r: Seq<char>, pre: Seq<char>, inner: Seq<char>, post: Seq<char>)
    requires
        r == pre + crate::sub_agents::marked_guide(inner) + post,
        !contains(inner, "<!-- SUB_AGENTS_RULES_END -->"@),
        forall|k: int| 0 <= k < pre.len() ==> !crate::text::matches_at(r, "<!-- SUB_AGENTS_RULES_BEGIN -->"@, k),
    ensures
        contains(r, "<!-- SUB_AGENTS_RULES_BEGIN -->"@),
        crate::sub_agents::marker_block_replaced(r, crate::sub_agents::marked_guide(inner)) == r,
{
    let b = "<!-- SUB_AGENTS_RULES_BEGIN -->"@;
    let e = "<!-- SUB_AGENTS_RULES_END -->"@;
    let m = crate::sub_agents::marked_guide(inner);
    let i = pre.len() as int;
    lemma_marked_layout(inner);
    lemma_markers();
    assert(r.subrange(i, i + 31) =~= m.subrange(0, 31));
    lemma_find_is(r, b, 0, i);
    let j = i + m.len() - 29;
    assert(r.subrange(j, j + 29) =~= m.subrange(m.len() - 29, m.len() as int));
    assert forall|k: int| i <= k < j implies !crate::text::matches_at(r, e, k) by {
        if crate::text::matches_at(r, e, k) {
            assert(m.subrange(k - i, k - i + 29) =~= r.subrange(k, k + 29));
            assert(crate::text::matches_at(m, e, k - i));
        }
    }
    lemma_find_is(r, e, i, j);
    crate::text::lemma_match_contains(r, b, i);
    assert(r.take(i) =~= pre);
    assert(r.skip(j + 29) =~= post);
}

proof fn lemma_agents_new_file(inner: Seq<char>)
    requires
        !contains(inner, "<!-- SUB_AGENTS_RULES_END -->"@),
    ensures
        ({
            let r = "# AI 编码规范\n\n"@ + crate::sub_agents::marked_guide(inner) + "\n"@;
            contains(r, "<!-- SUB_AGENTS_RULES_BEGIN -->"@) && crate::sub_agents::marker_block_replaced(
                r,
                crate::sub_agents::marked_guide(inner),
            ) == r
        }),
{
    let b = "<!-- SUB_AGENTS_RULES_BEGIN -->"@;
    let m = crate::sub_agents::marked_guide(inner);
    let h = "# AI 编码规范\n\n"@;
    let r = h + m + "\n"@;
    lemma_markers();
    reveal_strlit("\n\n");
    reveal_strlit("# AI 编码规范\n\n");
    reveal_strlit("# AI 编码规范");
    assert(all_nl("\n\n"@));
    assert(h =~= "# AI 编码规范"@ + "\n\n"@);
    lemma_no_match_nl_suffix("# AI 编码规范"@, "\n\n"@, b);
    assert(r =~= h + (m + "\n"@));
    assert forall|k: int| 0 <= k < h.len() implies !crate::text::matches_at(r, b, k) by {
        lemma_no_match_before(h, m + "\n"@, b, k);
    }
    lemma_reinjection_at(r, h, inner, "\n"@);
}

#[verifier::spinoff_prover]
#[verifier::rlimit(40)]
proof fn lemma_agents_replaced(c: Seq<char>, inner: Seq<char>)
    requires
        !contains(inner, "<!-- SUB_AGENTS_RULES_END -->"@),
        contains(c, "<!-- SUB_AGENTS_RULES_BEGIN -->"@),
    ensures
        ({
            let r = crate::sub_agents::marker_block_replaced(c, crate::sub_agents::marked_guide(inner));
            r != c ==> contains(r, "<!-- SUB_AGENTS_RULES_BEGIN -->"@) && crate::sub_agents::marker_block_replaced(
                r,
                crate::sub_agents::marked_guide(inner),
            ) == r
        }),
{
    let b = "<!-- SUB_AGENTS_RULES_BEGIN -->"@;
    let e = "<!-- SUB_AGENTS_RULES_END -->"@;
    let m = crate::sub_agents::marked_guide(inner);
    let r = crate::sub_agents::marker_block_replaced(c, m);
    lemma_markers();
    lemma_marked_layout(inner);
    let i = crate::text::find(c, b)->0;
    crate::text::lemma_find_from(c, b, 0);
    crate::text::lemma_find_from(c, e, i);
    if crate::text::find_from(c, e, i) is Some {
        let j = crate::text::find_from(c, e, i)->0;
        let pre = c.take(i);
        let post = c.skip(j + 29);
        assert(r =~= pre + m + post);
        assert forall|k: int| 0 <= k < i implies !crate::text::matches_at(r, b, k) by {
            if crate::text::matches_at(r, b, k) {
                assert forall|t: int| 0 <= t < 31 implies #[trigger] c.subrange(k, k + 31)[t] == r.subrange(
                    k,
                    k + 31,
                )[t] by {
                    if k + t >= i {
                        assert(c.subrange(i, i + 31)[k + t - i] == m.subrange(0, 31)[k + t - i]);
                        assert(r[k + t] == m[k + t - i]);
                    } else {
                        assert(r[k + t] == c[k + t]);
                    }
                }
                assert(c.subrange(k, k + 31) =~= r.subrange(k, k + 31));
                assert(crate::text::matches_at(c, b, k));
            }
        }
        lemma_reinjection_at(r, pre, inner, post);
    }
}

proof fn lemma_agents_appended(c: Seq<char>, inner: Seq<char>)
    requires
        !contains(inner, "<!-- SUB_AGENTS_RULES_END -->"@),
        !contains(c, "<!-- SUB_AGENTS_RULES_BEGIN -->"@),
    ensures
        ({
            let r = crate::sub_agents::trim_newlines_end(c) + "\n\n"@ + crate::sub_agents::marked_guide(inner) + "\n"@;
            contains(r, "<!-- SUB_AGENTS_RULES_BEGIN -->"@) && crate::sub_agents::marker_block_replaced(
                r,
                crate::sub_agents::marked_guide(inner),
            ) == r
        }),
{
    let b = "<!-- SUB_AGENTS_RULES_BEGIN -->"@;
    let m = crate::sub_agents::marked_guide(inner);
    let t = crate::sub_agents::trim_newlines_end(c);
    lemma_markers();
    reveal_strlit("\n\n");
    assert(all_nl("\n\n"@));
    lemma_trim_newlines_prefix(c);
    if contains(t, b) {
        assert(c =~= t + c.skip(t.len() as int));
        lemma_contains_prefix(t, c.skip(t.len() as int), b);
    }
    lemma_no_match_nl_suffix(t, "\n\n"@, b);
    let a = t + "\n\n"@;
    let r = a + m + "\n"@;
    assert(r =~= a + (m + "\n"@));
    assert forall|k: int| 0 <= k < a.len() implies !crate::text::matches_at(r, b, k) by {
        lemma_no_match_before(a, m + "\n"@, b, k);
    }
    lemma_reinjection_at(r, a, inner, "\n"@);
}

/// Writing the sub-agent guide into AGENTS.md is idempotent: once a guide was
/// written, writing the same guide again changes nothing, for a guide that does
/// not itself hold the end marker.
pub proof fn law_agents_md_idempotent(existing: Option<Seq<char>>, inner: Seq<char>)
    requires
        crate::sub_agents::agents_md(existing, inner) is Some,
        !contains(inner, "<!-- SUB_AGENTS_RULES_END -->"@),
    ensures
        crate::sub_agents::agents_md(Some(crate::sub_agents::agents_md(existing, inner)->0), inner) is None,
{
    match existing {
        None => lemma_agents_new_file(inner),
        Some(c) => if contains(c, "<!-- SUB_AGENTS_RULES_BEGIN -->"@) {
            lemma_agents_replaced(c, inner);
        } else {
            lemma_agents_appended(c, inner);
        },
    }
}

// ---------------------------------------------------------------------------
// Gateway whitelist
// ---------------------------------------------------------------------------

/// Whether some line of the text is keyed `whites`.
pub open spec fn has_whites_line(yaml: Seq<char>) -> bool {
    exists|i: int| 0 <= i < crate::text::lines(yaml).len() && crate::text::line_key(#[trigger] crate::text::lines(yaml)[i]) == "whites"@
}

spec fn whites_done(st: crate::nacos_yaml::WhitesState) -> bool {
    st.added || st.in_whites
}

/// Once inside a `whites` list or past the added entry, the scan stays so;
/// a `whites` line gets it there.
proof fn lemma_whites_state(ls: Seq<Seq<char>>, st: crate::nacos_yaml::WhitesState, path: Seq<char>)
    requires
        whites_done(st) || exists|i: int| 0 <= i < ls.len() && crate::text::line_key(#[trigger] ls[i]) == "whites"@,
    ensures
        whites_done(crate::text::fold_state(ls, st, crate::nacos_yaml::whites_step(path))),
        st.added ==> crate::text::fold_state(ls, st, crate::nacos_yaml::whites_step(path)).added,
    decreases ls.len(),
{
    let step = crate::nacos_yaml::whites_step(path);
    if ls.len() > 0 {
        let st2 = step(ls[0], st).1;
        if !whites_done(st) && crate::text::line_key(ls[0]) != "whites"@ {
            let i = choose|i: int| 0 <= i < ls.len() && crate::text::line_key(#[trigger] ls[i]) == "whites"@;
            assert(ls.drop_first()[i - 1] == ls[i]);
        }
        lemma_whites_state(ls.drop_first(), st2, path);
    } else {
        if !whites_done(st) {
            let i = choose|i: int| 0 <= i < ls.len() && crate::text::line_key(#[trigger] ls[i]) == "whites"@;
        }
    }
}

/// When the scan adds the entry, its output holds the path and a line break.
proof fn lemma_whites_output(ls: Seq<Seq<char>>, st: crate::nacos_yaml::WhitesState, path: Seq<char>)
    requires
        !st.added,
        crate::text::fold_state(ls, st, crate::nacos_yaml::whites_step(path)).added,
    ensures
        contains(crate::text::fold_lines(ls, st, crate::nacos_yaml::whites_step(path)), path + "\n"@),
    decreases ls.len(),
{
    let step = crate::nacos_yaml::whites_step(path);
    reveal_strlit("\n");
    if ls.len() > 0 {
        let (o, st2) = step(ls[0], st);
        let rest = crate::text::fold_lines(ls.drop_first(), st2, step);
        if st2.added {
            let e = crate::nacos_yaml::white_entry(st.indent, path);
            let pre = crate::text::spaces((st.indent + 2) as nat) + "- "@;
            assert(e =~= pre + (path + "\n"@));
            assert((pre + (path + "\n"@)).subrange(pre.len() as int, (pre.len() + path.len() + 1) as int) =~= path + "\n"@);
            lemma_contains_at(pre + (path + "\n"@), path + "\n"@, pre.len() as int);
            assert(o =~= e + (ls[0] + seq!['\n']));
            lemma_contains_prefix(e, ls[0] + seq!['\n'], path + "\n"@);
            lemma_contains_prefix(o, rest, path + "\n"@);
        } else {
            lemma_whites_output(ls.drop_first(), st2, path);
            lemma_contains_suffix(o, rest, path + "\n"@);
        }
    }
}

proof fn lemma_contains_nl_drop_last(s: Seq<char>, q: Seq<char>)
    requires
        contains(s, q + "\n"@),
    ensures
        contains(s, q),
        s.len() > 0 ==> contains(s.drop_last(), q),
{
    reveal_strlit("\n");
    crate::text::lemma_find_from(s, q + "\n"@, 0);
    let k = crate::text::find(s, q + "\n"@)->0;
    let w = s.subrange(k, k + q.len() + 1);
    assert(w == q + "\n"@);
    assert(s.subrange(k, k + q.len()) =~= w.subrange(0, q.len() as int));
    assert(w.subrange(0, q.len() as int) =~= q);
    lemma_contains_at(s, q, k);
    if s.len() > 0 {
        assert(k + q.len() + 1 <= s.len());
        assert(s.drop_last().subrange(k, k + q.len()) =~= s.subrange(k, k + q.len()));
        lemma_contains_at(s.drop_last(), q, k);
    }
}

/// Adding a path to the gateway whitelist: a text that holds the path comes
/// back unchanged; a text with a `whites` line or a `security:` section comes
/// back holding the path; and on such texts a second call changes nothing.
pub proof fn law_whitelist_settles(yaml: Seq<char>, path: Seq<char>)
    ensures
        contains(yaml, path) ==> crate::nacos_yaml::whitelisted(yaml, path) == yaml,
        (contains(yaml, path) || has_whites_line(yaml) || contains(yaml, "security:"@)) ==> contains(
            crate::nacos_yaml::whitelisted(yaml, path),
            path,
        ),
        (contains(yaml, path) || has_whites_line(yaml) || contains(yaml, "security:"@)) ==> crate::nacos_yaml::whitelisted(
            crate::nacos_yaml::whitelisted(yaml, path),
            path,
        ) == crate::nacos_yaml::whitelisted(yaml, path),
{
    let r = crate::nacos_yaml::whitelisted(yaml, path);
    if !contains(yaml, path) && (has_whites_line(yaml) || contains(yaml, "security:"@)) {
        let step = crate::nacos_yaml::whites_step(path);
        let init = crate::nacos_yaml::WhitesState { in_whites: false, indent: 0, added: false };
        let ls = crate::text::lines(yaml);
        let out0 = crate::text::fold_lines(ls, init, step);
        let end = crate::text::fold_state(ls, init, step);
        reveal_strlit("\n");
        if whites_done(end) {
            let out = if end.in_whites && !end.added {
                out0 + crate::nacos_yaml::white_entry(end.indent, path)
            } else {
                out0
            };
            if end.added {
                lemma_whites_output(ls, init, path);
            } else {
                let e = crate::nacos_yaml::white_entry(end.indent, path);
                let pre = crate::text::spaces((end.indent + 2) as nat) + "- "@;
                assert(e =~= pre + (path + "\n"@));
                assert((pre + (path + "\n"@)).subrange(pre.len() as int, (pre.len() + path.len() + 1) as int) =~= path + "\n"@);
                lemma_contains_at(pre + (path + "\n"@), path + "\n"@, pre.len() as int);
                lemma_contains_suffix(out0, e, path + "\n"@);
            }
            lemma_contains_nl_drop_last(out, path);
        } else {
            if has_whites_line(yaml) {
                lemma_whites_state(ls, init, path);
            }
            let pre = crate::nacos_yaml::with_final_nl(yaml) + "  ignore:\n    whites:\n"@ + "      - "@;
            assert(r =~= pre + path + seq!['\n']);
            assert(r.subrange(pre.len() as int, (pre.len() + path.len()) as int) =~= path);
            lemma_contains_at(r, path, pre.len() as int);
        }
    }
}

// ---------------------------------------------------------------------------
// New module names
// ---------------------------------------------------------------------------

proof fn lemma_trim_ends(raw: Seq<char>)
    ensures
        crate::text::trim(raw).len() > 0 ==> !crate::text::is_ws(crate::text::trim(raw)[0]) && !crate::text::is_ws(
            crate::text::trim(raw).last(),
        ),
{
    let ts = crate::text::trim_start(raw);
    crate::text::lemma_trim_start_suffix(raw);
    crate::text::lemma_trim_end_prefix(ts);
    let t = crate::text::trim(raw);
    if t.len() > 0 {
        assert(t[0] == ts[0]);
    }
}

proof fn lemma_lower_char_keeps_ws(c: char)
    ensures
        crate::text::is_ws(crate::text::lower_char(c)) == crate::text::is_ws(c),
        crate::text::lower_char(crate::text::lower_char(c)) == crate::text::lower_char(c),
{
    if 'A' <= c && c <= 'Z' {
        let u = c as u32;
        assert(65 <= u <= 90);
        assert(((u + 32) as char) as u32 == u + 32);
    }
}

/// A key is its own key.
proof fn lemma_key_idempotent(raw: Seq<char>)
    ensures
        crate::new_module::name_key(crate::new_module::name_key(raw)) == crate::new_module::name_key(raw),
{
    let t = crate::text::trim(raw);
    let l = crate::text::lower(t);
    lemma_trim_ends(raw);
    if l.len() == 0 {
        assert(crate::text::trim(l) =~= l);
        assert(crate::text::lower(l) =~= l);
    } else {
        lemma_lower_char_keeps_ws(t[0]);
        lemma_lower_char_keeps_ws(t.last());
        assert(l[0] == crate::text::lower_char(t[0]));
        assert(l.last() == crate::text::lower_char(t.last()));
        assert(crate::text::trim_start(l) == l);
        assert(crate::text::trim_end(l) == l);
        assert forall|i: int| 0 <= i < l.len() implies #[trigger] crate::text::lower(l)[i] == l[i] by {
            lemma_lower_char_keeps_ws(t[i]);
        }
        assert(crate::text::lower(l) =~= l);
    }
}

proof fn lemma_norm_names_props(m: Seq<Seq<char>>)
    ensures
        forall|i: int, j: int|
            0 <= i < j < crate::new_module::norm_names(m).len() ==> crate::new_module::norm_names(m)[i]
                != crate::new_module::norm_names(m)[j],
        forall|i: int|
            0 <= i < crate::new_module::norm_names(m).len() ==> (#[trigger] crate::new_module::norm_names(m)[i]).len() > 0
                && crate::new_module::name_key(crate::new_module::norm_names(m)[i]) == crate::new_module::norm_names(m)[i],
        forall|x: Seq<char>|
            crate::new_module::norm_names(m).contains(x) <==> (x.len() > 0 && exists|i: int|
                0 <= i < m.len() && crate::new_module::name_key(#[trigger] m[i]) == x),
    decreases m.len(),
{
    if m.len() > 0 {
        let prev = crate::new_module::norm_names(m.drop_last());
        lemma_norm_names_props(m.drop_last());
        let key = crate::new_module::name_key(m.last());
        lemma_key_idempotent(m.last());
        let r = crate::new_module::norm_names(m);
        assert forall|x: Seq<char>| r.contains(x) <==> (x.len() > 0 && exists|i: int|
            0 <= i < m.len() && crate::new_module::name_key(#[trigger] m[i]) == x) by {
            if x.len() > 0 && exists|i: int| 0 <= i < m.len() && crate::new_module::name_key(#[trigger] m[i]) == x {
                let i = choose|i: int| 0 <= i < m.len() && crate::new_module::name_key(#[trigger] m[i]) == x;
                if i < m.len() - 1 {
                    assert(m.drop_last()[i] == m[i]);
                    assert(prev.contains(x));
                    if r != prev {
                        assert(r == prev.push(key));
                        let k = choose|k: int| 0 <= k < prev.len() && prev[k] == x;
                        assert(r[k] == x);
                    }
                } else {
                    if r == prev {
                    } else {
                        assert(r[r.len() - 1] == key);
                    }
                }
            }
            if r.contains(x) {
                let k = choose|k: int| 0 <= k < r.len() && r[k] == x;
                if k < prev.len() {
                    assert(prev[k] == x);
                    assert(prev.contains(x));
                    let i = choose|i: int| 0 <= i < m.drop_last().len() && crate::new_module::name_key(#[trigger] m.drop_last()[i]) == x;
                    assert(m[i] == m.drop_last()[i]);
                } else {
                    assert(crate::new_module::name_key(m[m.len() - 1]) == x);
                }
            }
        }
    }
}

proof fn lemma_norm_names_fixed(s: Seq<Seq<char>>)
    requires
        forall|i: int, j: int| 0 <= i < j < s.len() ==> s[i] != s[j],
        forall|i: int| 0 <= i < s.len() ==> (#[trigger] s[i]).len() > 0 && crate::new_module::name_key(s[i]) == s[i],
    ensures
        crate::new_module::norm_names(s) == s,
    decreases s.len(),
{
    if s.len() > 0 {
        let d = s.drop_last();
        assert forall|i: int| 0 <= i < d.len() implies (#[trigger] d[i]).len() > 0 && crate::new_module::name_key(d[i]) == d[i] by {
            assert(d[i] == s[i]);
        }
        lemma_norm_names_fixed(d);
        assert(s[s.len() - 1].len() > 0);
        if d.contains(s.last()) {
            let k = choose|k: int| 0 <= k < d.len() && d[k] == s.last();
            assert(s[k] == s[s.len() - 1]);
        }
        assert(d.push(s.last()) =~= s);
    }
}

/// Normalized new module names hold no repeats; each is non-empty and its own
/// key (trimmed, ASCII lower case); they are exactly the non-empty keys of the
/// input; and normalizing them again gives them back.
pub proof fn law_normalized_names(m: Seq<Seq<char>>)
    ensures
        forall|i: int, j: int|
            0 <= i < j < crate::new_module::norm_names(m).len() ==> crate::new_module::norm_names(m)[i]
                != crate::new_module::norm_names(m)[j],
        forall|i: int|
            0 <= i < crate::new_module::norm_names(m).len() ==> (#[trigger] crate::new_module::norm_names(m)[i]).len() > 0
                && crate::new_module::name_key(crate::new_module::norm_names(m)[i]) == crate::new_module::norm_names(m)[i],
        forall|x: Seq<char>|
            crate::new_module::norm_names(m).contains(x) <==> (x.len() > 0 && exists|i: int|
                0 <= i < m.len() && crate::new_module::name_key(#[trigger] m[i]) == x),
        crate::new_module::norm_names(crate::new_module::norm_names(m)) == crate::new_module::norm_names(m),
{
    lemma_norm_names_props(m);
    lemma_norm_names_fixed(crate::new_module::norm_names(m));
}

/// No carriage return in the text.
pub open spec fn no_cr(s: Seq<char>) -> bool {
    forall|k: int| 0 <= k < s.len() ==> s[k] != '\r'
}

/// Joining the lines of a text without carriage returns, each with a line
/// break, gives the text back (with a final line break added when missing).
proof fn lemma_lines_rejoin(s: Seq<char>)
    requires
        no_cr(s),
    ensures
        crate::text::join_nl(crate::text::lines(s)) == (if s.len() == 0 {
            Seq::<char>::empty()
        } else if s.last() == '\n' {
            s
        } else {
            s.push('\n')
        }),
    decreases s.len(),
{
    if s.len() > 0 {
        crate::text::lemma_find_from(s, seq!['\n'], 0);
        match crate::text::index_of(s, '\n') {
            Some(i) => {
                assert(s.subrange(i, i + 1) == seq!['\n']);
                assert(s[i] == s.subrange(i, i + 1)[0]);
                let head = s.take(i);
                let rest = s.skip(i + 1);
                if head.len() > 0 {
                    assert(head.last() == s[i - 1]);
                }
                assert(crate::text::strip_cr(head) == head);
                assert forall|k: int| 0 <= k < rest.len() implies rest[k] != '\r' by {
                    assert(rest[k] == s[i + 1 + k]);
                }
                lemma_lines_rejoin(rest);
                let ls = crate::text::lines(s);
                assert(ls == seq![head] + crate::text::lines(rest));
                assert(ls.drop_first() =~= crate::text::lines(rest));
                assert(ls[0] == head);
                assert(crate::text::join_nl(ls) == head + seq!['\n'] + crate::text::join_nl(crate::text::lines(rest)));
                if rest.len() == 0 {
                    assert(head + seq!['\n'] =~= s);
                } else {
                    assert(s.last() == rest.last());
                    if rest.last() == '\n' {
                        assert(head + seq!['\n'] + rest =~= s);
                    } else {
                        assert(head + seq!['\n'] + rest.push('\n') =~= s.push('\n'));
                    }
                }
            },
            None => {
                assert(s.last() != '\n') by {
                    assert(!crate::text::matches_at(s, seq!['\n'], s.len() - 1));
                    assert(s.subrange(s.len() - 1, s.len() as int) =~= seq![s.last()]);
                }
                let ls = crate::text::lines(s);
                assert(ls == seq![s]);
                assert(ls.drop_first() =~= Seq::<Seq<char>>::empty());
                assert(crate::text::join_nl(ls) == s + seq!['\n'] + crate::text::join_nl(ls.drop_first()));
                assert(s + seq!['\n'] + Seq::<char>::empty() =~= s.push('\n'));
            },
        }
    }
}

/// Without `whites` lines the scan copies every line and stays outside a list.
proof fn lemma_whites_copy(ls: Seq<Seq<char>>, path: Seq<char>)
    requires
        forall|i: int| 0 <= i < ls.len() ==> crate::text::line_key(#[trigger] ls[i]) != "whites"@,
    ensures
        crate::text::fold_lines(ls, crate::nacos_yaml::WhitesState { in_whites: false, indent: 0, added: false }, crate::nacos_yaml::whites_step(path)) == crate::text::join_nl(ls),
        crate::text::fold_state(ls, crate::nacos_yaml::WhitesState { in_whites: false, indent: 0, added: false }, crate::nacos_yaml::whites_step(path)) == (crate::nacos_yaml::WhitesState { in_whites: false, indent: 0, added: false }),
    decreases ls.len(),
{
    if ls.len() > 0 {
        assert(crate::text::line_key(ls[0]) != "whites"@);
        assert forall|i: int| 0 <= i < ls.drop_first().len() implies crate::text::line_key(#[trigger] ls.drop_first()[i]) != "whites"@ by {
            assert(ls.drop_first()[i] == ls[i + 1]);
        }
        lemma_whites_copy(ls.drop_first(), path);
    }
}

/// Adding a path to the gateway whitelist is idempotent on every text that
/// holds the path, has a `whites` line or a `security:` section, or has no
/// carriage return. (A text with none of these and with `\r\r\n` endings, such
/// as `"a\r\r\n"`, loses one `\r` per call, as the line split drops it.)
pub proof fn law_whitelist_idempotent(yaml: Seq<char>, path: Seq<char>)
    requires
        contains(yaml, path) || has_whites_line(yaml) || contains(yaml, "security:"@) || no_cr(yaml),
    ensures
        crate::nacos_yaml::whitelisted(crate::nacos_yaml::whitelisted(yaml, path), path)
            == crate::nacos_yaml::whitelisted(yaml, path),
{
    law_whitelist_settles(yaml, path);
    if !(contains(yaml, path) || has_whites_line(yaml) || contains(yaml, "security:"@)) {
        let ls = crate::text::lines(yaml);
        assert forall|i: int| 0 <= i < ls.len() implies crate::text::line_key(#[trigger] ls[i]) != "whites"@ by {
            if crate::text::line_key(ls[i]) == "whites"@ {
                assert(has_whites_line(yaml));
            }
        }
        lemma_whites_copy(ls, path);
        lemma_lines_rejoin(yaml);
        assert(crate::nacos_yaml::whitelisted(yaml, path) == yaml);
    }
}


// ---------------------------------------------------------------------------
// Nacos write-back
// ---------------------------------------------------------------------------

/// Writing configurations back keeps the script text before its first
/// `config_info` INSERT unchanged: whenever the write-back succeeds, the script
/// has such an INSERT and the written text starts with everything before it.
pub proof fn law_write_back_keeps_leading_text(sql: Seq<char>, cs: Seq<crate::nacos_sql::ConfigModel>)
    requires
        crate::nacos_sql::written_back(sql, cs) is Ok,
    ensures
        crate::nacos_sql::insert_span(sql, "config_info"@, 0) matches Some((a, b))
            && 0 <= a <= sql.len()
            && a <= crate::nacos_sql::written_back(sql, cs)->Ok_0.len()
            && crate::nacos_sql::written_back(sql, cs)->Ok_0.take(a) == sql.take(a),
{
    crate::nacos_sql::lemma_insert_span_bounds(sql, "config_info"@, 0);
    let (a, b) = crate::nacos_sql::insert_span(sql, "config_info"@, 0)->Some_0;
    let w = crate::nacos_sql::written_back(sql, cs)->Ok_0;
    assert(w.take(a) =~= sql.take(a));
}


/// The index of the first raw name whose key is `x`, or -1 when none has it.
pub open spec fn first_key_at(m: Seq<Seq<char>>, x: Seq<char>) -> int
    decreases m.len(),
{
    if m.len() == 0 {
        -1
    } else if first_key_at(m.drop_last(), x) >= 0 {
        first_key_at(m.drop_last(), x)
    } else if crate::new_module::name_key(m.last()) == x {
        m.len() - 1
    } else {
        -1
    }
}

proof fn lemma_first_key_at(m: Seq<Seq<char>>, x: Seq<char>)
    ensures
        -1 <= first_key_at(m, x) < m.len(),
        first_key_at(m, x) >= 0 <==> exists|i: int| 0 <= i < m.len() && crate::new_module::name_key(#[trigger] m[i]) == x,
    decreases m.len(),
{
    if m.len() > 0 {
        lemma_first_key_at(m.drop_last(), x);
        if exists|i: int| 0 <= i < m.len() && crate::new_module::name_key(#[trigger] m[i]) == x {
            let i = choose|i: int| 0 <= i < m.len() && crate::new_module::name_key(#[trigger] m[i]) == x;
            if i < m.len() - 1 {
                assert(m.drop_last()[i] == m[i]);
            }
        }
        if first_key_at(m.drop_last(), x) >= 0 {
            let i = choose|i: int| 0 <= i < m.drop_last().len() && crate::new_module::name_key(#[trigger] m.drop_last()[i]) == x;
            assert(m[i] == m.drop_last()[i]);
        }
    }
}

/// Normalized new module names come in the order in which their keys first
/// appear among the raw names.
pub proof fn law_normalized_names_keep_first_order(m: Seq<Seq<char>>)
    ensures
        forall|i: int| 0 <= i < crate::new_module::norm_names(m).len()
            ==> first_key_at(m, #[trigger] crate::new_module::norm_names(m)[i]) >= 0,
        forall|i: int, j: int| 0 <= i < j < crate::new_module::norm_names(m).len()
            ==> first_key_at(m, #[trigger] crate::new_module::norm_names(m)[i])
                < first_key_at(m, #[trigger] crate::new_module::norm_names(m)[j]),
    decreases m.len(),
{
    if m.len() > 0 {
        let d = m.drop_last();
        let prev = crate::new_module::norm_names(d);
        let r = crate::new_module::norm_names(m);
        law_normalized_names_keep_first_order(d);
        lemma_norm_names_props(d);
        let key = crate::new_module::name_key(m.last());
        assert forall|i: int| 0 <= i < prev.len() implies first_key_at(m, #[trigger] prev[i]) == first_key_at(d, prev[i])
            && 0 <= first_key_at(d, prev[i]) < d.len() by {
            lemma_first_key_at(d, prev[i]);
        }
        if r != prev {
            assert(r == prev.push(key));
            assert(!prev.contains(key));
            lemma_first_key_at(d, key);
            if first_key_at(d, key) >= 0 {
                let k = choose|k: int| 0 <= k < d.len() && crate::new_module::name_key(#[trigger] d[k]) == key;
                assert(key.len() > 0);
                assert(prev.contains(key));
            }
            assert(first_key_at(m, key) == m.len() - 1);
            assert forall|i: int| 0 <= i < r.len() implies first_key_at(m, #[trigger] r[i]) >= 0 by {
                if i < prev.len() {
                    assert(r[i] == prev[i]);
                }
            }
            assert forall|i: int, j: int| 0 <= i < j < r.len() implies first_key_at(m, #[trigger] r[i])
                < first_key_at(m, #[trigger] r[j]) by {
                assert(r[i] == prev[i]);
                if j < prev.len() {
                    assert(r[j] == prev[j]);
                } else {
                    assert(r[j] == key);
                }
            }
        }
    }
}


/// A configuration text without backslashes, written into the script as its
/// `content` literal, reads back unchanged: the value reader takes the escaped
/// text as the string's body and stops after the closing quote, whatever
/// follows; unescaping the body, as reading a configuration does, gives the
/// text back.
pub proof fn law_content_reads_back(content: Seq<char>, tail: Seq<char>)
    requires
        crate::nacos_sql::no_backslash(content),
    ensures
        crate::nacos_sql::value_at(seq!['\''] + crate::nacos_sql::escape(content) + seq!['\''] + tail, 0)
            == Ok::<(crate::nacos_sql::SqlValueModel, int), crate::nacos_sql::SqlError>(
            (crate::nacos_sql::SqlValueModel::Str(crate::nacos_sql::escape(content)), crate::nacos_sql::escape(content).len() as int + 2),
        ),
        crate::nacos_sql::unescape(crate::nacos_sql::escape(content)) == content,
{
    crate::nacos_sql::lemma_escape_safe(content);
    crate::nacos_sql::lemma_read_quoted(crate::nacos_sql::escape(content), tail);
    crate::nacos_sql::lemma_escape_roundtrip(content);
}

/// A `data_id` or `md5` without backslashes and quotes, written into the
/// script as a string literal, reads back as the same text.
pub proof fn law_plain_value_reads_back(text: Seq<char>, tail: Seq<char>)
    requires
        crate::nacos_sql::plain_text(text),
    ensures
        crate::nacos_sql::value_at(seq!['\''] + crate::nacos_sql::escape_plain(text) + seq!['\''] + tail, 0)
            == Ok::<(crate::nacos_sql::SqlValueModel, int), crate::nacos_sql::SqlError>(
            (crate::nacos_sql::SqlValueModel::Str(text), text.len() as int + 2),
        ),
{
    crate::nacos_sql::lemma_escape_plain_id(text);
    crate::nacos_sql::lemma_read_quoted(text, tail);
}


// ---------------------------------------------------------------------------
// Planning: the SMS login task
// ---------------------------------------------------------------------------

/// Some task of the list has kind `k`.
pub open spec fn has_kind(s: Seq<crate::planner::TaskShape>, k: crate::task::TaskType) -> bool {
    exists|i: int| 0 <= i < s.len() && (#[trigger] s[i]).kind == k
}

proof fn lemma_has_kind_concat(a: Seq<crate::planner::TaskShape>, b: Seq<crate::planner::TaskShape>, k: crate::task::TaskType)
    ensures
        has_kind(a + b, k) <==> has_kind(a, k) || has_kind(b, k),
{
    if has_kind(a, k) {
        let i = choose|i: int| 0 <= i < a.len() && (#[trigger] a[i]).kind == k;
        assert((a + b)[i] == a[i]);
    }
    if has_kind(b, k) {
        let i = choose|i: int| 0 <= i < b.len() && (#[trigger] b[i]).kind == k;
        assert((a + b)[a.len() + i] == b[i]);
    }
    if has_kind(a + b, k) {
        let i = choose|i: int| 0 <= i < (a + b).len() && (#[trigger] (a + b)[i]).kind == k;
        if i < a.len() {
            assert(a[i] == (a + b)[i]);
        } else {
            assert(b[i - a.len()] == (a + b)[i]);
        }
    }
}

proof fn lemma_no_kind(s: Seq<crate::planner::TaskShape>, k: crate::task::TaskType)
    requires
        forall|i: int| 0 <= i < s.len() ==> (#[trigger] s[i]).kind != k,
    ensures
        !has_kind(s, k),
{
}

proof fn lemma_no_sms_in_packages(
    info: crate::params::ProjectInfo,
    p: crate::params::CustomizeParams,
    template: crate::rules::Template,
    f: crate::planner::PlanFacts,
)
    ensures
        !has_kind(crate::planner::seg_packages(info, p, f), crate::task::TaskType::SetupSmsLogin),
{
    reveal(crate::planner::seg_packages);
    let s = crate::planner::seg_packages(info, p, f);
    assert forall|i: int| 0 <= i < s.len() implies (#[trigger] s[i]).kind != crate::task::TaskType::SetupSmsLogin by {
    }
}

proof fn lemma_no_sms_in_frontend_config(
    info: crate::params::ProjectInfo,
    p: crate::params::CustomizeParams,
    template: crate::rules::Template,
    f: crate::planner::PlanFacts,
)
    ensures
        !has_kind(crate::planner::seg_frontend_config(info, p, f), crate::task::TaskType::SetupSmsLogin),
{
    reveal(crate::planner::seg_frontend_config);
    let s = crate::planner::seg_frontend_config(info, p, f);
    assert forall|i: int| 0 <= i < s.len() implies (#[trigger] s[i]).kind != crate::task::TaskType::SetupSmsLogin by {
    }
}

proof fn lemma_no_sms_in_mybatis(
    info: crate::params::ProjectInfo,
    p: crate::params::CustomizeParams,
    template: crate::rules::Template,
    f: crate::planner::PlanFacts,
)
    ensures
        !has_kind(crate::planner::seg_mybatis(info, p, f), crate::task::TaskType::SetupSmsLogin),
{
    reveal(crate::planner::seg_mybatis);
    let s = crate::planner::seg_mybatis(info, p, f);
    assert forall|i: int| 0 <= i < s.len() implies (#[trigger] s[i]).kind != crate::task::TaskType::SetupSmsLogin by {
    }
}

proof fn lemma_no_sms_in_uniapp(
    info: crate::params::ProjectInfo,
    p: crate::params::CustomizeParams,
    template: crate::rules::Template,
    f: crate::planner::PlanFacts,
)
    ensures
        !has_kind(crate::planner::seg_uniapp(info, p, f), crate::task::TaskType::SetupSmsLogin),
{
    reveal(crate::planner::seg_uniapp);
    let s = crate::planner::seg_uniapp(info, p, f);
    assert forall|i: int| 0 <= i < s.len() implies (#[trigger] s[i]).kind != crate::task::TaskType::SetupSmsLogin by {
    }
}

proof fn lemma_no_sms_in_replace_ui(
    info: crate::params::ProjectInfo,
    p: crate::params::CustomizeParams,
    template: crate::rules::Template,
    f: crate::planner::PlanFacts,
)
    ensures
        !has_kind(crate::planner::seg_replace_ui(info, p, f), crate::task::TaskType::SetupSmsLogin),
{
    reveal(crate::planner::seg_replace_ui);
    let s = crate::planner::seg_replace_ui(info, p, f);
    assert forall|i: int| 0 <= i < s.len() implies (#[trigger] s[i]).kind != crate::task::TaskType::SetupSmsLogin by {
    }
}

proof fn lemma_no_sms_in_oss(
    info: crate::params::ProjectInfo,
    p: crate::params::CustomizeParams,
    template: crate::rules::Template,
    f: crate::planner::PlanFacts,
)
    ensures
        !has_kind(crate::planner::seg_oss(info, p, f), crate::task::TaskType::SetupSmsLogin),
{
    reveal(crate::planner::seg_oss);
    let s = crate::planner::seg_oss(info, p, f);
    assert forall|i: int| 0 <= i < s.len() implies (#[trigger] s[i]).kind != crate::task::TaskType::SetupSmsLogin by {
    }
}

proof fn lemma_no_sms_in_sql(
    info: crate::params::ProjectInfo,
    p: crate::params::CustomizeParams,
    template: crate::rules::Template,
    f: crate::planner::PlanFacts,
)
    ensures
        !has_kind(crate::planner::seg_sql(info, p, f), crate::task::TaskType::SetupSmsLogin),
{
    reveal(crate::planner::seg_sql);
    let s = crate::planner::seg_sql(info, p, f);
    assert forall|i: int| 0 <= i < s.len() implies (#[trigger] s[i]).kind != crate::task::TaskType::SetupSmsLogin by {
    }
}

proof fn lemma_no_sms_in_modules(
    info: crate::params::ProjectInfo,
    p: crate::params::CustomizeParams,
    template: crate::rules::Template,
    f: crate::planner::PlanFacts,
)
    ensures
        !has_kind(crate::planner::seg_modules(info, p, f), crate::task::TaskType::SetupSmsLogin),
{
    reveal(crate::planner::seg_modules);
    let s = crate::planner::seg_modules(info, p, f);
    assert forall|i: int| 0 <= i < s.len() implies (#[trigger] s[i]).kind != crate::task::TaskType::SetupSmsLogin by {
    }
}

proof fn lemma_no_sms_in_pages(
    info: crate::params::ProjectInfo,
    p: crate::params::CustomizeParams,
    template: crate::rules::Template,
    f: crate::planner::PlanFacts,
)
    ensures
        !has_kind(crate::planner::seg_pages(info, p, f), crate::task::TaskType::SetupSmsLogin),
{
    reveal(crate::planner::seg_pages);
    let s = crate::planner::seg_pages(info, p, f);
    assert forall|i: int| 0 <= i < s.len() implies (#[trigger] s[i]).kind != crate::task::TaskType::SetupSmsLogin by {
    }
}

proof fn lemma_no_sms_in_tools(
    info: crate::params::ProjectInfo,
    p: crate::params::CustomizeParams,
    template: crate::rules::Template,
    f: crate::planner::PlanFacts,
)
    ensures
        !has_kind(crate::planner::seg_tools(info, p, f), crate::task::TaskType::SetupSmsLogin),
{
    reveal(crate::planner::seg_tools);
    let s = crate::planner::seg_tools(info, p, f);
    assert forall|i: int| 0 <= i < s.len() implies (#[trigger] s[i]).kind != crate::task::TaskType::SetupSmsLogin by {
    }
}

proof fn lemma_no_sms_in_scripts(
    info: crate::params::ProjectInfo,
    p: crate::params::CustomizeParams,
    template: crate::rules::Template,
    f: crate::planner::PlanFacts,
)
    ensures
        !has_kind(crate::planner::seg_scripts(info, p, f), crate::task::TaskType::SetupSmsLogin),
{
    reveal(crate::planner::seg_scripts);
    let s = crate::planner::seg_scripts(info, p, f);
    assert forall|i: int| 0 <= i < s.len() implies (#[trigger] s[i]).kind != crate::task::TaskType::SetupSmsLogin by {
    }
}

proof fn lemma_no_sms_in_finish(
    info: crate::params::ProjectInfo,
    p: crate::params::CustomizeParams,
    template: crate::rules::Template,
    f: crate::planner::PlanFacts,
)
    ensures
        !has_kind(crate::planner::seg_finish(p, f, crate::planner::has_frontend(template)), crate::task::TaskType::SetupSmsLogin),
{
    reveal(crate::planner::seg_finish);
    let s = crate::planner::seg_finish(p, f, crate::planner::has_frontend(template));
    assert forall|i: int| 0 <= i < s.len() implies (#[trigger] s[i]).kind != crate::task::TaskType::SetupSmsLogin by {
    }
}


proof fn lemma_pre_no_sms(
    info: crate::params::ProjectInfo,
    p: crate::params::CustomizeParams,
    template: crate::rules::Template,
    f: crate::planner::PlanFacts,
)
    ensures
        !has_kind(
            crate::planner::seg_packages(info, p, f) + crate::planner::seg_frontend_config(info, p, f)
                + crate::planner::seg_mybatis(info, p, f) + crate::planner::seg_uniapp(info, p, f)
                + crate::planner::seg_replace_ui(info, p, f) + crate::planner::seg_oss(info, p, f),
            crate::task::TaskType::SetupSmsLogin,
        ),
{
    let k = crate::task::TaskType::SetupSmsLogin;
    let s1 = crate::planner::seg_packages(info, p, f);
    let s2 = crate::planner::seg_frontend_config(info, p, f);
    let s3 = crate::planner::seg_mybatis(info, p, f);
    let s4 = crate::planner::seg_uniapp(info, p, f);
    let s5 = crate::planner::seg_replace_ui(info, p, f);
    let s6 = crate::planner::seg_oss(info, p, f);
    lemma_no_sms_in_packages(info, p, template, f);
    lemma_no_sms_in_frontend_config(info, p, template, f);
    lemma_no_sms_in_mybatis(info, p, template, f);
    lemma_no_sms_in_uniapp(info, p, template, f);
    lemma_no_sms_in_replace_ui(info, p, template, f);
    lemma_no_sms_in_oss(info, p, template, f);
    lemma_has_kind_concat(s1, s2, k);
    lemma_has_kind_concat(s1 + s2, s3, k);
    lemma_has_kind_concat(s1 + s2 + s3, s4, k);
    lemma_has_kind_concat(s1 + s2 + s3 + s4, s5, k);
    lemma_has_kind_concat(s1 + s2 + s3 + s4 + s5, s6, k);
}

proof fn lemma_post_no_sms(
    info: crate::params::ProjectInfo,
    p: crate::params::CustomizeParams,
    template: crate::rules::Template,
    f: crate::planner::PlanFacts,
)
    ensures
        !has_kind(
            crate::planner::seg_sql(info, p, f) + crate::planner::seg_modules(info, p, f)
                + crate::planner::seg_pages(info, p, f) + crate::planner::seg_tools(info, p, f)
                + crate::planner::seg_scripts(info, p, f)
                + crate::planner::seg_finish(p, f, crate::planner::has_frontend(template)),
            crate::task::TaskType::SetupSmsLogin,
        ),
{
    let k = crate::task::TaskType::SetupSmsLogin;
    let s8 = crate::planner::seg_sql(info, p, f);
    let s9 = crate::planner::seg_modules(info, p, f);
    let s10 = crate::planner::seg_pages(info, p, f);
    let s11 = crate::planner::seg_tools(info, p, f);
    let s12 = crate::planner::seg_scripts(info, p, f);
    let s13 = crate::planner::seg_finish(p, f, crate::planner::has_frontend(template));
    lemma_no_sms_in_sql(info, p, template, f);
    lemma_no_sms_in_modules(info, p, template, f);
    lemma_no_sms_in_pages(info, p, template, f);
    lemma_no_sms_in_tools(info, p, template, f);
    lemma_no_sms_in_scripts(info, p, template, f);
    lemma_no_sms_in_finish(info, p, template, f);
    lemma_has_kind_concat(s8, s9, k);
    lemma_has_kind_concat(s8 + s9, s10, k);
    lemma_has_kind_concat(s8 + s9 + s10, s11, k);
    lemma_has_kind_concat(s8 + s9 + s10 + s11, s12, k);
    lemma_has_kind_concat(s8 + s9 + s10 + s11 + s12, s13, k);
}

/// The SMS login task of the login segment: there exactly when switched on,
/// and every task of that kind in it is the SMS login task.
proof fn lemma_logins_sms(
    info: crate::params::ProjectInfo,
    p: crate::params::CustomizeParams,
    f: crate::planner::PlanFacts,
)
    ensures
        has_kind(crate::planner::seg_logins(info, p, f), crate::task::TaskType::SetupSmsLogin) <==> p.enable_sms_login,
        forall|i: int| 0 <= i < crate::planner::seg_logins(info, p, f).len()
            && (#[trigger] crate::planner::seg_logins(info, p, f)[i]).kind == crate::task::TaskType::SetupSmsLogin
            ==> sms_task_shaped(crate::planner::seg_logins(info, p, f)[i], p),
{
    reveal(crate::planner::seg_logins);
    let k = crate::task::TaskType::SetupSmsLogin;
    let s7 = crate::planner::seg_logins(info, p, f);
    let sms = crate::planner::one_if(
        p.enable_sms_login,
        crate::planner::shape(
            "短信登录（"@ + p.sms_provider@ + "）：发码/登录接口 + SysLoginService.smsLogin"@,
            k,
            crate::task::RiskLevel::Medium,
            seq!["SysLoginService.java"@, "SecurityConfig.java"@],
            Seq::empty(),
            seq!["SmsAuthController.java"@, "SmsCodeService.java"@],
        ),
    );
    let rest7 = s7.skip(sms.len() as int);
    assert(s7 =~= sms + rest7);
    assert forall|i: int| 0 <= i < rest7.len() implies (#[trigger] rest7[i]).kind != k by {
        assert(rest7[i] == s7[i + sms.len()]);
    }
    lemma_has_kind_concat(sms, rest7, k);
    if p.enable_sms_login {
        assert(sms[0].kind == k);
    }
    assert forall|i: int| 0 <= i < s7.len() && (#[trigger] s7[i]).kind == k implies sms_task_shaped(s7[i], p) by {
        if i >= sms.len() {
            assert(s7[i] == rest7[i - sms.len()]);
        } else {
            assert(s7[i] == sms[i]);
        }
    }
}

/// The SMS login task as the plan describes it.
pub open spec fn sms_task_shaped(t: crate::planner::TaskShape, p: crate::params::CustomizeParams) -> bool {
    &&& t.name == "短信登录（"@ + p.sms_provider@ + "）：发码/登录接口 + SysLoginService.smsLogin"@
    &&& t.files == seq!["SysLoginService.java"@, "SecurityConfig.java"@]
    &&& t.created == seq!["SmsAuthController.java"@, "SmsCodeService.java"@]
}

/// A list made of three parts, only the middle one holding kind `k`: the list
/// holds `k` exactly when the middle does, and each such task is one of it.
proof fn lemma_kind_only_in_middle(
    pre: Seq<crate::planner::TaskShape>,
    mid: Seq<crate::planner::TaskShape>,
    post: Seq<crate::planner::TaskShape>,
    k: crate::task::TaskType,
)
    requires
        !has_kind(pre, k),
        !has_kind(post, k),
    ensures
        has_kind(pre + mid + post, k) <==> has_kind(mid, k),
        forall|i: int| 0 <= i < (pre + mid + post).len() && (#[trigger] (pre + mid + post)[i]).kind == k
            ==> 0 <= i - pre.len() < mid.len() && (pre + mid + post)[i] == mid[i - pre.len()],
{
    lemma_has_kind_concat(pre, mid, k);
    lemma_has_kind_concat(pre + mid, post, k);
    assert forall|i: int| 0 <= i < (pre + mid + post).len() && (#[trigger] (pre + mid + post)[i]).kind == k
        implies 0 <= i - pre.len() < mid.len() && (pre + mid + post)[i] == mid[i - pre.len()] by {
        let all = pre + mid + post;
        if i < pre.len() {
            assert(all[i] == pre[i]);
            assert(has_kind(pre, k));
        } else if i >= pre.len() + mid.len() {
            assert(all[i] == post[i - pre.len() - mid.len()]);
            assert(has_kind(post, k));
        }
    }
}

/// The plan holds an SMS login task exactly when SMS login is switched on;
/// that task is named after the SMS vendor, touches `SysLoginService.java` and
/// `SecurityConfig.java`, and creates the two SMS classes.
#[verifier::spinoff_prover]
#[verifier::rlimit(40)]
pub proof fn law_plan_sms_login(
    info: crate::params::ProjectInfo,
    p: crate::params::CustomizeParams,
    template: crate::rules::Template,
    f: crate::planner::PlanFacts,
)
    ensures
        has_kind(crate::planner::planned(info, p, template, f), crate::task::TaskType::SetupSmsLogin) <==> p.enable_sms_login,
        forall|i: int| 0 <= i < crate::planner::planned(info, p, template, f).len()
            && (#[trigger] crate::planner::planned(info, p, template, f)[i]).kind == crate::task::TaskType::SetupSmsLogin
            ==> sms_task_shaped(crate::planner::planned(info, p, template, f)[i], p),
{
    let k = crate::task::TaskType::SetupSmsLogin;
    lemma_pre_no_sms(info, p, template, f);
    lemma_post_no_sms(info, p, template, f);
    lemma_logins_sms(info, p, f);
    let pre = crate::planner::seg_packages(info, p, f) + crate::planner::seg_frontend_config(info, p, f)
        + crate::planner::seg_mybatis(info, p, f) + crate::planner::seg_uniapp(info, p, f)
        + crate::planner::seg_replace_ui(info, p, f) + crate::planner::seg_oss(info, p, f);
    let mid = crate::planner::seg_logins(info, p, f);
    let post = crate::planner::seg_sql(info, p, f) + crate::planner::seg_modules(info, p, f)
        + crate::planner::seg_pages(info, p, f) + crate::planner::seg_tools(info, p, f)
        + crate::planner::seg_scripts(info, p, f)
        + crate::planner::seg_finish(p, f, crate::planner::has_frontend(template));
    let all = crate::planner::planned_tasks(info, p, template, f);
    assert(all =~= pre + mid + post);
    lemma_kind_only_in_middle(pre, mid, post, k);
    let pl = crate::planner::planned(info, p, template, f);
    assert(pl.len() == all.len());
    if has_kind(all, k) {
        let i = choose|i: int| 0 <= i < all.len() && (#[trigger] all[i]).kind == k;
        assert(pl[i].kind == all[i].kind);
    }
    if has_kind(pl, k) {
        let i = choose|i: int| 0 <= i < pl.len() && (#[trigger] pl[i]).kind == k;
        assert(pl[i].kind == all[i].kind);
    }
    assert forall|i: int| 0 <= i < pl.len() && (#[trigger] pl[i]).kind == k implies sms_task_shaped(pl[i], p) by {
        assert(pl[i].kind == all[i].kind);
        assert(all[i] == mid[i - pre.len()]);
        assert(mid[i - pre.len()].kind == k);
    }
}


// ---------------------------------------------------------------------------
// SQL script customization: the "changed" flag
// ---------------------------------------------------------------------------

/// Customizing one SQL script reports a change whenever it replaced a database
/// name or removed a Quartz block, and a script reported unchanged comes back
/// exactly as it was (so it need not be written).
pub proof fn law_sql_changed_flag(
    content: Seq<char>,
    new_db: Seq<char>,
    admin_hash: Option<Seq<char>>,
    clean_demo_users: bool,
    clean_quartz: bool,
)
    ensures
        ({
            let r = crate::sql_customize::sql_customized(content, new_db, admin_hash, clean_demo_users, clean_quartz);
            &&& r.3 > 0 ==> r.1
            &&& r.2 > 0 ==> r.1
            &&& !r.1 ==> r.0 == content
            &&& !clean_quartz ==> r.3 == 0
        }),
{
    let c = content;
    let n = crate::sql_customize::matches_in(crate::sql_customize::db_name_pattern(), c);
    if n == 0 {
        let q = crate::sql_customize::quartz_removed(c);
        if q.1 == 0 {
            let parts = crate::sql_customize::split_on(c, crate::sql_customize::block_separator());
            assert(q.0 == c);
        }
    }
}


// ---------------------------------------------------------------------------
// Validation of a generated business module
// ---------------------------------------------------------------------------

/// A generated business module passes its check only when everything it
/// needs is there. Always: its directory exists and its HealthController
/// imports `AjaxResult` from the edition's package. Single-app: the root pom
/// declares `<module>{prefix}-{name}</module>` and the admin pom depends on
/// `{prefix}-{name}`. Cloud: `{prefix}-modules/pom.xml` declares the module, the
/// root pom does not, the Nacos script has its `-dev.yml` data id and gateway
/// route, its bootstrap has the Nacos anchor and its logback file writes to `logs`.
pub proof fn law_generated_module_pass(full: Seq<char>, is_cloud: bool, f: crate::validator::GeneratedModuleFiles)
    ensures
        crate::validator::module_gaps(full, is_cloud, f).len() == 0 ==> {
            let tag = "<module>"@ + full + "</module>"@;
            &&& f.dir_exists
            &&& (!is_cloud ==> {
                &&& contains(f.root_pom@, tag)
                &&& contains(f.admin_pom@, "<artifactId>"@ + full + "</artifactId>"@)
                &&& (f.health matches Some(h) && contains(h@, "common.core.domain.AjaxResult"@))
            })
            &&& (is_cloud ==> {
                &&& contains(f.modules_pom@, tag)
                &&& !contains(f.root_pom@, tag)
                &&& crate::validator::config_has_data_id(match f.config_sql { Some(c) => Some(c@), None => None }, full)
                &&& crate::validator::config_has_route(match f.config_sql { Some(c) => Some(c@), None => None }, full)
                &&& (f.health matches Some(h) && contains(h@, "common.core.web.domain.AjaxResult"@))
                &&& crate::validator::bootstrap_has_nacos(f.bootstrap@)
                &&& (f.logback matches Some(l) && !crate::validator::logback_lacks_logs(l@))
            })
        },
{
}


// ---------------------------------------------------------------------------
// New module skeleton: the MySQL driver of a Cloud module
// ---------------------------------------------------------------------------

/// The value every placeholder named `key` is given, when all agree.
pub open spec fn placeholder_values(ps: Seq<(Seq<char>, Seq<char>)>, key: Seq<char>, value: Seq<char>) -> bool {
    &&& exists|i: int| 0 <= i < ps.len() && (#[trigger] ps[i]).0 == key
    &&& forall|i: int| 0 <= i < ps.len() && (#[trigger] ps[i]).0 == key ==> ps[i].1 == value
}

/// A Cloud module's pom gets the MySQL driver of its Spring Boot generation:
/// `mysql:mysql-connector-java` up to Boot 2, `com.mysql:mysql-connector-j` from
/// Boot 3; a single-app module gets no driver placeholders.
pub proof fn law_module_mysql_driver(
    pkg: Seq<char>,
    prefix: Seq<char>,
    name: Seq<char>,
    port: i32,
    version: Seq<char>,
    is_cloud: bool,
    boot_major: u32,
)
    ensures
        ({
            let ps = crate::new_module::module_placeholders_of(pkg, prefix, name, port, version, is_cloud, boot_major);
            &&& (is_cloud && boot_major <= 2 ==> placeholder_values(ps, "{{MYSQL_GROUP}}"@, "mysql"@)
                && placeholder_values(ps, "{{MYSQL_ARTIFACT}}"@, "mysql-connector-java"@))
            &&& (is_cloud && boot_major >= 3 ==> placeholder_values(ps, "{{MYSQL_GROUP}}"@, "com.mysql"@)
                && placeholder_values(ps, "{{MYSQL_ARTIFACT}}"@, "mysql-connector-j"@))
            &&& (!is_cloud ==> forall|i: int| 0 <= i < ps.len() ==> (#[trigger] ps[i]).0 != "{{MYSQL_GROUP}}"@
                && ps[i].0 != "{{MYSQL_ARTIFACT}}"@)
        }),
{
    reveal_strlit("{{PACKAGE}}");
    reveal_strlit("{{PREFIX}}");
    reveal_strlit("{{NAME}}");
    reveal_strlit("{{CLASS_NAME}}");
    reveal_strlit("{{PKG_SEGMENT}}");
    reveal_strlit("{{PORT}}");
    reveal_strlit("{{VERSION}}");
    reveal_strlit("{{MYSQL_GROUP}}");
    reveal_strlit("{{MYSQL_ARTIFACT}}");
    let ps = crate::new_module::module_placeholders_of(pkg, prefix, name, port, version, is_cloud, boot_major);
    let keys = seq!["{{PACKAGE}}"@, "{{PREFIX}}"@, "{{NAME}}"@, "{{CLASS_NAME}}"@, "{{PKG_SEGMENT}}"@, "{{PORT}}"@, "{{VERSION}}"@];
    assert forall|j: int| 0 <= j < 7 implies keys[j] != "{{MYSQL_GROUP}}"@ && keys[j] != "{{MYSQL_ARTIFACT}}"@ by {
        assert(keys[j][2] != 'M' || keys[j].len() != 15);
        assert(keys[j][2] != 'M' || keys[j].len() != 18);
    }
    assert("{{MYSQL_GROUP}}"@ != "{{MYSQL_ARTIFACT}}"@) by {
        assert("{{MYSQL_GROUP}}"@.len() != "{{MYSQL_ARTIFACT}}"@.len());
    }
    assert forall|i: int| 0 <= i < 7 implies ps[i].0 == keys[i] by {}
    if is_cloud {
        assert(ps[7].0 == "{{MYSQL_GROUP}}"@);
        assert(ps[8].0 == "{{MYSQL_ARTIFACT}}"@);
    }
}


// ---------------------------------------------------------------------------
// Sentinel gateway rules of removed modules
// ---------------------------------------------------------------------------

/// Whether removing module `key` retires the Sentinel gateway resource `res`:
/// `gen` the code generator's `/code/**`, `job` the scheduler's `/schedule/**`,
/// `file` `/file/**`, `monitor` `/monitor/**`.
pub open spec fn retires_resource(key: Seq<char>, res: Seq<char>) -> bool {
    ||| key == "gen"@ && res == "/code/**"@
    ||| key == "job"@ && res == "/schedule/**"@
    ||| key == "file"@ && res == "/file/**"@
    ||| key == "monitor"@ && res == "/monitor/**"@
}

/// Whether some removed module retires `res`.
pub open spec fn retired_by(keys: Seq<Seq<char>>, res: Seq<char>) -> bool {
    exists|j: int| 0 <= j < keys.len() && retires_resource(#[trigger] keys[j], res)
}

/// The texts of the rules whose resource no removed module retires, in order
/// (a rule without a resource counts as resource `""`).
pub open spec fn surviving_rules(items: Seq<(Option<Seq<char>>, Seq<char>)>, keys: Seq<Seq<char>>) -> Seq<Seq<char>>
    decreases items.len(),
{
    if items.len() == 0 {
        Seq::empty()
    } else {
        let res = match items.last().0 {
            Some(r) => r,
            None => Seq::empty(),
        };
        if retired_by(keys, res) {
            surviving_rules(items.drop_last(), keys)
        } else {
            surviving_rules(items.drop_last(), keys).push(items.last().1)
        }
    }
}

proof fn lemma_sentinel_paths_retire(keys: Seq<Seq<char>>, res: Seq<char>)
    ensures
        crate::nacos_yaml::sentinel_paths(keys).contains(res) <==> retired_by(keys, res),
    decreases keys.len(),
{
    reveal_strlit("gen");
    reveal_strlit("job");
    reveal_strlit("file");
    reveal_strlit("monitor");
    reveal_strlit("/code/**");
    reveal_strlit("/schedule/**");
    reveal_strlit("/file/**");
    reveal_strlit("/monitor/**");
    if keys.len() > 0 {
        let d = keys.drop_last();
        let k = keys.last();
        lemma_sentinel_paths_retire(d, res);
        let a = crate::nacos_yaml::sentinel_paths(d);
        let b = crate::nacos_yaml::sentinel_paths_of(k);
        assert(crate::nacos_yaml::sentinel_paths(keys) == a + b);
        assert(b.contains(res) <==> retires_resource(k, res)) by {
            assert("gen"@ != "job"@ && "gen"@ != "file"@ && "gen"@ != "monitor"@ && "job"@ != "file"@
                && "job"@ != "monitor"@ && "file"@ != "monitor"@) by {
                assert("gen"@[0] != "job"@[0] && "gen"@[0] != "file"@[0] && "gen"@[0] != "monitor"@[0]);
                assert("job"@[0] != "file"@[0] && "job"@[0] != "monitor"@[0] && "file"@[0] != "monitor"@[0]);
            }
            if k == "gen"@ || k == "job"@ || k == "file"@ || k == "monitor"@ {
                assert(b.len() == 1);
                if res == b[0] {
                    assert(b.contains(res));
                }
            } else {
                assert(b.len() == 0);
            }
        }
        if (a + b).contains(res) {
            let i = choose|i: int| 0 <= i < (a + b).len() && (a + b)[i] == res;
            if i < a.len() {
                assert(a[i] == (a + b)[i]);
                let j = choose|j: int| 0 <= j < d.len() && retires_resource(#[trigger] d[j], res);
                assert(keys[j] == d[j]);
            } else {
                assert(b[i - a.len()] == (a + b)[i]);
                assert(keys[keys.len() - 1] == k);
            }
        }
        if retired_by(keys, res) {
            let j = choose|j: int| 0 <= j < keys.len() && retires_resource(#[trigger] keys[j], res);
            if j < d.len() {
                assert(d[j] == keys[j]);
                let i = choose|i: int| 0 <= i < a.len() && a[i] == res;
                assert((a + b)[i] == a[i]);
            } else {
                let i = choose|i: int| 0 <= i < b.len() && b[i] == res;
                assert((a + b)[a.len() + i] == b[i]);
            }
        }
    }
}

proof fn lemma_kept_are_survivors(items: Seq<(Option<Seq<char>>, Seq<char>)>, keys: Seq<Seq<char>>)
    ensures
        crate::nacos_yaml::kept_elements(items, crate::nacos_yaml::sentinel_paths(keys)) == surviving_rules(items, keys),
    decreases items.len(),
{
    if items.len() > 0 {
        lemma_kept_are_survivors(items.drop_last(), keys);
        let res = match items.last().0 {
            Some(r) => r,
            None => Seq::<char>::empty(),
        };
        lemma_sentinel_paths_retire(keys, res);
    }
}

/// Removing modules drops from a Sentinel gateway rule list (a JSON array)
/// exactly the rules whose resource a removed module retires (`job` drops
/// `/schedule/**`, `gen` `/code/**`, `file` `/file/**`, `monitor` `/monitor/**`)
/// and keeps every other rule, in order; text that is not a JSON array is
/// left as it is.
pub proof fn law_sentinel_rules_of_removed_modules(content: Seq<char>, keys: Seq<Seq<char>>)
    ensures
        ({
            let t = crate::text::trim(content);
            let r = crate::nacos_yaml::sentinel_removed(content, keys);
            &&& !(t.len() > 0 && t[0] == '[') ==> r == content
            &&& (t.len() > 0 && t[0] == '[') ==> match crate::ext_calls::json_array_items_of(t) {
                None => r == content,
                Some(items) => r == "["@ + crate::nacos_sql::join(surviving_rules(items, keys), ","@) + "]"@,
            }
        }),
{
    let t = crate::text::trim(content);
    if t.len() > 0 && t[0] == '[' {
        match crate::ext_calls::json_array_items_of(t) {
            None => {},
            Some(items) => {
                lemma_kept_are_survivors(items, keys);
            },
        }
    }
}

/// No surviving rule has a resource that a removed module retires, and every
/// rule whose resource none retires survives.
pub proof fn law_surviving_rules_exact(items: Seq<(Option<Seq<char>>, Seq<char>)>, keys: Seq<Seq<char>>)
    ensures
        surviving_rules(items, keys).len() <= items.len(),
        (forall|i: int| 0 <= i < items.len() ==> !retired_by(keys, match (#[trigger] items[i]).0 {
            Some(r) => r,
            None => Seq::<char>::empty(),
        })) ==> surviving_rules(items, keys) == items.map_values(|it: (Option<Seq<char>>, Seq<char>)| it.1),
    decreases items.len(),
{
    if items.len() > 0 {
        let d = items.drop_last();
        law_surviving_rules_exact(d, keys);
        if forall|i: int| 0 <= i < items.len() ==> !retired_by(keys, match (#[trigger] items[i]).0 {
            Some(r) => r,
            None => Seq::<char>::empty(),
        }) {
            assert forall|i: int| 0 <= i < d.len() implies !retired_by(keys, match (#[trigger] d[i]).0 {
                Some(r) => r,
                None => Seq::<char>::empty(),
            }) by {
                assert(d[i] == items[i]);
            }
            assert(items.last() == items[items.len() - 1]);
            assert(items.map_values(|it: (Option<Seq<char>>, Seq<char>)| it.1)
                =~= d.map_values(|it: (Option<Seq<char>>, Seq<char>)| it.1).push(items.last().1));
        }
    } else {
        assert(items.map_values(|it: (Option<Seq<char>>, Seq<char>)| it.1) =~= Seq::<Seq<char>>::empty());
    }
}


// ---------------------------------------------------------------------------
// Planning: which tasks a run plans
// ---------------------------------------------------------------------------

/// 1 when `c` holds, else 0.
pub open spec fn b1(c: bool) -> int {
    if c { 1 } else { 0 }
}

/// A database other than MySQL, on an edition with PostgreSQL templates (an
/// edition not named, or RuoYi-Vue).
pub open spec fn dialect_wanted(info: crate::params::ProjectInfo, p: crate::params::CustomizeParams) -> bool {
    crate::text::lower(crate::text::trim(p.db_type@)) != "mysql"@
        && (info.template_dir@.len() == 0 || info.template_dir@ == "ruoyi-vue"@)
}

/// New business modules are asked for (some name is non-blank) on an edition
/// other than the single app.
pub open spec fn new_modules_wanted(info: crate::params::ProjectInfo, p: crate::params::CustomizeParams) -> bool {
    (exists|i: int| 0 <= i < p.new_modules@.len()
        && crate::new_module::name_key(#[trigger] p.new_modules@[i]@).len() > 0)
        && info.template_dir@ != "ruoyi"@
}

/// The admin account name or nickname is changed.
pub open spec fn admin_changes(p: crate::params::CustomizeParams) -> bool {
    (p.admin_username@.len() > 0 && p.admin_username@ != "admin"@)
        || (p.admin_nickname@.len() > 0 && p.admin_nickname@ != "若依"@)
}

/// When a run plans a task of kind `k`: the five fixed steps always, every
/// other task when its switch (and, where it needs one, what it works on) is there.
pub open spec fn planned_when(k: crate::task::TaskType, info: crate::params::ProjectInfo, p: crate::params::CustomizeParams, template: crate::rules::Template, f: crate::planner::PlanFacts) -> bool {
    match k {
        crate::task::TaskType::ReplacePackageName => true,
        crate::task::TaskType::MovePackageDirectory => true,
        crate::task::TaskType::UpdateMavenPom => true,
        crate::task::TaskType::RenameMavenModule => true,
        crate::task::TaskType::UpdateFrontendTitle => !p.enable_replace_ui,
        crate::task::TaskType::RewriteNacosConfig => (f.is_cloud && (p.enable_config_rewrite || p.enable_sql_customize)),
        crate::task::TaskType::RewriteApplicationProfiles => (!(f.is_cloud && (p.enable_config_rewrite || p.enable_sql_customize)) && p.enable_config_rewrite && info.config_files@.len() > 0),
        crate::task::TaskType::RewriteLogbackPath => p.enable_logback_rewrite && info.logback_files@.len() > 0,
        crate::task::TaskType::InjectColoredConsolePattern => info.logback_files@.len() > 0,
        crate::task::TaskType::AddMybatisPlusDependency => p.enable_mybatis_plus,
        crate::task::TaskType::AddMybatisPlusConfig => p.enable_mybatis_plus,
        crate::task::TaskType::UpdateGeneratorTemplatesForMybatisPlus => p.enable_generator_mybatis_plus && info.generator_template_files@.len() > 0,
        crate::task::TaskType::AddLongIdJsonSerializeAnnotation => p.enable_long_id_json_string && info.generator_template_files@.len() > 0,
        crate::task::TaskType::InjectSnowflakeId => p.enable_snowflake_id,
        crate::task::TaskType::GenerateUniappProject => p.enable_uniapp,
        crate::task::TaskType::AppendWechatConfig => p.enable_uniapp,
        crate::task::TaskType::SetupWechatLogin => p.enable_uniapp,
        crate::task::TaskType::AddWechatPayDependency => p.enable_uniapp && p.pay_included,
        crate::task::TaskType::AddWechatPayConfig => p.enable_uniapp && p.pay_included,
        crate::task::TaskType::CreateWechatCertDir => p.enable_uniapp && p.pay_included,
        crate::task::TaskType::ReplaceUI => p.enable_replace_ui,
        crate::task::TaskType::SetupOss => p.enable_oss,
        crate::task::TaskType::SetupSmsLogin => p.enable_sms_login,
        crate::task::TaskType::SetupCaptchaSlider => p.enable_captcha_slider,
        crate::task::TaskType::SetupApiEncrypt => p.enable_api_encrypt,
        crate::task::TaskType::ApplySecurityHardening => p.enable_security || p.enable_jwt,
        crate::task::TaskType::SwitchDatabaseDialect => dialect_wanted(info, p),
        crate::task::TaskType::CustomizeSqlScripts => p.enable_sql_customize,
        crate::task::TaskType::TrimCloudModules => f.is_cloud && p.remove_modules@.len() > 0,
        crate::task::TaskType::GenerateNewModules => new_modules_wanted(info, p),
        crate::task::TaskType::RenameAdminAccount => p.enable_sql_customize && admin_changes(p),
        crate::task::TaskType::CustomizeWebFooter => p.enable_footer_icp,
        crate::task::TaskType::CustomizeSiteSettings => p.enable_site_settings,
        crate::task::TaskType::CustomizeGeneratorConfig => p.enable_generator_config,
        crate::task::TaskType::GenerateAiRules => p.enable_ai_rules,
        crate::task::TaskType::GenerateSubAgents => p.enable_sub_agents,
        crate::task::TaskType::SplitFrontend => p.enable_frontend_split,
        crate::task::TaskType::GenerateNginxConfig => p.enable_nginx_config,
        crate::task::TaskType::GenerateStartupScripts => p.enable_startup_scripts,
        crate::task::TaskType::GenerateBuildScripts => p.enable_startup_scripts,
        crate::task::TaskType::GenerateDevScripts => true,
        crate::task::TaskType::GenerateDevUiScripts => template.module.frontend_modules@.len() > 0,
        crate::task::TaskType::GenerateExportSourceScripts => true,
        crate::task::TaskType::UpdateAdminPomFinalName => true,
        crate::task::TaskType::ValidateProject => true,
        crate::task::TaskType::GenerateReport => p.enable_report,
    }
}

#[verifier::spinoff_prover]
#[verifier::rlimit(40)]
proof fn lemma_kinds_of_packages(info: crate::params::ProjectInfo, p: crate::params::CustomizeParams, template: crate::rules::Template, f: crate::planner::PlanFacts, k: crate::task::TaskType)
    ensures
        has_kind(crate::planner::seg_packages(info, p, f), k) <==> (k is ReplacePackageName || k is MovePackageDirectory || k is UpdateMavenPom || k is RenameMavenModule) && planned_when(k, info, p, template, f),
{
    reveal(crate::planner::seg_packages);
    let s = crate::planner::seg_packages(info, p, f);
    assert forall|i: int| 0 <= i < s.len() && (#[trigger] s[i]).kind == k implies (k is ReplacePackageName || k is MovePackageDirectory || k is UpdateMavenPom || k is RenameMavenModule) && planned_when(k, info, p, template, f) by {
    }
    if true {
        assert(s[0].kind == crate::task::TaskType::ReplacePackageName);
    }
    if true {
        assert(s[1].kind == crate::task::TaskType::MovePackageDirectory);
    }
    if true {
        assert(s[2].kind == crate::task::TaskType::UpdateMavenPom);
    }
    if true {
        assert(s[3].kind == crate::task::TaskType::RenameMavenModule);
    }
    if (k is ReplacePackageName || k is MovePackageDirectory || k is UpdateMavenPom || k is RenameMavenModule) && planned_when(k, info, p, template, f) {
        match k {
            crate::task::TaskType::ReplacePackageName => { assert(s[0].kind == k); },
            crate::task::TaskType::MovePackageDirectory => { assert(s[1].kind == k); },
            crate::task::TaskType::UpdateMavenPom => { assert(s[2].kind == k); },
            crate::task::TaskType::RenameMavenModule => { assert(s[3].kind == k); },
            _ => {},
        }
    }
}

#[verifier::spinoff_prover]
#[verifier::rlimit(40)]
proof fn lemma_kinds_of_frontend_config(info: crate::params::ProjectInfo, p: crate::params::CustomizeParams, template: crate::rules::Template, f: crate::planner::PlanFacts, k: crate::task::TaskType)
    ensures
        has_kind(crate::planner::seg_frontend_config(info, p, f), k) <==> (k is UpdateFrontendTitle || k is RewriteNacosConfig || k is RewriteApplicationProfiles || k is RewriteLogbackPath || k is InjectColoredConsolePattern) && planned_when(k, info, p, template, f),
{
    reveal(crate::planner::seg_frontend_config);
    let s = crate::planner::seg_frontend_config(info, p, f);
    assert forall|i: int| 0 <= i < s.len() && (#[trigger] s[i]).kind == k implies (k is UpdateFrontendTitle || k is RewriteNacosConfig || k is RewriteApplicationProfiles || k is RewriteLogbackPath || k is InjectColoredConsolePattern) && planned_when(k, info, p, template, f) by {
    }
    if !p.enable_replace_ui {
        assert(s[0].kind == crate::task::TaskType::UpdateFrontendTitle);
    }
    if (f.is_cloud && (p.enable_config_rewrite || p.enable_sql_customize)) {
        assert(s[b1(!p.enable_replace_ui)].kind == crate::task::TaskType::RewriteNacosConfig);
    }
    if (!(f.is_cloud && (p.enable_config_rewrite || p.enable_sql_customize)) && p.enable_config_rewrite && info.config_files@.len() > 0) {
        assert(s[b1(!p.enable_replace_ui)].kind == crate::task::TaskType::RewriteApplicationProfiles);
    }
    if p.enable_logback_rewrite && info.logback_files@.len() > 0 {
        assert(s[b1(!p.enable_replace_ui) + b1((f.is_cloud && (p.enable_config_rewrite || p.enable_sql_customize)) || (!(f.is_cloud && (p.enable_config_rewrite || p.enable_sql_customize)) && p.enable_config_rewrite && info.config_files@.len() > 0))].kind == crate::task::TaskType::RewriteLogbackPath);
    }
    if info.logback_files@.len() > 0 {
        assert(s[b1(!p.enable_replace_ui) + b1((f.is_cloud && (p.enable_config_rewrite || p.enable_sql_customize)) || (!(f.is_cloud && (p.enable_config_rewrite || p.enable_sql_customize)) && p.enable_config_rewrite && info.config_files@.len() > 0)) + b1(p.enable_logback_rewrite && info.logback_files@.len() > 0)].kind == crate::task::TaskType::InjectColoredConsolePattern);
    }
    if (k is UpdateFrontendTitle || k is RewriteNacosConfig || k is RewriteApplicationProfiles || k is RewriteLogbackPath || k is InjectColoredConsolePattern) && planned_when(k, info, p, template, f) {
        match k {
            crate::task::TaskType::UpdateFrontendTitle => { assert(s[0].kind == k); },
            crate::task::TaskType::RewriteNacosConfig => { assert(s[b1(!p.enable_replace_ui)].kind == k); },
            crate::task::TaskType::RewriteApplicationProfiles => { assert(s[b1(!p.enable_replace_ui)].kind == k); },
            crate::task::TaskType::RewriteLogbackPath => { assert(s[b1(!p.enable_replace_ui) + b1((f.is_cloud && (p.enable_config_rewrite || p.enable_sql_customize)) || (!(f.is_cloud && (p.enable_config_rewrite || p.enable_sql_customize)) && p.enable_config_rewrite && info.config_files@.len() > 0))].kind == k); },
            crate::task::TaskType::InjectColoredConsolePattern => { assert(s[b1(!p.enable_replace_ui) + b1((f.is_cloud && (p.enable_config_rewrite || p.enable_sql_customize)) || (!(f.is_cloud && (p.enable_config_rewrite || p.enable_sql_customize)) && p.enable_config_rewrite && info.config_files@.len() > 0)) + b1(p.enable_logback_rewrite && info.logback_files@.len() > 0)].kind == k); },
            _ => {},
        }
    }
}

#[verifier::spinoff_prover]
#[verifier::rlimit(40)]
proof fn lemma_kinds_of_mybatis(info: crate::params::ProjectInfo, p: crate::params::CustomizeParams, template: crate::rules::Template, f: crate::planner::PlanFacts, k: crate::task::TaskType)
    ensures
        has_kind(crate::planner::seg_mybatis(info, p, f), k) <==> (k is AddMybatisPlusDependency || k is AddMybatisPlusConfig || k is UpdateGeneratorTemplatesForMybatisPlus || k is AddLongIdJsonSerializeAnnotation || k is InjectSnowflakeId) && planned_when(k, info, p, template, f),
{
    reveal(crate::planner::seg_mybatis);
    let s = crate::planner::seg_mybatis(info, p, f);
    assert forall|i: int| 0 <= i < s.len() && (#[trigger] s[i]).kind == k implies (k is AddMybatisPlusDependency || k is AddMybatisPlusConfig || k is UpdateGeneratorTemplatesForMybatisPlus || k is AddLongIdJsonSerializeAnnotation || k is InjectSnowflakeId) && planned_when(k, info, p, template, f) by {
    }
    if p.enable_mybatis_plus {
        assert(s[0].kind == crate::task::TaskType::AddMybatisPlusDependency);
    }
    if p.enable_mybatis_plus {
        assert(s[1].kind == crate::task::TaskType::AddMybatisPlusConfig);
    }
    if p.enable_generator_mybatis_plus && info.generator_template_files@.len() > 0 {
        assert(s[2 * b1(p.enable_mybatis_plus)].kind == crate::task::TaskType::UpdateGeneratorTemplatesForMybatisPlus);
    }
    if p.enable_long_id_json_string && info.generator_template_files@.len() > 0 {
        assert(s[2 * b1(p.enable_mybatis_plus) + b1(p.enable_generator_mybatis_plus && info.generator_template_files@.len() > 0)].kind == crate::task::TaskType::AddLongIdJsonSerializeAnnotation);
    }
    if p.enable_snowflake_id {
        assert(s[2 * b1(p.enable_mybatis_plus) + b1(p.enable_generator_mybatis_plus && info.generator_template_files@.len() > 0) + b1(p.enable_long_id_json_string && info.generator_template_files@.len() > 0)].kind == crate::task::TaskType::InjectSnowflakeId);
    }
    if (k is AddMybatisPlusDependency || k is AddMybatisPlusConfig || k is UpdateGeneratorTemplatesForMybatisPlus || k is AddLongIdJsonSerializeAnnotation || k is InjectSnowflakeId) && planned_when(k, info, p, template, f) {
        match k {
            crate::task::TaskType::AddMybatisPlusDependency => { assert(s[0].kind == k); },
            crate::task::TaskType::AddMybatisPlusConfig => { assert(s[1].kind == k); },
            crate::task::TaskType::UpdateGeneratorTemplatesForMybatisPlus => { assert(s[2 * b1(p.enable_mybatis_plus)].kind == k); },
            crate::task::TaskType::AddLongIdJsonSerializeAnnotation => { assert(s[2 * b1(p.enable_mybatis_plus) + b1(p.enable_generator_mybatis_plus && info.generator_template_files@.len() > 0)].kind == k); },
            crate::task::TaskType::InjectSnowflakeId => { assert(s[2 * b1(p.enable_mybatis_plus) + b1(p.enable_generator_mybatis_plus && info.generator_template_files@.len() > 0) + b1(p.enable_long_id_json_string && info.generator_template_files@.len() > 0)].kind == k); },
            _ => {},
        }
    }
}

#[verifier::spinoff_prover]
#[verifier::rlimit(40)]
proof fn lemma_kinds_of_uniapp(info: crate::params::ProjectInfo, p: crate::params::CustomizeParams, template: crate::rules::Template, f: crate::planner::PlanFacts, k: crate::task::TaskType)
    ensures
        has_kind(crate::planner::seg_uniapp(info, p, f), k) <==> (k is GenerateUniappProject || k is AppendWechatConfig || k is SetupWechatLogin || k is AddWechatPayDependency || k is AddWechatPayConfig || k is CreateWechatCertDir) && planned_when(k, info, p, template, f),
{
    reveal(crate::planner::seg_uniapp);
    let s = crate::planner::seg_uniapp(info, p, f);
    assert forall|i: int| 0 <= i < s.len() && (#[trigger] s[i]).kind == k implies (k is GenerateUniappProject || k is AppendWechatConfig || k is SetupWechatLogin || k is AddWechatPayDependency || k is AddWechatPayConfig || k is CreateWechatCertDir) && planned_when(k, info, p, template, f) by {
    }
    if p.enable_uniapp {
        assert(s[0].kind == crate::task::TaskType::GenerateUniappProject);
    }
    if p.enable_uniapp {
        assert(s[1].kind == crate::task::TaskType::AppendWechatConfig);
    }
    if p.enable_uniapp {
        assert(s[2].kind == crate::task::TaskType::SetupWechatLogin);
    }
    if p.enable_uniapp && p.pay_included {
        assert(s[3].kind == crate::task::TaskType::AddWechatPayDependency);
    }
    if p.enable_uniapp && p.pay_included {
        assert(s[4].kind == crate::task::TaskType::AddWechatPayConfig);
    }
    if p.enable_uniapp && p.pay_included {
        assert(s[5].kind == crate::task::TaskType::CreateWechatCertDir);
    }
    if (k is GenerateUniappProject || k is AppendWechatConfig || k is SetupWechatLogin || k is AddWechatPayDependency || k is AddWechatPayConfig || k is CreateWechatCertDir) && planned_when(k, info, p, template, f) {
        match k {
            crate::task::TaskType::GenerateUniappProject => { assert(s[0].kind == k); },
            crate::task::TaskType::AppendWechatConfig => { assert(s[1].kind == k); },
            crate::task::TaskType::SetupWechatLogin => { assert(s[2].kind == k); },
            crate::task::TaskType::AddWechatPayDependency => { assert(s[3].kind == k); },
            crate::task::TaskType::AddWechatPayConfig => { assert(s[4].kind == k); },
            crate::task::TaskType::CreateWechatCertDir => { assert(s[5].kind == k); },
            _ => {},
        }
    }
}

#[verifier::spinoff_prover]
#[verifier::rlimit(40)]
proof fn lemma_kinds_of_replace_ui(info: crate::params::ProjectInfo, p: crate::params::CustomizeParams, template: crate::rules::Template, f: crate::planner::PlanFacts, k: crate::task::TaskType)
    ensures
        has_kind(crate::planner::seg_replace_ui(info, p, f), k) <==> (k is ReplaceUI) && planned_when(k, info, p, template, f),
{
    reveal(crate::planner::seg_replace_ui);
    let s = crate::planner::seg_replace_ui(info, p, f);
    assert forall|i: int| 0 <= i < s.len() && (#[trigger] s[i]).kind == k implies (k is ReplaceUI) && planned_when(k, info, p, template, f) by {
    }
    if p.enable_replace_ui {
        assert(s[0].kind == crate::task::TaskType::ReplaceUI);
    }
    if (k is ReplaceUI) && planned_when(k, info, p, template, f) {
        match k {
            crate::task::TaskType::ReplaceUI => { assert(s[0].kind == k); },
            _ => {},
        }
    }
}

#[verifier::spinoff_prover]
#[verifier::rlimit(40)]
proof fn lemma_kinds_of_oss(info: crate::params::ProjectInfo, p: crate::params::CustomizeParams, template: crate::rules::Template, f: crate::planner::PlanFacts, k: crate::task::TaskType)
    ensures
        has_kind(crate::planner::seg_oss(info, p, f), k) <==> (k is SetupOss) && planned_when(k, info, p, template, f),
{
    reveal(crate::planner::seg_oss);
    let s = crate::planner::seg_oss(info, p, f);
    assert forall|i: int| 0 <= i < s.len() && (#[trigger] s[i]).kind == k implies (k is SetupOss) && planned_when(k, info, p, template, f) by {
    }
    if p.enable_oss {
        assert(s[0].kind == crate::task::TaskType::SetupOss);
    }
    if (k is SetupOss) && planned_when(k, info, p, template, f) {
        match k {
            crate::task::TaskType::SetupOss => { assert(s[0].kind == k); },
            _ => {},
        }
    }
}

#[verifier::spinoff_prover]
#[verifier::rlimit(40)]
proof fn lemma_kinds_of_logins(info: crate::params::ProjectInfo, p: crate::params::CustomizeParams, template: crate::rules::Template, f: crate::planner::PlanFacts, k: crate::task::TaskType)
    ensures
        has_kind(crate::planner::seg_logins(info, p, f), k) <==> (k is SetupSmsLogin || k is SetupCaptchaSlider || k is SetupApiEncrypt || k is ApplySecurityHardening) && planned_when(k, info, p, template, f),
{
    reveal(crate::planner::seg_logins);
    let s = crate::planner::seg_logins(info, p, f);
    assert forall|i: int| 0 <= i < s.len() && (#[trigger] s[i]).kind == k implies (k is SetupSmsLogin || k is SetupCaptchaSlider || k is SetupApiEncrypt || k is ApplySecurityHardening) && planned_when(k, info, p, template, f) by {
    }
    if p.enable_sms_login {
        assert(s[0].kind == crate::task::TaskType::SetupSmsLogin);
    }
    if p.enable_captcha_slider {
        assert(s[b1(p.enable_sms_login)].kind == crate::task::TaskType::SetupCaptchaSlider);
    }
    if p.enable_api_encrypt {
        assert(s[b1(p.enable_sms_login) + b1(p.enable_captcha_slider)].kind == crate::task::TaskType::SetupApiEncrypt);
    }
    if p.enable_security || p.enable_jwt {
        assert(s[b1(p.enable_sms_login) + b1(p.enable_captcha_slider) + b1(p.enable_api_encrypt)].kind == crate::task::TaskType::ApplySecurityHardening);
    }
    if (k is SetupSmsLogin || k is SetupCaptchaSlider || k is SetupApiEncrypt || k is ApplySecurityHardening) && planned_when(k, info, p, template, f) {
        match k {
            crate::task::TaskType::SetupSmsLogin => { assert(s[0].kind == k); },
            crate::task::TaskType::SetupCaptchaSlider => { assert(s[b1(p.enable_sms_login)].kind == k); },
            crate::task::TaskType::SetupApiEncrypt => { assert(s[b1(p.enable_sms_login) + b1(p.enable_captcha_slider)].kind == k); },
            crate::task::TaskType::ApplySecurityHardening => { assert(s[b1(p.enable_sms_login) + b1(p.enable_captcha_slider) + b1(p.enable_api_encrypt)].kind == k); },
            _ => {},
        }
    }
}

#[verifier::spinoff_prover]
#[verifier::rlimit(40)]
proof fn lemma_kinds_of_sql(info: crate::params::ProjectInfo, p: crate::params::CustomizeParams, template: crate::rules::Template, f: crate::planner::PlanFacts, k: crate::task::TaskType)
    ensures
        has_kind(crate::planner::seg_sql(info, p, f), k) <==> (k is SwitchDatabaseDialect || k is CustomizeSqlScripts) && planned_when(k, info, p, template, f),
{
    reveal(crate::planner::seg_sql);
    let s = crate::planner::seg_sql(info, p, f);
    assert forall|i: int| 0 <= i < s.len() && (#[trigger] s[i]).kind == k implies (k is SwitchDatabaseDialect || k is CustomizeSqlScripts) && planned_when(k, info, p, template, f) by {
    }
    if dialect_wanted(info, p) {
        assert(s[0].kind == crate::task::TaskType::SwitchDatabaseDialect);
    }
    if p.enable_sql_customize {
        assert(s[b1(dialect_wanted(info, p))].kind == crate::task::TaskType::CustomizeSqlScripts);
    }
    if (k is SwitchDatabaseDialect || k is CustomizeSqlScripts) && planned_when(k, info, p, template, f) {
        match k {
            crate::task::TaskType::SwitchDatabaseDialect => { assert(s[0].kind == k); },
            crate::task::TaskType::CustomizeSqlScripts => { assert(s[b1(dialect_wanted(info, p))].kind == k); },
            _ => {},
        }
    }
}


proof fn lemma_new_modules_wanted(info: crate::params::ProjectInfo, p: crate::params::CustomizeParams)
    ensures
        new_modules_wanted(info, p) <==> crate::new_module::norm_names(crate::task::sviews(p.new_modules@)).len() > 0
            && info.template_dir@ != "ruoyi"@,
{
    let m = crate::task::sviews(p.new_modules@);
    let r = crate::new_module::norm_names(m);
    lemma_norm_names_props(m);
    if r.len() > 0 {
        assert(r.contains(r[0]));
        let i = choose|i: int| 0 <= i < m.len() && crate::new_module::name_key(#[trigger] m[i]) == r[0];
        assert(m[i] == p.new_modules@[i]@);
        assert(crate::new_module::name_key(p.new_modules@[i]@).len() > 0);
    }
    if exists|i: int| 0 <= i < p.new_modules@.len() && crate::new_module::name_key(#[trigger] p.new_modules@[i]@).len() > 0 {
        let i = choose|i: int| 0 <= i < p.new_modules@.len() && crate::new_module::name_key(#[trigger] p.new_modules@[i]@).len() > 0;
        assert(m[i] == p.new_modules@[i]@);
        assert(r.contains(crate::new_module::name_key(m[i])));
    }
}

#[verifier::spinoff_prover]
#[verifier::rlimit(40)]
proof fn lemma_kinds_of_modules(info: crate::params::ProjectInfo, p: crate::params::CustomizeParams, template: crate::rules::Template, f: crate::planner::PlanFacts, k: crate::task::TaskType)
    ensures
        has_kind(crate::planner::seg_modules(info, p, f), k) <==> (k is TrimCloudModules || k is GenerateNewModules || k is RenameAdminAccount) && planned_when(k, info, p, template, f),
{
    lemma_new_modules_wanted(info, p);
    reveal(crate::planner::seg_modules);
    let s = crate::planner::seg_modules(info, p, f);
    assert forall|i: int| 0 <= i < s.len() && (#[trigger] s[i]).kind == k implies (k is TrimCloudModules || k is GenerateNewModules || k is RenameAdminAccount) && planned_when(k, info, p, template, f) by {
    }
    if f.is_cloud && p.remove_modules@.len() > 0 {
        assert(s[0].kind == crate::task::TaskType::TrimCloudModules);
    }
    if new_modules_wanted(info, p) {
        assert(s[b1(f.is_cloud && p.remove_modules@.len() > 0)].kind == crate::task::TaskType::GenerateNewModules);
    }
    if p.enable_sql_customize && admin_changes(p) {
        assert(s[b1(f.is_cloud && p.remove_modules@.len() > 0) + b1(new_modules_wanted(info, p))].kind == crate::task::TaskType::RenameAdminAccount);
    }
    if (k is TrimCloudModules || k is GenerateNewModules || k is RenameAdminAccount) && planned_when(k, info, p, template, f) {
        match k {
            crate::task::TaskType::TrimCloudModules => { assert(s[0].kind == k); },
            crate::task::TaskType::GenerateNewModules => { assert(s[b1(f.is_cloud && p.remove_modules@.len() > 0)].kind == k); },
            crate::task::TaskType::RenameAdminAccount => { assert(s[b1(f.is_cloud && p.remove_modules@.len() > 0) + b1(new_modules_wanted(info, p))].kind == k); },
            _ => {},
        }
    }
}

#[verifier::spinoff_prover]
#[verifier::rlimit(40)]
proof fn lemma_kinds_of_pages(info: crate::params::ProjectInfo, p: crate::params::CustomizeParams, template: crate::rules::Template, f: crate::planner::PlanFacts, k: crate::task::TaskType)
    ensures
        has_kind(crate::planner::seg_pages(info, p, f), k) <==> (k is CustomizeWebFooter || k is CustomizeSiteSettings) && planned_when(k, info, p, template, f),
{
    reveal(crate::planner::seg_pages);
    let s = crate::planner::seg_pages(info, p, f);
    assert forall|i: int| 0 <= i < s.len() && (#[trigger] s[i]).kind == k implies (k is CustomizeWebFooter || k is CustomizeSiteSettings) && planned_when(k, info, p, template, f) by {
    }
    if p.enable_footer_icp {
        assert(s[0].kind == crate::task::TaskType::CustomizeWebFooter);
    }
    if p.enable_site_settings {
        assert(s[b1(p.enable_footer_icp)].kind == crate::task::TaskType::CustomizeSiteSettings);
    }
    if (k is CustomizeWebFooter || k is CustomizeSiteSettings) && planned_when(k, info, p, template, f) {
        match k {
            crate::task::TaskType::CustomizeWebFooter => { assert(s[0].kind == k); },
            crate::task::TaskType::CustomizeSiteSettings => { assert(s[b1(p.enable_footer_icp)].kind == k); },
            _ => {},
        }
    }
}

#[verifier::spinoff_prover]
#[verifier::rlimit(40)]
proof fn lemma_kinds_of_tools(info: crate::params::ProjectInfo, p: crate::params::CustomizeParams, template: crate::rules::Template, f: crate::planner::PlanFacts, k: crate::task::TaskType)
    ensures
        has_kind(crate::planner::seg_tools(info, p, f), k) <==> (k is CustomizeGeneratorConfig || k is GenerateAiRules || k is GenerateSubAgents || k is SplitFrontend || k is GenerateNginxConfig) && planned_when(k, info, p, template, f),
{
    reveal(crate::planner::seg_tools);
    let s = crate::planner::seg_tools(info, p, f);
    assert forall|i: int| 0 <= i < s.len() && (#[trigger] s[i]).kind == k implies (k is CustomizeGeneratorConfig || k is GenerateAiRules || k is GenerateSubAgents || k is SplitFrontend || k is GenerateNginxConfig) && planned_when(k, info, p, template, f) by {
    }
    if p.enable_generator_config {
        assert(s[0].kind == crate::task::TaskType::CustomizeGeneratorConfig);
    }
    if p.enable_ai_rules {
        assert(s[b1(p.enable_generator_config)].kind == crate::task::TaskType::GenerateAiRules);
    }
    if p.enable_sub_agents {
        assert(s[b1(p.enable_generator_config) + b1(p.enable_ai_rules)].kind == crate::task::TaskType::GenerateSubAgents);
    }
    if p.enable_frontend_split {
        assert(s[b1(p.enable_generator_config) + b1(p.enable_ai_rules) + b1(p.enable_sub_agents)].kind == crate::task::TaskType::SplitFrontend);
    }
    if p.enable_nginx_config {
        assert(s[b1(p.enable_generator_config) + b1(p.enable_ai_rules) + b1(p.enable_sub_agents) + b1(p.enable_frontend_split)].kind == crate::task::TaskType::GenerateNginxConfig);
    }
    if (k is CustomizeGeneratorConfig || k is GenerateAiRules || k is GenerateSubAgents || k is SplitFrontend || k is GenerateNginxConfig) && planned_when(k, info, p, template, f) {
        match k {
            crate::task::TaskType::CustomizeGeneratorConfig => { assert(s[0].kind == k); },
            crate::task::TaskType::GenerateAiRules => { assert(s[b1(p.enable_generator_config)].kind == k); },
            crate::task::TaskType::GenerateSubAgents => { assert(s[b1(p.enable_generator_config) + b1(p.enable_ai_rules)].kind == k); },
            crate::task::TaskType::SplitFrontend => { assert(s[b1(p.enable_generator_config) + b1(p.enable_ai_rules) + b1(p.enable_sub_agents)].kind == k); },
            crate::task::TaskType::GenerateNginxConfig => { assert(s[b1(p.enable_generator_config) + b1(p.enable_ai_rules) + b1(p.enable_sub_agents) + b1(p.enable_frontend_split)].kind == k); },
            _ => {},
        }
    }
}

#[verifier::spinoff_prover]
#[verifier::rlimit(40)]
proof fn lemma_kinds_of_scripts(info: crate::params::ProjectInfo, p: crate::params::CustomizeParams, template: crate::rules::Template, f: crate::planner::PlanFacts, k: crate::task::TaskType)
    ensures
        has_kind(crate::planner::seg_scripts(info, p, f), k) <==> (k is GenerateStartupScripts || k is GenerateBuildScripts || k is GenerateDevScripts) && planned_when(k, info, p, template, f),
{
    reveal(crate::planner::seg_scripts);
    let s = crate::planner::seg_scripts(info, p, f);
    assert forall|i: int| 0 <= i < s.len() && (#[trigger] s[i]).kind == k implies (k is GenerateStartupScripts || k is GenerateBuildScripts || k is GenerateDevScripts) && planned_when(k, info, p, template, f) by {
    }
    if p.enable_startup_scripts {
        assert(s[0].kind == crate::task::TaskType::GenerateStartupScripts);
    }
    if p.enable_startup_scripts {
        assert(s[1].kind == crate::task::TaskType::GenerateBuildScripts);
    }
    if true {
        assert(s[2 * b1(p.enable_startup_scripts)].kind == crate::task::TaskType::GenerateDevScripts);
    }
    if (k is GenerateStartupScripts || k is GenerateBuildScripts || k is GenerateDevScripts) && planned_when(k, info, p, template, f) {
        match k {
            crate::task::TaskType::GenerateStartupScripts => { assert(s[0].kind == k); },
            crate::task::TaskType::GenerateBuildScripts => { assert(s[1].kind == k); },
            crate::task::TaskType::GenerateDevScripts => { assert(s[2 * b1(p.enable_startup_scripts)].kind == k); },
            _ => {},
        }
    }
}

#[verifier::spinoff_prover]
#[verifier::rlimit(40)]
proof fn lemma_kinds_of_finish(info: crate::params::ProjectInfo, p: crate::params::CustomizeParams, template: crate::rules::Template, f: crate::planner::PlanFacts, k: crate::task::TaskType)
    ensures
        has_kind(crate::planner::seg_finish(p, f, crate::planner::has_frontend(template)), k) <==> (k is GenerateDevUiScripts || k is GenerateExportSourceScripts || k is UpdateAdminPomFinalName || k is ValidateProject || k is GenerateReport) && planned_when(k, info, p, template, f),
{
    reveal(crate::planner::seg_finish);
    let s = crate::planner::seg_finish(p, f, crate::planner::has_frontend(template));
    assert forall|i: int| 0 <= i < s.len() && (#[trigger] s[i]).kind == k implies (k is GenerateDevUiScripts || k is GenerateExportSourceScripts || k is UpdateAdminPomFinalName || k is ValidateProject || k is GenerateReport) && planned_when(k, info, p, template, f) by {
    }
    if template.module.frontend_modules@.len() > 0 {
        assert(s[0].kind == crate::task::TaskType::GenerateDevUiScripts);
    }
    if true {
        assert(s[b1(template.module.frontend_modules@.len() > 0)].kind == crate::task::TaskType::GenerateExportSourceScripts);
    }
    if true {
        assert(s[b1(template.module.frontend_modules@.len() > 0) + 1].kind == crate::task::TaskType::UpdateAdminPomFinalName);
    }
    if true {
        assert(s[b1(template.module.frontend_modules@.len() > 0) + 2].kind == crate::task::TaskType::ValidateProject);
    }
    if p.enable_report {
        assert(s[b1(template.module.frontend_modules@.len() > 0) + 3].kind == crate::task::TaskType::GenerateReport);
    }
    if (k is GenerateDevUiScripts || k is GenerateExportSourceScripts || k is UpdateAdminPomFinalName || k is ValidateProject || k is GenerateReport) && planned_when(k, info, p, template, f) {
        match k {
            crate::task::TaskType::GenerateDevUiScripts => { assert(s[0].kind == k); },
            crate::task::TaskType::GenerateExportSourceScripts => { assert(s[b1(template.module.frontend_modules@.len() > 0)].kind == k); },
            crate::task::TaskType::UpdateAdminPomFinalName => { assert(s[b1(template.module.frontend_modules@.len() > 0) + 1].kind == k); },
            crate::task::TaskType::ValidateProject => { assert(s[b1(template.module.frontend_modules@.len() > 0) + 2].kind == k); },
            crate::task::TaskType::GenerateReport => { assert(s[b1(template.module.frontend_modules@.len() > 0) + 3].kind == k); },
            _ => {},
        }
    }
}

/// Which tasks a run plans: a task of kind `k` is in the plan exactly when
/// `planned_when` says so, for every kind: the package, pom, module, dev-script,
/// export, packaging-name and validation steps always; every optional step
/// exactly when its switch is on (with the files, edition or Cloud layout it
/// works on).
#[verifier::spinoff_prover]
#[verifier::rlimit(40)]
pub proof fn law_plan_task_kinds(info: crate::params::ProjectInfo, p: crate::params::CustomizeParams, template: crate::rules::Template, f: crate::planner::PlanFacts, k: crate::task::TaskType)
    ensures
        has_kind(crate::planner::planned(info, p, template, f), k) <==> planned_when(k, info, p, template, f),
{
    lemma_kinds_of_packages(info, p, template, f, k);
    lemma_kinds_of_frontend_config(info, p, template, f, k);
    lemma_kinds_of_mybatis(info, p, template, f, k);
    lemma_kinds_of_uniapp(info, p, template, f, k);
    lemma_kinds_of_replace_ui(info, p, template, f, k);
    lemma_kinds_of_oss(info, p, template, f, k);
    lemma_kinds_of_logins(info, p, template, f, k);
    lemma_kinds_of_sql(info, p, template, f, k);
    lemma_kinds_of_modules(info, p, template, f, k);
    lemma_kinds_of_pages(info, p, template, f, k);
    lemma_kinds_of_tools(info, p, template, f, k);
    lemma_kinds_of_scripts(info, p, template, f, k);
    lemma_kinds_of_finish(info, p, template, f, k);
    let s0 = crate::planner::seg_packages(info, p, f);
    let s1 = crate::planner::seg_frontend_config(info, p, f);
    let s2 = crate::planner::seg_mybatis(info, p, f);
    let s3 = crate::planner::seg_uniapp(info, p, f);
    let s4 = crate::planner::seg_replace_ui(info, p, f);
    let s5 = crate::planner::seg_oss(info, p, f);
    let s6 = crate::planner::seg_logins(info, p, f);
    let s7 = crate::planner::seg_sql(info, p, f);
    let s8 = crate::planner::seg_modules(info, p, f);
    let s9 = crate::planner::seg_pages(info, p, f);
    let s10 = crate::planner::seg_tools(info, p, f);
    let s11 = crate::planner::seg_scripts(info, p, f);
    let s12 = crate::planner::seg_finish(p, f, crate::planner::has_frontend(template));
    lemma_has_kind_concat(s0, s1, k);
    lemma_has_kind_concat(s0 + s1, s2, k);
    lemma_has_kind_concat(s0 + s1 + s2, s3, k);
    lemma_has_kind_concat(s0 + s1 + s2 + s3, s4, k);
    lemma_has_kind_concat(s0 + s1 + s2 + s3 + s4, s5, k);
    lemma_has_kind_concat(s0 + s1 + s2 + s3 + s4 + s5, s6, k);
    lemma_has_kind_concat(s0 + s1 + s2 + s3 + s4 + s5 + s6, s7, k);
    lemma_has_kind_concat(s0 + s1 + s2 + s3 + s4 + s5 + s6 + s7, s8, k);
    lemma_has_kind_concat(s0 + s1 + s2 + s3 + s4 + s5 + s6 + s7 + s8, s9, k);
    lemma_has_kind_concat(s0 + s1 + s2 + s3 + s4 + s5 + s6 + s7 + s8 + s9, s10, k);
    lemma_has_kind_concat(s0 + s1 + s2 + s3 + s4 + s5 + s6 + s7 + s8 + s9 + s10, s11, k);
    lemma_has_kind_concat(s0 + s1 + s2 + s3 + s4 + s5 + s6 + s7 + s8 + s9 + s10 + s11, s12, k);
    let all = crate::planner::planned_tasks(info, p, template, f);
    assert(all == s0 + s1 + s2 + s3 + s4 + s5 + s6 + s7 + s8 + s9 + s10 + s11 + s12);
    let pl = crate::planner::planned(info, p, template, f);
    assert(pl.len() == all.len());
    if has_kind(all, k) {
        let i = choose|i: int| 0 <= i < all.len() && (#[trigger] all[i]).kind == k;
        assert(pl[i].kind == all[i].kind);
    }
    if has_kind(pl, k) {
        let i = choose|i: int| 0 <= i < pl.len() && (#[trigger] pl[i]).kind == k;
        assert(pl[i].kind == all[i].kind);
    }
}


// ---------------------------------------------------------------------------
// Gateway routes of removed modules
// ---------------------------------------------------------------------------

/// The route names a removed module goes by (in a route's lowercased text):
/// its own key, and also `code` for `gen` and `schedule` for `job`.
pub open spec fn route_named_for(key: Seq<char>, low: Seq<char>) -> bool {
    ||| contains(low, key)
    ||| key == "gen"@ && contains(low, "code"@)
    ||| key == "job"@ && contains(low, "schedule"@)
}

/// The route text routes a path that removing `key` retires.
pub open spec fn route_path_for(key: Seq<char>, text: Seq<char>) -> bool {
    ||| key == "gen"@ && contains(text, "/code/**"@)
    ||| key == "job"@ && contains(text, "/schedule/**"@)
    ||| key == "file"@ && contains(text, "/file/**"@)
    ||| key == "monitor"@ && contains(text, "/monitor/**"@)
}

/// A gateway route item is dropped by the removal of modules `keys` exactly
/// when it has an `id: ` and its lowercased text names a removed module
/// (`gen` also as `code`, `job` also as `schedule`), or when it routes a path a
/// removed module retires (`/code/**`, `/schedule/**`, `/file/**`, `/monitor/**`).
pub proof fn law_route_dropped_rule(text: Seq<char>, keys: Seq<Seq<char>>)
    ensures
        crate::nacos_yaml::route_dropped(text, keys) <==> (
            (contains(text, "id: "@) && exists|j: int| 0 <= j < keys.len()
                && route_named_for(#[trigger] keys[j], crate::text::lower(text)))
            || exists|j: int| 0 <= j < keys.len() && route_path_for(#[trigger] keys[j], text)
        ),
{
    reveal_strlit("gen");
    reveal_strlit("job");
    reveal_strlit("file");
    reveal_strlit("monitor");
    let low = crate::text::lower(text);
    assert("gen"@ != "job"@ && "gen"@ != "file"@ && "gen"@ != "monitor"@ && "job"@ != "file"@
        && "job"@ != "monitor"@ && "file"@ != "monitor"@) by {
        assert("gen"@[0] != "job"@[0] && "gen"@[0] != "file"@[0] && "gen"@[0] != "monitor"@[0]);
        assert("job"@[0] != "file"@[0] && "job"@[0] != "monitor"@[0] && "file"@[0] != "monitor"@[0]);
    }
    assert forall|j: int| 0 <= j < keys.len() implies (route_named_for(#[trigger] keys[j], low) <==> exists|m: int|
        0 <= m < crate::nacos_yaml::drop_ids_of(keys[j]).len() && contains(low, crate::nacos_yaml::drop_ids_of(keys[j])[m])) by {
        let k = keys[j];
        let d = crate::nacos_yaml::drop_ids_of(k);
        if route_named_for(k, low) {
            if contains(low, k) {
                assert(d[0] == k);
                assert(contains(low, d[0]));
            } else {
                assert(contains(low, d[1]));
            }
        }
        if exists|m: int| 0 <= m < d.len() && contains(low, d[m]) {
            let m = choose|m: int| 0 <= m < d.len() && contains(low, d[m]);
            if k == "gen"@ || k == "job"@ {
                if m == 0 {
                    assert(d[0] == k);
                }
            } else {
                assert(d[0] == k);
            }
        }
    }
    assert forall|j: int| 0 <= j < keys.len() implies (route_path_for(#[trigger] keys[j], text) <==> exists|m: int|
        0 <= m < crate::nacos_yaml::drop_paths_of(keys[j]).len() && contains(text, crate::nacos_yaml::drop_paths_of(keys[j])[m])) by {
        let k = keys[j];
        let d = crate::nacos_yaml::drop_paths_of(k);
        if route_path_for(k, text) {
            assert(contains(text, d[0]));
        }
        if exists|m: int| 0 <= m < d.len() && contains(text, d[m]) {
            let m = choose|m: int| 0 <= m < d.len() && contains(text, d[m]);
            assert(m == 0);
        }
    }
    let ids_side = exists|k: int, m: int|
        0 <= k < keys.len() && 0 <= m < crate::nacos_yaml::drop_ids_of(keys[k]).len() && contains(text, "id: "@)
            && contains(low, #[trigger] crate::nacos_yaml::drop_ids_of(keys[k])[m]);
    let paths_side = exists|k: int, m: int|
        0 <= k < keys.len() && 0 <= m < crate::nacos_yaml::drop_paths_of(keys[k]).len() && contains(
            text,
            #[trigger] crate::nacos_yaml::drop_paths_of(keys[k])[m],
        );
    if ids_side {
        let (k, m) = choose|k: int, m: int|
            0 <= k < keys.len() && 0 <= m < crate::nacos_yaml::drop_ids_of(keys[k]).len() && contains(text, "id: "@)
                && contains(low, #[trigger] crate::nacos_yaml::drop_ids_of(keys[k])[m]);
        assert(route_named_for(keys[k], low));
    }
    if contains(text, "id: "@) && exists|j: int| 0 <= j < keys.len() && route_named_for(#[trigger] keys[j], low) {
        let j = choose|j: int| 0 <= j < keys.len() && route_named_for(#[trigger] keys[j], low);
        let m = choose|m: int| 0 <= m < crate::nacos_yaml::drop_ids_of(keys[j]).len()
            && contains(low, crate::nacos_yaml::drop_ids_of(keys[j])[m]);
        assert(contains(low, crate::nacos_yaml::drop_ids_of(keys[j])[m]));
    }
    if paths_side {
        let (k, m) = choose|k: int, m: int|
            0 <= k < keys.len() && 0 <= m < crate::nacos_yaml::drop_paths_of(keys[k]).len() && contains(
                text,
                #[trigger] crate::nacos_yaml::drop_paths_of(keys[k])[m],
            );
        assert(route_path_for(keys[k], text));
    }
    if exists|j: int| 0 <= j < keys.len() && route_path_for(#[trigger] keys[j], text) {
        let j = choose|j: int| 0 <= j < keys.len() && route_path_for(#[trigger] keys[j], text);
        let m = choose|m: int| 0 <= m < crate::nacos_yaml::drop_paths_of(keys[j]).len()
            && contains(text, crate::nacos_yaml::drop_paths_of(keys[j])[m]);
        assert(contains(text, crate::nacos_yaml::drop_paths_of(keys[j])[m]));
    }
}

} // verus!
