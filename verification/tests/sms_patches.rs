use ruoyi_forge::params::CustomizeParams;
use ruoyi_forge::sms_patches::{
    patch_arco_api, patch_arco_login, patch_classic_api, patch_classic_login, patch_cloud_phone_lookup,
    patch_sys_login_service, patch_uniapp_auth_api, patch_uniapp_login_page, patch_vben_auth,
    patch_vben_auth_store, patch_vben_login,
};

fn params(slider: bool) -> CustomizeParams {
    let mut p = CustomizeParams::default();
    p.new_package = "com.demo".into();
    p.enable_captcha_slider = slider;
    p
}

#[test]
fn sys_login_service_gets_sms_login_before_last_brace() {
    let src = "public class SysLoginService {\n    void a() {}\n}\n";
    let out = patch_sys_login_service(src, &params(false), false, "selectUserByPhonenumber").unwrap();
    assert!(out.starts_with("public class SysLoginService {\n    void a() {}\n"));
    assert!(out.ends_with("}\n"));
    assert!(out.contains("private com.demo.framework.config.SmsCodeService forgeSmsCodeService;"));
    assert!(out.contains("public String smsLogin(String phone, String code)"));
    assert!(patch_sys_login_service(&out, &params(false), false, "x").is_none());
    let cloud = patch_sys_login_service(src, &params(false), true, "selectUserByPhone").unwrap();
    assert!(cloud.contains("com.demo.auth.config.SmsCodeService"));
    assert!(cloud.contains("public LoginUser smsLogin(String phone, String code)"));
    assert!(patch_sys_login_service("no brace", &params(false), false, "m").is_none());
}

#[test]
fn remote_user_service_gets_phone_lookup() {
    let src = "public interface RemoteUserService\n{\n}\n";
    let out = patch_cloud_phone_lookup(src).unwrap();
    assert!(out.starts_with("public interface RemoteUserService\n{\n\n    @GetMapping(\"/user/info/phone/{phonenumber}\")"));
    assert!(out.ends_with("String source);\n}\n"));
    assert!(patch_cloud_phone_lookup(&out).is_none());
    assert!(patch_cloud_phone_lookup("interface X").is_none());
}

#[test]
fn api_blocks_appended_with_endpoints() {
    let out = patch_classic_api("import request from '@/utils/request'\n", true).unwrap();
    assert!(out.starts_with("import request from '@/utils/request'\n\nexport function getSmsCode(data) {"));
    assert!(out.contains("url: '/auth/smsCode'"));
    assert!(out.contains("url: '/auth/smsLogin'"));
    assert!(patch_classic_api(&out, true).is_none());

    let v = patch_vben_auth("x", false).unwrap();
    assert!(v.contains("baseRequestClient.post('/smsCode', data)"));
    assert!(v.contains("export async function smsLoginApi"));
    assert!(patch_vben_auth(&v, false).is_none());

    let a = patch_arco_api("x", false).unwrap();
    assert!(a.contains("request.post('/smsCode', data, { isRawResponse: true })"));
    assert!(patch_arco_api(&a, false).is_none());

    let u = patch_uniapp_auth_api("x", true).unwrap();
    assert_eq!(
        u,
        "x\nexport function getSmsCode(data) { return request.post('/auth/smsCode', data) }\nexport function smsLogin(data) { return request.post('/auth/smsLogin', data) }\n"
    );
    assert!(patch_uniapp_auth_api(&u, true).is_none());
}

#[test]
fn vben_store_uses_sms_login_api() {
    let src = "import { getAccessCodesApi, getUserInfoApi, loginApi, logoutApi } from '#/api';\nconst { accessToken } = await loginApi(params);\n";
    let out = patch_vben_auth_store(src).unwrap();
    assert!(out.contains("logoutApi, smsLoginApi } from '#/api';"));
    assert!(out.contains("(params as any)?.forgeSms ? await smsLoginApi(params) : await loginApi(params);"));
    assert!(patch_vben_auth_store(&out).is_none());
}

#[test]
fn classic_login_gets_sms_mode() {
    let src = "<el-form-item prop=\"username\">\n</el-form-item>\n<script>\nimport { getCodeImg } from \"@/api/login\"\nexport default {\n  data() {\n    return {\n      loginForm: {\n        rememberMe: false\n      }\n    }\n  },\n  methods: {\n    handleLogin() {\n    }\n  }\n}\n</script>\n";
    let out = patch_classic_login(src, &params(true)).unwrap();
    assert!(out.contains("import { getCodeImg, getSmsCode, smsLogin } from \"@/api/login\""));
    assert!(out.contains("需先通过滑块验证码"));
    assert!(out.find("FORGE_SMS_LOGIN").unwrap() < out.find("<el-form-item prop=\"username\">").unwrap());
    assert!(out.contains("return {\n      loginMode: 'pwd',\n      smsCooldown: 0,\n"));
    assert!(out.contains("rememberMe: false,\n        phone: \"\",\n        smsCode: \"\""));
    // the phone item already names `handleSendSms`, so no method is added
    assert!(!out.contains("handleSendSms() {"));
    assert!(patch_classic_login(&out, &params(true)).is_none());
    let hint = patch_classic_login(src, &params(false)).unwrap();
    assert!(hint.contains("需先填写图形验证码"));
}

#[test]
fn vben_login_gets_sms_mode() {
    let src = "<script setup lang=\"ts\">\nimport { getCaptchaApi } from '#/api';\nconst captchaEnabled = ref(true);\nconst formSchema = computed(() => {\n  return fields;\n});\nasync function onSubmit(values) {\n    await authStore.authLogin({ ...values });\n}\n</script>\n<template>\n  <AuthenticationLogin />\n</template>\n";
    let out = patch_vben_login(src).unwrap();
    assert!(out.contains("import { getCaptchaApi, getSmsCodeApi } from '#/api';"));
    assert!(out.contains("const captchaEnabled = ref(true);\n/** FORGE_SMS_LOGIN */"));
    assert!(out.contains("  if (loginMode.value === 'sms') {\n    void smsCooldown.value"));
    assert!(out.contains("forgeSms: true } as any)"));
    assert!(out.contains("<!-- FORGE_SMS_LOGIN -->\n  <div"));
    assert!(patch_vben_login(&out).is_none());
    let bare = patch_vben_login("plain").unwrap();
    assert_eq!(bare, "import { getSmsCodeApi } from '#/api';\nplain\n<!-- FORGE_SMS_LOGIN -->\n");
}

#[test]
fn arco_login_gets_sms_mode() {
    let src = "import { getCaptchaImage } from '@/api/login'\nconst captchaEnabled = ref(false)\nawait userStore.login({ a })\n<a-form-item field=\"username\" hide-asterisk>\n<a-form-item field=\"password\" hide-asterisk>\n";
    let out = patch_arco_login(src).unwrap();
    assert!(out.starts_with("import { setToken } from '@/utils/auth'\nimport { getCaptchaImage, getSmsCode, smsLogin } from '@/api/login'\n"));
    assert!(out.contains("const smsPhone = ref('')"));
    assert!(out.contains("} else await userStore.login({ a })"));
    assert!(out.contains("<a-form-item v-if=\"loginMode==='pwd'\" field=\"username\" hide-asterisk>"));
    assert!(out.contains("<a-form-item v-if=\"loginMode==='pwd'\" field=\"password\" hide-asterisk>"));
    assert!(patch_arco_login(&out).is_none());
}

#[test]
fn uniapp_login_gets_sms_section() {
    let src = "<template>\n  <view>\n  </view>\n</template>\n<script>\nimport { wechatLogin } from '@/api/auth.js'\n</script>\n";
    let out = patch_uniapp_login_page(src).unwrap();
    assert!(out.contains("import { wechatLogin, getSmsCode, smsLogin } from '@/api/auth.js'"));
    assert!(out.contains("<!-- FORGE_SMS_LOGIN -->"));
    assert!(out.find("FORGE_SMS_LOGIN").unwrap() < out.find("</view>\n</template>").unwrap());
    assert!(patch_uniapp_login_page(&out).is_none());
}
