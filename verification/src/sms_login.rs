//! SMS login: SDK coordinates, configuration properties and the generated Java
//! sources of the code endpoint and the login service.
use vstd::prelude::*;
use crate::params::CustomizeParams;
use crate::text::{chars_of, eq_str, extend_str, string_of};

verus! {

/// Aliyun SMS SDK coordinates.
pub const ALIYUN_SMS_GAV: (&'static str, &'static str, &'static str) = ("com.aliyun", "dysmsapi20170525", "4.5.1");

/// Tencent Cloud SMS SDK coordinates.
pub const TENCENT_SMS_GAV: (&'static str, &'static str, &'static str) = ("com.tencentcloudapi", "tencentcloud-sdk-java-sms", "3.1.1179");

/// Tencent Cloud common SDK coordinates (same version as the SMS SDK).
pub const TENCENT_COMMON_GAV: (&'static str, &'static str, &'static str) = ("com.tencentcloudapi", "tencentcloud-sdk-java-common", "3.1.1179");

/// Result of setting up SMS login.
#[derive(Debug, Clone)]
pub struct SmsLoginOutcome {
    pub modified_files: usize,
    pub created_files: usize,
    pub summary: Vec<String>,
}

/// Aliyun sending code.
pub const ALIYUN_SEND: &'static str = r#"    private void doSend(String phone, String code) throws Exception
    {
        com.aliyun.teaopenapi.models.Config config = new com.aliyun.teaopenapi.models.Config()
            .setAccessKeyId(props.getAccessKey())
            .setAccessKeySecret(props.getSecretKey());
        config.endpoint = "dysmsapi.aliyuncs.com";
        com.aliyun.dysmsapi20170525.Client client = new com.aliyun.dysmsapi20170525.Client(config);
        com.aliyun.dysmsapi20170525.models.SendSmsRequest req = new com.aliyun.dysmsapi20170525.models.SendSmsRequest()
            .setPhoneNumbers(phone)
            .setSignName(props.getSignName())
            .setTemplateCode(props.getTemplateCode())
            .setTemplateParam("{\"code\":\"" + code + "\"}");
        client.sendSms(req);
    }"#;

/// Tencent Cloud sending code.
pub const TENCENT_SEND: &'static str = r#"    private void doSend(String phone, String code) throws Exception
    {
        com.tencentcloudapi.common.Credential cred = new com.tencentcloudapi.common.Credential(
            props.getAccessKey(), props.getSecretKey());
        com.tencentcloudapi.sms.v20210111.SmsClient client =
            new com.tencentcloudapi.sms.v20210111.SmsClient(cred, "ap-guangzhou");
        com.tencentcloudapi.sms.v20210111.models.SendSmsRequest req =
            new com.tencentcloudapi.sms.v20210111.models.SendSmsRequest();
        req.setSmsSdkAppId(props.getSdkAppId());
        req.setSignName(props.getSignName());
        req.setTemplateId(props.getTemplateCode());
        req.setTemplateParamSet(new String[] { code });
        req.setPhoneNumberSet(new String[] { "+86" + phone });
        client.SendSms(req);
    }"#;

/// `a + b + c` as a new string.
fn join3(a: &str, b: &str, c: &str) -> (r: String)
    ensures
        r@ == a@ + b@ + c@,
{
    let mut v: Vec<char> = Vec::new();
    extend_str(&mut v, a);
    extend_str(&mut v, b);
    extend_str(&mut v, c);
    string_of(&v)
}

/// Servlet namespace: `javax` before Spring Boot 3, `jakarta` from 3 on or when
/// the version is unknown.
pub open spec fn servlet_ns_of(boot_major: Option<u32>) -> Seq<char> {
    if boot_major is Some && boot_major->0 < 3 {
        "javax"@
    } else {
        "jakarta"@
    }
}

/// The servlet namespace for a Spring Boot major version.
pub fn servlet_ns(boot_major: Option<u32>) -> (r: &'static str)
    ensures
        r@ == servlet_ns_of(boot_major),
{
    match boot_major {
        Some(major) => if major < 3 {
            "javax"
        } else {
            "jakarta"
        },
        None => "jakarta",
    }
}

/// Package of the SMS configuration classes.
pub open spec fn sms_config_pkg(pkg: Seq<char>, cloud: bool) -> Seq<char> {
    if cloud {
        ""@ + pkg + ".auth.config"@
    } else {
        ""@ + pkg + ".framework.config"@
    }
}

fn config_pkg(pkg: &str, cloud: bool) -> (r: String)
    ensures
        r@ == sms_config_pkg(pkg@, cloud),
{
    if cloud {
        join3("", pkg, ".auth.config")
    } else {
        join3("", pkg, ".framework.config")
    }
}

/// Text of SmsProperties.java.
pub open spec fn sms_properties_text(pkg: Seq<char>, prefix: Seq<char>) -> Seq<char> {
    "package "@
        + pkg
        + ";\n\nimport org.springframework.boot.context.properties.ConfigurationProperties;\nimport org.springframework.stereotype.Component;\n\n/**\n * 短信登录配置（绑定 "@
        + prefix
        + ".sms）\n */\n@Component\n@ConfigurationProperties(prefix = \""@
        + prefix
        + ".sms\")\npublic class SmsProperties\n{\n    private boolean enabled;\n    private String provider = \"aliyun\";\n    private String signName;\n    private String accessKey;\n    private String secretKey;\n    private String templateCode;\n    private String sdkAppId;\n    private int codeExpireMinutes = 5;\n    private int dailyLimitPerPhone = 10;\n\n    public boolean isEnabled() { return enabled; }\n    public void setEnabled(boolean enabled) { this.enabled = enabled; }\n    public String getProvider() { return provider; }\n    public void setProvider(String provider) { this.provider = provider; }\n    public String getSignName() { return signName; }\n    public void setSignName(String signName) { this.signName = signName; }\n    public String getAccessKey() { return accessKey; }\n    public void setAccessKey(String accessKey) { this.accessKey = accessKey; }\n    public String getSecretKey() { return secretKey; }\n    public void setSecretKey(String secretKey) { this.secretKey = secretKey; }\n    public String getTemplateCode() { return templateCode; }\n    public void setTemplateCode(String templateCode) { this.templateCode = templateCode; }\n    public String getSdkAppId() { return sdkAppId; }\n    public void setSdkAppId(String sdkAppId) { this.sdkAppId = sdkAppId; }\n    public int getCodeExpireMinutes() { return codeExpireMinutes; }\n    public void setCodeExpireMinutes(int codeExpireMinutes) { this.codeExpireMinutes = codeExpireMinutes; }\n    public int getDailyLimitPerPhone() { return dailyLimitPerPhone; }\n    public void setDailyLimitPerPhone(int dailyLimitPerPhone) { this.dailyLimitPerPhone = dailyLimitPerPhone; }\n}\n"@
}

/// Fills the text of SmsProperties.java.
pub fn sms_properties_fill(pkg: &str, prefix: &str) -> (r: String)
    ensures
        r@ == sms_properties_text(pkg@, prefix@),
{
    let mut v: Vec<char> = Vec::new();
    extend_str(&mut v, "package ");
    extend_str(&mut v, pkg);
    extend_str(&mut v, ";\n\nimport org.springframework.boot.context.properties.ConfigurationProperties;\nimport org.springframework.stereotype.Component;\n\n/**\n * 短信登录配置（绑定 ");
    extend_str(&mut v, prefix);
    extend_str(&mut v, ".sms）\n */\n@Component\n@ConfigurationProperties(prefix = \"");
    extend_str(&mut v, prefix);
    extend_str(&mut v, ".sms\")\npublic class SmsProperties\n{\n    private boolean enabled;\n    private String provider = \"aliyun\";\n    private String signName;\n    private String accessKey;\n    private String secretKey;\n    private String templateCode;\n    private String sdkAppId;\n    private int codeExpireMinutes = 5;\n    private int dailyLimitPerPhone = 10;\n\n    public boolean isEnabled() { return enabled; }\n    public void setEnabled(boolean enabled) { this.enabled = enabled; }\n    public String getProvider() { return provider; }\n    public void setProvider(String provider) { this.provider = provider; }\n    public String getSignName() { return signName; }\n    public void setSignName(String signName) { this.signName = signName; }\n    public String getAccessKey() { return accessKey; }\n    public void setAccessKey(String accessKey) { this.accessKey = accessKey; }\n    public String getSecretKey() { return secretKey; }\n    public void setSecretKey(String secretKey) { this.secretKey = secretKey; }\n    public String getTemplateCode() { return templateCode; }\n    public void setTemplateCode(String templateCode) { this.templateCode = templateCode; }\n    public String getSdkAppId() { return sdkAppId; }\n    public void setSdkAppId(String sdkAppId) { this.sdkAppId = sdkAppId; }\n    public int getCodeExpireMinutes() { return codeExpireMinutes; }\n    public void setCodeExpireMinutes(int codeExpireMinutes) { this.codeExpireMinutes = codeExpireMinutes; }\n    public int getDailyLimitPerPhone() { return dailyLimitPerPhone; }\n    public void setDailyLimitPerPhone(int dailyLimitPerPhone) { this.dailyLimitPerPhone = dailyLimitPerPhone; }\n}\n");
    string_of(&v)
}

/// Text of SmsCodeService.java.
pub open spec fn sms_code_service_text(pkg: Seq<char>, redis_import: Seq<char>, prefix: Seq<char>, ty: Seq<char>, field: Seq<char>, get: Seq<char>, set: Seq<char>, del: Seq<char>, send: Seq<char>) -> Seq<char> {
    "package "@
        + pkg
        + ";\n\n"@
        + redis_import
        + "\nimport org.springframework.beans.factory.annotation.Autowired;\nimport org.springframework.boot.autoconfigure.condition.ConditionalOnProperty;\nimport org.springframework.stereotype.Service;\n\nimport java.time.LocalDate;\nimport java.time.format.DateTimeFormatter;\nimport java.util.concurrent.ThreadLocalRandom;\nimport java.util.concurrent.TimeUnit;\n\n/**\n * 短信登录验证码：Redis sms:login:{phone} TTL=expire；冷却 sms:login:cool:{phone} 60s；\n * 日限额 sms:login:day:{phone}:yyyyMMdd。优先 RedisCache / RedisService。\n */\n@Service\n@ConditionalOnProperty(prefix = \""@
        + prefix
        + ".sms\", name = \"enabled\", havingValue = \"true\")\npublic class SmsCodeService\n{\n    @Autowired\n    private SmsProperties props;\n\n    @Autowired\n    private "@
        + ty
        + " "@
        + field
        + ";\n\n    public void sendLoginCode(String phone) throws Exception\n    {\n        if (phone == null || !phone.matches(\"^1\\\\d{10}$\"))\n        {\n            throw new RuntimeException(\"手机号格式不正确\");\n        }\n        String coolKey = \"sms:login:cool:\" + phone;\n        if ("@
        + get
        + "(coolKey) != null)\n        {\n            throw new RuntimeException(\"发送过于频繁，请 60 秒后重试\");\n        }\n        String day = LocalDate.now().format(DateTimeFormatter.BASIC_ISO_DATE);\n        String dayKey = \"sms:login:day:\" + phone + \":\" + day;\n        Object dayObj = "@
        + get
        + "(dayKey);\n        int used = 0;\n        if (dayObj instanceof Number) { used = ((Number) dayObj).intValue(); }\n        else if (dayObj != null) { try { used = Integer.parseInt(String.valueOf(dayObj)); } catch (Exception ignored) {} }\n        if (used >= props.getDailyLimitPerPhone())\n        {\n            throw new RuntimeException(\"今日发送次数已达上限\");\n        }\n        String code = String.format(\"%06d\", ThreadLocalRandom.current().nextInt(1000000));\n        String codeKey = \"sms:login:\" + phone;\n        "@
        + set
        + "(codeKey, code, (long) props.getCodeExpireMinutes(), TimeUnit.MINUTES);\n        "@
        + set
        + "(coolKey, \"1\", 60L, TimeUnit.SECONDS);\n        "@
        + set
        + "(dayKey, used + 1, 1L, TimeUnit.DAYS);\n        doSend(phone, code);\n    }\n\n    public boolean verifyLoginCode(String phone, String code)\n    {\n        if (phone == null || code == null) { return false; }\n        String codeKey = \"sms:login:\" + phone;\n        Object cached = "@
        + get
        + "(codeKey);\n        if (cached == null || !code.equals(String.valueOf(cached))) { return false; }\n        "@
        + del
        + "(codeKey);\n        return true;\n    }\n\n"@
        + send
        + "\n}\n"@
}

/// Fills the text of SmsCodeService.java.
pub fn sms_code_service_fill(pkg: &str, redis_import: &str, prefix: &str, ty: &str, field: &str, get: &str, set: &str, del: &str, send: &str) -> (r: String)
    ensures
        r@ == sms_code_service_text(pkg@, redis_import@, prefix@, ty@, field@, get@, set@, del@, send@),
{
    let mut v: Vec<char> = Vec::new();
    extend_str(&mut v, "package ");
    extend_str(&mut v, pkg);
    extend_str(&mut v, ";\n\n");
    extend_str(&mut v, redis_import);
    extend_str(&mut v, "\nimport org.springframework.beans.factory.annotation.Autowired;\nimport org.springframework.boot.autoconfigure.condition.ConditionalOnProperty;\nimport org.springframework.stereotype.Service;\n\nimport java.time.LocalDate;\nimport java.time.format.DateTimeFormatter;\nimport java.util.concurrent.ThreadLocalRandom;\nimport java.util.concurrent.TimeUnit;\n\n/**\n * 短信登录验证码：Redis sms:login:{phone} TTL=expire；冷却 sms:login:cool:{phone} 60s；\n * 日限额 sms:login:day:{phone}:yyyyMMdd。优先 RedisCache / RedisService。\n */\n@Service\n@ConditionalOnProperty(prefix = \"");
    extend_str(&mut v, prefix);
    extend_str(&mut v, ".sms\", name = \"enabled\", havingValue = \"true\")\npublic class SmsCodeService\n{\n    @Autowired\n    private SmsProperties props;\n\n    @Autowired\n    private ");
    extend_str(&mut v, ty);
    extend_str(&mut v, " ");
    extend_str(&mut v, field);
    extend_str(&mut v, ";\n\n    public void sendLoginCode(String phone) throws Exception\n    {\n        if (phone == null || !phone.matches(\"^1\\\\d{10}$\"))\n        {\n            throw new RuntimeException(\"手机号格式不正确\");\n        }\n        String coolKey = \"sms:login:cool:\" + phone;\n        if (");
    extend_str(&mut v, get);
    extend_str(&mut v, "(coolKey) != null)\n        {\n            throw new RuntimeException(\"发送过于频繁，请 60 秒后重试\");\n        }\n        String day = LocalDate.now().format(DateTimeFormatter.BASIC_ISO_DATE);\n        String dayKey = \"sms:login:day:\" + phone + \":\" + day;\n        Object dayObj = ");
    extend_str(&mut v, get);
    extend_str(&mut v, "(dayKey);\n        int used = 0;\n        if (dayObj instanceof Number) { used = ((Number) dayObj).intValue(); }\n        else if (dayObj != null) { try { used = Integer.parseInt(String.valueOf(dayObj)); } catch (Exception ignored) {} }\n        if (used >= props.getDailyLimitPerPhone())\n        {\n            throw new RuntimeException(\"今日发送次数已达上限\");\n        }\n        String code = String.format(\"%06d\", ThreadLocalRandom.current().nextInt(1000000));\n        String codeKey = \"sms:login:\" + phone;\n        ");
    extend_str(&mut v, set);
    extend_str(&mut v, "(codeKey, code, (long) props.getCodeExpireMinutes(), TimeUnit.MINUTES);\n        ");
    extend_str(&mut v, set);
    extend_str(&mut v, "(coolKey, \"1\", 60L, TimeUnit.SECONDS);\n        ");
    extend_str(&mut v, set);
    extend_str(&mut v, "(dayKey, used + 1, 1L, TimeUnit.DAYS);\n        doSend(phone, code);\n    }\n\n    public boolean verifyLoginCode(String phone, String code)\n    {\n        if (phone == null || code == null) { return false; }\n        String codeKey = \"sms:login:\" + phone;\n        Object cached = ");
    extend_str(&mut v, get);
    extend_str(&mut v, "(codeKey);\n        if (cached == null || !code.equals(String.valueOf(cached))) { return false; }\n        ");
    extend_str(&mut v, del);
    extend_str(&mut v, "(codeKey);\n        return true;\n    }\n\n");
    extend_str(&mut v, send);
    extend_str(&mut v, "\n}\n");
    string_of(&v)
}

/// Text of SmsAuthController.java.
pub open spec fn sms_controller_text(java_pkg: Seq<char>, cfg: Seq<char>, ajax_import: Seq<char>, redis_import: Seq<char>, servlet: Seq<char>, extra: Seq<char>, redis_field: Seq<char>, ret: Seq<char>, captcha: Seq<char>, ok_msg: Seq<char>, err: Seq<char>, login_body: Seq<char>) -> Seq<char> {
    "package "@
        + java_pkg
        + ";\n\nimport "@
        + cfg
        + ";\n"@
        + ajax_import
        + "\n"@
        + redis_import
        + "\nimport org.springframework.beans.factory.annotation.Autowired;\nimport org.springframework.web.bind.annotation.PostMapping;\nimport org.springframework.web.bind.annotation.RequestBody;\nimport org.springframework.web.bind.annotation.RestController;\nimport "@
        + servlet
        + ".servlet.http.HttpServletRequest;\n\nimport java.util.Map;\n\n/**\n * 短信登录：POST /smsCode、POST /smsLogin。\n * Cloud 网关 /auth/** StripPrefix=1，外网 /auth/smsCode、/auth/smsLogin。\n */\n@RestController\npublic class SmsAuthController\n{\n    @Autowired\n    private SmsCodeService smsCodeService;\n"@
        + extra
        + redis_field
        + "\n    @PostMapping(\"/smsCode\")\n    public "@
        + ret
        + " smsCode(@RequestBody Map<String, String> body, HttpServletRequest request)\n    {\n        try\n        {\n"@
        + captcha
        + "\n            String phone = body.get(\"phone\") != null ? body.get(\"phone\") : body.get(\"phonenumber\");\n            smsCodeService.sendLoginCode(phone);\n            "@
        + ok_msg
        + "\n        }\n        catch (Exception e)\n        {\n            return "@
        + err
        + "(e.getMessage());\n        }\n    }\n\n    @PostMapping(\"/smsLogin\")\n    public "@
        + ret
        + " smsLogin(@RequestBody Map<String, String> body)\n    {\n        String phone = body.get(\"phone\") != null ? body.get(\"phone\") : body.get(\"phonenumber\");\n        String smsCode = body.get(\"smsCode\") != null ? body.get(\"smsCode\") : body.get(\"code\");\n        try\n        {\n"@
        + login_body
        + "\n        }\n        catch (Exception e)\n        {\n            return "@
        + err
        + "(e.getMessage());\n        }\n    }\n}\n"@
}

/// Fills the text of SmsAuthController.java.
pub fn sms_controller_fill(java_pkg: &str, cfg: &str, ajax_import: &str, redis_import: &str, servlet: &str, extra: &str, redis_field: &str, ret: &str, captcha: &str, ok_msg: &str, err: &str, login_body: &str) -> (r: String)
    ensures
        r@ == sms_controller_text(java_pkg@, cfg@, ajax_import@, redis_import@, servlet@, extra@, redis_field@, ret@, captcha@, ok_msg@, err@, login_body@),
{
    let mut v: Vec<char> = Vec::new();
    extend_str(&mut v, "package ");
    extend_str(&mut v, java_pkg);
    extend_str(&mut v, ";\n\nimport ");
    extend_str(&mut v, cfg);
    extend_str(&mut v, ";\n");
    extend_str(&mut v, ajax_import);
    extend_str(&mut v, "\n");
    extend_str(&mut v, redis_import);
    extend_str(&mut v, "\nimport org.springframework.beans.factory.annotation.Autowired;\nimport org.springframework.web.bind.annotation.PostMapping;\nimport org.springframework.web.bind.annotation.RequestBody;\nimport org.springframework.web.bind.annotation.RestController;\nimport ");
    extend_str(&mut v, servlet);
    extend_str(&mut v, ".servlet.http.HttpServletRequest;\n\nimport java.util.Map;\n\n/**\n * 短信登录：POST /smsCode、POST /smsLogin。\n * Cloud 网关 /auth/** StripPrefix=1，外网 /auth/smsCode、/auth/smsLogin。\n */\n@RestController\npublic class SmsAuthController\n{\n    @Autowired\n    private SmsCodeService smsCodeService;\n");
    extend_str(&mut v, extra);
    extend_str(&mut v, redis_field);
    extend_str(&mut v, "\n    @PostMapping(\"/smsCode\")\n    public ");
    extend_str(&mut v, ret);
    extend_str(&mut v, " smsCode(@RequestBody Map<String, String> body, HttpServletRequest request)\n    {\n        try\n        {\n");
    extend_str(&mut v, captcha);
    extend_str(&mut v, "\n            String phone = body.get(\"phone\") != null ? body.get(\"phone\") : body.get(\"phonenumber\");\n            smsCodeService.sendLoginCode(phone);\n            ");
    extend_str(&mut v, ok_msg);
    extend_str(&mut v, "\n        }\n        catch (Exception e)\n        {\n            return ");
    extend_str(&mut v, err);
    extend_str(&mut v, "(e.getMessage());\n        }\n    }\n\n    @PostMapping(\"/smsLogin\")\n    public ");
    extend_str(&mut v, ret);
    extend_str(&mut v, " smsLogin(@RequestBody Map<String, String> body)\n    {\n        String phone = body.get(\"phone\") != null ? body.get(\"phone\") : body.get(\"phonenumber\");\n        String smsCode = body.get(\"smsCode\") != null ? body.get(\"smsCode\") : body.get(\"code\");\n        try\n        {\n");
    extend_str(&mut v, login_body);
    extend_str(&mut v, "\n        }\n        catch (Exception e)\n        {\n            return ");
    extend_str(&mut v, err);
    extend_str(&mut v, "(e.getMessage());\n        }\n    }\n}\n");
    string_of(&v)
}

/// Picture-captcha check of the SMS code endpoint.
pub open spec fn graphic_check_text(fail: Seq<char>, key: Seq<char>, get: Seq<char>, del: Seq<char>, fail2: Seq<char>) -> Seq<char> {
    "            String uuid = body.get(\"uuid\");\n            String code = body.get(\"code\");\n            if (uuid == null || code == null) { "@
        + fail
        + "; }\n            String verifyKey = "@
        + key
        + ";\n            Object captcha = "@
        + get
        + "(verifyKey);\n            "@
        + del
        + "(verifyKey);\n            if (captcha == null || !code.equalsIgnoreCase(String.valueOf(captcha))) { "@
        + fail2
        + "; }"@
}

/// Fills the picture-captcha check of the SMS code endpoint.
pub fn graphic_check_fill(fail: &str, key: &str, get: &str, del: &str, fail2: &str) -> (r: String)
    ensures
        r@ == graphic_check_text(fail@, key@, get@, del@, fail2@),
{
    let mut v: Vec<char> = Vec::new();
    extend_str(&mut v, "            String uuid = body.get(\"uuid\");\n            String code = body.get(\"code\");\n            if (uuid == null || code == null) { ");
    extend_str(&mut v, fail);
    extend_str(&mut v, "; }\n            String verifyKey = ");
    extend_str(&mut v, key);
    extend_str(&mut v, ";\n            Object captcha = ");
    extend_str(&mut v, get);
    extend_str(&mut v, "(verifyKey);\n            ");
    extend_str(&mut v, del);
    extend_str(&mut v, "(verifyKey);\n            if (captcha == null || !code.equalsIgnoreCase(String.valueOf(captcha))) { ");
    extend_str(&mut v, fail2);
    extend_str(&mut v, "; }");
    string_of(&v)
}

/// Slider-captcha check of the SMS code endpoint.
pub open spec fn slider_check_text(fail: Seq<char>, fail2: Seq<char>) -> Seq<char> {
    "            String captchaVerification = body.get(\"captchaVerification\");\n            if (captchaVerification == null || captchaVerification.isEmpty()) { "@
        + fail
        + "; }\n            com.anji.captcha.model.vo.CaptchaVO vo = new com.anji.captcha.model.vo.CaptchaVO();\n            vo.setCaptchaVerification(captchaVerification);\n            com.anji.captcha.service.CaptchaService captchaService = org.springframework.web.context.support.WebApplicationContextUtils\n                .getRequiredWebApplicationContext(request.getServletContext())\n                .getBean(com.anji.captcha.service.CaptchaService.class);\n            com.anji.captcha.model.common.ResponseModel resp = captchaService.verification(vo);\n            if (resp == null || !resp.isSuccess()) { "@
        + fail2
        + "; }"@
}

/// Fills the slider-captcha check of the SMS code endpoint.
pub fn slider_check_fill(fail: &str, fail2: &str) -> (r: String)
    ensures
        r@ == slider_check_text(fail@, fail2@),
{
    let mut v: Vec<char> = Vec::new();
    extend_str(&mut v, "            String captchaVerification = body.get(\"captchaVerification\");\n            if (captchaVerification == null || captchaVerification.isEmpty()) { ");
    extend_str(&mut v, fail);
    extend_str(&mut v, "; }\n            com.anji.captcha.model.vo.CaptchaVO vo = new com.anji.captcha.model.vo.CaptchaVO();\n            vo.setCaptchaVerification(captchaVerification);\n            com.anji.captcha.service.CaptchaService captchaService = org.springframework.web.context.support.WebApplicationContextUtils\n                .getRequiredWebApplicationContext(request.getServletContext())\n                .getBean(com.anji.captcha.service.CaptchaService.class);\n            com.anji.captcha.model.common.ResponseModel resp = captchaService.verification(vo);\n            if (resp == null || !resp.isSuccess()) { ");
    extend_str(&mut v, fail2);
    extend_str(&mut v, "; }");
    string_of(&v)
}

/// SMS login method added to SysLoginService (single application).
pub open spec fn vue_sms_login_text(sms_fqcn: Seq<char>, phone_method: Seq<char>) -> Seq<char> {
    "\n    @org.springframework.beans.factory.annotation.Autowired(required = false)\n    private "@
        + sms_fqcn
        + " forgeSmsCodeService;\n\n    /** 短信验证码登录：校验 Redis 码 → "@
        + phone_method
        + " → 复用权限/日志/token */\n    public String smsLogin(String phone, String code)\n    {\n        if (forgeSmsCodeService == null || !forgeSmsCodeService.verifyLoginCode(phone, code))\n        {\n            AsyncManager.me().execute(AsyncFactory.recordLogininfor(phone, Constants.LOGIN_FAIL, \"短信验证码错误\"));\n            throw new ServiceException(\"短信验证码错误或已过期\");\n        }\n        SysUser user = userService."@
        + phone_method
        + "(phone);\n        if (StringUtils.isNull(user))\n        {\n            throw new ServiceException(\"该手机号未注册\");\n        }\n        if (UserStatus.DELETED.getCode().equals(user.getDelFlag()))\n        {\n            throw new ServiceException(\"对不起，您的账号已被删除\");\n        }\n        if (UserStatus.DISABLE.getCode().equals(user.getStatus()))\n        {\n            throw new ServiceException(\"对不起，您的账号已停用\");\n        }\n        AsyncManager.me().execute(AsyncFactory.recordLogininfor(user.getUserName(), Constants.LOGIN_SUCCESS, MessageUtils.message(\"user.login.success\")));\n        LoginUser loginUser = new LoginUser(user.getUserId(), user.getDeptId(), user, permissionService.getMenuPermission(user));\n        recordLoginInfo(loginUser.getUserId());\n        return tokenService.createToken(loginUser);\n    }\n\n"@
}

/// Fills the sMS login method added to SysLoginService (single application).
pub fn vue_sms_login_fill(sms_fqcn: &str, phone_method: &str) -> (r: String)
    ensures
        r@ == vue_sms_login_text(sms_fqcn@, phone_method@),
{
    let mut v: Vec<char> = Vec::new();
    extend_str(&mut v, "\n    @org.springframework.beans.factory.annotation.Autowired(required = false)\n    private ");
    extend_str(&mut v, sms_fqcn);
    extend_str(&mut v, " forgeSmsCodeService;\n\n    /** 短信验证码登录：校验 Redis 码 → ");
    extend_str(&mut v, phone_method);
    extend_str(&mut v, " → 复用权限/日志/token */\n    public String smsLogin(String phone, String code)\n    {\n        if (forgeSmsCodeService == null || !forgeSmsCodeService.verifyLoginCode(phone, code))\n        {\n            AsyncManager.me().execute(AsyncFactory.recordLogininfor(phone, Constants.LOGIN_FAIL, \"短信验证码错误\"));\n            throw new ServiceException(\"短信验证码错误或已过期\");\n        }\n        SysUser user = userService.");
    extend_str(&mut v, phone_method);
    extend_str(&mut v, "(phone);\n        if (StringUtils.isNull(user))\n        {\n            throw new ServiceException(\"该手机号未注册\");\n        }\n        if (UserStatus.DELETED.getCode().equals(user.getDelFlag()))\n        {\n            throw new ServiceException(\"对不起，您的账号已被删除\");\n        }\n        if (UserStatus.DISABLE.getCode().equals(user.getStatus()))\n        {\n            throw new ServiceException(\"对不起，您的账号已停用\");\n        }\n        AsyncManager.me().execute(AsyncFactory.recordLogininfor(user.getUserName(), Constants.LOGIN_SUCCESS, MessageUtils.message(\"user.login.success\")));\n        LoginUser loginUser = new LoginUser(user.getUserId(), user.getDeptId(), user, permissionService.getMenuPermission(user));\n        recordLoginInfo(loginUser.getUserId());\n        return tokenService.createToken(loginUser);\n    }\n\n");
    string_of(&v)
}

/// SMS login method added to the Cloud auth SysLoginService.
pub open spec fn cloud_sms_login_text(sms_fqcn: Seq<char>, phone_method: Seq<char>) -> Seq<char> {
    "\n    @org.springframework.beans.factory.annotation.Autowired(required = false)\n    private "@
        + sms_fqcn
        + " forgeSmsCodeService;\n\n    /**\n     * 短信验证码登录（Cloud auth）。手机号用户经 RemoteUserService 拉取。\n     * selectUserByPhonenumber 在 system 侧，auth 通过 Feign inner 接口访问。\n     */\n    public LoginUser smsLogin(String phone, String code)\n    {\n        if (forgeSmsCodeService == null || !forgeSmsCodeService.verifyLoginCode(phone, code))\n        {\n            throw new ServiceException(\"短信验证码错误或已过期\");\n        }\n        R<LoginUser> userResult = remoteUserService.getUserInfoByPhonenumber(phone, SecurityConstants.INNER);\n        if (StringUtils.isNull(userResult) || StringUtils.isNull(userResult.getData()))\n        {\n            throw new ServiceException(\"该手机号未注册\");\n        }\n        LoginUser userInfo = userResult.getData();\n        SysUser sysUser = userInfo.getSysUser();\n        if (sysUser != null)\n        {\n            if (UserStatus.DELETED.getCode().equals(sysUser.getDelFlag()))\n            {\n                throw new ServiceException(\"对不起，您的账号已被删除\");\n            }\n            if (UserStatus.DISABLE.getCode().equals(sysUser.getStatus()))\n            {\n                throw new ServiceException(\"对不起，您的账号已停用\");\n            }\n        }\n        recordLoginInfo(userInfo.getSysUser());\n        return userInfo;\n    }\n\n    // 保留 "@
        + phone_method
        + " 名称供对照：实际走 Feign getUserInfoByPhonenumber\n"@
}

/// Fills the sMS login method added to the Cloud auth SysLoginService.
pub fn cloud_sms_login_fill(sms_fqcn: &str, phone_method: &str) -> (r: String)
    ensures
        r@ == cloud_sms_login_text(sms_fqcn@, phone_method@),
{
    let mut v: Vec<char> = Vec::new();
    extend_str(&mut v, "\n    @org.springframework.beans.factory.annotation.Autowired(required = false)\n    private ");
    extend_str(&mut v, sms_fqcn);
    extend_str(&mut v, " forgeSmsCodeService;\n\n    /**\n     * 短信验证码登录（Cloud auth）。手机号用户经 RemoteUserService 拉取。\n     * selectUserByPhonenumber 在 system 侧，auth 通过 Feign inner 接口访问。\n     */\n    public LoginUser smsLogin(String phone, String code)\n    {\n        if (forgeSmsCodeService == null || !forgeSmsCodeService.verifyLoginCode(phone, code))\n        {\n            throw new ServiceException(\"短信验证码错误或已过期\");\n        }\n        R<LoginUser> userResult = remoteUserService.getUserInfoByPhonenumber(phone, SecurityConstants.INNER);\n        if (StringUtils.isNull(userResult) || StringUtils.isNull(userResult.getData()))\n        {\n            throw new ServiceException(\"该手机号未注册\");\n        }\n        LoginUser userInfo = userResult.getData();\n        SysUser sysUser = userInfo.getSysUser();\n        if (sysUser != null)\n        {\n            if (UserStatus.DELETED.getCode().equals(sysUser.getDelFlag()))\n            {\n                throw new ServiceException(\"对不起，您的账号已被删除\");\n            }\n            if (UserStatus.DISABLE.getCode().equals(sysUser.getStatus()))\n            {\n                throw new ServiceException(\"对不起，您的账号已停用\");\n            }\n        }\n        recordLoginInfo(userInfo.getSysUser());\n        return userInfo;\n    }\n\n    // 保留 ");
    extend_str(&mut v, phone_method);
    extend_str(&mut v, " 名称供对照：实际走 Feign getUserInfoByPhonenumber\n");
    string_of(&v)
}

/// Text of SysPhoneInnerController.java.
pub open spec fn phone_inner_controller_text(pkg: Seq<char>, phone_method: Seq<char>) -> Seq<char> {
    "package "@
        + pkg
        + ".system.controller;\n\nimport org.springframework.beans.factory.annotation.Autowired;\nimport org.springframework.web.bind.annotation.GetMapping;\nimport org.springframework.web.bind.annotation.PathVariable;\nimport org.springframework.web.bind.annotation.RestController;\nimport "@
        + pkg
        + ".common.core.domain.R;\nimport "@
        + pkg
        + ".common.core.domain.entity.SysUser;\nimport "@
        + pkg
        + ".common.core.domain.model.LoginUser;\nimport "@
        + pkg
        + ".common.core.enums.UserStatus;\nimport "@
        + pkg
        + ".common.core.exception.ServiceException;\nimport "@
        + pkg
        + ".common.security.annotation.InnerAuth;\nimport "@
        + pkg
        + ".system.service.ISysPermissionService;\nimport "@
        + pkg
        + ".system.service.ISysUserService;\n\n/**\n * 内部接口：按手机号取 LoginUser，供 auth 短信登录 Feign 调用。\n */\n@RestController\npublic class SysPhoneInnerController\n{\n    @Autowired\n    private ISysUserService userService;\n\n    @Autowired(required = false)\n    private ISysPermissionService permissionService;\n\n    @InnerAuth\n    @GetMapping(\"/user/info/phone/{phonenumber}\")\n    public R<LoginUser> infoByPhone(@PathVariable(\"phonenumber\") String phonenumber)\n    {\n        SysUser sysUser = userService."@
        + phone_method
        + "(phonenumber);\n        if (sysUser == null)\n        {\n            return R.fail(\"用户不存在\");\n        }\n        if (UserStatus.DELETED.getCode().equals(sysUser.getDelFlag()))\n        {\n            throw new ServiceException(\"对不起，您的账号已被删除\");\n        }\n        if (UserStatus.DISABLE.getCode().equals(sysUser.getStatus()))\n        {\n            throw new ServiceException(\"对不起，您的账号已停用\");\n        }\n        LoginUser loginUser = new LoginUser();\n        loginUser.setSysUser(sysUser);\n        loginUser.setUserid(sysUser.getUserId());\n        loginUser.setUsername(sysUser.getUserName());\n        if (permissionService != null)\n        {\n            loginUser.setPermissions(permissionService.getMenuPermission(sysUser.getUserId()));\n        }\n        return R.ok(loginUser);\n    }\n}\n"@
}

/// Fills the text of SysPhoneInnerController.java.
pub fn phone_inner_controller_fill(pkg: &str, phone_method: &str) -> (r: String)
    ensures
        r@ == phone_inner_controller_text(pkg@, phone_method@),
{
    let mut v: Vec<char> = Vec::new();
    extend_str(&mut v, "package ");
    extend_str(&mut v, pkg);
    extend_str(&mut v, ".system.controller;\n\nimport org.springframework.beans.factory.annotation.Autowired;\nimport org.springframework.web.bind.annotation.GetMapping;\nimport org.springframework.web.bind.annotation.PathVariable;\nimport org.springframework.web.bind.annotation.RestController;\nimport ");
    extend_str(&mut v, pkg);
    extend_str(&mut v, ".common.core.domain.R;\nimport ");
    extend_str(&mut v, pkg);
    extend_str(&mut v, ".common.core.domain.entity.SysUser;\nimport ");
    extend_str(&mut v, pkg);
    extend_str(&mut v, ".common.core.domain.model.LoginUser;\nimport ");
    extend_str(&mut v, pkg);
    extend_str(&mut v, ".common.core.enums.UserStatus;\nimport ");
    extend_str(&mut v, pkg);
    extend_str(&mut v, ".common.core.exception.ServiceException;\nimport ");
    extend_str(&mut v, pkg);
    extend_str(&mut v, ".common.security.annotation.InnerAuth;\nimport ");
    extend_str(&mut v, pkg);
    extend_str(&mut v, ".system.service.ISysPermissionService;\nimport ");
    extend_str(&mut v, pkg);
    extend_str(&mut v, ".system.service.ISysUserService;\n\n/**\n * 内部接口：按手机号取 LoginUser，供 auth 短信登录 Feign 调用。\n */\n@RestController\npublic class SysPhoneInnerController\n{\n    @Autowired\n    private ISysUserService userService;\n\n    @Autowired(required = false)\n    private ISysPermissionService permissionService;\n\n    @InnerAuth\n    @GetMapping(\"/user/info/phone/{phonenumber}\")\n    public R<LoginUser> infoByPhone(@PathVariable(\"phonenumber\") String phonenumber)\n    {\n        SysUser sysUser = userService.");
    extend_str(&mut v, phone_method);
    extend_str(&mut v, "(phonenumber);\n        if (sysUser == null)\n        {\n            return R.fail(\"用户不存在\");\n        }\n        if (UserStatus.DELETED.getCode().equals(sysUser.getDelFlag()))\n        {\n            throw new ServiceException(\"对不起，您的账号已被删除\");\n        }\n        if (UserStatus.DISABLE.getCode().equals(sysUser.getStatus()))\n        {\n            throw new ServiceException(\"对不起，您的账号已停用\");\n        }\n        LoginUser loginUser = new LoginUser();\n        loginUser.setSysUser(sysUser);\n        loginUser.setUserid(sysUser.getUserId());\n        loginUser.setUsername(sysUser.getUserName());\n        if (permissionService != null)\n        {\n            loginUser.setPermissions(permissionService.getMenuPermission(sysUser.getUserId()));\n        }\n        return R.ok(loginUser);\n    }\n}\n");
    string_of(&v)
}

/// SmsProperties.java (bound to `{prefix}.sms`).
pub fn render_sms_properties(params: &CustomizeParams, cloud: bool) -> (r: String)
    ensures
        r@ == sms_properties_text(sms_config_pkg(params.new_package@, cloud), params.new_module_prefix@),
{
    let pkg = config_pkg(params.new_package.as_str(), cloud);
    sms_properties_fill(pkg.as_str(), params.new_module_prefix.as_str())
}

/// Import of the Redis helper: `RedisService` (Cloud) or `RedisCache`.
pub open spec fn redis_import_of(pkg: Seq<char>, redis_svc: bool) -> Seq<char> {
    if redis_svc {
        "import "@ + pkg + ".common.redis.service.RedisService;"@
    } else {
        "import "@ + pkg + ".common.core.redis.RedisCache;"@
    }
}

fn redis_import(pkg: &str, redis_svc: bool) -> (r: String)
    ensures
        r@ == redis_import_of(pkg@, redis_svc),
{
    if redis_svc {
        join3("import ", pkg, ".common.redis.service.RedisService;")
    } else {
        join3("import ", pkg, ".common.core.redis.RedisCache;")
    }
}

/// The sending code of the vendor: Tencent Cloud for `tencent`, Aliyun otherwise.
pub open spec fn send_code_of(provider: Seq<char>) -> Seq<char> {
    if provider == "tencent"@ {
        TENCENT_SEND@
    } else {
        ALIYUN_SEND@
    }
}

/// SmsCodeService.java: code, cool-down and daily-limit keys in Redis, and the
/// vendor's sending code.
pub fn render_sms_code_service(params: &CustomizeParams, cloud: bool, redis_svc: bool) -> (r: String)
    ensures
        r@ == sms_code_service_text(
            sms_config_pkg(params.new_package@, cloud),
            redis_import_of(params.new_package@, redis_svc),
            params.new_module_prefix@,
            if redis_svc { "RedisService"@ } else { "RedisCache"@ },
            if redis_svc { "redisService"@ } else { "redisCache"@ },
            if redis_svc { "redisService.getCacheObject"@ } else { "redisCache.getCacheObject"@ },
            if redis_svc { "redisService.setCacheObject"@ } else { "redisCache.setCacheObject"@ },
            if redis_svc { "redisService.deleteObject"@ } else { "redisCache.deleteObject"@ },
            send_code_of(params.sms_provider@),
        ),
{
    let pkg = config_pkg(params.new_package.as_str(), cloud);
    let imp = redis_import(params.new_package.as_str(), redis_svc);
    let (field, ty, get, set, del) = if redis_svc {
        (
            "redisService",
            "RedisService",
            "redisService.getCacheObject",
            "redisService.setCacheObject",
            "redisService.deleteObject",
        )
    } else {
        (
            "redisCache",
            "RedisCache",
            "redisCache.getCacheObject",
            "redisCache.setCacheObject",
            "redisCache.deleteObject",
        )
    };
    let send = if eq_str(&chars_of(params.sms_provider.as_str()), "tencent") {
        TENCENT_SEND
    } else {
        ALIYUN_SEND
    };
    sms_code_service_fill(
        pkg.as_str(),
        imp.as_str(),
        params.new_module_prefix.as_str(),
        ty,
        field,
        get,
        set,
        del,
        send,
    )
}

/// Failure statement when the picture captcha is missing.
pub open spec fn captcha_missing(cloud: bool) -> Seq<char> {
    if cloud {
        "return R.fail(\"请先完成图形验证码\")"@
    } else {
        "return AjaxResult.error(\"请先完成图形验证码\")"@
    }
}

/// Failure statement when the picture captcha is wrong.
pub open spec fn captcha_wrong(cloud: bool) -> Seq<char> {
    if cloud {
        "return R.fail(\"图形验证码错误\")"@
    } else {
        "return AjaxResult.error(\"图形验证码错误\")"@
    }
}

/// Redis key expression of the picture captcha.
pub open spec fn captcha_key(redis_svc: bool, pkg: Seq<char>) -> Seq<char> {
    if redis_svc {
        "\"captcha_codes:\" + uuid"@
    } else {
        ""@ + pkg + ".common.constant.CacheConstants.CAPTCHA_CODE_KEY + uuid"@
    }
}

/// Java statements checking the picture captcha before a code is sent.
pub fn graphic_check(cloud: bool, redis_svc: bool, pkg: &str) -> (r: String)
    ensures
        r@ == graphic_check_text(
            captcha_missing(cloud),
            captcha_key(redis_svc, pkg@),
            if redis_svc { "redisService.getCacheObject"@ } else { "redisCache.getCacheObject"@ },
            if redis_svc { "redisService.deleteObject"@ } else { "redisCache.deleteObject"@ },
            captcha_wrong(cloud),
        ),
{
    let fail = if cloud {
        "return R.fail(\"请先完成图形验证码\")"
    } else {
        "return AjaxResult.error(\"请先完成图形验证码\")"
    };
    let fail2 = if cloud {
        "return R.fail(\"图形验证码错误\")"
    } else {
        "return AjaxResult.error(\"图形验证码错误\")"
    };
    let (get, del) = if redis_svc {
        ("redisService.getCacheObject", "redisService.deleteObject")
    } else {
        ("redisCache.getCacheObject", "redisCache.deleteObject")
    };
    let key = if redis_svc {
        join3("", "\"captcha_codes:\" + uuid", "")
    } else {
        join3("", pkg, ".common.constant.CacheConstants.CAPTCHA_CODE_KEY + uuid")
    };
    proof {
        reveal_strlit("");
        if redis_svc {
            assert(key@ =~= captcha_key(redis_svc, pkg@));
        }
    }
    graphic_check_fill(fail, key.as_str(), get, del, fail2)
}

/// Failure statement when the slider captcha is missing.
pub open spec fn slider_missing(cloud: bool) -> Seq<char> {
    if cloud {
        "return R.fail(\"请先完成滑块验证码\")"@
    } else {
        "return AjaxResult.error(\"请先完成滑块验证码\")"@
    }
}

/// Failure statement when the slider verification fails.
pub open spec fn slider_failed(cloud: bool) -> Seq<char> {
    if cloud {
        "return R.fail(\"滑块验证失败\")"@
    } else {
        "return AjaxResult.error(\"滑块验证失败\")"@
    }
}

/// Java statements verifying the slider captcha before a code is sent.
pub fn slider_check(cloud: bool) -> (r: String)
    ensures
        r@ == slider_check_text(slider_missing(cloud), slider_failed(cloud)),
{
    if cloud {
        slider_check_fill("return R.fail(\"请先完成滑块验证码\")", "return R.fail(\"滑块验证失败\")")
    } else {
        slider_check_fill(
            "return AjaxResult.error(\"请先完成滑块验证码\")",
            "return AjaxResult.error(\"滑块验证失败\")",
        )
    }
}

/// Package of the controller.
pub open spec fn controller_pkg(pkg: Seq<char>, cloud: bool) -> Seq<char> {
    if cloud {
        ""@ + pkg + ".auth.controller"@
    } else {
        ""@ + pkg + ".web.controller.system"@
    }
}

/// Fully qualified name of SmsCodeService.
pub open spec fn code_service_fqcn(pkg: Seq<char>, cloud: bool) -> Seq<char> {
    if cloud {
        ""@ + pkg + ".auth.config.SmsCodeService"@
    } else {
        ""@ + pkg + ".framework.config.SmsCodeService"@
    }
}

/// Import of the result type.
pub open spec fn result_import(pkg: Seq<char>, cloud: bool) -> Seq<char> {
    if cloud {
        "import "@ + pkg + ".common.core.domain.R;"@
    } else {
        "import "@ + pkg + ".common.core.domain.AjaxResult;"@
    }
}

/// Injected login services.
pub open spec fn login_services(pkg: Seq<char>, cloud: bool) -> Seq<char> {
    if cloud {
        "    @Autowired\n    private "@ + pkg + ".auth.service.SysLoginService sysLoginService;\n    @Autowired\n    private "@
            + pkg + ".common.security.service.TokenService tokenService;\n"@
    } else {
        "    @Autowired\n    private "@ + pkg + ".framework.web.service.SysLoginService sysLoginService;\n"@
    }
}

/// Body of the SMS login endpoint.
pub open spec fn login_body_of(pkg: Seq<char>, cloud: bool) -> Seq<char> {
    if cloud {
        "        "@ + pkg + ".common.core.domain.model.LoginUser user = sysLoginService.smsLogin(phone, smsCode);\n        return R.ok(tokenService.createToken(user));"@
    } else {
        "        String token = sysLoginService.smsLogin(phone, smsCode);\n        AjaxResult ajax = AjaxResult.success();\n        ajax.put(\"token\", token);\n        return ajax;"@
    }
}

/// The captcha check of the code endpoint.
pub open spec fn captcha_of(slider: bool, cloud: bool, redis_svc: bool, pkg: Seq<char>) -> Seq<char> {
    if slider {
        slider_check_text(slider_missing(cloud), slider_failed(cloud))
    } else {
        graphic_check_text(
            captcha_missing(cloud),
            captcha_key(redis_svc, pkg),
            if redis_svc { "redisService.getCacheObject"@ } else { "redisCache.getCacheObject"@ },
            if redis_svc { "redisService.deleteObject"@ } else { "redisCache.deleteObject"@ },
            captcha_wrong(cloud),
        )
    }
}

/// SmsAuthController.java: `POST /smsCode` (captcha check, then send) and
/// `POST /smsLogin`.
pub fn render_sms_controller(
    params: &CustomizeParams,
    cloud: bool,
    boot_major: Option<u32>,
    redis_svc: bool,
) -> (r: String)
    ensures
        ({
            let pkg = params.new_package@;
            r@ == sms_controller_text(
                controller_pkg(pkg, cloud),
                code_service_fqcn(pkg, cloud),
                result_import(pkg, cloud),
                redis_import_of(pkg, redis_svc),
                servlet_ns_of(boot_major),
                login_services(pkg, cloud),
                if redis_svc {
                    "    @Autowired\n    private RedisService redisService;\n"@
                } else {
                    "    @Autowired\n    private RedisCache redisCache;\n"@
                },
                if cloud { "R<?>"@ } else { "AjaxResult"@ },
                captcha_of(params.enable_captcha_slider, cloud, redis_svc, pkg),
                if cloud { "return R.ok();"@ } else { "return AjaxResult.success(\"验证码已发送\");"@ },
                if cloud { "R.fail"@ } else { "AjaxResult.error"@ },
                login_body_of(pkg, cloud),
            )
        }),
{
    let pkg = params.new_package.as_str();
    let servlet = servlet_ns(boot_major);
    let java_pkg = if cloud {
        join3("", pkg, ".auth.controller")
    } else {
        join3("", pkg, ".web.controller.system")
    };
    let cfg = if cloud {
        join3("", pkg, ".auth.config.SmsCodeService")
    } else {
        join3("", pkg, ".framework.config.SmsCodeService")
    };
    let (ret, err, ok_msg) = if cloud {
        ("R<?>", "R.fail", "return R.ok();")
    } else {
        ("AjaxResult", "AjaxResult.error", "return AjaxResult.success(\"验证码已发送\");")
    };
    let ajax_import = if cloud {
        join3("import ", pkg, ".common.core.domain.R;")
    } else {
        join3("import ", pkg, ".common.core.domain.AjaxResult;")
    };
    let redis_imp = redis_import(pkg, redis_svc);
    let redis_field = if redis_svc {
        "    @Autowired\n    private RedisService redisService;\n"
    } else {
        "    @Autowired\n    private RedisCache redisCache;\n"
    };
    let captcha = if params.enable_captcha_slider {
        slider_check(cloud)
    } else {
        graphic_check(cloud, redis_svc, pkg)
    };
    let login_body = if cloud {
        join3(
            "        ",
            pkg,
            ".common.core.domain.model.LoginUser user = sysLoginService.smsLogin(phone, smsCode);\n        return R.ok(tokenService.createToken(user));",
        )
    } else {
        join3(
            "",
            "        String token = sysLoginService.smsLogin(phone, smsCode);\n        AjaxResult ajax = AjaxResult.success();\n        ajax.put(\"token\", token);\n        return ajax;",
            "",
        )
    };
    let extra = if cloud {
        let mut v: Vec<char> = Vec::new();
        extend_str(&mut v, "    @Autowired\n    private ");
        extend_str(&mut v, pkg);
        extend_str(&mut v, ".auth.service.SysLoginService sysLoginService;\n    @Autowired\n    private ");
        extend_str(&mut v, pkg);
        extend_str(&mut v, ".common.security.service.TokenService tokenService;\n");
        string_of(&v)
    } else {
        join3("    @Autowired\n    private ", pkg, ".framework.web.service.SysLoginService sysLoginService;\n")
    };
    proof {
        reveal_strlit("");
        if !cloud {
            assert(login_body@ =~= login_body_of(params.new_package@, cloud));
        }
    }
    sms_controller_fill(
        java_pkg.as_str(),
        cfg.as_str(),
        ajax_import.as_str(),
        redis_imp.as_str(),
        servlet,
        extra.as_str(),
        redis_field,
        ret,
        captcha.as_str(),
        ok_msg,
        err,
        login_body.as_str(),
    )
}

/// The `smsLogin` method added to the single-application SysLoginService.
pub fn render_vue_sms_login(sms_fqcn: &str, phone_method: &str) -> (r: String)
    ensures
        r@ == vue_sms_login_text(sms_fqcn@, phone_method@),
{
    vue_sms_login_fill(sms_fqcn, phone_method)
}

/// The `smsLogin` method added to the Cloud auth SysLoginService.
pub fn render_cloud_sms_login(sms_fqcn: &str, phone_method: &str) -> (r: String)
    ensures
        r@ == cloud_sms_login_text(sms_fqcn@, phone_method@),
{
    cloud_sms_login_fill(sms_fqcn, phone_method)
}

/// SysPhoneInnerController.java: the inner `/user/info/phone/{phonenumber}` lookup.
pub fn render_phone_inner_controller(params: &CustomizeParams, phone_method: &str) -> (r: String)
    ensures
        r@ == phone_inner_controller_text(params.new_package@, phone_method@),
{
    phone_inner_controller_fill(params.new_package.as_str(), phone_method)
}

} // verus!
