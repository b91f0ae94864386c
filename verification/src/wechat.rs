//! WeChat Pay: the official SDK dependency, the generated configuration classes
//! and the certificate directory's notes.
use vstd::prelude::*;
use crate::maven::{add_dependency_block, dep_block, dep_block_text, pom_with_dependency};
use crate::module_order::{names, rank_order, suffix_ranks};
use crate::params::CustomizeParams;
use crate::text::{chars_of, contains, contains_str, ends_with_str, extend_str, string_of};

verus! {

/// Version of the official `wechatpay-java` SDK.
pub const WECHATPAY_JAVA_VERSION: &'static str = "0.2.17";

/// The pom with the `wechatpay-java` dependency added.
pub open spec fn wechat_pom(pom: Seq<char>) -> Seq<char> {
    pom_with_dependency(pom, dep_block("com.github.wechatpay-apiv3"@, "wechatpay-java"@, "0.2.17"@))
}

/// Adds the `wechatpay-java` dependency to the text of a pom.
pub fn add_wechat_dependency(pom: &str) -> (r: String)
    ensures
        r@ == wechat_pom(pom@),
{
    let block = dep_block_text("com.github.wechatpay-apiv3", "wechatpay-java", WECHATPAY_JAVA_VERSION);
    add_dependency_block(pom, &block)
}

/// The candidate modules for the SDK dependency, stably ordered: `-common`
/// first, then `-framework`, then `-admin`, then the rest.
pub fn prioritize_modules(modules: &Vec<String>) -> (r: Vec<String>)
    ensures
        names(r@) == rank_order(names(modules@), suffix_ranks(names(modules@))),
{
    crate::module_order::order_by_suffix(modules)
}

/// Text of WxPayProperties.java (bound to `{prefix}.wechat.pay`).
pub open spec fn wx_pay_properties_text(pkg: Seq<char>, prefix: Seq<char>) -> Seq<char> {
    "package "@
        + pkg
        + ".framework.config;\n\nimport org.springframework.boot.context.properties.ConfigurationProperties;\nimport org.springframework.stereotype.Component;\n\n/**\n * 微信支付配置属性（绑定 "@
        + prefix
        + ".wechat.pay）\n */\n@Component\n@ConfigurationProperties(prefix = \""@
        + prefix
        + ".wechat.pay\")\npublic class WxPayProperties\n{\n    /** 是否启用 */\n    private boolean enabled;\n    /** 支付模式：public-key(V3公钥) | certificate(V3平台证书) | v2(旧模式) */\n    private String mode;\n    /** 商户号 */\n    private String mchId;\n    /** 商户证书序列号（V3） */\n    private String mchSerialNo;\n    /** API V3 密钥（V3） */\n    private String apiV3Key;\n    /** 商户 API 私钥路径（V3） */\n    private String privateKeyPath;\n    /** 微信支付平台公钥 ID（V3 公钥模式） */\n    private String publicKeyId;\n    /** 微信支付平台公钥路径（V3 公钥模式） */\n    private String publicKeyPath;\n    /** API V2 密钥（V2 旧模式） */\n    private String apiKey;\n    /** 商户证书路径 apiclient_cert.p12（V2） */\n    private String certPath;\n    /** 支付回调地址 */\n    private String notifyUrl;\n\n    public boolean isEnabled() { return enabled; }\n    public void setEnabled(boolean enabled) { this.enabled = enabled; }\n    public String getMode() { return mode; }\n    public void setMode(String mode) { this.mode = mode; }\n    public String getMchId() { return mchId; }\n    public void setMchId(String mchId) { this.mchId = mchId; }\n    public String getMchSerialNo() { return mchSerialNo; }\n    public void setMchSerialNo(String mchSerialNo) { this.mchSerialNo = mchSerialNo; }\n    public String getApiV3Key() { return apiV3Key; }\n    public void setApiV3Key(String apiV3Key) { this.apiV3Key = apiV3Key; }\n    public String getPrivateKeyPath() { return privateKeyPath; }\n    public void setPrivateKeyPath(String privateKeyPath) { this.privateKeyPath = privateKeyPath; }\n    public String getPublicKeyId() { return publicKeyId; }\n    public void setPublicKeyId(String publicKeyId) { this.publicKeyId = publicKeyId; }\n    public String getPublicKeyPath() { return publicKeyPath; }\n    public void setPublicKeyPath(String publicKeyPath) { this.publicKeyPath = publicKeyPath; }\n    public String getApiKey() { return apiKey; }\n    public void setApiKey(String apiKey) { this.apiKey = apiKey; }\n    public String getCertPath() { return certPath; }\n    public void setCertPath(String certPath) { this.certPath = certPath; }\n    public String getNotifyUrl() { return notifyUrl; }\n    public void setNotifyUrl(String notifyUrl) { this.notifyUrl = notifyUrl; }\n}\n"@
}

/// WxPayProperties.java for the project's package and prefix.
pub fn render_wx_pay_properties(params: &CustomizeParams) -> (r: String)
    ensures
        r@ == wx_pay_properties_text(params.new_package@, params.new_module_prefix@),
{
    let pkg = params.new_package.as_str();
    let prefix = params.new_module_prefix.as_str();
    let mut v: Vec<char> = Vec::new();
    extend_str(&mut v, "package ");
    extend_str(&mut v, pkg);
    extend_str(&mut v, ".framework.config;\n\nimport org.springframework.boot.context.properties.ConfigurationProperties;\nimport org.springframework.stereotype.Component;\n\n/**\n * 微信支付配置属性（绑定 ");
    extend_str(&mut v, prefix);
    extend_str(&mut v, ".wechat.pay）\n */\n@Component\n@ConfigurationProperties(prefix = \"");
    extend_str(&mut v, prefix);
    extend_str(&mut v, ".wechat.pay\")\npublic class WxPayProperties\n{\n    /** 是否启用 */\n    private boolean enabled;\n    /** 支付模式：public-key(V3公钥) | certificate(V3平台证书) | v2(旧模式) */\n    private String mode;\n    /** 商户号 */\n    private String mchId;\n    /** 商户证书序列号（V3） */\n    private String mchSerialNo;\n    /** API V3 密钥（V3） */\n    private String apiV3Key;\n    /** 商户 API 私钥路径（V3） */\n    private String privateKeyPath;\n    /** 微信支付平台公钥 ID（V3 公钥模式） */\n    private String publicKeyId;\n    /** 微信支付平台公钥路径（V3 公钥模式） */\n    private String publicKeyPath;\n    /** API V2 密钥（V2 旧模式） */\n    private String apiKey;\n    /** 商户证书路径 apiclient_cert.p12（V2） */\n    private String certPath;\n    /** 支付回调地址 */\n    private String notifyUrl;\n\n    public boolean isEnabled() { return enabled; }\n    public void setEnabled(boolean enabled) { this.enabled = enabled; }\n    public String getMode() { return mode; }\n    public void setMode(String mode) { this.mode = mode; }\n    public String getMchId() { return mchId; }\n    public void setMchId(String mchId) { this.mchId = mchId; }\n    public String getMchSerialNo() { return mchSerialNo; }\n    public void setMchSerialNo(String mchSerialNo) { this.mchSerialNo = mchSerialNo; }\n    public String getApiV3Key() { return apiV3Key; }\n    public void setApiV3Key(String apiV3Key) { this.apiV3Key = apiV3Key; }\n    public String getPrivateKeyPath() { return privateKeyPath; }\n    public void setPrivateKeyPath(String privateKeyPath) { this.privateKeyPath = privateKeyPath; }\n    public String getPublicKeyId() { return publicKeyId; }\n    public void setPublicKeyId(String publicKeyId) { this.publicKeyId = publicKeyId; }\n    public String getPublicKeyPath() { return publicKeyPath; }\n    public void setPublicKeyPath(String publicKeyPath) { this.publicKeyPath = publicKeyPath; }\n    public String getApiKey() { return apiKey; }\n    public void setApiKey(String apiKey) { this.apiKey = apiKey; }\n    public String getCertPath() { return certPath; }\n    public void setCertPath(String certPath) { this.certPath = certPath; }\n    public String getNotifyUrl() { return notifyUrl; }\n    public void setNotifyUrl(String notifyUrl) { this.notifyUrl = notifyUrl; }\n}\n");
    string_of(&v)
}

/// The helper that reads a classpath resource, inside WechatPayConfig.
pub open spec fn read_resource_method() -> Seq<char> {
    "    /**\n     * 读取 classpath 资源为字符串（如 classpath:cert/apiclient_key.pem）。\n     */\n    private String readResource(String path) throws IOException\n    {\n        String raw = path.startsWith(\"classpath:\") ? path.substring(\"classpath:\".length()) : path;\n        try (InputStream in = new ClassPathResource(raw).getInputStream())\n        {\n            return new String(in.readAllBytes(), StandardCharsets.UTF_8);\n        }\n    }\n"@
}

/// Text of WechatPayConfig.java (SDK `Config` beans by pay mode).
pub open spec fn wechat_pay_config_text(pkg: Seq<char>, prefix: Seq<char>) -> Seq<char> {
    "package "@
        + pkg
        + ".framework.config;\n\nimport com.wechat.pay.java.core.Config;\nimport com.wechat.pay.java.core.RSAAutoCertificateConfig;\nimport com.wechat.pay.java.core.RSAPublicKeyConfig;\nimport org.springframework.beans.factory.annotation.Autowired;\nimport org.springframework.boot.autoconfigure.condition.ConditionalOnProperty;\nimport org.springframework.context.annotation.Bean;\nimport org.springframework.context.annotation.Configuration;\nimport org.springframework.core.io.ClassPathResource;\n\nimport java.io.IOException;\nimport java.io.InputStream;\nimport java.nio.charset.StandardCharsets;\n\n/**\n * 微信支付官方 SDK（wechatpay-java）装配。\n * 仅当 "@
        + prefix
        + ".wechat.pay.enabled=true 时生效。\n *\n * - mode=public-key   → RSAPublicKeyConfig（V3 公钥模式，推荐）\n * - mode=certificate  → RSAAutoCertificateConfig（V3 平台证书模式）\n * - mode=v2           → 官方 SDK 不覆盖 V2，不装配 Config Bean\n */\n@Configuration\n@ConditionalOnProperty(prefix = \""@
        + prefix
        + ".wechat.pay\", name = \"enabled\", havingValue = \"true\")\npublic class WechatPayConfig\n{\n    @Autowired\n    private WxPayProperties props;\n\n    /**\n     * V3 公钥模式：使用 RSAPublicKeyConfig。\n     */\n    @Bean\n    @ConditionalOnProperty(prefix = \""@
        + prefix
        + ".wechat.pay\", name = \"mode\", havingValue = \"public-key\")\n    public Config rsaPublicKeyConfig() throws IOException\n    {\n        return new RSAPublicKeyConfig.Builder()\n                .merchantId(props.getMchId())\n                .privateKeyFromPath(stripClasspath(props.getPrivateKeyPath()))\n                .publicKeyFromPath(stripClasspath(props.getPublicKeyPath()))\n                .merchantSerialNumber(props.getMchSerialNo())\n                .apiV3Key(props.getApiV3Key())\n                .build();\n    }\n\n    /**\n     * V3 平台证书模式：使用 RSAAutoCertificateConfig（SDK 自动下载/轮换平台证书）。\n     */\n    @Bean\n    @ConditionalOnProperty(prefix = \""@
        + prefix
        + ".wechat.pay\", name = \"mode\", havingValue = \"certificate\")\n    public Config rsaAutoCertificateConfig() throws IOException\n    {\n        return new RSAAutoCertificateConfig.Builder()\n                .merchantId(props.getMchId())\n                .privateKeyFromPath(stripClasspath(props.getPrivateKeyPath()))\n                .merchantSerialNumber(props.getMchSerialNo())\n                .apiV3Key(props.getApiV3Key())\n                .build();\n    }\n\n    /**\n     * V2 旧模式：官方 wechatpay-java 不覆盖 V2，此处不装配 Config Bean。\n     * 如需 V2，请在业务层直接使用 com.github.wechatpay-apiv3:wechatpay-apache-httpclient\n     * 或保留的 props 字段（apiKey / certPath）自行接入。\n     */\n\n"@
        + read_resource_method()
        + "\n    /**\n     * 将 classpath:xxx 形式的路径还原为可被 SDK 直接使用的描述。\n     * 注：wechatpay-java 的 privateKeyFromPath 接受的是文件系统路径或 \"classpath:\" 前缀，\n     * 这里保持原值透传，便于既支持 classpath 也支持绝对路径。\n     */\n    private String stripClasspath(String path)\n    {\n        return path == null ? null : path;\n    }\n}\n"@
}

/// WechatPayConfig.java for the project's package and prefix.
pub fn render_wechat_pay_config(params: &CustomizeParams) -> (r: String)
    ensures
        r@ == wechat_pay_config_text(params.new_package@, params.new_module_prefix@),
{
    let pkg = params.new_package.as_str();
    let prefix = params.new_module_prefix.as_str();
    let read_resource = "    /**\n     * 读取 classpath 资源为字符串（如 classpath:cert/apiclient_key.pem）。\n     */\n    private String readResource(String path) throws IOException\n    {\n        String raw = path.startsWith(\"classpath:\") ? path.substring(\"classpath:\".length()) : path;\n        try (InputStream in = new ClassPathResource(raw).getInputStream())\n        {\n            return new String(in.readAllBytes(), StandardCharsets.UTF_8);\n        }\n    }\n";
    let mut v: Vec<char> = Vec::new();
    extend_str(&mut v, "package ");
    extend_str(&mut v, pkg);
    extend_str(&mut v, ".framework.config;\n\nimport com.wechat.pay.java.core.Config;\nimport com.wechat.pay.java.core.RSAAutoCertificateConfig;\nimport com.wechat.pay.java.core.RSAPublicKeyConfig;\nimport org.springframework.beans.factory.annotation.Autowired;\nimport org.springframework.boot.autoconfigure.condition.ConditionalOnProperty;\nimport org.springframework.context.annotation.Bean;\nimport org.springframework.context.annotation.Configuration;\nimport org.springframework.core.io.ClassPathResource;\n\nimport java.io.IOException;\nimport java.io.InputStream;\nimport java.nio.charset.StandardCharsets;\n\n/**\n * 微信支付官方 SDK（wechatpay-java）装配。\n * 仅当 ");
    extend_str(&mut v, prefix);
    extend_str(&mut v, ".wechat.pay.enabled=true 时生效。\n *\n * - mode=public-key   → RSAPublicKeyConfig（V3 公钥模式，推荐）\n * - mode=certificate  → RSAAutoCertificateConfig（V3 平台证书模式）\n * - mode=v2           → 官方 SDK 不覆盖 V2，不装配 Config Bean\n */\n@Configuration\n@ConditionalOnProperty(prefix = \"");
    extend_str(&mut v, prefix);
    extend_str(&mut v, ".wechat.pay\", name = \"enabled\", havingValue = \"true\")\npublic class WechatPayConfig\n{\n    @Autowired\n    private WxPayProperties props;\n\n    /**\n     * V3 公钥模式：使用 RSAPublicKeyConfig。\n     */\n    @Bean\n    @ConditionalOnProperty(prefix = \"");
    extend_str(&mut v, prefix);
    extend_str(&mut v, ".wechat.pay\", name = \"mode\", havingValue = \"public-key\")\n    public Config rsaPublicKeyConfig() throws IOException\n    {\n        return new RSAPublicKeyConfig.Builder()\n                .merchantId(props.getMchId())\n                .privateKeyFromPath(stripClasspath(props.getPrivateKeyPath()))\n                .publicKeyFromPath(stripClasspath(props.getPublicKeyPath()))\n                .merchantSerialNumber(props.getMchSerialNo())\n                .apiV3Key(props.getApiV3Key())\n                .build();\n    }\n\n    /**\n     * V3 平台证书模式：使用 RSAAutoCertificateConfig（SDK 自动下载/轮换平台证书）。\n     */\n    @Bean\n    @ConditionalOnProperty(prefix = \"");
    extend_str(&mut v, prefix);
    extend_str(&mut v, ".wechat.pay\", name = \"mode\", havingValue = \"certificate\")\n    public Config rsaAutoCertificateConfig() throws IOException\n    {\n        return new RSAAutoCertificateConfig.Builder()\n                .merchantId(props.getMchId())\n                .privateKeyFromPath(stripClasspath(props.getPrivateKeyPath()))\n                .merchantSerialNumber(props.getMchSerialNo())\n                .apiV3Key(props.getApiV3Key())\n                .build();\n    }\n\n    /**\n     * V2 旧模式：官方 wechatpay-java 不覆盖 V2，此处不装配 Config Bean。\n     * 如需 V2，请在业务层直接使用 com.github.wechatpay-apiv3:wechatpay-apache-httpclient\n     * 或保留的 props 字段（apiKey / certPath）自行接入。\n     */\n\n");
    extend_str(&mut v, read_resource);
    extend_str(&mut v, "\n    /**\n     * 将 classpath:xxx 形式的路径还原为可被 SDK 直接使用的描述。\n     * 注：wechatpay-java 的 privateKeyFromPath 接受的是文件系统路径或 \"classpath:\" 前缀，\n     * 这里保持原值透传，便于既支持 classpath 也支持绝对路径。\n     */\n    private String stripClasspath(String path)\n    {\n        return path == null ? null : path;\n    }\n}\n");
    string_of(&v)
}

/// The certificate files the pay mode needs, as Markdown list lines.
pub open spec fn cert_file_lines(mode: Seq<char>) -> Seq<char> {
    let second = if mode == "public-key"@ {
        "wxp_pub.pem (微信支付平台公钥)"@
    } else if mode == "certificate"@ {
        "(平台证书由 SDK 自动下载，无需手动放置)"@
    } else {
        "apiclient_cert.p12 (V2 商户证书)"@
    };
    "- `"@ + "apiclient_key.pem (商户 API 私钥)"@ + "`\n"@ + "- `"@ + second + "`\n"@
}

/// Text of the certificate directory's README.md.
pub open spec fn cert_readme_text(mode: Seq<char>, prefix: Seq<char>) -> Seq<char> {
    "# 微信支付证书目录\n\n按当前支付模式（`"@
        + mode
        + "`），请将以下证书文件放入本目录：\n\n"@
        + cert_file_lines(mode)
        + "\n## 安全提醒\n\n- **请勿将真实证书提交到 git**。本目录下的 `*.pem` / `*.p12` 已在 `.gitignore` 中忽略。\n- yml 中证书路径默认使用 `classpath:cert/xxx`，将文件放在此处即可被 Spring Boot 加载。\n- 如需使用绝对路径，请在 `application-dev/prod.yaml` 中修改 `"@
        + prefix
        + ".wechat.pay.private-key-path` 等字段。\n"@
}

/// The README.md of the certificate directory for the pay mode.
pub fn render_cert_readme(params: &CustomizeParams) -> (r: String)
    ensures
        r@ == cert_readme_text(params.pay_mode@, params.new_module_prefix@),
{
    let mode = params.pay_mode.as_str();
    let prefix = params.new_module_prefix.as_str();
    let m = chars_of(mode);
    let second = if crate::text::eq_str(&m, "public-key") {
        "wxp_pub.pem (微信支付平台公钥)"
    } else if crate::text::eq_str(&m, "certificate") {
        "(平台证书由 SDK 自动下载，无需手动放置)"
    } else {
        "apiclient_cert.p12 (V2 商户证书)"
    };
    let mut fl: Vec<char> = Vec::new();
    extend_str(&mut fl, "- `");
    extend_str(&mut fl, "apiclient_key.pem (商户 API 私钥)");
    extend_str(&mut fl, "`\n");
    extend_str(&mut fl, "- `");
    extend_str(&mut fl, second);
    extend_str(&mut fl, "`\n");
    let file_lines = string_of(&fl);
    let file_lines = file_lines.as_str();
    let mut v: Vec<char> = Vec::new();
    extend_str(&mut v, "# 微信支付证书目录\n\n按当前支付模式（`");
    extend_str(&mut v, mode);
    extend_str(&mut v, "`），请将以下证书文件放入本目录：\n\n");
    extend_str(&mut v, file_lines);
    extend_str(&mut v, "\n## 安全提醒\n\n- **请勿将真实证书提交到 git**。本目录下的 `*.pem` / `*.p12` 已在 `.gitignore` 中忽略。\n- yml 中证书路径默认使用 `classpath:cert/xxx`，将文件放在此处即可被 Spring Boot 加载。\n- 如需使用绝对路径，请在 `application-dev/prod.yaml` 中修改 `");
    extend_str(&mut v, prefix);
    extend_str(&mut v, ".wechat.pay.private-key-path` 等字段。\n");
    string_of(&v)
}

/// The ignore rules of the certificate files.
pub open spec fn cert_ignore_block() -> Seq<char> {
    "\n# wechat pay certs\nsrc/main/resources/cert/*.pem\nsrc/main/resources/cert/*.p12\n!src/main/resources/cert/.gitkeep\n!src/main/resources/cert/README.md\n"@
}

/// The admin module's `.gitignore` (empty when missing) with the certificate
/// rules appended on a new line; `None` when it already has them.
pub open spec fn gitignore_with_certs(existing: Seq<char>) -> Option<Seq<char>> {
    if contains(existing, "# wechat pay certs"@) {
        None
    } else if existing.len() > 0 && !crate::text::ends_with(existing, "\n"@) {
        Some(existing + "\n"@ + cert_ignore_block())
    } else {
        Some(existing + cert_ignore_block())
    }
}

/// Appends the certificate ignore rules to the text of a `.gitignore`.
pub fn append_gitignore(existing: &str) -> (r: Option<String>)
    ensures
        match r {
            Some(x) => gitignore_with_certs(existing@) == Some(x@),
            None => gitignore_with_certs(existing@) is None,
        },
{
    let mut c = chars_of(existing);
    if contains_str(&c, "# wechat pay certs") {
        return None;
    }
    if c.len() > 0 && !ends_with_str(&c, "\n") {
        extend_str(&mut c, "\n");
    }
    extend_str(&mut c, "\n# wechat pay certs\nsrc/main/resources/cert/*.pem\nsrc/main/resources/cert/*.p12\n!src/main/resources/cert/.gitkeep\n!src/main/resources/cert/README.md\n");
    Some(string_of(&c))
}

} // verus!
