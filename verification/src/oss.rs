//! Object storage (OSS) support: vendor coordinates and the Java sources
//! generated for the back end.
use vstd::prelude::*;
use crate::params::CustomizeParams;
use crate::maven::{add_dependency_block, dep_block, dep_block_text, pom_with_dependency};
use crate::placeholders::str_replace;
use crate::text::{chars_of, contains, contains_str, ends_with, ends_with_str, eq_str, extend_chars, extend_str, string_of};

verus! {

/// Result of setting up object storage.
#[derive(Debug, Clone)]
pub struct OssOutcome {
    pub modified_files: usize,
    pub created_files: usize,
    pub summary: Vec<String>,
}

/// Maven coordinates (groupId, artifactId, version) of each vendor's SDK.
pub open spec fn oss_maven_dep(provider: Seq<char>) -> Option<(Seq<char>, Seq<char>, Seq<char>)> {
    if provider == "aliyun"@ {
        Some(("com.aliyun.oss"@, "aliyun-sdk-oss"@, "3.17.4"@))
    } else if provider == "tencent"@ {
        Some(("com.qcloud"@, "cos_api"@, "5.6.227"@))
    } else if provider == "minio"@ {
        Some(("io.minio"@, "minio"@, "8.5.12"@))
    } else if provider == "qiniu"@ {
        Some(("com.qiniu"@, "qiniu-java-sdk"@, "7.15.1"@))
    } else {
        None
    }
}

/// The Maven coordinates of a vendor's SDK; `None` for an unknown vendor.
pub fn maven_dep(provider: &str) -> (r: Option<(&'static str, &'static str, &'static str)>)
    ensures
        r matches Some(t) ==> oss_maven_dep(provider@) == Some((t.0@, t.1@, t.2@)),
        r is None ==> oss_maven_dep(provider@) is None,
{
    let p = chars_of(provider);
    if eq_str(&p, "aliyun") {
        Some(("com.aliyun.oss", "aliyun-sdk-oss", "3.17.4"))
    } else if eq_str(&p, "tencent") {
        Some(("com.qcloud", "cos_api", "5.6.227"))
    } else if eq_str(&p, "minio") {
        Some(("io.minio", "minio", "8.5.12"))
    } else if eq_str(&p, "qiniu") {
        Some(("com.qiniu", "qiniu-java-sdk", "7.15.1"))
    } else {
        None
    }
}

/// The Chinese display name of a vendor.
pub open spec fn oss_provider_name(provider: Seq<char>) -> Seq<char> {
    if provider == "aliyun"@ {
        "阿里云 OSS"@
    } else if provider == "tencent"@ {
        "腾讯云 COS"@
    } else if provider == "minio"@ {
        "MinIO"@
    } else if provider == "qiniu"@ {
        "七牛云 Kodo"@
    } else {
        "未知"@
    }
}

/// The Chinese display name of a vendor (`未知` for an unknown one).
pub fn provider_cn(provider: &str) -> (r: &'static str)
    ensures
        r@ == oss_provider_name(provider@),
{
    let p = chars_of(provider);
    if eq_str(&p, "aliyun") {
        "阿里云 OSS"
    } else if eq_str(&p, "tencent") {
        "腾讯云 COS"
    } else if eq_str(&p, "minio") {
        "MinIO"
    } else if eq_str(&p, "qiniu") {
        "七牛云 Kodo"
    } else {
        "未知"
    }
}

/// Imports of the vendor client.
pub open spec fn oss_imports(provider: Seq<char>) -> Seq<char> {
    if provider == "aliyun"@ {
        "import com.aliyun.oss.OSS;\nimport com.aliyun.oss.OSSClientBuilder;\nimport com.aliyun.oss.model.ObjectMetadata;\n"@
    } else if provider == "tencent"@ {
        "import com.qcloud.cos.COSClient;\nimport com.qcloud.cos.ClientConfig;\nimport com.qcloud.cos.auth.BasicCOSCredentials;\nimport com.qcloud.cos.auth.COSCredentials;\nimport com.qcloud.cos.model.ObjectMetadata;\nimport com.qcloud.cos.region.Region;\n"@
    } else if provider == "minio"@ {
        "import io.minio.MinioClient;\nimport io.minio.PutObjectArgs;\nimport java.io.InputStream;\n"@
    } else if provider == "qiniu"@ {
        "import com.qiniu.common.QiniuException;\nimport com.qiniu.storage.Configuration;\nimport com.qiniu.storage.Region;\nimport com.qiniu.storage.UploadManager;\nimport com.qiniu.storage.model.DefaultPutRet;\nimport com.qiniu.util.Auth;\nimport java.io.InputStream;\nimport java.io.ByteArrayOutputStream;\n"@
    } else {
        "import java.io.InputStream;\n"@
    }
}

fn oss_imports_str(provider: &str) -> (r: &'static str)
    ensures
        r@ == oss_imports(provider@),
{
    let p = chars_of(provider);
    if eq_str(&p, "aliyun") {
        "import com.aliyun.oss.OSS;\nimport com.aliyun.oss.OSSClientBuilder;\nimport com.aliyun.oss.model.ObjectMetadata;\n"
    } else if eq_str(&p, "tencent") {
        "import com.qcloud.cos.COSClient;\nimport com.qcloud.cos.ClientConfig;\nimport com.qcloud.cos.auth.BasicCOSCredentials;\nimport com.qcloud.cos.auth.COSCredentials;\nimport com.qcloud.cos.model.ObjectMetadata;\nimport com.qcloud.cos.region.Region;\n"
    } else if eq_str(&p, "minio") {
        "import io.minio.MinioClient;\nimport io.minio.PutObjectArgs;\nimport java.io.InputStream;\n"
    } else if eq_str(&p, "qiniu") {
        "import com.qiniu.common.QiniuException;\nimport com.qiniu.storage.Configuration;\nimport com.qiniu.storage.Region;\nimport com.qiniu.storage.UploadManager;\nimport com.qiniu.storage.model.DefaultPutRet;\nimport com.qiniu.util.Auth;\nimport java.io.InputStream;\nimport java.io.ByteArrayOutputStream;\n"
    } else {
        "import java.io.InputStream;\n"
    }
}

/// Client initialization of the vendor.
pub open spec fn oss_init(provider: Seq<char>) -> Seq<char> {
    if provider == "aliyun"@ {
        "        this.oss = new OSSClientBuilder().build(props.getEndpoint(), props.getAccessKey(), props.getSecretKey());\n        this.bucketName = props.getBucket();"@
    } else if provider == "tencent"@ {
        "        COSCredentials cred = new BasicCOSCredentials(props.getAccessKey(), props.getSecretKey());\n        ClientConfig clientConfig = new ClientConfig(new Region(props.getEndpoint()));\n        this.cosClient = new COSClient(cred, clientConfig);\n        this.bucketName = props.getBucket();"@
    } else if provider == "minio"@ {
        "        this.minioClient = MinioClient.builder()\n                .endpoint(props.getEndpoint())\n                .credentials(props.getAccessKey(), props.getSecretKey())\n                .build();\n        this.bucketName = props.getBucket();"@
    } else if provider == "qiniu"@ {
        "        this.auth = Auth.create(props.getAccessKey(), props.getSecretKey());\n        this.uploadManager = new UploadManager(new Configuration(Region.autoRegion()));\n        this.bucketName = props.getBucket();"@
    } else {
        "        // 未知厂商"@
    }
}

fn oss_init_str(provider: &str) -> (r: &'static str)
    ensures
        r@ == oss_init(provider@),
{
    let p = chars_of(provider);
    if eq_str(&p, "aliyun") {
        "        this.oss = new OSSClientBuilder().build(props.getEndpoint(), props.getAccessKey(), props.getSecretKey());\n        this.bucketName = props.getBucket();"
    } else if eq_str(&p, "tencent") {
        "        COSCredentials cred = new BasicCOSCredentials(props.getAccessKey(), props.getSecretKey());\n        ClientConfig clientConfig = new ClientConfig(new Region(props.getEndpoint()));\n        this.cosClient = new COSClient(cred, clientConfig);\n        this.bucketName = props.getBucket();"
    } else if eq_str(&p, "minio") {
        "        this.minioClient = MinioClient.builder()\n                .endpoint(props.getEndpoint())\n                .credentials(props.getAccessKey(), props.getSecretKey())\n                .build();\n        this.bucketName = props.getBucket();"
    } else if eq_str(&p, "qiniu") {
        "        this.auth = Auth.create(props.getAccessKey(), props.getSecretKey());\n        this.uploadManager = new UploadManager(new Configuration(Region.autoRegion()));\n        this.bucketName = props.getBucket();"
    } else {
        "        // 未知厂商"
    }
}

/// Upload body of the vendor.
pub open spec fn oss_upload(provider: Seq<char>) -> Seq<char> {
    if provider == "aliyun"@ {
        r#"        ObjectMetadata metadata = new ObjectMetadata();
        metadata.setContentLength(inputStream.available());
        oss.putObject(bucketName, objectKey, inputStream, metadata);
        // 访问 URL：自定义域名优先
        String domain = (props.getCustomDomain() != null && !props.getCustomDomain().isEmpty())
                ? props.getCustomDomain() : "https://" + props.getBucket() + "." + props.getEndpoint();
        return domain + "/" + objectKey;"#@
    } else if provider == "tencent"@ {
        r#"        ObjectMetadata metadata = new ObjectMetadata();
        metadata.setContentLength(inputStream.available());
        cosClient.putObject(bucketName, objectKey, inputStream, metadata);
        String domain = (props.getCustomDomain() != null && !props.getCustomDomain().isEmpty())
                ? props.getCustomDomain() : "https://" + props.getBucket() + ".cos." + props.getEndpoint() + ".myqcloud.com";
        return domain + "/" + objectKey;"#@
    } else if provider == "minio"@ {
        r#"        minioClient.putObject(
                PutObjectArgs.builder().bucket(bucketName).object(objectKey)
                        .stream(inputStream, inputStream.available(), -1).build());
        String domain = (props.getCustomDomain() != null && !props.getCustomDomain().isEmpty())
                ? props.getCustomDomain() : props.getEndpoint() + "/" + props.getBucket();
        return domain + "/" + objectKey;"#@
    } else if provider == "qiniu"@ {
        r#"        // 七牛需用字节数组上传
        ByteArrayOutputStream buffer = new ByteArrayOutputStream();
        byte[] data = new byte[4096];
        int n;
        while ((n = inputStream.read(data)) != -1) { buffer.write(data, 0, n); }
        String upToken = auth.uploadToken(bucketName, objectKey);
        uploadManager.put(buffer.toByteArray(), objectKey, upToken);
        String domain = (props.getCustomDomain() != null && !props.getCustomDomain().isEmpty())
                ? props.getCustomDomain() : "http://" + bucketName + ".qiniudn.com";
        return domain + "/" + objectKey;"#@
    } else {
        "        throw new UnsupportedOperationException(\"不支持的 OSS 厂商\");"@
    }
}

fn oss_upload_str(provider: &str) -> (r: &'static str)
    ensures
        r@ == oss_upload(provider@),
{
    let p = chars_of(provider);
    if eq_str(&p, "aliyun") {
        r#"        ObjectMetadata metadata = new ObjectMetadata();
        metadata.setContentLength(inputStream.available());
        oss.putObject(bucketName, objectKey, inputStream, metadata);
        // 访问 URL：自定义域名优先
        String domain = (props.getCustomDomain() != null && !props.getCustomDomain().isEmpty())
                ? props.getCustomDomain() : "https://" + props.getBucket() + "." + props.getEndpoint();
        return domain + "/" + objectKey;"#
    } else if eq_str(&p, "tencent") {
        r#"        ObjectMetadata metadata = new ObjectMetadata();
        metadata.setContentLength(inputStream.available());
        cosClient.putObject(bucketName, objectKey, inputStream, metadata);
        String domain = (props.getCustomDomain() != null && !props.getCustomDomain().isEmpty())
                ? props.getCustomDomain() : "https://" + props.getBucket() + ".cos." + props.getEndpoint() + ".myqcloud.com";
        return domain + "/" + objectKey;"#
    } else if eq_str(&p, "minio") {
        r#"        minioClient.putObject(
                PutObjectArgs.builder().bucket(bucketName).object(objectKey)
                        .stream(inputStream, inputStream.available(), -1).build());
        String domain = (props.getCustomDomain() != null && !props.getCustomDomain().isEmpty())
                ? props.getCustomDomain() : props.getEndpoint() + "/" + props.getBucket();
        return domain + "/" + objectKey;"#
    } else if eq_str(&p, "qiniu") {
        r#"        // 七牛需用字节数组上传
        ByteArrayOutputStream buffer = new ByteArrayOutputStream();
        byte[] data = new byte[4096];
        int n;
        while ((n = inputStream.read(data)) != -1) { buffer.write(data, 0, n); }
        String upToken = auth.uploadToken(bucketName, objectKey);
        uploadManager.put(buffer.toByteArray(), objectKey, upToken);
        String domain = (props.getCustomDomain() != null && !props.getCustomDomain().isEmpty())
                ? props.getCustomDomain() : "http://" + bucketName + ".qiniudn.com";
        return domain + "/" + objectKey;"#
    } else {
        "        throw new UnsupportedOperationException(\"不支持的 OSS 厂商\");"
    }
}

/// Client fields of the vendor.
pub open spec fn oss_fields(provider: Seq<char>) -> Seq<char> {
    if provider == "aliyun"@ {
        "    private final OSS oss;\n    private final String bucketName;\n"@
    } else if provider == "tencent"@ {
        "    private final COSClient cosClient;\n    private final String bucketName;\n"@
    } else if provider == "minio"@ {
        "    private final MinioClient minioClient;\n    private final String bucketName;\n"@
    } else if provider == "qiniu"@ {
        "    private final Auth auth;\n    private final UploadManager uploadManager;\n    private final String bucketName;\n"@
    } else {
        "    private final String bucketName;\n"@
    }
}

fn oss_fields_str(provider: &str) -> (r: &'static str)
    ensures
        r@ == oss_fields(provider@),
{
    let p = chars_of(provider);
    if eq_str(&p, "aliyun") {
        "    private final OSS oss;\n    private final String bucketName;\n"
    } else if eq_str(&p, "tencent") {
        "    private final COSClient cosClient;\n    private final String bucketName;\n"
    } else if eq_str(&p, "minio") {
        "    private final MinioClient minioClient;\n    private final String bucketName;\n"
    } else if eq_str(&p, "qiniu") {
        "    private final Auth auth;\n    private final UploadManager uploadManager;\n    private final String bucketName;\n"
    } else {
        "    private final String bucketName;\n"
    }
}

/// Text of OssProperties.java.
pub open spec fn oss_properties_text(pkg: Seq<char>, prefix: Seq<char>) -> Seq<char> {
    "package "@
        + pkg
        + ".framework.config;\n\nimport org.springframework.boot.context.properties.ConfigurationProperties;\nimport org.springframework.stereotype.Component;\n\n/**\n * OSS 对象存储配置属性（绑定 "@
        + prefix
        + ".oss）\n */\n@Component\n@ConfigurationProperties(prefix = \""@
        + prefix
        + ".oss\")\npublic class OssProperties\n{\n    /** 是否启用 */\n    private boolean enabled;\n    /** 厂商：aliyun|tencent|minio|qiniu */\n    private String provider;\n    /** endpoint */\n    private String endpoint;\n    /** bucket 名称 */\n    private String bucket;\n    /** accessKey */\n    private String accessKey;\n    /** secretKey */\n    private String secretKey;\n    /** 自定义域名（CDN，留空用默认域名） */\n    private String customDomain;\n\n    public boolean isEnabled() { return enabled; }\n    public void setEnabled(boolean enabled) { this.enabled = enabled; }\n    public String getProvider() { return provider; }\n    public void setProvider(String provider) { this.provider = provider; }\n    public String getEndpoint() { return endpoint; }\n    public void setEndpoint(String endpoint) { this.endpoint = endpoint; }\n    public String getBucket() { return bucket; }\n    public void setBucket(String bucket) { this.bucket = bucket; }\n    public String getAccessKey() { return accessKey; }\n    public void setAccessKey(String accessKey) { this.accessKey = accessKey; }\n    public String getSecretKey() { return secretKey; }\n    public void setSecretKey(String secretKey) { this.secretKey = secretKey; }\n    public String getCustomDomain() { return customDomain; }\n    public void setCustomDomain(String customDomain) { this.customDomain = customDomain; }\n}\n"@
}

/// Fills the text of OssProperties.java.
pub fn oss_properties_fill(pkg: &str, prefix: &str) -> (r: String)
    ensures
        r@ == oss_properties_text(pkg@, prefix@),
{
    let mut v: Vec<char> = Vec::new();
    extend_str(&mut v, "package ");
    extend_str(&mut v, pkg);
    extend_str(&mut v, ".framework.config;\n\nimport org.springframework.boot.context.properties.ConfigurationProperties;\nimport org.springframework.stereotype.Component;\n\n/**\n * OSS 对象存储配置属性（绑定 ");
    extend_str(&mut v, prefix);
    extend_str(&mut v, ".oss）\n */\n@Component\n@ConfigurationProperties(prefix = \"");
    extend_str(&mut v, prefix);
    extend_str(&mut v, ".oss\")\npublic class OssProperties\n{\n    /** 是否启用 */\n    private boolean enabled;\n    /** 厂商：aliyun|tencent|minio|qiniu */\n    private String provider;\n    /** endpoint */\n    private String endpoint;\n    /** bucket 名称 */\n    private String bucket;\n    /** accessKey */\n    private String accessKey;\n    /** secretKey */\n    private String secretKey;\n    /** 自定义域名（CDN，留空用默认域名） */\n    private String customDomain;\n\n    public boolean isEnabled() { return enabled; }\n    public void setEnabled(boolean enabled) { this.enabled = enabled; }\n    public String getProvider() { return provider; }\n    public void setProvider(String provider) { this.provider = provider; }\n    public String getEndpoint() { return endpoint; }\n    public void setEndpoint(String endpoint) { this.endpoint = endpoint; }\n    public String getBucket() { return bucket; }\n    public void setBucket(String bucket) { this.bucket = bucket; }\n    public String getAccessKey() { return accessKey; }\n    public void setAccessKey(String accessKey) { this.accessKey = accessKey; }\n    public String getSecretKey() { return secretKey; }\n    public void setSecretKey(String secretKey) { this.secretKey = secretKey; }\n    public String getCustomDomain() { return customDomain; }\n    public void setCustomDomain(String customDomain) { this.customDomain = customDomain; }\n}\n");
    string_of(&v)
}

/// Text of OssClient.java.
pub open spec fn oss_client_text(pkg: Seq<char>, imports: Seq<char>, prefix: Seq<char>, fields: Seq<char>, postconstruct: Seq<char>, init_block: Seq<char>, upload_body: Seq<char>) -> Seq<char> {
    "package "@
        + pkg
        + ".framework.config;\n\nimport org.springframework.beans.factory.annotation.Autowired;\nimport org.springframework.boot.autoconfigure.condition.ConditionalOnProperty;\nimport org.springframework.stereotype.Component;\n"@
        + imports
        + "\n\n/**\n * OSS 客户端：按厂商封装统一的上传方法。\n * 仅当 "@
        + prefix
        + ".oss.enabled=true 时生效。\n */\n@Component\n@ConditionalOnProperty(prefix = \""@
        + prefix
        + ".oss\", name = \"enabled\", havingValue = \"true\")\npublic class OssClient\n{\n    @Autowired\n    private OssProperties props;\n"@
        + fields
        + "\n    /**\n     * 初始化（构造后由 Spring 注入 props，这里延迟初始化厂商客户端）。\n     */\n    "@
        + postconstruct
        + "\n    public void init()\n    {"@
        + init_block
        + "\n    }\n\n    /**\n     * 上传文件到 OSS，返回可访问的 URL。\n     *\n     * @param objectKey  对象 key（含路径，如 upload/2024/xxx.jpg）\n     * @param inputStream 文件输入流\n     * @return 访问 URL\n     */\n    public String upload(String objectKey, InputStream inputStream) throws Exception\n    {"@
        + upload_body
        + "\n    }\n}\n"@
}

/// Fills the text of OssClient.java.
pub fn oss_client_fill(pkg: &str, imports: &str, prefix: &str, fields: &str, postconstruct: &str, init_block: &str, upload_body: &str) -> (r: String)
    ensures
        r@ == oss_client_text(pkg@, imports@, prefix@, fields@, postconstruct@, init_block@, upload_body@),
{
    let mut v: Vec<char> = Vec::new();
    extend_str(&mut v, "package ");
    extend_str(&mut v, pkg);
    extend_str(&mut v, ".framework.config;\n\nimport org.springframework.beans.factory.annotation.Autowired;\nimport org.springframework.boot.autoconfigure.condition.ConditionalOnProperty;\nimport org.springframework.stereotype.Component;\n");
    extend_str(&mut v, imports);
    extend_str(&mut v, "\n\n/**\n * OSS 客户端：按厂商封装统一的上传方法。\n * 仅当 ");
    extend_str(&mut v, prefix);
    extend_str(&mut v, ".oss.enabled=true 时生效。\n */\n@Component\n@ConditionalOnProperty(prefix = \"");
    extend_str(&mut v, prefix);
    extend_str(&mut v, ".oss\", name = \"enabled\", havingValue = \"true\")\npublic class OssClient\n{\n    @Autowired\n    private OssProperties props;\n");
    extend_str(&mut v, fields);
    extend_str(&mut v, "\n    /**\n     * 初始化（构造后由 Spring 注入 props，这里延迟初始化厂商客户端）。\n     */\n    ");
    extend_str(&mut v, postconstruct);
    extend_str(&mut v, "\n    public void init()\n    {");
    extend_str(&mut v, init_block);
    extend_str(&mut v, "\n    }\n\n    /**\n     * 上传文件到 OSS，返回可访问的 URL。\n     *\n     * @param objectKey  对象 key（含路径，如 upload/2024/xxx.jpg）\n     * @param inputStream 文件输入流\n     * @return 访问 URL\n     */\n    public String upload(String objectKey, InputStream inputStream) throws Exception\n    {");
    extend_str(&mut v, upload_body);
    extend_str(&mut v, "\n    }\n}\n");
    string_of(&v)
}

/// Text of OssController.java.
pub open spec fn oss_controller_text(pkg: Seq<char>) -> Seq<char> {
    "package "@
        + pkg
        + ".web.controller.common;\n\nimport "@
        + pkg
        + ".framework.config.OssClient;\nimport org.springframework.beans.factory.annotation.Autowired;\nimport org.springframework.web.bind.annotation.PostMapping;\nimport org.springframework.web.bind.annotation.RequestParam;\nimport org.springframework.web.bind.annotation.RestController;\nimport org.springframework.web.multipart.MultipartFile;\n\nimport java.io.InputStream;\nimport java.util.UUID;\n\n/**\n * OSS 文件上传接口（独立于若依默认本地上传的 CommonController）。\n * 接口：POST /common/oss/upload\n */\n@RestController\npublic class OssController\n{\n    @Autowired\n    private OssClient ossClient;\n\n    /**\n     * 上传文件到 OSS。\n     * 文件名使用 UUID + 原扩展名，避免冲突。\n     */\n    @PostMapping(\"/common/oss/upload\")\n    public AjaxResult upload(@RequestParam(\"file\") MultipartFile file) throws Exception\n    {\n        if (file.isEmpty()) {\n            return AjaxResult.error(\"上传文件不能为空\");\n        }\n        String original = file.getOriginalFilename();\n        String ext = (original != null && original.contains(\".\"))\n                ? original.substring(original.lastIndexOf(\".\")) : \"\";\n        String objectKey = \"upload/\" + UUID.randomUUID().toString().replace(\"-\", \"\") + ext;\n        try (InputStream in = file.getInputStream()) {\n            String url = ossClient.upload(objectKey, in);\n            AjaxResult ok = AjaxResult.success();\n            ok.put(\"url\", url);\n            ok.put(\"fileName\", objectKey);\n            return ok;\n        }\n    }\n}\n"@
}

/// Fills the text of OssController.java.
pub fn oss_controller_fill(pkg: &str) -> (r: String)
    ensures
        r@ == oss_controller_text(pkg@),
{
    let mut v: Vec<char> = Vec::new();
    extend_str(&mut v, "package ");
    extend_str(&mut v, pkg);
    extend_str(&mut v, ".web.controller.common;\n\nimport ");
    extend_str(&mut v, pkg);
    extend_str(&mut v, ".framework.config.OssClient;\nimport org.springframework.beans.factory.annotation.Autowired;\nimport org.springframework.web.bind.annotation.PostMapping;\nimport org.springframework.web.bind.annotation.RequestParam;\nimport org.springframework.web.bind.annotation.RestController;\nimport org.springframework.web.multipart.MultipartFile;\n\nimport java.io.InputStream;\nimport java.util.UUID;\n\n/**\n * OSS 文件上传接口（独立于若依默认本地上传的 CommonController）。\n * 接口：POST /common/oss/upload\n */\n@RestController\npublic class OssController\n{\n    @Autowired\n    private OssClient ossClient;\n\n    /**\n     * 上传文件到 OSS。\n     * 文件名使用 UUID + 原扩展名，避免冲突。\n     */\n    @PostMapping(\"/common/oss/upload\")\n    public AjaxResult upload(@RequestParam(\"file\") MultipartFile file) throws Exception\n    {\n        if (file.isEmpty()) {\n            return AjaxResult.error(\"上传文件不能为空\");\n        }\n        String original = file.getOriginalFilename();\n        String ext = (original != null && original.contains(\".\"))\n                ? original.substring(original.lastIndexOf(\".\")) : \"\";\n        String objectKey = \"upload/\" + UUID.randomUUID().toString().replace(\"-\", \"\") + ext;\n        try (InputStream in = file.getInputStream()) {\n            String url = ossClient.upload(objectKey, in);\n            AjaxResult ok = AjaxResult.success();\n            ok.put(\"url\", url);\n            ok.put(\"fileName\", objectKey);\n            return ok;\n        }\n    }\n}\n");
    string_of(&v)
}

/// Package of `@PostConstruct`: `javax.annotation` before Spring Boot 3,
/// `jakarta.annotation` from 3 on or when the version is unknown.
pub open spec fn postconstruct_ns(boot_major: Option<u32>) -> Seq<char> {
    if boot_major is Some && boot_major->0 < 3 {
        "javax.annotation"@
    } else {
        "jakarta.annotation"@
    }
}

/// OssProperties.java for the project's package and prefix.
pub fn render_oss_properties(params: &CustomizeParams) -> (r: String)
    ensures
        r@ == oss_properties_text(params.new_package@, params.new_module_prefix@),
{
    oss_properties_fill(params.new_package.as_str(), params.new_module_prefix.as_str())
}

/// OssClient.java: the vendor's client behind one `upload` method; the
/// `@PostConstruct` package follows the Spring Boot major version.
pub fn render_oss_client(params: &CustomizeParams, boot_major: Option<u32>) -> (r: String)
    ensures
        r@ == oss_client_text(
            params.new_package@,
            oss_imports(params.oss_provider@),
            params.new_module_prefix@,
            oss_fields(params.oss_provider@),
            "@"@ + postconstruct_ns(boot_major) + ".PostConstruct"@,
            oss_init(params.oss_provider@),
            oss_upload(params.oss_provider@),
        ),
{
    let provider = params.oss_provider.as_str();
    let ns = match boot_major {
        Some(major) => if major < 3 {
            "javax.annotation"
        } else {
            "jakarta.annotation"
        },
        None => "jakarta.annotation",
    };
    let mut pc: Vec<char> = Vec::new();
    extend_str(&mut pc, "@");
    extend_str(&mut pc, ns);
    extend_str(&mut pc, ".PostConstruct");
    let postconstruct = string_of(&pc);
    oss_client_fill(
        params.new_package.as_str(),
        oss_imports_str(provider),
        params.new_module_prefix.as_str(),
        oss_fields_str(provider),
        postconstruct.as_str(),
        oss_init_str(provider),
        oss_upload_str(provider),
    )
}

/// OssController.java: the `/common/oss/upload` endpoint.
pub fn render_oss_controller(params: &CustomizeParams) -> (r: String)
    ensures
        r@ == oss_controller_text(params.new_package@),
{
    oss_controller_fill(params.new_package.as_str())
}

/// The candidate modules for the OSS dependency, stably ordered: `-common`
/// first, then `-framework`, then `-admin`, then the rest.
pub fn prioritize_modules(modules: &Vec<String>) -> (r: Vec<String>)
    ensures
        crate::module_order::names(r@) == crate::module_order::rank_order(
            crate::module_order::names(modules@),
            crate::module_order::suffix_ranks(crate::module_order::names(modules@)),
        ),
{
    crate::module_order::order_by_suffix(modules)
}

/// The pom with the vendor's SDK dependency added; `None` for an unknown vendor.
pub open spec fn oss_pom(pom: Seq<char>, provider: Seq<char>) -> Option<Seq<char>> {
    match oss_maven_dep(provider) {
        Some((g, a, v)) => Some(pom_with_dependency(pom, dep_block(g, a, v))),
        None => None,
    }
}

/// Adds the vendor's SDK dependency to the text of a pom (see `oss_pom`).
pub fn add_oss_dependency(pom: &str, provider: &str) -> (r: Option<String>)
    ensures
        match r {
            Some(x) => oss_pom(pom@, provider@) == Some(x@),
            None => oss_pom(pom@, provider@) is None,
        },
{
    match maven_dep(provider) {
        Some((g, a, v)) => {
            let block = dep_block_text(g, a, v);
            Some(add_dependency_block(pom, &block))
        },
        None => None,
    }
}

/// A YAML value in single quotes, inner quotes doubled.
pub open spec fn single_quoted(v: Seq<char>) -> Seq<char> {
    "'"@ + str_replace(v, "'"@, "''"@) + "'"@
}

fn single_quoted_exec(v: &str) -> (r: Vec<char>)
    ensures
        r@ == single_quoted(v@),
{
    let mut out = chars_of("'");
    let q = crate::patch::replace_str(&chars_of(v), "'", "''");
    extend_chars(&mut out, &q);
    extend_str(&mut out, "'");
    out
}

/// `true` or `false` as Rust prints a `bool`.
pub open spec fn bool_text(b: bool) -> Seq<char> {
    if b {
        "true"@
    } else {
        "false"@
    }
}

/// The `{prefix}.oss` configuration block appended to the application configuration.
pub open spec fn oss_yml_block(p: CustomizeParams) -> Seq<char> {
    "\n# ===== "@ + p.new_module_prefix@ + " OSS 对象存储配置 =====\n"@ + p.new_module_prefix@
        + ":\n  oss: # 对象存储\n    enabled: "@ + bool_text(p.enable_oss)
        + " # 是否启用 OSS\n    provider: "@ + single_quoted(p.oss_provider@)
        + " # 厂商：aliyun|tencent|minio|qiniu\n    endpoint: "@ + single_quoted(p.oss_endpoint@)
        + " # endpoint（区域/地址）\n    bucket: "@ + single_quoted(p.oss_bucket@)
        + " # bucket 名称\n    access-key: "@ + single_quoted(p.oss_access_key@)
        + " # accessKey\n    secret-key: "@ + single_quoted(p.oss_secret_key@)
        + " # secretKey\n    custom-domain: "@ + single_quoted(p.oss_custom_domain@)
        + " # 自定义域名（CDN，留空用默认域名）\n"@
}

/// The `{prefix}.oss` configuration block.
pub fn render_oss_yml_block(params: &CustomizeParams) -> (r: Vec<char>)
    ensures
        r@ == oss_yml_block(*params),
{
    let prefix = params.new_module_prefix.as_str();
    let mut v: Vec<char> = Vec::new();
    extend_str(&mut v, "\n# ===== ");
    extend_str(&mut v, prefix);
    extend_str(&mut v, " OSS 对象存储配置 =====\n");
    extend_str(&mut v, prefix);
    extend_str(&mut v, ":\n  oss: # 对象存储\n    enabled: ");
    if params.enable_oss {
        extend_str(&mut v, "true");
    } else {
        extend_str(&mut v, "false");
    }
    extend_str(&mut v, " # 是否启用 OSS\n    provider: ");
    extend_chars(&mut v, &single_quoted_exec(params.oss_provider.as_str()));
    extend_str(&mut v, " # 厂商：aliyun|tencent|minio|qiniu\n    endpoint: ");
    extend_chars(&mut v, &single_quoted_exec(params.oss_endpoint.as_str()));
    extend_str(&mut v, " # endpoint（区域/地址）\n    bucket: ");
    extend_chars(&mut v, &single_quoted_exec(params.oss_bucket.as_str()));
    extend_str(&mut v, " # bucket 名称\n    access-key: ");
    extend_chars(&mut v, &single_quoted_exec(params.oss_access_key.as_str()));
    extend_str(&mut v, " # accessKey\n    secret-key: ");
    extend_chars(&mut v, &single_quoted_exec(params.oss_secret_key.as_str()));
    extend_str(&mut v, " # secretKey\n    custom-domain: ");
    extend_chars(&mut v, &single_quoted_exec(params.oss_custom_domain.as_str()));
    extend_str(&mut v, " # 自定义域名（CDN，留空用默认域名）\n");
    v
}

/// The application configuration with the OSS block appended (after a newline
/// when the text does not end with one); `None` when it already has an
/// `  oss:` section.
pub open spec fn oss_yml_appended(content: Seq<char>, p: CustomizeParams) -> Option<Seq<char>> {
    if contains(content, "  oss:"@) {
        None
    } else if !ends_with(content, "\n"@) {
        Some(content + "\n"@ + oss_yml_block(p))
    } else {
        Some(content + oss_yml_block(p))
    }
}

/// Appends the OSS block to the text of the application configuration (see
/// `oss_yml_appended`).
pub fn append_oss_yml(content: &str, params: &CustomizeParams) -> (r: Option<String>)
    ensures
        match r {
            Some(x) => oss_yml_appended(content@, *params) == Some(x@),
            None => oss_yml_appended(content@, *params) is None,
        },
{
    let mut c = chars_of(content);
    if contains_str(&c, "  oss:") {
        return None;
    }
    if !ends_with_str(&c, "\n") {
        extend_str(&mut c, "\n");
    }
    extend_chars(&mut c, &render_oss_yml_block(params));
    Some(string_of(&c))
}

} // verus!
