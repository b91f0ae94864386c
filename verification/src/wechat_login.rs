//! WeChat mini-program login: the generated back-end controllers.
use vstd::prelude::*;
use crate::params::CustomizeParams;
use crate::text::{extend_str, string_of};

verus! {

/// Result of setting up WeChat login.
#[derive(Debug, Clone)]
pub struct WechatLoginOutcome {
    pub modified_files: usize,
    pub created_files: usize,
    pub summary: Vec<String>,
}

/// Text of the single-application WechatLoginController.java.
pub open spec fn wechat_vue_controller_text(pkg: Seq<char>, prefix: Seq<char>) -> Seq<char> {
    r#"package "#@
        + pkg
        + r#".web.controller.app;

import java.io.BufferedReader;
import java.io.InputStreamReader;
import java.net.HttpURLConnection;
import java.net.URL;
import java.nio.charset.StandardCharsets;
import java.util.Date;
import java.util.Set;
import java.util.UUID;

import org.springframework.beans.factory.annotation.Autowired;
import org.springframework.beans.factory.annotation.Value;
import org.springframework.security.crypto.bcrypt.BCryptPasswordEncoder;
import org.springframework.web.bind.annotation.PostMapping;
import org.springframework.web.bind.annotation.RequestBody;
import org.springframework.web.bind.annotation.RequestMapping;
import org.springframework.web.bind.annotation.RestController;
import "#@
        + pkg
        + r#".common.core.domain.AjaxResult;
import "#@
        + pkg
        + r#".common.core.domain.entity.SysUser;
import "#@
        + pkg
        + r#".common.core.domain.model.LoginUser;
import "#@
        + pkg
        + r#".framework.web.service.SysPermissionService;
import "#@
        + pkg
        + r#".framework.web.service.TokenService;
import "#@
        + pkg
        + r#".system.service.ISysUserService;

/**
 * 微信小程序登录（分离版）。
 * 读取现有 "#@
        + prefix
        + r#".wx.appid / appsecret，调用微信 jscode2session。
 * 按 sys_user.user_name == openid 查找（openid≤28，user_name varchar(30) 放得下）。
 */
@RestController
@RequestMapping("/app/"#@
        + prefix
        + r#"/auth")
public class AppAuthController
{
    @Value("${"#@
        + prefix
        + r#".wx.appid:}")
    private String appid;

    @Value("${"#@
        + prefix
        + r#".wx.appsecret:}")
    private String appsecret;

    @Autowired
    private ISysUserService userService;

    @Autowired
    private TokenService tokenService;

    @Autowired
    private SysPermissionService permissionService;

    @PostMapping("/wechat-login")
    public AjaxResult wechatLogin(@RequestBody java.util.Map<String, String> body) throws Exception
    {
        String code = body == null ? null : body.get("code");
        if (code == null || code.isEmpty())
        {
            return AjaxResult.error("code 不能为空");
        }
        if (appid == null || appid.isEmpty() || appsecret == null || appsecret.isEmpty())
        {
            return AjaxResult.error("未配置小程序 appid/appsecret");
        }
        String wxJson = jscode2session(code);
        String errcode = extractJsonField(wxJson, "errcode");
        if (errcode != null && !"0".equals(errcode))
        {
            String errmsg = extractJsonField(wxJson, "errmsg");
            return AjaxResult.error("微信登录失败：" + (errmsg != null ? errmsg : errcode));
        }
        String openid = extractJsonField(wxJson, "openid");
        if (openid == null || openid.isEmpty())
        {
            return AjaxResult.error("微信未返回 openid");
        }
        SysUser user = userService.selectUserByUserName(openid);
        if (user == null)
        {
            user = new SysUser();
            user.setUserName(openid);
            user.setNickName("微信用户");
            user.setPassword(new BCryptPasswordEncoder().encode(UUID.randomUUID().toString()));
            user.setStatus("0");
            user.setDelFlag("0");
            user.setCreateTime(new Date());
            userService.insertUser(user);
            user = userService.selectUserByUserName(openid);
        }
        if (user == null)
        {
            return AjaxResult.error("创建微信用户失败");
        }
        if ("2".equals(user.getDelFlag()))
        {
            return AjaxResult.error("对不起，您的账号已被删除");
        }
        if ("1".equals(user.getStatus()))
        {
            return AjaxResult.error("对不起，您的账号已停用");
        }
        Set<String> perms = permissionService.getMenuPermission(user);
        LoginUser loginUser = new LoginUser(user.getUserId(), user.getDeptId(), user, perms);
        String token = tokenService.createToken(loginUser);
        AjaxResult ajax = AjaxResult.success();
        ajax.put("token", token);
        return ajax;
    }

    private String jscode2session(String code) throws Exception
    {
        String url = "https://api.weixin.qq.com/sns/jscode2session?appid=" + appid
            + "&secret=" + appsecret + "&js_code=" + code + "&grant_type=authorization_code";
        HttpURLConnection conn = (HttpURLConnection) new URL(url).openConnection();
        conn.setRequestMethod("GET");
        conn.setConnectTimeout(5000);
        conn.setReadTimeout(5000);
        StringBuilder sb = new StringBuilder();
        try (BufferedReader br = new BufferedReader(new InputStreamReader(conn.getInputStream(), StandardCharsets.UTF_8)))
        {
            String line;
            while ((line = br.readLine()) != null)
            {
                sb.append(line);
            }
        }
        return sb.toString();
    }

    private String extractJsonField(String json, String field)
    {
        String p = "\"" + field + "\":\"";
        int i = json.indexOf(p);
        if (i < 0)
        {
            String n = "\"" + field + "\":";
            int j = json.indexOf(n);
            if (j < 0)
            {
                return null;
            }
            int s = j + n.length();
            int e = s;
            while (e < json.length() && Character.isDigit(json.charAt(e)))
            {
                e++;
            }
            return e > s ? json.substring(s, e) : null;
        }
        int s = i + p.length();
        int e = json.indexOf('"', s);
        return e > s ? json.substring(s, e) : null;
    }
}
"#@
}

/// Fills the text of the single-application WechatLoginController.java.
pub fn wechat_vue_controller_fill(pkg: &str, prefix: &str) -> (r: String)
    ensures
        r@ == wechat_vue_controller_text(pkg@, prefix@),
{
    let mut v: Vec<char> = Vec::new();
    extend_str(&mut v, r#"package "#);
    extend_str(&mut v, pkg);
    extend_str(&mut v, r#".web.controller.app;

import java.io.BufferedReader;
import java.io.InputStreamReader;
import java.net.HttpURLConnection;
import java.net.URL;
import java.nio.charset.StandardCharsets;
import java.util.Date;
import java.util.Set;
import java.util.UUID;

import org.springframework.beans.factory.annotation.Autowired;
import org.springframework.beans.factory.annotation.Value;
import org.springframework.security.crypto.bcrypt.BCryptPasswordEncoder;
import org.springframework.web.bind.annotation.PostMapping;
import org.springframework.web.bind.annotation.RequestBody;
import org.springframework.web.bind.annotation.RequestMapping;
import org.springframework.web.bind.annotation.RestController;
import "#);
    extend_str(&mut v, pkg);
    extend_str(&mut v, r#".common.core.domain.AjaxResult;
import "#);
    extend_str(&mut v, pkg);
    extend_str(&mut v, r#".common.core.domain.entity.SysUser;
import "#);
    extend_str(&mut v, pkg);
    extend_str(&mut v, r#".common.core.domain.model.LoginUser;
import "#);
    extend_str(&mut v, pkg);
    extend_str(&mut v, r#".framework.web.service.SysPermissionService;
import "#);
    extend_str(&mut v, pkg);
    extend_str(&mut v, r#".framework.web.service.TokenService;
import "#);
    extend_str(&mut v, pkg);
    extend_str(&mut v, r#".system.service.ISysUserService;

/**
 * 微信小程序登录（分离版）。
 * 读取现有 "#);
    extend_str(&mut v, prefix);
    extend_str(&mut v, r#".wx.appid / appsecret，调用微信 jscode2session。
 * 按 sys_user.user_name == openid 查找（openid≤28，user_name varchar(30) 放得下）。
 */
@RestController
@RequestMapping("/app/"#);
    extend_str(&mut v, prefix);
    extend_str(&mut v, r#"/auth")
public class AppAuthController
{
    @Value("${"#);
    extend_str(&mut v, prefix);
    extend_str(&mut v, r#".wx.appid:}")
    private String appid;

    @Value("${"#);
    extend_str(&mut v, prefix);
    extend_str(&mut v, r#".wx.appsecret:}")
    private String appsecret;

    @Autowired
    private ISysUserService userService;

    @Autowired
    private TokenService tokenService;

    @Autowired
    private SysPermissionService permissionService;

    @PostMapping("/wechat-login")
    public AjaxResult wechatLogin(@RequestBody java.util.Map<String, String> body) throws Exception
    {
        String code = body == null ? null : body.get("code");
        if (code == null || code.isEmpty())
        {
            return AjaxResult.error("code 不能为空");
        }
        if (appid == null || appid.isEmpty() || appsecret == null || appsecret.isEmpty())
        {
            return AjaxResult.error("未配置小程序 appid/appsecret");
        }
        String wxJson = jscode2session(code);
        String errcode = extractJsonField(wxJson, "errcode");
        if (errcode != null && !"0".equals(errcode))
        {
            String errmsg = extractJsonField(wxJson, "errmsg");
            return AjaxResult.error("微信登录失败：" + (errmsg != null ? errmsg : errcode));
        }
        String openid = extractJsonField(wxJson, "openid");
        if (openid == null || openid.isEmpty())
        {
            return AjaxResult.error("微信未返回 openid");
        }
        SysUser user = userService.selectUserByUserName(openid);
        if (user == null)
        {
            user = new SysUser();
            user.setUserName(openid);
            user.setNickName("微信用户");
            user.setPassword(new BCryptPasswordEncoder().encode(UUID.randomUUID().toString()));
            user.setStatus("0");
            user.setDelFlag("0");
            user.setCreateTime(new Date());
            userService.insertUser(user);
            user = userService.selectUserByUserName(openid);
        }
        if (user == null)
        {
            return AjaxResult.error("创建微信用户失败");
        }
        if ("2".equals(user.getDelFlag()))
        {
            return AjaxResult.error("对不起，您的账号已被删除");
        }
        if ("1".equals(user.getStatus()))
        {
            return AjaxResult.error("对不起，您的账号已停用");
        }
        Set<String> perms = permissionService.getMenuPermission(user);
        LoginUser loginUser = new LoginUser(user.getUserId(), user.getDeptId(), user, perms);
        String token = tokenService.createToken(loginUser);
        AjaxResult ajax = AjaxResult.success();
        ajax.put("token", token);
        return ajax;
    }

    private String jscode2session(String code) throws Exception
    {
        String url = "https://api.weixin.qq.com/sns/jscode2session?appid=" + appid
            + "&secret=" + appsecret + "&js_code=" + code + "&grant_type=authorization_code";
        HttpURLConnection conn = (HttpURLConnection) new URL(url).openConnection();
        conn.setRequestMethod("GET");
        conn.setConnectTimeout(5000);
        conn.setReadTimeout(5000);
        StringBuilder sb = new StringBuilder();
        try (BufferedReader br = new BufferedReader(new InputStreamReader(conn.getInputStream(), StandardCharsets.UTF_8)))
        {
            String line;
            while ((line = br.readLine()) != null)
            {
                sb.append(line);
            }
        }
        return sb.toString();
    }

    private String extractJsonField(String json, String field)
    {
        String p = "\"" + field + "\":\"";
        int i = json.indexOf(p);
        if (i < 0)
        {
            String n = "\"" + field + "\":";
            int j = json.indexOf(n);
            if (j < 0)
            {
                return null;
            }
            int s = j + n.length();
            int e = s;
            while (e < json.length() && Character.isDigit(json.charAt(e)))
            {
                e++;
            }
            return e > s ? json.substring(s, e) : null;
        }
        int s = i + p.length();
        int e = json.indexOf('"', s);
        return e > s ? json.substring(s, e) : null;
    }
}
"#);
    string_of(&v)
}

/// Text of the Cloud WechatLoginController.java.
pub open spec fn wechat_cloud_controller_text(pkg: Seq<char>, prefix: Seq<char>) -> Seq<char> {
    r#"package "#@
        + pkg
        + r#".system.controller;

import java.io.BufferedReader;
import java.io.InputStreamReader;
import java.net.HttpURLConnection;
import java.net.URL;
import java.nio.charset.StandardCharsets;
import java.util.Date;
import java.util.Map;
import java.util.UUID;

import org.springframework.beans.factory.annotation.Autowired;
import org.springframework.beans.factory.annotation.Value;
import org.springframework.security.crypto.bcrypt.BCryptPasswordEncoder;
import org.springframework.web.bind.annotation.PostMapping;
import org.springframework.web.bind.annotation.RequestBody;
import org.springframework.web.bind.annotation.RequestMapping;
import org.springframework.web.bind.annotation.RestController;
import "#@
        + pkg
        + r#".common.core.domain.entity.SysUser;
import "#@
        + pkg
        + r#".common.core.domain.model.LoginUser;
import "#@
        + pkg
        + r#".common.core.web.domain.AjaxResult;
import "#@
        + pkg
        + r#".common.security.service.TokenService;
import "#@
        + pkg
        + r#".system.service.ISysUserService;

/**
 * 微信小程序登录（Cloud）。
 * 网关 /system/** StripPrefix=1，本接口映射 /app/"#@
        + prefix
        + r#"/auth，外网
 * POST /system/app/"#@
        + prefix
        + r#"/auth/wechat-login。
 *
 * 官方 auth 的 POST /auth/login 只接受用户名密码，不是给微信 code 用的。
 * system 侧直接调用 common-security TokenService 签发（核实日期 2026-09-06）。
 */
@RestController
@RequestMapping("/app/"#@
        + prefix
        + r#"/auth")
public class AppAuthController
{
    @Value("${"#@
        + prefix
        + r#".wx.appid:}")
    private String appid;

    @Value("${"#@
        + prefix
        + r#".wx.appsecret:}")
    private String appsecret;

    @Autowired
    private ISysUserService userService;

    @Autowired
    private TokenService tokenService;

    @PostMapping("/wechat-login")
    public AjaxResult wechatLogin(@RequestBody java.util.Map<String, String> body) throws Exception
    {
        String code = body == null ? null : body.get("code");
        if (code == null || code.isEmpty())
        {
            return AjaxResult.error("code 不能为空");
        }
        if (appid == null || appid.isEmpty() || appsecret == null || appsecret.isEmpty())
        {
            return AjaxResult.error("未配置小程序 appid/appsecret");
        }
        String wxJson = jscode2session(code);
        String errcode = extractJsonField(wxJson, "errcode");
        if (errcode != null && !"0".equals(errcode))
        {
            String errmsg = extractJsonField(wxJson, "errmsg");
            return AjaxResult.error("微信登录失败：" + (errmsg != null ? errmsg : errcode));
        }
        String openid = extractJsonField(wxJson, "openid");
        if (openid == null || openid.isEmpty())
        {
            return AjaxResult.error("微信未返回 openid");
        }
        SysUser user = userService.selectUserByUserName(openid);
        if (user == null)
        {
            user = new SysUser();
            user.setUserName(openid);
            user.setNickName("微信用户");
            user.setPassword(new BCryptPasswordEncoder().encode(UUID.randomUUID().toString()));
            user.setStatus("0");
            user.setDelFlag("0");
            user.setCreateTime(new Date());
            userService.insertUser(user);
            user = userService.selectUserByUserName(openid);
        }
        if (user == null)
        {
            return AjaxResult.error("创建微信用户失败");
        }
        if ("2".equals(user.getDelFlag()))
        {
            return AjaxResult.error("对不起，您的账号已被删除");
        }
        if ("1".equals(user.getStatus()))
        {
            return AjaxResult.error("对不起，您的账号已停用");
        }
        LoginUser loginUser = new LoginUser();
        loginUser.setSysUser(user);
        loginUser.setUserid(user.getUserId());
        loginUser.setUsername(user.getUserName());
        Map<String, Object> tokenMap = tokenService.createToken(loginUser);
        Object access = tokenMap == null ? null : tokenMap.get("access_token");
        String token = access == null ? String.valueOf(tokenMap) : String.valueOf(access);
        AjaxResult ajax = AjaxResult.success();
        ajax.put("token", token);
        ajax.put("access_token", token);
        if (tokenMap != null)
        {
            ajax.putAll(tokenMap);
        }
        return ajax;
    }

    private String jscode2session(String code) throws Exception
    {
        String url = "https://api.weixin.qq.com/sns/jscode2session?appid=" + appid
            + "&secret=" + appsecret + "&js_code=" + code + "&grant_type=authorization_code";
        HttpURLConnection conn = (HttpURLConnection) new URL(url).openConnection();
        conn.setRequestMethod("GET");
        conn.setConnectTimeout(5000);
        conn.setReadTimeout(5000);
        StringBuilder sb = new StringBuilder();
        try (BufferedReader br = new BufferedReader(new InputStreamReader(conn.getInputStream(), StandardCharsets.UTF_8)))
        {
            String line;
            while ((line = br.readLine()) != null)
            {
                sb.append(line);
            }
        }
        return sb.toString();
    }

    private String extractJsonField(String json, String field)
    {
        String p = "\"" + field + "\":\"";
        int i = json.indexOf(p);
        if (i < 0)
        {
            String n = "\"" + field + "\":";
            int j = json.indexOf(n);
            if (j < 0)
            {
                return null;
            }
            int s = j + n.length();
            int e = s;
            while (e < json.length() && Character.isDigit(json.charAt(e)))
            {
                e++;
            }
            return e > s ? json.substring(s, e) : null;
        }
        int s = i + p.length();
        int e = json.indexOf('"', s);
        return e > s ? json.substring(s, e) : null;
    }
}
"#@
}

/// Fills the text of the Cloud WechatLoginController.java.
pub fn wechat_cloud_controller_fill(pkg: &str, prefix: &str) -> (r: String)
    ensures
        r@ == wechat_cloud_controller_text(pkg@, prefix@),
{
    let mut v: Vec<char> = Vec::new();
    extend_str(&mut v, r#"package "#);
    extend_str(&mut v, pkg);
    extend_str(&mut v, r#".system.controller;

import java.io.BufferedReader;
import java.io.InputStreamReader;
import java.net.HttpURLConnection;
import java.net.URL;
import java.nio.charset.StandardCharsets;
import java.util.Date;
import java.util.Map;
import java.util.UUID;

import org.springframework.beans.factory.annotation.Autowired;
import org.springframework.beans.factory.annotation.Value;
import org.springframework.security.crypto.bcrypt.BCryptPasswordEncoder;
import org.springframework.web.bind.annotation.PostMapping;
import org.springframework.web.bind.annotation.RequestBody;
import org.springframework.web.bind.annotation.RequestMapping;
import org.springframework.web.bind.annotation.RestController;
import "#);
    extend_str(&mut v, pkg);
    extend_str(&mut v, r#".common.core.domain.entity.SysUser;
import "#);
    extend_str(&mut v, pkg);
    extend_str(&mut v, r#".common.core.domain.model.LoginUser;
import "#);
    extend_str(&mut v, pkg);
    extend_str(&mut v, r#".common.core.web.domain.AjaxResult;
import "#);
    extend_str(&mut v, pkg);
    extend_str(&mut v, r#".common.security.service.TokenService;
import "#);
    extend_str(&mut v, pkg);
    extend_str(&mut v, r#".system.service.ISysUserService;

/**
 * 微信小程序登录（Cloud）。
 * 网关 /system/** StripPrefix=1，本接口映射 /app/"#);
    extend_str(&mut v, prefix);
    extend_str(&mut v, r#"/auth，外网
 * POST /system/app/"#);
    extend_str(&mut v, prefix);
    extend_str(&mut v, r#"/auth/wechat-login。
 *
 * 官方 auth 的 POST /auth/login 只接受用户名密码，不是给微信 code 用的。
 * system 侧直接调用 common-security TokenService 签发（核实日期 2026-09-06）。
 */
@RestController
@RequestMapping("/app/"#);
    extend_str(&mut v, prefix);
    extend_str(&mut v, r#"/auth")
public class AppAuthController
{
    @Value("${"#);
    extend_str(&mut v, prefix);
    extend_str(&mut v, r#".wx.appid:}")
    private String appid;

    @Value("${"#);
    extend_str(&mut v, prefix);
    extend_str(&mut v, r#".wx.appsecret:}")
    private String appsecret;

    @Autowired
    private ISysUserService userService;

    @Autowired
    private TokenService tokenService;

    @PostMapping("/wechat-login")
    public AjaxResult wechatLogin(@RequestBody java.util.Map<String, String> body) throws Exception
    {
        String code = body == null ? null : body.get("code");
        if (code == null || code.isEmpty())
        {
            return AjaxResult.error("code 不能为空");
        }
        if (appid == null || appid.isEmpty() || appsecret == null || appsecret.isEmpty())
        {
            return AjaxResult.error("未配置小程序 appid/appsecret");
        }
        String wxJson = jscode2session(code);
        String errcode = extractJsonField(wxJson, "errcode");
        if (errcode != null && !"0".equals(errcode))
        {
            String errmsg = extractJsonField(wxJson, "errmsg");
            return AjaxResult.error("微信登录失败：" + (errmsg != null ? errmsg : errcode));
        }
        String openid = extractJsonField(wxJson, "openid");
        if (openid == null || openid.isEmpty())
        {
            return AjaxResult.error("微信未返回 openid");
        }
        SysUser user = userService.selectUserByUserName(openid);
        if (user == null)
        {
            user = new SysUser();
            user.setUserName(openid);
            user.setNickName("微信用户");
            user.setPassword(new BCryptPasswordEncoder().encode(UUID.randomUUID().toString()));
            user.setStatus("0");
            user.setDelFlag("0");
            user.setCreateTime(new Date());
            userService.insertUser(user);
            user = userService.selectUserByUserName(openid);
        }
        if (user == null)
        {
            return AjaxResult.error("创建微信用户失败");
        }
        if ("2".equals(user.getDelFlag()))
        {
            return AjaxResult.error("对不起，您的账号已被删除");
        }
        if ("1".equals(user.getStatus()))
        {
            return AjaxResult.error("对不起，您的账号已停用");
        }
        LoginUser loginUser = new LoginUser();
        loginUser.setSysUser(user);
        loginUser.setUserid(user.getUserId());
        loginUser.setUsername(user.getUserName());
        Map<String, Object> tokenMap = tokenService.createToken(loginUser);
        Object access = tokenMap == null ? null : tokenMap.get("access_token");
        String token = access == null ? String.valueOf(tokenMap) : String.valueOf(access);
        AjaxResult ajax = AjaxResult.success();
        ajax.put("token", token);
        ajax.put("access_token", token);
        if (tokenMap != null)
        {
            ajax.putAll(tokenMap);
        }
        return ajax;
    }

    private String jscode2session(String code) throws Exception
    {
        String url = "https://api.weixin.qq.com/sns/jscode2session?appid=" + appid
            + "&secret=" + appsecret + "&js_code=" + code + "&grant_type=authorization_code";
        HttpURLConnection conn = (HttpURLConnection) new URL(url).openConnection();
        conn.setRequestMethod("GET");
        conn.setConnectTimeout(5000);
        conn.setReadTimeout(5000);
        StringBuilder sb = new StringBuilder();
        try (BufferedReader br = new BufferedReader(new InputStreamReader(conn.getInputStream(), StandardCharsets.UTF_8)))
        {
            String line;
            while ((line = br.readLine()) != null)
            {
                sb.append(line);
            }
        }
        return sb.toString();
    }

    private String extractJsonField(String json, String field)
    {
        String p = "\"" + field + "\":\"";
        int i = json.indexOf(p);
        if (i < 0)
        {
            String n = "\"" + field + "\":";
            int j = json.indexOf(n);
            if (j < 0)
            {
                return null;
            }
            int s = j + n.length();
            int e = s;
            while (e < json.length() && Character.isDigit(json.charAt(e)))
            {
                e++;
            }
            return e > s ? json.substring(s, e) : null;
        }
        int s = i + p.length();
        int e = json.indexOf('"', s);
        return e > s ? json.substring(s, e) : null;
    }
}
"#);
    string_of(&v)
}

/// The single-application controller: `POST /app/{prefix}/auth/wechat-login`,
/// tokens from the framework TokenService.
pub fn render_vue_controller(params: &CustomizeParams) -> (r: String)
    ensures
        r@ == wechat_vue_controller_text(params.new_package@, params.new_module_prefix@),
{
    wechat_vue_controller_fill(params.new_package.as_str(), params.new_module_prefix.as_str())
}

/// The Cloud controller (system service): same mapping, tokens from the
/// common-security TokenService.
pub fn render_cloud_controller(params: &CustomizeParams) -> (r: String)
    ensures
        r@ == wechat_cloud_controller_text(params.new_package@, params.new_module_prefix@),
{
    wechat_cloud_controller_fill(params.new_package.as_str(), params.new_module_prefix.as_str())
}

} // verus!
