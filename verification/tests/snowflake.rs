use ruoyi_forge::snowflake::{
    capitalize_first, field_to_setter, inject_snowflake_to_service_impl_vm, inject_snowflake_to_source,
    mark_domain_idtype_input, prioritize_modules, resolve_pk_setter_for_entity,
};

// ---------- VM 注入 ----------

#[test]
fn vm_inject_uses_pk_column_setter() {
    let vm = "package ${packageName}.service.impl;\npublic class ${ClassName}ServiceImpl {\n    public int insert${ClassName}(${ClassName} ${className}) {\n        ${className}.setCreateTime(new Date());\n        return ${className}Mapper.insert${ClassName}(${className});\n    }\n}\n";
    let out = inject_snowflake_to_service_impl_vm(vm).unwrap();
    assert!(out.contains(
        "${className}.set${pkColumn.capJavaField}(cn.hutool.core.util.IdUtil.getSnowflakeNextId());"
    ));
    assert!(!out.contains(".setId("), "不应再使用通用 setId");
}

#[test]
fn vm_inject_is_idempotent() {
    let vm = "public int insert${ClassName}(${ClassName} ${className}) {\n}\n";
    let once = inject_snowflake_to_service_impl_vm(vm).unwrap();
    assert!(inject_snowflake_to_service_impl_vm(&once).is_none());
}

#[test]
fn vm_inject_returns_none_when_no_insert() {
    let vm = "public class FooServiceImpl {\n    public List<Foo> selectList() { return null; }\n}\n";
    assert!(inject_snowflake_to_service_impl_vm(vm).is_none());
}

#[test]
fn vm_inject_exact_text() {
    let vm = "a public int insert${ClassName}(${ClassName} ${className}) { b";
    let out = inject_snowflake_to_service_impl_vm(vm).unwrap();
    assert_eq!(
        out,
        "a public int insert${ClassName}(${ClassName} ${className}) {\n        ${className}.set${pkColumn.capJavaField}(cn.hutool.core.util.IdUtil.getSnowflakeNextId()); b"
    );
}

// ---------- 源码注入 ----------

#[test]
fn source_inject_uses_real_pk_setter() {
    let src = r#"
public class SysUserServiceImpl {
    public SysUser selectUserById(Long userId) { return null; }
    public int insertUser(SysUser user) {
        user.setCreateTime(new Date());
        return userMapper.insertUser(user);
    }
}
"#;
    let out = inject_snowflake_to_source(src).unwrap();
    assert!(out.contains("user.setUserId(cn.hutool.core.util.IdUtil.getSnowflakeNextId());"));
    assert!(!out.contains("user.setId("));
}

#[test]
fn source_inject_prefers_by_id_over_association_select() {
    let src = r#"
public class SysDeptServiceImpl {
    public List<Long> selectDeptListByRoleId(Long roleId) { return null; }
    public SysDept selectDeptById(Long deptId) { return null; }
    public int insertDept(SysDept dept) {
        return deptMapper.insertDept(dept);
    }
}
"#;
    let out = inject_snowflake_to_source(src).unwrap();
    assert!(out.contains("dept.setDeptId("));
    assert!(!out.contains("dept.setRoleId("));
}

#[test]
fn source_inject_menu_ignores_user_id_selects() {
    let src = r#"
public class SysMenuServiceImpl {
    public List<SysMenu> selectMenuList(Long userId) { return null; }
    public SysMenu selectMenuById(Long menuId) { return null; }
    public int insertMenu(SysMenu menu) {
        return menuMapper.insertMenu(menu);
    }
}
"#;
    let out = inject_snowflake_to_source(src).unwrap();
    assert!(out.contains("menu.setMenuId("));
    assert!(!out.contains("menu.setUserId("));
}

#[test]
fn source_inject_skips_association_inserts() {
    let src = r#"
public class SysRoleServiceImpl {
    public List<SysRole> selectRolesByUserId(Long userId) { return null; }
    public SysRole selectRoleById(Long roleId) { return null; }
    public int insertRole(SysRole role) {
        return roleMapper.insertRole(role);
    }
    public int insertRoleMenu(SysRole role) {
        return 1;
    }
}
"#;
    let out = inject_snowflake_to_source(src).unwrap();
    assert!(out.contains("role.setRoleId("));
    assert!(!out.contains("role.setUserId("));
    let after_menu = out.split("insertRoleMenu").nth(1).unwrap_or("");
    assert!(!after_menu.contains("IdUtil"), "关联 insert 不应注入雪花: {after_menu}");
}

#[test]
fn source_inject_handles_config_id() {
    let src = r#"
public class SysConfigServiceImpl {
    public SysConfig selectConfigById(Long configId) { return null; }
    public int insertConfig(SysConfig config) {
        return configMapper.insertConfig(config);
    }
}
"#;
    let out = inject_snowflake_to_source(src).unwrap();
    assert!(out.contains("config.setConfigId("));
}

#[test]
fn source_inject_is_idempotent() {
    let src = r#"
public class SysUserServiceImpl {
    public SysUser selectUserById(Long userId) { return null; }
    public int insertUser(SysUser user) {
        return userMapper.insertUser(user);
    }
}
"#;
    let once = inject_snowflake_to_source(src).unwrap();
    assert!(inject_snowflake_to_source(&once).is_none());
}

#[test]
fn source_inject_skips_when_no_pk_hint() {
    let src = "public int insertOrder(Order orderEntity) {\n    return orderMapper.insertOrder(orderEntity);\n}\n";
    assert!(inject_snowflake_to_source(src).is_none());
}

#[test]
fn pk_setter_falls_back_to_entity_returning_select() {
    let src = "public SysPost selectPostInfo(Long postId) { return null; }";
    assert_eq!(resolve_pk_setter_for_entity(src, "SysPost").as_deref(), Some("setPostId"));
    assert_eq!(resolve_pk_setter_for_entity("nothing here", "SysPost"), None);
}

#[test]
fn setter_and_capitalize() {
    assert_eq!(capitalize_first("userId"), "UserId");
    assert_eq!(capitalize_first(""), "");
    assert_eq!(capitalize_first("ébc"), "Ébc");
    assert_eq!(field_to_setter("configId"), "setConfigId");
}

// ---------- domain IdType.INPUT ----------

#[test]
fn mark_input_replaces_typed_tableid() {
    let domain = "import com.baomidou.mybatisplus.annotation.TableId;\n@TableId(type = IdType.AUTO)\nprivate Long id;\n";
    let out = mark_domain_idtype_input(domain).unwrap();
    assert!(out.contains("@TableId(type = IdType.INPUT)"));
    assert!(out.contains("import com.baomidou.mybatisplus.annotation.IdType;"));
    assert!(!out.contains("IdType.AUTO"));
}

#[test]
fn mark_input_replaces_plain_tableid() {
    let domain = "@TableId\nprivate Long userId;\n";
    let out = mark_domain_idtype_input(domain).unwrap();
    assert!(out.contains("@TableId(type = IdType.INPUT)"));
}

#[test]
fn mark_input_is_idempotent() {
    let domain = "@TableId(type = IdType.INPUT)\nprivate Long id;\n";
    assert!(mark_domain_idtype_input(domain).is_none());
}

#[test]
fn mark_input_none_without_table_id() {
    assert!(mark_domain_idtype_input("private Long id;\n").is_none());
}

// ---------- 模块优先级 ----------

#[test]
fn prioritize_modules_by_name_words() {
    let mods: Vec<String> = ["x-admin", "a", "demo-framework", "b", "demo-common", "common-2"]
        .iter()
        .map(|s| s.to_string())
        .collect();
    assert_eq!(
        prioritize_modules(&mods),
        vec!["demo-common", "common-2", "demo-framework", "x-admin", "a", "b"]
    );
}
