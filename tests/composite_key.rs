use georm::entity::{derive_entity, EntityPlan, FieldDeclaration};
use georm::ir::{GeormFieldAttributes, GeormStructAttributes, SimpleRelationship, OneToMany, TypeRef};
use georm::keys::IdType;

fn role_field(name: &str, tokens: &str, id: bool) -> FieldDeclaration {
    FieldDeclaration {
        ident: name.to_string(),
        vis: String::new(),
        ty: TypeRef { tokens: tokens.to_string(), path: vec![tokens.to_string()] },
        attrs: GeormFieldAttributes { id, relation: None, defaultable: false },
    }
}

fn user_role(one_to_many: Vec<SimpleRelationship<OneToMany>>) -> EntityPlan {
    let attrs =
        GeormStructAttributes::new(Some("user_roles".to_string()), vec![], one_to_many, vec![])
            .unwrap();
    let decls = vec![
        role_field("user_id", "i32", true),
        role_field("role_id", "i32", true),
        role_field("assigned_at", "DateTime", false),
    ];
    derive_entity("UserRole", "pub", &attrs, decls).unwrap()
}

#[test]
fn composite_key_get_id() {
    let plan = user_role(vec![]);
    let key = plan.key_struct.expect("a composite key struct");
    assert_eq!(key.name, "UserRoleId");
    assert_eq!(key.vis, "pub");
    let members: Vec<(String, String)> =
        key.fields.iter().map(|f| (f.name.clone(), f.ty.tokens.clone())).collect();
    assert_eq!(
        members,
        vec![("user_id".to_string(), "i32".to_string()), ("role_id".to_string(), "i32".to_string())]
    );
    assert_eq!(key.derives, vec!["PartialEq", "Eq"]);
    match &plan.id {
        IdType::Composite { field_type, .. } => assert_eq!(field_type, "UserRoleId"),
        IdType::Simple { .. } => panic!("expected a composite identifier"),
    }
    // get_id copies user_id and role_id, which find binds to $1 and $2
    assert_eq!(plan.id.names(), vec!["user_id", "role_id"]);
}

#[test]
fn composite_key_statements() {
    let ops = user_role(vec![]).operations;
    assert_eq!(ops.find.sql, "SELECT * FROM user_roles WHERE user_id = $1 AND role_id = $2");
    assert_eq!(ops.find.binds, vec!["user_id", "role_id"]);
    assert_eq!(ops.delete.sql, "DELETE FROM user_roles WHERE user_id = $1 AND role_id = $2");
    assert_eq!(
        ops.update.sql,
        "UPDATE user_roles SET assigned_at = $1 WHERE user_id = $2 AND role_id = $3 RETURNING *"
    );
    assert_eq!(ops.update.binds, vec!["assigned_at", "user_id", "role_id"]);
    assert_eq!(
        ops.upsert.sql,
        "INSERT INTO user_roles (user_id, role_id, assigned_at) VALUES ($1, $2, $3) \
         ON CONFLICT (user_id, role_id) DO UPDATE SET assigned_at = EXCLUDED.assigned_at \
         RETURNING *"
    );
    assert_eq!(ops.upsert.binds, vec!["user_id", "role_id", "assigned_at"]);
    assert_eq!(
        ops.create.sql,
        "INSERT INTO user_roles (user_id, role_id, assigned_at) VALUES ($1, $2, $3) RETURNING *"
    );
    assert_eq!(ops.find_all.sql, "SELECT * FROM user_roles");
    assert!(ops.find_all.binds.is_empty());
}

#[test]
fn composite_key_suppresses_relationships() {
    let rel = SimpleRelationship {
        name: "grants".to_string(),
        remote_id: "user_role".to_string(),
        table: "grants".to_string(),
        entity: "Grant".to_string(),
        kind: OneToMany,
    };
    let plan = user_role(vec![rel]);
    assert!(plan.relationships.accessors.is_empty());
    assert_eq!(
        plan.relationships.warning.as_deref(),
        Some(
            "Warning: entity UserRole: Relationships are not supported for entities with \
             composite primary keys yet"
        )
    );
}

#[test]
fn composite_companion_is_keyed_by_key_struct() {
    let attrs =
        GeormStructAttributes::new(Some("user_roles".to_string()), vec![], vec![], vec![]).unwrap();
    let mut assigned = role_field("assigned_at", "DateTime", false);
    assigned.attrs.defaultable = true;
    let decls = vec![role_field("user_id", "i32", true), role_field("role_id", "i32", true), assigned];
    let plan = derive_entity("UserRole", "pub", &attrs, decls).unwrap();
    let companion = plan.defaultable.expect("a companion struct");
    assert_eq!(companion.name, "UserRoleDefault");
    assert_eq!(companion.id_type.tokens, "UserRoleId");
    assert_eq!(companion.id_type.path, vec!["UserRoleId"]);
}
