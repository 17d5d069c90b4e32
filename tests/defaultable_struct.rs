use georm::defaultable::{defaultable_insert_query, DefaultableStruct, InsertBuilder};
use georm::entity::{derive_entity, FieldDeclaration};
use georm::ir::{DeclarationError, GeormFieldAttributes, GeormStructAttributes, TypeRef};

fn ty(tokens: &str, path: &[&str]) -> TypeRef {
    TypeRef { tokens: tokens.to_string(), path: path.iter().map(|s| s.to_string()).collect() }
}

fn field(name: &str, t: TypeRef, id: bool, defaultable: bool) -> FieldDeclaration {
    FieldDeclaration {
        ident: name.to_string(),
        vis: "pub".to_string(),
        ty: t,
        attrs: GeormFieldAttributes { id, relation: None, defaultable },
    }
}

fn authors() -> GeormStructAttributes {
    GeormStructAttributes::new(Some("authors".to_string()), vec![], vec![], vec![]).unwrap()
}

fn i32_ty() -> TypeRef {
    ty("i32", &["i32"])
}

fn string_ty() -> TypeRef {
    ty("String", &["String"])
}

fn option_i32_ty() -> TypeRef {
    ty("Option<i32>", &["Option"])
}

/// `TestAuthor` and `MinimalDefaultable`: only the identifier is defaultable.
fn id_defaultable(name: &str) -> DefaultableStruct {
    let decls = vec![
        field("id", i32_ty(), true, true),
        field("name", string_ty(), false, false),
        field("biography_id", option_i32_ty(), false, false),
    ];
    derive_entity(name, "", &authors(), decls).unwrap().defaultable.unwrap()
}

/// `MultiDefaultable`: the identifier and the name are defaultable.
fn multi_defaultable() -> DefaultableStruct {
    let decls = vec![
        field("id", i32_ty(), true, true),
        field("name", string_ty(), false, true),
        field("biography_id", option_i32_ty(), false, false),
    ];
    derive_entity("MultiDefaultable", "", &authors(), decls).unwrap().defaultable.unwrap()
}

fn insert_of(d: &DefaultableStruct, present: Vec<bool>) -> (String, Vec<String>) {
    let q = defaultable_insert_query(&d.table, &d.columns, &present);
    (q.sql, q.binds)
}

#[test]
fn defaultable_struct_should_exist() {
    let d = id_defaultable("TestAuthor");
    assert_eq!(d.name, "TestAuthorDefault");
    let shape: Vec<(String, String, bool)> =
        d.fields.iter().map(|f| (f.ident.clone(), f.ty.tokens.clone(), f.optional)).collect();
    assert_eq!(
        shape,
        vec![
            ("id".to_string(), "i32".to_string(), true),
            ("name".to_string(), "String".to_string(), false),
            ("biography_id".to_string(), "Option<i32>".to_string(), false),
        ]
    );
    // id: Some(1), name: "Test Author", biography_id: None
    let (sql, binds) = insert_of(&d, vec![true, true, false]);
    assert_eq!(sql, "INSERT INTO authors (id, name, biography_id) VALUES ($1, $2, $3) RETURNING *");
    assert_eq!(binds, vec!["id", "name", "biography_id"]);
}

#[test]
fn minimal_defaultable_struct_should_exist() {
    let d = id_defaultable("MinimalDefaultable");
    assert_eq!(d.name, "MinimalDefaultableDefault");
    assert_eq!(d.id_type.tokens, "i32");
    // id: None, name: "testuser", biography_id: None
    let (sql, binds) = insert_of(&d, vec![false, true, false]);
    assert_eq!(sql, "INSERT INTO authors (name, biography_id) VALUES ($1, $2) RETURNING *");
    assert_eq!(binds, vec!["name", "biography_id"]);
}

#[test]
fn defaultable_fields_can_be_none() {
    let d = id_defaultable("TestAuthor");
    // id: None, name: "Test Author", biography_id: None
    let (sql, _) = insert_of(&d, vec![false, true, false]);
    assert_eq!(sql, "INSERT INTO authors (name, biography_id) VALUES ($1, $2) RETURNING *");
}

#[test]
fn field_visibility_is_preserved() {
    let d = id_defaultable("TestAuthor");
    assert!(d.fields.iter().all(|f| f.vis == "pub"));
    // id: Some(1), name: "Test", biography_id: Some(1)
    let (sql, binds) = insert_of(&d, vec![true, true, true]);
    assert_eq!(sql, "INSERT INTO authors (id, name, biography_id) VALUES ($1, $2, $3) RETURNING *");
    assert_eq!(binds.len(), 3);
}

#[test]
fn mixed_defaultable_fields_keep_declaration_order() {
    let d = multi_defaultable();
    // id: None, name: Some("Explicit Name"), biography_id: Some(1)
    let (sql, binds) = insert_of(&d, vec![false, true, true]);
    assert_eq!(sql, "INSERT INTO authors (name, biography_id) VALUES ($1, $2) RETURNING *");
    assert_eq!(binds, vec!["name", "biography_id"]);
    // every defaultable field absent: only the required column remains
    let (sql, binds) = insert_of(&d, vec![false, false, false]);
    assert_eq!(sql, "INSERT INTO authors (biography_id) VALUES ($1) RETURNING *");
    assert_eq!(binds, vec!["biography_id"]);
}

#[test]
fn defaultable_insertion_id_name_bio() {
    // {id (defaultable), name, bio (defaultable)} with id = None, bio = Some
    let decls = vec![
        field("id", i32_ty(), true, true),
        field("name", string_ty(), false, false),
        field("bio", string_ty(), false, true),
    ];
    let d = derive_entity("Writer", "pub", &authors(), decls).unwrap().defaultable.unwrap();
    let (sql, binds) = insert_of(&d, vec![false, true, true]);
    assert_eq!(sql, "INSERT INTO authors (name, bio) VALUES ($1, $2) RETURNING *");
    assert_eq!(binds, vec!["name", "bio"]);
    let (sql, binds) = insert_of(&d, vec![false, true, false]);
    assert_eq!(sql, "INSERT INTO authors (name) VALUES ($1) RETURNING *");
    assert_eq!(binds, vec!["name"]);
}

#[test]
fn no_companion_without_defaultable_fields() {
    let decls = vec![field("id", i32_ty(), true, false), field("name", string_ty(), false, false)];
    let plan = derive_entity("Plain", "", &authors(), decls).unwrap();
    assert!(plan.defaultable.is_none());
}

#[test]
fn defaultable_option_field_is_refused() {
    let decls = vec![
        field("id", i32_ty(), true, false),
        field("biography_id", option_i32_ty(), false, true),
    ];
    match derive_entity("Broken", "", &authors(), decls) {
        Err(DeclarationError::DefaultableOption { field }) => assert_eq!(field, "biography_id"),
        other => panic!("unexpected result: {:?}", other.map(|p| p.fields.len())),
    }
}

#[test]
fn insert_builder_numbers_in_order() {
    let mut b = InsertBuilder::new("t");
    b.column("a");
    b.column("b");
    b.column("c");
    let q = b.build();
    assert_eq!(q.sql, "INSERT INTO t (a, b, c) VALUES ($1, $2, $3) RETURNING *");
    assert_eq!(q.binds, vec!["a", "b", "c"]);
}

#[test]
fn insert_builder_numbers_past_nine() {
    let mut b = InsertBuilder::new("wide");
    let names: Vec<String> = (0..11).map(|i| format!("c{}", i)).collect();
    for n in &names {
        b.column(n);
    }
    let q = b.build();
    assert!(q.sql.ends_with("VALUES ($1, $2, $3, $4, $5, $6, $7, $8, $9, $10, $11) RETURNING *"));
    assert_eq!(q.binds, names);
}
