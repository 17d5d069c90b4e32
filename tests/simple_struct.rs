use georm::entity::{derive_entity, extract_georm_field_attrs, FieldDeclaration};
use georm::ir::{DeclarationError, GeormField, GeormFieldAttributes, GeormStructAttributes, TypeRef};
use georm::keys::{create_primary_key, IdType};
use georm::query::{
    generate_create_query, generate_delete_query, generate_find_all_query, generate_find_query,
    generate_update_query, generate_upsert_query,
};

fn decl(name: &str, tokens: &str, path: &[&str], id: bool, defaultable: bool) -> FieldDeclaration {
    FieldDeclaration {
        ident: name.to_string(),
        vis: String::new(),
        ty: TypeRef { tokens: tokens.to_string(), path: path.iter().map(|s| s.to_string()).collect() },
        attrs: GeormFieldAttributes { id, relation: None, defaultable },
    }
}

fn author_fields() -> Vec<GeormField> {
    extract_georm_field_attrs(
        "Author",
        vec![
            decl("id", "i32", &["i32"], true, false),
            decl("name", "String", &["String"], false, false),
            decl("biography_id", "Option<i32>", &["Option"], false, false),
        ],
    )
    .unwrap()
}

#[test]
fn simple_key_statements() {
    let fields = author_fields();
    let (id, key) = create_primary_key("Author", "pub", &fields);
    assert!(key.is_none());
    match &id {
        IdType::Simple { field_name, field_type } => {
            assert_eq!(field_name, "id");
            assert_eq!(field_type.tokens, "i32");
        }
        IdType::Composite { .. } => panic!("expected a simple identifier"),
    }
    assert_eq!(generate_find_all_query("authors").sql, "SELECT * FROM authors");
    let find = generate_find_query("authors", &id);
    assert_eq!(find.sql, "SELECT * FROM authors WHERE id = $1");
    assert_eq!(find.binds, vec!["id"]);
    let create = generate_create_query("authors", &fields);
    assert_eq!(
        create.sql,
        "INSERT INTO authors (id, name, biography_id) VALUES ($1, $2, $3) RETURNING *"
    );
    assert_eq!(create.binds, vec!["id", "name", "biography_id"]);
    let update = generate_update_query("authors", &fields, &id);
    assert_eq!(
        update.sql,
        "UPDATE authors SET name = $1, biography_id = $2 WHERE id = $3 RETURNING *"
    );
    assert_eq!(update.binds, vec!["name", "biography_id", "id"]);
    let upsert = generate_upsert_query("authors", &fields, &id);
    assert_eq!(
        upsert.sql,
        "INSERT INTO authors (id, name, biography_id) VALUES ($1, $2, $3) ON CONFLICT (id) \
         DO UPDATE SET name = EXCLUDED.name, biography_id = EXCLUDED.biography_id RETURNING *"
    );
    assert_eq!(upsert.binds, vec!["id", "name", "biography_id"]);
    let delete = generate_delete_query("authors", &id);
    assert_eq!(delete.sql, "DELETE FROM authors WHERE id = $1");
    assert_eq!(delete.binds, vec!["id"]);
}

#[test]
fn placeholders_match_bind_counts() {
    let fields = author_fields();
    let (id, _) = create_primary_key("Author", "pub", &fields);
    for q in [
        generate_create_query("authors", &fields),
        generate_upsert_query("authors", &fields, &id),
        generate_update_query("authors", &fields, &id),
    ] {
        let count = q.sql.matches('$').count();
        assert_eq!(count, q.binds.len());
        assert_eq!(q.binds.len(), fields.len());
    }
}

#[test]
fn placeholders_past_nine_fields() {
    let mut decls = vec![decl("id", "i32", &["i32"], true, false)];
    for i in 1..12 {
        decls.push(decl(&format!("f{}", i), "i32", &["i32"], false, false));
    }
    let fields = extract_georm_field_attrs("Wide", decls).unwrap();
    let (id, _) = create_primary_key("Wide", "", &fields);
    let update = generate_update_query("wide", &fields, &id);
    assert!(update.sql.contains("f9 = $9, f10 = $10, f11 = $11 WHERE id = $12"));
    assert_eq!(update.binds.last().map(String::as_str), Some("id"));
}

#[test]
fn missing_identifier_is_refused() {
    let r = extract_georm_field_attrs(
        "Nameless",
        vec![decl("name", "String", &["String"], false, false)],
    );
    match r {
        Err(DeclarationError::NoIdentifier { entity }) => assert_eq!(entity, "Nameless"),
        other => panic!("unexpected result: {:?}", other),
    }
}

#[test]
fn missing_table_is_refused() {
    let r = GeormStructAttributes::new(None, vec![], vec![], vec![]);
    assert!(matches!(r, Err(DeclarationError::MissingTable)));
}

#[test]
fn option_type_detection() {
    let opt = TypeRef { tokens: "std::option::Option<i32>".to_string(), path: vec!["std".to_string(), "option".to_string(), "Option".to_string()] };
    assert!(GeormField::is_option_type(&opt));
    let not = TypeRef { tokens: "Vec<Option<i32>>".to_string(), path: vec!["Vec".to_string()] };
    assert!(!GeormField::is_option_type(&not));
    let tuple = TypeRef { tokens: "(i32, i32)".to_string(), path: vec![] };
    assert!(!GeormField::is_option_type(&tuple));
}

#[test]
fn entity_without_identifier_is_not_generated() {
    let attrs = GeormStructAttributes::new(Some("things".to_string()), vec![], vec![], vec![]).unwrap();
    let r = derive_entity("Thing", "", &attrs, vec![decl("name", "String", &["String"], false, false)]);
    assert!(matches!(r, Err(DeclarationError::NoIdentifier { .. })));
}
