use georm::entity::{derive_entity, EntityPlan, FieldDeclaration};
use georm::ir::{
    GeormFieldAttributes, GeormStructAttributes, M2MLink, M2MRelationship, O2ORelationship,
    OneToMany, OneToOne, SimpleRelationship, TypeRef,
};
use georm::relationships::{Accessor, BindSource, Fetch};

fn plain(name: &str, tokens: &str, path: &[&str], id: bool) -> FieldDeclaration {
    FieldDeclaration {
        ident: name.to_string(),
        vis: String::new(),
        ty: TypeRef { tokens: tokens.to_string(), path: path.iter().map(|s| s.to_string()).collect() },
        attrs: GeormFieldAttributes { id, relation: None, defaultable: false },
    }
}

fn related(name: &str, tokens: &str, path: &[&str], relation: O2ORelationship) -> FieldDeclaration {
    let mut f = plain(name, tokens, path, false);
    f.attrs.relation = Some(relation);
    f
}

fn o2o(entity: &str, table: &str, remote_id: &str, nullable: bool, name: &str) -> O2ORelationship {
    O2ORelationship {
        entity: entity.to_string(),
        table: table.to_string(),
        remote_id: remote_id.to_string(),
        nullable,
        name: name.to_string(),
    }
}

fn m2m(name: &str, table: &str, entity: &str, remote_id: &str, link: (&str, &str, &str)) -> M2MRelationship {
    M2MRelationship {
        name: name.to_string(),
        entity: entity.to_string(),
        table: table.to_string(),
        remote_id: remote_id.to_string(),
        link: M2MLink { table: link.0.to_string(), from: link.1.to_string(), to: link.2.to_string() },
    }
}

fn book() -> EntityPlan {
    let attrs = GeormStructAttributes::new(
        Some("books".to_string()),
        vec![],
        vec![SimpleRelationship {
            name: "reviews".to_string(),
            remote_id: "book_id".to_string(),
            table: "reviews".to_string(),
            entity: "Review".to_string(),
            kind: OneToMany,
        }],
        vec![m2m("genres", "genres", "Genre", "id", ("book_genres", "book_id", "genre_id"))],
    )
    .unwrap();
    let decls = vec![
        plain("ident", "i32", &["i32"], true),
        plain("title", "String", &["String"], false),
        related("author_id", "i32", &["i32"], o2o("Author", "authors", "id", false, "author")),
    ];
    derive_entity("Book", "pub", &attrs, decls).unwrap()
}

fn author() -> EntityPlan {
    let attrs = GeormStructAttributes::new(Some("authors".to_string()), vec![], vec![], vec![]).unwrap();
    let decls = vec![
        plain("id", "i32", &["i32"], true),
        plain("name", "String", &["String"], false),
        related(
            "biography_id",
            "Option<i32>",
            &["Option"],
            o2o("Biography", "biographies", "id", true, "biography"),
        ),
    ];
    derive_entity("Author", "pub", &attrs, decls).unwrap()
}

fn biography() -> EntityPlan {
    let attrs = GeormStructAttributes::new(
        Some("biographies".to_string()),
        vec![SimpleRelationship {
            name: "author".to_string(),
            remote_id: "biography_id".to_string(),
            table: "authors".to_string(),
            entity: "Author".to_string(),
            kind: OneToOne,
        }],
        vec![],
        vec![],
    )
    .unwrap();
    let decls = vec![plain("id", "i32", &["i32"], true), plain("content", "String", &["String"], false)];
    derive_entity("Biography", "pub", &attrs, decls).unwrap()
}

fn genre() -> EntityPlan {
    let attrs = GeormStructAttributes::new(
        Some("genres".to_string()),
        vec![],
        vec![],
        vec![m2m("books", "books", "Book", "ident", ("book_genres", "genre_id", "book_id"))],
    )
    .unwrap();
    let decls = vec![plain("id", "i32", &["i32"], true), plain("name", "String", &["String"], false)];
    derive_entity("Genre", "pub", &attrs, decls).unwrap()
}

fn accessor<'a>(plan: &'a EntityPlan, function: &str) -> &'a Accessor {
    plan.relationships.accessors.iter().find(|a| a.function == function).expect("accessor exists")
}

fn source_field(a: &Accessor) -> Option<String> {
    match &a.source {
        BindSource::Field(f) => Some(f.clone()),
        BindSource::OwnId => None,
    }
}

#[test]
fn book_find_and_get_author() {
    let plan = book();
    assert_eq!(plan.operations.find.sql, "SELECT * FROM books WHERE ident = $1");
    assert_eq!(plan.operations.find.binds, vec!["ident"]);
    let a = accessor(&plan, "get_author");
    assert_eq!(a.sql, "SELECT * FROM authors WHERE id = $1");
    assert_eq!(a.entity, "Author");
    assert_eq!(source_field(a), Some("author_id".to_string()));
    // not nullable: a missing author is an error
    assert_eq!(a.fetch, Fetch::One);
    assert!(plan.relationships.warning.is_none());
}

#[test]
fn book_accessors_in_declaration_order() {
    let plan = book();
    let names: Vec<&str> = plan.relationships.accessors.iter().map(|a| a.function.as_str()).collect();
    assert_eq!(names, vec!["get_author", "get_reviews", "get_genres"]);
    let reviews = accessor(&plan, "get_reviews");
    assert_eq!(reviews.sql, "SELECT * FROM reviews WHERE book_id = $1");
    assert_eq!(reviews.fetch, Fetch::All);
    assert_eq!(source_field(reviews), None);
}

#[test]
fn nullable_relation_is_optional() {
    let plan = author();
    let a = accessor(&plan, "get_biography");
    assert_eq!(a.sql, "SELECT * FROM biographies WHERE id = $1");
    assert_eq!(a.fetch, Fetch::Optional);
    assert_eq!(source_field(a), Some("biography_id".to_string()));
}

#[test]
fn remote_one_to_one_is_optional_on_own_key() {
    let plan = biography();
    let a = accessor(&plan, "get_author");
    assert_eq!(a.sql, "SELECT * FROM authors WHERE biography_id = $1");
    assert_eq!(a.fetch, Fetch::Optional);
    assert_eq!(source_field(a), None);
}

#[test]
fn many_to_many_queries_mirror_each_other() {
    let b = book();
    let g = genre();
    let genres = accessor(&b, "get_genres");
    let books = accessor(&g, "get_books");
    assert_eq!(
        genres.sql,
        "SELECT remote.*\nFROM books local\nJOIN book_genres link ON link.book_id = local.ident\n\
         JOIN genres remote ON link.genre_id = remote.id\nWHERE local.ident = $1"
    );
    assert_eq!(
        books.sql,
        "SELECT remote.*\nFROM genres local\nJOIN book_genres link ON link.genre_id = local.id\n\
         JOIN books remote ON link.book_id = remote.ident\nWHERE local.id = $1"
    );
    assert_eq!(genres.fetch, Fetch::All);
    assert_eq!(books.fetch, Fetch::All);
}

#[test]
fn relation_function_names_and_queries() {
    let rel: SimpleRelationship<OneToMany> = SimpleRelationship {
        name: "comments".to_string(),
        remote_id: "author_id".to_string(),
        table: "comments".to_string(),
        entity: "Comment".to_string(),
        kind: OneToMany,
    };
    assert_eq!(rel.make_function_name(), "get_comments");
    assert_eq!(rel.make_query(), "SELECT * FROM comments WHERE author_id = $1");
}
