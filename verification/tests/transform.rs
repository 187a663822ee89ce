use domain_model::decl::{DeclBody, FieldsShape, NamedField, SumVariant, TypeDeclaration};
use domain_model::emit::expand_domain_model;

fn plain_decl(name: &str, source: &str, body: DeclBody) -> TypeDeclaration {
    TypeDeclaration {
        name: name.to_string(),
        impl_generics: String::new(),
        ty_generics: String::new(),
        where_clause: String::new(),
        source: source.to_string(),
        body,
    }
}

fn named(name: &str, ty: &str) -> NamedField {
    NamedField {
        name: name.to_string(),
        ty: ty.to_string(),
    }
}

fn user_decl() -> TypeDeclaration {
    plain_decl(
        "User",
        "pub struct User { pub id: String, pub name: String }",
        DeclBody::Product(FieldsShape::Record(vec![
            named("id", "String"),
            named("name", "String"),
        ])),
    )
}

fn status_decl() -> TypeDeclaration {
    plain_decl(
        "Status",
        "pub enum Status { Active, Inactive { reason: String }, Pending(i32) }",
        DeclBody::Sum(vec![
            SumVariant {
                name: "Active".to_string(),
                fields: FieldsShape::Unit,
            },
            SumVariant {
                name: "Inactive".to_string(),
                fields: FieldsShape::Record(vec![named("reason", "String")]),
            },
            SumVariant {
                name: "Pending".to_string(),
                fields: FieldsShape::Tuple(vec!["i32".to_string()]),
            },
        ]),
    )
}

fn user_id_decl() -> TypeDeclaration {
    plain_decl(
        "UserId",
        "pub struct UserId(String);",
        DeclBody::Product(FieldsShape::Tuple(vec!["String".to_string()])),
    )
}

#[test]
fn test_expand_simple_struct() {
    let input = user_decl();

    let output_str = expand_domain_model(&input).unwrap();

    assert!(output_str.contains("DomainSafe"));
    assert!(output_str.contains("DomainModel"));
    assert!(output_str.contains("__assert_field_is_domain_safe"));
}

#[test]
fn test_expand_unit_struct() {
    let input = plain_decl(
        "Marker",
        "pub struct Marker;",
        DeclBody::Product(FieldsShape::Unit),
    );

    let output_str = expand_domain_model(&input).unwrap();

    assert!(output_str.contains("DomainSafe"));
    assert!(output_str.contains("DomainModel"));
    // No field assertions for unit structs
    assert!(!output_str.contains("__validate_domain_model_fields"));
}

#[test]
fn test_expand_tuple_struct() {
    let input = user_id_decl();

    let output_str = expand_domain_model(&input).unwrap();

    assert!(output_str.contains("DomainSafe"));
    assert!(output_str.contains("__assert_field_is_domain_safe"));
}

#[test]
fn test_expand_enum() {
    let input = status_decl();

    let output_str = expand_domain_model(&input).unwrap();

    assert!(output_str.contains("DomainSafe"));
    assert!(output_str.contains("DomainModel"));
}

#[test]
fn test_expand_generic_struct() {
    let input = TypeDeclaration {
        name: "Container".to_string(),
        impl_generics: "<T>".to_string(),
        ty_generics: "<T>".to_string(),
        where_clause: String::new(),
        source: "pub struct Container<T> { pub value: T }".to_string(),
        body: DeclBody::Product(FieldsShape::Record(vec![named("value", "T")])),
    };

    let output_str = expand_domain_model(&input).unwrap();

    assert!(output_str.contains("DomainSafe"));
    assert!(output_str.contains("DomainModel"));
}

#[test]
fn unit_struct_exact_output() {
    let input = plain_decl(
        "Marker",
        "pub struct Marker;",
        DeclBody::Product(FieldsShape::Unit),
    );

    let output = expand_domain_model(&input).unwrap();

    let expected = "pub struct Marker;\n\n\
        impl  ::modkit::domain::DomainSafe for Marker  {}\n\
        impl  ::modkit::domain::DomainModel for Marker  {}\n";
    assert_eq!(output, expected);
}

#[test]
fn tuple_struct_exact_output() {
    let input = user_id_decl();

    let output = expand_domain_model(&input).unwrap();

    let expected = "pub struct UserId(String);\n\n\
        impl  ::modkit::domain::DomainSafe for UserId  {}\n\
        impl  ::modkit::domain::DomainModel for UserId  {}\n\
        \n\
        const _: () = {\n\
        \x20   #[allow(dead_code)]\n\
        \x20   fn __assert_field_is_domain_safe<T: ::modkit::domain::DomainSafe>() {}\n\
        \n\
        \x20   #[allow(dead_code)]\n\
        \x20   fn __validate_domain_model_fields() {\n\
        \x20       __assert_field_is_domain_safe::<String>();\n\
        \x20   }\n\
        };\n";
    assert_eq!(output, expected);
}

#[test]
fn record_fields_each_checked_in_order() {
    let input = plain_decl(
        "Pair",
        "pub struct Pair { pub first: u64, pub second: String }",
        DeclBody::Product(FieldsShape::Record(vec![
            named("first", "u64"),
            named("second", "String"),
        ])),
    );

    let output = expand_domain_model(&input).unwrap();

    let first = output
        .find("__assert_field_is_domain_safe::<u64>();")
        .unwrap();
    let second = output
        .find("__assert_field_is_domain_safe::<String>();")
        .unwrap();
    assert!(first < second);
}

#[test]
fn duplicate_field_types_each_checked() {
    let input = user_decl();

    let output = expand_domain_model(&input).unwrap();

    let line = "__assert_field_is_domain_safe::<String>();";
    assert_eq!(output.matches(line).count(), 2);
}

#[test]
fn enum_field_types_flatten_variant_major() {
    let input = status_decl();

    let types = domain_model::decl::field_types(&input);

    assert_eq!(types, vec!["String".to_string(), "i32".to_string()]);
}

#[test]
fn single_field_tuple_yields_one_entry() {
    let input = user_id_decl();

    let types = domain_model::decl::field_types(&input);

    assert_eq!(types, vec!["String".to_string()]);
}

#[test]
fn unit_only_enum_emits_markers_without_validation() {
    let input = plain_decl(
        "Toggle",
        "pub enum Toggle { On, Off }",
        DeclBody::Sum(vec![
            SumVariant {
                name: "On".to_string(),
                fields: FieldsShape::Unit,
            },
            SumVariant {
                name: "Off".to_string(),
                fields: FieldsShape::Unit,
            },
        ]),
    );

    let output = expand_domain_model(&input).unwrap();

    assert!(output.contains("::modkit::domain::DomainSafe for Toggle"));
    assert!(output.contains("::modkit::domain::DomainModel for Toggle"));
    assert!(!output.contains("__validate_domain_model_fields"));
    assert!(!output.contains("const _"));
}

#[test]
fn union_is_rejected_with_exact_message() {
    let input = plain_decl("Raw", "union Raw { a: i32, b: u32 }", DeclBody::RawUnion);

    let result = expand_domain_model(&input);

    let err = result.err().unwrap();
    assert_eq!(err.message, "domain_model cannot be applied to unions");
    assert_eq!(err.anchor, "Raw");
}

#[test]
fn generic_registration_headers_reproduce_generics() {
    let input = TypeDeclaration {
        name: "Tagged".to_string(),
        impl_generics: "<K: Clone, V>".to_string(),
        ty_generics: "<K, V>".to_string(),
        where_clause: "where V: Send".to_string(),
        source: "pub struct Tagged<K: Clone, V> where V: Send { pub key: K, pub value: V }"
            .to_string(),
        body: DeclBody::Product(FieldsShape::Record(vec![
            named("key", "K"),
            named("value", "V"),
        ])),
    };

    let output = expand_domain_model(&input).unwrap();

    assert!(output.contains("impl <K: Clone, V> ::modkit::domain::DomainSafe for Tagged<K, V> where V: Send {}"));
    assert!(output.contains("impl <K: Clone, V> ::modkit::domain::DomainModel for Tagged<K, V> where V: Send {}"));
}

#[test]
fn original_declaration_emitted_first_and_verbatim() {
    let input = user_decl();

    let output = expand_domain_model(&input).unwrap();

    assert!(output.starts_with("pub struct User { pub id: String, pub name: String }"));
}

#[test]
fn rerunning_yields_identical_output() {
    let once = expand_domain_model(&status_decl()).unwrap();
    let twice = expand_domain_model(&status_decl()).unwrap();
    assert_eq!(once, twice);

    let failed_once = expand_domain_model(&plain_decl("R", "union R {}", DeclBody::RawUnion));
    let failed_twice = expand_domain_model(&plain_decl("R", "union R {}", DeclBody::RawUnion));
    let e1 = failed_once.err().unwrap();
    let e2 = failed_twice.err().unwrap();
    assert_eq!(e1.message, e2.message);
    assert_eq!(e1.anchor, e2.anchor);
}
