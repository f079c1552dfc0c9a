use diesel_derive_more::decl::{annotation_value, find_annotation, Annotation, AnnotationArg,
    Field};
use diesel_derive_more::Generator;

fn marker(name: &str) -> Annotation {
    Annotation { name: String::from(name), arg: AnnotationArg::Marker }
}

fn valued(name: &str, literal: &str) -> Annotation {
    Annotation { name: String::from(name), arg: AnnotationArg::Value(String::from(literal)) }
}

#[test]
fn first_matching_annotation_wins() {
    let anns = vec![
        marker("other"),
        valued("table_name", "\"first\""),
        valued("table_name", "\"second\""),
    ];
    let found = find_annotation(&anns, "table_name").unwrap();
    match &found.arg {
        AnnotationArg::Value(lit) => assert_eq!(lit, "\"first\""),
        _ => assert!(false),
    }
}

#[test]
fn lookup_is_case_sensitive_and_exact() {
    let anns = vec![marker("Table_name"), marker("table_names")];
    assert!(find_annotation(&anns, "table_name").is_none());
}

#[test]
fn annotation_value_returns_the_literal() {
    let anns = vec![valued("table_name", "\"posts\"")];
    assert_eq!(annotation_value(&anns, "table_name").unwrap(), "\"posts\"");
    assert!(annotation_value(&anns, "auto_increment").is_none());
}

#[test]
fn annotation_value_is_absent_for_markers() {
    let anns = vec![marker("auto_increment")];
    assert!(annotation_value(&anns, "auto_increment").is_none());
}

#[test]
fn field_attribute_lookup() {
    let field = Field {
        ident: String::from("id"),
        ty: String::from("i32"),
        annotations: vec![marker("auto_increment")],
    };
    assert!(field.has_attribute("auto_increment"));
    assert!(!field.has_attribute("table_name"));
    assert!(field.get_attribute_by_name("auto_increment").is_some());
}

#[test]
fn generators_declare_their_attributes() {
    let db_enum_attrs = diesel_derive_more::recognized_attributes(Generator::DbEnum);
    assert_eq!(db_enum_attrs.len(), 0);
    let insertable_attrs =
        diesel_derive_more::recognized_attributes(Generator::DefaultInsertable);
    assert_eq!(insertable_attrs, vec!["auto_increment", "table_name"]);
}
