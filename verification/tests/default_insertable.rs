use diesel_derive_more::decl::{Annotation, AnnotationArg, Field, Generics, TypeData, TypeDecl,
    Variant};
use diesel_derive_more::default_insertable::{build_projection, render_projection};
use diesel_derive_more::GenError;

fn table_name_annotation() -> Annotation {
    Annotation {
        name: String::from("table_name"),
        arg: AnnotationArg::Value(String::from("\"test_table\"")),
    }
}

fn plain_field(ident: &str, ty: &str) -> Field {
    Field { ident: String::from(ident), ty: String::from(ty), annotations: Vec::new() }
}

fn auto_increment_field(ident: &str, ty: &str) -> Field {
    Field {
        ident: String::from(ident),
        ty: String::from(ty),
        annotations: vec![Annotation {
            name: String::from("auto_increment"),
            arg: AnnotationArg::Marker,
        }],
    }
}

fn test_table_decl() -> TypeDecl {
    TypeDecl {
        ident: String::from("TestTable"),
        generics: Generics { params: String::new(), where_clause: String::new() },
        annotations: vec![table_name_annotation()],
        data: TypeData::Struct(vec![
            auto_increment_field("id", "i32"),
            plain_field("num", "String"),
            plain_field("my_enum", "MyEnum"),
        ]),
    }
}

#[test]
fn does_not_have_auto_increment_fields() {
    let projection = build_projection(&test_table_decl()).unwrap();
    assert_eq!(projection.ident, "NewTestTable");
    assert_eq!(projection.fields.len(), 2);
    assert_eq!(projection.fields[0].ident, "num");
    assert_eq!(projection.fields[0].ty, "String");
    assert_eq!(projection.fields[1].ident, "my_enum");
    assert_eq!(projection.fields[1].ty, "MyEnum");
}

#[test]
fn fails_without_table_name_annotation() {
    let decl = TypeDecl {
        ident: String::from("TestTable"),
        generics: Generics { params: String::new(), where_clause: String::new() },
        annotations: Vec::new(),
        data: TypeData::Struct(vec![plain_field("num", "String")]),
    };
    let result = diesel_derive_more::default_insertable(&decl);
    assert_eq!(result, Err(GenError::MissingTableName));
    assert_eq!(
        GenError::MissingTableName.message(),
        "Struct must be annotated with table_name"
    );
}

#[test]
fn fails_for_non_struct_declarations() {
    let decl = TypeDecl {
        ident: String::from("TestEnum"),
        generics: Generics { params: String::new(), where_clause: String::new() },
        annotations: vec![table_name_annotation()],
        data: TypeData::Enum(vec![Variant { ident: String::from("One") }]),
    };
    let result = diesel_derive_more::default_insertable(&decl);
    assert_eq!(result, Err(GenError::NotAStruct));
    assert_eq!(
        GenError::NotAStruct.message(),
        "#[derive(DefaultInsertable)] can only be used with structs"
    );
}

#[test]
fn emits_expected_projection_fragment() {
    let generated = diesel_derive_more::default_insertable(&test_table_decl()).unwrap();
    let expected = "#[derive(Clone, Insertable)]
#[cfg_attr(feature=\"serialization\", derive(Deserialize))]
#[table_name = \"test_table\"]
pub struct NewTestTable {
    pub num: String,
    pub my_enum: MyEnum,
}
";
    assert_eq!(generated, expected);
}

#[test]
fn keeps_remaining_field_annotations() {
    let mut field = plain_field("num", "String");
    field.annotations.push(Annotation {
        name: String::from("column_name"),
        arg: AnnotationArg::Value(String::from("\"number\"")),
    });
    field.annotations.push(Annotation {
        name: String::from("serde"),
        arg: AnnotationArg::List(vec![String::from("default"), String::from("rename = \"n\"")]),
    });
    let decl = TypeDecl {
        ident: String::from("TestTable"),
        generics: Generics { params: String::new(), where_clause: String::new() },
        annotations: vec![table_name_annotation()],
        data: TypeData::Struct(vec![auto_increment_field("id", "i32"), field]),
    };
    let projection = build_projection(&decl).unwrap();
    assert_eq!(projection.fields.len(), 1);
    assert_eq!(projection.fields[0].annotations.len(), 2);
    let generated = render_projection(&projection);
    let expected = "#[derive(Clone, Insertable)]
#[cfg_attr(feature=\"serialization\", derive(Deserialize))]
#[table_name = \"test_table\"]
pub struct NewTestTable {
    #[column_name = \"number\"]
    #[serde(default, rename = \"n\")]
    pub num: String,
}
";
    assert_eq!(generated, expected);
}

#[test]
fn generics_are_carried_over() {
    let decl = TypeDecl {
        ident: String::from("Wrapper"),
        generics: Generics {
            params: String::from("<T: Clone>"),
            where_clause: String::from(" where T: Send"),
        },
        annotations: vec![table_name_annotation()],
        data: TypeData::Struct(vec![plain_field("value", "T")]),
    };
    let generated = diesel_derive_more::default_insertable(&decl).unwrap();
    let expected = "#[derive(Clone, Insertable)]
#[cfg_attr(feature=\"serialization\", derive(Deserialize))]
#[table_name = \"test_table\"]
pub struct NewWrapper<T: Clone> where T: Send {
    pub value: T,
}
";
    assert_eq!(generated, expected);
}

#[test]
fn all_fields_filtered_yields_empty_projection() {
    let decl = TypeDecl {
        ident: String::from("TestTable"),
        generics: Generics { params: String::new(), where_clause: String::new() },
        annotations: vec![table_name_annotation()],
        data: TypeData::Struct(vec![auto_increment_field("id", "i32")]),
    };
    let projection = build_projection(&decl).unwrap();
    assert_eq!(projection.fields.len(), 0);
    let generated = render_projection(&projection);
    let expected = "#[derive(Clone, Insertable)]
#[cfg_attr(feature=\"serialization\", derive(Deserialize))]
#[table_name = \"test_table\"]
pub struct NewTestTable {
}
";
    assert_eq!(generated, expected);
}
