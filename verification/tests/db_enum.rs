use diesel_derive_more::codec::{DecodeError, EnumCodec};
use diesel_derive_more::db_enum::enum_codec;
use diesel_derive_more::decl::{Generics, TypeData, TypeDecl, Variant};
use diesel_derive_more::GenError;

fn test_enum_decl() -> TypeDecl {
    TypeDecl {
        ident: String::from("TestEnum"),
        generics: Generics { params: String::new(), where_clause: String::new() },
        annotations: Vec::new(),
        data: TypeData::Enum(vec![
            Variant { ident: String::from("One") },
            Variant { ident: String::from("Two") },
            Variant { ident: String::from("Three") },
        ]),
    }
}

fn codec() -> EnumCodec {
    enum_codec(&test_enum_decl()).unwrap()
}

fn from_sql(value: &[u8]) -> Result<usize, DecodeError> {
    codec().decode(Some(value))
}

const ONE: usize = 0;
const TWO: usize = 1;
const THREE: usize = 2;

#[test]
fn macro_implements_from_sql() {
    assert_eq!(from_sql(b"One").unwrap(), ONE);
    assert_eq!(from_sql(b"Two").unwrap(), TWO);
    assert_eq!(from_sql(b"Three").unwrap(), THREE);
}

#[test]
fn returns_error_if_not_in_enum() {
    let result = from_sql(b"Some value");
    match result {
        Err(error) => assert_eq!(error.message(), "Unexpected value"),
        Ok(_) => assert!(false),
    }
}

#[test]
fn returns_error_if_cannot_parse_string() {
    let invalid: [u8; 5] = [128; 5];
    let result = from_sql(&invalid);
    match result {
        Err(error) => assert_eq!(error.message(), "Could not load string"),
        Ok(_) => assert!(false),
    }
}

#[test]
fn returns_error_if_no_value_provided() {
    let result = codec().decode(None);
    match result {
        Err(error) => assert_eq!(error.message(), "Value not provided"),
        Ok(_) => assert!(false),
    }
}

#[test]
fn round_trip_through_encoded_text() {
    let codec = codec();
    let mut variant: usize = 0;
    while variant < codec.len() {
        let text = codec.encode(variant);
        assert_eq!(codec.decode(Some(text.as_bytes())), Ok(variant));
        variant += 1;
    }
}

#[test]
fn encode_preserves_identifier_spelling() {
    let codec = codec();
    assert_eq!(codec.encode(TWO), "Two");
    assert_eq!(codec.encode(ONE), "One");
    assert_eq!(codec.encode(THREE), "Three");
}

#[test]
fn decode_error_variants_are_distinct() {
    assert_eq!(from_sql(b"Some value"), Err(DecodeError::UnknownVariant));
    let invalid: [u8; 5] = [128; 5];
    assert_eq!(from_sql(&invalid), Err(DecodeError::InvalidEncoding));
    assert_eq!(codec().decode(None), Err(DecodeError::MissingValue));
}

#[test]
fn db_enum_rejects_non_enum_declarations() {
    let decl = TypeDecl {
        ident: String::from("NotAnEnum"),
        generics: Generics { params: String::new(), where_clause: String::new() },
        annotations: Vec::new(),
        data: TypeData::Other,
    };
    let result = diesel_derive_more::db_enum(&decl);
    assert_eq!(result, Err(GenError::NotAnEnum));
    assert_eq!(GenError::NotAnEnum.message(), "Doesn't work with structs");
}

#[test]
fn db_enum_emits_expected_fragment() {
    let generated = diesel_derive_more::db_enum(&test_enum_decl()).unwrap();
    let expected = "impl<DB: ::diesel::backend::Backend<RawValue=[u8]>> ::diesel::types::FromSql<::diesel::sql_types::Text, DB> for TestEnum {
    fn from_sql(value: Option<&[u8]>) -> Result<Self, Box<::std::error::Error+Send+Sync>> {
        match value {
            Some(enum_string) => match ::std::str::from_utf8(enum_string) {
                Ok(\"One\") => Ok(TestEnum::One),
                Ok(\"Two\") => Ok(TestEnum::Two),
                Ok(\"Three\") => Ok(TestEnum::Three),
                Ok(_) => Err(From::from(\"Unexpected value\")),
                Err(_) => Err(From::from(\"Could not load string\"))
            },
            None => Err(From::from(\"Value not provided\"))
        }
    }
}

impl<DB: ::diesel::backend::Backend> ::diesel::serialize::ToSql<::diesel::sql_types::Text, DB> for TestEnum
    where str: ::diesel::serialize::ToSql<::diesel::sql_types::Text, DB>,
{
    fn to_sql<W: ::std::io::Write>(&self, output: &mut ::diesel::serialize::Output<W, DB>) -> Result<::diesel::types::IsNull, Box<::std::error::Error+Send+Sync>> {
        let write_string = match self {
            &TestEnum::One => \"One\",
            &TestEnum::Two => \"Two\",
            &TestEnum::Three => \"Three\",
        };
        str::to_sql(&write_string, output)
    }
}
";
    assert_eq!(generated, expected);
}
