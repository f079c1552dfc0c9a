//! The `DBEnum` generator: for an enum declaration it emits the text of the
//! mapping library's serialization and deserialization trait
//! implementations that store the enum as a text column, and it builds the
//! variant-name table ([`EnumCodec`]) that gives the emitted code its
//! meaning.
//!
//! Every specification function here states the exact emitted text, so the
//! rendering functions are proved to produce it character for character.

use vstd::prelude::*;
use vstd::string::*;

use crate::GenError;
use crate::codec::EnumCodec;
use crate::decl::{TypeData, TypeDataView, TypeDecl, Variant};

verus! {

/// The decode match arm emitted for one variant: text equal to the
/// variant's identifier maps to that variant.
pub open spec fn read_arm_text(enum_ident: Seq<char>, variant: Seq<char>) -> Seq<char> {
    "                Ok(\""@ + variant + "\") => Ok("@ + enum_ident + "::"@ + variant + "),\n"@
}

/// The decode match arms for all variants, in declaration order.
pub open spec fn read_arms_text(enum_ident: Seq<char>, names: Seq<Seq<char>>) -> Seq<char>
    decreases names.len(),
{
    if names.len() == 0 {
        Seq::empty()
    } else {
        read_arms_text(enum_ident, names.drop_last()) + read_arm_text(enum_ident, names.last())
    }
}

/// The two trailing decode arms: text that matches no variant is an
/// unexpected value, and bytes that are not text could not be loaded.
pub open spec fn error_handlers_text() -> Seq<char> {
    "                Ok(_) => Err(From::from(\"Unexpected value\")),\n"@
        + "                Err(_) => Err(From::from(\"Could not load string\"))\n"@
}

/// The emitted decode expression: absence, malformed text, each variant's
/// name, and unmatched text are each handled by their own arm.
pub open spec fn value_matcher_read_text(enum_ident: Seq<char>, names: Seq<Seq<char>>) -> Seq<
    char,
> {
    "match value {\n"@
        + "            Some(enum_string) => match ::std::str::from_utf8(enum_string) {\n"@
        + read_arms_text(enum_ident, names) + error_handlers_text() + "            },\n"@
        + "            None => Err(From::from(\"Value not provided\"))\n"@ + "        }"@
}

/// The encode match arm emitted for one variant: the variant maps to the
/// exact spelling of its identifier.
pub open spec fn write_arm_text(enum_ident: Seq<char>, variant: Seq<char>) -> Seq<char> {
    "            &"@ + enum_ident + "::"@ + variant + " => \""@ + variant + "\",\n"@
}

/// The encode match arms for all variants, in declaration order.
pub open spec fn write_arms_text(enum_ident: Seq<char>, names: Seq<Seq<char>>) -> Seq<char>
    decreases names.len(),
{
    if names.len() == 0 {
        Seq::empty()
    } else {
        write_arms_text(enum_ident, names.drop_last()) + write_arm_text(enum_ident, names.last())
    }
}

/// The emitted encode expression: a match from each variant to its name.
pub open spec fn value_matcher_write_text(enum_ident: Seq<char>, names: Seq<Seq<char>>) -> Seq<
    char,
> {
    "match self {\n"@ + write_arms_text(enum_ident, names) + "        }"@
}

/// The emitted implementation of the deserialization trait.
pub open spec fn from_sql_text(enum_ident: Seq<char>, names: Seq<Seq<char>>) -> Seq<char> {
    "impl<DB: ::diesel::backend::Backend<RawValue=[u8]>> ::diesel::types::FromSql<::diesel::sql_types::Text, DB> for "@
        + enum_ident + " {\n"@
        + "    fn from_sql(value: Option<&[u8]>) -> Result<Self, Box<::std::error::Error+Send+Sync>> {\n"@
        + "        "@ + value_matcher_read_text(enum_ident, names) + "\n    }\n}\n"@
}

/// The emitted implementation of the serialization trait.
pub open spec fn to_sql_text(enum_ident: Seq<char>, names: Seq<Seq<char>>) -> Seq<char> {
    "impl<DB: ::diesel::backend::Backend> ::diesel::serialize::ToSql<::diesel::sql_types::Text, DB> for "@
        + enum_ident + "\n    where str: ::diesel::serialize::ToSql<::diesel::sql_types::Text, DB>,\n{\n"@
        + "    fn to_sql<W: ::std::io::Write>(&self, output: &mut ::diesel::serialize::Output<W, DB>) -> Result<::diesel::types::IsNull, Box<::std::error::Error+Send+Sync>> {\n"@
        + "        let write_string = "@ + value_matcher_write_text(enum_ident, names) + ";\n"@
        + "        str::to_sql(&write_string, output)\n    }\n}\n"@
}

/// The complete emitted fragment for one enum declaration.
pub open spec fn db_enum_text(enum_ident: Seq<char>, names: Seq<Seq<char>>) -> Seq<char> {
    from_sql_text(enum_ident, names) + "\n"@ + to_sql_text(enum_ident, names)
}

/// What the `DBEnum` generator returns for a declaration: the emitted
/// fragment for an enum, and a generation error for anything else.
pub open spec fn spec_db_enum(d: crate::decl::TypeDeclView) -> Result<Seq<char>, GenError> {
    match d.data {
        TypeDataView::Enum(names) => Ok(db_enum_text(d.ident, names)),
        _ => Err(GenError::NotAnEnum),
    }
}

/// Renders the decode arm for one variant.
fn read_arm(enum_ident: &str, variant: &str) -> (r: String)
    ensures
        r@ == read_arm_text(enum_ident@, variant@),
{
    let mut r = String::new();
    r.append("                Ok(\"");
    r.append(variant);
    r.append("\") => Ok(");
    r.append(enum_ident);
    r.append("::");
    r.append(variant);
    r.append("),\n");
    proof {
        assert(r@ =~= read_arm_text(enum_ident@, variant@));
    }
    r
}

/// Renders the encode arm for one variant.
fn write_arm(enum_ident: &str, variant: &str) -> (r: String)
    ensures
        r@ == write_arm_text(enum_ident@, variant@),
{
    let mut r = String::new();
    r.append("            &");
    r.append(enum_ident);
    r.append("::");
    r.append(variant);
    r.append(" => \"");
    r.append(variant);
    r.append("\",\n");
    proof {
        assert(r@ =~= write_arm_text(enum_ident@, variant@));
    }
    r
}

/// Appends the decode arms for all variants, in declaration order.
fn render_read_arms(enum_ident: &str, variants: &Vec<Variant>, out: &mut String)
    ensures
        final(out)@ == old(out)@ + read_arms_text(enum_ident@, variants.deep_view()),
{
    let ghost base = out@;
    let ghost vs = variants.deep_view();
    let mut i: usize = 0;
    while i < variants.len()
        invariant
            i <= variants.len(),
            vs == variants.deep_view(),
            out@ == base + read_arms_text(enum_ident@, vs.take(i as int)),
        decreases variants.len() - i,
    {
        let arm = read_arm(enum_ident, variants[i].ident.as_str());
        out.append(arm.as_str());
        proof {
            assert(vs.take(i as int + 1).drop_last() =~= vs.take(i as int));
            assert(out@ =~= base + read_arms_text(enum_ident@, vs.take(i as int + 1)));
        }
        i += 1;
    }
    proof {
        assert(vs.take(vs.len() as int) =~= vs);
    }
}

/// Appends the encode arms for all variants, in declaration order.
fn render_write_arms(enum_ident: &str, variants: &Vec<Variant>, out: &mut String)
    ensures
        final(out)@ == old(out)@ + write_arms_text(enum_ident@, variants.deep_view()),
{
    let ghost base = out@;
    let ghost vs = variants.deep_view();
    let mut i: usize = 0;
    while i < variants.len()
        invariant
            i <= variants.len(),
            vs == variants.deep_view(),
            out@ == base + write_arms_text(enum_ident@, vs.take(i as int)),
        decreases variants.len() - i,
    {
        let arm = write_arm(enum_ident, variants[i].ident.as_str());
        out.append(arm.as_str());
        proof {
            assert(vs.take(i as int + 1).drop_last() =~= vs.take(i as int));
            assert(out@ =~= base + write_arms_text(enum_ident@, vs.take(i as int + 1)));
        }
        i += 1;
    }
    proof {
        assert(vs.take(vs.len() as int) =~= vs);
    }
}

/// Appends the two trailing decode arms for unexpected and malformed
/// values.
fn impl_error_handlers(out: &mut String)
    ensures
        final(out)@ == old(out)@ + error_handlers_text(),
{
    out.append("                Ok(_) => Err(From::from(\"Unexpected value\")),\n");
    out.append("                Err(_) => Err(From::from(\"Could not load string\"))\n");
    proof {
        assert(out@ =~= old(out)@ + error_handlers_text());
    }
}

/// Appends the emitted decode expression.
fn impl_value_matcher_read(enum_ident: &str, variants: &Vec<Variant>, out: &mut String)
    ensures
        final(out)@ == old(out)@ + value_matcher_read_text(enum_ident@, variants.deep_view()),
{
    out.append("match value {\n");
    out.append("            Some(enum_string) => match ::std::str::from_utf8(enum_string) {\n");
    render_read_arms(enum_ident, variants, out);
    impl_error_handlers(out);
    out.append("            },\n");
    out.append("            None => Err(From::from(\"Value not provided\"))\n");
    out.append("        }");
    proof {
        assert(out@ =~= old(out)@ + value_matcher_read_text(enum_ident@, variants.deep_view()));
    }
}

/// Appends the emitted encode expression.
fn impl_value_matcher_write(enum_ident: &str, variants: &Vec<Variant>, out: &mut String)
    ensures
        final(out)@ == old(out)@ + value_matcher_write_text(enum_ident@, variants.deep_view()),
{
    out.append("match self {\n");
    render_write_arms(enum_ident, variants, out);
    out.append("        }");
    proof {
        assert(out@ =~= old(out)@ + value_matcher_write_text(enum_ident@, variants.deep_view()));
    }
}

/// Renders the complete emitted fragment: the deserialization
/// implementation, then the serialization implementation.
fn impl_diesel_traits(enum_ident: &str, variants: &Vec<Variant>) -> (r: String)
    ensures
        r@ == db_enum_text(enum_ident@, variants.deep_view()),
{
    let mut out = String::new();
    out.append(
        "impl<DB: ::diesel::backend::Backend<RawValue=[u8]>> ::diesel::types::FromSql<::diesel::sql_types::Text, DB> for ",
    );
    out.append(enum_ident);
    out.append(" {\n");
    out.append(
        "    fn from_sql(value: Option<&[u8]>) -> Result<Self, Box<::std::error::Error+Send+Sync>> {\n",
    );
    out.append("        ");
    impl_value_matcher_read(enum_ident, variants, &mut out);
    out.append("\n    }\n}\n");
    out.append("\n");
    proof {
        assert(out@ =~= from_sql_text(enum_ident@, variants.deep_view()) + "\n"@);
    }
    let ghost first_half = out@;
    out.append(
        "impl<DB: ::diesel::backend::Backend> ::diesel::serialize::ToSql<::diesel::sql_types::Text, DB> for ",
    );
    out.append(enum_ident);
    out.append("\n    where str: ::diesel::serialize::ToSql<::diesel::sql_types::Text, DB>,\n{\n");
    out.append(
        "    fn to_sql<W: ::std::io::Write>(&self, output: &mut ::diesel::serialize::Output<W, DB>) -> Result<::diesel::types::IsNull, Box<::std::error::Error+Send+Sync>> {\n",
    );
    out.append("        let write_string = ");
    impl_value_matcher_write(enum_ident, variants, &mut out);
    out.append(";\n");
    out.append("        str::to_sql(&write_string, output)\n    }\n}\n");
    proof {
        assert(out@ =~= first_half + to_sql_text(enum_ident@, variants.deep_view()));
    }
    out
}

/// Builds the explicit variant-name table for an enum declaration: the
/// enum's identifier and each variant's identifier in declaration order.
/// Any other kind of declaration is rejected.
pub fn enum_codec(ast: &TypeDecl) -> (r: Result<EnumCodec, GenError>)
    ensures
        match ast@.data {
            TypeDataView::Enum(names) => (match r {
                Ok(c) => c.enum_ident@ == ast@.ident && c.names() == names,
                Err(_) => false,
            }),
            _ => r == Err::<EnumCodec, GenError>(GenError::NotAnEnum),
        },
{
    match &ast.data {
        TypeData::Enum(variants) => {
            let ghost vs = variants.deep_view();
            let mut names: Vec<String> = Vec::new();
            let mut i: usize = 0;
            while i < variants.len()
                invariant
                    i <= variants.len(),
                    vs == variants.deep_view(),
                    names.deep_view() == vs.take(i as int),
                decreases variants.len() - i,
            {
                let item = variants[i].ident.clone();
                let ghost prev_vec = names;
                let ghost itemv = item;
                names.push(item);
                proof {
                    crate::decl::lemma_push_deep_view(prev_vec, names, itemv);
                    assert(itemv@ == vs[i as int]);
                    assert(names.deep_view() =~= vs.take(i as int + 1));
                }
                i += 1;
            }
            proof {
                assert(vs.take(vs.len() as int) =~= vs);
            }
            Ok(EnumCodec { enum_ident: ast.ident.clone(), variants: names })
        },
        _ => Err(GenError::NotAnEnum),
    }
}

/// The `DBEnum` generator: emits the serialization and deserialization
/// implementations for an enum declaration, exactly as [`spec_db_enum`]
/// states, and rejects any other kind of declaration.
pub fn impl_db_enum(ast: &TypeDecl) -> (r: Result<String, GenError>)
    ensures
        match r {
            Ok(s) => spec_db_enum(ast@) == Ok::<Seq<char>, GenError>(s@),
            Err(e) => spec_db_enum(ast@) == Err::<Seq<char>, GenError>(e),
        },
{
    match &ast.data {
        TypeData::Enum(variants) => Ok(impl_diesel_traits(ast.ident.as_str(), variants)),
        _ => Err(GenError::NotAnEnum),
    }
}

} // verus!
