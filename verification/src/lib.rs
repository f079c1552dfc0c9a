//! Code generators for deriving database-mapping support from plain type
//! declarations.
//!
//! The crate works on an explicit, structured description of a user-written
//! type ([`decl::TypeDecl`]): its identifier, its variants or fields, and the
//! annotations attached to them.  Two generators consume such a description:
//!
//! * `DBEnum` ([`db_enum`]): for an enum declaration, emits the text of
//!   serialization and deserialization trait implementations that store the
//!   enum as a text column, and builds the variant-name table
//!   ([`codec::EnumCodec`]) that gives those implementations their meaning.
//! * `DefaultInsertable` ([`default_insertable`]): for a struct declaration,
//!   derives a companion "insert" struct that omits every field marked
//!   `auto_increment`, under the source name prefixed with `New`.

use vstd::prelude::*;

pub mod codec;
pub mod db_enum;
pub mod decl;
pub mod default_insertable;

use decl::TypeDecl;

verus! {

/// An error raised when a generator is applied to a declaration that
/// violates its structural preconditions.
#[derive(Clone, Copy, Debug, PartialEq, Eq, Structural)]
pub enum GenError {
    /// The `DBEnum` generator was applied to a declaration that is not an
    /// enum.
    NotAnEnum,
    /// The `DefaultInsertable` generator was applied to a declaration that
    /// is not a struct with named fields.
    NotAStruct,
    /// The `DefaultInsertable` generator was applied to a struct without a
    /// `table_name` annotation.
    MissingTableName,
}

impl GenError {
    /// The fixed descriptive message for this generation error.
    pub fn message(&self) -> (r: &'static str)
        ensures
            *self == GenError::NotAnEnum ==> r@ == "Doesn't work with structs"@,
            *self == GenError::NotAStruct ==> r@
                == "#[derive(DefaultInsertable)] can only be used with structs"@,
            *self == GenError::MissingTableName ==> r@
                == "Struct must be annotated with table_name"@,
    {
        match self {
            GenError::NotAnEnum => "Doesn't work with structs",
            GenError::NotAStruct => "#[derive(DefaultInsertable)] can only be used with structs",
            GenError::MissingTableName => "Struct must be annotated with table_name",
        }
    }
}

/// The generator a dispatched declaration is routed to.
#[derive(Clone, Copy, Debug, PartialEq, Eq, Structural)]
pub enum Generator {
    DbEnum,
    DefaultInsertable,
}

/// What expanding a declaration with the given generator returns.
pub open spec fn spec_expand(d: decl::TypeDeclView, generator: Generator) -> Result<
    Seq<char>,
    GenError,
> {
    match generator {
        Generator::DbEnum => db_enum::spec_db_enum(d),
        Generator::DefaultInsertable => default_insertable::spec_default_insertable(d),
    }
}

/// Routes a declaration to the requested generator and hands back the
/// generated fragment as text.
fn expand(ast: &TypeDecl, generator: Generator) -> (r: Result<String, GenError>)
    ensures
        match r {
            Ok(s) => spec_expand(ast@, generator) == Ok::<Seq<char>, GenError>(s@),
            Err(e) => spec_expand(ast@, generator) == Err::<Seq<char>, GenError>(e),
        },
{
    match generator {
        Generator::DbEnum => db_enum::impl_db_enum(ast),
        Generator::DefaultInsertable => default_insertable::impl_default_insertable(ast),
    }
}

/// The `DBEnum` entry point: emits the text-column serialization and
/// deserialization implementations for an enum declaration.
pub fn db_enum(ast: &TypeDecl) -> (r: Result<String, GenError>)
    ensures
        match r {
            Ok(s) => db_enum::spec_db_enum(ast@) == Ok::<Seq<char>, GenError>(s@),
            Err(e) => db_enum::spec_db_enum(ast@) == Err::<Seq<char>, GenError>(e),
        },
{
    expand(ast, Generator::DbEnum)
}

/// The `DefaultInsertable` entry point: emits the insert-projection
/// declaration for a struct declaration.
pub fn default_insertable(ast: &TypeDecl) -> (r: Result<String, GenError>)
    ensures
        match r {
            Ok(s) => default_insertable::spec_default_insertable(ast@) == Ok::<
                Seq<char>,
                GenError,
            >(s@),
            Err(e) => default_insertable::spec_default_insertable(ast@) == Err::<
                Seq<char>,
                GenError,
            >(e),
        },
{
    expand(ast, Generator::DefaultInsertable)
}

/// The marker annotations the given generator is permitted to consume, so
/// that the host's front end does not reject them as unrecognized.
pub fn recognized_attributes(generator: Generator) -> (r: Vec<&'static str>)
    ensures
        match generator {
            Generator::DbEnum => r@.len() == 0,
            Generator::DefaultInsertable => r@.len() == 2 && r@[0]@ == "auto_increment"@ && r@[1]@
                == "table_name"@,
        },
{
    match generator {
        Generator::DbEnum => Vec::new(),
        Generator::DefaultInsertable => {
            let mut v: Vec<&'static str> = Vec::new();
            v.push("auto_increment");
            v.push("table_name");
            v
        },
    }
}

} // verus!
