//! The `DefaultInsertable` generator: for a struct declaration it derives a
//! companion "insert" struct under the source name prefixed with `New`,
//! keeping every field that is not marked `auto_increment` in declaration
//! order, carrying the source's `table_name` annotation and generics, and
//! requesting the mapping library's insert capability.
//!
//! A struct without a `table_name` annotation, and any declaration that is
//! not a struct with named fields, is rejected with a generation error.

use vstd::prelude::*;
use vstd::string::*;

use crate::GenError;
use crate::decl::{annotation_text, lemma_push_deep_view, render_annotation, spec_find_annotation,
    spec_has_annotation, Annotation, AnnotationView, Field, FieldView, Generics, GenericsView,
    TypeData, TypeDataView, TypeDecl, TypeDeclView};

verus! {

/// The derived insert struct: the projection of a source struct onto its
/// fields that are not database-assigned.
pub struct Projection {
    /// The projection's identifier: the source identifier prefixed with
    /// `New`.
    pub ident: String,
    /// The source's `table_name` annotation, carried over verbatim.
    pub table_name: Annotation,
    /// The source's generic-parameter metadata, carried over verbatim.
    pub generics: Generics,
    /// The retained fields, in source declaration order.
    pub fields: Vec<Field>,
}

/// The view of a [`Projection`].
pub struct ProjectionView {
    pub ident: Seq<char>,
    pub table_name: AnnotationView,
    pub generics: GenericsView,
    pub fields: Seq<FieldView>,
}

impl View for Projection {
    type V = ProjectionView;

    open spec fn view(&self) -> ProjectionView {
        ProjectionView {
            ident: self.ident@,
            table_name: self.table_name@,
            generics: self.generics@,
            fields: self.fields.deep_view(),
        }
    }
}

/// Whether a field is kept by the projection: it is kept exactly when it
/// lacks the `auto_increment` marker annotation.
pub open spec fn keeps_field(f: FieldView) -> bool {
    !spec_has_annotation(f.annotations, "auto_increment"@)
}

/// The fields the projection keeps: a pure filter that preserves each
/// retained field's identifier, type, annotations and position relative to
/// the other retained fields.
pub open spec fn retained_fields(fields: Seq<FieldView>) -> Seq<FieldView> {
    fields.filter(|f: FieldView| keeps_field(f))
}

/// Field-filtering law, first half: every field the projection keeps lacks
/// the `auto_increment` marker.
pub proof fn lemma_retained_fields_keep(fields: Seq<FieldView>)
    ensures
        forall|i: int|
            0 <= i < retained_fields(fields).len() ==> keeps_field(
                #[trigger] retained_fields(fields)[i],
            ),
    decreases fields.len(),
{
    reveal_with_fuel(Seq::filter, 2);
    if fields.len() > 0 {
        lemma_retained_fields_keep(fields.drop_last());
    }
}

/// Field-filtering law, second half: every field without the
/// `auto_increment` marker appears in the projection.
pub proof fn lemma_retained_fields_complete(fields: Seq<FieldView>)
    ensures
        forall|i: int|
            0 <= i < fields.len() && keeps_field(#[trigger] fields[i]) ==> retained_fields(
                fields,
            ).contains(fields[i]),
    decreases fields.len(),
{
    reveal_with_fuel(Seq::filter, 2);
    if fields.len() > 0 {
        lemma_retained_fields_complete(fields.drop_last());
        assert forall|i: int|
            0 <= i < fields.len() && keeps_field(#[trigger] fields[i]) implies retained_fields(
            fields,
        ).contains(fields[i]) by {
            if i < fields.len() - 1 {
                assert(fields.drop_last()[i] == fields[i]);
                assert(retained_fields(fields.drop_last()).contains(fields[i]));
                let j = choose|j: int|
                    0 <= j < retained_fields(fields.drop_last()).len() && retained_fields(
                        fields.drop_last(),
                    )[j] == fields[i];
                assert(retained_fields(fields)[j] == fields[i]);
            } else {
                let r = retained_fields(fields);
                assert(r[r.len() - 1] == fields[i]);
            }
        }
    }
}

/// What the `DefaultInsertable` generator derives from a declaration.
///
/// A declaration without a `table_name` annotation is rejected first; a
/// declaration that is not a struct with named fields is rejected next;
/// otherwise the projection keeps exactly the fields without the
/// `auto_increment` marker, under the source name prefixed with `New`,
/// with the source's `table_name` annotation and generics.
pub open spec fn spec_build_projection(d: TypeDeclView) -> Result<ProjectionView, GenError> {
    match spec_find_annotation(d.annotations, "table_name"@) {
        None => Err(GenError::MissingTableName),
        Some(tn) => match d.data {
            TypeDataView::Struct(fields) => Ok(
                ProjectionView {
                    ident: "New"@ + d.ident,
                    table_name: tn,
                    generics: d.generics,
                    fields: retained_fields(fields),
                },
            ),
            _ => Err(GenError::NotAStruct),
        },
    }
}

/// Derives the insert projection of a struct declaration, exactly as
/// [`spec_build_projection`] states: `Err` on a missing `table_name`
/// annotation or a non-struct declaration, and otherwise the filtered
/// projection under the `New`-prefixed name.
///
/// A struct whose fields are all marked `auto_increment` is accepted and
/// yields a projection with no fields, which renders as a valid
/// empty-body declaration.
pub fn build_projection(ast: &TypeDecl) -> (r: Result<Projection, GenError>)
    ensures
        match r {
            Ok(p) => spec_build_projection(ast@) == Ok::<ProjectionView, GenError>(p@),
            Err(e) => spec_build_projection(ast@) == Err::<ProjectionView, GenError>(e),
        },
{
    let table_name: Annotation = match ast.get_attribute_by_name("table_name") {
        Some(a) => a.clone(),
        None => {
            return Err(GenError::MissingTableName);
        },
    };
    match &ast.data {
        TypeData::Struct(fields) => {
            let ghost fv = fields.deep_view();
            let mut retained: Vec<Field> = Vec::new();
            let mut i: usize = 0;
            while i < fields.len()
                invariant
                    i <= fields.len(),
                    fv == fields.deep_view(),
                    retained.deep_view() == retained_fields(fv.take(i as int)),
                decreases fields.len() - i,
            {
                if !fields[i].has_attribute("auto_increment") {
                    let item = fields[i].clone();
                    let ghost prev_vec = retained;
                    let ghost itemv = item;
                    retained.push(item);
                    proof {
                        reveal_with_fuel(Seq::filter, 2);
                        lemma_push_deep_view(prev_vec, retained, itemv);
                        assert(fv[i as int] == fields@[i as int]@);
                        assert(fv.take(i as int + 1).drop_last() =~= fv.take(i as int));
                        assert(fv.take(i as int + 1).last() == fv[i as int]);
                        assert(retained.deep_view() =~= retained_fields(fv.take(i as int + 1)));
                    }
                } else {
                    proof {
                        reveal_with_fuel(Seq::filter, 2);
                        assert(fv[i as int] == fields@[i as int]@);
                        assert(fv.take(i as int + 1).drop_last() =~= fv.take(i as int));
                        assert(fv.take(i as int + 1).last() == fv[i as int]);
                        assert(retained.deep_view() =~= retained_fields(fv.take(i as int + 1)));
                    }
                }
                i += 1;
            }
            proof {
                assert(fv.take(fv.len() as int) =~= fv);
            }
            let mut ident = String::new();
            ident.append("New");
            ident.append(ast.ident.as_str());
            proof {
                assert(ident@ =~= "New"@ + ast@.ident);
            }
            Ok(
                Projection {
                    ident,
                    table_name,
                    generics: ast.generics.clone(),
                    fields: retained,
                },
            )
        },
        _ => Err(GenError::NotAStruct),
    }
}

/// The annotation lines emitted above one field, each indented and on its
/// own line, in source order.
pub open spec fn field_anns_text(anns: Seq<AnnotationView>) -> Seq<char>
    decreases anns.len(),
{
    if anns.len() == 0 {
        Seq::empty()
    } else {
        field_anns_text(anns.drop_last()) + "    "@ + annotation_text(anns.last()) + "\n"@
    }
}

/// The emitted declaration of one field: its annotations, then its
/// identifier and declared type.
pub open spec fn field_text(f: FieldView) -> Seq<char> {
    field_anns_text(f.annotations) + "    pub "@ + f.ident + ": "@ + f.ty + ",\n"@
}

/// The emitted declarations of all fields, in order.
pub open spec fn fields_text(fields: Seq<FieldView>) -> Seq<char>
    decreases fields.len(),
{
    if fields.len() == 0 {
        Seq::empty()
    } else {
        fields_text(fields.drop_last()) + field_text(fields.last())
    }
}

/// The complete emitted fragment for one projection: the derive markers
/// requesting the insert capability (and, under the host's serialization
/// feature switch, the deserialize capability), the `table_name`
/// annotation, and the struct declaration itself.
pub open spec fn projection_text(p: ProjectionView) -> Seq<char> {
    "#[derive(Clone, Insertable)]\n"@
        + "#[cfg_attr(feature=\"serialization\", derive(Deserialize))]\n"@ + annotation_text(
        p.table_name,
    ) + "\n"@ + "pub struct "@ + p.ident + p.generics.params + p.generics.where_clause + " {\n"@
        + fields_text(p.fields) + "}\n"@
}

/// What the `DefaultInsertable` generator returns for a declaration: the
/// emitted projection fragment, or the generation error that
/// [`spec_build_projection`] assigns.
pub open spec fn spec_default_insertable(d: TypeDeclView) -> Result<Seq<char>, GenError> {
    match spec_build_projection(d) {
        Ok(p) => Ok(projection_text(p)),
        Err(e) => Err(e),
    }
}

/// Appends the annotation lines emitted above one field.
fn render_field_annotations(anns: &Vec<Annotation>, out: &mut String)
    ensures
        final(out)@ == old(out)@ + field_anns_text(anns.deep_view()),
{
    let ghost base = out@;
    let ghost vs = anns.deep_view();
    let mut i: usize = 0;
    while i < anns.len()
        invariant
            i <= anns.len(),
            vs == anns.deep_view(),
            out@ == base + field_anns_text(vs.take(i as int)),
        decreases anns.len() - i,
    {
        out.append("    ");
        render_annotation(&anns[i], out);
        out.append("\n");
        proof {
            assert(vs.take(i as int + 1).drop_last() =~= vs.take(i as int));
            assert(out@ =~= base + field_anns_text(vs.take(i as int + 1)));
        }
        i += 1;
    }
    proof {
        assert(vs.take(vs.len() as int) =~= vs);
    }
}

/// Appends the emitted declaration of one field.
fn render_field(f: &Field, out: &mut String)
    ensures
        final(out)@ == old(out)@ + field_text(f@),
{
    render_field_annotations(&f.annotations, out);
    out.append("    pub ");
    out.append(f.ident.as_str());
    out.append(": ");
    out.append(f.ty.as_str());
    out.append(",\n");
    proof {
        assert(out@ =~= old(out)@ + field_text(f@));
    }
}

/// Appends the emitted declarations of all fields, in order.
fn render_fields(fields: &Vec<Field>, out: &mut String)
    ensures
        final(out)@ == old(out)@ + fields_text(fields.deep_view()),
{
    let ghost base = out@;
    let ghost vs = fields.deep_view();
    let mut i: usize = 0;
    while i < fields.len()
        invariant
            i <= fields.len(),
            vs == fields.deep_view(),
            out@ == base + fields_text(vs.take(i as int)),
        decreases fields.len() - i,
    {
        render_field(&fields[i], out);
        proof {
            assert(vs.take(i as int + 1).drop_last() =~= vs.take(i as int));
            assert(out@ =~= base + fields_text(vs.take(i as int + 1)));
        }
        i += 1;
    }
    proof {
        assert(vs.take(vs.len() as int) =~= vs);
    }
}

/// Renders the complete emitted fragment for one projection.
pub fn render_projection(p: &Projection) -> (r: String)
    ensures
        r@ == projection_text(p@),
{
    let mut out = String::new();
    out.append("#[derive(Clone, Insertable)]\n");
    out.append("#[cfg_attr(feature=\"serialization\", derive(Deserialize))]\n");
    render_annotation(&p.table_name, &mut out);
    out.append("\n");
    out.append("pub struct ");
    out.append(p.ident.as_str());
    out.append(p.generics.params.as_str());
    out.append(p.generics.where_clause.as_str());
    out.append(" {\n");
    render_fields(&p.fields, &mut out);
    out.append("}\n");
    proof {
        assert(out@ =~= projection_text(p@));
    }
    out
}

/// The `DefaultInsertable` generator: derives the insert projection of a
/// struct declaration and emits its declaration text, exactly as
/// [`spec_default_insertable`] states.
pub fn impl_default_insertable(ast: &TypeDecl) -> (r: Result<String, GenError>)
    ensures
        match r {
            Ok(s) => spec_default_insertable(ast@) == Ok::<Seq<char>, GenError>(s@),
            Err(e) => spec_default_insertable(ast@) == Err::<Seq<char>, GenError>(e),
        },
{
    match build_projection(ast) {
        Ok(p) => Ok(render_projection(&p)),
        Err(e) => Err(e),
    }
}

} // verus!
