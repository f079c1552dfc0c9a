//! The structured description of a user-written type declaration, and the
//! attribute inspector that reads configuration out of its annotations.
//!
//! A declaration is transient data: it is built once per generator
//! invocation, read, and discarded.  Every entity carries a mathematical
//! view (`@`) over sequences of characters, and all contracts in this crate
//! are stated over those views.

use vstd::prelude::*;
use vstd::string::*;

verus! {

/// The argument carried by an annotation.  Three syntactic shapes are
/// recognized: a bare marker (`#[name]`), a marker with a parenthesized
/// argument list (`#[name(a, b)]`), and a marker with a single literal
/// assignment (`#[name = literal]`).
pub enum AnnotationArg {
    /// A bare marker with no argument.
    Marker,
    /// A parenthesized argument list; each argument is kept as its source
    /// text.
    List(Vec<String>),
    /// A single literal assignment; the literal is kept as its source text,
    /// quotes included.
    Value(String),
}

/// A named marker attached to a field or type declaration, read by a
/// generator as configuration.
pub struct Annotation {
    /// The leading name segment of the annotation.
    pub name: String,
    /// The argument shape the annotation was written with.
    pub arg: AnnotationArg,
}

/// The view of an [`AnnotationArg`].
pub enum ArgView {
    Marker,
    List(Seq<Seq<char>>),
    Value(Seq<char>),
}

/// The view of an [`Annotation`].
pub struct AnnotationView {
    pub name: Seq<char>,
    pub arg: ArgView,
}

impl View for AnnotationArg {
    type V = ArgView;

    open spec fn view(&self) -> ArgView {
        match self {
            AnnotationArg::Marker => ArgView::Marker,
            AnnotationArg::List(items) => ArgView::List(items.deep_view()),
            AnnotationArg::Value(lit) => ArgView::Value(lit@),
        }
    }
}

impl View for Annotation {
    type V = AnnotationView;

    open spec fn view(&self) -> AnnotationView {
        AnnotationView { name: self.name@, arg: self.arg@ }
    }
}

impl DeepView for Annotation {
    type V = AnnotationView;

    open spec fn deep_view(&self) -> AnnotationView {
        self@
    }
}

/// One named alternative of an enumerated type; only unit variants (an
/// identifier with no payload) are supported.
pub struct Variant {
    /// The variant's identifier.
    pub ident: String,
}

impl View for Variant {
    type V = Seq<char>;

    open spec fn view(&self) -> Seq<char> {
        self.ident@
    }
}

impl DeepView for Variant {
    type V = Seq<char>;

    open spec fn deep_view(&self) -> Seq<char> {
        self@
    }
}

/// A named, typed member of a struct declaration.
pub struct Field {
    /// The field's identifier.
    pub ident: String,
    /// The field's declared type, kept as its source text.
    pub ty: String,
    /// The annotations attached to the field, in source order.
    pub annotations: Vec<Annotation>,
}

/// The view of a [`Field`].
pub struct FieldView {
    pub ident: Seq<char>,
    pub ty: Seq<char>,
    pub annotations: Seq<AnnotationView>,
}

impl View for Field {
    type V = FieldView;

    open spec fn view(&self) -> FieldView {
        FieldView {
            ident: self.ident@,
            ty: self.ty@,
            annotations: self.annotations.deep_view(),
        }
    }
}

impl DeepView for Field {
    type V = FieldView;

    open spec fn deep_view(&self) -> FieldView {
        self@
    }
}

/// The generic-parameter metadata of a declaration, kept as source text and
/// copied verbatim into generated declarations.  Both parts are empty
/// strings when the declaration has no generics; a non-empty `where_clause`
/// carries its own leading space.
pub struct Generics {
    /// The parameter list, brackets included (for example `<T: Clone>`).
    pub params: String,
    /// The where clause (for example ` where T: Clone`).
    pub where_clause: String,
}

/// The view of a [`Generics`].
pub struct GenericsView {
    pub params: Seq<char>,
    pub where_clause: Seq<char>,
}

impl View for Generics {
    type V = GenericsView;

    open spec fn view(&self) -> GenericsView {
        GenericsView { params: self.params@, where_clause: self.where_clause@ }
    }
}

/// The body of a type declaration: an enum with unit variants, a struct
/// with named fields, or any other kind of type.
pub enum TypeData {
    Enum(Vec<Variant>),
    Struct(Vec<Field>),
    Other,
}

/// The view of a [`TypeData`].
pub enum TypeDataView {
    Enum(Seq<Seq<char>>),
    Struct(Seq<FieldView>),
    Other,
}

impl View for TypeData {
    type V = TypeDataView;

    open spec fn view(&self) -> TypeDataView {
        match self {
            TypeData::Enum(variants) => TypeDataView::Enum(variants.deep_view()),
            TypeData::Struct(fields) => TypeDataView::Struct(fields.deep_view()),
            TypeData::Other => TypeDataView::Other,
        }
    }
}

/// A parsed description of one user-written type, as handed to a generator.
pub struct TypeDecl {
    /// The type's identifier.
    pub ident: String,
    /// The type's generic-parameter metadata.
    pub generics: Generics,
    /// The annotations attached to the type, in source order.
    pub annotations: Vec<Annotation>,
    /// The declaration's body.
    pub data: TypeData,
}

/// The view of a [`TypeDecl`].
pub struct TypeDeclView {
    pub ident: Seq<char>,
    pub generics: GenericsView,
    pub annotations: Seq<AnnotationView>,
    pub data: TypeDataView,
}

impl View for TypeDecl {
    type V = TypeDeclView;

    open spec fn view(&self) -> TypeDeclView {
        TypeDeclView {
            ident: self.ident@,
            generics: self.generics@,
            annotations: self.annotations.deep_view(),
            data: self.data@,
        }
    }
}

/// The first annotation in `anns` whose name equals `name`, if any.
/// Matching is by exact, case-sensitive identifier equality, and the first
/// match in source order wins.
pub open spec fn spec_find_annotation(anns: Seq<AnnotationView>, name: Seq<char>) -> Option<
    AnnotationView,
>
    decreases anns.len(),
{
    if anns.len() == 0 {
        None
    } else if anns[0].name == name {
        Some(anns[0])
    } else {
        spec_find_annotation(anns.drop_first(), name)
    }
}

/// Whether some annotation in `anns` has the name `name`.
pub open spec fn spec_has_annotation(anns: Seq<AnnotationView>, name: Seq<char>) -> bool {
    spec_find_annotation(anns, name) is Some
}

/// The literal value of the first annotation named `name`, if that
/// annotation exists and was written as a literal assignment.
pub open spec fn spec_annotation_value(anns: Seq<AnnotationView>, name: Seq<char>) -> Option<
    Seq<char>,
> {
    match spec_find_annotation(anns, name) {
        Some(a) => match a.arg {
            ArgView::Value(lit) => Some(lit),
            _ => None,
        },
        None => None,
    }
}

/// When no annotation among the first `i` matches, the search outcome over
/// the whole sequence equals the outcome over the remaining suffix.
proof fn lemma_find_annotation_skip(anns: Seq<AnnotationView>, name: Seq<char>, i: int)
    requires
        0 <= i <= anns.len(),
        forall|j: int| 0 <= j < i ==> anns[j].name != name,
    ensures
        spec_find_annotation(anns, name) == spec_find_annotation(anns.skip(i), name),
    decreases i,
{
    if i == 0 {
        assert(anns.skip(0) =~= anns);
    } else {
        assert(anns[0].name != name);
        lemma_find_annotation_skip(anns.drop_first(), name, i - 1);
        assert(anns.drop_first().skip(i - 1) =~= anns.skip(i));
    }
}

/// Scans `anns` in source order and returns the first annotation whose
/// name equals `name`, or `None` when no annotation matches.
pub fn find_annotation<'a>(anns: &'a Vec<Annotation>, name: &str) -> (r: Option<&'a Annotation>)
    ensures
        match r {
            Some(a) => spec_find_annotation(anns.deep_view(), name@) == Some(a@),
            None => spec_find_annotation(anns.deep_view(), name@) is None,
        },
{
    let needle: String = name.to_owned();
    let ghost annsv = anns.deep_view();
    let mut i: usize = 0;
    while i < anns.len()
        invariant
            i <= anns.len(),
            needle@ == name@,
            annsv == anns.deep_view(),
            forall|j: int| 0 <= j < i ==> annsv[j].name != name@,
        decreases anns.len() - i,
    {
        if anns[i].name == needle {
            proof {
                lemma_find_annotation_skip(annsv, name@, i as int);
                assert(annsv.skip(i as int)[0] == annsv[i as int]);
            }
            return Some(&anns[i]);
        }
        i += 1;
    }
    proof {
        lemma_find_annotation_skip(annsv, name@, anns.len() as int);
    }
    None
}

/// Returns the literal value of the first annotation named `name`, if that
/// annotation exists and carries one.
pub fn annotation_value<'a>(anns: &'a Vec<Annotation>, name: &str) -> (r: Option<&'a String>)
    ensures
        match r {
            Some(lit) => spec_annotation_value(anns.deep_view(), name@) == Some(lit@),
            None => spec_annotation_value(anns.deep_view(), name@) is None,
        },
{
    match find_annotation(anns, name) {
        Some(a) => match &a.arg {
            AnnotationArg::Value(lit) => Some(lit),
            _ => None,
        },
        None => None,
    }
}

/// Pushing one element onto a vector extends its deep view by that
/// element's deep view.
pub proof fn lemma_push_deep_view<T: DeepView>(v1: Vec<T>, v2: Vec<T>, x: T)
    requires
        v2@ == v1@.push(x),
    ensures
        v2.deep_view() == v1.deep_view().push(x.deep_view()),
{
    let d1 = v1.deep_view();
    let d2 = v2.deep_view();
    assert(v2@.len() == v1@.len() + 1);
    assert forall|j: int| 0 <= j < d2.len() implies d2[j] == d1.push(x.deep_view())[j] by {
        assert(d2[j] == v2@[j].deep_view());
        if j < v1@.len() {
            assert(v2@[j] == v1@[j]);
            assert(d1[j] == v1@[j].deep_view());
        }
    }
    assert(d2 =~= d1.push(x.deep_view()));
}

/// Copies a vector of strings, preserving the deep view.
fn clone_strings(items: &Vec<String>) -> (r: Vec<String>)
    ensures
        r.deep_view() == items.deep_view(),
{
    let ghost vs = items.deep_view();
    let mut r: Vec<String> = Vec::new();
    let mut i: usize = 0;
    while i < items.len()
        invariant
            i <= items.len(),
            vs == items.deep_view(),
            r.deep_view() == vs.take(i as int),
        decreases items.len() - i,
    {
        let item = items[i].clone();
        let ghost prev_vec = r;
        let ghost itemv = item;
        r.push(item);
        proof {
            lemma_push_deep_view(prev_vec, r, itemv);
            assert(r.deep_view() =~= vs.take(i as int + 1));
        }
        i += 1;
    }
    proof {
        assert(vs.take(vs.len() as int) =~= vs);
    }
    r
}

impl Clone for AnnotationArg {
    /// Cloning preserves the view.
    fn clone(&self) -> (res: Self)
        ensures
            res@ == self@,
    {
        match self {
            AnnotationArg::Marker => AnnotationArg::Marker,
            AnnotationArg::List(items) => AnnotationArg::List(clone_strings(items)),
            AnnotationArg::Value(lit) => AnnotationArg::Value(lit.clone()),
        }
    }
}

impl Clone for Annotation {
    /// Cloning preserves the view.
    fn clone(&self) -> (res: Self)
        ensures
            res@ == self@,
    {
        Annotation { name: self.name.clone(), arg: self.arg.clone() }
    }
}

/// Copies a vector of annotations, preserving the deep view.
fn clone_annotations(items: &Vec<Annotation>) -> (r: Vec<Annotation>)
    ensures
        r.deep_view() == items.deep_view(),
{
    let ghost vs = items.deep_view();
    let mut r: Vec<Annotation> = Vec::new();
    let mut i: usize = 0;
    while i < items.len()
        invariant
            i <= items.len(),
            vs == items.deep_view(),
            r.deep_view() == vs.take(i as int),
        decreases items.len() - i,
    {
        let item = items[i].clone();
        let ghost prev_vec = r;
        let ghost itemv = item;
        r.push(item);
        proof {
            lemma_push_deep_view(prev_vec, r, itemv);
            assert(r.deep_view() =~= vs.take(i as int + 1));
        }
        i += 1;
    }
    proof {
        assert(vs.take(vs.len() as int) =~= vs);
    }
    r
}

impl Clone for Field {
    /// Cloning preserves the view.
    fn clone(&self) -> (res: Self)
        ensures
            res@ == self@,
    {
        Field {
            ident: self.ident.clone(),
            ty: self.ty.clone(),
            annotations: clone_annotations(&self.annotations),
        }
    }
}

impl Clone for Generics {
    /// Cloning preserves the view.
    fn clone(&self) -> (res: Self)
        ensures
            res@ == self@,
    {
        Generics { params: self.params.clone(), where_clause: self.where_clause.clone() }
    }
}

/// The given texts joined with the given separator between consecutive
/// items.
pub open spec fn join_text(items: Seq<Seq<char>>, sep: Seq<char>) -> Seq<char>
    decreases items.len(),
{
    if items.len() == 0 {
        Seq::empty()
    } else if items.len() == 1 {
        items[0]
    } else {
        join_text(items.drop_last(), sep) + sep + items.last()
    }
}

/// The source text of an annotation, rendered back in the shape it was
/// written with.
pub open spec fn annotation_text(a: AnnotationView) -> Seq<char> {
    match a.arg {
        ArgView::Marker => "#["@ + a.name + "]"@,
        ArgView::List(items) => "#["@ + a.name + "("@ + join_text(items, ", "@) + ")]"@,
        ArgView::Value(lit) => "#["@ + a.name + " = "@ + lit + "]"@,
    }
}

/// Appends the given texts joined with the given separator.
fn append_joined(items: &Vec<String>, sep: &str, out: &mut String)
    ensures
        final(out)@ == old(out)@ + join_text(items.deep_view(), sep@),
{
    let ghost base = out@;
    let ghost vs = items.deep_view();
    let mut i: usize = 0;
    while i < items.len()
        invariant
            i <= items.len(),
            vs == items.deep_view(),
            out@ == base + join_text(vs.take(i as int), sep@),
        decreases items.len() - i,
    {
        if i > 0 {
            out.append(sep);
        }
        out.append(items[i].as_str());
        proof {
            assert(vs.take(i as int + 1).drop_last() =~= vs.take(i as int));
            assert(out@ =~= base + join_text(vs.take(i as int + 1), sep@));
        }
        i += 1;
    }
    proof {
        assert(vs.take(vs.len() as int) =~= vs);
    }
}

/// Appends the source text of an annotation.
pub fn render_annotation(a: &Annotation, out: &mut String)
    ensures
        final(out)@ == old(out)@ + annotation_text(a@),
{
    out.append("#[");
    out.append(a.name.as_str());
    match &a.arg {
        AnnotationArg::Marker => {
            out.append("]");
        },
        AnnotationArg::List(items) => {
            out.append("(");
            append_joined(items, ", ", out);
            out.append(")]");
        },
        AnnotationArg::Value(lit) => {
            out.append(" = ");
            out.append(lit.as_str());
            out.append("]");
        },
    }
    proof {
        assert(out@ =~= old(out)@ + annotation_text(a@));
    }
}

impl Field {
    /// The annotations attached to this field.
    pub fn get_attributes(&self) -> (r: &Vec<Annotation>)
        ensures
            r.deep_view() == self@.annotations,
    {
        &self.annotations
    }

    /// Whether an annotation named `attribute_name` is attached to this
    /// field.
    pub fn has_attribute(&self, attribute_name: &str) -> (r: bool)
        ensures
            r == spec_has_annotation(self@.annotations, attribute_name@),
    {
        match self.get_attribute_by_name(attribute_name) {
            Some(_) => true,
            None => false,
        }
    }

    /// The first annotation named `attribute_name` attached to this field,
    /// if any.
    pub fn get_attribute_by_name<'a>(&'a self, attribute_name: &str) -> (r: Option<&'a Annotation>)
        ensures
            match r {
                Some(a) => spec_find_annotation(self@.annotations, attribute_name@) == Some(a@),
                None => spec_find_annotation(self@.annotations, attribute_name@) is None,
            },
    {
        find_annotation(&self.annotations, attribute_name)
    }
}

impl TypeDecl {
    /// The annotations attached to this declaration.
    pub fn get_attributes(&self) -> (r: &Vec<Annotation>)
        ensures
            r.deep_view() == self@.annotations,
    {
        &self.annotations
    }

    /// Whether an annotation named `attribute_name` is attached to this
    /// declaration.
    pub fn has_attribute(&self, attribute_name: &str) -> (r: bool)
        ensures
            r == spec_has_annotation(self@.annotations, attribute_name@),
    {
        match self.get_attribute_by_name(attribute_name) {
            Some(_) => true,
            None => false,
        }
    }

    /// The first annotation named `attribute_name` attached to this
    /// declaration, if any.
    pub fn get_attribute_by_name<'a>(&'a self, attribute_name: &str) -> (r: Option<&'a Annotation>)
        ensures
            match r {
                Some(a) => spec_find_annotation(self@.annotations, attribute_name@) == Some(a@),
                None => spec_find_annotation(self@.annotations, attribute_name@) is None,
            },
    {
        find_annotation(&self.annotations, attribute_name)
    }
}

} // verus!
