//! Shape classification: the semantic category of each field, read off the
//! outermost constructor of its declared type and off its attributes.

use vstd::prelude::*;
use crate::attribute::{find_attribute, find_attribute_spec, nested_value, nested_value_spec};
use crate::diagnostic::{AttributePart, Diagnostic, DiagnosticView, ErrorKind, Span};
use crate::model::{
    views,
    Segment,
    SegmentView,
    InnerType,
    InnerTypeView,
    NamedField,
    NamedFieldView,
    TypeArg,
    TypeArgView,
    TypeExpr,
    TypeExprView,
};
use crate::text::{is_identifier, is_identifier_spec, is_text};

verus! {

/// The message of every diagnostic on a `builder` attribute.
pub const EXPECTED_EACH: &'static str = "expected `builder(each = \"...\")`";

/// The semantic category of a field.
#[derive(Clone, Debug, PartialEq, Eq)]
pub enum FieldShape {
    /// Any other field, with its declared type.
    Plain(String),
    /// `Option<inner>`, with the inner type.
    Optional(String),
    /// `Vec<inner>` filled one element at a time, with the inner type and the
    /// name of the per-element setter, which is an identifier.
    Repeated(String, String),
    /// `PhantomData<witness>`, under whatever path, whose witness is the
    /// direct type of no stored field; with the witness's name.
    PhantomMarker(String),
}

/// The mathematical value of a [`FieldShape`].
pub enum FieldShapeView {
    Plain(Seq<char>),
    Optional(Seq<char>),
    Repeated(Seq<char>, Seq<char>),
    PhantomMarker(Seq<char>),
}

impl View for FieldShape {
    type V = FieldShapeView;

    open spec fn view(&self) -> FieldShapeView {
        match self {
            FieldShape::Plain(ty) => FieldShapeView::Plain(ty@),
            FieldShape::Optional(inner) => FieldShapeView::Optional(inner@),
            FieldShape::Repeated(inner, each) => FieldShapeView::Repeated(inner@, each@),
            FieldShape::PhantomMarker(witness) => FieldShapeView::PhantomMarker(witness@),
        }
    }
}

/// The single generic argument of `ty`, where `ty` is the unqualified
/// one-segment path `outer<arg>` and the argument is a type.
pub open spec fn inner_type_spec(outer: Seq<char>, ty: TypeExprView) -> Option<InnerTypeView> {
    match ty.path {
        Some(path) => if !path.has_qself && path.segments.len() == 1 && path.segments[0].ident
            == outer {
            single_argument_spec(path.segments[0])
        } else {
            None
        },
        None => None,
    }
}

/// Matches `ty` against `outer<arg>` and hands out the argument.
///
/// The match is syntactic and one level deep: the path must be unqualified
/// and of one segment named `outer`, with exactly one angle-bracketed
/// argument, which must be a type.
pub fn inner_type<'a>(outer: &str, ty: &'a TypeExpr) -> (r: Option<&'a InnerType>)
    ensures
        match r {
            Some(inner) => inner_type_spec(outer@, ty@) == Some(inner@),
            None => inner_type_spec(outer@, ty@) is None,
        },
{
    match &ty.path {
        Some(path) => {
            if path.has_qself || path.segments.len() != 1 {
                return None;
            }
            let segment = &path.segments[0];
            assert(views(path.segments@)[0] == segment@);
            if !is_text(&segment.ident, outer) {
                return None;
            }
            single_argument(segment)
        },
        None => None,
    }
}

/// The single generic argument of a path segment, where it has exactly one
/// angle-bracketed argument and that is a type.
pub open spec fn single_argument_spec(segment: SegmentView) -> Option<InnerTypeView> {
    match segment.args {
        Some(args) => if args.len() == 1 {
            match args[0] {
                TypeArgView::Type(inner) => Some(inner),
                TypeArgView::Other => None,
            }
        } else {
            None
        },
        None => None,
    }
}

/// Hands out the single generic argument of a path segment.
pub fn single_argument<'a>(segment: &'a Segment) -> (r: Option<&'a InnerType>)
    ensures
        match r {
            Some(inner) => single_argument_spec(segment@) == Some(inner@),
            None => single_argument_spec(segment@) is None,
        },
{
    match &segment.args {
        Some(args) => {
            if args.len() != 1 {
                return None;
            }
            assert(views(args@)[0] == args@[0]@);
            match &args[0] {
                TypeArg::Type(inner) => Some(inner),
                TypeArg::Other => None,
            }
        },
        None => None,
    }
}

/// The witness of a phantom marker type: the head of the single type
/// argument of a path whose last segment is `PhantomData`, whatever segments
/// come before it. So `PhantomData<T>` and `std::marker::PhantomData<T>`
/// alike have the witness `T`.
pub open spec fn phantom_witness_spec(ty: TypeExprView) -> Option<Seq<char>> {
    match ty.path {
        Some(path) => if path.segments.len() > 0 && path.segments.last().ident
            == "PhantomData"@ {
            match single_argument_spec(path.segments.last()) {
                Some(inner) => inner.head,
                None => None,
            }
        } else {
            None
        },
        None => None,
    }
}

/// Reads the witness's name off a phantom marker type.
pub fn phantom_witness<'a>(ty: &'a TypeExpr) -> (r: Option<&'a String>)
    ensures
        match r {
            Some(witness) => phantom_witness_spec(ty@) == Some(witness@),
            None => phantom_witness_spec(ty@) is None,
        },
{
    match &ty.path {
        Some(path) => {
            let n = path.segments.len();
            if n == 0 {
                return None;
            }
            let segment = &path.segments[n - 1];
            assert(views(path.segments@)[n - 1] == segment@);
            if !is_text(&segment.ident, "PhantomData") {
                return None;
            }
            match single_argument(segment) {
                Some(inner) => match &inner.head {
                    Some(witness) => Some(witness),
                    None => None,
                },
                None => None,
            }
        },
        None => None,
    }
}

/// The name by which a path type is known: its last segment's identifier.
pub open spec fn last_segment_spec(ty: TypeExprView) -> Option<Seq<char>> {
    match ty.path {
        Some(path) => if path.segments.len() > 0 {
            Some(path.segments.last().ident)
        } else {
            None
        },
        None => None,
    }
}

/// Reads the last segment's identifier off a path type.
pub fn last_segment<'a>(ty: &'a TypeExpr) -> (r: Option<&'a String>)
    ensures
        match r {
            Some(name) => last_segment_spec(ty@) == Some(name@),
            None => last_segment_spec(ty@) is None,
        },
{
    match &ty.path {
        Some(path) => {
            let n = path.segments.len();
            if n > 0 {
                assert(views(path.segments@)[n - 1] == path.segments@[n - 1]@);
                Some(&path.segments[n - 1].ident)
            } else {
                None
            }
        },
        None => None,
    }
}

/// Whether `field` stores a value whose type is known by `name`: it is no
/// phantom marker with a witness, and `name` is its type's last segment.
pub open spec fn stores(field: NamedFieldView, name: Seq<char>) -> bool {
    &&& phantom_witness_spec(field.ty) is None
    &&& last_segment_spec(field.ty) == Some(name)
}

/// Whether some field stores a value whose type is known by `name`.
pub open spec fn is_stored(fields: Seq<NamedFieldView>, name: Seq<char>) -> bool {
    exists|j: int| 0 <= j < fields.len() && stores(#[trigger] fields[j], name)
}

/// Decides whether `name` is the direct type of a stored field.
pub fn stored(fields: &Vec<NamedField>, name: &String) -> (b: bool)
    ensures
        b == is_stored(views(fields@), name@),
{
    let mut j: usize = 0;
    while j < fields.len()
        invariant
            j <= fields.len(),
            forall|k: int| 0 <= k < j ==> !stores(#[trigger] views(fields@)[k], name@),
        decreases fields.len() - j,
    {
        let field = &fields[j];
        assert(views(fields@)[j as int] == field@);
        if phantom_witness(&field.ty).is_none() {
            match last_segment(&field.ty) {
                Some(n) => {
                    if *n == *name {
                        assert(stores(views(fields@)[j as int], name@));
                        return true;
                    }
                },
                None => {},
            }
        }
        j = j + 1;
    }
    false
}

/// The witness of field `i`, where the field is `PhantomData<witness>` and
/// no field stores a value of a type known by that name.
pub open spec fn phantom_marker_spec(fields: Seq<NamedFieldView>, i: int) -> Option<Seq<char>> {
    match phantom_witness_spec(fields[i].ty) {
        Some(witness) => if is_stored(fields, witness) {
            None
        } else {
            Some(witness)
        },
        None => None,
    }
}

/// Decides whether field `i` is a phantom marker and names its witness.
pub fn phantom_marker(fields: &Vec<NamedField>, i: usize) -> (r: Option<String>)
    requires
        i < fields.len(),
    ensures
        match r {
            Some(witness) => phantom_marker_spec(views(fields@), i as int) == Some(witness@),
            None => phantom_marker_spec(views(fields@), i as int) is None,
        },
{
    assert(views(fields@)[i as int] == fields@[i as int]@);
    match phantom_witness(&fields[i].ty) {
        Some(witness) => if stored(fields, witness) {
            None
        } else {
            Some(witness.clone())
        },
        None => None,
    }
}

/// The diagnostic on the `builder` attribute at index `attr` of field
/// `field`, blaming `part` of it.
pub open spec fn malformed_each(field: int, attr: int, part: AttributePart) -> DiagnosticView {
    DiagnosticView {
        kind: ErrorKind::MalformedAttribute,
        message: EXPECTED_EACH@,
        span: Span::Attribute { field: field as usize, attr: attr as usize, part },
    }
}

/// The shape of field `i`, by the first rule that applies:
///
/// 1. `Option<inner>` is optional;
/// 2. a field with a `builder` attribute is repeated, provided the attribute
///    reads `builder(each = "name")`, the name is an identifier and the type
///    is `Vec<inner>`; where it has the attribute and any of these fails,
///    classification fails, at the list's entries for the first two and at
///    the attribute as a whole for the type;
/// 3. `PhantomData<witness>` whose witness no field stores is a phantom
///    marker;
/// 4. anything else is plain.
pub open spec fn classify_spec(fields: Seq<NamedFieldView>, i: int) -> Result<
    FieldShapeView,
    DiagnosticView,
> {
    let field = fields[i];
    match inner_type_spec("Option"@, field.ty) {
        Some(inner) => Ok(FieldShapeView::Optional(inner.text)),
        None => match find_attribute_spec(field.attrs, "builder"@) {
            Some(a) => match nested_value_spec("each"@, field.attrs[a]) {
                Ok(each) => if !is_identifier_spec(each) {
                    Err(malformed_each(i, a, AttributePart::Nested))
                } else {
                    match inner_type_spec("Vec"@, field.ty) {
                        Some(inner) => Ok(FieldShapeView::Repeated(inner.text, each)),
                        None => Err(malformed_each(i, a, AttributePart::Whole)),
                    }
                },
                Err(part) => Err(malformed_each(i, a, part)),
            },
            None => match phantom_marker_spec(fields, i) {
                Some(witness) => Ok(FieldShapeView::PhantomMarker(witness)),
                None => Ok(FieldShapeView::Plain(field.ty.text)),
            },
        },
    }
}

/// Classifies field `i` of `fields`.
pub fn classify(fields: &Vec<NamedField>, i: usize) -> (r: Result<FieldShape, Diagnostic>)
    requires
        i < fields.len(),
    ensures
        match r {
            Ok(shape) => classify_spec(views(fields@), i as int) == Ok::<
                FieldShapeView,
                DiagnosticView,
            >(shape@),
            Err(d) => classify_spec(views(fields@), i as int) == Err::<
                FieldShapeView,
                DiagnosticView,
            >(d@),
        },
        r matches Ok(FieldShape::Repeated(_, each)) ==> is_identifier_spec(each@),
{
    let field = &fields[i];
    assert(views(fields@)[i as int] == field@);
    if let Some(inner) = inner_type("Option", &field.ty) {
        return Ok(FieldShape::Optional(inner.text.clone()));
    }
    match find_attribute(&field.attrs, "builder") {
        Some(a) => {
            assert(views(field.attrs@)[a as int] == field.attrs@[a as int]@);
            let part = match nested_value("each", &field.attrs[a]) {
                Ok(each) => if !is_identifier(each.as_str()) {
                    AttributePart::Nested
                } else {
                    match inner_type("Vec", &field.ty) {
                        Some(inner) => {
                            return Ok(FieldShape::Repeated(inner.text.clone(), each));
                        },
                        None => AttributePart::Whole,
                    }
                },
                Err(part) => part,
            };
            Err(
                Diagnostic::new(
                    ErrorKind::MalformedAttribute,
                    EXPECTED_EACH,
                    Span::Attribute { field: i, attr: a, part },
                ),
            )
        },
        None => match phantom_marker(fields, i) {
            Some(witness) => Ok(FieldShape::PhantomMarker(witness)),
            None => Ok(FieldShape::Plain(field.ty.text.clone())),
        },
    }
}

/// The shapes of the first `n` fields, or the diagnostic of the first field
/// in declaration order whose classification fails.
pub open spec fn classify_all_spec(fields: Seq<NamedFieldView>, n: int) -> Result<
    Seq<FieldShapeView>,
    DiagnosticView,
>
    decreases n,
{
    if n <= 0 {
        Ok(Seq::empty())
    } else {
        match classify_all_spec(fields, n - 1) {
            Ok(shapes) => match classify_spec(fields, n - 1) {
                Ok(shape) => Ok(shapes.push(shape)),
                Err(d) => Err(d),
            },
            Err(d) => Err(d),
        }
    }
}

/// Classification of the first `n` fields succeeds exactly where it
/// succeeds on each of them, and then yields their shapes one for one; it
/// fails with the diagnostic of the first field on which it fails.
pub proof fn lemma_classify_all(fields: Seq<NamedFieldView>, n: int)
    requires
        0 <= n,
    ensures
        match classify_all_spec(fields, n) {
            Ok(shapes) => {
                &&& shapes.len() == n
                &&& forall|i: int|
                    0 <= i < n ==> classify_spec(fields, i) == Ok::<FieldShapeView, DiagnosticView>(
                        #[trigger] shapes[i],
                    )
            },
            Err(d) => exists|i: int|
                {
                    &&& 0 <= i < n
                    &&& #[trigger] classify_spec(fields, i) == Err::<
                        FieldShapeView,
                        DiagnosticView,
                    >(d)
                    &&& forall|j: int| 0 <= j < i ==> (#[trigger] classify_spec(fields, j)) is Ok
                },
        },
    decreases n,
{
    if n > 0 {
        lemma_classify_all(fields, n - 1);
        match classify_all_spec(fields, n - 1) {
            Ok(shapes) => {
                assert forall|j: int| 0 <= j < n - 1 implies (#[trigger] classify_spec(
                    fields,
                    j,
                )) is Ok by {
                    assert(classify_spec(fields, j) == Ok::<FieldShapeView, DiagnosticView>(
                        shapes[j],
                    ));
                }
            },
            Err(d) => {},
        }
    }
}

/// Classifies every field in declaration order and stops at the first
/// failure: the result is one shape per field, or the diagnostic of the
/// first field that has none.
pub fn classify_all(fields: &Vec<NamedField>) -> (r: Result<Vec<FieldShape>, Diagnostic>)
    ensures
        match r {
            Ok(shapes) => {
                &&& shapes@.len() == fields@.len()
                &&& classify_all_spec(views(fields@), fields@.len() as int) == Ok::<
                    Seq<FieldShapeView>,
                    DiagnosticView,
                >(views(shapes@))
                &&& forall|i: int|
                    0 <= i < shapes@.len() ==> classify_spec(views(fields@), i) == Ok::<
                        FieldShapeView,
                        DiagnosticView,
                    >((#[trigger] shapes@[i])@)
            },
            Err(d) => {
                &&& classify_all_spec(views(fields@), fields@.len() as int) == Err::<
                    Seq<FieldShapeView>,
                    DiagnosticView,
                >(d@)
                &&& exists|i: int|
                    {
                        &&& 0 <= i < fields@.len()
                        &&& #[trigger] classify_spec(views(fields@), i) == Err::<
                            FieldShapeView,
                            DiagnosticView,
                        >(d@)
                        &&& forall|j: int|
                            0 <= j < i ==> (#[trigger] classify_spec(views(fields@), j)) is Ok
                    }
            },
        },
{
    let mut shapes: Vec<FieldShape> = Vec::new();
    let mut i: usize = 0;
    assert(views(shapes@) =~= Seq::<FieldShapeView>::empty());
    while i < fields.len()
        invariant
            i <= fields.len(),
            shapes@.len() == i,
            classify_all_spec(views(fields@), i as int) == Ok::<
                Seq<FieldShapeView>,
                DiagnosticView,
            >(views(shapes@)),
        decreases fields.len() - i,
    {
        let ghost before = views(shapes@);
        match classify(fields, i) {
            Ok(shape) => {
                shapes.push(shape);
                assert(views(shapes@) =~= before.push(shape@));
            },
            Err(d) => {
                proof {
                    lemma_classify_all_fails(views(fields@), i as int + 1, fields@.len() as int);
                    lemma_classify_all(views(fields@), fields@.len() as int);
                }
                return Err(d);
            },
        }
        i = i + 1;
    }
    proof {
        lemma_classify_all(views(fields@), fields@.len() as int);
        assert forall|i: int| 0 <= i < shapes@.len() implies classify_spec(views(fields@), i)
            == Ok::<FieldShapeView, DiagnosticView>((#[trigger] shapes@[i])@) by {
            assert(views(shapes@)[i] == shapes@[i]@);
        }
    }
    Ok(shapes)
}

/// Once classification has failed on a prefix, it fails alike on every
/// longer one.
pub proof fn lemma_classify_all_fails(fields: Seq<NamedFieldView>, n: int, m: int)
    requires
        n <= m,
        classify_all_spec(fields, n) is Err,
    ensures
        classify_all_spec(fields, m) == classify_all_spec(fields, n),
    decreases m - n,
{
    if n < m {
        lemma_classify_all_fails(fields, n, m - 1);
    }
}

} // verus!
