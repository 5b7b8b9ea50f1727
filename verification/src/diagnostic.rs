//! Diagnostics and the result of one generation pass.

use vstd::prelude::*;
use vstd::string::*;
use crate::model::DeclShape;

verus! {

/// Why a generation pass failed.
#[derive(Clone, Copy, Debug, PartialEq, Eq, Structural)]
pub enum ErrorKind {
    /// The declaration is not a struct with named fields.
    UnsupportedShape,
    /// A recognized attribute is present but has the wrong form.
    MalformedAttribute,
}

/// The part of an attribute that a span covers.
#[derive(Clone, Copy, Debug, PartialEq, Eq, Structural)]
pub enum AttributePart {
    /// The whole attribute, from `#` to the closing bracket.
    Whole,
    /// What stands between the brackets: the path and its arguments.
    Content,
    /// What follows the attribute's path.
    Arguments,
    /// The entries between the parentheses of a list.
    Nested,
}

/// A location in the declaration, given by position rather than by offset,
/// so that it can be resolved against any parse of the same declaration.
#[derive(Clone, Copy, Debug, PartialEq, Eq, Structural)]
pub enum Span {
    /// The declaration as a whole.
    Declaration,
    /// A part of the attribute at index `attr` of the field at index `field`.
    Attribute { field: usize, attr: usize, part: AttributePart },
}

/// A compile-time failure: what went wrong, in words, and where.
#[derive(Clone, Debug, PartialEq, Eq)]
pub struct Diagnostic {
    pub kind: ErrorKind,
    pub message: String,
    pub span: Span,
}

/// The mathematical value of a [`Diagnostic`].
pub struct DiagnosticView {
    pub kind: ErrorKind,
    pub message: Seq<char>,
    pub span: Span,
}

impl View for Diagnostic {
    type V = DiagnosticView;

    open spec fn view(&self) -> DiagnosticView {
        DiagnosticView { kind: self.kind, message: self.message@, span: self.span }
    }
}

impl Diagnostic {
    /// A diagnostic of the given kind at `span`, saying `message`.
    pub fn new(kind: ErrorKind, message: &str, span: Span) -> (d: Diagnostic)
        ensures
            d@ == (DiagnosticView { kind, message: message@, span }),
    {
        Diagnostic { kind, message: String::from_str(message), span }
    }
}

/// The diagnostic for a declaration of shape `shape`, where a generator
/// refuses it: every shape but a struct with named fields. A struct without
/// named fields is refused with `no_names`, an item that is no struct with
/// `no_struct`; either way the span is the whole declaration.
pub open spec fn unsupported_spec(
    shape: DeclShape,
    no_names: Seq<char>,
    no_struct: Seq<char>,
) -> Option<DiagnosticView> {
    match shape {
        DeclShape::NamedStruct => None,
        DeclShape::TupleStruct | DeclShape::UnitStruct => Some(
            DiagnosticView {
                kind: ErrorKind::UnsupportedShape,
                message: no_names,
                span: Span::Declaration,
            },
        ),
        DeclShape::Enum | DeclShape::Union => Some(
            DiagnosticView {
                kind: ErrorKind::UnsupportedShape,
                message: no_struct,
                span: Span::Declaration,
            },
        ),
    }
}

/// Refuses every declaration that is not a struct with named fields.
pub fn unsupported(shape: DeclShape, no_names: &str, no_struct: &str) -> (r: Option<Diagnostic>)
    ensures
        match r {
            Some(d) => unsupported_spec(shape, no_names@, no_struct@) == Some(d@),
            None => unsupported_spec(shape, no_names@, no_struct@) is None,
        },
{
    match shape {
        DeclShape::NamedStruct => None,
        DeclShape::TupleStruct | DeclShape::UnitStruct => Some(
            Diagnostic::new(ErrorKind::UnsupportedShape, no_names, Span::Declaration),
        ),
        DeclShape::Enum | DeclShape::Union => Some(
            Diagnostic::new(ErrorKind::UnsupportedShape, no_struct, Span::Declaration),
        ),
    }
}

/// What one generation pass hands back: generated source text, or a single
/// diagnostic in its place. Never both.
#[derive(Clone, Debug, PartialEq, Eq)]
pub enum GeneratedUnit {
    Source(String),
    Diagnostic(Diagnostic),
}

/// The mathematical value of a [`GeneratedUnit`].
pub enum GeneratedUnitView {
    Source(Seq<char>),
    Diagnostic(DiagnosticView),
}

impl View for GeneratedUnit {
    type V = GeneratedUnitView;

    open spec fn view(&self) -> GeneratedUnitView {
        match self {
            GeneratedUnit::Source(text) => GeneratedUnitView::Source(text@),
            GeneratedUnit::Diagnostic(d) => GeneratedUnitView::Diagnostic(d@),
        }
    }
}

impl GeneratedUnit {
    /// Whether this unit is generated source text.
    pub fn is_source(&self) -> (b: bool)
        ensures
            b == (self@ is Source),
    {
        match self {
            GeneratedUnit::Source(_) => true,
            GeneratedUnit::Diagnostic(_) => false,
        }
    }
}

} // verus!
