//! The declaration as data: what the generators read of a struct.
//!
//! Each type has a view, its mathematical value: the same shape with text as
//! `Seq<char>` and lists as `Seq`. Contracts speak of the views.

use vstd::prelude::*;

verus! {

/// The views of a run of values, one for one.
pub open spec fn views<T: View>(items: Seq<T>) -> Seq<T::V> {
    Seq::new(items.len(), |i: int| items[i]@)
}

/// The view of a value that may be absent.
pub open spec fn option_view<T: View>(item: Option<T>) -> Option<T::V> {
    match item {
        Some(value) => Some(value@),
        None => None,
    }
}

/// The kind of item that carries the derive.
#[derive(Clone, Copy, Debug, PartialEq, Eq, Structural)]
pub enum DeclShape {
    /// `struct S { a: A, .. }`
    NamedStruct,
    /// `struct S(A, ..);`
    TupleStruct,
    /// `struct S;`
    UnitStruct,
    Enum,
    Union,
}

/// A literal on the right of `key = ..`.
#[derive(Clone, Debug, PartialEq, Eq)]
pub enum Lit {
    /// A string literal, by its unescaped content.
    Str(String),
    /// Any other literal.
    Other,
}

/// The mathematical value of a [`Lit`].
pub enum LitView {
    Str(Seq<char>),
    Other,
}

impl View for Lit {
    type V = LitView;

    open spec fn view(&self) -> LitView {
        match self {
            Lit::Str(s) => LitView::Str(s@),
            Lit::Other => LitView::Other,
        }
    }
}

/// `key = literal`.
#[derive(Clone, Debug, PartialEq, Eq)]
pub struct NameValue {
    /// The key, where it is a single bare identifier.
    pub key: Option<String>,
    pub value: Lit,
}

/// The mathematical value of a [`NameValue`].
pub struct NameValueView {
    pub key: Option<Seq<char>>,
    pub value: LitView,
}

impl View for NameValue {
    type V = NameValueView;

    open spec fn view(&self) -> NameValueView {
        NameValueView { key: option_view(self.key), value: self.value@ }
    }
}

/// One entry of a list `name(entry, ..)`.
#[derive(Clone, Debug, PartialEq, Eq)]
pub enum NestedItem {
    NameValue(NameValue),
    /// A bare path, a nested list, or a literal.
    Other,
}

/// The mathematical value of a [`NestedItem`].
pub enum NestedItemView {
    NameValue(NameValueView),
    Other,
}

impl View for NestedItem {
    type V = NestedItemView;

    open spec fn view(&self) -> NestedItemView {
        match self {
            NestedItem::NameValue(nv) => NestedItemView::NameValue(nv@),
            NestedItem::Other => NestedItemView::Other,
        }
    }
}

/// The structured form of an attribute's content.
#[derive(Clone, Debug, PartialEq, Eq)]
pub enum MetaItem {
    /// `name`
    Path,
    /// `name(entry, ..)`
    List(Vec<NestedItem>),
    /// `name = literal`
    NameValue(NameValue),
}

/// The mathematical value of a [`MetaItem`].
pub enum MetaItemView {
    Path,
    List(Seq<NestedItemView>),
    NameValue(NameValueView),
}

impl View for MetaItem {
    type V = MetaItemView;

    open spec fn view(&self) -> MetaItemView {
        match self {
            MetaItem::Path => MetaItemView::Path,
            MetaItem::List(entries) => MetaItemView::List(views(entries@)),
            MetaItem::NameValue(nv) => MetaItemView::NameValue(nv@),
        }
    }
}

/// An attribute on a field.
#[derive(Clone, Debug, PartialEq, Eq)]
pub struct FieldAttribute {
    /// The identifiers of the attribute's path, one per segment.
    pub path: Vec<String>,
    /// What follows the path, as text: `(each = "arg")`, `= "{:x}"`, or
    /// nothing.
    pub tokens: String,
    /// The content as a meta item; `None` where it has not been read or
    /// does not parse as one.
    pub meta: Option<MetaItem>,
}

/// The mathematical value of a [`FieldAttribute`].
pub struct FieldAttributeView {
    pub path: Seq<Seq<char>>,
    pub tokens: Seq<char>,
    pub meta: Option<MetaItemView>,
}

impl View for FieldAttribute {
    type V = FieldAttributeView;

    open spec fn view(&self) -> FieldAttributeView {
        FieldAttributeView {
            path: views(self.path@),
            tokens: self.tokens@,
            meta: option_view(self.meta),
        }
    }
}

/// A type that stands as a generic argument.
#[derive(Clone, Debug, PartialEq, Eq)]
pub struct InnerType {
    /// The type's tokens as text.
    pub text: String,
    /// The identifier of the first path segment, where the type is a path.
    pub head: Option<String>,
}

/// The mathematical value of an [`InnerType`].
pub struct InnerTypeView {
    pub text: Seq<char>,
    pub head: Option<Seq<char>>,
}

impl View for InnerType {
    type V = InnerTypeView;

    open spec fn view(&self) -> InnerTypeView {
        InnerTypeView { text: self.text@, head: option_view(self.head) }
    }
}

/// One generic argument between angle brackets.
#[derive(Clone, Debug, PartialEq, Eq)]
pub enum TypeArg {
    Type(InnerType),
    /// A lifetime, a constant, a binding or a constraint.
    Other,
}

/// The mathematical value of a [`TypeArg`].
pub enum TypeArgView {
    Type(InnerTypeView),
    Other,
}

impl View for TypeArg {
    type V = TypeArgView;

    open spec fn view(&self) -> TypeArgView {
        match self {
            TypeArg::Type(inner) => TypeArgView::Type(inner@),
            TypeArg::Other => TypeArgView::Other,
        }
    }
}

/// One segment of a type path.
#[derive(Clone, Debug, PartialEq, Eq)]
pub struct Segment {
    pub ident: String,
    /// The angle-bracketed arguments; `None` where the segment has none.
    pub args: Option<Vec<TypeArg>>,
}

/// The mathematical value of a [`Segment`].
pub struct SegmentView {
    pub ident: Seq<char>,
    pub args: Option<Seq<TypeArgView>>,
}

impl View for Segment {
    type V = SegmentView;

    open spec fn view(&self) -> SegmentView {
        SegmentView {
            ident: self.ident@,
            args: match self.args {
                Some(args) => Some(views(args@)),
                None => None,
            },
        }
    }
}

/// A path type such as `Vec<String>` or `std::option::Option<T>`.
#[derive(Clone, Debug, PartialEq, Eq)]
pub struct TypePath {
    /// Whether the path is qualified, as in `<T as Trait>::Out`.
    pub has_qself: bool,
    pub segments: Vec<Segment>,
}

/// The mathematical value of a [`TypePath`].
pub struct TypePathView {
    pub has_qself: bool,
    pub segments: Seq<SegmentView>,
}

impl View for TypePath {
    type V = TypePathView;

    open spec fn view(&self) -> TypePathView {
        TypePathView { has_qself: self.has_qself, segments: views(self.segments@) }
    }
}

/// The declared type of a field.
#[derive(Clone, Debug, PartialEq, Eq)]
pub struct TypeExpr {
    /// The type's tokens as text.
    pub text: String,
    /// The path, where the type is a path type.
    pub path: Option<TypePath>,
}

/// The mathematical value of a [`TypeExpr`].
pub struct TypeExprView {
    pub text: Seq<char>,
    pub path: Option<TypePathView>,
}

impl View for TypeExpr {
    type V = TypeExprView;

    open spec fn view(&self) -> TypeExprView {
        TypeExprView { text: self.text@, path: option_view(self.path) }
    }
}

/// A named field.
#[derive(Clone, Debug, PartialEq, Eq)]
pub struct NamedField {
    pub ident: String,
    pub ty: TypeExpr,
    pub attrs: Vec<FieldAttribute>,
}

/// The mathematical value of a [`NamedField`].
pub struct NamedFieldView {
    pub ident: Seq<char>,
    pub ty: TypeExprView,
    pub attrs: Seq<FieldAttributeView>,
}

impl View for NamedField {
    type V = NamedFieldView;

    open spec fn view(&self) -> NamedFieldView {
        NamedFieldView { ident: self.ident@, ty: self.ty@, attrs: views(self.attrs@) }
    }
}

/// The kind of a generic parameter.
#[derive(Clone, Copy, Debug, PartialEq, Eq, Structural)]
pub enum GenericKind {
    Lifetime,
    Type,
    Const,
}

/// A generic parameter of the declaration.
#[derive(Clone, Debug, PartialEq, Eq)]
pub struct Parameter {
    pub kind: GenericKind,
    /// The parameter's name; a lifetime's includes the leading `'`.
    pub name: String,
    /// For a type or lifetime parameter the declared bounds as text, empty
    /// where there are none; for a const parameter its type.
    pub bounds: String,
}

/// The mathematical value of a [`Parameter`].
pub struct ParameterView {
    pub kind: GenericKind,
    pub name: Seq<char>,
    pub bounds: Seq<char>,
}

impl View for Parameter {
    type V = ParameterView;

    open spec fn view(&self) -> ParameterView {
        ParameterView { kind: self.kind, name: self.name@, bounds: self.bounds@ }
    }
}

/// A declaration that carries a derive.
#[derive(Clone, Debug, PartialEq, Eq)]
pub struct Declaration {
    pub name: String,
    pub shape: DeclShape,
    pub generics: Vec<Parameter>,
    /// The `where` clause as text, keyword included; empty where there is
    /// none.
    pub where_clause: String,
    /// The named fields in declaration order. A generator reads them only
    /// where `shape` is [`DeclShape::NamedStruct`].
    pub fields: Vec<NamedField>,
}

/// The mathematical value of a [`Declaration`].
pub struct DeclarationView {
    pub name: Seq<char>,
    pub shape: DeclShape,
    pub generics: Seq<ParameterView>,
    pub where_clause: Seq<char>,
    pub fields: Seq<NamedFieldView>,
}

impl View for Declaration {
    type V = DeclarationView;

    open spec fn view(&self) -> DeclarationView {
        DeclarationView {
            name: self.name@,
            shape: self.shape,
            generics: views(self.generics@),
            where_clause: self.where_clause@,
            fields: views(self.fields@),
        }
    }
}

} // verus!
