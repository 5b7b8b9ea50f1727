//! From source text to a [`Declaration`]: the text is parsed by `syn`, and
//! the syntax tree is read off into plain data.
//!
//! Everything that touches a `syn` value is a small accessor whose body is
//! not verified; the walk over the tree is. What a node of the tree holds
//! has a name, and each accessor is taken to hand out the part of it that
//! its body reads; from that the walk is proved to read off all of it.
//! What the parser makes of a text has a name too. Nothing is assumed of
//! what that is, and the generators are proved for every declaration
//! whatever.
//!
//! `syn` and `proc-macro2` are built without their bridge to the compiler,
//! so that in every process it is `proc-macro2`'s own lexer and printer that
//! serve, and the same text parses to the same item.
//!
//! The parser stops the program on a literal that it does not know, so it is
//! handed only text that is clear of such literals ([`is_clear_spec`]): the
//! source as a whole before it is parsed, and the arguments of an attribute
//! before they are read. Of the attributes only those keyed `builder` or
//! `debug` are read at all.

use vstd::prelude::*;
use crate::attribute::is_keyed;
use crate::diagnostic::{Diagnostic, DiagnosticView, ErrorKind, Span};
use crate::model::{
    option_view,
    views,
    DeclShape,
    Declaration,
    DeclarationView,
    FieldAttribute,
    FieldAttributeView,
    GenericKind,
    InnerType,
    InnerTypeView,
    Lit,
    LitView,
    MetaItem,
    MetaItemView,
    NameValue,
    NameValueView,
    NamedField,
    NamedFieldView,
    NestedItem,
    NestedItemView,
    Parameter,
    ParameterView,
    Segment,
    SegmentView,
    TypeArg,
    TypeArgView,
    TypeExpr,
    TypeExprView,
    TypePath,
};
use crate::text::{is_clear, is_clear_spec, is_text};

verus! {

/// `syn::DeriveInput`: a parsed struct, enum or union.
#[verifier::external_type_specification]
#[verifier::external_body]
pub struct ExDeriveInput(syn::DeriveInput);

/// `syn::Error`: why a parse failed.
#[verifier::external_type_specification]
#[verifier::external_body]
pub struct ExError(syn::Error);

/// `syn::Field`: a field of a struct.
#[verifier::external_type_specification]
#[verifier::external_body]
pub struct ExField(syn::Field);

/// `syn::Type`: a type expression.
#[verifier::external_type_specification]
#[verifier::external_body]
pub struct ExType(syn::Type);

/// `syn::PathSegment`: one segment of a path, with its arguments.
#[verifier::external_type_specification]
#[verifier::external_body]
pub struct ExPathSegment(syn::PathSegment);

/// `syn::GenericArgument`: one argument between angle brackets.
#[verifier::external_type_specification]
#[verifier::external_body]
pub struct ExGenericArgument(syn::GenericArgument);

/// `syn::GenericParam`: one generic parameter of a declaration.
#[verifier::external_type_specification]
#[verifier::external_body]
pub struct ExGenericParam(syn::GenericParam);

/// `syn::Attribute`: an attribute, with its content still as tokens.
#[verifier::external_type_specification]
#[verifier::external_body]
pub struct ExAttribute(syn::Attribute);

/// `syn::Meta`: the structured content of an attribute.
#[verifier::external_type_specification]
#[verifier::external_body]
pub struct ExMeta(syn::Meta);

/// `syn::NestedMeta`: one entry of a meta list.
#[verifier::external_type_specification]
#[verifier::external_body]
pub struct ExNestedMeta(syn::NestedMeta);

/// `syn::MetaNameValue`: `path = literal`.
#[verifier::external_type_specification]
#[verifier::external_body]
pub struct ExMetaNameValue(syn::MetaNameValue);

/// What a `syn::MetaNameValue` holds: its key, where `syn::Path::get_ident`
/// gives one, and its literal, by `syn::LitStr::value` where it is a string.
pub uninterp spec fn name_value_contents(nv: &syn::MetaNameValue) -> NameValueView;

/// What a `syn::NestedMeta` holds: a name-value pair, or anything else.
pub uninterp spec fn nested_contents(entry: &syn::NestedMeta) -> NestedItemView;

/// What a `syn::Meta` holds: a bare path, a list with its entries, or a
/// name-value pair.
pub uninterp spec fn meta_contents(meta: &syn::Meta) -> MetaItemView;

/// What a `syn::Attribute` holds: the identifiers of its path, its
/// arguments as text, and its content as `syn::Attribute::parse_meta`
/// gives it.
pub uninterp spec fn attribute_contents(attr: &syn::Attribute) -> FieldAttributeView;

/// What a `syn::GenericArgument` holds: a type, by its text and head, or
/// anything else.
pub uninterp spec fn argument_contents(argument: &syn::GenericArgument) -> TypeArgView;

/// What a `syn::PathSegment` holds: its identifier and its angle-bracketed
/// arguments.
pub uninterp spec fn segment_contents(segment: &syn::PathSegment) -> SegmentView;

/// What a `syn::Type` holds: its tokens as text and, for a path type, the
/// path.
pub uninterp spec fn type_contents(ty: &syn::Type) -> TypeExprView;

/// What a `syn::Field` holds: its name, its type and its attributes.
pub uninterp spec fn field_contents(field: &syn::Field) -> NamedFieldView;

/// What a `syn::GenericParam` holds: its kind, its name and its bounds.
pub uninterp spec fn parameter_contents(param: &syn::GenericParam) -> ParameterView;

/// What a `syn::DeriveInput` holds: its name, shape, generic parameters,
/// `where` clause and named fields.
pub uninterp spec fn item_contents(item: &syn::DeriveInput) -> DeclarationView;

/// A type as it stands as a generic argument: its text, and the identifier
/// of its first path segment where it is a path.
pub open spec fn inner_spec(ty: TypeExprView) -> InnerTypeView {
    InnerTypeView {
        text: ty.text,
        head: match ty.path {
            Some(path) => if path.segments.len() > 0 {
                Some(path.segments[0].ident)
            } else {
                None
            },
            None => None,
        },
    }
}

/// The message for source text that holds a literal the parser cannot take.
pub const UNKNOWN_LITERAL: &'static str = "unsupported literal in the declaration";

/// Whether the content of an attribute is read: it is keyed `builder` or
/// `debug`, and its arguments are clear of literals that the parser cannot
/// take.
pub open spec fn is_read_spec(contents: FieldAttributeView) -> bool {
    &&& is_keyed(contents, "builder"@) || is_keyed(contents, "debug"@)
    &&& is_clear_spec(contents.tokens)
}

/// The attribute read off one that holds `contents`: its path and its
/// arguments, and its content where that is read.
pub open spec fn attribute_spec(contents: FieldAttributeView) -> FieldAttributeView {
    FieldAttributeView {
        path: contents.path,
        tokens: contents.tokens,
        meta: if is_read_spec(contents) {
            contents.meta
        } else {
            None
        },
    }
}

/// The field read off one that holds `contents`: its name, its type and
/// each of its attributes as read.
pub open spec fn field_spec(contents: NamedFieldView) -> NamedFieldView {
    NamedFieldView {
        ident: contents.ident,
        ty: contents.ty,
        attrs: Seq::new(contents.attrs.len(), |i: int| attribute_spec(contents.attrs[i])),
    }
}

/// The declaration read off an item that holds `contents`: its name,
/// shape, generic parameters and `where` clause, and each of its fields as
/// read, but fields only off a struct with named fields.
pub open spec fn declaration_spec(contents: DeclarationView) -> DeclarationView {
    DeclarationView {
        name: contents.name,
        shape: contents.shape,
        generics: contents.generics,
        where_clause: contents.where_clause,
        fields: if contents.shape is NamedStruct {
            Seq::new(contents.fields.len(), |i: int| field_spec(contents.fields[i]))
        } else {
            Seq::empty()
        },
    }
}

/// What `syn::parse_str` makes of a text as a `syn::DeriveInput`: what the
/// parsed item holds, or the message of the parser's error. Which texts
/// parse, and as what, is left open.
pub uninterp spec fn parse_outcome(source: Seq<char>) -> Result<DeclarationView, Seq<char>>;

/// What a `syn::Error` holds: its message.
pub uninterp spec fn error_contents(error: &syn::Error) -> Seq<char>;

/// `syn::parse_str` at `syn::DeriveInput`: parses the text of one struct,
/// enum or union. The outcome hangs on the text alone: the item or the
/// error is the one that the text parses to. The text must be clear of the
/// literals on which `syn::Lit::new` stops the program: a C string literal
/// and the compiler's error marker.
#[verifier::external_body]
fn parse_item(source: &str) -> (r: Result<syn::DeriveInput, syn::Error>)
    requires
        is_clear_spec(source@),
    ensures
        match r {
            Ok(item) => parse_outcome(source@) == Ok::<DeclarationView, Seq<char>>(
                item_contents(&item),
            ),
            Err(error) => parse_outcome(source@) == Err::<DeclarationView, Seq<char>>(
                error_contents(&error),
            ),
        },
{
    syn::parse_str::<syn::DeriveInput>(source)
}

/// `syn::Error`'s `to_string`: the message that the error holds.
#[verifier::external_body]
fn error_text(error: &syn::Error) -> (r: String)
    ensures
        r@ == error_contents(error),
{
    error.to_string()
}

/// The field `ident` of `syn::DeriveInput`, as text: the name that the item
/// holds.
#[verifier::external_body]
fn item_name(item: &syn::DeriveInput) -> (r: String)
    ensures
        r@ == item_contents(item).name,
{
    item.ident.to_string()
}

/// Tells the variants of `syn::Data` apart, and for a struct those of
/// `syn::Fields`: the shape that the item holds.
#[verifier::external_body]
fn item_shape(item: &syn::DeriveInput) -> (r: DeclShape)
    ensures
        r == item_contents(item).shape,
{
    match &item.data {
        syn::Data::Struct(data) => match &data.fields {
            syn::Fields::Named(_) => DeclShape::NamedStruct,
            syn::Fields::Unnamed(_) => DeclShape::TupleStruct,
            syn::Fields::Unit => DeclShape::UnitStruct,
        },
        syn::Data::Enum(_) => DeclShape::Enum,
        syn::Data::Union(_) => DeclShape::Union,
    }
}

/// The fields of `syn::FieldsNamed` in order, none for any other item: the
/// fields that the item holds, one for one.
#[verifier::external_body]
fn item_fields(item: &syn::DeriveInput) -> (r: Vec<&syn::Field>)
    ensures
        r@.len() == item_contents(item).fields.len(),
        forall|i: int|
            0 <= i < r@.len() ==> field_contents(#[trigger] r@[i]) == item_contents(item).fields[i],
{
    match &item.data {
        syn::Data::Struct(data) => match &data.fields {
            syn::Fields::Named(fields) => fields.named.iter().collect(),
            _ => Vec::new(),
        },
        _ => Vec::new(),
    }
}

/// The field `params` of `syn::Generics`, in order: the generic parameters
/// that the item holds, one for one.
#[verifier::external_body]
fn item_generics(item: &syn::DeriveInput) -> (r: Vec<&syn::GenericParam>)
    ensures
        r@.len() == item_contents(item).generics.len(),
        forall|i: int|
            0 <= i < r@.len() ==> parameter_contents(#[trigger] r@[i]) == item_contents(
                item,
            ).generics[i],
{
    item.generics.params.iter().collect()
}

/// The field `where_clause` of `syn::Generics`, printed by `quote`; empty
/// where there is none: the `where` clause that the item holds.
#[verifier::external_body]
fn item_where_clause(item: &syn::DeriveInput) -> (r: String)
    ensures
        r@ == item_contents(item).where_clause,
{
    quote::ToTokens::to_token_stream(&item.generics.where_clause).to_string()
}

/// Tells the variants of `syn::GenericParam` apart: the kind that the
/// parameter holds.
#[verifier::external_body]
fn generic_kind(param: &syn::GenericParam) -> (r: GenericKind)
    ensures
        r == parameter_contents(param).kind,
{
    match param {
        syn::GenericParam::Type(_) => GenericKind::Type,
        syn::GenericParam::Lifetime(_) => GenericKind::Lifetime,
        syn::GenericParam::Const(_) => GenericKind::Const,
    }
}

/// The name of a `syn::GenericParam`, as text: the field `ident` of a type
/// or const parameter, the field `lifetime` of a lifetime definition. It is
/// the name that the parameter holds.
#[verifier::external_body]
fn generic_name(param: &syn::GenericParam) -> (r: String)
    ensures
        r@ == parameter_contents(param).name,
{
    match param {
        syn::GenericParam::Type(p) => p.ident.to_string(),
        syn::GenericParam::Lifetime(p) => p.lifetime.to_string(),
        syn::GenericParam::Const(p) => p.ident.to_string(),
    }
}

/// The field `bounds` of a type parameter or lifetime definition, or the
/// field `ty` of a const parameter, printed by `quote`: the bounds that the
/// parameter holds.
#[verifier::external_body]
fn generic_bounds(param: &syn::GenericParam) -> (r: String)
    ensures
        r@ == parameter_contents(param).bounds,
{
    match param {
        syn::GenericParam::Type(p) => quote::ToTokens::to_token_stream(&p.bounds).to_string(),
        syn::GenericParam::Lifetime(p) => quote::ToTokens::to_token_stream(&p.bounds).to_string(),
        syn::GenericParam::Const(p) => quote::ToTokens::to_token_stream(&p.ty).to_string(),
    }
}

/// The field `ident` of `syn::Field`, as text: the name that the field
/// holds, which is empty where it has none.
#[verifier::external_body]
fn field_name(field: &syn::Field) -> (r: Option<String>)
    ensures
        match r {
            Some(name) => field_contents(field).ident == name@,
            None => field_contents(field).ident == Seq::<char>::empty(),
        },
{
    match &field.ident {
        Some(ident) => Some(ident.to_string()),
        None => None,
    }
}

/// The field `ty` of `syn::Field`: the type that the field holds.
#[verifier::external_body]
fn field_type(field: &syn::Field) -> (r: &syn::Type)
    ensures
        type_contents(r) == field_contents(field).ty,
{
    &field.ty
}

/// The field `attrs` of `syn::Field`, in order: the attributes that the
/// field holds, one for one.
#[verifier::external_body]
fn field_attrs(field: &syn::Field) -> (r: Vec<&syn::Attribute>)
    ensures
        r@.len() == field_contents(field).attrs.len(),
        forall|i: int|
            0 <= i < r@.len() ==> attribute_contents(#[trigger] r@[i]) == field_contents(
                field,
            ).attrs[i],
{
    field.attrs.iter().collect()
}

/// A `syn::Type` printed by `quote`: its tokens as text, which is the text
/// that the type holds.
#[verifier::external_body]
fn type_text(ty: &syn::Type) -> (r: String)
    ensures
        r@ == type_contents(ty).text,
{
    quote::ToTokens::to_token_stream(ty).to_string()
}

/// The segments of the path of a `syn::Type::Path`, in order; `None` for
/// any other type. They are the segments of the path that the type holds,
/// one for one, and only a path type holds a path.
#[verifier::external_body]
fn type_segments(ty: &syn::Type) -> (r: Option<Vec<&syn::PathSegment>>)
    ensures
        match r {
            Some(list) => type_contents(ty).path matches Some(path) && list@.len()
                == path.segments.len() && forall|i: int|
                0 <= i < list@.len() ==> segment_contents(#[trigger] list@[i]) == path.segments[i],
            None => type_contents(ty).path is None,
        },
{
    match ty {
        syn::Type::Path(p) => Some(p.path.segments.iter().collect()),
        _ => None,
    }
}

/// Whether a `syn::Type::Path` has its field `qself` set: whether the type
/// holds a path, and a qualified one.
#[verifier::external_body]
fn type_is_qualified(ty: &syn::Type) -> (r: bool)
    ensures
        r == (type_contents(ty).path matches Some(path) && path.has_qself),
{
    match ty {
        syn::Type::Path(p) => p.qself.is_some(),
        _ => false,
    }
}

/// The field `ident` of `syn::PathSegment`, as text: the identifier that
/// the segment holds.
#[verifier::external_body]
fn segment_ident(segment: &syn::PathSegment) -> (r: String)
    ensures
        r@ == segment_contents(segment).ident,
{
    segment.ident.to_string()
}

/// The arguments of `syn::PathArguments::AngleBracketed`, in order; `None`
/// for a segment with parenthesized arguments or with none. They are the
/// arguments that the segment holds, one for one.
#[verifier::external_body]
fn segment_args(segment: &syn::PathSegment) -> (r: Option<Vec<&syn::GenericArgument>>)
    ensures
        match r {
            Some(list) => segment_contents(segment).args matches Some(args) && list@.len()
                == args.len() && forall|i: int|
                0 <= i < list@.len() ==> argument_contents(#[trigger] list@[i]) == args[i],
            None => segment_contents(segment).args is None,
        },
{
    match &segment.arguments {
        syn::PathArguments::AngleBracketed(list) => Some(list.args.iter().collect()),
        _ => None,
    }
}

/// The type of `syn::GenericArgument::Type`; `None` for any other argument.
/// The argument holds that type as it stands as an argument, and anything
/// else as such.
#[verifier::external_body]
fn argument_type(argument: &syn::GenericArgument) -> (r: Option<&syn::Type>)
    ensures
        match r {
            Some(ty) => argument_contents(argument) == TypeArgView::Type(
                inner_spec(type_contents(ty)),
            ),
            None => argument_contents(argument) == TypeArgView::Other,
        },
{
    match argument {
        syn::GenericArgument::Type(ty) => Some(ty),
        _ => None,
    }
}

/// The segments of the field `path` of `syn::Attribute`, in order: their
/// identifiers are the path that the attribute holds, one for one.
#[verifier::external_body]
fn attr_segments(attr: &syn::Attribute) -> (r: Vec<&syn::PathSegment>)
    ensures
        r@.len() == attribute_contents(attr).path.len(),
        forall|i: int|
            0 <= i < r@.len() ==> segment_contents(#[trigger] r@[i]).ident == attribute_contents(
                attr,
            ).path[i],
{
    attr.path.segments.iter().collect()
}

/// The field `tokens` of `syn::Attribute`, printed: the arguments that the
/// attribute holds, as text.
#[verifier::external_body]
fn attr_tokens(attr: &syn::Attribute) -> (r: String)
    ensures
        r@ == attribute_contents(attr).tokens,
{
    attr.tokens.to_string()
}

/// `syn::Attribute::parse_meta`: the attribute's content as a meta item;
/// `None` where it does not parse as one. It is the content that the
/// attribute holds. The arguments must be clear of the literals on which
/// `syn::Lit::new` stops the program.
#[verifier::external_body]
fn attr_meta(attr: &syn::Attribute) -> (r: Option<syn::Meta>)
    requires
        is_clear_spec(attribute_contents(attr).tokens),
    ensures
        match r {
            Some(meta) => attribute_contents(attr).meta == Some(meta_contents(&meta)),
            None => attribute_contents(attr).meta is None,
        },
{
    attr.parse_meta().ok()
}

/// The field `nested` of `syn::Meta::List`, in order; `None` for any other
/// meta item. They are the entries of the list that the meta item holds, one
/// for one, and only a list holds entries.
#[verifier::external_body]
fn meta_entries(meta: &syn::Meta) -> (r: Option<Vec<&syn::NestedMeta>>)
    ensures
        match r {
            Some(list) => meta_contents(meta) matches MetaItemView::List(entries) && list@.len()
                == entries.len() && forall|i: int|
                0 <= i < list@.len() ==> nested_contents(#[trigger] list@[i]) == entries[i],
            None => !(meta_contents(meta) is List),
        },
{
    match meta {
        syn::Meta::List(list) => Some(list.nested.iter().collect()),
        _ => None,
    }
}

/// The content of `syn::Meta::NameValue`; `None` for any other meta item.
/// It is the pair that the meta item holds, and only a name-value item
/// holds a pair.
#[verifier::external_body]
fn meta_name_value(meta: &syn::Meta) -> (r: Option<&syn::MetaNameValue>)
    ensures
        match r {
            Some(nv) => meta_contents(meta) == MetaItemView::NameValue(name_value_contents(nv)),
            None => !(meta_contents(meta) is NameValue),
        },
{
    match meta {
        syn::Meta::NameValue(nv) => Some(nv),
        _ => None,
    }
}

/// The content of a `syn::NestedMeta::Meta` that holds a
/// `syn::Meta::NameValue`; `None` for any other entry. It is the pair that
/// the entry holds, and any other entry holds nothing that is read.
#[verifier::external_body]
fn nested_name_value(entry: &syn::NestedMeta) -> (r: Option<&syn::MetaNameValue>)
    ensures
        match r {
            Some(nv) => nested_contents(entry) == NestedItemView::NameValue(
                name_value_contents(nv),
            ),
            None => nested_contents(entry) == NestedItemView::Other,
        },
{
    match entry {
        syn::NestedMeta::Meta(syn::Meta::NameValue(nv)) => Some(nv),
        _ => None,
    }
}

/// `syn::Path::get_ident` on the field `path` of `syn::MetaNameValue`, as
/// text: the key where it is a single bare identifier. It is the key that
/// the pair holds.
#[verifier::external_body]
fn name_value_key(nv: &syn::MetaNameValue) -> (r: Option<String>)
    ensures
        option_view(r) == name_value_contents(nv).key,
{
    match nv.path.get_ident() {
        Some(ident) => Some(ident.to_string()),
        None => None,
    }
}

/// `syn::LitStr::value` on the field `lit` of `syn::MetaNameValue`: the
/// unescaped content of a string literal; `None` for any other literal. It
/// is the literal that the pair holds.
#[verifier::external_body]
fn name_value_string(nv: &syn::MetaNameValue) -> (r: Option<String>)
    ensures
        match r {
            Some(s) => name_value_contents(nv).value == LitView::Str(s@),
            None => name_value_contents(nv).value == LitView::Other,
        },
{
    match &nv.lit {
        syn::Lit::Str(s) => Some(s.value()),
        _ => None,
    }
}

/// Reads a type as it stands as a generic argument: its text and its head.
fn lower_inner(ty: &syn::Type) -> (r: InnerType)
    ensures
        r@ == inner_spec(type_contents(ty)),
{
    let head = match type_segments(ty) {
        Some(segments) => if segments.len() > 0 {
            Some(segment_ident(segments[0]))
        } else {
            None
        },
        None => None,
    };
    InnerType { text: type_text(ty), head }
}

/// Reads a path segment: its identifier and each of its angle-bracketed
/// arguments, in order.
fn lower_segment(segment: &syn::PathSegment) -> (r: Segment)
    ensures
        r@ == segment_contents(segment),
{
    let args = match segment_args(segment) {
        Some(list) => {
            let ghost expected = segment_contents(segment).args->Some_0;
            let mut args: Vec<TypeArg> = Vec::new();
            let mut i: usize = 0;
            while i < list.len()
                invariant
                    i <= list.len(),
                    args@.len() == i,
                    list@.len() == expected.len(),
                    forall|k: int|
                        0 <= k < list@.len() ==> argument_contents(#[trigger] list@[k])
                            == expected[k],
                    forall|k: int| 0 <= k < i ==> (#[trigger] args@[k])@ == expected[k],
                decreases list.len() - i,
            {
                match argument_type(list[i]) {
                    Some(ty) => args.push(TypeArg::Type(lower_inner(ty))),
                    None => args.push(TypeArg::Other),
                }
                i = i + 1;
            }
            assert(views(args@) =~= expected);
            Some(args)
        },
        None => None,
    };
    Segment { ident: segment_ident(segment), args }
}

/// Reads a type: its text and, for a path type, each segment of the path in
/// order.
fn lower_type(ty: &syn::Type) -> (r: TypeExpr)
    ensures
        r@ == type_contents(ty),
{
    let path = match type_segments(ty) {
        Some(list) => {
            let ghost expected = type_contents(ty).path->Some_0.segments;
            let mut segments: Vec<Segment> = Vec::new();
            let mut i: usize = 0;
            while i < list.len()
                invariant
                    i <= list.len(),
                    segments@.len() == i,
                    list@.len() == expected.len(),
                    forall|k: int|
                        0 <= k < list@.len() ==> segment_contents(#[trigger] list@[k])
                            == expected[k],
                    forall|k: int| 0 <= k < i ==> (#[trigger] segments@[k])@ == expected[k],
                decreases list.len() - i,
            {
                segments.push(lower_segment(list[i]));
                i = i + 1;
            }
            assert(views(segments@) =~= expected);
            Some(TypePath { has_qself: type_is_qualified(ty), segments })
        },
        None => None,
    };
    TypeExpr { text: type_text(ty), path }
}

/// Reads a name-value pair: its key and its literal.
fn lower_name_value(nv: &syn::MetaNameValue) -> (r: NameValue)
    ensures
        r@ == name_value_contents(nv),
{
    let value = match name_value_string(nv) {
        Some(s) => Lit::Str(s),
        None => Lit::Other,
    };
    NameValue { key: name_value_key(nv), value }
}

/// Reads a meta item: a name-value pair, a list with each of its entries in
/// order, or a bare path.
fn lower_meta(meta: &syn::Meta) -> (r: MetaItem)
    ensures
        r@ == meta_contents(meta),
{
    if let Some(nv) = meta_name_value(meta) {
        return MetaItem::NameValue(lower_name_value(nv));
    }
    match meta_entries(meta) {
        Some(list) => {
            let ghost expected = meta_contents(meta)->List_0;
            let mut entries: Vec<NestedItem> = Vec::new();
            let mut i: usize = 0;
            while i < list.len()
                invariant
                    i <= list.len(),
                    entries@.len() == i,
                    list@.len() == expected.len(),
                    forall|k: int|
                        0 <= k < list@.len() ==> nested_contents(#[trigger] list@[k])
                            == expected[k],
                    forall|k: int| 0 <= k < i ==> (#[trigger] entries@[k])@ == expected[k],
                decreases list.len() - i,
            {
                match nested_name_value(list[i]) {
                    Some(nv) => entries.push(NestedItem::NameValue(lower_name_value(nv))),
                    None => entries.push(NestedItem::Other),
                }
                i = i + 1;
            }
            assert(views(entries@) =~= expected);
            MetaItem::List(entries)
        },
        None => MetaItem::Path,
    }
}

/// Reads an attribute: the identifiers of its path in order, its arguments
/// as text, and its content where the attribute is keyed `builder` or
/// `debug` and the arguments are clear. The content of any other attribute
/// is left unread.
fn lower_attr(attr: &syn::Attribute) -> (r: FieldAttribute)
    ensures
        r@ == attribute_spec(attribute_contents(attr)),
{
    let list = attr_segments(attr);
    let ghost expected = attribute_contents(attr).path;
    let mut path: Vec<String> = Vec::new();
    let mut i: usize = 0;
    while i < list.len()
        invariant
            i <= list.len(),
            path@.len() == i,
            list@.len() == expected.len(),
            forall|k: int|
                0 <= k < list@.len() ==> segment_contents(#[trigger] list@[k]).ident == expected[k],
            forall|k: int| 0 <= k < i ==> (#[trigger] path@[k])@ == expected[k],
        decreases list.len() - i,
    {
        path.push(segment_ident(list[i]));
        i = i + 1;
    }
    assert(views(path@) =~= expected);
    let tokens = attr_tokens(attr);
    let keyed = path.len() == 1 && (is_text(&path[0], "builder") || is_text(&path[0], "debug"));
    let meta = if keyed && is_clear(tokens.as_str()) {
        match attr_meta(attr) {
            Some(meta) => Some(lower_meta(&meta)),
            None => None,
        }
    } else {
        None
    };
    FieldAttribute { path, tokens, meta }
}

/// Reads a field: its name, its type and each of its attributes in order.
fn lower_field(field: &syn::Field) -> (r: NamedField)
    ensures
        r@ == field_spec(field_contents(field)),
{
    let ident = match field_name(field) {
        Some(name) => name,
        None => String::new(),
    };
    let list = field_attrs(field);
    let ghost held = field_contents(field).attrs;
    let mut attrs: Vec<FieldAttribute> = Vec::new();
    let mut i: usize = 0;
    while i < list.len()
        invariant
            i <= list.len(),
            attrs@.len() == i,
            list@.len() == held.len(),
            forall|k: int|
                0 <= k < list@.len() ==> attribute_contents(#[trigger] list@[k]) == held[k],
            forall|k: int| 0 <= k < i ==> (#[trigger] attrs@[k])@ == attribute_spec(held[k]),
        decreases list.len() - i,
    {
        attrs.push(lower_attr(list[i]));
        i = i + 1;
    }
    assert(views(attrs@) =~= field_spec(field_contents(field)).attrs);
    NamedField { ident, ty: lower_type(field_type(field)), attrs }
}

/// Reads a parsed item off into a [`Declaration`]: its name, shape, generic
/// parameters and `where` clause, and its fields where it is a struct with
/// named fields. Of the attributes on a field only those keyed `builder` or
/// `debug` have their content read, and only where the arguments hold no
/// literal that the parser cannot take; see [`attribute_spec`].
pub fn lower(item: &syn::DeriveInput) -> (decl: Declaration)
    ensures
        decl@ == declaration_spec(item_contents(item)),
{
    let shape = item_shape(item);
    let params = item_generics(item);
    let ghost expected = item_contents(item).generics;
    let mut generics: Vec<Parameter> = Vec::new();
    let mut i: usize = 0;
    while i < params.len()
        invariant
            i <= params.len(),
            generics@.len() == i,
            params@.len() == expected.len(),
            forall|k: int|
                0 <= k < params@.len() ==> parameter_contents(#[trigger] params@[k])
                    == expected[k],
            forall|k: int| 0 <= k < i ==> (#[trigger] generics@[k])@ == expected[k],
        decreases params.len() - i,
    {
        let param = params[i];
        generics.push(
            Parameter {
                kind: generic_kind(param),
                name: generic_name(param),
                bounds: generic_bounds(param),
            },
        );
        i = i + 1;
    }
    assert(views(generics@) =~= expected);
    let mut fields: Vec<NamedField> = Vec::new();
    match shape {
        DeclShape::NamedStruct => {
            let list = item_fields(item);
            let ghost held = item_contents(item).fields;
            let mut j: usize = 0;
            while j < list.len()
                invariant
                    j <= list.len(),
                    fields@.len() == j,
                    list@.len() == held.len(),
                    forall|k: int|
                        0 <= k < list@.len() ==> field_contents(#[trigger] list@[k]) == held[k],
                    forall|k: int| 0 <= k < j ==> (#[trigger] fields@[k])@ == field_spec(held[k]),
                decreases list.len() - j,
            {
                fields.push(lower_field(list[j]));
                j = j + 1;
            }
            assert(views(fields@) =~= declaration_spec(item_contents(item)).fields);
        },
        _ => {
            assert(views(fields@) =~= Seq::<NamedFieldView>::empty());
        },
    }
    Declaration {
        name: item_name(item),
        shape,
        generics,
        where_clause: item_where_clause(item),
        fields,
    }
}

/// The diagnostic for source text that is not clear of literals the parser
/// cannot take.
pub open spec fn unknown_literal() -> DiagnosticView {
    DiagnosticView {
        kind: ErrorKind::UnsupportedShape,
        message: UNKNOWN_LITERAL@,
        span: Span::Declaration,
    }
}

/// What parsing yields for `source`:
///
/// - text that is not clear of literals the parser cannot take is refused
///   before it reaches the parser;
/// - text that the parser refuses is refused with the parser's message;
/// - any other text yields the declaration read off the item that it parses
///   to, whatever the item's shape.
///
/// Every failure is an unsupported shape whose span is the whole input.
pub open spec fn parse_declaration_spec(source: Seq<char>) -> Result<
    DeclarationView,
    DiagnosticView,
> {
    if !is_clear_spec(source) {
        Err(unknown_literal())
    } else {
        match parse_outcome(source) {
            Ok(contents) => Ok(declaration_spec(contents)),
            Err(message) => Err(
                DiagnosticView {
                    kind: ErrorKind::UnsupportedShape,
                    message,
                    span: Span::Declaration,
                },
            ),
        }
    }
}

/// Parses the source text of one struct, enum or union into a
/// [`Declaration`].
///
/// Text that is not clear of literals the parser cannot take is refused
/// before it reaches the parser. Text that the parser refuses is refused
/// with the parser's own message. Clear text that parses yields the
/// declaration that [`lower`] reads off the parsed item.
///
/// A struct of any kind, an enum and a union all parse, and the declaration
/// keeps the item's shape. To refuse what is no struct with named fields is
/// left to the generators, each of which does so before it looks at any
/// field and with a message of its own.
pub fn parse_declaration(source: &str) -> (r: Result<Declaration, Diagnostic>)
    ensures
        match r {
            Ok(decl) => parse_declaration_spec(source@) == Ok::<DeclarationView, DiagnosticView>(
                decl@,
            ),
            Err(d) => parse_declaration_spec(source@) == Err::<DeclarationView, DiagnosticView>(
                d@,
            ),
        },
        r matches Ok(decl) ==> (parse_outcome(source@) matches Ok(contents) && decl@.shape
            == contents.shape),
        r matches Err(d) ==> d@.kind == ErrorKind::UnsupportedShape && d@.span
            == Span::Declaration,
{
    if !is_clear(source) {
        return Err(
            Diagnostic::new(ErrorKind::UnsupportedShape, UNKNOWN_LITERAL, Span::Declaration),
        );
    }
    match parse_item(source) {
        Ok(item) => Ok(lower(&item)),
        Err(error) => {
            let message = error_text(&error);
            Err(Diagnostic::new(ErrorKind::UnsupportedShape, message.as_str(), Span::Declaration))
        },
    }
}

} // verus!
