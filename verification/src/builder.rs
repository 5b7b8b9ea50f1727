//! The builder generator: from a struct declaration to the source of its
//! companion builder type.
//!
//! For `struct Name { .. }` the generated source declares `NameBuilder` with
//! one field per field of `Name`, one setter per field, a finishing `build`
//! and the factory `Name::builder`.

use vstd::prelude::*;
use vstd::string::*;
use crate::diagnostic::{
    unsupported,
    unsupported_spec,
    ErrorKind,
    GeneratedUnit,
    GeneratedUnitView,
    Span,
};
use crate::model::{views, Declaration, DeclarationView, NamedField, NamedFieldView};
use crate::shape::{classify_all, classify_all_spec, FieldShape, FieldShapeView};

verus! {

/// The message for a struct without named fields.
pub const NO_TUPLE_STRUCTS: &'static str = "derive(Builder) doesn't support tuple structs";

/// The message for an item that is no struct.
pub const ONLY_STRUCTS: &'static str = "derive(Builder) only support structs";

/// The five runs of per-field lines in the generated source.
#[derive(Clone, Copy, Debug, PartialEq, Eq, Structural)]
pub enum Section {
    /// The builder type's field declarations.
    Declare,
    /// The setters that store one value.
    Setter,
    /// The setters that append one element.
    EachSetter,
    /// The field initializers of the finishing operation.
    Clause,
    /// The field initializers of the factory.
    Default,
}

/// The type under which the builder holds a field: an optional or repeated
/// field keeps its declared type, any other is wrapped in an option.
pub open spec fn storage_type_spec(field: NamedFieldView, shape: FieldShapeView) -> Seq<char> {
    match shape {
        FieldShapeView::Optional(_) | FieldShapeView::Repeated(_, _) => field.ty.text,
        _ => "std::option::Option<"@ + field.ty.text + ">"@,
    }
}

/// A setter named `name` that takes one `param` and runs `body` on the
/// builder, which it hands back for chaining. `body` is cut in two around the
/// one place where it names the field: `head`, the field, `tail`.
pub open spec fn setter_spec(
    name: Seq<char>,
    param: Seq<char>,
    field: Seq<char>,
    head: Seq<char>,
    tail: Seq<char>,
) -> Seq<char> {
    "    pub fn "@ + name + "(&mut self, "@ + name + ": "@ + param
        + ") -> &mut Self {\n        self."@ + field + head + name + tail
        + "\n        self\n    }\n"@
}

/// What a field contributes to a section.
pub open spec fn section_line_spec(
    section: Section,
    field: NamedFieldView,
    shape: FieldShapeView,
) -> Seq<char> {
    let id = field.ident;
    match section {
        Section::Declare => "    "@ + id + ": "@ + storage_type_spec(field, shape) + ",\n"@,
        Section::Setter => match shape {
            FieldShapeView::Plain(ty) => setter_spec(id, ty, id, " = Some("@, ");"@),
            FieldShapeView::PhantomMarker(_) => setter_spec(
                id,
                field.ty.text,
                id,
                " = Some("@,
                ");"@,
            ),
            FieldShapeView::Optional(inner) => setter_spec(id, inner, id, " = Some("@, ");"@),
            FieldShapeView::Repeated(_, _) => Seq::empty(),
        },
        Section::EachSetter => match shape {
            FieldShapeView::Repeated(inner, each) => setter_spec(
                each,
                inner,
                id,
                ".push("@,
                ");"@,
            ),
            _ => Seq::empty(),
        },
        Section::Clause => match shape {
            FieldShapeView::Optional(_) | FieldShapeView::Repeated(_, _) => "            "@ + id
                + ": self."@ + id + ".clone(),\n"@,
            _ => "            "@ + id + ": self."@ + id
                + ".clone().ok_or(format!(\"{} field is missing\", stringify!("@ + id
                + ")))?,\n"@,
        },
        Section::Default => match shape {
            FieldShapeView::Repeated(_, _) => "            "@ + id + ": std::vec::Vec::new(),\n"@,
            _ => "            "@ + id + ": std::option::Option::None,\n"@,
        },
    }
}

/// A section over the first `n` fields, in declaration order.
pub open spec fn section_spec(
    section: Section,
    fields: Seq<NamedFieldView>,
    shapes: Seq<FieldShapeView>,
    n: int,
) -> Seq<char>
    decreases n,
{
    if n <= 0 {
        Seq::empty()
    } else {
        section_spec(section, fields, shapes, n - 1) + section_line_spec(
            section,
            fields[n - 1],
            shapes[n - 1],
        )
    }
}

/// The generated source for a struct `name` with the given fields and their
/// shapes.
pub open spec fn source_spec(
    name: Seq<char>,
    fields: Seq<NamedFieldView>,
    shapes: Seq<FieldShapeView>,
) -> Seq<char> {
    let n = fields.len() as int;
    "pub struct "@ + name + "Builder {\n"@ + section_spec(Section::Declare, fields, shapes, n)
        + "}\n\nimpl "@ + name + "Builder {\n"@ + section_spec(Section::Setter, fields, shapes, n)
        + section_spec(Section::EachSetter, fields, shapes, n)
        + "    pub fn build(&mut self) -> std::result::Result<"@ + name
        + ", ::std::boxed::Box<dyn ::std::error::Error>> {\n        std::result::Result::Ok("@
        + name + " {\n"@ + section_spec(Section::Clause, fields, shapes, n)
        + "        })\n    }\n}\n\nimpl "@ + name + " {\n    pub fn builder() -> "@ + name
        + "Builder {\n        "@ + name + "Builder {\n"@ + section_spec(
        Section::Default,
        fields,
        shapes,
        n,
    ) + "        }\n    }\n}\n"@
}

/// What the generator hands back for `input`: the diagnostic for its shape
/// where it is no struct with named fields; else the diagnostic of the first
/// field that cannot be classified; else the builder's source.
pub open spec fn derive_spec(input: DeclarationView) -> GeneratedUnitView {
    match unsupported_spec(input.shape, NO_TUPLE_STRUCTS@, ONLY_STRUCTS@) {
        Some(d) => GeneratedUnitView::Diagnostic(d),
        None => match classify_all_spec(input.fields, input.fields.len() as int) {
            Err(d) => GeneratedUnitView::Diagnostic(d),
            Ok(shapes) => GeneratedUnitView::Source(source_spec(input.name, input.fields, shapes)),
        },
    }
}

fn storage_type(field: &NamedField, shape: &FieldShape) -> (s: String)
    ensures
        s@ == storage_type_spec(field@, shape@),
{
    match shape {
        FieldShape::Optional(_) | FieldShape::Repeated(_, _) => field.ty.text.clone(),
        _ => {
            let mut s = String::from_str("std::option::Option<");
            s.append(field.ty.text.as_str());
            s.append(">");
            s
        },
    }
}

fn setter(name: &str, param: &str, field: &str, head: &str, tail: &str) -> (s: String)
    ensures
        s@ == setter_spec(name@, param@, field@, head@, tail@),
{
    let mut s = String::from_str("    pub fn ");
    s.append(name);
    s.append("(&mut self, ");
    s.append(name);
    s.append(": ");
    s.append(param);
    s.append(") -> &mut Self {\n        self.");
    s.append(field);
    s.append(head);
    s.append(name);
    s.append(tail);
    s.append("\n        self\n    }\n");
    s
}

/// Renders what a field contributes to a section.
pub fn section_line(section: Section, field: &NamedField, shape: &FieldShape) -> (s: String)
    ensures
        s@ == section_line_spec(section, field@, shape@),
{
    let id = field.ident.as_str();
    match section {
        Section::Declare => {
            let ty = storage_type(field, shape);
            let mut s = String::from_str("    ");
            s.append(id);
            s.append(": ");
            s.append(ty.as_str());
            s.append(",\n");
            s
        },
        Section::Setter => match shape {
            FieldShape::Plain(ty) => setter(id, ty.as_str(), id, " = Some(", ");"),
            FieldShape::PhantomMarker(_) => setter(
                id,
                field.ty.text.as_str(),
                id,
                " = Some(",
                ");",
            ),
            FieldShape::Optional(inner) => setter(id, inner.as_str(), id, " = Some(", ");"),
            FieldShape::Repeated(_, _) => String::new(),
        },
        Section::EachSetter => match shape {
            FieldShape::Repeated(inner, each) => setter(
                each.as_str(),
                inner.as_str(),
                id,
                ".push(",
                ");",
            ),
            _ => String::new(),
        },
        Section::Clause => {
            let mut s = String::from_str("            ");
            s.append(id);
            s.append(": self.");
            s.append(id);
            match shape {
                FieldShape::Optional(_) | FieldShape::Repeated(_, _) => {
                    s.append(".clone(),\n");
                },
                _ => {
                    s.append(".clone().ok_or(format!(\"{} field is missing\", stringify!(");
                    s.append(id);
                    s.append(")))?,\n");
                },
            }
            s
        },
        Section::Default => {
            let mut s = String::from_str("            ");
            s.append(id);
            match shape {
                FieldShape::Repeated(_, _) => {
                    s.append(": std::vec::Vec::new(),\n");
                },
                _ => {
                    s.append(": std::option::Option::None,\n");
                },
            }
            s
        },
    }
}

/// Renders a section over all fields, in declaration order.
pub fn section_text(section: Section, fields: &Vec<NamedField>, shapes: &Vec<FieldShape>) -> (s: String)
    requires
        shapes@.len() == fields@.len(),
    ensures
        s@ == section_spec(section, views(fields@), views(shapes@), fields@.len() as int),
{
    let mut s = String::new();
    let mut i: usize = 0;
    while i < fields.len()
        invariant
            i <= fields.len(),
            shapes@.len() == fields@.len(),
            s@ == section_spec(section, views(fields@), views(shapes@), i as int),
        decreases fields.len() - i,
    {
        assert(views(fields@)[i as int] == fields@[i as int]@);
        assert(views(shapes@)[i as int] == shapes@[i as int]@);
        let piece = section_line(section, &fields[i], &shapes[i]);
        s.append(piece.as_str());
        i = i + 1;
    }
    s
}

/// Renders the builder's source for a struct `name` whose fields have the
/// given shapes.
pub fn source(name: &str, fields: &Vec<NamedField>, shapes: &Vec<FieldShape>) -> (s: String)
    requires
        shapes@.len() == fields@.len(),
    ensures
        s@ == source_spec(name@, views(fields@), views(shapes@)),
{
    let declare = section_text(Section::Declare, fields, shapes);
    let setters = section_text(Section::Setter, fields, shapes);
    let each_setters = section_text(Section::EachSetter, fields, shapes);
    let clauses = section_text(Section::Clause, fields, shapes);
    let defaults = section_text(Section::Default, fields, shapes);
    let mut s = String::from_str("pub struct ");
    s.append(name);
    s.append("Builder {\n");
    s.append(declare.as_str());
    s.append("}\n\nimpl ");
    s.append(name);
    s.append("Builder {\n");
    s.append(setters.as_str());
    s.append(each_setters.as_str());
    s.append("    pub fn build(&mut self) -> std::result::Result<");
    s.append(name);
    s.append(", ::std::boxed::Box<dyn ::std::error::Error>> {\n        std::result::Result::Ok(");
    s.append(name);
    s.append(" {\n");
    s.append(clauses.as_str());
    s.append("        })\n    }\n}\n\nimpl ");
    s.append(name);
    s.append(" {\n    pub fn builder() -> ");
    s.append(name);
    s.append("Builder {\n        ");
    s.append(name);
    s.append("Builder {\n");
    s.append(defaults.as_str());
    s.append("        }\n    }\n}\n");
    s
}

/// Generates the companion builder of `input`.
///
/// A declaration that is no struct with named fields is refused before any
/// field is looked at. Then the fields are classified in declaration order,
/// and the first malformed `builder` attribute ends the pass with its
/// diagnostic alone. Only where every field has a shape is source produced.
pub fn derive(input: &Declaration) -> (unit: GeneratedUnit)
    ensures
        unit@ == derive_spec(input@),
        !(input.shape is NamedStruct) ==> (unit@ matches GeneratedUnitView::Diagnostic(d)
            && d.kind == ErrorKind::UnsupportedShape && d.span == Span::Declaration),
{
    if let Some(d) = unsupported(input.shape, NO_TUPLE_STRUCTS, ONLY_STRUCTS) {
        return GeneratedUnit::Diagnostic(d);
    }
    match classify_all(&input.fields) {
        Err(d) => GeneratedUnit::Diagnostic(d),
        Ok(shapes) => GeneratedUnit::Source(source(input.name.as_str(), &input.fields, &shapes)),
    }
}

} // verus!
