//! The `Debug` generator: from a struct declaration to the source of a
//! struct-style `std::fmt::Debug` implementation.
//!
//! Each field is printed under its own name, with the format that its
//! `debug = ".."` attribute gives or else with `{:?}`. Every type parameter
//! is bound by `std::fmt::Debug`, but for one that only serves as the witness
//! of a `PhantomData` field.

use vstd::prelude::*;
use vstd::string::*;
use crate::attribute::{direct_value, direct_value_spec, find_attribute, find_attribute_spec};
use crate::diagnostic::{
    unsupported,
    unsupported_spec,
    AttributePart,
    Diagnostic,
    DiagnosticView,
    ErrorKind,
    GeneratedUnit,
    GeneratedUnitView,
    Span,
};
use crate::model::{
    views,
    Declaration,
    DeclarationView,
    GenericKind,
    NamedField,
    NamedFieldView,
    Parameter,
    ParameterView,
};
use crate::shape::{
    classify_spec,
    is_stored,
    phantom_witness,
    phantom_witness_spec,
    stored,
    FieldShapeView,
};
use crate::text::{literal, literal_spec};

verus! {

/// The message for a struct without named fields.
pub const NO_TUPLE_STRUCTS: &'static str = "derive(debug) doesn't support tuple structs";

/// The message for an item that is no struct.
pub const ONLY_STRUCTS: &'static str = "derive(debug) only support structs";

/// The message of every diagnostic on a `debug` attribute.
pub const EXPECTED_FORMAT: &'static str = "expected `debug = \"...\"`";

/// The format of a field without a `debug` attribute.
pub const DEFAULT_FORMAT: &'static str = "{:?}";

/// The bound that the implementation puts on a type parameter.
pub const DEBUG_BOUND: &'static str = "std::fmt::Debug";

/// The diagnostic on the `debug` attribute at index `attr` of field `field`,
/// blaming `part` of it: the content of a name-value pair, or else the
/// attribute as a whole.
pub open spec fn malformed_format(field: int, attr: int, part: AttributePart) -> DiagnosticView {
    DiagnosticView {
        kind: ErrorKind::MalformedAttribute,
        message: EXPECTED_FORMAT@,
        span: Span::Attribute { field: field as usize, attr: attr as usize, part },
    }
}

/// The format of field `i`: the value of its first `debug` attribute, which
/// must read `debug = ".."`, or the default where it has none.
pub open spec fn format_spec(fields: Seq<NamedFieldView>, i: int) -> Result<
    Seq<char>,
    DiagnosticView,
> {
    let attrs = fields[i].attrs;
    match find_attribute_spec(attrs, "debug"@) {
        Some(a) => match direct_value_spec("debug"@, attrs[a]) {
            Ok(format) => Ok(format),
            Err(part) => Err(malformed_format(i, a, part)),
        },
        None => Ok(DEFAULT_FORMAT@),
    }
}

/// Reads the format of field `i`.
pub fn format_of(fields: &Vec<NamedField>, i: usize) -> (r: Result<String, Diagnostic>)
    requires
        i < fields.len(),
    ensures
        match r {
            Ok(format) => format_spec(views(fields@), i as int) == Ok::<
                Seq<char>,
                DiagnosticView,
            >(format@),
            Err(d) => format_spec(views(fields@), i as int) == Err::<Seq<char>, DiagnosticView>(
                d@,
            ),
        },
{
    let attrs = &fields[i].attrs;
    assert(views(fields@)[i as int] == fields@[i as int]@);
    match find_attribute(attrs, "debug") {
        Some(a) => match direct_value("debug", &attrs[a]) {
            Ok(format) => Ok(format),
            Err(part) => Err(
                Diagnostic::new(
                    ErrorKind::MalformedAttribute,
                    EXPECTED_FORMAT,
                    Span::Attribute { field: i, attr: a, part },
                ),
            ),
        },
        None => Ok(String::from_str(DEFAULT_FORMAT)),
    }
}

/// Whether `field` is `PhantomData<name>`, taken by the head of the argument.
pub open spec fn witnesses(field: NamedFieldView, name: Seq<char>) -> bool {
    phantom_witness_spec(field.ty) == Some(name)
}

/// Whether some field is `PhantomData<name>`.
pub open spec fn is_witnessed(fields: Seq<NamedFieldView>, name: Seq<char>) -> bool {
    exists|j: int| 0 <= j < fields.len() && witnesses(#[trigger] fields[j], name)
}

/// Decides whether some field is `PhantomData<name>`.
pub fn witnessed(fields: &Vec<NamedField>, name: &String) -> (b: bool)
    ensures
        b == is_witnessed(views(fields@), name@),
{
    let mut j: usize = 0;
    while j < fields.len()
        invariant
            j <= fields.len(),
            forall|k: int| 0 <= k < j ==> !witnesses(#[trigger] views(fields@)[k], name@),
        decreases fields.len() - j,
    {
        assert(views(fields@)[j as int] == fields@[j as int]@);
        match phantom_witness(&fields[j].ty) {
            Some(w) => {
                if *w == *name {
                    assert(witnesses(views(fields@)[j as int], name@));
                    return true;
                }
            },
            None => {},
        }
        j = j + 1;
    }
    false
}

/// Whether the implementation binds `param` by `std::fmt::Debug`: every type
/// parameter, except one that is the witness of a `PhantomData` field and the
/// direct type of no stored field.
pub open spec fn needs_bound_spec(fields: Seq<NamedFieldView>, param: ParameterView) -> bool {
    &&& param.kind is Type
    &&& !(is_witnessed(fields, param.name) && !is_stored(fields, param.name))
}

/// Decides whether `param` is bound by `std::fmt::Debug`.
pub fn needs_bound(fields: &Vec<NamedField>, param: &Parameter) -> (b: bool)
    ensures
        b == needs_bound_spec(views(fields@), param@),
{
    match param.kind {
        GenericKind::Type => !(witnessed(fields, &param.name) && !stored(fields, &param.name)),
        _ => false,
    }
}

/// A parameter as the implementation's header declares it: a lifetime or
/// type parameter with its declared bounds, a type parameter with
/// `std::fmt::Debug` added where `bound` holds, and a const parameter with
/// its type.
pub open spec fn param_spec(param: ParameterView, bound: bool) -> Seq<char> {
    let name = param.name;
    let bounds = param.bounds;
    match param.kind {
        GenericKind::Const => "const "@ + name + ": "@ + bounds,
        _ => if bound {
            if bounds.len() == 0 {
                name + ": "@ + DEBUG_BOUND@
            } else {
                name + ": "@ + bounds + " + "@ + DEBUG_BOUND@
            }
        } else {
            if bounds.len() == 0 {
                name
            } else {
                name + ": "@ + bounds
            }
        },
    }
}

/// Renders a parameter for the implementation's header.
pub fn param_text(param: &Parameter, bound: bool) -> (s: String)
    ensures
        s@ == param_spec(param@, bound),
{
    let has_bounds = !param.bounds.as_str().is_empty();
    match param.kind {
        GenericKind::Const => {
            let mut s = String::from_str("const ");
            s.append(param.name.as_str());
            s.append(": ");
            s.append(param.bounds.as_str());
            s
        },
        _ => {
            let mut s = param.name.clone();
            if has_bounds {
                s.append(": ");
                s.append(param.bounds.as_str());
                if bound {
                    s.append(" + ");
                    s.append(DEBUG_BOUND);
                }
            } else if bound {
                s.append(": ");
                s.append(DEBUG_BOUND);
            }
            s
        },
    }
}

/// Entry `i` of a parameter list: the parameter as declared in the header
/// where `declare` holds, and else its bare name.
pub open spec fn entry_spec(
    fields: Seq<NamedFieldView>,
    generics: Seq<ParameterView>,
    i: int,
    declare: bool,
) -> Seq<char> {
    if declare {
        param_spec(generics[i], needs_bound_spec(fields, generics[i]))
    } else {
        generics[i].name
    }
}

/// The first `n` entries of a parameter list, separated by commas.
pub open spec fn entries_spec(
    fields: Seq<NamedFieldView>,
    generics: Seq<ParameterView>,
    n: int,
    declare: bool,
) -> Seq<char>
    decreases n,
{
    if n <= 0 {
        Seq::empty()
    } else if n == 1 {
        entry_spec(fields, generics, 0, declare)
    } else {
        entries_spec(fields, generics, n - 1, declare) + ", "@ + entry_spec(
            fields,
            generics,
            n - 1,
            declare,
        )
    }
}

/// A parameter list between angle brackets; nothing where there are no
/// parameters.
pub open spec fn generics_spec(
    fields: Seq<NamedFieldView>,
    generics: Seq<ParameterView>,
    declare: bool,
) -> Seq<char> {
    if generics.len() == 0 {
        Seq::empty()
    } else {
        "<"@ + entries_spec(fields, generics, generics.len() as int, declare) + ">"@
    }
}

/// Renders a parameter list: the header's declarations where `declare`
/// holds, and else the bare names.
pub fn generics_text(fields: &Vec<NamedField>, generics: &Vec<Parameter>, declare: bool) -> (s: String)
    ensures
        s@ == generics_spec(views(fields@), views(generics@), declare),
{
    if generics.len() == 0 {
        return String::new();
    }
    let mut entries = String::new();
    let mut i: usize = 0;
    while i < generics.len()
        invariant
            i <= generics.len(),
            entries@ == entries_spec(views(fields@), views(generics@), i as int, declare),
        decreases generics.len() - i,
    {
        assert(views(generics@)[i as int] == generics@[i as int]@);
        if i > 0 {
            entries.append(", ");
        }
        if declare {
            let entry = param_text(&generics[i], needs_bound(fields, &generics[i]));
            entries.append(entry.as_str());
        } else {
            entries.append(generics[i].name.as_str());
        }
        proof {
            if i == 0 {
                assert(entries@ =~= entry_spec(views(fields@), views(generics@), 0, declare));
            }
        }
        i = i + 1;
    }
    let mut s = String::from_str("<");
    s.append(entries.as_str());
    s.append(">");
    s
}

/// The call that prints a field `ident` with `format`.
pub open spec fn field_line_spec(ident: Seq<char>, format: Seq<char>) -> Seq<char> {
    "            .field("@ + literal_spec(ident) + ", &format_args!("@ + literal_spec(format)
        + ", &self."@ + ident + "))\n"@
}

/// Renders the call that prints a field.
pub fn field_line(ident: &str, format: &str) -> (s: String)
    ensures
        s@ == field_line_spec(ident@, format@),
{
    let name = literal(ident);
    let spec = literal(format);
    let mut s = String::from_str("            .field(");
    s.append(name.as_str());
    s.append(", &format_args!(");
    s.append(spec.as_str());
    s.append(", &self.");
    s.append(ident);
    s.append("))\n");
    s
}

/// The calls that print the first `n` fields, in declaration order, or the
/// diagnostic of the first field whose `debug` attribute is malformed.
pub open spec fn field_lines_spec(fields: Seq<NamedFieldView>, n: int) -> Result<
    Seq<char>,
    DiagnosticView,
>
    decreases n,
{
    if n <= 0 {
        Ok(Seq::empty())
    } else {
        match field_lines_spec(fields, n - 1) {
            Ok(lines) => match format_spec(fields, n - 1) {
                Ok(format) => Ok(lines + field_line_spec(fields[n - 1].ident, format)),
                Err(d) => Err(d),
            },
            Err(d) => Err(d),
        }
    }
}

/// Once a `debug` attribute among the first `n` fields is malformed, the
/// same diagnostic stands for every longer run of fields.
pub proof fn lemma_field_lines_fail(fields: Seq<NamedFieldView>, n: int, m: int)
    requires
        n <= m,
        field_lines_spec(fields, n) is Err,
    ensures
        field_lines_spec(fields, m) == field_lines_spec(fields, n),
    decreases m - n,
{
    if n < m {
        lemma_field_lines_fail(fields, n, m - 1);
    }
}

/// Renders the calls that print the fields, and stops at the first malformed
/// `debug` attribute.
pub fn field_lines(fields: &Vec<NamedField>) -> (r: Result<String, Diagnostic>)
    ensures
        match r {
            Ok(lines) => field_lines_spec(views(fields@), fields@.len() as int) == Ok::<
                Seq<char>,
                DiagnosticView,
            >(lines@),
            Err(d) => field_lines_spec(views(fields@), fields@.len() as int) == Err::<
                Seq<char>,
                DiagnosticView,
            >(d@),
        },
{
    let mut lines = String::new();
    let mut i: usize = 0;
    while i < fields.len()
        invariant
            i <= fields.len(),
            field_lines_spec(views(fields@), i as int) == Ok::<Seq<char>, DiagnosticView>(lines@),
        decreases fields.len() - i,
    {
        assert(views(fields@)[i as int] == fields@[i as int]@);
        match format_of(fields, i) {
            Ok(format) => {
                let piece = field_line(fields[i].ident.as_str(), format.as_str());
                lines.append(piece.as_str());
            },
            Err(d) => {
                proof {
                    lemma_field_lines_fail(views(fields@), i as int + 1, fields@.len() as int);
                }
                return Err(d);
            },
        }
        i = i + 1;
    }
    Ok(lines)
}

/// The `where` clause as it follows the implemented type: nothing where the
/// declaration has none.
pub open spec fn where_spec(clause: Seq<char>) -> Seq<char> {
    if clause.len() == 0 {
        Seq::empty()
    } else {
        " "@ + clause
    }
}

/// The generated source for `input`, given the calls that print its fields.
pub open spec fn source_spec(input: DeclarationView, lines: Seq<char>) -> Seq<char> {
    "impl"@ + generics_spec(input.fields, input.generics, true) + " std::fmt::Debug for "@
        + input.name + generics_spec(input.fields, input.generics, false) + where_spec(
        input.where_clause,
    ) + " {\n    fn fmt(&self, fmt: &mut std::fmt::Formatter) -> std::fmt::Result {\n"@
        + "        fmt.debug_struct("@ + literal_spec(input.name) + ")\n"@ + lines
        + "            .finish()\n    }\n}\n"@
}

/// Renders the implementation around the calls that print the fields.
pub fn source(input: &Declaration, lines: &str) -> (s: String)
    ensures
        s@ == source_spec(input@, lines@),
{
    let header = generics_text(&input.fields, &input.generics, true);
    let names = generics_text(&input.fields, &input.generics, false);
    let name = literal(input.name.as_str());
    let mut s = String::from_str("impl");
    s.append(header.as_str());
    s.append(" std::fmt::Debug for ");
    s.append(input.name.as_str());
    s.append(names.as_str());
    if !input.where_clause.as_str().is_empty() {
        let mut clause = String::from_str(" ");
        clause.append(input.where_clause.as_str());
        s.append(clause.as_str());
    } else {
        proof {
            assert(s@ + Seq::<char>::empty() =~= s@);
        }
    }
    s.append(" {\n    fn fmt(&self, fmt: &mut std::fmt::Formatter) -> std::fmt::Result {\n");
    s.append("        fmt.debug_struct(");
    s.append(name.as_str());
    s.append(")\n");
    s.append(lines);
    s.append("            .finish()\n    }\n}\n");
    s
}

/// What the generator hands back for `input`: the diagnostic for its shape
/// where it is no struct with named fields; else the diagnostic of the first
/// field whose `debug` attribute is malformed; else the implementation's
/// source.
pub open spec fn derive_spec(input: DeclarationView) -> GeneratedUnitView {
    match unsupported_spec(input.shape, NO_TUPLE_STRUCTS@, ONLY_STRUCTS@) {
        Some(d) => GeneratedUnitView::Diagnostic(d),
        None => match field_lines_spec(input.fields, input.fields.len() as int) {
            Err(d) => GeneratedUnitView::Diagnostic(d),
            Ok(lines) => GeneratedUnitView::Source(source_spec(input, lines)),
        },
    }
}

/// Generates the `Debug` implementation of `input`.
///
/// A declaration that is no struct with named fields is refused before any
/// field is looked at. Then the fields' formats are read in declaration
/// order, and the first malformed `debug` attribute ends the pass with its
/// diagnostic alone. Only where every field has a format is source produced.
pub fn derive(input: &Declaration) -> (unit: GeneratedUnit)
    ensures
        unit@ == derive_spec(input@),
        !(input.shape is NamedStruct) ==> (unit@ matches GeneratedUnitView::Diagnostic(d)
            && d.kind == ErrorKind::UnsupportedShape && d.span == Span::Declaration),
{
    if let Some(d) = unsupported(input.shape, NO_TUPLE_STRUCTS, ONLY_STRUCTS) {
        return GeneratedUnit::Diagnostic(d);
    }
    match field_lines(&input.fields) {
        Err(d) => GeneratedUnit::Diagnostic(d),
        Ok(lines) => GeneratedUnit::Source(source(input, lines.as_str())),
    }
}

/// A type parameter that is the witness of a phantom marker field is
/// declared in the implementation's header as the struct declares it, with
/// no `std::fmt::Debug` bound: the implementation asks nothing of the type
/// that takes its place.
pub proof fn law_witness_unbounded(input: DeclarationView, g: int, i: int)
    requires
        0 <= g < input.generics.len(),
        0 <= i < input.fields.len(),
        classify_spec(input.fields, i) == Ok::<FieldShapeView, DiagnosticView>(
            FieldShapeView::PhantomMarker(input.generics[g].name),
        ),
    ensures
        !needs_bound_spec(input.fields, input.generics[g]),
        entry_spec(input.fields, input.generics, g, true) == param_spec(input.generics[g], false),
{
    assert(witnesses(input.fields[i], input.generics[g].name));
}

} // verus!
