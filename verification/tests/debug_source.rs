use derive_synth::debug;
use derive_synth::debug::{field_line, format_of, generics_text, needs_bound, param_text, witnessed};
use derive_synth::diagnostic::{AttributePart, Diagnostic, ErrorKind, GeneratedUnit, Span};
use derive_synth::model::{GenericKind, Parameter};
use derive_synth::syntax::parse_declaration;

fn generated(text: &str) -> String {
    let decl = parse_declaration(text).expect("the text is a declaration");
    match debug::derive(&decl) {
        GeneratedUnit::Source(s) => s,
        GeneratedUnit::Diagnostic(d) => panic!("unexpected diagnostic: {:?}", d),
    }
}

fn refused(text: &str) -> Diagnostic {
    let decl = parse_declaration(text).expect("the text is a declaration");
    match debug::derive(&decl) {
        GeneratedUnit::Source(s) => panic!("unexpected source: {}", s),
        GeneratedUnit::Diagnostic(d) => d,
    }
}

fn malformed(field: usize, attr: usize, part: AttributePart) -> Diagnostic {
    Diagnostic {
        kind: ErrorKind::MalformedAttribute,
        message: "expected `debug = \"...\"`".to_string(),
        span: Span::Attribute { field, attr, part },
    }
}

#[test]
fn debug_source_of_a_plain_struct() {
    let expected = "impl std::fmt::Debug for Field {
    fn fmt(&self, fmt: &mut std::fmt::Formatter) -> std::fmt::Result {
        fmt.debug_struct(\"Field\")
            .field(\"name\", &format_args!(\"{:?}\", &self.name))
            .field(\"bitmask\", &format_args!(\"{:?}\", &self.bitmask))
            .finish()
    }
}
";
    assert_eq!(generated("struct Field { name: &'static str, bitmask: u8 }"), expected);
}

#[test]
fn custom_format_is_applied_to_the_field() {
    let source = generated("struct Field { name: String, #[debug = \"0b{:08b}\"] addr: u8 }");
    let expected = "impl std::fmt::Debug for Field {
    fn fmt(&self, fmt: &mut std::fmt::Formatter) -> std::fmt::Result {
        fmt.debug_struct(\"Field\")
            .field(\"name\", &format_args!(\"{:?}\", &self.name))
            .field(\"addr\", &format_args!(\"0b{:08b}\", &self.addr))
            .finish()
    }
}
";
    assert_eq!(source, expected);
    assert_eq!(format!("0b{:08b}", 10u8), "0b00001010");
}

#[test]
fn debug_source_is_a_token_stream() {
    let source = generated(
        "struct Wrapper<'a, T: Clone, const N: usize> where T: Send { #[debug = \"<{}>\"] value: &'a [T; N] }",
    );
    let tokens: Result<proc_macro2::TokenStream, _> = source.parse();
    assert!(tokens.is_ok());
}

#[test]
fn every_stored_type_parameter_is_bound() {
    let source = generated("struct Pair<T, U: Clone> { first: T, second: U }");
    assert!(source.starts_with(
        "impl<T: std::fmt::Debug, U: Clone + std::fmt::Debug> std::fmt::Debug for Pair<T, U> {\n"
    ));
}

#[test]
fn witness_of_a_phantom_marker_is_not_bound() {
    let source = generated("struct Tagged<T> { id: u32, marker: PhantomData<T> }");
    assert!(source.starts_with("impl<T> std::fmt::Debug for Tagged<T> {\n"));
    assert!(!source.contains("T: std::fmt::Debug"));
}

#[test]
fn witness_keeps_its_declared_bounds() {
    let source = generated("struct Tagged<T: Trait> { marker: PhantomData<T> }");
    assert!(source.starts_with("impl<T: Trait> std::fmt::Debug for Tagged<T> {\n"));
}

#[test]
fn witness_that_is_also_stored_is_bound() {
    let source = generated("struct Both<T> { value: T, marker: PhantomData<T> }");
    assert!(source.starts_with("impl<T: std::fmt::Debug> std::fmt::Debug for Both<T> {\n"));
}

#[test]
fn parameter_inside_another_type_is_still_bound() {
    let source = generated("struct Maybe<T> { value: Option<T> }");
    assert!(source.starts_with("impl<T: std::fmt::Debug> std::fmt::Debug for Maybe<T> {\n"));
    let source = generated("struct Deep<T> { marker: PhantomData<Vec<T>> }");
    assert!(source.starts_with("impl<T: std::fmt::Debug> std::fmt::Debug for Deep<T> {\n"));
}

#[test]
fn witness_of_a_qualified_phantom_marker_is_not_bound() {
    let source = generated("struct Tagged<T> { marker: std::marker::PhantomData<T> }");
    assert!(source.starts_with("impl<T> std::fmt::Debug for Tagged<T> {\n"));
    let source = generated("struct Tagged<T, U> { marker: ::core::marker::PhantomData<T>, value: U }");
    assert!(source.starts_with("impl<T, U: std::fmt::Debug> std::fmt::Debug for Tagged<T, U> {\n"));
}

#[test]
fn lifetimes_consts_and_where_clause_are_kept() {
    let source = generated(
        "struct Window<'a, 'b: 'a, T, const N: usize = 4> where T: Send { slice: &'a [T; N], other: &'b u8 }",
    );
    assert!(source.starts_with(
        "impl<'a, 'b: 'a, T: std::fmt::Debug, const N: usize> std::fmt::Debug for Window<'a, 'b, T, N> where T : Send {\n"
    ));
}

#[test]
fn default_of_a_type_parameter_is_dropped() {
    let source = generated("struct Holder<T = u8> { value: T }");
    assert!(source.starts_with("impl<T: std::fmt::Debug> std::fmt::Debug for Holder<T> {\n"));
}

#[test]
fn parameter_text_by_kind() {
    let t = Parameter { kind: GenericKind::Type, name: "T".to_string(), bounds: String::new() };
    assert_eq!(param_text(&t, true), "T: std::fmt::Debug");
    assert_eq!(param_text(&t, false), "T");
    let u = Parameter { kind: GenericKind::Type, name: "U".to_string(), bounds: "Clone".to_string() };
    assert_eq!(param_text(&u, true), "U: Clone + std::fmt::Debug");
    assert_eq!(param_text(&u, false), "U: Clone");
    let a = Parameter { kind: GenericKind::Lifetime, name: "'a".to_string(), bounds: String::new() };
    assert_eq!(param_text(&a, false), "'a");
    let b = Parameter { kind: GenericKind::Lifetime, name: "'b".to_string(), bounds: "'a".to_string() };
    assert_eq!(param_text(&b, false), "'b: 'a");
    let n = Parameter { kind: GenericKind::Const, name: "N".to_string(), bounds: "usize".to_string() };
    assert_eq!(param_text(&n, false), "const N: usize");
}

#[test]
fn parameter_lists_of_header_and_type() {
    let decl = parse_declaration("struct S<'a, T, U: Copy, const N: usize> { t: T, m: PhantomData<U>, r: &'a [u8; N] }").unwrap();
    assert_eq!(
        generics_text(&decl.fields, &decl.generics, true),
        "<'a, T: std::fmt::Debug, U: Copy, const N: usize>"
    );
    assert_eq!(generics_text(&decl.fields, &decl.generics, false), "<'a, T, U, N>");
    let plain = parse_declaration("struct S { a: u8 }").unwrap();
    assert_eq!(generics_text(&plain.fields, &plain.generics, true), "");
    assert_eq!(generics_text(&plain.fields, &plain.generics, false), "");
}

#[test]
fn bound_is_decided_per_parameter() {
    let decl = parse_declaration("struct S<'a, T, U, const N: usize> { t: T, m: PhantomData<U>, r: &'a [u8; N] }").unwrap();
    assert!(!needs_bound(&decl.fields, &decl.generics[0]));
    assert!(needs_bound(&decl.fields, &decl.generics[1]));
    assert!(!needs_bound(&decl.fields, &decl.generics[2]));
    assert!(!needs_bound(&decl.fields, &decl.generics[3]));
    assert!(witnessed(&decl.fields, &"U".to_string()));
    assert!(!witnessed(&decl.fields, &"T".to_string()));
}

#[test]
fn field_line_quotes_name_and_format() {
    assert_eq!(
        field_line("addr", "0b{:08b}"),
        "            .field(\"addr\", &format_args!(\"0b{:08b}\", &self.addr))\n"
    );
    assert_eq!(
        field_line("name", "\"{}\"\\"),
        "            .field(\"name\", &format_args!(\"\\\"{}\\\"\\\\\", &self.name))\n"
    );
}

#[test]
fn format_with_quotes_survives_the_round_trip() {
    let source = generated("struct Quoted { #[debug = \"\\\"{}\\\"\"] name: String }");
    assert!(source.contains(".field(\"name\", &format_args!(\"\\\"{}\\\"\", &self.name))\n"));
}

#[test]
fn format_of_a_field_without_attribute_is_the_default() {
    let decl = parse_declaration("struct S { a: u8, #[debug = \"{:x}\"] b: u8, #[doc = \"d\"] c: u8 }").unwrap();
    assert_eq!(format_of(&decl.fields, 0), Ok("{:?}".to_string()));
    assert_eq!(format_of(&decl.fields, 1), Ok("{:x}".to_string()));
    assert_eq!(format_of(&decl.fields, 2), Ok("{:?}".to_string()));
}

#[test]
fn debug_attribute_with_a_literal_that_is_no_string_is_malformed() {
    let d = refused("struct S { a: u8, #[debug = 8] b: u8 }");
    assert_eq!(d, malformed(1, 0, AttributePart::Content));
    assert_eq!(d.message, "expected `debug = \"...\"`");
}

#[test]
fn debug_attribute_in_another_form_is_malformed() {
    let d = refused("struct S { #[debug] a: u8 }");
    assert_eq!(d, malformed(0, 0, AttributePart::Whole));
    assert_eq!(d.message, "expected `debug = \"...\"`");
    assert_eq!(
        refused("struct S { #[debug(format = \"{}\")] a: u8 }"),
        malformed(0, 0, AttributePart::Whole)
    );
    assert_eq!(
        refused("struct S { #[doc = \"x\"] #[debug(1 + 1)] a: u8 }"),
        malformed(0, 1, AttributePart::Whole)
    );
}

#[test]
fn first_malformed_debug_attribute_is_reported() {
    assert_eq!(
        refused("struct S { a: u8, #[debug] b: u8, #[debug = 1] c: u8 }"),
        malformed(1, 0, AttributePart::Whole)
    );
}

#[test]
fn debug_refuses_what_is_no_named_struct() {
    let tuple = refused("struct Pair(u8, u8);");
    assert_eq!(
        tuple,
        Diagnostic {
            kind: ErrorKind::UnsupportedShape,
            message: "derive(debug) doesn't support tuple structs".to_string(),
            span: Span::Declaration,
        }
    );
    let unit = refused("struct Nothing;");
    assert_eq!(unit, tuple);
    for text in ["enum Choice { A, B }", "union Bits { a: u8, b: i8 }"] {
        assert_eq!(
            refused(text),
            Diagnostic {
                kind: ErrorKind::UnsupportedShape,
                message: "derive(debug) only support structs".to_string(),
                span: Span::Declaration,
            }
        );
    }
}

#[test]
fn builder_attributes_do_not_concern_debug() {
    let source = generated("struct S { #[builder(each = 1)] a: Vec<u8> }");
    assert!(source.contains(".field(\"a\", &format_args!(\"{:?}\", &self.a))\n"));
}
