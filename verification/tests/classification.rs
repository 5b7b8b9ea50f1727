use derive_synth::attribute::{direct_value, find_attribute, nested_value, string_value};
use derive_synth::diagnostic::{AttributePart, Diagnostic, ErrorKind, Span};
use derive_synth::model::{
    FieldAttribute, InnerType, Lit, MetaItem, NameValue, NamedField, NestedItem, Segment, TypeArg,
    TypeExpr, TypePath,
};
use derive_synth::shape::{
    classify, classify_all, inner_type, last_segment, phantom_marker, phantom_witness, stored,
    FieldShape,
};
use derive_synth::syntax::parse_declaration;

fn fields_of(text: &str) -> Vec<NamedField> {
    parse_declaration(text).expect("the text is a declaration").fields
}

fn name_value(key: &str, value: &str) -> NameValue {
    NameValue { key: Some(key.to_string()), value: Lit::Str(value.to_string()) }
}

fn attribute(key: &str, meta: Option<MetaItem>) -> FieldAttribute {
    FieldAttribute { path: vec![key.to_string()], tokens: String::new(), meta }
}

fn inner(text: &str) -> InnerType {
    InnerType { text: text.to_string(), head: Some(text.to_string()) }
}

fn path_type(segments: Vec<Segment>, has_qself: bool) -> TypeExpr {
    TypeExpr { text: "T".to_string(), path: Some(TypePath { has_qself, segments }) }
}

fn segment(ident: &str, args: Option<Vec<TypeArg>>) -> Segment {
    Segment { ident: ident.to_string(), args }
}

#[test]
fn inner_type_of_a_one_argument_constructor() {
    let ty = path_type(vec![segment("Option", Some(vec![TypeArg::Type(inner("String"))]))], false);
    assert_eq!(inner_type("Option", &ty), Some(&inner("String")));
    assert_eq!(inner_type("Vec", &ty), None);
}

#[test]
fn inner_type_wants_one_unqualified_segment() {
    let arg = || Some(vec![TypeArg::Type(inner("String"))]);
    let long = path_type(vec![segment("std", None), segment("Option", arg())], false);
    assert_eq!(inner_type("Option", &long), None);
    let qualified = path_type(vec![segment("Option", arg())], true);
    assert_eq!(inner_type("Option", &qualified), None);
    let empty = path_type(vec![], false);
    assert_eq!(inner_type("Option", &empty), None);
    let no_path = TypeExpr { text: "& Option < u8 >".to_string(), path: None };
    assert_eq!(inner_type("Option", &no_path), None);
}

#[test]
fn inner_type_wants_exactly_one_type_argument() {
    let none = path_type(vec![segment("Option", None)], false);
    assert_eq!(inner_type("Option", &none), None);
    let zero = path_type(vec![segment("Option", Some(vec![]))], false);
    assert_eq!(inner_type("Option", &zero), None);
    let two = path_type(
        vec![segment("Option", Some(vec![TypeArg::Type(inner("A")), TypeArg::Type(inner("B"))]))],
        false,
    );
    assert_eq!(inner_type("Option", &two), None);
    let lifetime = path_type(vec![segment("Option", Some(vec![TypeArg::Other]))], false);
    assert_eq!(inner_type("Option", &lifetime), None);
}

#[test]
fn inner_type_on_parsed_types() {
    let fields = fields_of(
        "struct S<'a> { a: Option<String>, b: std::option::Option<u8>, c: Vec<Vec<u8>>, d: Cow<'a>, e: Fn(u8) -> u8, f: (u8, u8) }",
    );
    assert_eq!(inner_type("Option", &fields[0].ty).map(|t| t.text.as_str()), Some("String"));
    assert_eq!(inner_type("Option", &fields[1].ty), None);
    assert_eq!(inner_type("Vec", &fields[2].ty).map(|t| t.text.as_str()), Some("Vec < u8 >"));
    assert_eq!(inner_type("Cow", &fields[3].ty), None);
    assert_eq!(inner_type("Fn", &fields[4].ty), None);
    assert_eq!(inner_type("Option", &fields[5].ty), None);
}

#[test]
fn phantom_witness_is_the_head_of_the_argument() {
    let fields = fields_of(
        "struct S<T> { a: PhantomData<T>, b: PhantomData<Vec<T>>, c: PhantomData<a::B>, d: PhantomData<&'static T>, e: Option<T>, f: std::marker::PhantomData<T> }",
    );
    assert_eq!(phantom_witness(&fields[0].ty), Some(&"T".to_string()));
    assert_eq!(phantom_witness(&fields[1].ty), Some(&"Vec".to_string()));
    assert_eq!(phantom_witness(&fields[2].ty), Some(&"a".to_string()));
    assert_eq!(phantom_witness(&fields[3].ty), None);
    assert_eq!(phantom_witness(&fields[4].ty), None);
    assert_eq!(phantom_witness(&fields[5].ty), Some(&"T".to_string()));
}

#[test]
fn phantom_witness_goes_by_the_last_segment() {
    let fields = fields_of(
        "struct S<T> { a: core::marker::PhantomData<T>, b: ::std::marker::PhantomData<T>, c: PhantomData<T>::Out, d: marker::PhantomData<T, T>, e: marker::PhantomData, f: marker::PhantomData<'static>, g: phantom::Data<T> }",
    );
    assert_eq!(phantom_witness(&fields[0].ty), Some(&"T".to_string()));
    assert_eq!(phantom_witness(&fields[1].ty), Some(&"T".to_string()));
    assert_eq!(phantom_witness(&fields[2].ty), None);
    assert_eq!(phantom_witness(&fields[3].ty), None);
    assert_eq!(phantom_witness(&fields[4].ty), None);
    assert_eq!(phantom_witness(&fields[5].ty), None);
    assert_eq!(phantom_witness(&fields[6].ty), None);
}

#[test]
fn qualified_phantom_marker_is_classified_as_one() {
    let fields = fields_of("struct S<T, U> { a: std::marker::PhantomData<T>, b: U, c: core::marker::PhantomData<U> }");
    assert_eq!(classify(&fields, 0), Ok(FieldShape::PhantomMarker("T".to_string())));
    assert_eq!(classify(&fields, 2), Ok(FieldShape::Plain("core :: marker :: PhantomData < U >".to_string())));
    assert!(!stored(&fields, &"PhantomData".to_string()));
    assert!(stored(&fields, &"U".to_string()));
}

#[test]
fn each_name_must_be_an_identifier() {
    let refused = |name: &str| {
        let text = format!("struct S {{ a: u8, #[builder(each = \"{}\")] items: Vec<u8> }}", name);
        let fields = fields_of(&text);
        classify(&fields, 1)
    };
    let malformed = Err(Diagnostic {
        kind: ErrorKind::MalformedAttribute,
        message: "expected `builder(each = \"...\")`".to_string(),
        span: Span::Attribute { field: 1, attr: 0, part: AttributePart::Nested },
    });
    assert_eq!(refused("a b) {} fn c("), malformed);
    assert_eq!(refused(""), malformed);
    assert_eq!(refused("_"), malformed);
    assert_eq!(refused("9lives"), malformed);
    assert_eq!(refused("with space"), malformed);
    assert_eq!(refused("with-dash"), malformed);
    assert_eq!(refused("r#type"), malformed);
    assert_eq!(refused("item"), Ok(FieldShape::Repeated("u8".to_string(), "item".to_string())));
    assert_eq!(refused("_item9"), Ok(FieldShape::Repeated("u8".to_string(), "_item9".to_string())));
    assert_eq!(refused("c"), Ok(FieldShape::Repeated("u8".to_string(), "c".to_string())));
    assert_eq!(
        refused("größe"),
        Ok(FieldShape::Repeated("u8".to_string(), "größe".to_string()))
    );
}

#[test]
fn last_segment_names_a_path_type() {
    let fields = fields_of("struct S<T> { a: T, b: std::string::String, c: Vec<T>, d: &'static str }");
    assert_eq!(last_segment(&fields[0].ty), Some(&"T".to_string()));
    assert_eq!(last_segment(&fields[1].ty), Some(&"String".to_string()));
    assert_eq!(last_segment(&fields[2].ty), Some(&"Vec".to_string()));
    assert_eq!(last_segment(&fields[3].ty), None);
    assert_eq!(last_segment(&path_type(vec![], false)), None);
}

#[test]
fn stored_looks_at_fields_that_are_no_witness() {
    let fields = fields_of("struct S<T, U> { a: T, b: PhantomData<U>, c: Option<U> }");
    assert!(stored(&fields, &"T".to_string()));
    assert!(!stored(&fields, &"U".to_string()));
    assert!(stored(&fields, &"Option".to_string()));
    assert!(!stored(&fields, &"PhantomData".to_string()));
    assert!(!stored(&Vec::new(), &"T".to_string()));
}

#[test]
fn phantom_marker_wants_a_witness_that_is_not_stored() {
    let fields = fields_of("struct S<T, U> { a: T, b: PhantomData<T>, c: PhantomData<U>, d: u8 }");
    assert_eq!(phantom_marker(&fields, 0), None);
    assert_eq!(phantom_marker(&fields, 1), None);
    assert_eq!(phantom_marker(&fields, 2), Some("U".to_string()));
    assert_eq!(phantom_marker(&fields, 3), None);
}

#[test]
fn classify_by_the_first_rule_that_applies() {
    let fields = fields_of(
        "struct S<T> {
            plain: String,
            maybe: Option<u32>,
            #[builder(each = \"item\")] items: Vec<u8>,
            marker: PhantomData<T>,
            #[builder(each = \"x\")] both: Option<Vec<u8>>,
            list: Vec<u8>,
        }",
    );
    assert_eq!(classify(&fields, 0), Ok(FieldShape::Plain("String".to_string())));
    assert_eq!(classify(&fields, 1), Ok(FieldShape::Optional("u32".to_string())));
    assert_eq!(
        classify(&fields, 2),
        Ok(FieldShape::Repeated("u8".to_string(), "item".to_string()))
    );
    assert_eq!(classify(&fields, 3), Ok(FieldShape::PhantomMarker("T".to_string())));
    assert_eq!(classify(&fields, 4), Ok(FieldShape::Optional("Vec < u8 >".to_string())));
    assert_eq!(classify(&fields, 5), Ok(FieldShape::Plain("Vec < u8 >".to_string())));
}

#[test]
fn classify_fails_on_a_malformed_builder_attribute() {
    let fields = fields_of(
        "struct S { a: u8, #[allow(dead_code)] #[builder(each = \"arg\", each = \"other\")] args: Vec<String> }",
    );
    assert_eq!(
        classify(&fields, 1),
        Err(Diagnostic {
            kind: ErrorKind::MalformedAttribute,
            message: "expected `builder(each = \"...\")`".to_string(),
            span: Span::Attribute { field: 1, attr: 1, part: AttributePart::Nested },
        })
    );
}

#[test]
fn classify_all_keeps_declaration_order() {
    let fields = fields_of("struct S { b: Option<u8>, a: u16, #[builder(each = \"c\")] cs: Vec<u8> }");
    assert_eq!(
        classify_all(&fields),
        Ok(vec![
            FieldShape::Optional("u8".to_string()),
            FieldShape::Plain("u16".to_string()),
            FieldShape::Repeated("u8".to_string(), "c".to_string()),
        ])
    );
    assert_eq!(classify_all(&Vec::new()), Ok(vec![]));
}

#[test]
fn classify_all_stops_at_the_first_failure() {
    let fields = fields_of(
        "struct S { a: u8, #[builder(each = 1)] b: Vec<u8>, #[builder] c: Vec<u8> }",
    );
    let d = classify_all(&fields).unwrap_err();
    assert_eq!(d.kind, ErrorKind::MalformedAttribute);
    assert_eq!(d.span, Span::Attribute { field: 1, attr: 0, part: AttributePart::Nested });
}

#[test]
fn find_attribute_takes_the_first_with_that_key() {
    let attrs = vec![
        attribute("doc", None),
        FieldAttribute {
            path: vec!["a".to_string(), "builder".to_string()],
            tokens: String::new(),
            meta: None,
        },
        attribute("builder", Some(MetaItem::Path)),
        attribute("builder", None),
    ];
    assert_eq!(find_attribute(&attrs, "builder"), Some(2));
    assert_eq!(find_attribute(&attrs, "doc"), Some(0));
    assert_eq!(find_attribute(&attrs, "debug"), None);
    assert_eq!(find_attribute(&attrs, "a"), None);
    assert_eq!(find_attribute(&Vec::new(), "builder"), None);
}

#[test]
fn string_value_wants_the_key_and_a_string() {
    assert_eq!(string_value("each", &name_value("each", "arg")), Some("arg".to_string()));
    assert_eq!(string_value("each", &name_value("eac", "arg")), None);
    assert_eq!(
        string_value("each", &NameValue { key: Some("each".to_string()), value: Lit::Other }),
        None
    );
    assert_eq!(
        string_value("each", &NameValue { key: None, value: Lit::Str("arg".to_string()) }),
        None
    );
}

#[test]
fn nested_value_reads_the_list_form() {
    let good = attribute(
        "builder",
        Some(MetaItem::List(vec![NestedItem::NameValue(name_value("each", "arg"))])),
    );
    assert_eq!(nested_value("each", &good), Ok("arg".to_string()));
    let empty = attribute("builder", Some(MetaItem::List(vec![])));
    assert_eq!(nested_value("each", &empty), Err(AttributePart::Nested));
    let two = attribute(
        "builder",
        Some(MetaItem::List(vec![
            NestedItem::NameValue(name_value("each", "arg")),
            NestedItem::NameValue(name_value("each", "other")),
        ])),
    );
    assert_eq!(nested_value("each", &two), Err(AttributePart::Nested));
    let other = attribute("builder", Some(MetaItem::List(vec![NestedItem::Other])));
    assert_eq!(nested_value("each", &other), Err(AttributePart::Nested));
    let wrong_key = attribute(
        "builder",
        Some(MetaItem::List(vec![NestedItem::NameValue(name_value("every", "arg"))])),
    );
    assert_eq!(nested_value("each", &wrong_key), Err(AttributePart::Nested));
    let direct = attribute("builder", Some(MetaItem::NameValue(name_value("each", "arg"))));
    assert_eq!(nested_value("each", &direct), Err(AttributePart::Arguments));
    assert_eq!(
        nested_value("each", &attribute("builder", Some(MetaItem::Path))),
        Err(AttributePart::Arguments)
    );
    assert_eq!(nested_value("each", &attribute("builder", None)), Err(AttributePart::Arguments));
}

#[test]
fn direct_value_reads_the_name_value_form() {
    let good = attribute("debug", Some(MetaItem::NameValue(name_value("debug", "{:x}"))));
    assert_eq!(direct_value("debug", &good), Ok("{:x}".to_string()));
    let number = attribute(
        "debug",
        Some(MetaItem::NameValue(NameValue { key: Some("debug".to_string()), value: Lit::Other })),
    );
    assert_eq!(direct_value("debug", &number), Err(AttributePart::Content));
    let other_key = attribute("debug", Some(MetaItem::NameValue(name_value("format", "{:x}"))));
    assert_eq!(direct_value("debug", &other_key), Err(AttributePart::Content));
    let list = attribute(
        "debug",
        Some(MetaItem::List(vec![NestedItem::NameValue(name_value("debug", "{:x}"))])),
    );
    assert_eq!(direct_value("debug", &list), Err(AttributePart::Whole));
    assert_eq!(
        direct_value("debug", &attribute("debug", Some(MetaItem::Path))),
        Err(AttributePart::Whole)
    );
    assert_eq!(direct_value("debug", &attribute("debug", None)), Err(AttributePart::Whole));
}
