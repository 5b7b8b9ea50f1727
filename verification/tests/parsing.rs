use derive_synth::diagnostic::{ErrorKind, Span};
use derive_synth::model::{
    DeclShape, Declaration, FieldAttribute, GenericKind, InnerType, Lit, MetaItem, NameValue,
    NamedField, NestedItem, Parameter, Segment, TypeArg, TypeExpr, TypePath,
};
use derive_synth::builder;
use derive_synth::debug;
use derive_synth::diagnostic::{AttributePart, Diagnostic, GeneratedUnit};
use derive_synth::syntax::{lower, parse_declaration};

fn segment(ident: &str) -> Segment {
    Segment { ident: ident.to_string(), args: None }
}

fn attrs_of(text: &str) -> Vec<FieldAttribute> {
    let decl = parse_declaration(text).expect("the text is a declaration");
    decl.fields[0].attrs.clone()
}

#[test]
fn parse_reads_the_whole_declaration() {
    let text = "pub struct Command<'a, T: Clone + Send, const N: usize> where T: 'a {
        /// The program.
        pub executable: String,
        #[builder(each = \"arg\")]
        args: Vec<T>,
        window: &'a [u8; N],
    }";
    let expected = Declaration {
        name: "Command".to_string(),
        shape: DeclShape::NamedStruct,
        generics: vec![
            Parameter { kind: GenericKind::Lifetime, name: "'a".to_string(), bounds: String::new() },
            Parameter {
                kind: GenericKind::Type,
                name: "T".to_string(),
                bounds: "Clone + Send".to_string(),
            },
            Parameter { kind: GenericKind::Const, name: "N".to_string(), bounds: "usize".to_string() },
        ],
        where_clause: "where T : 'a".to_string(),
        fields: vec![
            NamedField {
                ident: "executable".to_string(),
                ty: TypeExpr {
                    text: "String".to_string(),
                    path: Some(TypePath { has_qself: false, segments: vec![segment("String")] }),
                },
                attrs: vec![FieldAttribute {
                    path: vec!["doc".to_string()],
                    tokens: "= \" The program.\"".to_string(),
                    meta: None,
                }],
            },
            NamedField {
                ident: "args".to_string(),
                ty: TypeExpr {
                    text: "Vec < T >".to_string(),
                    path: Some(TypePath {
                        has_qself: false,
                        segments: vec![Segment {
                            ident: "Vec".to_string(),
                            args: Some(vec![TypeArg::Type(InnerType {
                                text: "T".to_string(),
                                head: Some("T".to_string()),
                            })]),
                        }],
                    }),
                },
                attrs: vec![FieldAttribute {
                    path: vec!["builder".to_string()],
                    tokens: "(each = \"arg\")".to_string(),
                    meta: Some(MetaItem::List(vec![NestedItem::NameValue(NameValue {
                        key: Some("each".to_string()),
                        value: Lit::Str("arg".to_string()),
                    })])),
                }],
            },
            NamedField {
                ident: "window".to_string(),
                ty: TypeExpr { text: "& 'a [u8 ; N]".to_string(), path: None },
                attrs: vec![],
            },
        ],
    };
    assert_eq!(parse_declaration(text), Ok(expected));
}

#[test]
fn parse_tells_the_shapes_apart() {
    let shape = |text: &str| parse_declaration(text).unwrap().shape;
    assert_eq!(shape("struct A { a: u8 }"), DeclShape::NamedStruct);
    assert_eq!(shape("struct A {}"), DeclShape::NamedStruct);
    assert_eq!(shape("struct A(u8);"), DeclShape::TupleStruct);
    assert_eq!(shape("struct A;"), DeclShape::UnitStruct);
    assert_eq!(shape("enum A { B { c: u8 } }"), DeclShape::Enum);
    assert_eq!(shape("union A { b: u8 }"), DeclShape::Union);
}

#[test]
fn parse_reads_fields_of_a_named_struct_only() {
    for text in ["struct A(u8, u16);", "struct A;", "enum A { B { c: u8 } }", "union A { b: u8 }"] {
        let decl = parse_declaration(text).unwrap();
        assert_eq!(decl.name, "A");
        assert!(decl.fields.is_empty());
    }
}

#[test]
fn parse_refuses_text_that_is_no_declaration() {
    for text in ["", "struct", "fn f() {}", "struct S { a: }", "let x = 1;", "struct S { a: u8 } extra"] {
        let d = parse_declaration(text).unwrap_err();
        assert_eq!(d.kind, ErrorKind::UnsupportedShape);
        assert_eq!(d.span, Span::Declaration);
        assert!(!d.message.is_empty());
    }
    assert_eq!(
        parse_declaration("fn f() {}").unwrap_err().message,
        "expected one of: `struct`, `enum`, `union`"
    );
}

#[test]
fn parse_reads_type_paths() {
    let decl = parse_declaration(
        "struct S { a: std::option::Option<u8>, b: <T as Iterator>::Item, c: HashMap<String, Vec<u8>>, d: Cow<'static, str>, e: Box<dyn Fn(u8) -> u8>, f: fn(u8) }",
    )
    .unwrap();
    let path = |i: usize| decl.fields[i].ty.path.clone();
    assert_eq!(
        path(0),
        Some(TypePath {
            has_qself: false,
            segments: vec![
                segment("std"),
                segment("option"),
                Segment {
                    ident: "Option".to_string(),
                    args: Some(vec![TypeArg::Type(InnerType {
                        text: "u8".to_string(),
                        head: Some("u8".to_string()),
                    })]),
                },
            ],
        })
    );
    assert_eq!(decl.fields[0].ty.text, "std :: option :: Option < u8 >");
    assert_eq!(
        path(1),
        Some(TypePath { has_qself: true, segments: vec![segment("Iterator"), segment("Item")] })
    );
    assert_eq!(
        path(2),
        Some(TypePath {
            has_qself: false,
            segments: vec![Segment {
                ident: "HashMap".to_string(),
                args: Some(vec![
                    TypeArg::Type(InnerType {
                        text: "String".to_string(),
                        head: Some("String".to_string()),
                    }),
                    TypeArg::Type(InnerType {
                        text: "Vec < u8 >".to_string(),
                        head: Some("Vec".to_string()),
                    }),
                ]),
            }],
        })
    );
    assert_eq!(
        path(3),
        Some(TypePath {
            has_qself: false,
            segments: vec![Segment {
                ident: "Cow".to_string(),
                args: Some(vec![
                    TypeArg::Other,
                    TypeArg::Type(InnerType {
                        text: "str".to_string(),
                        head: Some("str".to_string()),
                    }),
                ]),
            }],
        })
    );
    assert_eq!(
        path(4),
        Some(TypePath {
            has_qself: false,
            segments: vec![Segment {
                ident: "Box".to_string(),
                args: Some(vec![TypeArg::Type(InnerType {
                    text: "dyn Fn (u8) -> u8".to_string(),
                    head: None,
                })]),
            }],
        })
    );
    assert_eq!(path(5), None);
}

#[test]
fn parse_reads_attribute_forms() {
    let each = |key: Option<&str>, value: Lit| {
        NestedItem::NameValue(NameValue { key: key.map(|k| k.to_string()), value })
    };
    let meta_of = |text: &str| attrs_of(text)[0].meta.clone();
    assert_eq!(meta_of("struct S { #[builder] a: u8 }"), Some(MetaItem::Path));
    assert_eq!(meta_of("struct S { #[builder()] a: u8 }"), Some(MetaItem::List(vec![])));
    assert_eq!(
        meta_of("struct S { #[builder(each = \"a\\n\\\"b\\\"\")] a: u8 }"),
        Some(MetaItem::List(vec![each(Some("each"), Lit::Str("a\n\"b\"".to_string()))]))
    );
    assert_eq!(
        meta_of("struct S { #[builder(each = \"x\", each = \"y\")] a: u8 }"),
        Some(MetaItem::List(vec![
            each(Some("each"), Lit::Str("x".to_string())),
            each(Some("each"), Lit::Str("y".to_string())),
        ]))
    );
    assert_eq!(
        meta_of("struct S { #[builder(each = 1, a::b = \"c\", flag, \"lit\", list(x))] a: u8 }"),
        Some(MetaItem::List(vec![
            each(Some("each"), Lit::Other),
            each(None, Lit::Str("c".to_string())),
            NestedItem::Other,
            NestedItem::Other,
            NestedItem::Other,
        ]))
    );
    assert_eq!(
        meta_of("struct S { #[builder = \"x\"] a: u8 }"),
        Some(MetaItem::NameValue(NameValue {
            key: Some("builder".to_string()),
            value: Lit::Str("x".to_string()),
        }))
    );
    assert_eq!(meta_of("struct S { #[builder(1 + 2)] a: u8 }"), None);
    assert_eq!(
        meta_of("struct S { #[debug = 0x10] a: u8 }"),
        Some(MetaItem::NameValue(NameValue { key: Some("debug".to_string()), value: Lit::Other }))
    );
}

#[test]
fn parse_keeps_path_and_arguments_of_every_attribute() {
    let attrs = attrs_of(
        "struct S { #[builder(each = \"arg\")] #[debug = \"{:x}\"] #[serde(rename = \"b\")] #[a::builder(x)] #[inline] a: u8 }",
    );
    let described: Vec<(Vec<String>, String, bool)> =
        attrs.iter().map(|a| (a.path.clone(), a.tokens.clone(), a.meta.is_some())).collect();
    let path = |segments: &[&str]| segments.iter().map(|s| s.to_string()).collect::<Vec<_>>();
    assert_eq!(
        described,
        vec![
            (path(&["builder"]), "(each = \"arg\")".to_string(), true),
            (path(&["debug"]), "= \"{:x}\"".to_string(), true),
            (path(&["serde"]), "(rename = \"b\")".to_string(), false),
            (path(&["a", "builder"]), "(x)".to_string(), false),
            (path(&["inline"]), "".to_string(), false),
        ]
    );
}

#[test]
fn parse_refuses_text_with_a_literal_the_parser_cannot_take() {
    let refused = Err(Diagnostic {
        kind: ErrorKind::UnsupportedShape,
        message: "unsupported literal in the declaration".to_string(),
        span: Span::Declaration,
    });
    assert_eq!(parse_declaration("struct S { a: Foo<c\"x\"> }"), refused);
    assert_eq!(parse_declaration("struct S { #[doc = c\"x\"] a: u8 }"), refused);
    assert_eq!(parse_declaration("struct S { a: [u8; cr#\"x\"#] }"), refused);
    assert_eq!(parse_declaration("struct S { a: [u8; (/*ERROR*/)] }"), refused);
    assert_eq!(parse_declaration("c\"not even an item\""), refused);
}

#[test]
fn lower_leaves_other_attributes_unread() {
    let item: syn::DeriveInput =
        syn::parse_str("struct S { #[doc = c\"x\"] #[serde(with = c\"y\")] a: u8 }").unwrap();
    let decl = lower(&item);
    assert_eq!(decl.fields[0].attrs.len(), 2);
    assert_eq!(decl.fields[0].attrs[0].path, vec!["doc".to_string()]);
    assert_eq!(decl.fields[0].attrs[0].tokens, "= c\"x\"");
    assert_eq!(decl.fields[0].attrs[0].meta, None);
    assert_eq!(decl.fields[0].attrs[1].meta, None);
    assert!(builder::derive(&decl).is_source());
    assert!(debug::derive(&decl).is_source());
}

#[test]
fn lower_does_not_read_arguments_that_are_not_clear() {
    let item: syn::DeriveInput = syn::parse_str(
        "struct S { #[builder(each = c\"x\")] a: Vec<u8>, #[debug = c\"{}\"] b: u8 }",
    )
    .unwrap();
    let decl = lower(&item);
    assert_eq!(decl.fields[0].attrs[0].meta, None);
    assert_eq!(decl.fields[1].attrs[0].meta, None);
    match builder::derive(&decl) {
        GeneratedUnit::Diagnostic(d) => {
            assert_eq!(d.kind, ErrorKind::MalformedAttribute);
            assert_eq!(
                d.span,
                Span::Attribute { field: 0, attr: 0, part: AttributePart::Arguments }
            );
        }
        GeneratedUnit::Source(s) => panic!("unexpected source: {}", s),
    }
    match debug::derive(&decl) {
        GeneratedUnit::Diagnostic(d) => {
            assert_eq!(d.kind, ErrorKind::MalformedAttribute);
            assert_eq!(d.span, Span::Attribute { field: 1, attr: 0, part: AttributePart::Whole });
        }
        GeneratedUnit::Source(s) => panic!("unexpected source: {}", s),
    }
}

#[test]
fn lower_reads_what_parse_reads() {
    let text = "struct S<T: Clone> where T: Send { #[builder(each = \"x\")] xs: Vec<T>, #[doc = \"d\"] y: Option<u8> }";
    let item: syn::DeriveInput = syn::parse_str(text).unwrap();
    assert_eq!(Ok(lower(&item)), parse_declaration(text));
}

#[test]
fn format_that_ends_like_a_c_string_start_is_read() {
    let text = "struct S { #[debug = \"{} c\"] a: u8, #[builder(each = \"c\")] cs: Vec<u8> }";
    let item: syn::DeriveInput = syn::parse_str(text).unwrap();
    let decl = lower(&item);
    assert_eq!(decl.fields[0].attrs[0].tokens, "= \"{} c\"");
    assert_eq!(
        decl.fields[0].attrs[0].meta,
        Some(MetaItem::NameValue(NameValue {
            key: Some("debug".to_string()),
            value: Lit::Str("{} c".to_string()),
        }))
    );
    assert!(decl.fields[1].attrs[0].meta.is_some());
    assert_eq!(parse_declaration(text), Ok(decl));
}

#[test]
fn parse_reads_generics() {
    let decl = parse_declaration(
        "struct S<'a, 'b: 'a + 'static, T, U: ?Sized + std::fmt::Display = String, const N: usize = 3> { a: &'a T, b: &'b U, c: [u8; N] }",
    )
    .unwrap();
    let param = |kind, name: &str, bounds: &str| Parameter {
        kind,
        name: name.to_string(),
        bounds: bounds.to_string(),
    };
    assert_eq!(
        decl.generics,
        vec![
            param(GenericKind::Lifetime, "'a", ""),
            param(GenericKind::Lifetime, "'b", "'a + 'static"),
            param(GenericKind::Type, "T", ""),
            param(GenericKind::Type, "U", "? Sized + std :: fmt :: Display"),
            param(GenericKind::Const, "N", "usize"),
        ]
    );
    assert_eq!(decl.where_clause, "");
}

#[test]
fn parse_keeps_raw_identifiers() {
    let decl = parse_declaration("struct S { r#type: u8 }").unwrap();
    assert_eq!(decl.fields[0].ident, "r#type");
}
