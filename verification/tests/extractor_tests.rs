use cookcrab_parser::extract::{
    extract_doc_comment, is_pub, parse_constant, parse_enum, parse_fields, parse_fn_params,
    parse_function, parse_impl, parse_macro, parse_method, parse_method_params,
    parse_return_type, parse_static, parse_struct, parse_type_alias,
};
use cookcrab_parser::syntax::{
    AttrValue, Attribute, Field, Fields, FnArg, ImplItem, ImplItemFn, ItemConst, ItemEnum, ItemFn,
    ItemImpl, ItemMacro, ItemStatic, ItemStruct, ItemType, Meta, Path, PathSegment, Pattern,
    ReturnType, Signature, TypeExpr, TypeKind, Variant, Visibility,
};

fn doc(text: &str) -> Attribute {
    Attribute {
        ident: Some("doc".to_string()),
        meta: Meta::NameValue(AttrValue::Str(text.to_string())),
    }
}

fn marker(name: &str) -> Attribute {
    Attribute { ident: Some(name.to_string()), meta: Meta::Path }
}

fn plain(name: &str) -> TypeExpr {
    TypeExpr {
        tokens: name.to_string(),
        kind: TypeKind::Path(Path {
            segments: vec![PathSegment { ident: name.to_string(), arguments: None }],
        }),
    }
}

fn shared_ref(referent: &str) -> TypeExpr {
    TypeExpr {
        tokens: format!("& {}", referent),
        kind: TypeKind::Reference { mutable: false, referent: referent.to_string() },
    }
}

fn typed(name: &str, ty: TypeExpr) -> FnArg {
    FnArg::Typed { pat: Pattern::Ident(name.to_string()), ty }
}

fn signature(name: &str, inputs: Vec<FnArg>, output: ReturnType) -> Signature {
    Signature { ident: name.to_string(), inputs, output, asyncness: false }
}

fn method(name: &str, vis: Visibility, inputs: Vec<FnArg>) -> ImplItemFn {
    ImplItemFn { attrs: vec![], vis, sig: signature(name, inputs, ReturnType::Default) }
}

fn field(ident: Option<&str>, vis: Visibility, ty: TypeExpr) -> Field {
    Field { ident: ident.map(|i| i.to_string()), vis, ty }
}

fn type_path(name: &str) -> Path {
    Path { segments: vec![PathSegment { ident: name.to_string(), arguments: None }] }
}

#[test]
fn only_the_unqualified_marker_is_public() {
    assert!(is_pub(&Visibility::Public));
    assert!(!is_pub(&Visibility::Restricted));
    assert!(!is_pub(&Visibility::Inherited));
}

#[test]
fn doc_comment_joins_trimmed_lines_with_newlines() {
    let attrs = vec![
        doc(" Adds two numbers."),
        marker("inline"),
        doc(""),
        doc("   Returns the sum.  "),
    ];
    assert_eq!(
        extract_doc_comment(&attrs),
        Some("Adds two numbers.\n\nReturns the sum.".to_string())
    );
}

#[test]
fn doc_comment_is_absent_without_doc_attributes() {
    assert_eq!(extract_doc_comment(&vec![]), None);
    assert_eq!(extract_doc_comment(&vec![marker("inline"), marker("must_use")]), None);
}

#[test]
fn doc_attributes_of_other_forms_are_passed_over() {
    let attrs = vec![
        Attribute { ident: Some("doc".to_string()), meta: Meta::List },
        Attribute { ident: Some("doc".to_string()), meta: Meta::NameValue(AttrValue::Other) },
        Attribute { ident: Some("doc".to_string()), meta: Meta::Path },
        Attribute { ident: None, meta: Meta::NameValue(AttrValue::Str("x".to_string())) },
        Attribute {
            ident: Some("docs".to_string()),
            meta: Meta::NameValue(AttrValue::Str("x".to_string())),
        },
    ];
    assert_eq!(extract_doc_comment(&attrs), None);
}

#[test]
fn single_empty_doc_line_gives_an_empty_comment() {
    assert_eq!(extract_doc_comment(&vec![doc("  ")]), Some(String::new()));
}

#[test]
fn function_parameters_carry_name_type_and_classification() {
    let inputs = vec![
        typed("data", shared_ref("str")),
        FnArg::Typed { pat: Pattern::Other, ty: plain("Point") },
        typed("count", plain("usize")),
    ];
    let params = parse_fn_params(&inputs);
    assert_eq!(params.len(), 3);
    assert_eq!(params[0].name, "data");
    assert_eq!(params[0].rust_type, "&str");
    assert!(!params[0].is_self);
    assert!(!params[0].is_mut);
    let info = params[0].type_info.as_ref().unwrap();
    assert!(info.is_reference);
    assert_eq!(info.core_type, "str");
    assert_eq!(params[1].name, "_");
    assert_eq!(params[1].rust_type, "Point");
    assert_eq!(params[2].name, "count");
    assert_eq!(params[2].type_info.as_ref().unwrap().core_type, "usize");
}

#[test]
fn receivers_are_never_parameters() {
    let inputs = vec![
        FnArg::Receiver { reference: true, mutability: false },
        typed("x", plain("u8")),
    ];
    let params = parse_fn_params(&inputs);
    assert_eq!(params.len(), 1);
    assert_eq!(params[0].name, "x");
    assert!(parse_fn_params(&vec![]).is_empty());
}

#[test]
fn method_receiver_kinds() {
    let by_ref = vec![FnArg::Receiver { reference: true, mutability: false }];
    let by_mut = vec![FnArg::Receiver { reference: true, mutability: true }, typed("x", plain("u8"))];
    let by_value = vec![FnArg::Receiver { reference: false, mutability: false }];
    let by_mut_value = vec![FnArg::Receiver { reference: false, mutability: true }];
    let none = vec![typed("x", plain("u8"))];
    assert_eq!(parse_method_params(&by_ref).1, "&self");
    assert_eq!(parse_method_params(&by_mut).1, "&mut self");
    assert_eq!(parse_method_params(&by_mut).0.len(), 1);
    assert_eq!(parse_method_params(&by_value).1, "self");
    assert_eq!(parse_method_params(&by_mut_value).1, "self");
    assert_eq!(parse_method_params(&none).1, "");
    assert_eq!(parse_method_params(&vec![]).1, "");
    assert!(parse_method_params(&by_ref).0.is_empty());
}

#[test]
fn return_type_is_absent_for_the_unit_return() {
    assert_eq!(parse_return_type(&ReturnType::Default), None);
    let ty = TypeExpr { tokens: "Result < u8 , Error >".to_string(), kind: TypeKind::Other };
    assert_eq!(parse_return_type(&ReturnType::Type(ty)), Some("Result<u8,Error>".to_string()));
}

#[test]
fn function_record() {
    let node = ItemFn {
        attrs: vec![doc(" Parses."), marker("inline")],
        vis: Visibility::Public,
        sig: Signature {
            ident: "parse".to_string(),
            inputs: vec![typed("input", shared_ref("str"))],
            output: ReturnType::Type(plain("Ast")),
            asyncness: true,
        },
    };
    let record = parse_function(&node, "front::parser");
    assert_eq!(record.name, "parse");
    assert_eq!(record.params.len(), 1);
    assert_eq!(record.return_type, Some("Ast".to_string()));
    assert!(record.is_pub);
    assert!(record.is_async);
    assert_eq!(record.doc, Some("Parses.".to_string()));
    assert_eq!(record.mod_path, "front::parser");
}

#[test]
fn method_record_is_static_exactly_without_receiver() {
    let with = parse_method(&method(
        "len",
        Visibility::Public,
        vec![FnArg::Receiver { reference: true, mutability: false }],
    ));
    assert_eq!(with.name, "len");
    assert_eq!(with.self_type, "&self");
    assert!(!with.is_static);
    assert!(with.is_pub);
    assert!(with.params.is_empty());
    assert_eq!(with.return_type, None);
    assert_eq!(with.doc, None);
    let without = parse_method(&method("new", Visibility::Public, vec![typed("n", plain("u8"))]));
    assert_eq!(without.self_type, "");
    assert!(without.is_static);
    assert_eq!(without.params.len(), 1);
}

#[test]
fn named_fields_keep_their_own_visibility_in_a_struct() {
    let node = ItemStruct {
        attrs: vec![doc("A point.")],
        vis: Visibility::Public,
        ident: "Point".to_string(),
        fields: Fields::Named(vec![
            field(Some("x"), Visibility::Public, plain("f64")),
            field(Some("y"), Visibility::Restricted, plain("f64")),
            field(Some("tag"), Visibility::Inherited, shared_ref("'static str")),
        ]),
    };
    let record = parse_struct(&node, "geometry");
    assert_eq!(record.name, "Point");
    assert!(record.is_pub);
    assert_eq!(record.doc, Some("A point.".to_string()));
    assert_eq!(record.mod_path, "geometry");
    assert_eq!(record.fields.len(), 3);
    assert_eq!(record.fields[0].name, "x");
    assert_eq!(record.fields[0].rust_type, "f64");
    assert!(record.fields[0].is_pub);
    assert_eq!(record.fields[1].name, "y");
    assert!(!record.fields[1].is_pub);
    assert_eq!(record.fields[2].rust_type, "&'staticstr");
    assert!(!record.fields[2].is_pub);
}

#[test]
fn positional_fields_are_named_by_their_index() {
    let list: Vec<Field> =
        (0..12).map(|_| field(None, Visibility::Public, plain("u8"))).collect();
    let fields = parse_fields(&Fields::Unnamed(list), false);
    assert_eq!(fields.len(), 12);
    assert_eq!(fields[0].name, "_0");
    assert_eq!(fields[1].name, "_1");
    assert_eq!(fields[9].name, "_9");
    assert_eq!(fields[10].name, "_10");
    assert_eq!(fields[11].name, "_11");
    assert!(fields[11].is_pub);
}

#[test]
fn positional_field_keeps_its_visibility() {
    let fields = parse_fields(
        &Fields::Unnamed(vec![field(None, Visibility::Inherited, plain("u8"))]),
        false,
    );
    assert_eq!(fields[0].name, "_0");
    assert!(!fields[0].is_pub);
}

#[test]
fn unit_form_has_no_fields() {
    assert!(parse_fields(&Fields::Unit, false).is_empty());
    assert!(parse_fields(&Fields::Named(vec![]), true).is_empty());
}

#[test]
fn named_field_without_identifier_gets_the_empty_name() {
    let fields =
        parse_fields(&Fields::Named(vec![field(None, Visibility::Public, plain("u8"))]), false);
    assert_eq!(fields[0].name, "");
}

#[test]
fn fields_of_enum_variants_are_public() {
    let node = ItemEnum {
        attrs: vec![],
        vis: Visibility::Public,
        ident: "Shape".to_string(),
        variants: vec![
            Variant { ident: "Unit".to_string(), fields: Fields::Unit },
            Variant {
                ident: "Circle".to_string(),
                fields: Fields::Unnamed(vec![field(None, Visibility::Inherited, plain("f64"))]),
            },
            Variant {
                ident: "Rect".to_string(),
                fields: Fields::Named(vec![
                    field(Some("w"), Visibility::Inherited, plain("f64")),
                    field(Some("h"), Visibility::Inherited, plain("f64")),
                ]),
            },
        ],
    };
    let record = parse_enum(&node, "shapes");
    assert_eq!(record.name, "Shape");
    assert!(record.is_pub);
    assert_eq!(record.doc, None);
    assert_eq!(record.mod_path, "shapes");
    assert_eq!(record.variants.len(), 3);
    assert_eq!(record.variants[0].name, "Unit");
    assert!(record.variants[0].fields.is_empty());
    assert_eq!(record.variants[1].name, "Circle");
    assert_eq!(record.variants[1].fields[0].name, "_0");
    assert!(record.variants[1].fields[0].is_pub);
    assert_eq!(record.variants[2].fields[1].name, "h");
    assert!(record.variants[2].fields[1].is_pub);
}

#[test]
fn type_alias_keeps_generic_parameters_as_written() {
    let node = ItemType {
        attrs: vec![doc("Shorthand.")],
        vis: Visibility::Public,
        ident: "Result".to_string(),
        generics: vec!["T".to_string(), "E : Debug = Error".to_string()],
        ty: TypeExpr {
            tokens: "core :: result :: Result < T , E >".to_string(),
            kind: TypeKind::Other,
        },
    };
    let record = parse_type_alias(&node);
    assert_eq!(record.name, "Result");
    assert_eq!(record.target_type, "core::result::Result<T,E>");
    assert_eq!(record.generics, vec!["T".to_string(), "E : Debug = Error".to_string()]);
    assert!(record.is_pub);
    assert_eq!(record.doc, Some("Shorthand.".to_string()));
}

#[test]
fn constant_and_static_records() {
    let constant = parse_constant(
        &ItemConst {
            attrs: vec![doc("Limit.")],
            vis: Visibility::Public,
            ident: "MAX".to_string(),
            ty: plain("usize"),
        },
        "limits",
    );
    assert_eq!(constant.name, "MAX");
    assert_eq!(constant.rust_type, "usize");
    assert!(constant.is_pub);
    assert_eq!(constant.doc, Some("Limit.".to_string()));
    assert_eq!(constant.mod_path, "limits");
    let item = parse_static(
        &ItemStatic {
            attrs: vec![],
            vis: Visibility::Public,
            ident: "COUNTER".to_string(),
            ty: plain("u64"),
            mutability: true,
        },
        "",
    );
    assert_eq!(item.name, "COUNTER");
    assert_eq!(item.rust_type, "u64");
    assert!(item.is_mut);
    assert!(item.is_pub);
    assert_eq!(item.doc, None);
    assert_eq!(item.mod_path, "");
}

#[test]
fn only_exported_named_macro_rules_are_recorded() {
    let exported = ItemMacro {
        attrs: vec![doc("Builds a map."), marker("macro_export")],
        ident: Some("hashmap".to_string()),
        path: Some("macro_rules".to_string()),
    };
    let record = parse_macro(&exported, "util").unwrap();
    assert_eq!(record.name, "hashmap");
    assert_eq!(record.doc, Some("Builds a map.".to_string()));
    assert_eq!(record.mod_path, "util");
    assert!(record.is_exported);

    let unmarked = ItemMacro { attrs: vec![], ..exported.clone() };
    assert!(parse_macro(&unmarked, "util").is_none());
    let invocation = ItemMacro { path: Some("lazy_static".to_string()), ..exported.clone() };
    assert!(parse_macro(&invocation, "util").is_none());
    let pathless = ItemMacro { path: None, ..exported.clone() };
    assert!(parse_macro(&pathless, "util").is_none());
    let unnamed = ItemMacro { ident: None, ..exported.clone() };
    assert!(parse_macro(&unnamed, "util").is_none());
}

#[test]
fn impl_block_without_public_methods_is_dropped() {
    let node = ItemImpl {
        self_ty: plain("Point"),
        trait_: None,
        items: vec![
            ImplItem::Fn(method("helper", Visibility::Inherited, vec![])),
            ImplItem::Fn(method("internal", Visibility::Restricted, vec![])),
            ImplItem::Other,
        ],
    };
    assert!(parse_impl(&node).is_none());
    let empty = ItemImpl { self_ty: plain("Point"), trait_: None, items: vec![] };
    assert!(parse_impl(&empty).is_none());
}

#[test]
fn trait_impl_keeps_private_methods() {
    let node = ItemImpl {
        self_ty: plain("Point"),
        trait_: Some(Path {
            segments: vec![
                PathSegment { ident: "std".to_string(), arguments: None },
                PathSegment { ident: "fmt".to_string(), arguments: None },
                PathSegment { ident: "Display".to_string(), arguments: None },
            ],
        }),
        items: vec![ImplItem::Fn(method(
            "fmt",
            Visibility::Inherited,
            vec![FnArg::Receiver { reference: true, mutability: false }],
        ))],
    };
    let record = parse_impl(&node).unwrap();
    assert_eq!(record.target_name, "Point");
    assert_eq!(record.trait_name, Some("Display".to_string()));
    assert_eq!(record.methods.len(), 1);
    assert_eq!(record.methods[0].name, "fmt");
    assert!(record.methods[0].is_pub);
}

#[test]
fn trait_impl_without_functions_is_dropped() {
    let node = ItemImpl {
        self_ty: plain("Point"),
        trait_: Some(type_path("Marker")),
        items: vec![ImplItem::Other],
    };
    assert!(parse_impl(&node).is_none());
}

#[test]
fn inherent_impl_keeps_public_methods_only_and_in_order() {
    let node = ItemImpl {
        self_ty: TypeExpr {
            tokens: "geometry :: Point < T >".to_string(),
            kind: TypeKind::Path(Path {
                segments: vec![
                    PathSegment { ident: "geometry".to_string(), arguments: None },
                    PathSegment { ident: "Point".to_string(), arguments: Some("< T >".to_string()) },
                ],
            }),
        },
        trait_: None,
        items: vec![
            ImplItem::Fn(method("new", Visibility::Public, vec![])),
            ImplItem::Fn(method("hidden", Visibility::Inherited, vec![])),
            ImplItem::Other,
            ImplItem::Fn(method("len", Visibility::Public, vec![])),
            ImplItem::Fn(method("scoped", Visibility::Restricted, vec![])),
        ],
    };
    let record = parse_impl(&node).unwrap();
    assert_eq!(record.target_name, "Point");
    assert_eq!(record.trait_name, None);
    let names: Vec<&str> = record.methods.iter().map(|m| m.name.as_str()).collect();
    assert_eq!(names, vec!["new", "len"]);
}

#[test]
fn impl_for_a_type_that_is_no_named_type_is_dropped() {
    let node = ItemImpl {
        self_ty: shared_ref("Point"),
        trait_: Some(type_path("Display")),
        items: vec![ImplItem::Fn(method("fmt", Visibility::Public, vec![]))],
    };
    assert!(parse_impl(&node).is_none());
    let tuple = ItemImpl {
        self_ty: TypeExpr { tokens: "(A , B)".to_string(), kind: TypeKind::Other },
        trait_: None,
        items: vec![ImplItem::Fn(method("f", Visibility::Public, vec![]))],
    };
    assert!(parse_impl(&tuple).is_none());
}

#[test]
fn impl_for_a_path_without_segments_has_an_empty_target() {
    let node = ItemImpl {
        self_ty: TypeExpr { tokens: "".to_string(), kind: TypeKind::Path(Path { segments: vec![] }) },
        trait_: Some(Path { segments: vec![] }),
        items: vec![ImplItem::Fn(method("f", Visibility::Inherited, vec![]))],
    };
    let record = parse_impl(&node).unwrap();
    assert_eq!(record.target_name, "");
    assert_eq!(record.trait_name, Some(String::new()));
}

#[test]
fn parameters_of_a_written_signature_have_a_type() {
    let inputs = vec![
        FnArg::Receiver { reference: true, mutability: true },
        typed("a", shared_ref("str")),
        typed("b", TypeExpr { tokens: "( )".to_string(), kind: TypeKind::Other }),
        typed("c", plain("T")),
    ];
    let (params, receiver) = parse_method_params(&inputs);
    assert_eq!(receiver, "&mut self");
    assert_eq!(params.len(), inputs.len() - 1);
    assert!(params.iter().all(|p| !p.rust_type.is_empty()));
    assert!(parse_fn_params(&inputs).iter().all(|p| !p.rust_type.is_empty()));
    let record = parse_method(&method("m", Visibility::Public, inputs));
    assert!(!record.is_static);
    let free = parse_method(&method("n", Visibility::Public, vec![typed("a", plain("u8"))]));
    assert!(free.is_static);
}

#[test]
fn blank_type_text_gives_a_blank_type() {
    let blank = TypeExpr { tokens: "   ".to_string(), kind: TypeKind::Other };
    let params = parse_fn_params(&vec![typed("a", blank)]);
    assert_eq!(params[0].rust_type, "");
    assert_eq!(params[0].type_info.as_ref().unwrap().full_type, "");
}
