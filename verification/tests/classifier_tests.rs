use cookcrab_parser::classify::{analyze_type, ownership_signals, type_to_string};
use cookcrab_parser::syntax::{Path, PathSegment, TypeExpr, TypeKind};

fn segment(ident: &str, arguments: Option<&str>) -> PathSegment {
    PathSegment { ident: ident.to_string(), arguments: arguments.map(|a| a.to_string()) }
}

fn reference(tokens: &str, mutable: bool, referent: &str) -> TypeExpr {
    TypeExpr {
        tokens: tokens.to_string(),
        kind: TypeKind::Reference { mutable, referent: referent.to_string() },
    }
}

fn impl_trait(tokens: &str, bounds: &[&str]) -> TypeExpr {
    TypeExpr {
        tokens: tokens.to_string(),
        kind: TypeKind::ImplTrait { bounds: bounds.iter().map(|b| b.to_string()).collect() },
    }
}

fn named(tokens: &str, segments: Vec<PathSegment>) -> TypeExpr {
    TypeExpr { tokens: tokens.to_string(), kind: TypeKind::Path(Path { segments }) }
}

#[test]
fn shared_reference_to_str() {
    let info = analyze_type(&reference("& str", false, "str"));
    assert_eq!(info.full_type, "&str");
    assert!(info.is_reference);
    assert!(!info.is_mutable_ref);
    assert!(!info.is_impl_trait);
    assert_eq!(info.trait_bound, None);
    assert_eq!(info.core_type, "str");
    assert!(info.expects_borrow);
    assert!(!info.expects_owned);
}

#[test]
fn mutable_reference_to_generic_type() {
    let info = analyze_type(&reference("& mut Vec < u8 >", true, "Vec < u8 >"));
    assert_eq!(info.full_type, "&mutVec<u8>");
    assert!(info.is_reference);
    assert!(info.is_mutable_ref);
    assert_eq!(info.core_type, "Vec<u8>");
    assert!(info.expects_borrow);
    assert!(!info.expects_owned);
}

#[test]
fn reference_core_type_is_the_text_of_the_referent_only() {
    let info = analyze_type(&reference("& 'a & mut T", false, "& mut T"));
    assert_eq!(info.core_type, "&mutT");
    assert!(!info.is_mutable_ref);
}

#[test]
fn impl_trait_with_owning_bound() {
    let info = analyze_type(&impl_trait("impl Into < String >", &["Into < String >"]));
    assert_eq!(info.full_type, "implInto<String>");
    assert!(info.is_impl_trait);
    assert!(!info.is_reference);
    assert!(!info.is_mutable_ref);
    assert_eq!(info.trait_bound, Some("Into<String>".to_string()));
    assert_eq!(info.core_type, "Into<String>");
    assert!(info.expects_owned);
    assert!(!info.expects_borrow);
}

#[test]
fn impl_trait_with_borrowing_bound_is_matched_without_regard_to_case() {
    let info = analyze_type(&impl_trait("impl AsRef < [u8] >", &["AsRef < [u8] >"]));
    assert_eq!(info.trait_bound, Some("AsRef<[u8]>".to_string()));
    assert!(info.expects_borrow);
    assert!(!info.expects_owned);
    let info = analyze_type(&impl_trait("impl Borrow < str >", &["Borrow < str >"]));
    assert!(info.expects_borrow);
    let info = analyze_type(&impl_trait("impl AsMut < T >", &["AsMut < T >"]));
    assert!(info.expects_borrow);
}

#[test]
fn impl_trait_bounds_are_joined_with_plus() {
    let info = analyze_type(&impl_trait(
        "impl AsRef < str > + Into < String > + 'a",
        &["AsRef < str >", "Into < String >", "'a"],
    ));
    assert_eq!(info.trait_bound, Some("AsRef<str>+Into<String>+'a".to_string()));
    assert_eq!(info.core_type, "AsRef<str>+Into<String>+'a");
    assert!(info.expects_borrow);
    assert!(info.expects_owned);
}

#[test]
fn impl_trait_with_neutral_bound_sets_neither_signal() {
    let info = analyze_type(&impl_trait("impl Display", &["Display"]));
    assert!(info.is_impl_trait);
    assert_eq!(info.trait_bound, Some("Display".to_string()));
    assert!(!info.expects_borrow);
    assert!(!info.expects_owned);
}

#[test]
fn impl_trait_without_bounds_has_an_empty_bound() {
    let info = analyze_type(&impl_trait("impl", &[]));
    assert!(info.is_impl_trait);
    assert_eq!(info.trait_bound, Some(String::new()));
    assert_eq!(info.core_type, "");
}

#[test]
fn named_type_keeps_the_last_segment_and_its_arguments() {
    let info = analyze_type(&named(
        "std :: collections :: HashMap < String , Vec < u8 > >",
        vec![
            segment("std", None),
            segment("collections", None),
            segment("HashMap", Some("< String , Vec < u8 > >")),
        ],
    ));
    assert_eq!(info.full_type, "std::collections::HashMap<String,Vec<u8>>");
    assert_eq!(info.core_type, "HashMap<String,Vec<u8>>");
    assert!(!info.is_reference);
    assert!(!info.is_impl_trait);
    assert_eq!(info.trait_bound, None);
    assert!(!info.expects_borrow);
    assert!(!info.expects_owned);
}

#[test]
fn named_type_without_arguments() {
    let info = analyze_type(&named("crate :: Error", vec![segment("crate", None), segment("Error", None)]));
    assert_eq!(info.full_type, "crate::Error");
    assert_eq!(info.core_type, "Error");
}

#[test]
fn named_type_with_parenthesized_arguments_keeps_the_parentheses() {
    let info = analyze_type(&named("Fn () -> u8", vec![segment("Fn", Some("() -> u8"))]));
    assert_eq!(info.full_type, "Fn()->u8");
    assert_eq!(info.core_type, "Fn()->u8");
}

#[test]
fn named_type_without_segments_falls_back_to_the_full_text() {
    let info = analyze_type(&named("odd path", vec![]));
    assert_eq!(info.core_type, "oddpath");
}

#[test]
fn other_shapes_keep_the_full_text_and_clear_every_flag() {
    let ty = TypeExpr { tokens: "(u8 , & str)".to_string(), kind: TypeKind::Other };
    let info = analyze_type(&ty);
    assert_eq!(info.full_type, "(u8,&str)");
    assert_eq!(info.core_type, "(u8,&str)");
    assert!(!info.is_reference);
    assert!(!info.is_mutable_ref);
    assert!(!info.is_impl_trait);
    assert_eq!(info.trait_bound, None);
    assert!(!info.expects_borrow);
    assert!(!info.expects_owned);
}

#[test]
fn descriptor_invariant_holds_on_every_shape() {
    let shapes = vec![
        reference("& str", false, "str"),
        reference("& mut T", true, "T"),
        impl_trait("impl Into < String >", &["Into < String >"]),
        named("u8", vec![segment("u8", None)]),
        TypeExpr { tokens: "[u8 ; 4]".to_string(), kind: TypeKind::Other },
    ];
    for ty in &shapes {
        let info = analyze_type(ty);
        assert!(!info.is_mutable_ref || info.is_reference);
        assert_eq!(info.trait_bound.is_some(), info.is_impl_trait);
    }
}

#[test]
fn type_to_string_only_removes_spaces() {
    let ty = TypeExpr { tokens: "Result < T , E >".to_string(), kind: TypeKind::Other };
    assert_eq!(type_to_string(&ty), "Result<T,E>");
}

#[test]
fn ownership_signals_read_a_lowered_text() {
    assert_eq!(ownership_signals("asref<str>"), (true, false));
    assert_eq!(ownership_signals("borrow<str>"), (true, false));
    assert_eq!(ownership_signals("asmut<[u8]>"), (true, false));
    assert_eq!(ownership_signals("into<string>"), (false, true));
    assert_eq!(ownership_signals("tryinto<u8>"), (false, true));
    assert_eq!(ownership_signals("asref<str>+into<string>"), (true, true));
    assert_eq!(ownership_signals("display"), (false, false));
    assert_eq!(ownership_signals("AsRef<str>"), (false, false));
    assert_eq!(ownership_signals(""), (false, false));
}
