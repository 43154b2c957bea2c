use cookcrab_parser::aggregate::{
    collect_tree, parse_crate, parse_file, parse_file_internal, Manifest, SourceEntry, SourceInput,
};
use cookcrab_parser::error::ParseError;
use cookcrab_parser::syntax::{
    Fields, Item, ItemFn, ItemKind, ItemStruct, ReturnType, Signature, SourceFile, Visibility,
};

fn function(name: &str, vis: Visibility) -> Item {
    Item {
        kind: ItemKind::Fn(ItemFn {
            attrs: vec![],
            vis,
            sig: Signature {
                ident: name.to_string(),
                inputs: vec![],
                output: ReturnType::Default,
                asyncness: false,
            },
        }),
        nested: vec![],
    }
}

fn structure(name: &str) -> Item {
    Item {
        kind: ItemKind::Struct(ItemStruct {
            attrs: vec![],
            vis: Visibility::Public,
            ident: name.to_string(),
            fields: Fields::Unit,
        }),
        nested: vec![],
    }
}

fn parsed(components: &[&str], items: Vec<Item>) -> SourceEntry {
    SourceEntry {
        components: components.iter().map(|c| c.to_string()).collect(),
        input: SourceInput::Parsed(SourceFile { items }),
    }
}

fn malformed(components: &[&str]) -> SourceEntry {
    SourceEntry {
        components: components.iter().map(|c| c.to_string()).collect(),
        input: SourceInput::Malformed("expected identifier".to_string()),
    }
}

fn unreadable(components: &[&str]) -> SourceEntry {
    SourceEntry {
        components: components.iter().map(|c| c.to_string()).collect(),
        input: SourceInput::Unreadable("permission denied".to_string()),
    }
}

fn sample_tree() -> Vec<SourceEntry> {
    vec![
        parsed(&["lib.rs"], vec![function("root", Visibility::Public), structure("Root")]),
        parsed(&["jws", "mod.rs"], vec![function("sign", Visibility::Public)]),
        parsed(
            &["jws", "alg", "hmac.rs"],
            vec![function("hmac", Visibility::Public), function("helper", Visibility::Inherited)],
        ),
    ]
}

const MANIFEST: &str = "[package]\nname = \"josekit\"\n\n[features]\ndefault = [\"std\"]\nstd = []\nvendored = []\n";

#[test]
fn single_file_model_is_named_by_the_file_stem() {
    let input = SourceInput::Parsed(SourceFile {
        items: vec![function("f", Visibility::Public), function("g", Visibility::Restricted)],
    });
    let model = parse_file(Some("parser.rs"), &input).unwrap();
    assert_eq!(model.name, "parser");
    assert_eq!(model.functions.len(), 1);
    assert_eq!(model.functions[0].name, "f");
    assert_eq!(model.functions[0].mod_path, "");
    assert!(model.available_features.is_empty());
    assert!(model.default_features.is_empty());
}

#[test]
fn single_file_model_uses_the_given_module() {
    let input = SourceInput::Parsed(SourceFile { items: vec![structure("S")] });
    let model = parse_file_internal(Some("hmac.rs"), &input, "jws::alg::hmac").unwrap();
    assert_eq!(model.name, "hmac");
    assert_eq!(model.structs[0].mod_path, "jws::alg::hmac");
}

#[test]
fn single_file_without_a_file_name_is_unknown() {
    let input = SourceInput::Parsed(SourceFile { items: vec![] });
    let model = parse_file(None, &input).unwrap();
    assert_eq!(model.name, "unknown");
    assert!(model.functions.is_empty());
}

#[test]
fn unreadable_single_file_is_an_io_failure() {
    let input = SourceInput::Unreadable("No such file or directory (os error 2)".to_string());
    match parse_file(Some("gone.rs"), &input) {
        Err(ParseError::Io(message)) => {
            assert_eq!(message, "Failed to read file: No such file or directory (os error 2)")
        }
        other => panic!("unexpected outcome: {:?}", other),
    }
}

#[test]
fn malformed_single_file_is_a_syntax_failure() {
    let input = SourceInput::Malformed("expected `;`".to_string());
    match parse_file_internal(Some("bad.rs"), &input, "m") {
        Err(ParseError::Syntax(message)) => {
            assert_eq!(message, "Failed to parse Rust: expected `;`")
        }
        other => panic!("unexpected outcome: {:?}", other),
    }
}

#[test]
fn tree_model_tags_each_file_with_its_module_path() {
    let model = parse_crate(&Manifest::Found(MANIFEST.to_string()), &sample_tree());
    assert_eq!(model.name, "josekit");
    let functions: Vec<(&str, &str)> =
        model.functions.iter().map(|f| (f.name.as_str(), f.mod_path.as_str())).collect();
    assert_eq!(functions, vec![("root", ""), ("sign", "jws"), ("hmac", "jws::alg::hmac")]);
    assert_eq!(model.structs.len(), 1);
    assert_eq!(model.structs[0].mod_path, "");
    assert_eq!(
        model.available_features,
        vec!["default".to_string(), "std".to_string(), "vendored".to_string()]
    );
    assert_eq!(model.default_features, vec!["std".to_string()]);
}

#[test]
fn one_bad_file_among_good_ones_is_left_out_without_failure() {
    let good = parse_crate(&Manifest::Found(MANIFEST.to_string()), &sample_tree());
    for position in 0..=3 {
        for bad in [malformed(&["broken.rs"]), unreadable(&["locked.rs"])] {
            let mut entries = sample_tree();
            entries.insert(position, bad);
            let model = parse_crate(&Manifest::Found(MANIFEST.to_string()), &entries);
            assert_eq!(format!("{:?}", model), format!("{:?}", good));
        }
    }
}

#[test]
fn tree_of_bad_files_only_is_empty() {
    let entries = vec![malformed(&["a.rs"]), unreadable(&["b.rs"])];
    let model = parse_crate(&Manifest::Missing { directory: Some("pkg".to_string()) }, &entries);
    assert_eq!(model.name, "pkg");
    assert!(model.functions.is_empty());
    assert!(model.structs.is_empty());
    assert!(collect_tree(&entries).functions.is_empty());
}

#[test]
fn extraction_of_the_same_input_gives_the_same_model() {
    let first = parse_crate(&Manifest::Found(MANIFEST.to_string()), &sample_tree());
    let second = parse_crate(&Manifest::Found(MANIFEST.to_string()), &sample_tree());
    assert_eq!(format!("{:?}", first), format!("{:?}", second));
}

#[test]
fn records_of_two_halves_are_the_records_of_the_whole() {
    let whole = collect_tree(&sample_tree());
    let mut tree = sample_tree();
    let tail = tree.split_off(1);
    let mut head = collect_tree(&tree);
    head.extend(collect_tree(&tail));
    assert_eq!(format!("{:?}", head), format!("{:?}", whole));
}

#[test]
fn missing_manifest_names_the_package_by_its_directory() {
    let model = parse_crate(&Manifest::Missing { directory: Some("my-crate".to_string()) }, &vec![]);
    assert_eq!(model.name, "my-crate");
    assert!(model.available_features.is_empty());
    assert!(model.default_features.is_empty());
    let model = parse_crate(&Manifest::Missing { directory: None }, &vec![]);
    assert_eq!(model.name, "unknown");
}

#[test]
fn unreadable_manifest_gives_unknown_name_and_no_features() {
    let model = parse_crate(&Manifest::Found(String::new()), &sample_tree());
    assert_eq!(model.name, "unknown");
    assert!(model.available_features.is_empty());
    assert!(model.default_features.is_empty());
    assert_eq!(model.functions.len(), 3);
}

#[test]
fn malformed_manifest_still_gives_its_name() {
    let text = "name = \"half\"\n[features\n";
    let model = parse_crate(&Manifest::Found(text.to_string()), &vec![]);
    assert_eq!(model.name, "half");
    assert!(model.available_features.is_empty());
}
