use cookcrab_parser::manifest::{
    parse_cargo_features, parse_name_line, parse_package_name, strip_quotes,
};

fn owned(items: &[&str]) -> Vec<String> {
    items.iter().map(|s| s.to_string()).collect()
}

#[test]
fn features_are_listed_sorted_with_the_members_of_default() {
    let manifest = "\
[package]
name = \"demo\"

[features]
std = []
default = [\"std\", \"alloc\"]
alloc = []
serde = [\"dep:serde\"]
";
    let (available, defaults) = parse_cargo_features(manifest);
    assert_eq!(available, owned(&["alloc", "default", "serde", "std"]));
    assert_eq!(defaults, owned(&["alloc", "std"]));
}

#[test]
fn repeated_default_members_are_kept() {
    let manifest = "[features]\ndefault = [\"b\", \"a\", \"b\"]\na = []\nb = []\n";
    let (available, defaults) = parse_cargo_features(manifest);
    assert_eq!(available, owned(&["a", "b", "default"]));
    assert_eq!(defaults, owned(&["a", "b", "b"]));
}

#[test]
fn default_members_that_are_no_strings_are_passed_over() {
    let manifest = "[features]\ndefault = [[\"x\"], [\"y\"]]\n";
    let (available, defaults) = parse_cargo_features(manifest);
    assert_eq!(available, owned(&["default"]));
    assert_eq!(defaults, owned(&[]));
}

#[test]
fn default_that_is_no_array_has_no_members() {
    let manifest = "[features]\ndefault = \"std\"\nstd = []\n";
    let (available, defaults) = parse_cargo_features(manifest);
    assert_eq!(available, owned(&["default", "std"]));
    assert_eq!(defaults, owned(&[]));
}

#[test]
fn manifest_without_features_declares_none() {
    let (available, defaults) = parse_cargo_features("[package]\nname = \"demo\"\n");
    assert!(available.is_empty());
    assert!(defaults.is_empty());
    let (available, defaults) = parse_cargo_features("");
    assert!(available.is_empty());
    assert!(defaults.is_empty());
}

#[test]
fn features_that_are_no_table_declare_none() {
    let (available, defaults) = parse_cargo_features("features = [\"a\"]\n");
    assert!(available.is_empty());
    assert!(defaults.is_empty());
}

#[test]
fn malformed_manifest_declares_none() {
    let (available, defaults) = parse_cargo_features("[features\ndefault = [");
    assert!(available.is_empty());
    assert!(defaults.is_empty());
}

#[test]
fn features_without_default_have_no_default_members() {
    let (available, defaults) = parse_cargo_features("[features]\nzeta = []\nalpha = []\n");
    assert_eq!(available, owned(&["alpha", "zeta"]));
    assert!(defaults.is_empty());
}

#[test]
fn package_name_is_read_from_the_first_name_line() {
    let manifest = "[package]\nname = \"cookcrab\"\nversion = \"0.1.0\"\n\n[lib]\nname = \"other\"\n";
    assert_eq!(parse_package_name(manifest), "cookcrab");
}

#[test]
fn package_name_ignores_indentation_quotes_and_line_endings() {
    assert_eq!(parse_package_name("[package]\r\n  name   =   \"demo\"  \r\n"), "demo");
    assert_eq!(parse_package_name("name=\"\"\"x\"\"\""), "x");
    assert_eq!(parse_package_name("name = plain"), "plain");
    assert_eq!(parse_package_name("name = \"a b\"\n"), "a b");
}

#[test]
fn package_name_takes_the_text_between_the_first_two_equal_signs() {
    assert_eq!(parse_package_name("name = \"a\" = \"b\"\n"), "a");
    assert_eq!(parse_package_name("name ==x"), "");
    assert_eq!(parse_package_name("name ="), "");
}

#[test]
fn package_name_is_unknown_without_a_usable_name_line() {
    assert_eq!(parse_package_name(""), "unknown");
    assert_eq!(parse_package_name("[package]\nversion = \"1\"\n"), "unknown");
    assert_eq!(parse_package_name("name\nname = \"late\"\n"), "unknown");
    assert_eq!(parse_package_name("# name = \"x\"\n"), "unknown");
}

#[test]
fn any_line_that_starts_with_name_counts() {
    assert_eq!(parse_package_name("namespace = \"ns\"\nname = \"x\"\n"), "ns");
}

#[test]
fn bare_carriage_return_at_the_end_of_the_text_is_trimmed_with_the_value() {
    assert_eq!(parse_package_name("name = \"x\"\r"), "x");
}

#[test]
fn name_line_reads_one_line() {
    assert_eq!(parse_name_line("name = \"demo\""), "demo");
    assert_eq!(parse_name_line("no equal sign"), "unknown");
    assert_eq!(parse_name_line("= \"lead\""), "lead");
}

#[test]
fn strip_quotes_removes_quotes_at_both_ends_only() {
    assert_eq!(strip_quotes("\"demo\""), "demo");
    assert_eq!(strip_quotes("\"\"a\"b\"\""), "a\"b");
    assert_eq!(strip_quotes("\"\"\""), "");
    assert_eq!(strip_quotes("plain"), "plain");
    assert_eq!(strip_quotes(""), "");
}
