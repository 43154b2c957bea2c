//! The manifest reader: the package name and the feature lists of a package
//! manifest.
//!
//! The feature lists come from the parsed manifest, which the `toml` crate
//! parses.  The package name is read from the text line by line and needs no
//! well-formed manifest.

use vstd::prelude::*;
use vstd::string::*;
use crate::ordering::{is_ordered, sort_texts, sorted_texts};
use crate::text::{chars_of, starts_with, texts, trim, trimmed};

verus! {

/// `toml::map::Map`, the table type of the `toml` crate.  Nothing of its
/// inside is visible here.
#[verifier::external_type_specification]
#[verifier::external_body]
#[verifier::reject_recursive_types(K)]
#[verifier::reject_recursive_types(V)]
pub struct ExTomlMap<K, V>(toml::map::Map<K, V>);

/// `toml::Value`, a value of a parsed manifest.  Nothing of its inside is
/// visible here.
#[verifier::external_type_specification]
#[verifier::external_body]
pub struct ExTomlValue(toml::Value);

/// What a value of a parsed manifest is, as far as the reader tells values
/// apart.
pub enum ValueModel {
    /// A string.
    Text(Seq<char>),
    /// An array, with its elements in order.
    Array(Seq<ValueModel>),
    /// A table, with its entries in the order in which the table hands them
    /// out.  No two entries have the same key.
    Table(Seq<(Seq<char>, ValueModel)>),
    /// An integer, a float, a boolean or a date.
    Other,
}

/// The entries of the table that a text parses to as a TOML document,
/// absent where the text is no TOML document.
pub uninterp spec fn parsed_manifest(content: Seq<char>) -> Option<Seq<(Seq<char>, ValueModel)>>;

/// The entries that a table holds, in the order in which it hands them out.
pub uninterp spec fn table_model(table: toml::Table) -> Seq<(Seq<char>, ValueModel)>;

/// What a value holds.
pub uninterp spec fn value_model(value: toml::Value) -> ValueModel;

/// The keys of a list of entries, in order.
pub open spec fn entry_keys(entries: Seq<(Seq<char>, ValueModel)>) -> Seq<Seq<char>> {
    entries.map_values(|entry: (Seq<char>, ValueModel)| entry.0)
}

/// The value of the first entry with the given key.
pub open spec fn entry_value(entries: Seq<(Seq<char>, ValueModel)>, key: Seq<char>) -> Option<
    ValueModel,
>
    decreases entries.len(),
{
    if entries.len() == 0 {
        None
    } else if entries[0].0 == key {
        Some(entries[0].1)
    } else {
        entry_value(entries.drop_first(), key)
    }
}

/// What a list of values holds, element by element.
pub open spec fn value_models(values: Seq<toml::Value>) -> Seq<ValueModel> {
    values.map_values(|value: toml::Value| value_model(value))
}

/// `str::parse::<toml::Table>`, which parses a text as a TOML document.
/// The outcome is a function of the text; a text that is no document gives
/// nothing, and the parser's error is dropped.
#[verifier::external_body]
fn parse_manifest(content: &str) -> (r: Option<toml::Table>)
    ensures
        match r {
            Some(table) => parsed_manifest(content@) == Some(table_model(table)),
            None => parsed_manifest(content@) is None,
        },
{
    content.parse::<toml::Table>().ok()
}

/// `toml::map::Map::keys`: the keys of a table in iteration order, each
/// cloned.
#[verifier::external_body]
fn keys_of(table: &toml::Table) -> (r: Vec<String>)
    ensures
        texts(r@) == entry_keys(table_model(*table)),
{
    table.keys().cloned().collect()
}

/// `toml::map::Map::get`: the value stored under `key`, if there is one.
/// A table holds at most one entry for a key.
#[verifier::external_body]
fn entry_of<'a>(table: &'a toml::Table, key: &str) -> (r: Option<&'a toml::Value>)
    ensures
        match r {
            Some(value) => entry_value(table_model(*table), key@) == Some(value_model(*value)),
            None => entry_value(table_model(*table), key@) is None,
        },
{
    table.get(key)
}

/// `toml::Value::as_table`: the table inside a value of the table variant,
/// nothing for every other variant.
pub assume_specification[ toml::Value::as_table ](value: &toml::Value) -> (r: Option<
    &toml::Table,
>)
    ensures
        match r {
            Some(table) => value_model(*value) == ValueModel::Table(table_model(*table)),
            None => !(value_model(*value) is Table),
        },
;

/// `toml::Value::as_array`: the elements inside a value of the array
/// variant, nothing for every other variant.
pub assume_specification[ toml::Value::as_array ](value: &toml::Value) -> (r: Option<
    &Vec<toml::Value>,
>)
    ensures
        match r {
            Some(items) => value_model(*value) == ValueModel::Array(value_models(items@)),
            None => !(value_model(*value) is Array),
        },
;

/// `toml::Value::as_str`: the text inside a value of the string variant,
/// nothing for every other variant.
pub assume_specification[ toml::Value::as_str ](value: &toml::Value) -> (r: Option<&str>)
    ensures
        match r {
            Some(text) => value_model(*value) == ValueModel::Text(text@),
            None => !(value_model(*value) is Text),
        },
;

/// The text of a value that is a string.
pub open spec fn text_of(value: ValueModel) -> Option<Seq<char>> {
    match value {
        ValueModel::Text(text) => Some(text),
        _ => None,
    }
}

/// The texts among the elements of an array, in order.  Elements of other
/// types are passed over.
pub open spec fn text_items(items: Seq<ValueModel>) -> Seq<Seq<char>> {
    items.filter_map(|value: ValueModel| text_of(value))
}

/// The members of the `default` feature of a feature table: the texts in
/// the array under that key.  Without the key, or with another value under
/// it, there are none.
pub open spec fn default_members(features: Seq<(Seq<char>, ValueModel)>) -> Seq<Seq<char>> {
    match entry_value(features, "default"@) {
        Some(ValueModel::Array(items)) => text_items(items),
        _ => Seq::empty(),
    }
}

/// The feature table of a document: the table under the top-level key
/// `features`.
pub open spec fn feature_table(document: Seq<(Seq<char>, ValueModel)>) -> Option<
    Seq<(Seq<char>, ValueModel)>,
> {
    match entry_value(document, "features"@) {
        Some(ValueModel::Table(features)) => Some(features),
        _ => None,
    }
}

/// The feature lists of a document: every key of its feature table, and
/// the members of the default feature, both sorted.  A document without a
/// feature table declares none.
pub open spec fn document_features(document: Option<Seq<(Seq<char>, ValueModel)>>) -> (
    Seq<Seq<char>>,
    Seq<Seq<char>>,
) {
    match document {
        Some(entries) => match feature_table(entries) {
            Some(features) => (
                sorted_texts(entry_keys(features)),
                sorted_texts(default_members(features)),
            ),
            None => (Seq::empty(), Seq::empty()),
        },
        None => (Seq::empty(), Seq::empty()),
    }
}

/// The features that a manifest declares and the members of its default
/// feature, both sorted.  A text that is no manifest declares none.
pub open spec fn declared_features(content: Seq<char>) -> (Seq<Seq<char>>, Seq<Seq<char>>) {
    document_features(parsed_manifest(content))
}

fn collect_text_items(items: &Vec<toml::Value>) -> (r: Vec<String>)
    ensures
        texts(r@) == text_items(value_models(items@)),
{
    let ghost models = value_models(items@);
    let mut out: Vec<String> = Vec::new();
    let mut i: usize = 0;
    assert(models.take(0) == Seq::<ValueModel>::empty());
    assert(texts(out@) == Seq::<Seq<char>>::empty());
    while i < items.len()
        invariant
            i <= items.len(),
            models == value_models(items@),
            texts(out@) == text_items(models.take(i as int)),
        decreases items.len() - i,
    {
        proof {
            models.lemma_filter_map_take_succ(|value: ValueModel| text_of(value), i as int);
            assert(models[i as int] == value_model(items@[i as int]));
        }
        match items[i].as_str() {
            Some(text) => {
                let ghost before = texts(out@);
                out.push(String::from_str(text));
                assert(texts(out@) == before + seq![text@]);
            },
            None => {},
        }
        i += 1;
    }
    assert(models.take(models.len() as int) == models);
    out
}

fn default_members_of(features: &toml::Table) -> (r: Vec<String>)
    ensures
        texts(r@) == default_members(table_model(*features)),
{
    match entry_of(features, "default") {
        Some(value) => match value.as_array() {
            Some(items) => {
                return collect_text_items(items);
            },
            None => {},
        },
        None => {},
    }
    let out: Vec<String> = Vec::new();
    assert(texts(out@) == Seq::<Seq<char>>::empty());
    out
}

fn feature_table_of(document: &toml::Table) -> (r: Option<&toml::Table>)
    ensures
        match r {
            Some(features) => feature_table(table_model(*document)) == Some(
                table_model(*features),
            ),
            None => feature_table(table_model(*document)) is None,
        },
{
    match entry_of(document, "features") {
        Some(value) => value.as_table(),
        None => None,
    }
}

/// Reads the feature lists of a manifest: every declared feature, and the
/// members of the `default` feature.  Both lists are sorted and keep
/// repeated names.  Where the text is no TOML document or has no feature
/// table, both are empty.
pub fn parse_cargo_features(content: &str) -> (r: (Vec<String>, Vec<String>))
    ensures
        texts(r.0@) == declared_features(content@).0,
        texts(r.1@) == declared_features(content@).1,
        is_ordered(texts(r.0@)),
        is_ordered(texts(r.1@)),
{
    let document = parse_manifest(content);
    match &document {
        Some(table) => match feature_table_of(table) {
            Some(features) => {
                let available = sort_texts(&keys_of(features));
                let defaults = sort_texts(&default_members_of(features));
                return (available, defaults);
            },
            None => {},
        },
        None => {},
    }
    let available: Vec<String> = Vec::new();
    let defaults: Vec<String> = Vec::new();
    assert(texts(available@) == Seq::<Seq<char>>::empty());
    assert(texts(defaults@) == Seq::<Seq<char>>::empty());
    (available, defaults)
}

/// The number of characters of `s` that stand before the first `c`; the
/// length of `s` where it holds no `c`.
pub open spec fn span_before(s: Seq<char>, c: char) -> nat
    decreases s.len(),
{
    if s.len() == 0 || s[0] == c {
        0
    } else {
        (1 + span_before(s.drop_first(), c)) as nat
    }
}

/// Finds the first `c` at or behind position `from`.
fn find_char(chars: &Vec<char>, from: usize, c: char) -> (r: usize)
    requires
        from <= chars.len(),
    ensures
        from <= r <= chars.len(),
        r - from == span_before(chars@.skip(from as int), c),
{
    let mut r: usize = from;
    while r < chars.len() && chars[r] != c
        invariant
            from <= r <= chars.len(),
            span_before(chars@.skip(from as int), c) == (r - from) + span_before(
                chars@.skip(r as int),
                c,
            ),
        decreases chars.len() - r,
    {
        assert(chars@.skip(r as int).drop_first() == chars@.skip(r + 1));
        r += 1;
    }
    r
}

/// The first line of a text, without its line ending.  A line ends at a
/// line feed; a carriage return directly before that line feed belongs to
/// the line ending.
pub open spec fn first_line(s: Seq<char>) -> Seq<char> {
    let n = span_before(s, '\n') as int;
    let raw = s.take(n);
    if n < s.len() && raw.len() > 0 && raw.last() == '\r' {
        raw.drop_last()
    } else {
        raw
    }
}

/// What follows the first line and its line ending.
pub open spec fn after_first_line(s: Seq<char>) -> Seq<char> {
    let n = span_before(s, '\n') as int;
    if n < s.len() {
        s.skip(n + 1)
    } else {
        Seq::empty()
    }
}

/// Whether a line is taken to declare the package name: its first word
/// starts with `name`.
pub open spec fn declares_name(line: Seq<char>) -> bool {
    "name"@.is_prefix_of(trimmed(line))
}

/// The first line of a text that declares the package name.
pub open spec fn name_line(s: Seq<char>) -> Option<Seq<char>>
    decreases s.len(),
{
    if s.len() == 0 {
        None
    } else if declares_name(first_line(s)) {
        Some(first_line(s))
    } else {
        name_line(after_first_line(s))
    }
}

/// The part of a line between its first `=` and its second, or the end of
/// the line; absent for a line without `=`.
pub open spec fn value_segment(line: Seq<char>) -> Option<Seq<char>> {
    let at = span_before(line, '=') as int;
    if at >= line.len() {
        None
    } else {
        let rest = line.skip(at + 1);
        Some(rest.take(span_before(rest, '=') as int))
    }
}

/// `s` without its leading double quotes.
pub open spec fn unquoted_start(s: Seq<char>) -> Seq<char>
    decreases s.len(),
{
    if s.len() > 0 && s[0] == '"' {
        unquoted_start(s.drop_first())
    } else {
        s
    }
}

/// `s` without its trailing double quotes.
pub open spec fn unquoted_end(s: Seq<char>) -> Seq<char>
    decreases s.len(),
{
    if s.len() > 0 && s.last() == '"' {
        unquoted_end(s.drop_last())
    } else {
        s
    }
}

/// `s` without leading and trailing double quotes.
pub open spec fn unquoted(s: Seq<char>) -> Seq<char> {
    unquoted_end(unquoted_start(s))
}

/// The name that a line declares: the trimmed and unquoted text behind its
/// first `=`.  A line without `=` declares the name `unknown`.
pub open spec fn declared_name(line: Seq<char>) -> Seq<char> {
    match value_segment(line) {
        Some(segment) => unquoted(trimmed(segment)),
        None => "unknown"@,
    }
}

/// The package name of a manifest text: what its first name line declares,
/// and `unknown` where no line declares a name.
pub open spec fn package_name(content: Seq<char>) -> Seq<char> {
    match name_line(content) {
        Some(line) => declared_name(line),
        None => "unknown"@,
    }
}

/// Removes leading and trailing double quotes.
pub fn strip_quotes<'a>(s: &'a str) -> (r: &'a str)
    ensures
        r@ == unquoted(s@),
{
    let chars = chars_of(s);
    let n = chars.len();
    let mut a: usize = 0;
    assert(s@.skip(0) == s@);
    while a < n && chars[a] == '"'
        invariant
            chars@ == s@,
            n == chars.len(),
            a <= n,
            unquoted_start(s@) == unquoted_start(s@.skip(a as int)),
        decreases n - a,
    {
        assert(s@.skip(a as int).drop_first() == s@.skip(a + 1));
        a += 1;
    }
    assert(unquoted_start(s@) == s@.skip(a as int));
    let mut b: usize = n;
    assert(s@.skip(a as int) == s@.subrange(a as int, n as int));
    while b > a && chars[b - 1] == '"'
        invariant
            chars@ == s@,
            n == chars.len(),
            a <= b <= n,
            unquoted(s@) == unquoted_end(s@.subrange(a as int, b as int)),
        decreases b,
    {
        assert(s@.subrange(a as int, b as int).drop_last() == s@.subrange(a as int, b - 1));
        b -= 1;
    }
    s.substring_char(a, b)
}

/// Reads the name that one line declares.
pub fn parse_name_line(line: &str) -> (r: String)
    ensures
        r@ == declared_name(line@),
{
    let chars = chars_of(line);
    let n = chars.len();
    let at = find_char(&chars, 0, '=');
    assert(line@.skip(0) == line@);
    if at >= n {
        return String::from_str("unknown");
    }
    let next = find_char(&chars, at + 1, '=');
    let segment = line.substring_char(at + 1, next);
    proof {
        let rest = line@.skip(at + 1);
        assert(rest.take(next - (at + 1)) == line@.subrange(at + 1, next as int));
    }
    String::from_str(strip_quotes(trim(segment)))
}

/// Reads the package name from the text of a manifest.  The text is
/// scanned line by line; it need not be a well-formed manifest.
pub fn parse_package_name(content: &str) -> (r: String)
    ensures
        r@ == package_name(content@),
{
    let chars = chars_of(content);
    let n = chars.len();
    let marker = chars_of("name");
    let mut pos: usize = 0;
    assert(content@.skip(0) == content@);
    while pos < n
        invariant
            chars@ == content@,
            n == chars.len(),
            marker@ == "name"@,
            pos <= n,
            name_line(content@) == name_line(content@.skip(pos as int)),
        decreases n - pos,
    {
        let ghost tail = content@.skip(pos as int);
        let end = find_char(&chars, pos, '\n');
        let stop = if end < n && end > pos && chars[end - 1] == '\r' {
            (end - 1) as usize
        } else {
            end
        };
        let line = content.substring_char(pos, stop);
        proof {
            assert(tail.take(end - pos) == content@.subrange(pos as int, end as int));
            if end > pos {
                assert(tail.take(end - pos).last() == content@[end - 1]);
            }
            if stop < end {
                assert(tail.take(end - pos).drop_last() == content@.subrange(
                    pos as int,
                    stop as int,
                ));
            }
            assert(line@ == first_line(tail));
        }
        if starts_with(&chars_of(trim(line)), &marker) {
            return parse_name_line(line);
        }
        if end < n {
            assert(tail.skip(end - pos + 1) == content@.skip(end + 1));
            pos = end + 1;
        } else {
            assert(content@.skip(n as int) == Seq::<char>::empty());
            pos = n;
        }
    }
    assert(content@.skip(n as int).len() == 0);
    String::from_str("unknown")
}

} // verus!
