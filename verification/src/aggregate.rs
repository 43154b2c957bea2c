//! The tree aggregator: from the parsed files of a source tree to one
//! [`RustCrate`], and the single-file entry point beside it.
//!
//! The two entry points differ in how they treat a file that could not be
//! read or parsed.  Single-file extraction fails with the cause and never
//! returns a partial result.  Tree extraction leaves such a file out and
//! goes on: it never fails.

use vstd::prelude::*;
use vstd::string::*;
use crate::collector::{visited, ItemCollector, ItemCollectorView};
use crate::error::{ParseError, ParseErrorView};
use crate::manifest::{
    declared_features, package_name, parse_cargo_features, parse_package_name,
};
use crate::ordering::is_ordered;
use crate::paths::{build_module_path, file_stem, file_stem_of, module_path_text};
use crate::records::{RustCrate, RustCrateView};
use crate::syntax::SourceFile;
use crate::text::texts;

verus! {

/// What the front end made of one file.
#[derive(Debug)]
pub enum SourceInput {
    /// The file could not be read; the text is the cause as the system
    /// reports it.
    Unreadable(String),
    /// The file is not well-formed source; the text is the parser's message.
    Malformed(String),
    /// The file's syntax tree.
    Parsed(SourceFile),
}

/// One file of a source tree.
#[derive(Debug)]
pub struct SourceEntry {
    /// The components of the file's path relative to the source root; the
    /// last one is the file name.
    pub components: Vec<String>,
    pub input: SourceInput,
}

/// What is known of the package manifest of a source tree.
#[derive(Clone, Debug)]
pub enum Manifest {
    /// There is a manifest; the text is its content, empty where it could
    /// not be read.
    Found(String),
    /// There is no manifest; `directory` is the name of the package
    /// directory, if it has one.
    Missing { directory: Option<String> },
}

/// The records of one file whose items are tagged with `module`.
pub open spec fn file_records(file: SourceFile, module: Seq<char>) -> ItemCollectorView {
    ItemCollectorView::empty(module).collect(visited(file.items@))
}

/// The model with the given name, records and feature lists.
pub open spec fn crate_of(
    name: Seq<char>,
    records: ItemCollectorView,
    features: (Seq<Seq<char>>, Seq<Seq<char>>),
) -> RustCrateView {
    RustCrateView {
        name,
        functions: records.functions,
        structs: records.structs,
        enums: records.enums,
        impls: records.impls,
        type_aliases: records.type_aliases,
        reexports: records.reexports,
        constants: records.constants,
        statics: records.statics,
        enum_variant_aliases: records.enum_variant_aliases,
        macros: records.macros,
        available_features: features.0,
        default_features: features.1,
    }
}

/// The records of a model, without its name and feature lists.
pub open spec fn records_of(model: RustCrateView) -> ItemCollectorView {
    ItemCollectorView {
        functions: model.functions,
        structs: model.structs,
        enums: model.enums,
        impls: model.impls,
        type_aliases: model.type_aliases,
        reexports: model.reexports,
        constants: model.constants,
        statics: model.statics,
        enum_variant_aliases: model.enum_variant_aliases,
        macros: model.macros,
        current_module: Seq::empty(),
    }
}

impl RustCrateView {
    /// The invariant of a model: its records are well formed and its
    /// feature lists are in order.
    pub open spec fn well_formed(self) -> bool {
        &&& records_of(self).well_formed()
        &&& is_ordered(self.available_features)
        &&& is_ordered(self.default_features)
    }
}

/// The records of a file are well formed.
pub proof fn lemma_file_records_well_formed(file: SourceFile, module: Seq<char>)
    ensures
        file_records(file, module).well_formed(),
{
    ItemCollectorView::empty(module).lemma_collect_well_formed(visited(file.items@));
}

/// The records of a tree are well formed.
pub proof fn lemma_tree_records_well_formed(entries: Seq<SourceEntry>)
    ensures
        tree_records(entries).well_formed(),
    decreases entries.len(),
{
    if entries.len() > 0 {
        lemma_tree_records_well_formed(entries.drop_last());
        match entries.last().input {
            SourceInput::Parsed(file) => {
                lemma_file_records_well_formed(
                    file,
                    module_path_text(texts(entries.last().components@)),
                );
            },
            _ => {},
        }
        tree_records(entries.drop_last()).lemma_extend_well_formed(
            entry_records(entries.last()),
        );
    }
}

/// The name of the model of a single file: the stem of its file name, and
/// `unknown` for a path without a file name.
pub open spec fn file_model_name(file_name: Option<&str>) -> Seq<char> {
    match file_name {
        Some(name) => file_stem_of(name@),
        None => "unknown"@,
    }
}

/// The outcome of single-file extraction.  An unreadable file is an I/O
/// failure, a malformed one a syntax failure; a parsed file gives the model
/// of its records, without features.
pub open spec fn file_outcome(file_name: Option<&str>, input: SourceInput, module: Seq<char>)
    -> Result<RustCrateView, ParseErrorView> {
    match input {
        SourceInput::Unreadable(cause) => Err(
            ParseErrorView::Io("Failed to read file: "@ + cause@),
        ),
        SourceInput::Malformed(cause) => Err(
            ParseErrorView::Syntax("Failed to parse Rust: "@ + cause@),
        ),
        SourceInput::Parsed(file) => Ok(
            crate_of(
                file_model_name(file_name),
                file_records(file, module),
                (Seq::empty(), Seq::empty()),
            ),
        ),
    }
}

fn build_crate(
    name: String,
    records: ItemCollector,
    available_features: Vec<String>,
    default_features: Vec<String>,
) -> (r: RustCrate)
    ensures
        r@ == crate_of(name@, records@, (texts(available_features@), texts(default_features@))),
{
    assert(available_features.deep_view() =~= texts(available_features@));
    assert(default_features.deep_view() =~= texts(default_features@));
    RustCrate {
        name,
        functions: records.functions,
        structs: records.structs,
        enums: records.enums,
        impls: records.impls,
        type_aliases: records.type_aliases,
        reexports: records.reexports,
        constants: records.constants,
        statics: records.statics,
        enum_variant_aliases: records.enum_variant_aliases,
        macros: records.macros,
        available_features,
        default_features,
    }
}

/// Extracts the model of a single file whose items belong to `module`.
/// `file_name` is the last component of the file's path, if it has one.
///
/// Fails exactly when the file was not read or not parsed, with the cause
/// in the message.
pub fn parse_file_internal(file_name: Option<&str>, input: &SourceInput, module: &str) -> (r:
    Result<RustCrate, ParseError>)
    ensures
        match r {
            Ok(model) => file_outcome(file_name, *input, module@) == Ok::<
                RustCrateView,
                ParseErrorView,
            >(model@),
            Err(error) => file_outcome(file_name, *input, module@) == Err::<
                RustCrateView,
                ParseErrorView,
            >(error@),
        },
        r matches Ok(model) ==> model@.well_formed(),
{
    proof {
        if *input is Parsed {
            lemma_file_records_well_formed(input->Parsed_0, module@);
        }
    }
    match input {
        SourceInput::Unreadable(cause) => Err(
            ParseError::io("Failed to read file: ", cause.as_str()),
        ),
        SourceInput::Malformed(cause) => Err(
            ParseError::syntax("Failed to parse Rust: ", cause.as_str()),
        ),
        SourceInput::Parsed(file) => {
            let mut collector = ItemCollector::with_module(module);
            collector.visit_file(file);
            let name = match file_name {
                Some(name) => String::from_str(file_stem(name)),
                None => String::from_str("unknown"),
            };
            let available: Vec<String> = Vec::new();
            let defaults: Vec<String> = Vec::new();
            assert(texts(available@) == Seq::<Seq<char>>::empty());
            assert(texts(defaults@) == Seq::<Seq<char>>::empty());
            Ok(build_crate(name, collector, available, defaults))
        },
    }
}

/// Extracts the model of a single file at the root of the module tree.
pub fn parse_file(file_name: Option<&str>, input: &SourceInput) -> (r: Result<
    RustCrate,
    ParseError,
>)
    ensures
        match r {
            Ok(model) => file_outcome(file_name, *input, Seq::empty()) == Ok::<
                RustCrateView,
                ParseErrorView,
            >(model@),
            Err(error) => file_outcome(file_name, *input, Seq::empty()) == Err::<
                RustCrateView,
                ParseErrorView,
            >(error@),
        },
        r matches Ok(model) ==> model@.well_formed(),
{
    proof {
        reveal_strlit("");
        assert(""@ == Seq::<char>::empty());
    }
    parse_file_internal(file_name, input, "")
}

/// What one file of a tree contributes: the records of a parsed file,
/// tagged with the module path of its position; nothing for a file that
/// was not read or not parsed.
pub open spec fn entry_records(entry: SourceEntry) -> ItemCollectorView {
    match entry.input {
        SourceInput::Parsed(file) => file_records(
            file,
            module_path_text(texts(entry.components@)),
        ),
        _ => ItemCollectorView::empty(Seq::empty()),
    }
}

/// The records of a tree: the contributions of its files one after
/// another, in the order of the files.
pub open spec fn tree_records(entries: Seq<SourceEntry>) -> ItemCollectorView
    decreases entries.len(),
{
    if entries.len() == 0 {
        ItemCollectorView::empty(Seq::empty())
    } else {
        tree_records(entries.drop_last()).extend(entry_records(entries.last()))
    }
}

/// The name of a package: read from the manifest where there is one, else
/// the name of the package directory, and `unknown` where that has none.
pub open spec fn manifest_name(manifest: Manifest) -> Seq<char> {
    match manifest {
        Manifest::Found(content) => package_name(content@),
        Manifest::Missing { directory } => match directory {
            Some(name) => name@,
            None => "unknown"@,
        },
    }
}

/// The feature lists of a package: read from the manifest where there is
/// one, else empty.
pub open spec fn manifest_features(manifest: Manifest) -> (Seq<Seq<char>>, Seq<Seq<char>>) {
    match manifest {
        Manifest::Found(content) => declared_features(content@),
        Manifest::Missing { .. } => (Seq::empty(), Seq::empty()),
    }
}

/// The model of a source tree.
pub open spec fn crate_model(manifest: Manifest, entries: Seq<SourceEntry>) -> RustCrateView {
    crate_of(manifest_name(manifest), tree_records(entries), manifest_features(manifest))
}

/// Appending nothing changes nothing.
pub proof fn lemma_extend_nothing(records: ItemCollectorView, module: Seq<char>)
    ensures
        records.extend(ItemCollectorView::empty(module)) == records,
{
    let after = records.extend(ItemCollectorView::empty(module));
    assert(after.functions =~= records.functions);
    assert(after.structs =~= records.structs);
    assert(after.enums =~= records.enums);
    assert(after.impls =~= records.impls);
    assert(after.type_aliases =~= records.type_aliases);
    assert(after.reexports =~= records.reexports);
    assert(after.constants =~= records.constants);
    assert(after.statics =~= records.statics);
    assert(after.enum_variant_aliases =~= records.enum_variant_aliases);
    assert(after.macros =~= records.macros);
}

/// Appending is associative: how the contributions of files are grouped
/// does not matter, only their order.
pub proof fn lemma_extend_associative(
    a: ItemCollectorView,
    b: ItemCollectorView,
    c: ItemCollectorView,
)
    ensures
        a.extend(b).extend(c) == a.extend(b.extend(c)),
{
    let left = a.extend(b).extend(c);
    let right = a.extend(b.extend(c));
    assert(left.functions =~= right.functions);
    assert(left.structs =~= right.structs);
    assert(left.enums =~= right.enums);
    assert(left.impls =~= right.impls);
    assert(left.type_aliases =~= right.type_aliases);
    assert(left.reexports =~= right.reexports);
    assert(left.constants =~= right.constants);
    assert(left.statics =~= right.statics);
    assert(left.enum_variant_aliases =~= right.enum_variant_aliases);
    assert(left.macros =~= right.macros);
}

/// The records of two lists of files, one after the other, are the records
/// of the first followed by the records of the second.
pub proof fn lemma_tree_records_concat(first: Seq<SourceEntry>, second: Seq<SourceEntry>)
    ensures
        tree_records(first + second) == tree_records(first).extend(tree_records(second)),
    decreases second.len(),
{
    if second.len() == 0 {
        assert(first + second == first);
        lemma_extend_nothing(tree_records(first), Seq::empty());
    } else {
        lemma_tree_records_concat(first, second.drop_last());
        assert((first + second).drop_last() == first + second.drop_last());
        assert((first + second).last() == second.last());
        lemma_extend_associative(
            tree_records(first),
            tree_records(second.drop_last()),
            entry_records(second.last()),
        );
    }
}

/// Partial-failure tolerance: a file that was not read or not parsed
/// contributes nothing.  The records of a tree are those of the same tree
/// without that file, so every record of every parsed file is kept.
pub proof fn lemma_failed_file_is_skipped(entries: Seq<SourceEntry>, at: int)
    requires
        0 <= at < entries.len(),
        !(entries[at].input is Parsed),
    ensures
        tree_records(entries) == tree_records(entries.remove(at)),
{
    let before = entries.take(at);
    let failed = seq![entries[at]];
    let behind = entries.skip(at + 1);
    assert(entries == before + failed + behind);
    assert(entries.remove(at) == before + behind);
    assert(failed.drop_last() == Seq::<SourceEntry>::empty());
    assert(tree_records(failed) == tree_records(Seq::<SourceEntry>::empty()).extend(
        entry_records(entries[at]),
    ));
    lemma_extend_nothing(ItemCollectorView::empty(Seq::empty()), Seq::empty());
    lemma_tree_records_concat(before, failed);
    lemma_extend_nothing(tree_records(before), Seq::empty());
    lemma_tree_records_concat(before + failed, behind);
    lemma_tree_records_concat(before, behind);
}

/// Idempotence: extraction is a function of its input.  Two runs over the
/// same manifest and the same files give models with the same value: the
/// same names, the same records in the same order, the same feature lists.
pub proof fn lemma_extraction_is_repeatable(
    manifest: Manifest,
    entries: Seq<SourceEntry>,
    first: RustCrate,
    second: RustCrate,
)
    requires
        first@ == crate_model(manifest, entries),
        second@ == crate_model(manifest, entries),
    ensures
        first@ == second@,
{
}

/// Collects the records of every file of a tree.
pub fn collect_tree(entries: &Vec<SourceEntry>) -> (r: ItemCollector)
    ensures
        r@ == tree_records(entries@),
{
    let mut all = ItemCollector::new();
    let mut i: usize = 0;
    assert(entries@.take(0) == Seq::<SourceEntry>::empty());
    while i < entries.len()
        invariant
            i <= entries.len(),
            all@ == tree_records(entries@.take(i as int)),
        decreases entries.len() - i,
    {
        let entry = &entries[i];
        proof {
            let next = entries@.take(i + 1);
            assert(next.drop_last() == entries@.take(i as int));
            assert(next.last() == *entry);
        }
        match &entry.input {
            SourceInput::Parsed(file) => {
                let module = build_module_path(&entry.components);
                let mut collector = ItemCollector::with_module(module.as_str());
                collector.visit_file(file);
                all.extend(collector);
            },
            _ => {
                proof {
                    lemma_extend_nothing(all@, Seq::empty());
                }
            },
        }
        i += 1;
    }
    assert(entries@.take(entries@.len() as int) == entries@);
    all
}

/// Extracts the model of a whole source tree.  Never fails: a file that
/// was not read or not parsed contributes nothing, and a manifest that is
/// missing, unreadable or malformed gives empty feature lists.
pub fn parse_crate(manifest: &Manifest, entries: &Vec<SourceEntry>) -> (r: RustCrate)
    ensures
        r@ == crate_model(*manifest, entries@),
        r@.well_formed(),
{
    proof {
        lemma_tree_records_well_formed(entries@);
    }
    let records = collect_tree(entries);
    match manifest {
        Manifest::Found(content) => {
            let name = parse_package_name(content.as_str());
            let (available, defaults) = parse_cargo_features(content.as_str());
            build_crate(name, records, available, defaults)
        },
        Manifest::Missing { directory } => {
            let name = match directory {
                Some(name) => name.clone(),
                None => String::from_str("unknown"),
            };
            let available: Vec<String> = Vec::new();
            let defaults: Vec<String> = Vec::new();
            assert(texts(available@) == Seq::<Seq<char>>::empty());
            assert(texts(defaults@) == Seq::<Seq<char>>::empty());
            build_crate(name, records, available, defaults)
        },
    }
}

} // verus!
