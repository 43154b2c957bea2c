//! The import resolver: from the tree of one public `use` declaration to an
//! enum-variant alias, a re-export, or nothing.
//!
//! The two readings overlap syntactically, so they are tried in a fixed
//! order: first the enum-variant alias, then the re-export.  What tells them
//! apart is a naming convention, not the grammar: a path whose first segment
//! starts with an upper-case letter is taken to name a type.  A capitalized
//! module name is therefore read as an enum.

use vstd::prelude::*;
use crate::records::{
    RustEnumVariantAlias, RustEnumVariantAliasView, RustReexport, RustReexportView,
};
use crate::syntax::UseTree;
use crate::text::{char_is_uppercase, is_uppercase, text_eq};

verus! {

/// The naming-convention test for a type name: the text starts with an
/// upper-case character.
pub open spec fn looks_like_type(segment: Seq<char>) -> bool {
    segment.len() > 0 && is_uppercase(segment[0])
}

fn segment_looks_like_type(segment: &str) -> (r: bool)
    ensures
        r == looks_like_type(segment@),
{
    segment.unicode_len() > 0 && char_is_uppercase(segment.get_char(0))
}

/// The variant and the exported name that the last node of an alias path
/// gives: `Variant` exports the variant under its own name, `Variant as
/// Alias` under `Alias`.  Any other node ends no alias path.
pub open spec fn alias_leaf(tree: UseTree) -> Option<(Seq<char>, Seq<char>)> {
    match tree {
        UseTree::Name { ident } => Some((ident@, ident@)),
        UseTree::Rename { ident, rename } => Some((ident@, rename@)),
        _ => None,
    }
}

/// The alias record for a variant of the enum at `enum_type`.
pub open spec fn alias_record(
    enum_type: Seq<char>,
    leaf: (Seq<char>, Seq<char>),
    module: Seq<char>,
) -> RustEnumVariantAliasView {
    RustEnumVariantAliasView {
        alias_name: leaf.1,
        enum_type,
        variant_name: leaf.0,
        full_path: enum_type + "::"@ + leaf.0,
        is_pub: true,
        mod_path: module,
    }
}

/// The alias that a `use` tree declares if its first segment names a type.
///
/// The tree must be `Type::Variant` or `Outer::Inner::Variant`, each with an
/// optional `as Alias`.  Deeper paths, groups and globs declare no alias.
pub open spec fn type_path_alias(tree: UseTree, module: Seq<char>) -> Option<
    RustEnumVariantAliasView,
> {
    match tree {
        UseTree::Path { ident: first, tree: rest } => match *rest {
            UseTree::Path { ident: second, tree: inner } => match alias_leaf(*inner) {
                Some(leaf) => Some(alias_record(first@ + "::"@ + second@, leaf, module)),
                None => None,
            },
            _ => match alias_leaf(*rest) {
                Some(leaf) => Some(alias_record(first@, leaf, module)),
                None => None,
            },
        },
        _ => None,
    }
}

/// The first segment of the path that a `use` tree starts with.
pub open spec fn first_segment(tree: UseTree) -> Option<Seq<char>> {
    match tree {
        UseTree::Path { ident, .. } => Some(ident@),
        _ => None,
    }
}

/// The enum-variant alias that a `use` tree declares in module `module`:
/// the alias of its type path, provided that the first segment looks like a
/// type name.
pub open spec fn variant_alias(tree: UseTree, module: Seq<char>) -> Option<
    RustEnumVariantAliasView,
> {
    match first_segment(tree) {
        Some(first) => if looks_like_type(first) {
            type_path_alias(tree, module)
        } else {
            None
        },
        None => None,
    }
}

fn build_alias(enum_type: String, leaf: &UseTree, module: &str) -> (r: Option<
    RustEnumVariantAlias,
>)
    ensures
        r.deep_view() == match alias_leaf(*leaf) {
            Some(names) => Some(alias_record(enum_type@, names, module@)),
            None => None,
        },
{
    let (variant_name, alias_name) = match leaf {
        UseTree::Name { ident } => (ident.clone(), ident.clone()),
        UseTree::Rename { ident, rename } => (ident.clone(), rename.clone()),
        _ => {
            return None;
        },
    };
    let mut full_path = enum_type.clone();
    full_path.append("::");
    full_path.append(variant_name.as_str());
    Some(
        RustEnumVariantAlias {
            alias_name,
            enum_type,
            variant_name,
            full_path,
            is_pub: true,
            mod_path: String::from_str(module),
        },
    )
}

/// Reads a `use` tree whose first segment is known to name a type as the
/// re-export of one enum variant.
pub fn parse_type_path_alias(tree: &UseTree, module: &str) -> (r: Option<RustEnumVariantAlias>)
    ensures
        r.deep_view() == type_path_alias(*tree, module@),
{
    match tree {
        UseTree::Path { ident: first, tree: rest } => match &**rest {
            UseTree::Path { ident: second, tree: inner } => {
                let mut enum_type = first.clone();
                enum_type.append("::");
                enum_type.append(second.as_str());
                build_alias(enum_type, &**inner, module)
            },
            _ => build_alias(first.clone(), &**rest, module),
        },
        _ => None,
    }
}

/// Reads a `use` tree as the re-export of one enum variant.  The reading is
/// attempted only where the first segment of the path looks like a type
/// name.
pub fn parse_enum_variant_alias(tree: &UseTree, module: &str) -> (r: Option<
    RustEnumVariantAlias,
>)
    ensures
        r.deep_view() == variant_alias(*tree, module@),
{
    match tree {
        UseTree::Path { ident: first, .. } => {
            if segment_looks_like_type(first.as_str()) {
                parse_type_path_alias(tree, module)
            } else {
                None
            }
        },
        _ => None,
    }
}

/// Whether a path segment is one of the markers `self`, `super` and `crate`,
/// which lead to items of the same source tree.
pub open spec fn is_relative_marker(segment: Seq<char>) -> bool {
    segment == "self"@ || segment == "super"@ || segment == "crate"@
}

fn segment_is_relative(segment: &str) -> (r: bool)
    ensures
        r == is_relative_marker(segment@),
{
    text_eq(segment, "self") || text_eq(segment, "super") || text_eq(segment, "crate")
}

/// The name that one member of a group imports: its original identifier,
/// also where the member renames it.  Nested paths, nested groups and globs
/// contribute nothing.
pub open spec fn group_name(tree: UseTree) -> Option<Seq<char>> {
    match tree {
        UseTree::Name { ident } => Some(ident@),
        UseTree::Rename { ident, .. } => Some(ident@),
        _ => None,
    }
}

/// The names that a group imports, in order.
pub open spec fn group_names(items: Seq<UseTree>) -> Seq<Seq<char>> {
    items.filter_map(|tree: UseTree| group_name(tree))
}

/// The re-export that a `use` tree declares.
///
/// The tree must be a path that ends in a glob or in a group with at least
/// one name, and no segment of the path may be `self`, `super` or `crate`.
/// The record names the outermost segment as the source; the segments in
/// between are not kept.
pub open spec fn reexport(tree: UseTree) -> Option<RustReexportView>
    decreases tree,
{
    match tree {
        UseTree::Path { ident, tree: rest } => if is_relative_marker(ident@) {
            None
        } else {
            match *rest {
                UseTree::Glob => Some(
                    RustReexportView { source_crate: ident@, is_glob: true, items: Seq::empty() },
                ),
                UseTree::Group { items } => if group_names(items@).len() > 0 {
                    Some(
                        RustReexportView {
                            source_crate: ident@,
                            is_glob: false,
                            items: group_names(items@),
                        },
                    )
                } else {
                    None
                },
                UseTree::Path { .. } => match reexport(*rest) {
                    Some(inner) => Some(
                        RustReexportView {
                            source_crate: ident@,
                            is_glob: inner.is_glob,
                            items: inner.items,
                        },
                    ),
                    None => None,
                },
                _ => None,
            }
        },
        _ => None,
    }
}

fn parse_group_names(items: &Vec<UseTree>) -> (r: Vec<String>)
    ensures
        r.deep_view() == group_names(items@),
{
    let mut names: Vec<String> = Vec::new();
    let mut i: usize = 0;
    assert(items@.take(0) == Seq::<UseTree>::empty());
    assert(names.deep_view() == Seq::<Seq<char>>::empty());
    while i < items.len()
        invariant
            i <= items.len(),
            names.deep_view() == group_names(items@.take(i as int)),
        decreases items.len() - i,
    {
        proof {
            items@.lemma_filter_map_take_succ(|tree: UseTree| group_name(tree), i as int);
        }
        let ghost before = names.deep_view();
        match &items[i] {
            UseTree::Name { ident } => {
                names.push(ident.clone());
                assert(names.deep_view() == before + seq![ident@]);
            },
            UseTree::Rename { ident, .. } => {
                names.push(ident.clone());
                assert(names.deep_view() == before + seq![ident@]);
            },
            _ => {},
        }
        i += 1;
    }
    assert(items@.take(items@.len() as int) == items@);
    names
}

/// Reads a `use` tree as the re-export of items from another crate.
pub fn parse_reexport(tree: &UseTree) -> (r: Option<RustReexport>)
    ensures
        r.deep_view() == reexport(*tree),
    decreases tree,
{
    match tree {
        UseTree::Path { ident, tree: rest } => {
            if segment_is_relative(ident.as_str()) {
                return None;
            }
            match &**rest {
                UseTree::Glob => {
                    let items: Vec<String> = Vec::new();
                    assert(items.deep_view() == Seq::<Seq<char>>::empty());
                    Some(RustReexport { source_crate: ident.clone(), is_glob: true, items })
                },
                UseTree::Group { items } => {
                    let names = parse_group_names(items);
                    if names.len() > 0 {
                        Some(
                            RustReexport {
                                source_crate: ident.clone(),
                                is_glob: false,
                                items: names,
                            },
                        )
                    } else {
                        None
                    }
                },
                UseTree::Path { .. } => match parse_reexport(&**rest) {
                    Some(inner) => Some(
                        RustReexport {
                            source_crate: ident.clone(),
                            is_glob: inner.is_glob,
                            items: inner.items,
                        },
                    ),
                    None => None,
                },
                _ => None,
            }
        },
        _ => None,
    }
}

impl RustReexportView {
    /// The invariant of a re-export: it lists no items exactly when it is a
    /// glob.
    pub open spec fn well_formed(self) -> bool {
        self.is_glob <==> self.items.len() == 0
    }
}

/// Every re-export that a tree declares is well formed, and no tree that
/// starts with `self`, `super` or `crate` declares one.
pub proof fn lemma_reexport_well_formed(tree: UseTree)
    ensures
        reexport(tree) matches Some(record) ==> record.well_formed(),
        first_segment(tree) matches Some(first) ==> (is_relative_marker(first) ==> reexport(tree)
            is None),
    decreases tree,
{
    match tree {
        UseTree::Path { ident, tree: rest } => {
            if !is_relative_marker(ident@) {
                match *rest {
                    UseTree::Path { .. } => {
                        lemma_reexport_well_formed(*rest);
                    },
                    _ => {},
                }
            }
        },
        _ => {},
    }
}

/// What a public `use` declaration contributes to the model.
#[derive(Debug)]
pub enum Import {
    /// One enum variant, possibly under another name.
    VariantAlias(RustEnumVariantAlias),
    /// Items of another crate.
    Reexport(RustReexport),
    /// Nothing that is recorded.
    Unrecorded,
}

/// The mathematical value of an [`Import`].
pub enum ImportView {
    VariantAlias(RustEnumVariantAliasView),
    Reexport(RustReexportView),
    Unrecorded,
}

impl View for Import {
    type V = ImportView;

    open spec fn view(&self) -> ImportView {
        match self {
            Import::VariantAlias(alias) => ImportView::VariantAlias(alias@),
            Import::Reexport(record) => ImportView::Reexport(record@),
            Import::Unrecorded => ImportView::Unrecorded,
        }
    }
}

/// What a `use` tree in module `module` contributes.  The alias reading is
/// tried first; the re-export reading counts only where the alias reading
/// gives nothing.
pub open spec fn import_of(tree: UseTree, module: Seq<char>) -> ImportView {
    match variant_alias(tree, module) {
        Some(alias) => ImportView::VariantAlias(alias),
        None => match reexport(tree) {
            Some(record) => ImportView::Reexport(record),
            None => ImportView::Unrecorded,
        },
    }
}

/// Resolves the tree of a public `use` declaration in module `module` to
/// an enum-variant alias, a re-export, or nothing.
pub fn resolve_import(tree: &UseTree, module: &str) -> (r: Import)
    ensures
        r@ == import_of(*tree, module@),
        r matches Import::Reexport(record) ==> record@.well_formed(),
{
    match parse_enum_variant_alias(tree, module) {
        Some(alias) => Import::VariantAlias(alias),
        None => match parse_reexport(tree) {
            Some(record) => {
                proof {
                    lemma_reexport_well_formed(*tree);
                }
                Import::Reexport(record)
            },
            None => Import::Unrecorded,
        },
    }
}

} // verus!
