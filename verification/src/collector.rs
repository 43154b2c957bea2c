//! The file visitor: walks the items of one file and accumulates their
//! records.
//!
//! The collector keeps one module path for the whole file.  Items that are
//! declared inside another item, such as the contents of an inline module,
//! are visited like top-level items and recorded under that same path: the
//! model has file granularity.

use vstd::prelude::*;
use crate::extract::{
    constant_record, enum_record, function_record, impl_record, is_pub, is_public,
    lemma_impl_retention, macro_record, parse_constant, parse_enum, parse_function, parse_impl,
    parse_macro, parse_static, parse_struct, parse_type_alias, static_record, struct_record,
    type_alias_record,
};
use crate::imports::{
    import_of, lemma_reexport_well_formed, reexport, resolve_import, variant_alias, Import,
    ImportView,
};
use crate::records::{
    RustConstant, RustConstantView, RustEnum, RustEnumVariantAlias, RustEnumVariantAliasView,
    RustEnumView, RustFunction, RustFunctionView, RustImpl, RustImplView, RustMacro,
    RustMacroView, RustReexport, RustReexportView, RustStatic, RustStaticView, RustStruct,
    RustStructView, RustTypeAlias, RustTypeAliasView,
};
use crate::syntax::{
    Item, ItemConst, ItemEnum, ItemFn, ItemImpl, ItemKind, ItemMacro, ItemStatic, ItemStruct,
    ItemType, ItemUse, SourceFile,
};

verus! {

/// The records collected from the items visited so far.
#[derive(Debug)]
pub struct ItemCollector {
    pub functions: Vec<RustFunction>,
    pub structs: Vec<RustStruct>,
    pub enums: Vec<RustEnum>,
    pub impls: Vec<RustImpl>,
    pub type_aliases: Vec<RustTypeAlias>,
    pub reexports: Vec<RustReexport>,
    pub constants: Vec<RustConstant>,
    pub statics: Vec<RustStatic>,
    pub enum_variant_aliases: Vec<RustEnumVariantAlias>,
    pub macros: Vec<RustMacro>,
    /// The module path that every record of this file is tagged with.
    pub current_module: String,
}

/// The mathematical value of an [`ItemCollector`].
pub struct ItemCollectorView {
    pub functions: Seq<RustFunctionView>,
    pub structs: Seq<RustStructView>,
    pub enums: Seq<RustEnumView>,
    pub impls: Seq<RustImplView>,
    pub type_aliases: Seq<RustTypeAliasView>,
    pub reexports: Seq<RustReexportView>,
    pub constants: Seq<RustConstantView>,
    pub statics: Seq<RustStaticView>,
    pub enum_variant_aliases: Seq<RustEnumVariantAliasView>,
    pub macros: Seq<RustMacroView>,
    pub current_module: Seq<char>,
}

impl View for ItemCollector {
    type V = ItemCollectorView;

    open spec fn view(&self) -> ItemCollectorView {
        ItemCollectorView {
            functions: self.functions.deep_view(),
            structs: self.structs.deep_view(),
            enums: self.enums.deep_view(),
            impls: self.impls.deep_view(),
            type_aliases: self.type_aliases.deep_view(),
            reexports: self.reexports.deep_view(),
            constants: self.constants.deep_view(),
            statics: self.statics.deep_view(),
            enum_variant_aliases: self.enum_variant_aliases.deep_view(),
            macros: self.macros.deep_view(),
            current_module: self.current_module@,
        }
    }
}

/// The items that a walk of `items` visits, in visiting order: each item is
/// followed by the items declared inside it.
pub open spec fn visited(items: Seq<Item>) -> Seq<ItemKind>
    decreases items,
{
    if items.len() == 0 {
        Seq::empty()
    } else {
        visited(items.drop_last()) + seq![items.last().kind] + visited(items.last().nested@)
    }
}

impl ItemCollectorView {
    /// The collector that has visited nothing and tags records with
    /// `module`.
    pub open spec fn empty(module: Seq<char>) -> ItemCollectorView {
        ItemCollectorView {
            functions: Seq::empty(),
            structs: Seq::empty(),
            enums: Seq::empty(),
            impls: Seq::empty(),
            type_aliases: Seq::empty(),
            reexports: Seq::empty(),
            constants: Seq::empty(),
            statics: Seq::empty(),
            enum_variant_aliases: Seq::empty(),
            macros: Seq::empty(),
            current_module: module,
        }
    }

    /// The records of `self` followed by the records of `other`, kind by
    /// kind.  The module path stays that of `self`.
    pub open spec fn extend(self, other: ItemCollectorView) -> ItemCollectorView {
        ItemCollectorView {
            functions: self.functions + other.functions,
            structs: self.structs + other.structs,
            enums: self.enums + other.enums,
            impls: self.impls + other.impls,
            type_aliases: self.type_aliases + other.type_aliases,
            reexports: self.reexports + other.reexports,
            constants: self.constants + other.constants,
            statics: self.statics + other.statics,
            enum_variant_aliases: self.enum_variant_aliases + other.enum_variant_aliases,
            macros: self.macros + other.macros,
            current_module: self.current_module,
        }
    }

    /// The collector after one more item.
    ///
    /// An item adds at most one record, at the end of the list of its kind:
    /// a public function, struct, enum, type alias, constant or static adds
    /// its record; an implementation block adds its record if it has one; a
    /// public `use` adds an enum-variant alias if it reads as one and
    /// otherwise a re-export if it reads as one; a macro adds its record if
    /// it has one.  Every other item leaves the collector as it is.
    pub open spec fn absorb(self, kind: ItemKind) -> ItemCollectorView {
        let module = self.current_module;
        match kind {
            ItemKind::Fn(node) => if is_public(node.vis) {
                ItemCollectorView {
                    functions: self.functions.push(function_record(node, module)),
                    ..self
                }
            } else {
                self
            },
            ItemKind::Struct(node) => if is_public(node.vis) {
                ItemCollectorView {
                    structs: self.structs.push(struct_record(node, module)),
                    ..self
                }
            } else {
                self
            },
            ItemKind::Enum(node) => if is_public(node.vis) {
                ItemCollectorView { enums: self.enums.push(enum_record(node, module)), ..self }
            } else {
                self
            },
            ItemKind::Impl(node) => match impl_record(node) {
                Some(record) => ItemCollectorView { impls: self.impls.push(record), ..self },
                None => self,
            },
            ItemKind::Type(node) => if is_public(node.vis) {
                ItemCollectorView {
                    type_aliases: self.type_aliases.push(type_alias_record(node)),
                    ..self
                }
            } else {
                self
            },
            ItemKind::Use(node) => if is_public(node.vis) {
                match import_of(node.tree, module) {
                    ImportView::VariantAlias(alias) => ItemCollectorView {
                        enum_variant_aliases: self.enum_variant_aliases.push(alias),
                        ..self
                    },
                    ImportView::Reexport(record) => ItemCollectorView {
                        reexports: self.reexports.push(record),
                        ..self
                    },
                    ImportView::Unrecorded => self,
                }
            } else {
                self
            },
            ItemKind::Const(node) => if is_public(node.vis) {
                ItemCollectorView {
                    constants: self.constants.push(constant_record(node, module)),
                    ..self
                }
            } else {
                self
            },
            ItemKind::Static(node) => if is_public(node.vis) {
                ItemCollectorView {
                    statics: self.statics.push(static_record(node, module)),
                    ..self
                }
            } else {
                self
            },
            ItemKind::Macro(node) => match macro_record(node, module) {
                Some(record) => ItemCollectorView { macros: self.macros.push(record), ..self },
                None => self,
            },
            ItemKind::Other => self,
        }
    }

    /// The collector after a sequence of items, absorbed in order.
    pub open spec fn collect(self, kinds: Seq<ItemKind>) -> ItemCollectorView
        decreases kinds.len(),
    {
        if kinds.len() == 0 {
            self
        } else {
            self.collect(kinds.drop_last()).absorb(kinds.last())
        }
    }

    /// Collecting two sequences one after the other is collecting their
    /// concatenation.
    pub proof fn lemma_collect_concat(self, first: Seq<ItemKind>, second: Seq<ItemKind>)
        ensures
            self.collect(first + second) == self.collect(first).collect(second),
        decreases second.len(),
    {
        if second.len() == 0 {
            assert(first + second == first);
        } else {
            self.lemma_collect_concat(first, second.drop_last());
            assert((first + second).drop_last() == first + second.drop_last());
            assert((first + second).last() == second.last());
        }
    }

    /// Collecting a single item is absorbing it.
    pub proof fn lemma_collect_one(self, kind: ItemKind)
        ensures
            self.collect(seq![kind]) == self.absorb(kind),
    {
        assert(seq![kind].drop_last() == Seq::<ItemKind>::empty());
        assert(self.collect(Seq::<ItemKind>::empty()) == self);
        assert(seq![kind].last() == kind);
    }
}

impl ItemCollectorView {
    /// The invariant of collected records: every record is marked public,
    /// every implementation block has a method, every re-export lists no
    /// items exactly when it is a glob, and every macro is marked exported.
    pub open spec fn well_formed(self) -> bool {
        &&& forall|i: int| 0 <= i < self.functions.len() ==> (#[trigger] self.functions[i]).is_pub
        &&& forall|i: int| 0 <= i < self.structs.len() ==> (#[trigger] self.structs[i]).is_pub
        &&& forall|i: int| 0 <= i < self.enums.len() ==> (#[trigger] self.enums[i]).is_pub
        &&& forall|i: int|
            0 <= i < self.impls.len() ==> (#[trigger] self.impls[i]).well_formed()
        &&& forall|i: int|
            0 <= i < self.type_aliases.len() ==> (#[trigger] self.type_aliases[i]).is_pub
        &&& forall|i: int|
            0 <= i < self.reexports.len() ==> (#[trigger] self.reexports[i]).well_formed()
        &&& forall|i: int| 0 <= i < self.constants.len() ==> (#[trigger] self.constants[i]).is_pub
        &&& forall|i: int| 0 <= i < self.statics.len() ==> (#[trigger] self.statics[i]).is_pub
        &&& forall|i: int|
            0 <= i < self.enum_variant_aliases.len() ==> (
            #[trigger] self.enum_variant_aliases[i]).is_pub
        &&& forall|i: int| 0 <= i < self.macros.len() ==> (#[trigger] self.macros[i]).is_exported
    }

    /// Absorbing an item keeps the invariant.
    pub proof fn lemma_absorb_well_formed(self, kind: ItemKind)
        requires
            self.well_formed(),
        ensures
            self.absorb(kind).well_formed(),
    {
        match kind {
            ItemKind::Impl(node) => {
                lemma_impl_retention(node);
            },
            ItemKind::Use(node) => {
                lemma_reexport_well_formed(node.tree);
            },
            _ => {},
        }
    }

    /// Collecting a sequence of items keeps the invariant.
    pub proof fn lemma_collect_well_formed(self, kinds: Seq<ItemKind>)
        requires
            self.well_formed(),
        ensures
            self.collect(kinds).well_formed(),
        decreases kinds.len(),
    {
        if kinds.len() > 0 {
            self.lemma_collect_well_formed(kinds.drop_last());
            self.collect(kinds.drop_last()).lemma_absorb_well_formed(kinds.last());
        }
    }

    /// Appending well-formed records to well-formed records keeps the
    /// invariant.
    pub proof fn lemma_extend_well_formed(self, other: ItemCollectorView)
        requires
            self.well_formed(),
            other.well_formed(),
        ensures
            self.extend(other).well_formed(),
    {
    }
}

/// The record that an item leaves as a function: its record if it is a
/// public function, nothing otherwise.
pub open spec fn function_of(kind: ItemKind, module: Seq<char>) -> Option<RustFunctionView> {
    match kind {
        ItemKind::Fn(node) => if is_public(node.vis) {
            Some(function_record(node, module))
        } else {
            None
        },
        _ => None,
    }
}

/// The record that an item leaves as a struct: its record if it is a public
/// struct, nothing otherwise.
pub open spec fn struct_of(kind: ItemKind, module: Seq<char>) -> Option<RustStructView> {
    match kind {
        ItemKind::Struct(node) => if is_public(node.vis) {
            Some(struct_record(node, module))
        } else {
            None
        },
        _ => None,
    }
}

/// The record that an item leaves as an enum: its record if it is a public
/// enum, nothing otherwise.
pub open spec fn enum_of(kind: ItemKind, module: Seq<char>) -> Option<RustEnumView> {
    match kind {
        ItemKind::Enum(node) => if is_public(node.vis) {
            Some(enum_record(node, module))
        } else {
            None
        },
        _ => None,
    }
}

/// The record that an item leaves as a type alias: its record if it is a
/// public type alias, nothing otherwise.
pub open spec fn type_alias_of(kind: ItemKind, module: Seq<char>) -> Option<RustTypeAliasView> {
    match kind {
        ItemKind::Type(node) => if is_public(node.vis) {
            Some(type_alias_record(node))
        } else {
            None
        },
        _ => None,
    }
}

/// The record that an item leaves as a constant: its record if it is a
/// public constant, nothing otherwise.
pub open spec fn constant_of(kind: ItemKind, module: Seq<char>) -> Option<RustConstantView> {
    match kind {
        ItemKind::Const(node) => if is_public(node.vis) {
            Some(constant_record(node, module))
        } else {
            None
        },
        _ => None,
    }
}

/// The record that an item leaves as a static: its record if it is a public
/// static, nothing otherwise.
pub open spec fn static_of(kind: ItemKind, module: Seq<char>) -> Option<RustStaticView> {
    match kind {
        ItemKind::Static(node) => if is_public(node.vis) {
            Some(static_record(node, module))
        } else {
            None
        },
        _ => None,
    }
}

/// The record that an item leaves as an implementation block.
pub open spec fn impl_of(kind: ItemKind, module: Seq<char>) -> Option<RustImplView> {
    match kind {
        ItemKind::Impl(node) => impl_record(node),
        _ => None,
    }
}

/// The record that an item leaves as an enum-variant alias: the alias of a
/// public `use` that reads as one.
pub open spec fn variant_alias_of(kind: ItemKind, module: Seq<char>) -> Option<
    RustEnumVariantAliasView,
> {
    match kind {
        ItemKind::Use(node) => if is_public(node.vis) {
            variant_alias(node.tree, module)
        } else {
            None
        },
        _ => None,
    }
}

/// The record that an item leaves as a re-export: the re-export of a
/// public `use` that does not read as an enum-variant alias.
pub open spec fn reexport_of(kind: ItemKind, module: Seq<char>) -> Option<RustReexportView> {
    match kind {
        ItemKind::Use(node) => if is_public(node.vis) && variant_alias(node.tree, module) is None {
            reexport(node.tree)
        } else {
            None
        },
        _ => None,
    }
}

/// The record that an item leaves as a macro.
pub open spec fn macro_of(kind: ItemKind, module: Seq<char>) -> Option<RustMacroView> {
    match kind {
        ItemKind::Macro(node) => macro_record(node, module),
        _ => None,
    }
}

/// Whether an item carries a visibility marker that is not the unqualified
/// `pub`.  Implementation blocks and macro invocations carry no marker.
pub open spec fn is_not_public(kind: ItemKind) -> bool {
    match kind {
        ItemKind::Fn(node) => !is_public(node.vis),
        ItemKind::Struct(node) => !is_public(node.vis),
        ItemKind::Enum(node) => !is_public(node.vis),
        ItemKind::Type(node) => !is_public(node.vis),
        ItemKind::Use(node) => !is_public(node.vis),
        ItemKind::Const(node) => !is_public(node.vis),
        ItemKind::Static(node) => !is_public(node.vis),
        _ => false,
    }
}

/// The number of records that a collector holds, over all kinds.
pub open spec fn record_count(state: ItemCollectorView) -> nat {
    state.functions.len() + state.structs.len() + state.enums.len() + state.impls.len()
        + state.type_aliases.len() + state.reexports.len() + state.constants.len()
        + state.statics.len() + state.enum_variant_aliases.len() + state.macros.len()
}

/// Visibility filter, for one item: an item whose marker is not the
/// unqualified `pub` leaves the collector as it is, and no item adds more
/// than one record.
pub proof fn lemma_item_visibility(state: ItemCollectorView, kind: ItemKind)
    ensures
        is_not_public(kind) ==> state.absorb(kind) == state,
        record_count(state) <= record_count(state.absorb(kind)) <= record_count(state) + 1,
        state.absorb(kind).current_module == state.current_module,
{
}

/// Visibility filter, for one public item: a public function, struct,
/// enum, type alias, constant or static adds exactly one record, its own,
/// at the end of the list of its kind.
pub proof fn lemma_public_item_recorded(state: ItemCollectorView, kind: ItemKind)
    ensures
        function_of(kind, state.current_module) matches Some(record) ==> state.absorb(
            kind,
        ).functions == state.functions.push(record),
        struct_of(kind, state.current_module) matches Some(record) ==> state.absorb(kind).structs
            == state.structs.push(record),
        enum_of(kind, state.current_module) matches Some(record) ==> state.absorb(kind).enums
            == state.enums.push(record),
        type_alias_of(kind, state.current_module) matches Some(record) ==> state.absorb(
            kind,
        ).type_aliases == state.type_aliases.push(record),
        constant_of(kind, state.current_module) matches Some(record) ==> state.absorb(
            kind,
        ).constants == state.constants.push(record),
        static_of(kind, state.current_module) matches Some(record) ==> state.absorb(kind).statics
            == state.statics.push(record),
        !is_not_public(kind) && !(kind is Impl) && !(kind is Use) && !(kind is Macro) && !(kind
            is Other) ==> record_count(state.absorb(kind)) == record_count(state) + 1,
{
}

/// Import resolution precedence: a public `use` adds an enum-variant alias
/// or a re-export, never both, and the alias reading wins.
pub proof fn lemma_import_precedence(state: ItemCollectorView, node: ItemUse)
    ensures
        ({
            let after = state.absorb(ItemKind::Use(node));
            let module = state.current_module;
            &&& is_public(node.vis) && variant_alias(node.tree, module) is Some ==> {
                &&& after.enum_variant_aliases == state.enum_variant_aliases.push(
                    variant_alias(node.tree, module)->0,
                )
                &&& after.reexports == state.reexports
            }
            &&& is_public(node.vis) && variant_alias(node.tree, module) is None && reexport(
                node.tree,
            ) is Some ==> {
                &&& after.reexports == state.reexports.push(reexport(node.tree)->0)
                &&& after.enum_variant_aliases == state.enum_variant_aliases
            }
        }),
{
}

/// Visibility filter, for a whole walk: the records of each kind are the
/// records that the visited items leave as that kind, one for each item
/// that leaves one and in visiting order, behind the records that were
/// there before.
pub proof fn lemma_visibility_filter(state: ItemCollectorView, kinds: Seq<ItemKind>)
    ensures
        ({
            let module = state.current_module;
            let after = state.collect(kinds);
            &&& after.current_module == module
            &&& after.functions == state.functions + kinds.filter_map(
                |kind: ItemKind| function_of(kind, module),
            )
            &&& after.structs == state.structs + kinds.filter_map(
                |kind: ItemKind| struct_of(kind, module),
            )
            &&& after.enums == state.enums + kinds.filter_map(
                |kind: ItemKind| enum_of(kind, module),
            )
            &&& after.impls == state.impls + kinds.filter_map(
                |kind: ItemKind| impl_of(kind, module),
            )
            &&& after.type_aliases == state.type_aliases + kinds.filter_map(
                |kind: ItemKind| type_alias_of(kind, module),
            )
            &&& after.reexports == state.reexports + kinds.filter_map(
                |kind: ItemKind| reexport_of(kind, module),
            )
            &&& after.constants == state.constants + kinds.filter_map(
                |kind: ItemKind| constant_of(kind, module),
            )
            &&& after.statics == state.statics + kinds.filter_map(
                |kind: ItemKind| static_of(kind, module),
            )
            &&& after.enum_variant_aliases == state.enum_variant_aliases + kinds.filter_map(
                |kind: ItemKind| variant_alias_of(kind, module),
            )
            &&& after.macros == state.macros + kinds.filter_map(
                |kind: ItemKind| macro_of(kind, module),
            )
        }),
    decreases kinds.len(),
{
    let module = state.current_module;
    if kinds.len() > 0 {
        lemma_visibility_filter(state, kinds.drop_last());
    }
    let after = state.collect(kinds);
    assert(after.functions =~= state.functions + kinds.filter_map(
        |kind: ItemKind| function_of(kind, module),
    ));
    assert(after.structs =~= state.structs + kinds.filter_map(
        |kind: ItemKind| struct_of(kind, module),
    ));
    assert(after.enums =~= state.enums + kinds.filter_map(
        |kind: ItemKind| enum_of(kind, module),
    ));
    assert(after.impls =~= state.impls + kinds.filter_map(
        |kind: ItemKind| impl_of(kind, module),
    ));
    assert(after.type_aliases =~= state.type_aliases + kinds.filter_map(
        |kind: ItemKind| type_alias_of(kind, module),
    ));
    assert(after.reexports =~= state.reexports + kinds.filter_map(
        |kind: ItemKind| reexport_of(kind, module),
    ));
    assert(after.constants =~= state.constants + kinds.filter_map(
        |kind: ItemKind| constant_of(kind, module),
    ));
    assert(after.statics =~= state.statics + kinds.filter_map(
        |kind: ItemKind| static_of(kind, module),
    ));
    assert(after.enum_variant_aliases =~= state.enum_variant_aliases + kinds.filter_map(
        |kind: ItemKind| variant_alias_of(kind, module),
    ));
    assert(after.macros =~= state.macros + kinds.filter_map(
        |kind: ItemKind| macro_of(kind, module),
    ));
}

impl ItemCollector {
    /// A collector for a file at the root of the module tree.
    pub fn new() -> (r: ItemCollector)
        ensures
            r@ == ItemCollectorView::empty(Seq::empty()),
    {
        let r = ItemCollector {
            functions: Vec::new(),
            structs: Vec::new(),
            enums: Vec::new(),
            impls: Vec::new(),
            type_aliases: Vec::new(),
            reexports: Vec::new(),
            constants: Vec::new(),
            statics: Vec::new(),
            enum_variant_aliases: Vec::new(),
            macros: Vec::new(),
            current_module: String::new(),
        };
        proof {
            assert(r.functions.deep_view() =~= Seq::empty());
            assert(r.structs.deep_view() =~= Seq::empty());
            assert(r.enums.deep_view() =~= Seq::empty());
            assert(r.impls.deep_view() =~= Seq::empty());
            assert(r.type_aliases.deep_view() =~= Seq::empty());
            assert(r.reexports.deep_view() =~= Seq::empty());
            assert(r.constants.deep_view() =~= Seq::empty());
            assert(r.statics.deep_view() =~= Seq::empty());
            assert(r.enum_variant_aliases.deep_view() =~= Seq::empty());
            assert(r.macros.deep_view() =~= Seq::empty());
        }
        r
    }

    /// A collector for a file of the module at `module`.
    pub fn with_module(module: &str) -> (r: ItemCollector)
        ensures
            r@ == ItemCollectorView::empty(module@),
    {
        let r = ItemCollector {
            functions: Vec::new(),
            structs: Vec::new(),
            enums: Vec::new(),
            impls: Vec::new(),
            type_aliases: Vec::new(),
            reexports: Vec::new(),
            constants: Vec::new(),
            statics: Vec::new(),
            enum_variant_aliases: Vec::new(),
            macros: Vec::new(),
            current_module: String::from_str(module),
        };
        proof {
            assert(r.functions.deep_view() =~= Seq::empty());
            assert(r.structs.deep_view() =~= Seq::empty());
            assert(r.enums.deep_view() =~= Seq::empty());
            assert(r.impls.deep_view() =~= Seq::empty());
            assert(r.type_aliases.deep_view() =~= Seq::empty());
            assert(r.reexports.deep_view() =~= Seq::empty());
            assert(r.constants.deep_view() =~= Seq::empty());
            assert(r.statics.deep_view() =~= Seq::empty());
            assert(r.enum_variant_aliases.deep_view() =~= Seq::empty());
            assert(r.macros.deep_view() =~= Seq::empty());
        }
        r
    }

    /// Appends the records of `other`, kind by kind, behind those already
    /// collected.
    pub fn extend(&mut self, other: ItemCollector)
        ensures
            final(self)@ == old(self)@.extend(other@),
    {
        let ghost incoming = other@;
        let mut other = other;
        self.functions.append(&mut other.functions);
        self.structs.append(&mut other.structs);
        self.enums.append(&mut other.enums);
        self.impls.append(&mut other.impls);
        self.type_aliases.append(&mut other.type_aliases);
        self.reexports.append(&mut other.reexports);
        self.constants.append(&mut other.constants);
        self.statics.append(&mut other.statics);
        self.enum_variant_aliases.append(&mut other.enum_variant_aliases);
        self.macros.append(&mut other.macros);
        proof {
            assert(self.functions.deep_view() =~= old(self).functions.deep_view() + incoming.functions);
            assert(self.structs.deep_view() =~= old(self).structs.deep_view() + incoming.structs);
            assert(self.enums.deep_view() =~= old(self).enums.deep_view() + incoming.enums);
            assert(self.impls.deep_view() =~= old(self).impls.deep_view() + incoming.impls);
            assert(self.type_aliases.deep_view() =~= old(self).type_aliases.deep_view() + incoming.type_aliases);
            assert(self.reexports.deep_view() =~= old(self).reexports.deep_view() + incoming.reexports);
            assert(self.constants.deep_view() =~= old(self).constants.deep_view() + incoming.constants);
            assert(self.statics.deep_view() =~= old(self).statics.deep_view() + incoming.statics);
            assert(self.enum_variant_aliases.deep_view() =~= old(self).enum_variant_aliases.deep_view() + incoming.enum_variant_aliases);
            assert(self.macros.deep_view() =~= old(self).macros.deep_view() + incoming.macros);
        }
    }

    /// Visits a free function: recorded if public.
    pub fn visit_item_fn(&mut self, node: &ItemFn)
        ensures
            final(self)@ == old(self)@.absorb(ItemKind::Fn(*node)),
    {
        if is_pub(&node.vis) {
            let record = parse_function(node, self.current_module.as_str());
            self.functions.push(record);
            assert(self.functions.deep_view() == old(self).functions.deep_view().push(record@));
        }
    }

    /// Visits a struct: recorded if public.
    pub fn visit_item_struct(&mut self, node: &ItemStruct)
        ensures
            final(self)@ == old(self)@.absorb(ItemKind::Struct(*node)),
    {
        if is_pub(&node.vis) {
            let record = parse_struct(node, self.current_module.as_str());
            self.structs.push(record);
            assert(self.structs.deep_view() == old(self).structs.deep_view().push(record@));
        }
    }

    /// Visits an enum: recorded if public.
    pub fn visit_item_enum(&mut self, node: &ItemEnum)
        ensures
            final(self)@ == old(self)@.absorb(ItemKind::Enum(*node)),
    {
        if is_pub(&node.vis) {
            let record = parse_enum(node, self.current_module.as_str());
            self.enums.push(record);
            assert(self.enums.deep_view() == old(self).enums.deep_view().push(record@));
        }
    }

    /// Visits an implementation block: recorded if it is for a named type
    /// and has a method that is public or belongs to a trait implementation.
    pub fn visit_item_impl(&mut self, node: &ItemImpl)
        ensures
            final(self)@ == old(self)@.absorb(ItemKind::Impl(*node)),
    {
        match parse_impl(node) {
            Some(record) => {
                self.impls.push(record);
                assert(self.impls.deep_view() == old(self).impls.deep_view().push(record@));
            },
            None => {},
        }
    }

    /// Visits a type alias: recorded if public.
    pub fn visit_item_type(&mut self, node: &ItemType)
        ensures
            final(self)@ == old(self)@.absorb(ItemKind::Type(*node)),
    {
        if is_pub(&node.vis) {
            let record = parse_type_alias(node);
            self.type_aliases.push(record);
            assert(self.type_aliases.deep_view() == old(self).type_aliases.deep_view().push(
                record@,
            ));
        }
    }

    /// Visits a `use` declaration.  A public one is read as an enum-variant
    /// alias first and as a re-export only if that reading gives nothing; it
    /// never adds both.
    pub fn visit_item_use(&mut self, node: &ItemUse)
        ensures
            final(self)@ == old(self)@.absorb(ItemKind::Use(*node)),
    {
        if is_pub(&node.vis) {
            match resolve_import(&node.tree, self.current_module.as_str()) {
                Import::VariantAlias(alias) => {
                    self.enum_variant_aliases.push(alias);
                    assert(self.enum_variant_aliases.deep_view() == old(
                        self,
                    ).enum_variant_aliases.deep_view().push(alias@));
                },
                Import::Reexport(record) => {
                    self.reexports.push(record);
                    assert(self.reexports.deep_view() == old(self).reexports.deep_view().push(
                        record@,
                    ));
                },
                Import::Unrecorded => {},
            }
        }
    }

    /// Visits a constant: recorded if public.
    pub fn visit_item_const(&mut self, node: &ItemConst)
        ensures
            final(self)@ == old(self)@.absorb(ItemKind::Const(*node)),
    {
        if is_pub(&node.vis) {
            let record = parse_constant(node, self.current_module.as_str());
            self.constants.push(record);
            assert(self.constants.deep_view() == old(self).constants.deep_view().push(record@));
        }
    }

    /// Visits a static: recorded if public.
    pub fn visit_item_static(&mut self, node: &ItemStatic)
        ensures
            final(self)@ == old(self)@.absorb(ItemKind::Static(*node)),
    {
        if is_pub(&node.vis) {
            let record = parse_static(node, self.current_module.as_str());
            self.statics.push(record);
            assert(self.statics.deep_view() == old(self).statics.deep_view().push(record@));
        }
    }

    /// Visits a macro invocation in item position: recorded if it is a named
    /// `macro_rules!` definition marked for export.
    pub fn visit_item_macro(&mut self, node: &ItemMacro)
        ensures
            final(self)@ == old(self)@.absorb(ItemKind::Macro(*node)),
    {
        match parse_macro(node, self.current_module.as_str()) {
            Some(record) => {
                self.macros.push(record);
                assert(self.macros.deep_view() == old(self).macros.deep_view().push(record@));
            },
            None => {},
        }
    }

    /// Visits one item, without the items declared inside it.
    pub fn visit_item(&mut self, kind: &ItemKind)
        ensures
            final(self)@ == old(self)@.absorb(*kind),
    {
        match kind {
            ItemKind::Fn(node) => self.visit_item_fn(node),
            ItemKind::Struct(node) => self.visit_item_struct(node),
            ItemKind::Enum(node) => self.visit_item_enum(node),
            ItemKind::Impl(node) => self.visit_item_impl(node),
            ItemKind::Type(node) => self.visit_item_type(node),
            ItemKind::Use(node) => self.visit_item_use(node),
            ItemKind::Const(node) => self.visit_item_const(node),
            ItemKind::Static(node) => self.visit_item_static(node),
            ItemKind::Macro(node) => self.visit_item_macro(node),
            ItemKind::Other => {},
        }
    }

    /// Walks a list of items: each item is visited and then the items
    /// declared inside it, all under the collector's one module path.
    pub fn visit_items(&mut self, items: &Vec<Item>)
        ensures
            final(self)@ == old(self)@.collect(visited(items@)),
        decreases items,
    {
        let ghost start = self@;
        let mut i: usize = 0;
        assert(items@.take(0) == Seq::<Item>::empty());
        while i < items.len()
            invariant
                i <= items.len(),
                self@ == start.collect(visited(items@.take(i as int))),
            decreases items.len() - i,
        {
            let item = &items[i];
            let ghost before = visited(items@.take(i as int));
            proof {
                let next = items@.take(i + 1);
                assert(next.drop_last() == items@.take(i as int));
                assert(next.last() == *item);
                assert(visited(next) == before + seq![item.kind] + visited(item.nested@));
                start.lemma_collect_concat(before + seq![item.kind], visited(item.nested@));
                start.lemma_collect_concat(before, seq![item.kind]);
                start.collect(before).lemma_collect_one(item.kind);
            }
            self.visit_item(&item.kind);
            self.visit_items(&item.nested);
            i += 1;
        }
        assert(items@.take(items@.len() as int) == items@);
    }

    /// Walks a whole file.
    pub fn visit_file(&mut self, file: &SourceFile)
        ensures
            final(self)@ == old(self)@.collect(visited(file.items@)),
    {
        self.visit_items(&file.items);
    }
}

} // verus!
