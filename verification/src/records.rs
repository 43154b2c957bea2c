//! The records of the extracted interface model.
//!
//! Each record is plain data with public fields.  Its view replaces strings by
//! `Seq<char>` and vectors by `Seq`, so that contracts can describe a record
//! by equality with a value that a specification function computes.

use vstd::prelude::*;

verus! {

/// What the classifier recovers from one type expression.
#[derive(Clone, Debug)]
pub struct RustTypeInfo {
    /// The type as written, with every space removed.
    pub full_type: String,
    /// Whether the type is a reference, shared or exclusive.
    pub is_reference: bool,
    /// Whether the type is an exclusive (`&mut`) reference.
    pub is_mutable_ref: bool,
    /// Whether the type is an anonymous `impl Trait` type.
    pub is_impl_trait: bool,
    /// The bounds of an `impl Trait` type joined with `+`; present exactly for such a type.
    pub trait_bound: Option<String>,
    /// The type with reference markers and path qualifiers stripped.
    pub core_type: String,
    /// Heuristic: the position conventionally takes borrowed data.
    pub expects_borrow: bool,
    /// Heuristic: the position conventionally takes owned data.
    pub expects_owned: bool,
}

/// The mathematical value of a [`RustTypeInfo`].
pub struct RustTypeInfoView {
    pub full_type: Seq<char>,
    pub is_reference: bool,
    pub is_mutable_ref: bool,
    pub is_impl_trait: bool,
    pub trait_bound: Option<Seq<char>>,
    pub core_type: Seq<char>,
    pub expects_borrow: bool,
    pub expects_owned: bool,
}

impl View for RustTypeInfo {
    type V = RustTypeInfoView;

    open spec fn view(&self) -> RustTypeInfoView {
        RustTypeInfoView {
            full_type: self.full_type@,
            is_reference: self.is_reference,
            is_mutable_ref: self.is_mutable_ref,
            is_impl_trait: self.is_impl_trait,
            trait_bound: self.trait_bound.deep_view(),
            core_type: self.core_type@,
            expects_borrow: self.expects_borrow,
            expects_owned: self.expects_owned,
        }
    }
}

impl DeepView for RustTypeInfo {
    type V = RustTypeInfoView;

    open spec fn deep_view(&self) -> RustTypeInfoView {
        self@
    }
}

/// One parameter of a function or method; receivers are never recorded as parameters.
#[derive(Clone, Debug)]
pub struct RustParam {
    /// The binding name, or `_` for a pattern that is not a plain identifier.
    pub name: String,
    /// The parameter type as written, with every space removed.
    pub rust_type: String,
    /// Always `false`: a receiver is described by the method's `self_type`.
    pub is_self: bool,
    /// Always `false`: binding mutability is not part of the interface.
    pub is_mut: bool,
    /// The classification of the parameter type.
    pub type_info: Option<RustTypeInfo>,
}

/// The mathematical value of a [`RustParam`].
pub struct RustParamView {
    pub name: Seq<char>,
    pub rust_type: Seq<char>,
    pub is_self: bool,
    pub is_mut: bool,
    pub type_info: Option<RustTypeInfoView>,
}

impl View for RustParam {
    type V = RustParamView;

    open spec fn view(&self) -> RustParamView {
        RustParamView {
            name: self.name@,
            rust_type: self.rust_type@,
            is_self: self.is_self,
            is_mut: self.is_mut,
            type_info: self.type_info.deep_view(),
        }
    }
}

impl DeepView for RustParam {
    type V = RustParamView;

    open spec fn deep_view(&self) -> RustParamView {
        self@
    }
}

/// A free function of the public interface.
#[derive(Clone, Debug)]
pub struct RustFunction {
    pub name: String,
    pub params: Vec<RustParam>,
    /// The declared return type with spaces removed; absent for the implicit unit return.
    pub return_type: Option<String>,
    pub is_pub: bool,
    pub is_async: bool,
    pub doc: Option<String>,
    pub mod_path: String,
}

/// The mathematical value of a [`RustFunction`].
pub struct RustFunctionView {
    pub name: Seq<char>,
    pub params: Seq<RustParamView>,
    pub return_type: Option<Seq<char>>,
    pub is_pub: bool,
    pub is_async: bool,
    pub doc: Option<Seq<char>>,
    pub mod_path: Seq<char>,
}

impl View for RustFunction {
    type V = RustFunctionView;

    open spec fn view(&self) -> RustFunctionView {
        RustFunctionView {
            name: self.name@,
            params: self.params.deep_view(),
            return_type: self.return_type.deep_view(),
            is_pub: self.is_pub,
            is_async: self.is_async,
            doc: self.doc.deep_view(),
            mod_path: self.mod_path@,
        }
    }
}

impl DeepView for RustFunction {
    type V = RustFunctionView;

    open spec fn deep_view(&self) -> RustFunctionView {
        self@
    }
}

/// A field of a struct or of an enum variant.
#[derive(Clone, Debug)]
pub struct RustField {
    /// The field name; `_0`, `_1`, ... for positional fields.
    pub name: String,
    pub rust_type: String,
    pub is_pub: bool,
}

/// The mathematical value of a [`RustField`].
pub struct RustFieldView {
    pub name: Seq<char>,
    pub rust_type: Seq<char>,
    pub is_pub: bool,
}

impl View for RustField {
    type V = RustFieldView;

    open spec fn view(&self) -> RustFieldView {
        RustFieldView {
            name: self.name@,
            rust_type: self.rust_type@,
            is_pub: self.is_pub,
        }
    }
}

impl DeepView for RustField {
    type V = RustFieldView;

    open spec fn deep_view(&self) -> RustFieldView {
        self@
    }
}

/// A struct of the public interface.
#[derive(Clone, Debug)]
pub struct RustStruct {
    pub name: String,
    pub fields: Vec<RustField>,
    pub is_pub: bool,
    pub doc: Option<String>,
    pub mod_path: String,
}

/// The mathematical value of a [`RustStruct`].
pub struct RustStructView {
    pub name: Seq<char>,
    pub fields: Seq<RustFieldView>,
    pub is_pub: bool,
    pub doc: Option<Seq<char>>,
    pub mod_path: Seq<char>,
}

impl View for RustStruct {
    type V = RustStructView;

    open spec fn view(&self) -> RustStructView {
        RustStructView {
            name: self.name@,
            fields: self.fields.deep_view(),
            is_pub: self.is_pub,
            doc: self.doc.deep_view(),
            mod_path: self.mod_path@,
        }
    }
}

impl DeepView for RustStruct {
    type V = RustStructView;

    open spec fn deep_view(&self) -> RustStructView {
        self@
    }
}

/// A variant of an enum.
#[derive(Clone, Debug)]
pub struct RustVariant {
    pub name: String,
    pub fields: Vec<RustField>,
}

/// The mathematical value of a [`RustVariant`].
pub struct RustVariantView {
    pub name: Seq<char>,
    pub fields: Seq<RustFieldView>,
}

impl View for RustVariant {
    type V = RustVariantView;

    open spec fn view(&self) -> RustVariantView {
        RustVariantView {
            name: self.name@,
            fields: self.fields.deep_view(),
        }
    }
}

impl DeepView for RustVariant {
    type V = RustVariantView;

    open spec fn deep_view(&self) -> RustVariantView {
        self@
    }
}

/// An enum of the public interface.
#[derive(Clone, Debug)]
pub struct RustEnum {
    pub name: String,
    pub variants: Vec<RustVariant>,
    pub is_pub: bool,
    pub doc: Option<String>,
    pub mod_path: String,
}

/// The mathematical value of a [`RustEnum`].
pub struct RustEnumView {
    pub name: Seq<char>,
    pub variants: Seq<RustVariantView>,
    pub is_pub: bool,
    pub doc: Option<Seq<char>>,
    pub mod_path: Seq<char>,
}

impl View for RustEnum {
    type V = RustEnumView;

    open spec fn view(&self) -> RustEnumView {
        RustEnumView {
            name: self.name@,
            variants: self.variants.deep_view(),
            is_pub: self.is_pub,
            doc: self.doc.deep_view(),
            mod_path: self.mod_path@,
        }
    }
}

impl DeepView for RustEnum {
    type V = RustEnumView;

    open spec fn deep_view(&self) -> RustEnumView {
        self@
    }
}

/// A method recorded from an implementation block.
#[derive(Clone, Debug)]
pub struct RustMethod {
    pub name: String,
    pub params: Vec<RustParam>,
    pub return_type: Option<String>,
    /// How the receiver is taken: empty for none, else `self`, `&self` or `&mut self`.
    pub self_type: String,
    pub is_pub: bool,
    /// Whether the method has no receiver.
    pub is_static: bool,
    pub doc: Option<String>,
}

/// The mathematical value of a [`RustMethod`].
pub struct RustMethodView {
    pub name: Seq<char>,
    pub params: Seq<RustParamView>,
    pub return_type: Option<Seq<char>>,
    pub self_type: Seq<char>,
    pub is_pub: bool,
    pub is_static: bool,
    pub doc: Option<Seq<char>>,
}

impl View for RustMethod {
    type V = RustMethodView;

    open spec fn view(&self) -> RustMethodView {
        RustMethodView {
            name: self.name@,
            params: self.params.deep_view(),
            return_type: self.return_type.deep_view(),
            self_type: self.self_type@,
            is_pub: self.is_pub,
            is_static: self.is_static,
            doc: self.doc.deep_view(),
        }
    }
}

impl DeepView for RustMethod {
    type V = RustMethodView;

    open spec fn deep_view(&self) -> RustMethodView {
        self@
    }
}

/// An implementation block with at least one recorded method.
#[derive(Clone, Debug)]
pub struct RustImpl {
    /// The last path segment of the type the block implements for.
    pub target_name: String,
    pub methods: Vec<RustMethod>,
    /// The implemented trait, for a trait implementation.
    pub trait_name: Option<String>,
}

/// The mathematical value of a [`RustImpl`].
pub struct RustImplView {
    pub target_name: Seq<char>,
    pub methods: Seq<RustMethodView>,
    pub trait_name: Option<Seq<char>>,
}

impl View for RustImpl {
    type V = RustImplView;

    open spec fn view(&self) -> RustImplView {
        RustImplView {
            target_name: self.target_name@,
            methods: self.methods.deep_view(),
            trait_name: self.trait_name.deep_view(),
        }
    }
}

impl DeepView for RustImpl {
    type V = RustImplView;

    open spec fn deep_view(&self) -> RustImplView {
        self@
    }
}

/// A type alias of the public interface.
#[derive(Clone, Debug)]
pub struct RustTypeAlias {
    pub name: String,
    pub target_type: String,
    /// The generic parameters as written, in order.
    pub generics: Vec<String>,
    pub is_pub: bool,
    pub doc: Option<String>,
}

/// The mathematical value of a [`RustTypeAlias`].
pub struct RustTypeAliasView {
    pub name: Seq<char>,
    pub target_type: Seq<char>,
    pub generics: Seq<Seq<char>>,
    pub is_pub: bool,
    pub doc: Option<Seq<char>>,
}

impl View for RustTypeAlias {
    type V = RustTypeAliasView;

    open spec fn view(&self) -> RustTypeAliasView {
        RustTypeAliasView {
            name: self.name@,
            target_type: self.target_type@,
            generics: self.generics.deep_view(),
            is_pub: self.is_pub,
            doc: self.doc.deep_view(),
        }
    }
}

impl DeepView for RustTypeAlias {
    type V = RustTypeAliasView;

    open spec fn deep_view(&self) -> RustTypeAliasView {
        self@
    }
}

/// A public import of items that another crate defines.
#[derive(Clone, Debug)]
pub struct RustReexport {
    /// The outermost segment of the imported path.
    pub source_crate: String,
    pub is_glob: bool,
    /// The imported names under their original identifiers; empty for a glob.
    pub items: Vec<String>,
}

/// The mathematical value of a [`RustReexport`].
pub struct RustReexportView {
    pub source_crate: Seq<char>,
    pub is_glob: bool,
    pub items: Seq<Seq<char>>,
}

impl View for RustReexport {
    type V = RustReexportView;

    open spec fn view(&self) -> RustReexportView {
        RustReexportView {
            source_crate: self.source_crate@,
            is_glob: self.is_glob,
            items: self.items.deep_view(),
        }
    }
}

impl DeepView for RustReexport {
    type V = RustReexportView;

    open spec fn deep_view(&self) -> RustReexportView {
        self@
    }
}

/// A constant of the public interface.
#[derive(Clone, Debug)]
pub struct RustConstant {
    pub name: String,
    pub rust_type: String,
    pub is_pub: bool,
    pub doc: Option<String>,
    pub mod_path: String,
}

/// The mathematical value of a [`RustConstant`].
pub struct RustConstantView {
    pub name: Seq<char>,
    pub rust_type: Seq<char>,
    pub is_pub: bool,
    pub doc: Option<Seq<char>>,
    pub mod_path: Seq<char>,
}

impl View for RustConstant {
    type V = RustConstantView;

    open spec fn view(&self) -> RustConstantView {
        RustConstantView {
            name: self.name@,
            rust_type: self.rust_type@,
            is_pub: self.is_pub,
            doc: self.doc.deep_view(),
            mod_path: self.mod_path@,
        }
    }
}

impl DeepView for RustConstant {
    type V = RustConstantView;

    open spec fn deep_view(&self) -> RustConstantView {
        self@
    }
}

/// A static of the public interface.
#[derive(Clone, Debug)]
pub struct RustStatic {
    pub name: String,
    pub rust_type: String,
    pub is_pub: bool,
    pub is_mut: bool,
    pub doc: Option<String>,
    pub mod_path: String,
}

/// The mathematical value of a [`RustStatic`].
pub struct RustStaticView {
    pub name: Seq<char>,
    pub rust_type: Seq<char>,
    pub is_pub: bool,
    pub is_mut: bool,
    pub doc: Option<Seq<char>>,
    pub mod_path: Seq<char>,
}

impl View for RustStatic {
    type V = RustStaticView;

    open spec fn view(&self) -> RustStaticView {
        RustStaticView {
            name: self.name@,
            rust_type: self.rust_type@,
            is_pub: self.is_pub,
            is_mut: self.is_mut,
            doc: self.doc.deep_view(),
            mod_path: self.mod_path@,
        }
    }
}

impl DeepView for RustStatic {
    type V = RustStaticView;

    open spec fn deep_view(&self) -> RustStaticView {
        self@
    }
}

/// A public import of one enum variant, possibly under another name.
#[derive(Clone, Debug)]
pub struct RustEnumVariantAlias {
    /// The exported name.
    pub alias_name: String,
    /// The path of the enum.
    pub enum_type: String,
    /// The variant's own name.
    pub variant_name: String,
    /// The enum path and the variant joined with `::`.
    pub full_path: String,
    pub is_pub: bool,
    /// The module that holds the import.
    pub mod_path: String,
}

/// The mathematical value of a [`RustEnumVariantAlias`].
pub struct RustEnumVariantAliasView {
    pub alias_name: Seq<char>,
    pub enum_type: Seq<char>,
    pub variant_name: Seq<char>,
    pub full_path: Seq<char>,
    pub is_pub: bool,
    pub mod_path: Seq<char>,
}

impl View for RustEnumVariantAlias {
    type V = RustEnumVariantAliasView;

    open spec fn view(&self) -> RustEnumVariantAliasView {
        RustEnumVariantAliasView {
            alias_name: self.alias_name@,
            enum_type: self.enum_type@,
            variant_name: self.variant_name@,
            full_path: self.full_path@,
            is_pub: self.is_pub,
            mod_path: self.mod_path@,
        }
    }
}

impl DeepView for RustEnumVariantAlias {
    type V = RustEnumVariantAliasView;

    open spec fn deep_view(&self) -> RustEnumVariantAliasView {
        self@
    }
}

/// An exported `macro_rules!` definition.
#[derive(Clone, Debug)]
pub struct RustMacro {
    pub name: String,
    pub doc: Option<String>,
    pub mod_path: String,
    pub is_exported: bool,
}

/// The mathematical value of a [`RustMacro`].
pub struct RustMacroView {
    pub name: Seq<char>,
    pub doc: Option<Seq<char>>,
    pub mod_path: Seq<char>,
    pub is_exported: bool,
}

impl View for RustMacro {
    type V = RustMacroView;

    open spec fn view(&self) -> RustMacroView {
        RustMacroView {
            name: self.name@,
            doc: self.doc.deep_view(),
            mod_path: self.mod_path@,
            is_exported: self.is_exported,
        }
    }
}

impl DeepView for RustMacro {
    type V = RustMacroView;

    open spec fn deep_view(&self) -> RustMacroView {
        self@
    }
}

/// Everything extracted from one file or one source tree.
#[derive(Clone, Debug)]
pub struct RustCrate {
    pub name: String,
    pub functions: Vec<RustFunction>,
    pub structs: Vec<RustStruct>,
    pub enums: Vec<RustEnum>,
    pub impls: Vec<RustImpl>,
    pub type_aliases: Vec<RustTypeAlias>,
    pub reexports: Vec<RustReexport>,
    pub constants: Vec<RustConstant>,
    pub statics: Vec<RustStatic>,
    pub enum_variant_aliases: Vec<RustEnumVariantAlias>,
    pub macros: Vec<RustMacro>,
    /// Every feature the manifest declares, sorted.
    pub available_features: Vec<String>,
    /// The members of the manifest's `default` feature, sorted.
    pub default_features: Vec<String>,
}

/// The mathematical value of a [`RustCrate`].
pub struct RustCrateView {
    pub name: Seq<char>,
    pub functions: Seq<RustFunctionView>,
    pub structs: Seq<RustStructView>,
    pub enums: Seq<RustEnumView>,
    pub impls: Seq<RustImplView>,
    pub type_aliases: Seq<RustTypeAliasView>,
    pub reexports: Seq<RustReexportView>,
    pub constants: Seq<RustConstantView>,
    pub statics: Seq<RustStaticView>,
    pub enum_variant_aliases: Seq<RustEnumVariantAliasView>,
    pub macros: Seq<RustMacroView>,
    pub available_features: Seq<Seq<char>>,
    pub default_features: Seq<Seq<char>>,
}

impl View for RustCrate {
    type V = RustCrateView;

    open spec fn view(&self) -> RustCrateView {
        RustCrateView {
            name: self.name@,
            functions: self.functions.deep_view(),
            structs: self.structs.deep_view(),
            enums: self.enums.deep_view(),
            impls: self.impls.deep_view(),
            type_aliases: self.type_aliases.deep_view(),
            reexports: self.reexports.deep_view(),
            constants: self.constants.deep_view(),
            statics: self.statics.deep_view(),
            enum_variant_aliases: self.enum_variant_aliases.deep_view(),
            macros: self.macros.deep_view(),
            available_features: self.available_features.deep_view(),
            default_features: self.default_features.deep_view(),
        }
    }
}

impl DeepView for RustCrate {
    type V = RustCrateView;

    open spec fn deep_view(&self) -> RustCrateView {
        self@
    }
}

} // verus!
