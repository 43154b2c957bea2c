//! One-line summaries of the records, for logs and interactive sessions.
//!
//! A summary names the record and shows its scalar fields; a list is shown
//! by its length.  Optional texts and lists of texts are shown in the
//! standard library's debug notation.

use vstd::prelude::*;
use vstd::string::*;
use crate::records::{
    RustConstant, RustConstantView, RustCrate, RustCrateView, RustEnum, RustEnumVariantAlias,
    RustEnumVariantAliasView, RustEnumView, RustField, RustFieldView, RustFunction,
    RustFunctionView, RustImpl, RustImplView, RustMacro, RustMacroView, RustMethod,
    RustMethodView, RustParam, RustParamView, RustReexport, RustReexportView, RustStatic,
    RustStaticView, RustStruct, RustStructView, RustTypeAlias, RustTypeAliasView, RustTypeInfo,
    RustTypeInfoView, RustVariant, RustVariantView,
};
use crate::text::{decimal, decimal_string};

verus! {

/// The debug notation of an optional text.
pub uninterp spec fn debug_optional_text(value: Option<Seq<char>>) -> Seq<char>;

/// The debug notation of a list of texts.
pub uninterp spec fn debug_text_list(items: Seq<Seq<char>>) -> Seq<char>;

/// The `Debug` rendering of `Option<String>`, which depends on the value
/// alone.  The contract only gives it a name.
#[verifier::external_body]
fn debug_optional(value: &Option<String>) -> (r: String)
    ensures
        r@ == debug_optional_text(value.deep_view()),
{
    format!("{:?}", value)
}

/// The `Debug` rendering of `Vec<String>`, which depends on the value
/// alone.  The contract only gives it a name.
#[verifier::external_body]
fn debug_list(items: &Vec<String>) -> (r: String)
    ensures
        r@ == debug_text_list(items.deep_view()),
{
    format!("{:?}", items)
}

/// How a flag is written: `true` or `false`.
pub open spec fn bool_text(flag: bool) -> Seq<char> {
    if flag {
        "true"@
    } else {
        "false"@
    }
}

fn bool_str(flag: bool) -> (r: &'static str)
    ensures
        r@ == bool_text(flag),
{
    if flag {
        "true"
    } else {
        "false"
    }
}

impl RustTypeInfoView {
    /// The summary of the record.
    pub open spec fn repr(self) -> Seq<char> {
        "RustTypeInfo(full='"@
            + self.full_type
            + "', ref="@
            + bool_text(self.is_reference)
            + ", impl_trait="@
            + bool_text(self.is_impl_trait)
            + ", borrow="@
            + bool_text(self.expects_borrow)
            + ", owned="@
            + bool_text(self.expects_owned)
            + ")"@
    }
}

impl RustTypeInfo {
    /// Writes the summary of the record.
    pub fn repr(&self) -> (r: String)
        ensures
            r@ == self@.repr(),
    {
        let mut r = String::from_str("RustTypeInfo(full='");
        r.append(self.full_type.as_str());
        r.append("', ref=");
        r.append(bool_str(self.is_reference));
        r.append(", impl_trait=");
        r.append(bool_str(self.is_impl_trait));
        r.append(", borrow=");
        r.append(bool_str(self.expects_borrow));
        r.append(", owned=");
        r.append(bool_str(self.expects_owned));
        r.append(")");
        r
    }
}

impl RustParamView {
    /// The summary of the record.
    pub open spec fn repr(self) -> Seq<char> {
        "RustParam(name='"@
            + self.name
            + "', rust_type='"@
            + self.rust_type
            + "', is_self="@
            + bool_text(self.is_self)
            + ", is_mut="@
            + bool_text(self.is_mut)
            + ")"@
    }
}

impl RustParam {
    /// Writes the summary of the record.
    pub fn repr(&self) -> (r: String)
        ensures
            r@ == self@.repr(),
    {
        let mut r = String::from_str("RustParam(name='");
        r.append(self.name.as_str());
        r.append("', rust_type='");
        r.append(self.rust_type.as_str());
        r.append("', is_self=");
        r.append(bool_str(self.is_self));
        r.append(", is_mut=");
        r.append(bool_str(self.is_mut));
        r.append(")");
        r
    }
}

impl RustFunctionView {
    /// The summary of the record.
    pub open spec fn repr(self) -> Seq<char> {
        "RustFunction(name='"@
            + self.name
            + "', params="@
            + decimal(self.params.len())
            + ", return_type="@
            + debug_optional_text(self.return_type)
            + ", is_pub="@
            + bool_text(self.is_pub)
            + ")"@
    }
}

impl RustFunction {
    /// Writes the summary of the record.
    pub fn repr(&self) -> (r: String)
        ensures
            r@ == self@.repr(),
    {
        let mut r = String::from_str("RustFunction(name='");
        r.append(self.name.as_str());
        r.append("', params=");
        r.append(decimal_string(self.params.len()).as_str());
        r.append(", return_type=");
        r.append(debug_optional(&self.return_type).as_str());
        r.append(", is_pub=");
        r.append(bool_str(self.is_pub));
        r.append(")");
        r
    }
}

impl RustFieldView {
    /// The summary of the record.
    pub open spec fn repr(self) -> Seq<char> {
        "RustField(name='"@
            + self.name
            + "', rust_type='"@
            + self.rust_type
            + "', is_pub="@
            + bool_text(self.is_pub)
            + ")"@
    }
}

impl RustField {
    /// Writes the summary of the record.
    pub fn repr(&self) -> (r: String)
        ensures
            r@ == self@.repr(),
    {
        let mut r = String::from_str("RustField(name='");
        r.append(self.name.as_str());
        r.append("', rust_type='");
        r.append(self.rust_type.as_str());
        r.append("', is_pub=");
        r.append(bool_str(self.is_pub));
        r.append(")");
        r
    }
}

impl RustStructView {
    /// The summary of the record.
    pub open spec fn repr(self) -> Seq<char> {
        "RustStruct(name='"@
            + self.name
            + "', fields="@
            + decimal(self.fields.len())
            + ", is_pub="@
            + bool_text(self.is_pub)
            + ")"@
    }
}

impl RustStruct {
    /// Writes the summary of the record.
    pub fn repr(&self) -> (r: String)
        ensures
            r@ == self@.repr(),
    {
        let mut r = String::from_str("RustStruct(name='");
        r.append(self.name.as_str());
        r.append("', fields=");
        r.append(decimal_string(self.fields.len()).as_str());
        r.append(", is_pub=");
        r.append(bool_str(self.is_pub));
        r.append(")");
        r
    }
}

impl RustVariantView {
    /// The summary of the record.
    pub open spec fn repr(self) -> Seq<char> {
        "RustVariant(name='"@
            + self.name
            + "', fields="@
            + decimal(self.fields.len())
            + ")"@
    }
}

impl RustVariant {
    /// Writes the summary of the record.
    pub fn repr(&self) -> (r: String)
        ensures
            r@ == self@.repr(),
    {
        let mut r = String::from_str("RustVariant(name='");
        r.append(self.name.as_str());
        r.append("', fields=");
        r.append(decimal_string(self.fields.len()).as_str());
        r.append(")");
        r
    }
}

impl RustEnumView {
    /// The summary of the record.
    pub open spec fn repr(self) -> Seq<char> {
        "RustEnum(name='"@
            + self.name
            + "', variants="@
            + decimal(self.variants.len())
            + ", is_pub="@
            + bool_text(self.is_pub)
            + ")"@
    }
}

impl RustEnum {
    /// Writes the summary of the record.
    pub fn repr(&self) -> (r: String)
        ensures
            r@ == self@.repr(),
    {
        let mut r = String::from_str("RustEnum(name='");
        r.append(self.name.as_str());
        r.append("', variants=");
        r.append(decimal_string(self.variants.len()).as_str());
        r.append(", is_pub=");
        r.append(bool_str(self.is_pub));
        r.append(")");
        r
    }
}

impl RustMethodView {
    /// The summary of the record.
    pub open spec fn repr(self) -> Seq<char> {
        "RustMethod(name='"@
            + self.name
            + "', self_type='"@
            + self.self_type
            + "', params="@
            + decimal(self.params.len())
            + ", return_type="@
            + debug_optional_text(self.return_type)
            + ")"@
    }
}

impl RustMethod {
    /// Writes the summary of the record.
    pub fn repr(&self) -> (r: String)
        ensures
            r@ == self@.repr(),
    {
        let mut r = String::from_str("RustMethod(name='");
        r.append(self.name.as_str());
        r.append("', self_type='");
        r.append(self.self_type.as_str());
        r.append("', params=");
        r.append(decimal_string(self.params.len()).as_str());
        r.append(", return_type=");
        r.append(debug_optional(&self.return_type).as_str());
        r.append(")");
        r
    }
}

impl RustImplView {
    /// The summary of the record.
    pub open spec fn repr(self) -> Seq<char> {
        "RustImpl(type_name='"@
            + self.target_name
            + "', methods="@
            + decimal(self.methods.len())
            + ", trait="@
            + debug_optional_text(self.trait_name)
            + ")"@
    }
}

impl RustImpl {
    /// Writes the summary of the record.
    pub fn repr(&self) -> (r: String)
        ensures
            r@ == self@.repr(),
    {
        let mut r = String::from_str("RustImpl(type_name='");
        r.append(self.target_name.as_str());
        r.append("', methods=");
        r.append(decimal_string(self.methods.len()).as_str());
        r.append(", trait=");
        r.append(debug_optional(&self.trait_name).as_str());
        r.append(")");
        r
    }
}

impl RustTypeAliasView {
    /// The summary of the record.
    pub open spec fn repr(self) -> Seq<char> {
        "RustTypeAlias(name='"@
            + self.name
            + "', target='"@
            + self.target_type
            + "', generics="@
            + debug_text_list(self.generics)
            + ")"@
    }
}

impl RustTypeAlias {
    /// Writes the summary of the record.
    pub fn repr(&self) -> (r: String)
        ensures
            r@ == self@.repr(),
    {
        let mut r = String::from_str("RustTypeAlias(name='");
        r.append(self.name.as_str());
        r.append("', target='");
        r.append(self.target_type.as_str());
        r.append("', generics=");
        r.append(debug_list(&self.generics).as_str());
        r.append(")");
        r
    }
}

impl RustReexportView {
    /// The summary of the record.  A glob shows no items.
    pub open spec fn repr(self) -> Seq<char> {
        if self.is_glob {
            "RustReexport(source='"@ + self.source_crate + "', glob=true)"@
        } else {
            "RustReexport(source='"@ + self.source_crate + "', items="@ + debug_text_list(
                self.items,
            ) + ")"@
        }
    }
}

impl RustReexport {
    /// Writes the summary of the record.
    pub fn repr(&self) -> (r: String)
        ensures
            r@ == self@.repr(),
    {
        let mut r = String::from_str("RustReexport(source='");
        r.append(self.source_crate.as_str());
        if self.is_glob {
            r.append("', glob=true)");
        } else {
            r.append("', items=");
            r.append(debug_list(&self.items).as_str());
            r.append(")");
        }
        r
    }
}

impl RustConstantView {
    /// The summary of the record.
    pub open spec fn repr(self) -> Seq<char> {
        "RustConstant(name='"@
            + self.name
            + "', type='"@
            + self.rust_type
            + "', module='"@
            + self.mod_path
            + "', is_pub="@
            + bool_text(self.is_pub)
            + ")"@
    }
}

impl RustConstant {
    /// Writes the summary of the record.
    pub fn repr(&self) -> (r: String)
        ensures
            r@ == self@.repr(),
    {
        let mut r = String::from_str("RustConstant(name='");
        r.append(self.name.as_str());
        r.append("', type='");
        r.append(self.rust_type.as_str());
        r.append("', module='");
        r.append(self.mod_path.as_str());
        r.append("', is_pub=");
        r.append(bool_str(self.is_pub));
        r.append(")");
        r
    }
}

impl RustStaticView {
    /// The summary of the record.
    pub open spec fn repr(self) -> Seq<char> {
        "RustStatic(name='"@
            + self.name
            + "', type='"@
            + self.rust_type
            + "', module='"@
            + self.mod_path
            + "', is_pub="@
            + bool_text(self.is_pub)
            + ", is_mut="@
            + bool_text(self.is_mut)
            + ")"@
    }
}

impl RustStatic {
    /// Writes the summary of the record.
    pub fn repr(&self) -> (r: String)
        ensures
            r@ == self@.repr(),
    {
        let mut r = String::from_str("RustStatic(name='");
        r.append(self.name.as_str());
        r.append("', type='");
        r.append(self.rust_type.as_str());
        r.append("', module='");
        r.append(self.mod_path.as_str());
        r.append("', is_pub=");
        r.append(bool_str(self.is_pub));
        r.append(", is_mut=");
        r.append(bool_str(self.is_mut));
        r.append(")");
        r
    }
}

impl RustEnumVariantAliasView {
    /// The summary of the record.
    pub open spec fn repr(self) -> Seq<char> {
        "RustEnumVariantAlias(alias='"@
            + self.alias_name
            + "', enum='"@
            + self.enum_type
            + "', variant='"@
            + self.variant_name
            + "', path='"@
            + self.full_path
            + "')"@
    }
}

impl RustEnumVariantAlias {
    /// Writes the summary of the record.
    pub fn repr(&self) -> (r: String)
        ensures
            r@ == self@.repr(),
    {
        let mut r = String::from_str("RustEnumVariantAlias(alias='");
        r.append(self.alias_name.as_str());
        r.append("', enum='");
        r.append(self.enum_type.as_str());
        r.append("', variant='");
        r.append(self.variant_name.as_str());
        r.append("', path='");
        r.append(self.full_path.as_str());
        r.append("')");
        r
    }
}

impl RustMacroView {
    /// The summary of the record.
    pub open spec fn repr(self) -> Seq<char> {
        "RustMacro(name='"@
            + self.name
            + "', module='"@
            + self.mod_path
            + "', exported="@
            + bool_text(self.is_exported)
            + ")"@
    }
}

impl RustMacro {
    /// Writes the summary of the record.
    pub fn repr(&self) -> (r: String)
        ensures
            r@ == self@.repr(),
    {
        let mut r = String::from_str("RustMacro(name='");
        r.append(self.name.as_str());
        r.append("', module='");
        r.append(self.mod_path.as_str());
        r.append("', exported=");
        r.append(bool_str(self.is_exported));
        r.append(")");
        r
    }
}

impl RustCrateView {
    /// The summary of the record.
    pub open spec fn repr(self) -> Seq<char> {
        "RustCrate(name='"@
            + self.name
            + "', functions="@
            + decimal(self.functions.len())
            + ", structs="@
            + decimal(self.structs.len())
            + ", enums="@
            + decimal(self.enums.len())
            + ", impls="@
            + decimal(self.impls.len())
            + ", type_aliases="@
            + decimal(self.type_aliases.len())
            + ", reexports="@
            + decimal(self.reexports.len())
            + ", constants="@
            + decimal(self.constants.len())
            + ", statics="@
            + decimal(self.statics.len())
            + ", enum_variant_aliases="@
            + decimal(self.enum_variant_aliases.len())
            + ", macros="@
            + decimal(self.macros.len())
            + ", features="@
            + decimal(self.available_features.len())
            + ")"@
    }
}

impl RustCrate {
    /// Writes the summary of the record.
    pub fn repr(&self) -> (r: String)
        ensures
            r@ == self@.repr(),
    {
        let mut r = String::from_str("RustCrate(name='");
        r.append(self.name.as_str());
        r.append("', functions=");
        r.append(decimal_string(self.functions.len()).as_str());
        r.append(", structs=");
        r.append(decimal_string(self.structs.len()).as_str());
        r.append(", enums=");
        r.append(decimal_string(self.enums.len()).as_str());
        r.append(", impls=");
        r.append(decimal_string(self.impls.len()).as_str());
        r.append(", type_aliases=");
        r.append(decimal_string(self.type_aliases.len()).as_str());
        r.append(", reexports=");
        r.append(decimal_string(self.reexports.len()).as_str());
        r.append(", constants=");
        r.append(decimal_string(self.constants.len()).as_str());
        r.append(", statics=");
        r.append(decimal_string(self.statics.len()).as_str());
        r.append(", enum_variant_aliases=");
        r.append(decimal_string(self.enum_variant_aliases.len()).as_str());
        r.append(", macros=");
        r.append(decimal_string(self.macros.len()).as_str());
        r.append(", features=");
        r.append(decimal_string(self.available_features.len()).as_str());
        r.append(")");
        r
    }
}

} // verus!
