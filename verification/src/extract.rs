//! The item extractors: from one item of the syntax tree to its record.
//!
//! Every extractor is a total projection.  Whether an item is recorded at all
//! is decided by the visibility filter: only the unqualified `pub` counts as
//! public, with one exception for the methods of a trait implementation,
//! which are part of the trait's contract whatever their own marker says.

use vstd::prelude::*;
use crate::classify::{
    analyze_type, is_written, lemma_type_text_nonempty, type_info, type_text, type_to_string,
};
use crate::records::{
    RustConstant, RustConstantView, RustEnum, RustEnumView, RustField, RustFieldView,
    RustFunction, RustFunctionView, RustImpl, RustImplView, RustMacro, RustMacroView, RustMethod,
    RustMethodView, RustParam, RustParamView, RustStatic, RustStaticView, RustStruct,
    RustStructView, RustTypeAlias, RustTypeAliasView, RustVariant, RustVariantView,
};
use crate::syntax::{
    AttrValue, Attribute, Field, Fields, FnArg, ImplItem, ImplItemFn, ItemConst, ItemEnum, ItemFn,
    ItemImpl, ItemMacro, ItemStatic, ItemStruct, ItemType, Meta, Path, Pattern, ReturnType,
    TypeKind, Variant, Visibility,
};
use crate::text::{decimal, decimal_string, join, joined, text_eq, texts, trim, trimmed};

verus! {

/// Whether a visibility marker is the unqualified `pub`.
pub open spec fn is_public(vis: Visibility) -> bool {
    vis is Public
}

/// The visibility filter: restricted and absent markers are not public.
pub fn is_pub(vis: &Visibility) -> (r: bool)
    ensures
        r == is_public(*vis),
{
    match vis {
        Visibility::Public => true,
        _ => false,
    }
}

/// Whether an attribute is written with the plain identifier `name`.
pub open spec fn attribute_is(attr: Attribute, name: Seq<char>) -> bool {
    attr.ident matches Some(ident) && ident@ == name
}

/// Whether some attribute of the list is written with the plain identifier
/// `name`.
pub open spec fn has_attribute(attrs: Seq<Attribute>, name: Seq<char>) -> bool {
    exists|i: int| 0 <= i < attrs.len() && attribute_is(#[trigger] attrs[i], name)
}

fn attribute_named(attr: &Attribute, name: &str) -> (r: bool)
    ensures
        r == attribute_is(*attr, name@),
{
    match &attr.ident {
        Some(ident) => text_eq(ident.as_str(), name),
        None => false,
    }
}

fn any_attribute_named(attrs: &Vec<Attribute>, name: &str) -> (r: bool)
    ensures
        r == has_attribute(attrs@, name@),
{
    let mut i: usize = 0;
    while i < attrs.len()
        invariant
            i <= attrs.len(),
            forall|j: int| 0 <= j < i ==> !attribute_is(#[trigger] attrs@[j], name@),
        decreases attrs.len() - i,
    {
        if attribute_named(&attrs[i], name) {
            return true;
        }
        i += 1;
    }
    false
}

/// The documentation line that one attribute contributes: the trimmed value
/// of `#[doc = "text"]`, nothing for any other attribute.
pub open spec fn doc_line(attr: Attribute) -> Option<Seq<char>> {
    if attribute_is(attr, "doc"@) {
        match attr.meta {
            Meta::NameValue(AttrValue::Str(value)) => Some(trimmed(value@)),
            _ => None,
        }
    } else {
        None
    }
}

/// The documentation lines of an attribute list, in order.
pub open spec fn doc_lines(attrs: Seq<Attribute>) -> Seq<Seq<char>> {
    attrs.filter_map(|attr: Attribute| doc_line(attr))
}

/// The documentation of an item: its documentation lines joined by newlines,
/// absent where it has none.
pub open spec fn doc_text(attrs: Seq<Attribute>) -> Option<Seq<char>> {
    let lines = doc_lines(attrs);
    if lines.len() == 0 {
        None
    } else {
        Some(joined(lines, "\n"@))
    }
}

/// Collects the documentation comment of an item from its attributes.
pub fn extract_doc_comment(attrs: &Vec<Attribute>) -> (r: Option<String>)
    ensures
        r.deep_view() == doc_text(attrs@),
{
    let mut docs: Vec<String> = Vec::new();
    let mut i: usize = 0;
    assert(attrs@.take(0) == Seq::<Attribute>::empty());
    while i < attrs.len()
        invariant
            i <= attrs.len(),
            texts(docs@) == doc_lines(attrs@.take(i as int)),
        decreases attrs.len() - i,
    {
        proof {
            attrs@.lemma_filter_map_take_succ(|attr: Attribute| doc_line(attr), i as int);
        }
        let attr = &attrs[i];
        if attribute_named(attr, "doc") {
            match &attr.meta {
                Meta::NameValue(AttrValue::Str(value)) => {
                    let ghost before = texts(docs@);
                    let line = String::from_str(trim(value.as_str()));
                    docs.push(line);
                    assert(texts(docs@) == before + seq![line@]);
                },
                _ => {},
            }
        }
        i += 1;
    }
    assert(attrs@.take(attrs@.len() as int) == attrs@);
    if docs.len() == 0 {
        None
    } else {
        Some(join(&docs, "\n"))
    }
}

/// The name under which a parameter is recorded.
pub open spec fn pattern_name(pat: Pattern) -> Seq<char> {
    match pat {
        Pattern::Ident(name) => name@,
        Pattern::Other => "_"@,
    }
}

/// The record of one parameter; a receiver has none.
pub open spec fn param_of(arg: FnArg) -> Option<RustParamView> {
    match arg {
        FnArg::Typed { pat, ty } => Some(
            RustParamView {
                name: pattern_name(pat),
                rust_type: type_text(ty),
                is_self: false,
                is_mut: false,
                type_info: Some(type_info(ty)),
            },
        ),
        FnArg::Receiver { .. } => None,
    }
}

/// The parameter records of a signature: one for each typed parameter, in
/// order.
pub open spec fn params_of(inputs: Seq<FnArg>) -> Seq<RustParamView> {
    inputs.filter_map(|arg: FnArg| param_of(arg))
}

/// How a signature takes its receiver: decided by the first parameter, and
/// empty where that is no receiver.
pub open spec fn receiver_text(inputs: Seq<FnArg>) -> Seq<char> {
    if inputs.len() == 0 {
        Seq::empty()
    } else {
        match inputs[0] {
            FnArg::Receiver { reference, mutability } => if reference {
                if mutability {
                    "&mut self"@
                } else {
                    "&self"@
                }
            } else {
                "self"@
            },
            FnArg::Typed { .. } => Seq::empty(),
        }
    }
}

impl RustParamView {
    /// The invariant of a parameter record: it never stands for a receiver,
    /// and it carries the classification of the very type it shows.
    pub open spec fn well_formed(self) -> bool {
        &&& !self.is_self
        &&& !self.is_mut
        &&& self.type_info matches Some(info) && info.well_formed() && info.full_type
            == self.rust_type
    }
}

/// Every parameter record of a signature is well formed.
pub proof fn lemma_params_well_formed(inputs: Seq<FnArg>)
    ensures
        forall|i: int|
            0 <= i < params_of(inputs).len() ==> (#[trigger] params_of(inputs)[i]).well_formed(),
    decreases inputs.len(),
{
    if inputs.len() > 0 {
        let rest = params_of(inputs.drop_last());
        lemma_params_well_formed(inputs.drop_last());
        assert forall|i: int| 0 <= i < params_of(inputs).len() implies (#[trigger] params_of(
            inputs,
        )[i]).well_formed() by {
            if i < rest.len() {
                assert(params_of(inputs)[i] == rest[i]);
            } else {
                assert(param_of(inputs.last()) == Some(params_of(inputs)[i]));
            }
        }
    }
}

/// Whether a parameter list is as a parser hands it over: a receiver
/// stands in the first place only, and the type of every typed parameter
/// is written out.
pub open spec fn is_valid_signature(inputs: Seq<FnArg>) -> bool {
    &&& forall|i: int| 0 < i < inputs.len() ==> !(#[trigger] inputs[i] is Receiver)
    &&& forall|i: int|
        0 <= i < inputs.len() && #[trigger] inputs[i] is Typed ==> is_written(inputs[i]->ty)
}

/// Whether a parameter list holds a receiver.
pub open spec fn has_receiver(inputs: Seq<FnArg>) -> bool {
    exists|i: int| 0 <= i < inputs.len() && #[trigger] inputs[i] is Receiver
}

/// Every parameter record of a valid parameter list has a non-empty type.
pub proof fn lemma_params_have_types(inputs: Seq<FnArg>)
    requires
        is_valid_signature(inputs),
    ensures
        forall|j: int|
            0 <= j < params_of(inputs).len() ==> (#[trigger] params_of(inputs)[j]).rust_type.len()
                > 0,
    decreases inputs.len(),
{
    if inputs.len() > 0 {
        let front = inputs.drop_last();
        let rest = params_of(front);
        assert forall|i: int| 0 <= i < front.len() && #[trigger] front[i] is Typed implies is_written(
            front[i]->ty,
        ) by {
            assert(front[i] == inputs[i]);
        }
        assert forall|i: int| 0 < i < front.len() implies !(#[trigger] front[i] is Receiver) by {
            assert(front[i] == inputs[i]);
        }
        lemma_params_have_types(front);
        assert forall|j: int| 0 <= j < params_of(inputs).len() implies (#[trigger] params_of(
            inputs,
        )[j]).rust_type.len() > 0 by {
            if j < rest.len() {
                assert(params_of(inputs)[j] == rest[j]);
            } else {
                assert(param_of(inputs.last()) == Some(params_of(inputs)[j]));
                assert(inputs[inputs.len() - 1] is Typed);
                lemma_type_text_nonempty(inputs.last()->ty);
            }
        }
    }
}

/// In a valid parameter list the receiver, if there is one, is the only
/// parameter without a record, and the receiver text is empty exactly when
/// there is no receiver.
pub proof fn lemma_receiver_of_valid_signature(inputs: Seq<FnArg>)
    requires
        is_valid_signature(inputs),
    ensures
        receiver_text(inputs).len() == 0 <==> !has_receiver(inputs),
        params_of(inputs).len() + (if has_receiver(inputs) {
            1int
        } else {
            0int
        }) == inputs.len(),
    decreases inputs.len(),
{
    reveal_strlit("self");
    reveal_strlit("&self");
    reveal_strlit("&mut self");
    if inputs.len() > 0 {
        if inputs[0] is Receiver {
            assert(has_receiver(inputs));
        }
        let front = inputs.drop_last();
        if front.len() > 0 {
            assert forall|i: int| 0 <= i < front.len() && #[trigger] front[i] is Typed implies is_written(
                front[i]->ty,
            ) by {
                assert(front[i] == inputs[i]);
            }
            assert forall|i: int| 0 < i < front.len() implies !(#[trigger] front[i] is Receiver) by {
                assert(front[i] == inputs[i]);
            }
            lemma_receiver_of_valid_signature(front);
            assert(inputs[inputs.len() - 1] is Typed);
            assert(front[0] == inputs[0]);
            if has_receiver(front) {
                let i = choose|i: int| 0 <= i < front.len() && #[trigger] front[i] is Receiver;
                assert(inputs[i] == front[i]);
            }
            if has_receiver(inputs) {
                let i = choose|i: int| 0 <= i < inputs.len() && #[trigger] inputs[i] is Receiver;
                assert(i == 0);
                assert(front[0] is Receiver);
            }
        } else {
            assert(params_of(front).len() == 0);
            if has_receiver(inputs) {
                let i = choose|i: int| 0 <= i < inputs.len() && #[trigger] inputs[i] is Receiver;
                assert(i == 0);
            }
        }
    }
}

/// Extracts the parameters of a free function.  Where the parameter list
/// is valid, every parameter record has a non-empty type.
pub fn parse_fn_params(inputs: &Vec<FnArg>) -> (r: Vec<RustParam>)
    ensures
        r.deep_view() == params_of(inputs@),
        forall|i: int| 0 <= i < r@.len() ==> (#[trigger] r@[i])@.well_formed(),
        is_valid_signature(inputs@) ==> forall|i: int|
            0 <= i < r@.len() ==> (#[trigger] r@[i]).rust_type@.len() > 0,
{
    proof {
        lemma_params_well_formed(inputs@);
        if is_valid_signature(inputs@) {
            lemma_params_have_types(inputs@);
        }
    }
    let mut params: Vec<RustParam> = Vec::new();
    let mut i: usize = 0;
    assert(inputs@.take(0) == Seq::<FnArg>::empty());
    assert(params.deep_view() == Seq::<RustParamView>::empty());
    while i < inputs.len()
        invariant
            i <= inputs.len(),
            params.deep_view() == params_of(inputs@.take(i as int)),
        decreases inputs.len() - i,
    {
        proof {
            inputs@.lemma_filter_map_take_succ(|arg: FnArg| param_of(arg), i as int);
        }
        match &inputs[i] {
            FnArg::Typed { pat, ty } => {
                let name = match pat {
                    Pattern::Ident(name) => name.clone(),
                    Pattern::Other => String::from_str("_"),
                };
                let param = RustParam {
                    name,
                    rust_type: type_to_string(ty),
                    is_self: false,
                    is_mut: false,
                    type_info: Some(analyze_type(ty)),
                };
                let ghost before = params.deep_view();
                params.push(param);
                assert(params.deep_view() == before + seq![param@]);
            },
            FnArg::Receiver { .. } => {},
        }
        i += 1;
    }
    assert(inputs@.take(inputs@.len() as int) == inputs@);
    assert forall|i: int| 0 <= i < params@.len() implies (#[trigger] params@[i])@.well_formed() by {
        assert(params.deep_view()[i] == params@[i]@);
    }
    proof {
        if is_valid_signature(inputs@) {
            assert forall|i: int| 0 <= i < params@.len() implies (
            #[trigger] params@[i]).rust_type@.len() > 0 by {
                assert(params.deep_view()[i] == params@[i]@);
            }
        }
    }
    params
}

/// Extracts the parameters of a method and how it takes its receiver.  The
/// receiver is never among the parameters.
pub fn parse_method_params(inputs: &Vec<FnArg>) -> (r: (Vec<RustParam>, String))
    ensures
        r.0.deep_view() == params_of(inputs@),
        r.1@ == receiver_text(inputs@),
        is_valid_signature(inputs@) ==> {
            &&& forall|i: int| 0 <= i < r.0@.len() ==> (#[trigger] r.0@[i]).rust_type@.len() > 0
            &&& r.1@.len() == 0 <==> !has_receiver(inputs@)
        },
{
    proof {
        if is_valid_signature(inputs@) {
            lemma_receiver_of_valid_signature(inputs@);
        }
    }
    let params = parse_fn_params(inputs);
    let self_type = if inputs.len() == 0 {
        String::new()
    } else {
        match &inputs[0] {
            FnArg::Receiver { reference, mutability } => if *reference {
                if *mutability {
                    String::from_str("&mut self")
                } else {
                    String::from_str("&self")
                }
            } else {
                String::from_str("self")
            },
            FnArg::Typed { .. } => String::new(),
        }
    };
    (params, self_type)
}

/// The recorded return type: absent for the implicit unit return.
pub open spec fn return_text(output: ReturnType) -> Option<Seq<char>> {
    match output {
        ReturnType::Default => None,
        ReturnType::Type(ty) => Some(type_text(ty)),
    }
}

/// Extracts the declared return type of a signature.
pub fn parse_return_type(output: &ReturnType) -> (r: Option<String>)
    ensures
        r.deep_view() == return_text(*output),
{
    match output {
        ReturnType::Default => None,
        ReturnType::Type(ty) => Some(type_to_string(ty)),
    }
}

/// The record of a free function declared in module `module`.
pub open spec fn function_record(node: ItemFn, module: Seq<char>) -> RustFunctionView {
    RustFunctionView {
        name: node.sig.ident@,
        params: params_of(node.sig.inputs@),
        return_type: return_text(node.sig.output),
        is_pub: true,
        is_async: node.sig.asyncness,
        doc: doc_text(node.attrs@),
        mod_path: module,
    }
}

/// Extracts a free function.
pub fn parse_function(node: &ItemFn, module: &str) -> (r: RustFunction)
    ensures
        r@ == function_record(*node, module@),
        is_valid_signature(node.sig.inputs@) ==> forall|i: int|
            0 <= i < r.params@.len() ==> (#[trigger] r.params@[i]).rust_type@.len() > 0,
{
    RustFunction {
        name: node.sig.ident.clone(),
        params: parse_fn_params(&node.sig.inputs),
        return_type: parse_return_type(&node.sig.output),
        is_pub: true,
        is_async: node.sig.asyncness,
        doc: extract_doc_comment(&node.attrs),
        mod_path: String::from_str(module),
    }
}

/// The record of a method.  A method is static exactly when it takes no
/// receiver.
pub open spec fn method_record(node: ImplItemFn) -> RustMethodView {
    RustMethodView {
        name: node.sig.ident@,
        params: params_of(node.sig.inputs@),
        return_type: return_text(node.sig.output),
        self_type: receiver_text(node.sig.inputs@),
        is_pub: true,
        is_static: receiver_text(node.sig.inputs@).len() == 0,
        doc: doc_text(node.attrs@),
    }
}

impl RustMethodView {
    /// The invariant of a method record: the receiver is taken in one of
    /// four ways, and the method is static exactly when it takes none.
    pub open spec fn well_formed(self) -> bool {
        &&& self.is_static <==> self.self_type.len() == 0
        &&& {
            ||| self.self_type.len() == 0
            ||| self.self_type == "self"@
            ||| self.self_type == "&self"@
            ||| self.self_type == "&mut self"@
        }
    }
}

/// Extracts a method of an implementation block.
pub fn parse_method(node: &ImplItemFn) -> (r: RustMethod)
    ensures
        r@ == method_record(*node),
        r@.well_formed(),
        is_valid_signature(node.sig.inputs@) ==> {
            &&& r.is_static <==> !has_receiver(node.sig.inputs@)
            &&& forall|i: int|
                0 <= i < r.params@.len() ==> (#[trigger] r.params@[i]).rust_type@.len() > 0
        },
{
    let (params, self_type) = parse_method_params(&node.sig.inputs);
    let is_static = self_type.as_str().unicode_len() == 0;
    RustMethod {
        name: node.sig.ident.clone(),
        params,
        return_type: parse_return_type(&node.sig.output),
        self_type,
        is_pub: true,
        is_static,
        doc: extract_doc_comment(&node.attrs),
    }
}

/// The name of the field at position `index`: its identifier where it has
/// one, `_` and the position otherwise.
pub open spec fn field_name(field: Field, index: int, named: bool) -> Seq<char> {
    if named {
        match field.ident {
            Some(ident) => ident@,
            None => Seq::empty(),
        }
    } else {
        "_"@ + decimal(index as nat)
    }
}

/// The record of the field at position `index`.  With `all_public` the field
/// is recorded as public whatever its marker, as the fields of enum variants
/// are.
pub open spec fn field_record(field: Field, index: int, named: bool, all_public: bool)
    -> RustFieldView {
    RustFieldView {
        name: field_name(field, index, named),
        rust_type: type_text(field.ty),
        is_pub: all_public || is_public(field.vis),
    }
}

/// The records of a field list, in order; a unit form has none.
pub open spec fn field_records(fields: Fields, all_public: bool) -> Seq<RustFieldView> {
    match fields {
        Fields::Named(list) => Seq::new(
            list@.len(),
            |i: int| field_record(list@[i], i, true, all_public),
        ),
        Fields::Unnamed(list) => Seq::new(
            list@.len(),
            |i: int| field_record(list@[i], i, false, all_public),
        ),
        Fields::Unit => Seq::empty(),
    }
}

fn parse_field_list(list: &Vec<Field>, named: bool, all_public: bool) -> (r: Vec<RustField>)
    ensures
        r.deep_view() == Seq::new(
            list@.len(),
            |i: int| field_record(list@[i], i, named, all_public),
        ),
{
    let mut out: Vec<RustField> = Vec::new();
    let mut i: usize = 0;
    while i < list.len()
        invariant
            i <= list.len(),
            out@.len() == i,
            forall|j: int|
                0 <= j < i ==> (#[trigger] out@[j])@ == field_record(
                    list@[j],
                    j,
                    named,
                    all_public,
                ),
        decreases list.len() - i,
    {
        let field = &list[i];
        let name = if named {
            match &field.ident {
                Some(ident) => ident.clone(),
                None => String::new(),
            }
        } else {
            let mut name = String::from_str("_");
            name.append(decimal_string(i).as_str());
            name
        };
        out.push(
            RustField {
                name,
                rust_type: type_to_string(&field.ty),
                is_pub: all_public || is_pub(&field.vis),
            },
        );
        i += 1;
    }
    assert(out.deep_view() =~= Seq::new(
        list@.len(),
        |i: int| field_record(list@[i], i, named, all_public),
    ));
    out
}

/// Extracts the fields of a struct or variant.
pub fn parse_fields(fields: &Fields, all_public: bool) -> (r: Vec<RustField>)
    ensures
        r.deep_view() == field_records(*fields, all_public),
{
    match fields {
        Fields::Named(list) => parse_field_list(list, true, all_public),
        Fields::Unnamed(list) => parse_field_list(list, false, all_public),
        Fields::Unit => {
            let out: Vec<RustField> = Vec::new();
            assert(out.deep_view() =~= Seq::<RustFieldView>::empty());
            out
        },
    }
}

/// The record of a struct declared in module `module`.
pub open spec fn struct_record(node: ItemStruct, module: Seq<char>) -> RustStructView {
    RustStructView {
        name: node.ident@,
        fields: field_records(node.fields, false),
        is_pub: true,
        doc: doc_text(node.attrs@),
        mod_path: module,
    }
}

/// Extracts a struct.  Each field keeps its own visibility.
pub fn parse_struct(node: &ItemStruct, module: &str) -> (r: RustStruct)
    ensures
        r@ == struct_record(*node, module@),
{
    RustStruct {
        name: node.ident.clone(),
        fields: parse_fields(&node.fields, false),
        is_pub: true,
        doc: extract_doc_comment(&node.attrs),
        mod_path: String::from_str(module),
    }
}

/// The record of an enum variant.
pub open spec fn variant_record(variant: Variant) -> RustVariantView {
    RustVariantView { name: variant.ident@, fields: field_records(variant.fields, true) }
}

/// The record of an enum declared in module `module`.
pub open spec fn enum_record(node: ItemEnum, module: Seq<char>) -> RustEnumView {
    RustEnumView {
        name: node.ident@,
        variants: node.variants@.map_values(|variant: Variant| variant_record(variant)),
        is_pub: true,
        doc: doc_text(node.attrs@),
        mod_path: module,
    }
}

/// Extracts an enum.  The fields of a variant are as public as the enum.
pub fn parse_enum(node: &ItemEnum, module: &str) -> (r: RustEnum)
    ensures
        r@ == enum_record(*node, module@),
{
    let mut variants: Vec<RustVariant> = Vec::new();
    let mut i: usize = 0;
    while i < node.variants.len()
        invariant
            i <= node.variants.len(),
            variants@.len() == i,
            forall|j: int|
                0 <= j < i ==> (#[trigger] variants@[j])@ == variant_record(node.variants@[j]),
        decreases node.variants.len() - i,
    {
        let variant = &node.variants[i];
        variants.push(
            RustVariant {
                name: variant.ident.clone(),
                fields: parse_fields(&variant.fields, true),
            },
        );
        i += 1;
    }
    assert(variants.deep_view() =~= node.variants@.map_values(
        |variant: Variant| variant_record(variant),
    ));
    RustEnum {
        name: node.ident.clone(),
        variants,
        is_pub: true,
        doc: extract_doc_comment(&node.attrs),
        mod_path: String::from_str(module),
    }
}

fn clone_texts(list: &Vec<String>) -> (r: Vec<String>)
    ensures
        r.deep_view() == texts(list@),
{
    let mut out: Vec<String> = Vec::new();
    let mut i: usize = 0;
    while i < list.len()
        invariant
            i <= list.len(),
            out@.len() == i,
            forall|j: int| 0 <= j < i ==> (#[trigger] out@[j])@ == list@[j]@,
        decreases list.len() - i,
    {
        out.push(list[i].clone());
        i += 1;
    }
    assert(out.deep_view() =~= texts(list@));
    out
}

/// The record of a type alias.  The generic parameters are kept as written.
pub open spec fn type_alias_record(node: ItemType) -> RustTypeAliasView {
    RustTypeAliasView {
        name: node.ident@,
        target_type: type_text(node.ty),
        generics: texts(node.generics@),
        is_pub: true,
        doc: doc_text(node.attrs@),
    }
}

/// Extracts a type alias.
pub fn parse_type_alias(node: &ItemType) -> (r: RustTypeAlias)
    ensures
        r@ == type_alias_record(*node),
{
    RustTypeAlias {
        name: node.ident.clone(),
        target_type: type_to_string(&node.ty),
        generics: clone_texts(&node.generics),
        is_pub: true,
        doc: extract_doc_comment(&node.attrs),
    }
}

/// The record of a constant declared in module `module`.
pub open spec fn constant_record(node: ItemConst, module: Seq<char>) -> RustConstantView {
    RustConstantView {
        name: node.ident@,
        rust_type: type_text(node.ty),
        is_pub: true,
        doc: doc_text(node.attrs@),
        mod_path: module,
    }
}

/// Extracts a constant.
pub fn parse_constant(node: &ItemConst, module: &str) -> (r: RustConstant)
    ensures
        r@ == constant_record(*node, module@),
{
    RustConstant {
        name: node.ident.clone(),
        rust_type: type_to_string(&node.ty),
        is_pub: true,
        doc: extract_doc_comment(&node.attrs),
        mod_path: String::from_str(module),
    }
}

/// The record of a static declared in module `module`.
pub open spec fn static_record(node: ItemStatic, module: Seq<char>) -> RustStaticView {
    RustStaticView {
        name: node.ident@,
        rust_type: type_text(node.ty),
        is_pub: true,
        is_mut: node.mutability,
        doc: doc_text(node.attrs@),
        mod_path: module,
    }
}

/// Extracts a static.
pub fn parse_static(node: &ItemStatic, module: &str) -> (r: RustStatic)
    ensures
        r@ == static_record(*node, module@),
{
    RustStatic {
        name: node.ident.clone(),
        rust_type: type_to_string(&node.ty),
        is_pub: true,
        is_mut: node.mutability,
        doc: extract_doc_comment(&node.attrs),
        mod_path: String::from_str(module),
    }
}

/// The record of a macro invocation in item position.  Only a named
/// `macro_rules!` definition that carries `#[macro_export]` has one.
pub open spec fn macro_record(node: ItemMacro, module: Seq<char>) -> Option<RustMacroView> {
    if (node.path matches Some(path) && path@ == "macro_rules"@) && has_attribute(
        node.attrs@,
        "macro_export"@,
    ) {
        match node.ident {
            Some(ident) => Some(
                RustMacroView {
                    name: ident@,
                    doc: doc_text(node.attrs@),
                    mod_path: module,
                    is_exported: true,
                },
            ),
            None => None,
        }
    } else {
        None
    }
}

/// Extracts an exported macro definition.
pub fn parse_macro(node: &ItemMacro, module: &str) -> (r: Option<RustMacro>)
    ensures
        r.deep_view() == macro_record(*node, module@),
        r matches Some(record) ==> record.is_exported && has_attribute(
            node.attrs@,
            "macro_export"@,
        ),
{
    let is_macro_rules = match &node.path {
        Some(path) => text_eq(path.as_str(), "macro_rules"),
        None => false,
    };
    let is_exported = any_attribute_named(&node.attrs, "macro_export");
    if is_macro_rules && is_exported {
        match &node.ident {
            Some(ident) => Some(
                RustMacro {
                    name: ident.clone(),
                    doc: extract_doc_comment(&node.attrs),
                    mod_path: String::from_str(module),
                    is_exported: true,
                },
            ),
            None => None,
        }
    } else {
        None
    }
}

/// The identifier of the last segment of a path, empty for a path without
/// segments.
pub open spec fn last_ident(path: Path) -> Seq<char> {
    if path.segments@.len() == 0 {
        Seq::empty()
    } else {
        path.segments@.last().ident@
    }
}

fn last_segment_ident(path: &Path) -> (r: String)
    ensures
        r@ == last_ident(*path),
{
    let n = path.segments.len();
    if n == 0 {
        String::new()
    } else {
        path.segments[n - 1].ident.clone()
    }
}

/// The record of one member of an implementation block.  A function is
/// recorded if it is public or if the block implements a trait; nothing else
/// is.
pub open spec fn method_of(item: ImplItem, in_trait_impl: bool) -> Option<RustMethodView> {
    match item {
        ImplItem::Fn(method) => if is_public(method.vis) || in_trait_impl {
            Some(method_record(method))
        } else {
            None
        },
        ImplItem::Other => None,
    }
}

/// The recorded methods of an implementation block, in order.
pub open spec fn methods_of(node: ItemImpl) -> Seq<RustMethodView> {
    node.items@.filter_map(|item: ImplItem| method_of(item, node.trait_ is Some))
}

/// The record of an implementation block: present exactly when the block is
/// for a named type and at least one of its methods is recorded.
pub open spec fn impl_record(node: ItemImpl) -> Option<RustImplView> {
    match node.self_ty.kind {
        TypeKind::Path(path) => if methods_of(node).len() > 0 {
            Some(
                RustImplView {
                    target_name: last_ident(path),
                    methods: methods_of(node),
                    trait_name: match node.trait_ {
                        Some(trait_path) => Some(last_ident(trait_path)),
                        None => None,
                    },
                },
            )
        } else {
            None
        },
        _ => None,
    }
}

/// A member list has a recorded method exactly when one of its members is
/// recorded.
proof fn lemma_some_method_recorded(items: Seq<ImplItem>, in_trait_impl: bool)
    ensures
        items.filter_map(|item: ImplItem| method_of(item, in_trait_impl)).len() > 0 <==> exists|
            i: int,
        |
            0 <= i < items.len() && method_of(#[trigger] items[i], in_trait_impl) is Some,
    decreases items.len(),
{
    let recorded = |item: ImplItem| method_of(item, in_trait_impl);
    if items.len() > 0 {
        let rest = items.drop_last();
        lemma_some_method_recorded(rest, in_trait_impl);
        if method_of(items.last(), in_trait_impl) is Some {
            assert(method_of(items[items.len() - 1], in_trait_impl) is Some);
        } else {
            if rest.filter_map(recorded).len() > 0 {
                let i = choose|i: int|
                    0 <= i < rest.len() && method_of(#[trigger] rest[i], in_trait_impl) is Some;
                assert(items[i] == rest[i]);
            }
            if exists|i: int|
                0 <= i < items.len() && method_of(#[trigger] items[i], in_trait_impl) is Some {
                let i = choose|i: int|
                    0 <= i < items.len() && method_of(#[trigger] items[i], in_trait_impl) is Some;
                assert(rest[i] == items[i]);
            }
        }
    }
}

/// Impl-block retention: an implementation block is recorded exactly when
/// it is for a named type and one of its members is a function that is
/// public or stands in a trait implementation.  A recorded block never has
/// an empty method list.
pub proof fn lemma_impl_retention(node: ItemImpl)
    ensures
        impl_record(node) is Some <==> node.self_ty.kind is Path && exists|i: int|
            0 <= i < node.items@.len() && method_of(
                #[trigger] node.items@[i],
                node.trait_ is Some,
            ) is Some,
        impl_record(node) matches Some(record) ==> record.methods.len() > 0,
        forall|i: int|
            0 <= i < node.items@.len() && node.trait_ is Some && node.items@[i] is Fn
                ==> method_of(#[trigger] node.items@[i], node.trait_ is Some) is Some,
{
    lemma_some_method_recorded(node.items@, node.trait_ is Some);
}

fn parse_impl_methods(node: &ItemImpl) -> (r: Vec<RustMethod>)
    ensures
        r.deep_view() == methods_of(*node),
{
    let in_trait_impl = node.trait_.is_some();
    let mut methods: Vec<RustMethod> = Vec::new();
    let mut i: usize = 0;
    assert(node.items@.take(0) == Seq::<ImplItem>::empty());
    assert(methods.deep_view() == Seq::<RustMethodView>::empty());
    while i < node.items.len()
        invariant
            i <= node.items.len(),
            in_trait_impl == (node.trait_ is Some),
            methods.deep_view() == node.items@.take(i as int).filter_map(
                |item: ImplItem| method_of(item, node.trait_ is Some),
            ),
        decreases node.items.len() - i,
    {
        proof {
            node.items@.lemma_filter_map_take_succ(
                |item: ImplItem| method_of(item, node.trait_ is Some),
                i as int,
            );
        }
        match &node.items[i] {
            ImplItem::Fn(method) => {
                if is_pub(&method.vis) || in_trait_impl {
                    let record = parse_method(method);
                    let ghost before = methods.deep_view();
                    methods.push(record);
                    assert(methods.deep_view() == before + seq![record@]);
                }
            },
            ImplItem::Other => {},
        }
        i += 1;
    }
    assert(node.items@.take(node.items@.len() as int) == node.items@);
    methods
}

impl RustImplView {
    /// The invariant of an implementation block record: it has at least
    /// one method.
    pub open spec fn well_formed(self) -> bool {
        self.methods.len() > 0
    }
}

/// Extracts an implementation block.  A block without a recorded method, or
/// for a type that is not a named type, gives no record.
pub fn parse_impl(node: &ItemImpl) -> (r: Option<RustImpl>)
    ensures
        r.deep_view() == impl_record(*node),
        r matches Some(record) ==> record@.well_formed(),
{
    match &node.self_ty.kind {
        TypeKind::Path(path) => {
            let methods = parse_impl_methods(node);
            if methods.len() > 0 {
                let trait_name = match &node.trait_ {
                    Some(trait_path) => Some(last_segment_ident(trait_path)),
                    None => None,
                };
                Some(RustImpl { target_name: last_segment_ident(path), methods, trait_name })
            } else {
                None
            }
        },
        _ => None,
    }
}

} // verus!
