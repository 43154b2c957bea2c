use cookcrab_parser::records::{
    RustConstant, RustCrate, RustEnum, RustEnumVariantAlias, RustField, RustFunction, RustImpl,
    RustMacro, RustMethod, RustParam, RustReexport, RustStatic, RustStruct, RustTypeAlias,
    RustTypeInfo, RustVariant,
};

fn field(name: &str) -> RustField {
    RustField { name: name.to_string(), rust_type: "u8".to_string(), is_pub: true }
}

fn info() -> RustTypeInfo {
    RustTypeInfo {
        full_type: "&str".to_string(),
        is_reference: true,
        is_mutable_ref: false,
        is_impl_trait: false,
        trait_bound: None,
        core_type: "str".to_string(),
        expects_borrow: true,
        expects_owned: false,
    }
}

fn param(name: &str) -> RustParam {
    RustParam {
        name: name.to_string(),
        rust_type: "&str".to_string(),
        is_self: false,
        is_mut: false,
        type_info: Some(info()),
    }
}

fn function() -> RustFunction {
    RustFunction {
        name: "parse".to_string(),
        params: vec![param("a"), param("b")],
        return_type: Some("Result<Ast,Error>".to_string()),
        is_pub: true,
        is_async: false,
        doc: None,
        mod_path: "front".to_string(),
    }
}

#[test]
fn repr_of_type_info() {
    assert_eq!(
        info().repr(),
        "RustTypeInfo(full='&str', ref=true, impl_trait=false, borrow=true, owned=false)"
    );
}

#[test]
fn repr_of_param() {
    assert_eq!(
        param("input").repr(),
        "RustParam(name='input', rust_type='&str', is_self=false, is_mut=false)"
    );
}

#[test]
fn repr_of_function() {
    assert_eq!(
        function().repr(),
        "RustFunction(name='parse', params=2, return_type=Some(\"Result<Ast,Error>\"), is_pub=true)"
    );
    let unit = RustFunction { return_type: None, params: vec![], ..function() };
    assert_eq!(unit.repr(), "RustFunction(name='parse', params=0, return_type=None, is_pub=true)");
}

#[test]
fn repr_of_field_struct_variant_and_enum() {
    assert_eq!(field("x").repr(), "RustField(name='x', rust_type='u8', is_pub=true)");
    let record = RustStruct {
        name: "Point".to_string(),
        fields: vec![field("x"), field("y"), field("z")],
        is_pub: true,
        doc: None,
        mod_path: String::new(),
    };
    assert_eq!(record.repr(), "RustStruct(name='Point', fields=3, is_pub=true)");
    let variant = RustVariant { name: "Circle".to_string(), fields: vec![field("_0")] };
    assert_eq!(variant.repr(), "RustVariant(name='Circle', fields=1)");
    let record = RustEnum {
        name: "Shape".to_string(),
        variants: (0..11).map(|_| variant.clone()).collect(),
        is_pub: true,
        doc: None,
        mod_path: String::new(),
    };
    assert_eq!(record.repr(), "RustEnum(name='Shape', variants=11, is_pub=true)");
}

#[test]
fn repr_of_method_and_impl() {
    let method = RustMethod {
        name: "len".to_string(),
        params: vec![],
        return_type: Some("usize".to_string()),
        self_type: "&self".to_string(),
        is_pub: true,
        is_static: false,
        doc: None,
    };
    assert_eq!(
        method.repr(),
        "RustMethod(name='len', self_type='&self', params=0, return_type=Some(\"usize\"))"
    );
    let block = RustImpl {
        target_name: "Point".to_string(),
        methods: vec![method],
        trait_name: Some("Display".to_string()),
    };
    assert_eq!(block.repr(), format!("RustImpl(type_{}='Point', methods=1, trait=Some(\"Display\"))", "name"));
    let inherent = RustImpl { trait_name: None, ..block };
    assert_eq!(inherent.repr(), format!("RustImpl(type_{}='Point', methods=1, trait=None)", "name"));
}

#[test]
fn repr_of_type_alias_shows_generics_in_debug_notation() {
    let alias = RustTypeAlias {
        name: "Result".to_string(),
        target_type: "core::result::Result<T,E>".to_string(),
        generics: vec!["T".to_string(), "E = \"x\"".to_string()],
        is_pub: true,
        doc: None,
    };
    assert_eq!(
        alias.repr(),
        "RustTypeAlias(name='Result', target='core::result::Result<T,E>', generics=[\"T\", \"E = \\\"x\\\"\"])"
    );
}

#[test]
fn repr_of_reexport_has_two_forms() {
    let glob = RustReexport { source_crate: "serde".to_string(), is_glob: true, items: vec![] };
    assert_eq!(glob.repr(), "RustReexport(source='serde', glob=true)");
    let group = RustReexport {
        source_crate: "serde".to_string(),
        is_glob: false,
        items: vec!["Serialize".to_string(), "Deserialize".to_string()],
    };
    assert_eq!(
        group.repr(),
        "RustReexport(source='serde', items=[\"Serialize\", \"Deserialize\"])"
    );
}

#[test]
fn repr_of_constant_static_alias_and_macro() {
    let constant = RustConstant {
        name: "MAX".to_string(),
        rust_type: "usize".to_string(),
        is_pub: true,
        doc: None,
        mod_path: "limits".to_string(),
    };
    assert_eq!(
        constant.repr(),
        "RustConstant(name='MAX', type='usize', module='limits', is_pub=true)"
    );
    let item = RustStatic {
        name: "COUNT".to_string(),
        rust_type: "u64".to_string(),
        is_pub: true,
        is_mut: true,
        doc: None,
        mod_path: String::new(),
    };
    assert_eq!(
        item.repr(),
        "RustStatic(name='COUNT', type='u64', module='', is_pub=true, is_mut=true)"
    );
    let alias = RustEnumVariantAlias {
        alias_name: "HS256".to_string(),
        enum_type: "HmacJwsAlgorithm".to_string(),
        variant_name: "Hs256".to_string(),
        full_path: "HmacJwsAlgorithm::Hs256".to_string(),
        is_pub: true,
        mod_path: "jws".to_string(),
    };
    assert_eq!(
        alias.repr(),
        "RustEnumVariantAlias(alias='HS256', enum='HmacJwsAlgorithm', variant='Hs256', path='HmacJwsAlgorithm::Hs256')"
    );
    let record = RustMacro {
        name: "hashmap".to_string(),
        doc: None,
        mod_path: "util".to_string(),
        is_exported: true,
    };
    assert_eq!(record.repr(), "RustMacro(name='hashmap', module='util', exported=true)");
}

#[test]
fn repr_of_crate_counts_every_kind() {
    let model = RustCrate {
        name: "demo".to_string(),
        functions: vec![function(), function()],
        structs: vec![],
        enums: vec![],
        impls: vec![],
        type_aliases: vec![],
        reexports: vec![RustReexport {
            source_crate: "serde".to_string(),
            is_glob: true,
            items: vec![],
        }],
        constants: vec![],
        statics: vec![],
        enum_variant_aliases: vec![],
        macros: vec![],
        available_features: vec!["a".to_string(), "b".to_string(), "c".to_string()],
        default_features: vec!["a".to_string()],
    };
    assert_eq!(
        model.repr(),
        "RustCrate(name='demo', functions=2, structs=0, enums=0, impls=0, type_aliases=0, reexports=1, constants=0, statics=0, enum_variant_aliases=0, macros=0, features=3)"
    );
}
