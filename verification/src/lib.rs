//! Extracts a structured model of the public interface of a Rust source
//! tree, for tools that generate bindings from it.
//!
//! The library works on a syntax tree that a front end hands over
//! ([`syntax`]) and produces plain records ([`records`]).  Its passes, leaves
//! first:
//!
//! - [`classify`]: the type classifier, from a type expression to a
//!   [`RustTypeInfo`];
//! - [`extract`]: the item extractors, from one item to its record;
//! - [`imports`]: the import resolver, which tells enum-variant aliases from
//!   re-exports;
//! - [`paths`]: the module path builder;
//! - [`collector`]: the file visitor, which accumulates the records of one
//!   file;
//! - [`manifest`]: the package name and feature lists of a manifest;
//! - [`aggregate`]: single-file and whole-tree extraction;
//! - [`source`]: validation of source text.
//!
//! Every function is verified against a contract that states its result as
//! a mathematical value.  The contracts of [`text`] and [`ordering`] carry
//! the rest.  What is taken on trust is marked where it stands: a handful
//! of calls into the standard library and into the `toml` and `syn` crates.

pub mod aggregate;
pub mod classify;
pub mod collector;
pub mod error;
pub mod extract;
pub mod imports;
pub mod manifest;
pub mod ordering;
pub mod paths;
pub mod records;
pub mod repr;
pub mod source;
pub mod syntax;
pub mod text;

pub use aggregate::{parse_crate, parse_file, Manifest, SourceEntry, SourceInput};
pub use error::ParseError;
pub use manifest::parse_cargo_features;
pub use records::{
    RustConstant, RustCrate, RustEnum, RustEnumVariantAlias, RustField, RustFunction, RustImpl,
    RustMacro, RustMethod, RustParam, RustReexport, RustStatic, RustStruct, RustTypeAlias,
    RustTypeInfo, RustVariant,
};
pub use source::validate_rust_code;
