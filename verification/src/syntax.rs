//! The syntax tree that extraction consumes.
//!
//! A front end parses source text and hands the result over in these types.
//! They keep exactly what extraction reads: identifiers, visibility markers,
//! attribute values, the shape of a type expression, and the token text of
//! everything that is recorded verbatim.  Token text is the text of a node's
//! tokens separated by single spaces; extraction removes the spaces where a
//! record carries a type.
//!
//! The tree is taken as given and already validated.  No function of this
//! crate fails on any value of these types.

use vstd::prelude::*;

verus! {

/// The visibility marker of an item, a field or a method.
#[derive(Clone, Copy, Debug)]
pub enum Visibility {
    /// The unqualified `pub`.
    Public,
    /// `pub(crate)`, `pub(super)`, `pub(in path)` and the like.
    Restricted,
    /// No marker.
    Inherited,
}

/// The value of a `name = value` attribute.
#[derive(Clone, Debug)]
pub enum AttrValue {
    /// A string literal, unescaped.
    Str(String),
    /// Any other expression.
    Other,
}

/// The argument form of an attribute.
#[derive(Clone, Debug)]
pub enum Meta {
    /// A bare path, as in `#[macro_export]`.
    Path,
    /// A delimited list, as in `#[derive(Clone)]`.
    List,
    /// A name and a value, as in `#[doc = "text"]`.
    NameValue(AttrValue),
}

/// One attribute of an item.
#[derive(Clone, Debug)]
pub struct Attribute {
    /// The attribute's path where it is a single plain identifier.
    pub ident: Option<String>,
    pub meta: Meta,
}

/// One segment of a path.
#[derive(Clone, Debug)]
pub struct PathSegment {
    pub ident: String,
    /// The token text of the segment's generic or parenthesized arguments,
    /// delimiters included.  Absent where the segment has no argument:
    /// `Vec` and `Vec<>` alike.  A parenthesized list counts even where it
    /// is empty.
    pub arguments: Option<String>,
}

/// A path such as `std::vec::Vec<u8>`.
#[derive(Clone, Debug)]
pub struct Path {
    pub segments: Vec<PathSegment>,
}

/// The shape of a type expression, as far as classification tells shapes
/// apart.
#[derive(Clone, Debug)]
pub enum TypeKind {
    /// `&T` or `&mut T`.
    Reference {
        mutable: bool,
        /// The token text of the referent `T`.
        referent: String,
    },
    /// `impl A + B`.
    ImplTrait {
        /// The token text of each bound, in order.
        bounds: Vec<String>,
    },
    /// A named type.
    Path(Path),
    /// Every other shape: tuples, slices, pointers, function types, ...
    Other,
}

/// A type expression.
#[derive(Clone, Debug)]
pub struct TypeExpr {
    /// The token text of the whole expression.  It is never blank in a
    /// tree that a parser made.
    pub tokens: String,
    pub kind: TypeKind,
}

/// The pattern that binds a parameter.
#[derive(Clone, Debug)]
pub enum Pattern {
    /// A plain identifier, with or without `mut` or `ref`.
    Ident(String),
    /// A destructuring or wildcard pattern.
    Other,
}

/// One parameter of a signature.
#[derive(Clone, Debug)]
pub enum FnArg {
    /// `self`, `&self`, `&mut self` or `self: T`.  A parser accepts it in
    /// the first place of a parameter list only.
    Receiver {
        /// Whether the receiver is written with `&`.
        reference: bool,
        /// Whether the receiver is written with `mut`.
        mutability: bool,
    },
    /// `pattern: type`.
    Typed { pat: Pattern, ty: TypeExpr },
}

/// The declared return type of a signature.
#[derive(Clone, Debug)]
pub enum ReturnType {
    /// No `->`: the function returns unit.
    Default,
    Type(TypeExpr),
}

/// The signature of a function or method.
#[derive(Clone, Debug)]
pub struct Signature {
    pub ident: String,
    pub inputs: Vec<FnArg>,
    pub output: ReturnType,
    pub asyncness: bool,
}

/// A free function.
#[derive(Clone, Debug)]
pub struct ItemFn {
    pub attrs: Vec<Attribute>,
    pub vis: Visibility,
    pub sig: Signature,
}

/// A function inside an implementation block.
#[derive(Clone, Debug)]
pub struct ImplItemFn {
    pub attrs: Vec<Attribute>,
    pub vis: Visibility,
    pub sig: Signature,
}

/// One member of an implementation block.
#[derive(Clone, Debug)]
pub enum ImplItem {
    Fn(ImplItemFn),
    /// An associated constant, type or macro.
    Other,
}

/// An implementation block.
#[derive(Clone, Debug)]
pub struct ItemImpl {
    /// The type the block implements for.
    pub self_ty: TypeExpr,
    /// The implemented trait, for a trait implementation.
    pub trait_: Option<Path>,
    pub items: Vec<ImplItem>,
}

/// A field of a struct or variant.
#[derive(Clone, Debug)]
pub struct Field {
    /// The name of a named field.
    pub ident: Option<String>,
    pub vis: Visibility,
    pub ty: TypeExpr,
}

/// The fields of a struct or variant.
#[derive(Clone, Debug)]
pub enum Fields {
    /// `{ a: A, b: B }`
    Named(Vec<Field>),
    /// `(A, B)`
    Unnamed(Vec<Field>),
    Unit,
}

/// A struct definition.
#[derive(Clone, Debug)]
pub struct ItemStruct {
    pub attrs: Vec<Attribute>,
    pub vis: Visibility,
    pub ident: String,
    pub fields: Fields,
}

/// A variant of an enum definition.
#[derive(Clone, Debug)]
pub struct Variant {
    pub ident: String,
    pub fields: Fields,
}

/// An enum definition.
#[derive(Clone, Debug)]
pub struct ItemEnum {
    pub attrs: Vec<Attribute>,
    pub vis: Visibility,
    pub ident: String,
    pub variants: Vec<Variant>,
}

/// A type alias.
#[derive(Clone, Debug)]
pub struct ItemType {
    pub attrs: Vec<Attribute>,
    pub vis: Visibility,
    pub ident: String,
    /// The token text of each generic parameter, in order.
    pub generics: Vec<String>,
    pub ty: TypeExpr,
}

/// The tree of a `use` declaration.
#[derive(Debug)]
pub enum UseTree {
    /// `ident::tree`
    Path { ident: String, tree: Box<UseTree> },
    /// `ident`
    Name { ident: String },
    /// `ident as rename`
    Rename { ident: String, rename: String },
    /// `*`
    Glob,
    /// `{a, b, c}`
    Group { items: Vec<UseTree> },
}

/// A `use` declaration.
#[derive(Debug)]
pub struct ItemUse {
    pub vis: Visibility,
    pub tree: UseTree,
}

/// A constant.
#[derive(Clone, Debug)]
pub struct ItemConst {
    pub attrs: Vec<Attribute>,
    pub vis: Visibility,
    pub ident: String,
    pub ty: TypeExpr,
}

/// A static.
#[derive(Clone, Debug)]
pub struct ItemStatic {
    pub attrs: Vec<Attribute>,
    pub vis: Visibility,
    pub ident: String,
    pub ty: TypeExpr,
    /// Whether the static is declared `static mut`.
    pub mutability: bool,
}

/// A macro invocation in item position, which includes every
/// `macro_rules!` definition.
#[derive(Clone, Debug)]
pub struct ItemMacro {
    pub attrs: Vec<Attribute>,
    /// The name a `macro_rules!` invocation defines.
    pub ident: Option<String>,
    /// The invoked macro's path where it is a single plain identifier.
    pub path: Option<String>,
}

/// What an item is.
#[derive(Debug)]
pub enum ItemKind {
    Fn(ItemFn),
    Struct(ItemStruct),
    Enum(ItemEnum),
    Impl(ItemImpl),
    Type(ItemType),
    Use(ItemUse),
    Const(ItemConst),
    Static(ItemStatic),
    Macro(ItemMacro),
    /// Modules, traits, unions, extern blocks and whatever else carries no
    /// record of its own.
    Other,
}

/// An item together with the items declared inside it.
#[derive(Debug)]
pub struct Item {
    pub kind: ItemKind,
    /// The items of an inline module, of a function body or of any other
    /// place inside this item, in source order.
    pub nested: Vec<Item>,
}

/// One parsed source file.
#[derive(Debug)]
pub struct SourceFile {
    pub items: Vec<Item>,
}

} // verus!
