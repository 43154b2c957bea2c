//! The type classifier: from one type expression to a [`RustTypeInfo`].
//!
//! Classification looks at the outermost shape of the expression only.  The
//! two `expects_*` flags are naming-convention heuristics over the text of an
//! `impl Trait` bound; they are signals for a code generator, not facts about
//! the type.

use vstd::prelude::*;
use crate::records::{RustTypeInfo, RustTypeInfoView};
use crate::syntax::{Path, TypeExpr, TypeKind};
use crate::text::{
    chars_of, contains, has_substring, join, joined, lowercase, strip_spaces, to_lowercase,
    without_spaces,
};

verus! {

impl RustTypeInfoView {
    /// The invariant of a type descriptor: only a reference can be a mutable
    /// reference, and a trait bound is recorded exactly for `impl Trait`.
    pub open spec fn well_formed(self) -> bool {
        &&& self.is_mutable_ref ==> self.is_reference
        &&& self.trait_bound is Some <==> self.is_impl_trait
    }
}

/// The rendering of a type that records carry: its token text without spaces.
pub open spec fn type_text(ty: TypeExpr) -> Seq<char> {
    without_spaces(ty.tokens@)
}

/// Whether a type expression is written out: its token text holds a
/// character that is not a space.  Every type expression that a parser
/// hands over is.
pub open spec fn is_written(ty: TypeExpr) -> bool {
    exists|at: int| 0 <= at < ty.tokens@.len() && #[trigger] ty.tokens@[at] != ' '
}

/// A type expression that is written out has a non-empty rendering.
pub proof fn lemma_type_text_nonempty(ty: TypeExpr)
    requires
        is_written(ty),
    ensures
        type_text(ty).len() > 0,
        type_info(ty).full_type.len() > 0,
{
    let at = choose|at: int| 0 <= at < ty.tokens@.len() && #[trigger] ty.tokens@[at] != ' ';
    let keep = |c: char| c != ' ';
    ty.tokens@.lemma_filter_contains(keep, at);
}

/// Renders a type expression without any space.
pub fn type_to_string(ty: &TypeExpr) -> (r: String)
    ensures
        r@ == type_text(*ty),
{
    strip_spaces(ty.tokens.as_str())
}

/// The bounds of an `impl Trait` type, each without spaces, joined by `+`.
pub open spec fn bound_text(bounds: Seq<String>) -> Seq<char> {
    joined(bounds.map_values(|b: String| without_spaces(b@)), "+"@)
}

/// Whether a lower-cased bound text names a trait that conventionally
/// borrows its argument.
pub open spec fn names_borrowing_trait(lowered: Seq<char>) -> bool {
    ||| has_substring(lowered, "asref"@)
    ||| has_substring(lowered, "borrow"@)
    ||| has_substring(lowered, "asmut"@)
}

/// Whether a lower-cased bound text names a trait that conventionally takes
/// ownership of its argument.
pub open spec fn names_owning_trait(lowered: Seq<char>) -> bool {
    ||| has_substring(lowered, "into"@)
    ||| has_substring(lowered, "tryinto"@)
}

/// The two ownership signals of a bound text that is already lower-cased:
/// first whether it names a borrowing trait, then whether it names an owning
/// one.  A text can give neither, either or both.
pub fn ownership_signals(lowered: &str) -> (r: (bool, bool))
    ensures
        r.0 == names_borrowing_trait(lowered@),
        r.1 == names_owning_trait(lowered@),
{
    let hay = chars_of(lowered);
    let borrow = contains(&hay, &chars_of("asref")) || contains(&hay, &chars_of("borrow"))
        || contains(&hay, &chars_of("asmut"));
    let owned = contains(&hay, &chars_of("into")) || contains(&hay, &chars_of("tryinto"));
    (borrow, owned)
}

/// The core type of a named type: the identifier of the last path segment,
/// followed by that segment's arguments without spaces.  A path without
/// segments falls back to the full text.
pub open spec fn path_core_type(path: Path, full: Seq<char>) -> Seq<char> {
    if path.segments@.len() == 0 {
        full
    } else {
        let last = path.segments@.last();
        match last.arguments {
            Some(arguments) => last.ident@ + without_spaces(arguments@),
            None => last.ident@,
        }
    }
}

/// The descriptor of a type expression.
pub open spec fn type_info(ty: TypeExpr) -> RustTypeInfoView {
    let full = type_text(ty);
    match ty.kind {
        TypeKind::Reference { mutable, referent } => RustTypeInfoView {
            full_type: full,
            is_reference: true,
            is_mutable_ref: mutable,
            is_impl_trait: false,
            trait_bound: None,
            core_type: without_spaces(referent@),
            expects_borrow: true,
            expects_owned: false,
        },
        TypeKind::ImplTrait { bounds } => {
            let bound = bound_text(bounds@);
            RustTypeInfoView {
                full_type: full,
                is_reference: false,
                is_mutable_ref: false,
                is_impl_trait: true,
                trait_bound: Some(bound),
                core_type: bound,
                expects_borrow: names_borrowing_trait(lowercase(bound)),
                expects_owned: names_owning_trait(lowercase(bound)),
            }
        },
        TypeKind::Path(path) => RustTypeInfoView {
            full_type: full,
            is_reference: false,
            is_mutable_ref: false,
            is_impl_trait: false,
            trait_bound: None,
            core_type: path_core_type(path, full),
            expects_borrow: false,
            expects_owned: false,
        },
        TypeKind::Other => RustTypeInfoView {
            full_type: full,
            is_reference: false,
            is_mutable_ref: false,
            is_impl_trait: false,
            trait_bound: None,
            core_type: full,
            expects_borrow: false,
            expects_owned: false,
        },
    }
}

/// Every descriptor that classification defines is well formed.
pub proof fn lemma_type_info_well_formed(ty: TypeExpr)
    ensures
        type_info(ty).well_formed(),
{
}

/// Renders the bounds of an `impl Trait` type.
fn render_bounds(bounds: &Vec<String>) -> (r: String)
    ensures
        r@ == bound_text(bounds@),
{
    let ghost stripped = bounds@.map_values(|b: String| without_spaces(b@));
    let mut parts: Vec<String> = Vec::new();
    let mut i: usize = 0;
    while i < bounds.len()
        invariant
            i <= bounds.len(),
            parts@.len() == i,
            forall|j: int| 0 <= j < i ==> parts@[j]@ == without_spaces(#[trigger] bounds@[j]@),
        decreases bounds.len() - i,
    {
        parts.push(strip_spaces(bounds[i].as_str()));
        i += 1;
    }
    assert(crate::text::texts(parts@) =~= stripped);
    join(&parts, "+")
}

/// The core type of a named type.
fn core_of_path(path: &Path, full: &String) -> (r: String)
    ensures
        r@ == path_core_type(*path, full@),
{
    let n = path.segments.len();
    if n == 0 {
        full.clone()
    } else {
        let last = &path.segments[n - 1];
        let mut core = last.ident.clone();
        match &last.arguments {
            Some(arguments) => {
                let stripped = strip_spaces(arguments.as_str());
                core.append(stripped.as_str());
            },
            None => {},
        }
        core
    }
}

/// Classifies one type expression.  Total: a shape that is neither a
/// reference, an `impl Trait` nor a named type keeps its full text as core
/// type and has every flag cleared.
pub fn analyze_type(ty: &TypeExpr) -> (r: RustTypeInfo)
    ensures
        r@ == type_info(*ty),
        r@.well_formed(),
{
    let full_type = type_to_string(ty);
    match &ty.kind {
        TypeKind::Reference { mutable, referent } => RustTypeInfo {
            full_type,
            is_reference: true,
            is_mutable_ref: *mutable,
            is_impl_trait: false,
            trait_bound: None,
            core_type: strip_spaces(referent.as_str()),
            expects_borrow: true,
            expects_owned: false,
        },
        TypeKind::ImplTrait { bounds } => {
            let bound = render_bounds(bounds);
            let lowered = to_lowercase(bound.as_str());
            let signals = ownership_signals(lowered.as_str());
            RustTypeInfo {
                full_type,
                is_reference: false,
                is_mutable_ref: false,
                is_impl_trait: true,
                trait_bound: Some(bound.clone()),
                core_type: bound,
                expects_borrow: signals.0,
                expects_owned: signals.1,
            }
        },
        TypeKind::Path(path) => {
            let core_type = core_of_path(path, &full_type);
            RustTypeInfo {
                full_type,
                is_reference: false,
                is_mutable_ref: false,
                is_impl_trait: false,
                trait_bound: None,
                core_type,
                expects_borrow: false,
                expects_owned: false,
            }
        },
        TypeKind::Other => {
            let core_type = full_type.clone();
            RustTypeInfo {
                full_type,
                is_reference: false,
                is_mutable_ref: false,
                is_impl_trait: false,
                trait_bound: None,
                core_type,
                expects_borrow: false,
                expects_owned: false,
            }
        },
    }
}

} // verus!
