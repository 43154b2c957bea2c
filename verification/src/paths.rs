//! The module path builder: from the position of a file below the source
//! root to the `::`-joined path of the module it defines.

use vstd::prelude::*;
use vstd::string::*;
use crate::text::{chars_of, join, joined, text_eq, texts};

verus! {

/// The position of the last `.` in a file name, or -1 where it has none.
pub open spec fn last_dot(name: Seq<char>) -> int
    decreases name.len(),
{
    if name.len() == 0 {
        -1
    } else if name.last() == '.' {
        name.len() - 1
    } else {
        last_dot(name.drop_last())
    }
}

/// The stem of a file name: the part before its last `.`.  A name without a
/// `.`, and a name whose only `.` is its first character, is its own stem.
pub open spec fn file_stem_of(name: Seq<char>) -> Seq<char> {
    let dot = last_dot(name);
    if dot <= 0 {
        name
    } else {
        name.take(dot)
    }
}

/// Cuts the extension off a file name.
pub fn file_stem<'a>(name: &'a str) -> (r: &'a str)
    ensures
        r@ == file_stem_of(name@),
{
    let chars = chars_of(name);
    let n = chars.len();
    let mut k: usize = n;
    assert(name@.take(n as int) == name@);
    while k > 0 && chars[k - 1] != '.'
        invariant
            chars@ == name@,
            n == chars.len(),
            k <= n,
            last_dot(name@) == last_dot(name@.take(k as int)),
        decreases k,
    {
        assert(name@.take(k as int).drop_last() == name@.take(k - 1));
        k -= 1;
    }
    if k <= 1 {
        assert(name@.subrange(0, n as int) == name@);
        name.substring_char(0, n)
    } else {
        name.substring_char(0, k - 1)
    }
}

/// Whether a stem is one of the two names a file has when it stands for its
/// directory: `mod` and `lib`.
pub open spec fn is_root_stem(stem: Seq<char>) -> bool {
    stem == "mod"@ || stem == "lib"@
}

/// The segments of the module path of the file at `components`, a path
/// relative to the source root whose last component is the file name.
///
/// The directories are the leading segments.  The file's stem is the last
/// segment, unless the file stands for its directory.
pub open spec fn module_segments(components: Seq<Seq<char>>) -> Seq<Seq<char>> {
    if components.len() == 0 {
        Seq::empty()
    } else {
        let stem = file_stem_of(components.last());
        if is_root_stem(stem) {
            components.drop_last()
        } else {
            components.drop_last().push(stem)
        }
    }
}

/// The module path of the file at `components`: its segments joined by
/// `::`.  It is empty for `lib` and `mod` files directly below the root.
pub open spec fn module_path_text(components: Seq<Seq<char>>) -> Seq<char> {
    joined(module_segments(components), "::"@)
}

/// Builds the module path of a file from the components of its path relative
/// to the source root.
pub fn build_module_path(components: &Vec<String>) -> (r: String)
    ensures
        r@ == module_path_text(texts(components@)),
{
    let n = components.len();
    let mut segments: Vec<String> = Vec::new();
    if n == 0 {
        assert(texts(segments@) == module_segments(texts(components@)));
        return join(&segments, "::");
    }
    let mut i: usize = 0;
    while i < n - 1
        invariant
            n == components.len(),
            n > 0,
            i <= n - 1,
            segments@.len() == i,
            forall|j: int| 0 <= j < i ==> (#[trigger] segments@[j])@ == components@[j]@,
        decreases n - 1 - i,
    {
        segments.push(components[i].clone());
        i += 1;
    }
    assert(texts(segments@) == texts(components@).drop_last());
    let stem = file_stem(components[n - 1].as_str());
    if !(text_eq(stem, "mod") || text_eq(stem, "lib")) {
        segments.push(String::from_str(stem));
        assert(texts(segments@) == texts(components@).drop_last().push(stem@));
    }
    join(&segments, "::")
}

} // verus!
