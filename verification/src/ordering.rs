//! The order of feature names and the sort that puts a list into it.
//!
//! Texts are ordered lexicographically by code point, which is the order
//! the standard library gives to strings.  The sort is an insertion sort:
//! it keeps every occurrence of a repeated text.

use vstd::prelude::*;
use vstd::seq_lib::*;
use crate::text::{chars_of, texts};

verus! {

/// Whether `a` stands before `b` or equals it in the lexicographic order by
/// code point.
pub open spec fn text_le(a: Seq<char>, b: Seq<char>) -> bool
    decreases a.len(),
{
    if a.len() == 0 {
        true
    } else if b.len() == 0 {
        false
    } else if a[0] == b[0] {
        text_le(a.drop_first(), b.drop_first())
    } else {
        (a[0] as u32) < (b[0] as u32)
    }
}

/// Of two texts, one stands before the other or they are equal.
pub proof fn lemma_text_le_total(a: Seq<char>, b: Seq<char>)
    ensures
        text_le(a, b) || text_le(b, a),
    decreases a.len(),
{
    if a.len() > 0 && b.len() > 0 {
        if a[0] == b[0] {
            lemma_text_le_total(a.drop_first(), b.drop_first());
        } else {
            vstd::utf8::char_u32_cast(a[0], a[0] as u32);
            vstd::utf8::char_u32_cast(b[0], b[0] as u32);
        }
    }
}

/// The order is transitive.
pub proof fn lemma_text_le_transitive(a: Seq<char>, b: Seq<char>, c: Seq<char>)
    requires
        text_le(a, b),
        text_le(b, c),
    ensures
        text_le(a, c),
    decreases a.len(),
{
    if a.len() > 0 {
        if a[0] == b[0] && b[0] == c[0] {
            lemma_text_le_transitive(a.drop_first(), b.drop_first(), c.drop_first());
        }
    }
}

/// Two texts that each stand before or equal the other are the same text.
pub proof fn lemma_text_le_antisymmetric(a: Seq<char>, b: Seq<char>)
    requires
        text_le(a, b),
        text_le(b, a),
    ensures
        a == b,
    decreases a.len(),
{
    if a.len() > 0 {
        lemma_text_le_antisymmetric(a.drop_first(), b.drop_first());
        assert(a =~= seq![a[0]] + a.drop_first());
        assert(b =~= seq![b[0]] + b.drop_first());
    } else {
        assert(a =~= b);
    }
}

/// Compares two texts given by their characters.
pub fn chars_le(a: &Vec<char>, b: &Vec<char>) -> (r: bool)
    ensures
        r == text_le(a@, b@),
{
    let mut i: usize = 0;
    assert(a@.skip(0) == a@);
    assert(b@.skip(0) == b@);
    while i < a.len() && i < b.len() && a[i] == b[i]
        invariant
            i <= a.len(),
            i <= b.len(),
            text_le(a@, b@) == text_le(a@.skip(i as int), b@.skip(i as int)),
        decreases a.len() - i,
    {
        assert(a@.skip(i as int).drop_first() == a@.skip(i + 1));
        assert(b@.skip(i as int).drop_first() == b@.skip(i + 1));
        i += 1;
    }
    if i == a.len() {
        true
    } else if i == b.len() {
        false
    } else {
        (a[i] as u32) < (b[i] as u32)
    }
}

/// Whether a list is in order: every element stands before or equals every
/// later one.
pub open spec fn is_ordered(s: Seq<Seq<char>>) -> bool {
    forall|i: int, j: int| 0 <= i < j < s.len() ==> text_le(#[trigger] s[i], #[trigger] s[j])
}

/// Where `x` goes into the ordered list `s`: behind the last element that
/// stands before it or equals it.
pub open spec fn insert_point(s: Seq<Seq<char>>, x: Seq<char>) -> int
    decreases s.len(),
{
    if s.len() == 0 {
        0
    } else if text_le(s.last(), x) {
        s.len() as int
    } else {
        insert_point(s.drop_last(), x)
    }
}

/// The ordered list `s` with `x` put in at its place.
pub open spec fn insert_sorted(s: Seq<Seq<char>>, x: Seq<char>) -> Seq<Seq<char>> {
    s.insert(insert_point(s, x), x)
}

/// The list in order: its elements put in one by one, each at its place.
pub open spec fn sorted_texts(s: Seq<Seq<char>>) -> Seq<Seq<char>>
    decreases s.len(),
{
    if s.len() == 0 {
        Seq::empty()
    } else {
        insert_sorted(sorted_texts(s.drop_last()), s.last())
    }
}

/// What characterizes the insert point: the element before it is not
/// behind `x`, and every element from it on is.
pub open spec fn is_insert_point(s: Seq<Seq<char>>, x: Seq<char>, p: int) -> bool {
    &&& 0 <= p <= s.len()
    &&& p > 0 ==> text_le(s[p - 1], x)
    &&& forall|j: int| p <= j < s.len() ==> !text_le(#[trigger] s[j], x)
}

/// The insert point has its characteristic property, and only it has.
pub proof fn lemma_insert_point(s: Seq<Seq<char>>, x: Seq<char>, p: int)
    ensures
        is_insert_point(s, x, insert_point(s, x)),
        is_insert_point(s, x, p) ==> p == insert_point(s, x),
    decreases s.len(),
{
    if s.len() > 0 && !text_le(s.last(), x) {
        let rest = s.drop_last();
        lemma_insert_point(rest, x, p);
        let q = insert_point(rest, x);
        assert forall|j: int| q <= j < s.len() implies !text_le(#[trigger] s[j], x) by {
            if j < rest.len() {
                assert(rest[j] == s[j]);
            }
        }
        if q > 0 {
            assert(rest[q - 1] == s[q - 1]);
        }
        if is_insert_point(s, x, p) {
            if p == s.len() {
                assert(text_le(s[p - 1], x));
            }
            assert forall|j: int| p <= j < rest.len() implies !text_le(#[trigger] rest[j], x) by {
                assert(rest[j] == s[j]);
            }
            if p > 0 {
                assert(rest[p - 1] == s[p - 1]);
            }
            assert(is_insert_point(rest, x, p));
        }
    } else if s.len() > 0 {
        if is_insert_point(s, x, p) && p < s.len() {
            assert(!text_le(s[s.len() - 1], x));
        }
    }
}

/// Putting a text into an ordered list at its place leaves the list ordered
/// and adds exactly that text.
pub proof fn lemma_insert_sorted(s: Seq<Seq<char>>, x: Seq<char>)
    requires
        is_ordered(s),
    ensures
        is_ordered(insert_sorted(s, x)),
        insert_sorted(s, x).to_multiset() == s.to_multiset().insert(x),
        insert_sorted(s, x).len() == s.len() + 1,
{
    let p = insert_point(s, x);
    let t = insert_sorted(s, x);
    lemma_insert_point(s, x, p);
    s.insert_ensures(p, x);
    to_multiset_insert(s, p, x);
    assert forall|i: int, j: int| 0 <= i < j < t.len() implies text_le(
        #[trigger] t[i],
        #[trigger] t[j],
    ) by {
        if j < p {
            assert(t[i] == s[i] && t[j] == s[j]);
        } else if j == p {
            assert(t[i] == s[i]);
            if i < p - 1 {
                lemma_text_le_transitive(s[i], s[p - 1], x);
            }
        } else if i < p {
            assert(t[i] == s[i] && t[j] == s[j - 1]);
        } else if i == p {
            assert(t[j] == s[j - 1]);
            lemma_text_le_total(s[j - 1], x);
        } else {
            assert(t[i] == s[i - 1] && t[j] == s[j - 1]);
        }
    }
}

/// Sorting gives an ordered list that holds every text of the input as
/// often as the input does: nothing is added, dropped or merged.
pub proof fn lemma_sorted_texts(s: Seq<Seq<char>>)
    ensures
        is_ordered(sorted_texts(s)),
        sorted_texts(s).to_multiset() == s.to_multiset(),
        sorted_texts(s).len() == s.len(),
    decreases s.len(),
{
    if s.len() > 0 {
        lemma_sorted_texts(s.drop_last());
        lemma_insert_sorted(sorted_texts(s.drop_last()), s.last());
        to_multiset_build(s.drop_last(), s.last());
        assert(s.drop_last().push(s.last()) == s);
    } else {
        assert(s == Seq::<Seq<char>>::empty());
    }
}

/// The last element of an ordered list stands behind every element of any
/// list with the same elements.
proof fn lemma_last_is_greatest(a: Seq<Seq<char>>, b: Seq<Seq<char>>, j: int)
    requires
        is_ordered(a),
        a.to_multiset() == b.to_multiset(),
        0 <= j < b.len(),
    ensures
        a.len() > 0,
        text_le(b[j], a.last()),
{
    to_multiset_len(a);
    to_multiset_len(b);
    to_multiset_contains(b, b[j]);
    to_multiset_contains(a, b[j]);
    assert(b.contains(b[j]));
    let i = choose|i: int| 0 <= i < a.len() && a[i] == b[j];
    if i < a.len() - 1 {
        assert(text_le(a[i], a[a.len() - 1]));
    } else {
        lemma_text_le_total(a[i], a[i]);
    }
}

/// There is one ordered list of given elements: two ordered lists that
/// hold the same texts equally often are the same list.  So the sorted
/// list is what every correct sort returns.
pub proof fn lemma_ordered_list_is_unique(a: Seq<Seq<char>>, b: Seq<Seq<char>>)
    requires
        is_ordered(a),
        is_ordered(b),
        a.to_multiset() == b.to_multiset(),
    ensures
        a == b,
    decreases a.len(),
{
    to_multiset_len(a);
    to_multiset_len(b);
    if a.len() == 0 {
        assert(a =~= b);
    } else {
        lemma_last_is_greatest(a, b, b.len() - 1);
        lemma_last_is_greatest(b, a, a.len() - 1);
        lemma_text_le_antisymmetric(a.last(), b.last());
        let shorter_a = a.drop_last();
        let shorter_b = b.drop_last();
        assert(a.remove(a.len() - 1) == shorter_a);
        assert(b.remove(b.len() - 1) == shorter_b);
        to_multiset_remove(a, a.len() - 1);
        to_multiset_remove(b, b.len() - 1);
        assert forall|i: int, j: int| 0 <= i < j < shorter_a.len() implies text_le(
            #[trigger] shorter_a[i],
            #[trigger] shorter_a[j],
        ) by {
            assert(shorter_a[i] == a[i] && shorter_a[j] == a[j]);
        }
        assert forall|i: int, j: int| 0 <= i < j < shorter_b.len() implies text_le(
            #[trigger] shorter_b[i],
            #[trigger] shorter_b[j],
        ) by {
            assert(shorter_b[i] == b[i] && shorter_b[j] == b[j]);
        }
        lemma_ordered_list_is_unique(shorter_a, shorter_b);
        assert(a =~= shorter_a.push(a.last()));
        assert(b =~= shorter_b.push(b.last()));
    }
}

/// Puts `x` into the ordered list at its place.
fn insert_text(list: &mut Vec<String>, x: String)
    ensures
        texts(final(list)@) == insert_sorted(texts(old(list)@), x@),
{
    let ghost before = texts(list@);
    let key = chars_of(x.as_str());
    let mut p: usize = list.len();
    while p > 0 && !chars_le(&chars_of(list[p - 1].as_str()), &key)
        invariant
            p <= list.len(),
            list@ == old(list)@,
            key@ == x@,
            before == texts(list@),
            forall|j: int| p <= j < before.len() ==> !text_le(#[trigger] before[j], x@),
        decreases p,
    {
        p -= 1;
    }
    proof {
        if p > 0 {
            assert(before[p - 1] == list@[p - 1]@);
        }
        lemma_insert_point(before, x@, p as int);
    }
    list.insert(p, x);
    assert(texts(list@) =~= before.insert(p as int, x@));
}

/// Sorts a list of texts into lexicographic order.  Repeated texts are
/// kept.
pub fn sort_texts(list: &Vec<String>) -> (r: Vec<String>)
    ensures
        texts(r@) == sorted_texts(texts(list@)),
        is_ordered(texts(r@)),
        texts(r@).to_multiset() == texts(list@).to_multiset(),
{
    proof {
        lemma_sorted_texts(texts(list@));
    }
    let mut out: Vec<String> = Vec::new();
    let mut i: usize = 0;
    assert(texts(list@).take(0) == Seq::<Seq<char>>::empty());
    assert(texts(out@) == Seq::<Seq<char>>::empty());
    while i < list.len()
        invariant
            i <= list.len(),
            texts(out@) == sorted_texts(texts(list@).take(i as int)),
        decreases list.len() - i,
    {
        proof {
            let next = texts(list@).take(i + 1);
            assert(next.drop_last() == texts(list@).take(i as int));
            assert(next.last() == list@[i as int]@);
        }
        insert_text(&mut out, list[i].clone());
        i += 1;
    }
    assert(texts(list@).take(list@.len() as int) == texts(list@));
    out
}

} // verus!
