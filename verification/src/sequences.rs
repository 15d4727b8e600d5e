//! Selections from sequences, as the contracts of the library's transformations
//! state them.

use crate::text::str_eq;
use vstd::prelude::*;

verus! {

/// The values that `f` gives for the elements of `s`, in their order, leaving out
/// the elements for which it gives none.
pub open spec fn filter_map<A, B>(s: Seq<A>, f: spec_fn(A) -> Option<B>) -> Seq<B>
    decreases s.len(),
{
    if s.len() == 0 {
        Seq::empty()
    } else {
        match f(s.last()) {
            Some(b) => filter_map(s.drop_last(), f).push(b),
            None => filter_map(s.drop_last(), f),
        }
    }
}

/// Position of the first element at or after `from` that equals `a`, or the length
/// of `s` if there is none.
pub open spec fn first_equal_from<A>(s: Seq<A>, a: A, from: int) -> int
    decreases s.len() - from,
{
    if from < 0 || from >= s.len() {
        s.len() as int
    } else if s[from] == a {
        from
    } else {
        first_equal_from(s, a, from + 1)
    }
}

/// Position of the first element that equals `a`, if there is one.
pub open spec fn position_of<A>(s: Seq<A>, a: A) -> Option<int> {
    if first_equal_from(s, a, 0) < s.len() {
        Some(first_equal_from(s, a, 0))
    } else {
        None
    }
}

/// The elements of `s` that differ from `a`, in their order.
pub open spec fn without<A>(s: Seq<A>, a: A) -> Seq<A>
    decreases s.len(),
{
    if s.len() == 0 {
        Seq::empty()
    } else if s.last() == a {
        without(s.drop_last(), a)
    } else {
        without(s.drop_last(), a).push(s.last())
    }
}

/// Taking one element more keeps it unless it equals `a`.
pub proof fn lemma_without_step<A>(s: Seq<A>, a: A, i: int)
    requires
        0 <= i < s.len(),
    ensures
        without(s.take(i + 1), a) == if s[i] == a {
            without(s.take(i), a)
        } else {
            without(s.take(i), a).push(s[i])
        },
{
    assert(s.take(i + 1).drop_last() =~= s.take(i));
}

/// Taking one element more adds what `f` gives for it, if anything.
pub proof fn lemma_filter_map_step<A, B>(s: Seq<A>, f: spec_fn(A) -> Option<B>, i: int)
    requires
        0 <= i < s.len(),
    ensures
        filter_map(s.take(i + 1), f) == match f(s[i]) {
            Some(b) => filter_map(s.take(i), f).push(b),
            None => filter_map(s.take(i), f),
        },
{
    assert(s.take(i + 1).drop_last() =~= s.take(i));
}

/// Nothing is selected from nothing, and taking all of a sequence is the sequence.
pub proof fn lemma_filter_map_ends<A, B>(s: Seq<A>, f: spec_fn(A) -> Option<B>)
    ensures
        filter_map(s.take(0), f) == Seq::<B>::empty(),
        filter_map(s.take(s.len() as int), f) == filter_map(s, f),
{
    assert(s.take(s.len() as int) =~= s);
}

/// Whether `key` is among `items`.
pub fn contains_str(items: &Vec<String>, key: &str) -> (found: bool)
    ensures
        found == items.deep_view().contains(key@),
{
    let mut i: usize = 0;
    while i < items.len()
        invariant
            i <= items.len(),
            forall|k: int| 0 <= k < i ==> items.deep_view()[k] != key@,
        decreases items.len() - i,
    {
        assert(items.deep_view()[i as int] == items[i as int]@);
        if str_eq(items[i].as_str(), key) {
            return true;
        }
        i += 1;
    }
    false
}

/// The strings of `items` that differ from `key`, in their order.
pub fn without_str(items: &Vec<String>, key: &str) -> (rest: Vec<String>)
    ensures
        rest.deep_view() == without(items.deep_view(), key@),
{
    let mut rest: Vec<String> = Vec::new();
    let mut i: usize = 0;
    while i < items.len()
        invariant
            i <= items.len(),
            rest.deep_view() == without(items.deep_view().take(i as int), key@),
        decreases items.len() - i,
    {
        proof {
            lemma_without_step(items.deep_view(), key@, i as int);
        }
        if !str_eq(items[i].as_str(), key) {
            rest.push(items[i].clone());
        }
        i += 1;
    }
    assert(items.deep_view().take(items.len() as int) =~= items.deep_view());
    rest
}

/// A copy of a list of strings.
pub fn clone_strings(items: &Vec<String>) -> (copy: Vec<String>)
    ensures
        copy.deep_view() == items.deep_view(),
{
    let mut copy: Vec<String> = Vec::new();
    let mut i: usize = 0;
    while i < items.len()
        invariant
            i <= items.len(),
            copy.len() == i,
            forall|k: int| 0 <= k < i ==> copy[k]@ == items[k]@,
        decreases items.len() - i,
    {
        copy.push(items[i].clone());
        i += 1;
    }
    copy
}

} // verus!
