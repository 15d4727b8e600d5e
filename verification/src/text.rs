//! String helpers used across the library.

use vstd::prelude::*;
use vstd::utf8::encode_utf8_decode_utf8;

verus! {

/// Two string slices hold the same characters exactly when their UTF-8 bytes agree.
pub proof fn lemma_same_bytes_same_text(a: Seq<char>, b: Seq<char>)
    ensures
        (vstd::utf8::encode_utf8(a) == vstd::utf8::encode_utf8(b)) <==> (a == b),
{
    encode_utf8_decode_utf8(a);
    encode_utf8_decode_utf8(b);
}

/// Compares two string slices character by character.
pub fn str_eq(a: &str, b: &str) -> (same: bool)
    ensures
        same == (a@ == b@),
{
    let x = a.as_bytes();
    let y = b.as_bytes();
    proof {
        lemma_same_bytes_same_text(a@, b@);
    }
    if x.len() != y.len() {
        return false;
    }
    let mut i: usize = 0;
    while i < x.len()
        invariant
            i <= x.len(),
            x.len() == y.len(),
            x@ == vstd::utf8::encode_utf8(a@),
            y@ == vstd::utf8::encode_utf8(b@),
            (x@ == y@) <==> (a@ == b@),
            forall|k: int| 0 <= k < i ==> x@[k] == y@[k],
        decreases x.len() - i,
    {
        if x[i] != y[i] {
            return false;
        }
        i += 1;
    }
    assert(x@ =~= y@);
    true
}

/// A copy of an optional string.
pub fn clone_opt(value: &Option<String>) -> (copy: Option<String>)
    ensures
        copy == *value,
{
    match value {
        Some(text) => Some(text.clone()),
        None => None,
    }
}

/// An owned copy of an optional string slice.
pub fn owned_opt(value: Option<&str>) -> (copy: Option<String>)
    ensures
        copy.deep_view() == value.deep_view(),
{
    match value {
        Some(text) => Some(text.to_owned()),
        None => None,
    }
}

/// The word for a truth value: `true` or `false`.
pub open spec fn bool_text_of(value: bool) -> Seq<char> {
    if value {
        "true"@
    } else {
        "false"@
    }
}

/// The word for a truth value: `true` or `false`.
pub fn bool_text(value: bool) -> (text: String)
    ensures
        text@ == bool_text_of(value),
{
    if value {
        "true".to_owned()
    } else {
        "false".to_owned()
    }
}

} // verus!
