//! Fresh identifiers for the objects and operations the library creates.

use vstd::prelude::*;

verus! {

/// Whether a character is a lower-case hexadecimal digit.
pub open spec fn is_lower_hex(c: char) -> bool {
    ('0' <= c && c <= '9') || ('a' <= c && c <= 'f')
}

/// The shape of every identifier the library makes up: 32 lower-case hexadecimal
/// digits.
pub open spec fn is_fresh_id(id: Seq<char>) -> bool {
    &&& id.len() == 32
    &&& forall|i: int| 0 <= i < id.len() ==> is_lower_hex(#[trigger] id[i])
}

/// Draws a random version-4 UUID with `uuid::Uuid::new_v4` and writes it in the
/// simple format of `uuid::Uuid::simple`. Each call gives another identifier, so the
/// contract states only what holds of all of them: 32 lower-case hexadecimal digits.
#[verifier::external_body]
pub fn generate_id() -> (id: String)
    ensures
        is_fresh_id(id@),
{
    uuid::Uuid::simple(uuid::Uuid::new_v4()).to_string()
}

} // verus!
