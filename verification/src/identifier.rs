//! Identifiers of conversations.

use vstd::prelude::*;

verus! {

/// A lower-case hexadecimal digit.
pub open spec fn is_lower_hex(c: char) -> bool {
    ('0' <= c && c <= '9') || ('a' <= c && c <= 'f')
}

/// The shape of a generated identifier: 36 characters, hyphens after the
/// 8th, 12th, 16th and 20th digit, lower-case hexadecimal digits elsewhere.
pub open spec fn is_identifier_text(s: Seq<char>) -> bool {
    &&& s.len() == 36
    &&& forall|i: int|
        0 <= i < 36 ==> if i == 8 || i == 13 || i == 18 || i == 23 {
            #[trigger] s[i] == '-'
        } else {
            is_lower_hex(s[i])
        }
}

/// A new random identifier.
pub fn fresh_identifier() -> (id: String)
    ensures
        is_identifier_text(id@),
{
    random_identifier()
}

/// `uuid::Uuid::new_v4` followed by the `Display` rendering of the result,
/// which is the hyphenated lower-case form. Which identifier comes back is
/// left to the operating system's random source; only its shape is claimed.
/// The call panics when that source cannot be read.
#[verifier::external_body]
fn random_identifier() -> (id: String)
    ensures
        is_identifier_text(id@),
{
    uuid::Uuid::new_v4().to_string()
}

} // verus!
