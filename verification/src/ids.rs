//! Identifiers of rows. The library makes them itself; callers never give
//! one for a new row.

use vstd::prelude::*;
use crate::text::{is_blank, is_whitespace};

verus! {

/// Whether `c` is a digit or one of the letters `a` to `f`.
pub open spec fn is_lower_hex_digit(c: char) -> bool {
    ('0' <= c && c <= '9') || ('a' <= c && c <= 'f')
}

/// Whether `s` has the shape of a hyphenated identifier: 36 characters, hyphens
/// at the positions 8, 13, 18 and 23, lower-case hexadecimal digits elsewhere.
pub open spec fn is_hyphenated_id(s: Seq<char>) -> bool {
    &&& s.len() == 36
    &&& forall|i: int|
        0 <= i < 36 ==> if i == 8 || i == 13 || i == 18 || i == 23 {
            #[trigger] s[i] == '-'
        } else {
            is_lower_hex_digit(s[i])
        }
}

/// Calls `uuid::Uuid::new_v4` and the `to_string` of the result. Which
/// identifier comes back is a matter of chance; whatever it is, `uuid` prints it
/// hyphenated and in lower case.
#[verifier::external_body]
fn random_id() -> (id: String)
    ensures
        is_hyphenated_id(id@),
{
    uuid::Uuid::new_v4().to_string()
}

/// A fresh identifier for a row. It is never blank.
pub fn new_id() -> (id: String)
    ensures
        is_hyphenated_id(id@),
        !is_blank(id@),
{
    let id = random_id();
    proof {
        lemma_hyphenated_id_not_blank(id@);
    }
    id
}

/// A text with the shape of an identifier is not blank.
pub proof fn lemma_hyphenated_id_not_blank(s: Seq<char>)
    requires
        is_hyphenated_id(s),
    ensures
        !is_blank(s),
{
    assert(is_lower_hex_digit(s[0]));
    assert(!is_whitespace(s[0]));
}

} // verus!
