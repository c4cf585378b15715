//! Fresh identifiers for devices and transfers.
use crate::digest::is_lower_hex_digit;
use crate::text::{all_whitespace, spec_is_whitespace};
use vstd::prelude::*;

verus! {

/// Text in the hyphenated form of a UUID: 36 characters, hyphens at positions 8, 13, 18 and
/// 23, and lower-case hexadecimal digits everywhere else.
pub open spec fn is_uuid_text(s: Seq<char>) -> bool {
    &&& s.len() == 36
    &&& forall|i: int|
        0 <= i < 36 ==> if i == 8 || i == 13 || i == 18 || i == 23 {
            #[trigger] s[i] == '-'
        } else {
            is_lower_hex_digit(s[i])
        }
}

/// UUID text is never blank.
pub proof fn lemma_uuid_text_not_blank(s: Seq<char>)
    requires
        is_uuid_text(s),
    ensures
        !all_whitespace(s),
{
    assert(is_lower_hex_digit(s[0]));
    assert(!spec_is_whitespace(s[0]));
}

/// A fresh random identifier: a version 4 UUID in its hyphenated form. Calls
/// `uuid::Uuid::new_v4` and formats it with `to_string`, which writes the hyphenated
/// lower-case form: the value is random, so only that form, with the version digit `4`, is
/// stated.
#[verifier::external_body]
pub(crate) fn fresh_uuid() -> (id: String)
    ensures
        is_uuid_text(id@),
        id@[14] == '4',
{
    uuid::Uuid::new_v4().to_string()
}

} // verus!
