use vstd::prelude::*;

verus! {

/// A lowercase hexadecimal digit.
pub open spec fn is_lower_hex(c: char) -> bool {
    ('0' <= c && c <= '9') || ('a' <= c && c <= 'f')
}

/// A UUID in hyphenated form: 36 characters, dashes at 8, 13, 18 and 23, lowercase hex elsewhere.
pub open spec fn is_hyphenated_uuid(s: Seq<char>) -> bool {
    &&& s.len() == 36
    &&& forall|i: int|
        0 <= i < 36 ==> if i == 8 || i == 13 || i == 18 || i == 23 {
            #[trigger] s[i] == '-'
        } else {
            is_lower_hex(s[i])
        }
}

/// Relies on uuid::Uuid::new_v4 for a random UUID and on its `Display`, which writes
/// the lowercase hyphenated form. `new_v4` panics if the system offers no random bytes.
#[verifier::external_body]
pub(crate) fn fresh_client_id() -> (r: String)
    ensures
        is_hyphenated_uuid(r@),
{
    uuid::Uuid::new_v4().to_string()
}

} // verus!
