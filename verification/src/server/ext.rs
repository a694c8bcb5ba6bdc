//! The identifier type that the service's rows carry, and the nonce source.

use vstd::prelude::*;

verus! {

/// A row identifier.
#[verifier::external_type_specification]
#[verifier::external_body]
pub struct ExUuid(uuid::Uuid);

/// `c` is a lower-case hexadecimal digit.
pub open spec fn is_lower_hex(c: char) -> bool {
    ('0' <= c && c <= '9') || ('a' <= c && c <= 'f')
}

/// `s` is a version-4, RFC-variant UUID in hyphenated lower-case form:
/// `xxxxxxxx-xxxx-4xxx-Nxxx-xxxxxxxxxxxx`, where `N` is one of `8`, `9`,
/// `a`, `b`.
pub open spec fn is_hyphenated_v4(s: Seq<char>) -> bool {
    &&& s.len() == 36
    &&& forall|i: int|
        0 <= i < 36 ==> if i == 8 || i == 13 || i == 18 || i == 23 {
            s[i] == '-'
        } else {
            is_lower_hex(#[trigger] s[i])
        }
    &&& s[14] == '4'
    &&& (s[19] == '8' || s[19] == '9' || s[19] == 'a' || s[19] == 'b')
}

/// A fresh random nonce: `uuid::Uuid::new_v4` rendered by its `Display`
/// impl, the hyphenated lower-case form. Which random digits it holds rests
/// on chance and is not stated; where the system has no random numbers to
/// give, the call panics.
#[verifier::external_body]
pub(crate) fn new_nonce() -> (nonce: String)
    ensures
        is_hyphenated_v4(nonce@),
{
    uuid::Uuid::new_v4().to_string()
}

} // verus!
