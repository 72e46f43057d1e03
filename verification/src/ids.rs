//! Fresh identifiers for new records.
use vstd::prelude::*;

verus! {

/// A character of a hyphenated lowercase UUID.
pub open spec fn is_uuid_char(c: char) -> bool {
    ('0' <= c && c <= '9') || ('a' <= c && c <= 'f') || c == '-'
}

/// Whether a text has the shape of `Uuid::to_string`'s output: 36 characters, each a
/// lowercase hexadecimal digit or a hyphen.
pub open spec fn is_uuid_text(s: Seq<char>) -> bool {
    s.len() == 36 && forall|i: int| 0 <= i < s.len() ==> is_uuid_char(#[trigger] s[i])
}

/// Calls `uuid::Uuid::new_v4().to_string()`: a random version-4 UUID in hyphenated
/// lowercase form. Claimed: the shape of the text (36 characters, lowercase hexadecimal
/// digits and hyphens), as the `Display` impl of `Uuid` writes it; the value is random.
#[verifier::external_body]
pub fn new_id() -> (id: String)
    ensures
        is_uuid_text(id@),
{
    uuid::Uuid::new_v4().to_string()
}

/// A UUID text holds no `/`, so it can lead an object key.
pub proof fn lemma_uuid_has_no_slash(s: Seq<char>)
    requires
        is_uuid_text(s),
    ensures
        !s.contains('/'),
{
    if s.contains('/') {
        let k = choose|k: int| 0 <= k < s.len() && s[k] == '/';
        assert(is_uuid_char(s[k]));
    }
}

} // verus!
