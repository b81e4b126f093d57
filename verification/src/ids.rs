//! Record identifiers: ULIDs from the `ulid` crate.

use vstd::prelude::*;

verus! {

/// Characters of a ULID's Crockford base-32 text.
pub open spec fn ulid_char(c: char) -> bool {
    ('0' <= c && c <= '9') || ('A' <= c && c <= 'Z' && c != 'I' && c != 'L' && c != 'O' && c != 'U')
}

/// A fresh `Ulid::new()` as text (`Ulid::to_string`): random and
/// time-dependent, so only its shape is promised: 26 characters of the
/// Crockford base-32 alphabet.
#[verifier::external_body]
pub(crate) fn new_id() -> (r: String)
    ensures
        r@.len() == 26,
        forall|i: int| 0 <= i < 26 ==> ulid_char(#[trigger] r@[i]),
{
    ulid::Ulid::new().to_string()
}

/// A ULID's shape: 26 characters of the Crockford base-32 alphabet.
pub open spec fn is_ulid_text(s: Seq<char>) -> bool {
    s.len() == 26 && forall|i: int| 0 <= i < 26 ==> ulid_char(#[trigger] s[i])
}

/// A fresh identifier for a stored row, in the ULID's upper-case text.
pub fn record_id() -> (r: String)
    ensures
        is_ulid_text(r@),
{
    new_id()
}

/// A fresh identifier for a stored row, in lower case.
pub fn lower_record_id() -> (r: String)
    ensures
        exists|id: Seq<char>| is_ulid_text(id) && r@ == crate::text::lowercase(id),
{
    let id = new_id();
    proof {
        assert forall|i: int| 0 <= i < id@.len() implies crate::text::is_ascii_char(#[trigger] id@[i]) by {
            assert(ulid_char(id@[i]));
        }
    }
    let r = crate::text::to_lowercase(id.as_str());
    proof {
        assert(crate::text::ascii_only(id@));
        assert(r@ == crate::text::lowercase(id@));
        assert(is_ulid_text(id@));
    }
    r
}

} // verus!
