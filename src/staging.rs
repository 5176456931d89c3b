//! The name prefix of a request's staging directory.
//!
//! Each request draws a fresh random identifier, so that concurrent requests
//! never share a directory.

use vstd::prelude::*;
use crate::field::is_safe_label;

verus! {

/// Whether `c` is a digit of lower-case hexadecimal.
pub open spec fn is_lower_hex(c: char) -> bool {
    ('0' <= c && c <= '9') || ('a' <= c && c <= 'f')
}

/// Whether `s` is a UUID in hyphenated lower-case form: 32 hex digits in
/// groups of 8, 4, 4, 4 and 12, joined by hyphens.
pub open spec fn is_hyphenated_uuid(s: Seq<char>) -> bool {
    &&& s.len() == 36
    &&& forall|i: int|
        0 <= i < 36 ==> if i == 8 || i == 13 || i == 18 || i == 23 {
            s[i] == '-'
        } else {
            is_lower_hex(s[i])
        }
}

/// The prefix of the staging directory for identifier `id`.
pub open spec fn staging_prefix_of(id: Seq<char>) -> Seq<char> {
    "photos-"@ + id
}

/// Relies on `uuid::Uuid::new_v4` and on `Uuid`'s `Display`, which writes
/// the hyphenated lower-case form: a fresh random identifier.
#[verifier::external_body]
fn random_id() -> (r: String)
    ensures
        is_hyphenated_uuid(r@),
{
    uuid::Uuid::new_v4().to_string()
}

/// The staging directory prefix for a given identifier.
pub fn staging_prefix_for(id: &str) -> (r: String)
    ensures
        r@ == staging_prefix_of(id@),
{
    let mut prefix = "photos-".to_owned();
    prefix.append(id);
    prefix
}

/// A staging directory prefix with a fresh random identifier; it names a
/// single path component.
pub fn new_staging_prefix() -> (r: String)
    ensures
        exists|id: Seq<char>| is_hyphenated_uuid(id) && r@ == staging_prefix_of(id),
        is_safe_label(r@),
{
    let id = random_id();
    let r = staging_prefix_for(id.as_str());
    proof {
        prefix_is_one_component(id@);
    }
    r
}

/// The prefix for a well-formed identifier is one path component: not
/// empty, not `.` or `..`, and free of `/`.
pub proof fn prefix_is_one_component(id: Seq<char>)
    requires
        is_hyphenated_uuid(id),
    ensures
        is_safe_label(staging_prefix_of(id)),
{
    reveal_strlit("photos-");
    let s = staging_prefix_of(id);
    assert forall|i: int| 0 <= i < s.len() implies s[i] != '/' by {
        if i >= 7 {
            assert(s[i] == id[i - 7]);
        }
    }
}

/// Requests with different identifiers get different staging directories.
pub proof fn distinct_ids_distinct_prefixes(a: Seq<char>, b: Seq<char>)
    requires
        a != b,
    ensures
        staging_prefix_of(a) != staging_prefix_of(b),
{
    reveal_strlit("photos-");
    let n = "photos-"@.len() as int;
    assert(staging_prefix_of(a).subrange(n, staging_prefix_of(a).len() as int) =~= a);
    assert(staging_prefix_of(b).subrange(n, staging_prefix_of(b).len() as int) =~= b);
}

} // verus!
