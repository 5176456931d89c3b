//! The template's input dictionary: each staged label mapped to itself.

use vstd::prelude::*;
use typst::foundations::{Dict, Str, Value};

verus! {

#[verifier::external_type_specification]
#[verifier::external_body]
pub struct ExDict(Dict);

/// The labels held by a dictionary: each key with the text of its string value.
pub uninterp spec fn dict_labels(d: Dict) -> Map<Seq<char>, Seq<char>>;

/// Relies on `typst::foundations::Dict::new`: a dictionary with no pairs.
#[verifier::external_body]
pub(crate) fn empty_dict() -> (r: Dict)
    ensures
        dict_labels(r).dom().len() == 0,
        dict_labels(r).dom().finite(),
{
    Dict::new()
}

/// Relies on `typst::foundations::Dict::insert`: the pair `key: key` is added,
/// and an earlier value under the same key is replaced.
#[verifier::external_body]
pub(crate) fn insert_label(d: &mut Dict, key: &String)
    ensures
        dict_labels(*final(d)) == dict_labels(*old(d)).insert(key@, key@),
{
    d.insert(Str::from(key.as_str()), Value::Str(Str::from(key.as_str())));
}

} // verus!
