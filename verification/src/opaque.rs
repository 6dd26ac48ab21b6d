use vstd::prelude::*;

verus! {

/// A JSON document, carried through the library without being read.
#[verifier::external_type_specification]
#[verifier::external_body]
pub struct ExJsonValue(serde_json::Value);

/// `<serde_json::Value as Clone>::clone`: copying a JSON document. Nothing is
/// claimed of the copy; the library only needs the call to be accepted so that
/// the types that carry a document can be cloned.
pub assume_specification[ <serde_json::Value as Clone>::clone ](v: &serde_json::Value) -> serde_json::Value;

} // verus!
