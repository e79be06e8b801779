//! The manifest-property probe's deterministic core: deciding, from the text
//! of a `package.json`, whether it declares a release configuration.

use vstd::prelude::*;

verus! {

/// Whether serde_json accepts `text` as a well-formed document. The outcome
/// of the parse attempt is a function of the text alone; this names it.
pub uninterp spec fn json_wf(text: Seq<char>) -> bool;

/// Whether `text` parses to a top-level keyed object that contains `key`.
/// The outcome of the key query is a function of the text and the key alone;
/// this names it. It is meaningful only where `json_wf(text)` holds.
pub uninterp spec fn json_object_has_key(text: Seq<char>, key: Seq<char>) -> bool;

/// The manifest key whose presence marks a release configuration.
pub open spec fn release_key() -> Seq<char> {
    "release"@
}

/// Relies on serde_json::from_str and serde_json::Value::get: the parse
/// succeeds exactly on the documents serde_json accepts, and `get` with a
/// string index returns a member exactly when the parsed value is a
/// top-level object containing that key.
#[verifier::external_body]
fn document_object_has_key(text: &str, key: &str) -> (r: Result<bool, serde_json::Error>)
    ensures
        r is Ok <==> json_wf(text@),
        r matches Ok(present) ==> present == json_object_has_key(text@, key@),
{
    let document: serde_json::Value = match serde_json::from_str(text) {
        Ok(value) => value,
        Err(error) => return Err(error),
    };
    Ok(document.get(key).is_some())
}

/// Whether manifest text declares a release configuration: the text must
/// parse, and its top-level value must be an object with a `release` member.
/// The member's value is never inspected, so `null`, `false` or an empty
/// structure still counts. Text that does not parse is an error, whatever
/// keys it may appear to contain.
pub fn manifest_text_declares_release(text: &str) -> (r: Result<bool, serde_json::Error>)
    ensures
        r is Ok <==> json_wf(text@),
        r matches Ok(present) ==> present == json_object_has_key(text@, release_key()),
{
    document_object_has_key(text, "release")
}

} // verus!
