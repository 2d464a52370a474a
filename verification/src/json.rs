//! The one call into `serde_json`: turning a list of filenames into the
//! JSON array text that the success response carries.

use vstd::prelude::*;

verus! {

/// The JSON array text that `serde_json` produces for a list of strings.
/// It depends on the strings alone, so it is left as a name; callers state
/// their bodies in terms of it rather than spelling out JSON escaping.
pub uninterp spec fn json_of(names: Seq<Seq<char>>) -> Seq<char>;

/// Relies on `serde_json::to_string`. For a `Vec<String>` every byte goes to
/// an in-memory buffer, string values need no failing `Serialize` impl and
/// there are no map keys, so serialization cannot fail; the text depends on
/// the strings alone. An empty list serializes as `[]` (`begin_array` then
/// `end_array`, nothing between).
#[verifier::external_body]
pub(crate) fn encode_names(names: &Vec<String>) -> (r: String)
    ensures
        r@ == json_of(names.deep_view()),
        names@.len() == 0 ==> r@ == "[]"@,
{
    serde_json::to_string(names).unwrap_or_default()
}

} // verus!
