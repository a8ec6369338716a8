//! JSON text for the bodies of responses.

use vstd::prelude::*;

verus! {

/// `serde_json::Error`, the error of a serialization.
#[verifier::external_type_specification]
#[verifier::external_body]
pub struct ExJsonError(serde_json::Error);

/// The JSON string literal that `serde_json` writes for a string: the string
/// between double quotes, with the characters that JSON does not allow there
/// written as escapes.
pub uninterp spec fn json_string(text: Seq<char>) -> Seq<char>;

/// Whether JSON allows `c` in a string literal as it is: every character but
/// the double quote, the backslash and the control characters below the space.
pub open spec fn is_plain(c: char) -> bool {
    c != '"' && c != '\\' && c >= ' '
}

/// Whether every character of `text` may stand in a JSON string literal as it
/// is.
pub open spec fn is_plain_text(text: Seq<char>) -> bool {
    forall|i: int| 0 <= i < text.len() ==> is_plain(#[trigger] text[i])
}

/// `text` between double quotes.
pub open spec fn quoted(text: Seq<char>) -> Seq<char> {
    seq!['"'] + text + seq!['"']
}

/// The JSON string literal for `text`, from `serde_json::to_string`.
///
/// Trusted, not proved: the call succeeds for every string, since a string
/// holds nothing that the serializer refuses and the text is written to memory;
/// the result depends on `text` alone; and a text without a double quote, a
/// backslash or a control character comes back unchanged between two double
/// quotes.
#[verifier::external_body]
pub(crate) fn encode_string(text: &str) -> (encoded: Result<String, serde_json::Error>)
    ensures
        encoded is Ok,
        encoded matches Ok(s) ==> s@ == json_string(text@),
        encoded matches Ok(s) ==> (is_plain_text(text@) ==> s@ == quoted(text@)),
{
    serde_json::to_string(text)
}

} // verus!
