//! Fields of JSON replies.

use vstd::prelude::*;

use crate::text;

verus! {

/// The text in a field of the JSON object that a text writes, if it is one and
/// the field holds a text.
pub uninterp spec fn text_in_field(s: Seq<char>, field: Seq<char>) -> Option<Seq<char>>;

/// The number in a field of the JSON object that a text writes, if it is one
/// and the field holds a number without sign or fraction below 2 to the 64.
pub uninterp spec fn number_in_field(s: Seq<char>, field: Seq<char>) -> Option<u64>;

/// `serde_json::from_str` reads the text as a JSON value, of which one field
/// is taken as a text; anything else gives nothing. What is read is a function
/// of the text and the field and left to its name.
#[verifier::external_body]
pub(crate) fn text_field(s: &str, field: &str) -> (r: Option<String>)
    ensures
        text::opt_text(r) == text_in_field(s@, field@),
{
    let value = serde_json::from_str::<serde_json::Value>(s).ok()?;
    value[field].as_str().map(|t| t.to_string())
}

/// `serde_json::from_str` reads the text as a JSON value, of which one field
/// is taken as an unsigned number; anything else gives nothing. What is read
/// is a function of the text and the field and left to its name.
#[verifier::external_body]
pub(crate) fn number_field(s: &str, field: &str) -> (r: Option<u64>)
    ensures
        r == number_in_field(s@, field@),
{
    let value = serde_json::from_str::<serde_json::Value>(s).ok()?;
    value[field].as_u64()
}

} // verus!
