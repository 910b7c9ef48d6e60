//! JSON parsing done by `serde_json`, named by what it yields.
use vstd::prelude::*;
use crate::text::strings_view;

verus! {

/// The message of `serde_json`'s error when it does not parse the text as a
/// JSON value, `None` when it does.
pub uninterp spec fn json_value_error(text: Seq<char>) -> Option<Seq<char>>;

/// Whether `serde_json` parses the text as a JSON value.
pub open spec fn json_valid(text: Seq<char>) -> bool {
    json_value_error(text) is None
}

/// The strings of the text when `serde_json` parses it as a JSON array of strings.
pub uninterp spec fn json_string_array(text: Seq<char>) -> Option<Seq<Seq<char>>>;

/// `serde_json::from_str::<serde_json::Value>`: the error's message when the
/// text is not a JSON value, `None` when it is.
#[verifier::external_body]
pub(crate) fn json_value_error_of(text: &str) -> (r: Option<String>)
    ensures
        crate::text::opt_string(r) == json_value_error(text@),
{
    serde_json::from_str::<serde_json::Value>(text).err().map(|error| error.to_string())
}

/// Whether the text is a JSON value.
pub fn is_valid_json(text: &str) -> (b: bool)
    ensures
        b == json_valid(text@),
{
    json_value_error_of(text).is_none()
}

/// `serde_json::from_str::<Vec<String>>`: the array's strings when the text is
/// a JSON array of strings, else `None`.
#[verifier::external_body]
pub(crate) fn parse_string_array(text: &str) -> (r: Option<Vec<String>>)
    ensures
        match r {
            Some(v) => json_string_array(text@) == Some(strings_view(v@)),
            None => json_string_array(text@) is None,
        },
{
    serde_json::from_str::<Vec<String>>(text).ok()
}

/// The integer under `key` when `serde_json` parses the text as a JSON object
/// whose `key` holds an integer that fits in `i64`.
pub uninterp spec fn json_int_field(text: Seq<char>, key: Seq<char>) -> Option<i64>;

/// `serde_json::from_str::<serde_json::Value>` followed by `get(key)` and
/// `as_i64`: the integer under `key`, if the text is such an object.
#[verifier::external_body]
pub(crate) fn json_i64_field(text: &str, key: &str) -> (r: Option<i64>)
    ensures
        r == json_int_field(text@, key@),
{
    serde_json::from_str::<serde_json::Value>(text).ok().and_then(|value| value.get(key).and_then(|v| v.as_i64()))
}

} // verus!
