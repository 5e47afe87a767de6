//! JSON values, held as their compact text.

use vstd::prelude::*;

verus! {

/// The compact text that `serde_json` writes for the value it reads from
/// `text`, if it can read one.
pub uninterp spec fn json_canonical(text: Seq<char>) -> Option<Seq<char>>;

/// Reads a value with `serde_json::from_str` and writes it back compactly with
/// its `Display`. Claims that the outcome is a function of the text alone.
#[verifier::external_body]
fn canonical_json(text: &str) -> (r: Option<String>)
    ensures
        match json_canonical(text@) {
            Some(t) => r matches Some(s) && s@ == t,
            None => r is None,
        },
{
    match serde_json::from_str::<serde_json::Value>(text) {
        Ok(value) => Some(value.to_string()),
        Err(_) => None,
    }
}

/// A JSON value in its compact form.
#[derive(Debug, PartialEq, Eq)]
pub struct JsonValue {
    text: String,
}

impl DeepView for JsonValue {
    type V = Seq<char>;

    closed spec fn deep_view(&self) -> Seq<char> {
        self.text@
    }
}

impl Clone for JsonValue {
    fn clone(&self) -> (r: Self)
        ensures
            r.deep_view() == self.deep_view(),
    {
        JsonValue { text: self.text.clone() }
    }
}

impl JsonValue {
    /// Reads a value; `None` where the text is not JSON.
    pub fn parse(text: &str) -> (r: Option<JsonValue>)
        ensures
            match json_canonical(text@) {
                Some(t) => r matches Some(v) && v.deep_view() == t,
                None => r is None,
            },
    {
        match canonical_json(text) {
            Some(text) => Some(JsonValue { text }),
            None => None,
        }
    }

    /// The `null` value.
    pub fn null() -> (r: JsonValue)
        ensures
            r.deep_view() == "null"@,
    {
        JsonValue { text: "null".to_owned() }
    }

    /// The object without members.
    pub fn empty_object() -> (r: JsonValue)
        ensures
            r.deep_view() == "{}"@,
    {
        JsonValue { text: "{}".to_owned() }
    }

    /// A value whose compact form is `text`.
    pub(crate) fn from_compact(text: String) -> (r: JsonValue)
        ensures
            r.deep_view() == text@,
    {
        JsonValue { text }
    }

    /// The compact form.
    pub fn text(&self) -> (r: &str)
        ensures
            r@ == self.deep_view(),
    {
        self.text.as_str()
    }
}

} // verus!
