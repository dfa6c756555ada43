//! Reading single members out of a JSON text.

use vstd::prelude::*;

verus! {

/// What a JSON text holds under one key of its top-level object, as far as this library
/// reads it.
#[derive(Debug, PartialEq, Eq)]
pub enum JsonMember {
    /// The text is not JSON.
    Invalid,
    /// The member is a string.
    Text(String),
    /// The member is a number that is a `u64`.
    Unsigned(u64),
    /// The text is JSON, and it is no object, or the object has no such member, or the
    /// member is neither a string nor a `u64`.
    Other,
}

/// The mathematical value of a [`JsonMember`].
pub ghost enum JsonMemberView {
    Invalid,
    Text(Seq<char>),
    Unsigned(u64),
    Other,
}

impl View for JsonMember {
    type V = JsonMemberView;

    open spec fn view(&self) -> JsonMemberView {
        match *self {
            JsonMember::Invalid => JsonMemberView::Invalid,
            JsonMember::Text(s) => JsonMemberView::Text(s@),
            JsonMember::Unsigned(n) => JsonMemberView::Unsigned(n),
            JsonMember::Other => JsonMemberView::Other,
        }
    }
}

impl JsonMemberView {
    /// The member's characters, if it is a string.
    pub open spec fn text(self) -> Option<Seq<char>> {
        match self {
            JsonMemberView::Text(s) => Some(s),
            _ => None,
        }
    }
}

impl JsonMember {
    /// The member's characters, if it is a string.
    pub fn into_text(self) -> (text: Option<String>)
        ensures
            crate::text::text_view(text) == self@.text(),
    {
        match self {
            JsonMember::Text(s) => Some(s),
            _ => None,
        }
    }
}

/// The name of what a JSON parser finds in `text` under `key`.
pub uninterp spec fn json_member(text: Seq<char>, key: Seq<char>) -> JsonMemberView;

/// Calls `serde_json::from_str` for a `serde_json::Value` and indexes the value by `key`.
/// Trusted: the result depends on the two strings alone. The variants are told apart as
/// documented above; indexing anything but an object, or by an absent key, gives JSON
/// `null`, hence `Other`.
#[verifier::external_body]
pub(crate) fn read_member(text: &str, key: &str) -> (member: JsonMember)
    ensures
        member@ == json_member(text@, key@),
{
    match serde_json::from_str::<serde_json::Value>(text) {
        Err(_) => JsonMember::Invalid,
        Ok(document) => match &document[key] {
            serde_json::Value::String(s) => JsonMember::Text(s.clone()),
            serde_json::Value::Number(n) => match n.as_u64() {
                Some(v) => JsonMember::Unsigned(v),
                None => JsonMember::Other,
            },
            _ => JsonMember::Other,
        },
    }
}

} // verus!
