//! JSON as far as the relay needs it: the members of one object on the way
//! in, and string literals on the way out. Both are the work of `serde_json`;
//! this module gives them a contract.

use crate::assoc::named_view;
use vstd::prelude::*;

verus! {

/// What a member of a JSON object holds, told apart by kind. A string keeps
/// its text and a boolean its value; of the other kinds only the kind is kept.
#[derive(Clone, Debug, PartialEq, Eq)]
pub enum JsonField {
    Null,
    Bool(bool),
    Number,
    Text(String),
    Array,
    Object,
}

/// The mathematical value of a [`JsonField`].
pub enum JsonFieldView {
    Null,
    Bool(bool),
    Number,
    Text(Seq<char>),
    Array,
    Object,
}

impl View for JsonField {
    type V = JsonFieldView;

    open spec fn view(&self) -> JsonFieldView {
        match self {
            JsonField::Null => JsonFieldView::Null,
            JsonField::Bool(b) => JsonFieldView::Bool(*b),
            JsonField::Number => JsonFieldView::Number,
            JsonField::Text(s) => JsonFieldView::Text(s@),
            JsonField::Array => JsonFieldView::Array,
            JsonField::Object => JsonFieldView::Object,
        }
    }
}

/// The members that `serde_json` reads from `body` where `body` is one JSON
/// object, in the order in which its map hands them out; `None` where it
/// refuses `body`.
pub uninterp spec fn json_object(body: Seq<u8>) -> Option<Seq<(Seq<char>, JsonFieldView)>>;

/// The JSON string literal that `serde_json` writes for `text`, quotes
/// included; `None` where it reports a failure.
pub uninterp spec fn json_text(text: Seq<char>) -> Option<Seq<char>>;

/// Reads `body` with `serde_json::from_slice` as a
/// `serde_json::Map<String, serde_json::Value>` and lists the members of the
/// map. Trusted: that what comes back depends on the bytes of `body` alone,
/// which is what naming it `json_object(body@)` says. Nothing is claimed
/// about which bytes are accepted or what the members are.
#[verifier::external_body]
pub(crate) fn read_object(body: &[u8]) -> (members: Option<Vec<(String, JsonField)>>)
    ensures
        match members {
            Some(m) => json_object(body@) == Some(named_view(m@)),
            None => json_object(body@) is None,
        },
{
    let map = serde_json::from_slice::<serde_json::Map<String, serde_json::Value>>(body).ok()?;
    let mut members = Vec::new();
    for (name, value) in map {
        members.push((name, match value {
            serde_json::Value::Null => JsonField::Null,
            serde_json::Value::Bool(b) => JsonField::Bool(b),
            serde_json::Value::Number(_) => JsonField::Number,
            serde_json::Value::String(s) => JsonField::Text(s),
            serde_json::Value::Array(_) => JsonField::Array,
            serde_json::Value::Object(_) => JsonField::Object,
        }));
    }
    Some(members)
}

/// Writes `text` as a JSON string literal with `serde_json::to_string`.
/// Trusted: that what comes back depends on the characters of `text` alone,
/// which is what naming it `json_text(text@)` says. Nothing is claimed about
/// the literal, nor that one is always produced.
#[verifier::external_body]
pub(crate) fn write_text(text: &str) -> (literal: Option<String>)
    ensures
        match literal {
            Some(l) => json_text(text@) == Some(l@),
            None => json_text(text@) is None,
        },
{
    serde_json::to_string(text).ok()
}

} // verus!
