//! A request body as the handlers read it: after it has been parsed as JSON,
//! and before its members are checked against what an endpoint needs.
//!
//! Only what decoding looks at is held. A member's value is a scalar or the
//! fact that it is an array or an object; no endpoint takes either, so what
//! they contain is not kept.

use vstd::prelude::*;
use crate::models::Amount;
use crate::text::same_text;

verus! {

/// A JSON number, in the two forms in which a field can take it.
#[derive(Clone, Copy, Debug, PartialEq, Eq, Structural)]
pub struct JsonNumber {
    /// The number as an amount. Every JSON number has this form.
    pub amount: Amount,
    /// The number as an integer, where it is written as one and fits in 64
    /// bits with a sign.
    pub integer: Option<i64>,
}

/// The value of one member of a JSON object.
#[derive(Clone, Debug, PartialEq, Eq)]
pub enum JsonValue {
    Null,
    Bool(bool),
    Number(JsonNumber),
    Text(String),
    Array,
    Object,
}

/// What a [`JsonValue`] is in contracts.
pub enum JsonValueView {
    Null,
    Bool(bool),
    Number(JsonNumber),
    Text(Seq<char>),
    Array,
    Object,
}

impl View for JsonValue {
    type V = JsonValueView;

    open spec fn view(&self) -> JsonValueView {
        match self {
            JsonValue::Null => JsonValueView::Null,
            JsonValue::Bool(b) => JsonValueView::Bool(*b),
            JsonValue::Number(n) => JsonValueView::Number(*n),
            JsonValue::Text(s) => JsonValueView::Text(s@),
            JsonValue::Array => JsonValueView::Array,
            JsonValue::Object => JsonValueView::Object,
        }
    }
}

impl DeepView for JsonValue {
    type V = JsonValueView;

    open spec fn deep_view(&self) -> JsonValueView {
        self@
    }
}

/// One member of a JSON object: a key and its value.
#[derive(Clone, Debug, PartialEq, Eq)]
pub struct JsonMember {
    pub key: String,
    pub value: JsonValue,
}

/// What a [`JsonMember`] is in contracts.
pub struct JsonMemberView {
    pub key: Seq<char>,
    pub value: JsonValueView,
}

impl View for JsonMember {
    type V = JsonMemberView;

    open spec fn view(&self) -> JsonMemberView {
        JsonMemberView { key: self.key@, value: self.value@ }
    }
}

impl DeepView for JsonMember {
    type V = JsonMemberView;

    open spec fn deep_view(&self) -> JsonMemberView {
        self@
    }
}

/// A request body after parsing.
#[derive(Clone, Debug, PartialEq, Eq)]
pub enum JsonDocument {
    /// The body is not JSON.
    Malformed,
    /// The body is JSON, but not an object.
    NotObject,
    /// The body is an object with these members, in the order in which they
    /// are written.
    Object(Vec<JsonMember>),
}

/// What a [`JsonDocument`] is in contracts.
pub enum JsonDocumentView {
    Malformed,
    NotObject,
    Object(Seq<JsonMemberView>),
}

impl View for JsonDocument {
    type V = JsonDocumentView;

    open spec fn view(&self) -> JsonDocumentView {
        match self {
            JsonDocument::Malformed => JsonDocumentView::Malformed,
            JsonDocument::NotObject => JsonDocumentView::NotObject,
            JsonDocument::Object(members) => JsonDocumentView::Object(members.deep_view()),
        }
    }
}

/// The value of the member `key`, if the object has one. Where a key is
/// written more than once, the last one counts.
pub open spec fn member(members: Seq<JsonMemberView>, key: Seq<char>) -> Option<JsonValueView>
    decreases members.len(),
{
    if members.len() == 0 {
        None
    } else if members.last().key == key {
        Some(members.last().value)
    } else {
        member(members.drop_last(), key)
    }
}

/// A member under another key, wherever it stands among the others, changes
/// nothing about the member `key`.
pub proof fn lemma_member_of_another_key(
    members: Seq<JsonMemberView>,
    at: int,
    other: JsonMemberView,
    key: Seq<char>,
)
    requires
        0 <= at <= members.len(),
        other.key != key,
    ensures
        member(members.insert(at, other), key) == member(members, key),
    decreases members.len(),
{
    let with = members.insert(at, other);
    if at == members.len() {
        assert(with.drop_last() =~= members);
    } else {
        assert(with.drop_last() =~= members.drop_last().insert(at, other));
        lemma_member_of_another_key(members.drop_last(), at, other, key);
    }
}

/// Finds the member `key`.
pub fn find<'a>(members: &'a Vec<JsonMember>, key: &str) -> (value: Option<&'a JsonValue>)
    ensures
        value.deep_view() == member(members.deep_view(), key@),
{
    let mut i = members.len();
    assert(members.deep_view().take(i as int) =~= members.deep_view());
    while i > 0
        invariant
            i <= members.len(),
            member(members.deep_view(), key@) == member(members.deep_view().take(i as int), key@),
        decreases i,
    {
        let ghost upto = members.deep_view().take(i as int);
        assert(upto.drop_last() =~= members.deep_view().take(i - 1));
        if same_text(members[i - 1].key.as_str(), key) {
            return Some(&members[i - 1].value);
        }
        i = i - 1;
    }
    None
}

} // verus!
