//! JSON documents as plain values, and the reading of JSON text.

use vstd::prelude::*;
use crate::text::same_text;

verus! {

/// A JSON value as `serde_json` parses it.
#[verifier::external_type_specification]
#[verifier::external_body]
pub struct ExValue(serde_json::Value);

/// The error of `serde_json` for text that is no JSON document.
#[verifier::external_type_specification]
#[verifier::external_body]
pub struct ExError(serde_json::Error);

/// A JSON document. A number is held as its decimal text. The members of an
/// object are held as a list; in a document read from text they stand in the
/// order of their names, and of members that share a name one is kept.
#[derive(Debug, PartialEq, Eq)]
pub enum Json {
    Null,
    Bool(bool),
    Number(String),
    Text(String),
    Array(Vec<Json>),
    Object(Vec<(String, Json)>),
}

pub enum JsonView {
    Null,
    Bool(bool),
    Number(Seq<char>),
    Text(Seq<char>),
    Array(Seq<JsonView>),
    Object(Seq<(Seq<char>, JsonView)>),
}

/// The document that a `Json` stands for.
pub open spec fn json_view(json: Json) -> JsonView
    decreases json,
    via json_view_decreases
{
    match json {
        Json::Null => JsonView::Null,
        Json::Bool(b) => JsonView::Bool(b),
        Json::Number(text) => JsonView::Number(text@),
        Json::Text(text) => JsonView::Text(text@),
        Json::Array(items) => JsonView::Array(
            Seq::new(
                items.len() as nat,
                |i: int|
                    if 0 <= i < items.len() {
                        json_view(items[i])
                    } else {
                        JsonView::Null
                    },
            ),
        ),
        Json::Object(members) => JsonView::Object(
            Seq::new(
                members.len() as nat,
                |i: int|
                    if 0 <= i < members.len() {
                        (members[i].0@, json_view(members[i].1))
                    } else {
                        (Seq::empty(), JsonView::Null)
                    },
            ),
        ),
    }
}

#[via_fn]
proof fn json_view_decreases(json: Json) {
    broadcast use vstd::std_specs::vec::axiom_vec_index_decreases;

}

impl View for Json {
    type V = JsonView;

    open spec fn view(&self) -> JsonView {
        json_view(*self)
    }
}

/// The document that `serde_json::from_str` reads from `text`; `None` where
/// the text is no JSON document.
pub uninterp spec fn document_of_text(text: Seq<char>) -> Option<JsonView>;

/// The document that a parsed value holds.
pub uninterp spec fn document_of_value(value: serde_json::Value) -> JsonView;

/// Calls `serde_json::from_str` for a `Value`. Trusted: success and the
/// document depend on the text alone.
#[verifier::external_body]
fn from_str(text: &str) -> (r: Result<serde_json::Value, serde_json::Error>)
    ensures
        r is Ok <==> document_of_text(text@) is Some,
        r matches Ok(value) ==> document_of_text(text@) == Some(document_of_value(value)),
{
    serde_json::from_str::<serde_json::Value>(text)
}

/// Copies a `serde_json::Value` into a `Json`, variant by variant and level
/// by level. A number is copied as the text that `Number::as_f64` of it
/// prints as. Trusted: the copy depends on the value alone; what it holds is
/// named, not described.
#[verifier::external_body]
fn lift(value: &serde_json::Value) -> (r: Json)
    ensures
        r@ == document_of_value(*value),
{
    match value {
        serde_json::Value::Null => Json::Null,
        serde_json::Value::Bool(b) => Json::Bool(*b),
        serde_json::Value::Number(n) => Json::Number(
            n.as_f64().map(|x| x.to_string()).unwrap_or_default(),
        ),
        serde_json::Value::String(s) => Json::Text(s.clone()),
        serde_json::Value::Array(items) => Json::Array(items.iter().map(lift).collect()),
        serde_json::Value::Object(members) => Json::Object(
            members.iter().map(|(k, v)| (k.clone(), lift(v))).collect(),
        ),
    }
}

/// The text is no JSON document.
#[derive(Clone, Copy, Debug, PartialEq, Eq, Structural)]
pub struct NotJson;

impl JsonView {
    /// Member `n` of this object is the first one named `key`.
    pub open spec fn member_at(self, key: Seq<char>, n: int) -> bool {
        &&& self matches JsonView::Object(members)
        &&& 0 <= n < members.len()
        &&& members[n].0 == key
        &&& forall|i: int| 0 <= i < n ==> (#[trigger] members[i]).0 != key
    }

    /// The first member named `key`, where this is an object that has one.
    pub open spec fn member(self, key: Seq<char>) -> Option<JsonView> {
        match self {
            JsonView::Object(members) => if exists|n: int| self.member_at(key, n) {
                Some(members[choose|n: int| self.member_at(key, n)].1)
            } else {
                None
            },
            _ => None,
        }
    }

    /// Element `i`, where this is an array that has one.
    pub open spec fn element(self, i: int) -> Option<JsonView> {
        match self {
            JsonView::Array(items) => if 0 <= i < items.len() {
                Some(items[i])
            } else {
                None
            },
            _ => None,
        }
    }

    /// The text, where this is a string.
    pub open spec fn text(self) -> Option<Seq<char>> {
        match self {
            JsonView::Text(text) => Some(text),
            _ => None,
        }
    }

    /// The decimal text, where this is a number.
    pub open spec fn number(self) -> Option<Seq<char>> {
        match self {
            JsonView::Number(text) => Some(text),
            _ => None,
        }
    }
}

/// An object has at most one first member of a given name.
pub proof fn lemma_member_at_unique(json: JsonView, key: Seq<char>, m: int, n: int)
    requires
        json.member_at(key, m),
        json.member_at(key, n),
    ensures
        m == n,
{
    let members = json->Object_0;
    if m < n {
        assert(members[m].0 != key);
    } else if n < m {
        assert(members[n].0 != key);
    }
}

impl Json {
    /// Reads a JSON document from text.
    pub fn parse(text: &str) -> (r: Result<Json, NotJson>)
        ensures
            match r {
                Ok(json) => document_of_text(text@) == Some(json@),
                Err(_) => document_of_text(text@) is None,
            },
    {
        match from_str(text) {
            Ok(value) => Ok(lift(&value)),
            Err(_) => Err(NotJson),
        }
    }

    /// The first member named `key`, where this is an object that has one.
    pub fn get(&self, key: &str) -> (r: Option<&Json>)
        ensures
            match r {
                Some(json) => self@.member(key@) == Some(json@),
                None => self@.member(key@) is None,
            },
    {
        match self {
            Json::Object(members) => {
                let mut i: usize = 0;
                while i < members.len()
                    invariant
                        i <= members.len(),
                        *self == Json::Object(*members),
                        forall|j: int| 0 <= j < i ==> (#[trigger] members[j]).0@ != key@,
                    decreases members.len() - i,
                {
                    if same_text(members[i].0.as_str(), key) {
                        proof {
                            assert(self@.member_at(key@, i as int)) by {
                                let ms = self@->Object_0;
                                assert forall|j: int| 0 <= j < i implies (#[trigger] ms[j]).0
                                    != key@ by {
                                    assert(ms[j].0 == members[j].0@);
                                }
                            }
                            let n = choose|n: int| self@.member_at(key@, n);
                            lemma_member_at_unique(self@, key@, n, i as int);
                        }
                        return Some(&members[i].1);
                    }
                    i = i + 1;
                }
                proof {
                    assert forall|n: int| !self@.member_at(key@, n) by {
                        if self@.member_at(key@, n) {
                            assert(self@->Object_0[n].0 == members[n].0@);
                        }
                    }
                }
                None
            },
            _ => None,
        }
    }

    /// Element `index`, where this is an array that has one.
    pub fn at(&self, index: usize) -> (r: Option<&Json>)
        ensures
            match r {
                Some(json) => self@.element(index as int) == Some(json@),
                None => self@.element(index as int) is None,
            },
    {
        match self {
            Json::Array(items) => {
                if index < items.len() {
                    Some(&items[index])
                } else {
                    None
                }
            },
            _ => None,
        }
    }

    /// The elements, where this is an array.
    pub fn as_array(&self) -> (r: Option<&Vec<Json>>)
        ensures
            match r {
                Some(items) => self@ == JsonView::Array(
                    Seq::new(items@.len(), |i: int| items@[i]@),
                ),
                None => !(self@ is Array),
            },
    {
        match self {
            Json::Array(items) => {
                assert(self@->Array_0 =~= Seq::new(items@.len(), |i: int| items@[i]@));
                Some(items)
            },
            _ => None,
        }
    }

    /// The text, where this is a string.
    pub fn as_text(&self) -> (r: Option<&String>)
        ensures
            match r {
                Some(text) => self@.text() == Some(text@),
                None => self@.text() is None,
            },
    {
        match self {
            Json::Text(text) => Some(text),
            _ => None,
        }
    }

    /// The decimal text, where this is a number.
    pub fn as_number(&self) -> (r: Option<&String>)
        ensures
            match r {
                Some(text) => self@.number() == Some(text@),
                None => self@.number() is None,
            },
    {
        match self {
            Json::Number(text) => Some(text),
            _ => None,
        }
    }
}

} // verus!
