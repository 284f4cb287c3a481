//! JSON documents as plain values, and the few questions that the library
//! asks of them.

use crate::text::same_text;
use vstd::prelude::*;

verus! {

/// A JSON value. A number is held as its text.
#[derive(Debug)]
pub enum Json {
    Null,
    Bool(bool),
    Number(String),
    Text(String),
    Array(Vec<Json>),
    Object(Vec<(String, Json)>),
}

/// `serde_json::Value`, the parser's own form of a JSON value. Nothing is
/// claimed of what such a value holds: it is only handed on to be converted.
#[verifier::external_type_specification]
#[verifier::external_body]
pub struct ExValue(serde_json::Value);

/// The JSON value that a text denotes, where it denotes one.
pub uninterp spec fn json_of(text: Seq<char>) -> Option<Json>;

/// `serde_json::from_str`, at the type `serde_json::Value`: the value that
/// the parser reads from the whole of `text`, or nothing where the parser
/// rejects the text. Nothing here is proved; the contract claims only that
/// the outcome is a function of the text.
#[verifier::external_body]
pub(crate) fn parse(text: &str) -> (r: Option<Json>)
    ensures
        r == json_of(text@),
{
    match serde_json::from_str::<serde_json::Value>(text) {
        Ok(value) => Some(from_value(&value)),
        Err(_) => None,
    }
}

/// A `serde_json::Value` as a `Json`, variant for variant: a number as the
/// text that `Number`'s `to_string` gives, the members of an object in the
/// order in which the value's map hands them out. It has no contract: nothing
/// is claimed of what it returns.
#[verifier::external_body]
fn from_value(value: &serde_json::Value) -> Json {
    match value {
        serde_json::Value::Null => Json::Null,
        serde_json::Value::Bool(b) => Json::Bool(*b),
        serde_json::Value::Number(n) => Json::Number(n.to_string()),
        serde_json::Value::String(s) => Json::Text(s.clone()),
        serde_json::Value::Array(a) => Json::Array(a.iter().map(from_value).collect()),
        serde_json::Value::Object(m) => Json::Object(
            m.iter().map(|(k, v)| (k.clone(), from_value(v))).collect(),
        ),
    }
}

/// The first position in `entries` of a member named `key`.
pub open spec fn member_index(entries: Seq<(String, Json)>, key: Seq<char>) -> Option<int>
    decreases entries.len(),
{
    if entries.len() == 0 {
        None
    } else {
        match member_index(entries.drop_last(), key) {
            Some(i) => Some(i),
            None => if entries.last().0@ == key {
                Some(entries.len() - 1)
            } else {
                None
            },
        }
    }
}

/// What `member_index` finds is a member of that name with none of that
/// name before it; it finds nothing only where no member has that name.
pub proof fn lemma_member_index(entries: Seq<(String, Json)>, key: Seq<char>)
    ensures
        match member_index(entries, key) {
            Some(i) => 0 <= i < entries.len() && entries[i].0@ == key && forall|k: int|
                0 <= k < i ==> (#[trigger] entries[k]).0@ != key,
            None => forall|k: int| 0 <= k < entries.len() ==> (#[trigger] entries[k]).0@ != key,
        },
    decreases entries.len(),
{
    if entries.len() > 0 {
        let front = entries.drop_last();
        lemma_member_index(front, key);
        match member_index(front, key) {
            Some(i) => {
                assert forall|k: int| 0 <= k < i implies (#[trigger] entries[k]).0@ != key by {
                    assert(front[k] == entries[k]);
                }
            },
            None => {
                assert forall|k: int| 0 <= k < entries.len() - 1 implies (
                #[trigger] entries[k]).0@ != key by {
                    assert(front[k] == entries[k]);
                }
            },
        }
    }
}

/// The first position in `entries` of a member named `key`.
fn find_member(entries: &Vec<(String, Json)>, key: &str) -> (r: Option<usize>)
    ensures
        match r {
            Some(i) => i < entries.len() && member_index(entries@, key@) == Some(i as int),
            None => member_index(entries@, key@).is_none(),
        },
{
    let mut i: usize = 0;
    while i < entries.len()
        invariant
            i <= entries.len(),
            forall|k: int| 0 <= k < i ==> (#[trigger] entries@[k]).0@ != key@,
        decreases entries.len() - i,
    {
        if same_text(entries[i].0.as_str(), key) {
            proof {
                lemma_member_index(entries@, key@);
                let found = member_index(entries@, key@).unwrap();
            }
            return Some(i);
        }
        i += 1;
    }
    proof {
        lemma_member_index(entries@, key@);
    }
    None
}

impl Json {
    /// The text of a string value.
    pub open spec fn text(self) -> Option<Seq<char>> {
        match self {
            Json::Text(s) => Some(s@),
            _ => None,
        }
    }

    /// The items of an array.
    pub open spec fn items(self) -> Option<Seq<Json>> {
        match self {
            Json::Array(items) => Some(items@),
            _ => None,
        }
    }

    /// The member of an object under `key`: the first one, should the name
    /// occur more than once.
    pub open spec fn member(self, key: Seq<char>) -> Option<Json> {
        match self {
            Json::Object(entries) => match member_index(entries@, key) {
                Some(i) => Some(entries@[i].1),
                None => None,
            },
            _ => None,
        }
    }

    /// The item of an array at `index`.
    pub open spec fn item(self, index: int) -> Option<Json> {
        match self {
            Json::Array(items) => if 0 <= index < items@.len() {
                Some(items@[index])
            } else {
                None
            },
            _ => None,
        }
    }

    /// The text of a string value; nothing for any other value.
    pub fn as_str(&self) -> (r: Option<&str>)
        ensures
            match r {
                Some(s) => self.text() == Some(s@),
                None => self.text().is_none(),
            },
    {
        match self {
            Json::Text(s) => Some(s.as_str()),
            _ => None,
        }
    }

    /// The items of an array; nothing for any other value.
    pub fn as_array(&self) -> (r: Option<&Vec<Json>>)
        ensures
            match r {
                Some(items) => self.items() == Some(items@),
                None => self.items().is_none(),
            },
    {
        match self {
            Json::Array(items) => Some(items),
            _ => None,
        }
    }

    /// The member of an object under `key`; nothing where the object has no
    /// such member, or the value is no object.
    pub fn get(&self, key: &str) -> (r: Option<&Json>)
        ensures
            match r {
                Some(j) => self.member(key@) == Some(*j),
                None => self.member(key@).is_none(),
            },
    {
        match self {
            Json::Object(entries) => match find_member(entries, key) {
                Some(i) => Some(&entries[i].1),
                None => None,
            },
            _ => None,
        }
    }

    /// The item of an array at `index`; nothing where the array is shorter,
    /// or the value is no array.
    pub fn at(&self, index: usize) -> (r: Option<&Json>)
        ensures
            match r {
                Some(j) => self.item(index as int) == Some(*j),
                None => self.item(index as int).is_none(),
            },
    {
        match self {
            Json::Array(items) => if index < items.len() {
                Some(&items[index])
            } else {
                None
            },
            _ => None,
        }
    }
}

/// The member under `key` of a value that may be missing.
pub open spec fn member_of(value: Option<Json>, key: Seq<char>) -> Option<Json> {
    match value {
        Some(j) => j.member(key),
        None => None,
    }
}

/// The item at `index` of a value that may be missing.
pub open spec fn item_of(value: Option<Json>, index: int) -> Option<Json> {
    match value {
        Some(j) => j.item(index),
        None => None,
    }
}

/// The text of a value that may be missing.
pub open spec fn text_of(value: Option<Json>) -> Option<Seq<char>> {
    match value {
        Some(j) => j.text(),
        None => None,
    }
}

/// The text of a value that may be missing, or the empty text.
pub open spec fn text_or_empty(value: Option<Json>) -> Seq<char> {
    match text_of(value) {
        Some(s) => s,
        None => Seq::empty(),
    }
}

} // verus!
