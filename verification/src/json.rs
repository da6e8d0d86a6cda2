//! JSON documents as plain data: what a response holds once it is parsed,
//! and the few questions the services ask of it.

use crate::text::str_eq;
use vstd::prelude::*;

verus! {

/// A JSON document.
///
/// A number keeps its value as an `i64` where it is an integer in that
/// range, and always the text in which it is written. An object keeps its
/// members in order.
#[derive(Debug, PartialEq, Eq)]
pub enum Json {
    Null,
    Bool(bool),
    Number(Option<i64>, String),
    Text(String),
    Array(Vec<Json>),
    Object(Vec<(String, Json)>),
}

/// The mathematical value of a [`Json`] document.
pub ghost enum JsonView {
    Null,
    Bool(bool),
    Number(Option<i64>, Seq<char>),
    Text(Seq<char>),
    Array(Seq<JsonView>),
    Object(Seq<(Seq<char>, JsonView)>),
}

/// The value of a document.
pub open spec fn json_value(doc: Json) -> JsonView
    decreases doc,
{
    match doc {
        Json::Null => JsonView::Null,
        Json::Bool(b) => JsonView::Bool(b),
        Json::Number(integer, literal) => JsonView::Number(integer, literal@),
        Json::Text(s) => JsonView::Text(s@),
        Json::Array(items) => JsonView::Array(
            Seq::new(
                items@.len(),
                |i: int|
                    if 0 <= i < items@.len() {
                        json_value(items@[i])
                    } else {
                        JsonView::Null
                    },
            ),
        ),
        Json::Object(members) => JsonView::Object(
            Seq::new(
                members@.len(),
                |i: int|
                    if 0 <= i < members@.len() {
                        (members@[i].0@, json_value(members@[i].1))
                    } else {
                        (Seq::empty(), JsonView::Null)
                    },
            ),
        ),
    }
}

impl View for Json {
    type V = JsonView;

    open spec fn view(&self) -> JsonView {
        json_value(*self)
    }
}

/// The values of a list of documents, one for one.
pub open spec fn items_view(items: Seq<Json>) -> Seq<JsonView> {
    Seq::new(items.len(), |i: int| items[i]@)
}

/// The names and values of a list of members, one for one.
pub open spec fn members_view(members: Seq<(String, Json)>) -> Seq<(Seq<char>, JsonView)> {
    Seq::new(members.len(), |i: int| (members[i].0@, members[i].1@))
}

/// An array's value is the list of its items' values.
pub proof fn lemma_array_view(items: Vec<Json>)
    ensures
        Json::Array(items)@ == JsonView::Array(items_view(items@)),
{
    assert(Json::Array(items)@->Array_0 =~= items_view(items@));
}

/// An object's value is the list of its members' names and values.
pub proof fn lemma_object_view(members: Vec<(String, Json)>)
    ensures
        Json::Object(members)@ == JsonView::Object(members_view(members@)),
{
    assert(Json::Object(members)@->Object_0 =~= members_view(members@));
}

/// The value of the first member called `key`, if there is one.
pub open spec fn first_member(members: Seq<(Seq<char>, JsonView)>, key: Seq<char>) -> Option<
    JsonView,
>
    decreases members.len(),
{
    if members.len() == 0 {
        None
    } else if members[0].0 == key {
        Some(members[0].1)
    } else {
        first_member(members.drop_first(), key)
    }
}

impl JsonView {
    /// The member called `key` of an object; nothing for any other document
    /// and for an object without such a member.
    pub open spec fn lookup(self, key: Seq<char>) -> Option<JsonView> {
        match self {
            JsonView::Object(members) => first_member(members, key),
            _ => None,
        }
    }

    /// The member called `key`, or `Null` where `lookup` finds nothing.
    pub open spec fn member(self, key: Seq<char>) -> JsonView {
        match self.lookup(key) {
            Some(value) => value,
            None => JsonView::Null,
        }
    }

    /// The integer that a number holds.
    pub open spec fn as_i64(self) -> Option<i64> {
        match self {
            JsonView::Number(integer, _) => integer,
            _ => None,
        }
    }

    /// The characters of a string.
    pub open spec fn as_str(self) -> Option<Seq<char>> {
        match self {
            JsonView::Text(s) => Some(s),
            _ => None,
        }
    }

    /// The value of a boolean.
    pub open spec fn as_bool(self) -> Option<bool> {
        match self {
            JsonView::Bool(b) => Some(b),
            _ => None,
        }
    }

    /// The items of an array.
    pub open spec fn as_array(self) -> Option<Seq<JsonView>> {
        match self {
            JsonView::Array(items) => Some(items),
            _ => None,
        }
    }
}

/// `serde_json::Value`: a parsed document as the parser hands it over. The
/// library looks into none; it copies each into a [`Json`].
#[verifier::external_type_specification]
#[verifier::external_body]
pub struct ExValue(serde_json::Value);

/// What parsing `text` as one JSON document gives: the document's value, or
/// the parser's message where `text` is no JSON document.
pub uninterp spec fn json_from_str(text: Seq<char>) -> Result<JsonView, Seq<char>>;

/// The JSON text of an object whose members are the strings `members`, each
/// under its name.
pub uninterp spec fn json_object_text(members: Seq<(Seq<char>, Seq<char>)>) -> Seq<char>;

/// The value of a parser's outcome.
pub open spec fn parsed_view(parsed: Result<Json, String>) -> Result<JsonView, Seq<char>> {
    match parsed {
        Ok(doc) => Ok(doc@),
        Err(message) => Err(message@),
    }
}

/// Copies a `serde_json::Value` into a [`Json`], node for node: a number
/// with what `Number::as_i64` and `Number::to_string` give, an object with
/// its members in the order in which its map walks them.
#[verifier::external_body]
fn json_of_value(value: &serde_json::Value) -> (doc: Json) {
    match value {
        serde_json::Value::Null => Json::Null,
        serde_json::Value::Bool(b) => Json::Bool(*b),
        serde_json::Value::Number(n) => Json::Number(n.as_i64(), n.to_string()),
        serde_json::Value::String(s) => Json::Text(s.clone()),
        serde_json::Value::Array(items) => Json::Array(items.iter().map(json_of_value).collect()),
        serde_json::Value::Object(map) => Json::Object(
            map.iter().map(|(name, member)| (name.clone(), json_of_value(member))).collect(),
        ),
    }
}

/// `serde_json::from_str` into a `serde_json::Value`, copied into a
/// [`Json`]. The contract claims that the outcome depends on the text alone:
/// the document where the text parses, else the text of the parser's error.
#[verifier::external_body]
fn parse_document(text: &str) -> (parsed: Result<Json, String>)
    ensures
        parsed matches Ok(doc) ==> json_from_str(text@) is Ok && json_from_str(text@)->Ok_0 == doc@,
        parsed matches Err(message) ==> json_from_str(text@) is Err && json_from_str(
            text@,
        )->Err_0 == message@,
{
    match serde_json::from_str::<serde_json::Value>(text) {
        Ok(value) => Ok(json_of_value(&value)),
        Err(error) => Err(error.to_string()),
    }
}

/// Builds a `serde_json::Value::Object` whose members are the given strings
/// and writes it out with `to_string`. The contract claims that the text
/// depends on the names and strings alone.
#[verifier::external_body]
fn write_object(members: &Vec<(String, String)>) -> (text: String)
    ensures
        text@ == json_object_text(members.deep_view()),
{
    let mut map = serde_json::Map::new();
    for (name, value) in members.iter() {
        map.insert(name.clone(), serde_json::Value::String(value.clone()));
    }
    serde_json::Value::Object(map).to_string()
}

/// Where the first member called `key` stands among `members`.
fn position_of(members: &Vec<(String, Json)>, key: &str) -> (found: Option<usize>)
    ensures
        found matches Some(i) ==> i < members@.len() && first_member(
            members_view(members@),
            key@,
        ) == Some(members@[i as int].1@),
        found is None ==> first_member(members_view(members@), key@) is None,
{
    let ghost all = members_view(members@);
    assert(all.subrange(0, all.len() as int) =~= all);
    let mut i: usize = 0;
    while i < members.len()
        invariant
            i <= members.len(),
            all == members_view(members@),
            first_member(all, key@) == first_member(all.subrange(i as int, all.len() as int), key@),
        decreases members.len() - i,
    {
        let ghost rest = all.subrange(i as int, all.len() as int);
        assert(rest[0] == (members@[i as int].0@, members@[i as int].1@));
        assert(rest.drop_first() =~= all.subrange(i + 1, all.len() as int));
        if str_eq(members[i].0.as_str(), key) {
            return Some(i);
        }
        i += 1;
    }
    None
}

impl Json {
    /// Parses `text` as one JSON document.
    pub fn parse(text: &str) -> (parsed: Result<Json, String>)
        ensures
            parsed matches Ok(doc) ==> json_from_str(text@) is Ok && json_from_str(text@)->Ok_0 == doc@,
            parsed matches Err(message) ==> json_from_str(text@) is Err && json_from_str(
                text@,
            )->Err_0 == message@,
    {
        parse_document(text)
    }

    /// The JSON text of an object that holds the strings `members`.
    pub fn object_text(members: &Vec<(String, String)>) -> (text: String)
        ensures
            text@ == json_object_text(members.deep_view()),
    {
        write_object(members)
    }

    /// The member called `key` of an object.
    pub fn get(&self, key: &str) -> (found: Option<&Json>)
        ensures
            found matches Some(value) ==> self@.lookup(key@) == Some(value@),
            found is None ==> self@.lookup(key@) is None,
    {
        match self {
            Json::Object(members) => {
                proof {
                    lemma_object_view(*members);
                }
                match position_of(members, key) {
                    Some(i) => Some(&members[i].1),
                    None => None,
                }
            },
            _ => None,
        }
    }

    /// The integer that a number holds.
    pub fn as_i64(&self) -> (value: Option<i64>)
        ensures
            value == self@.as_i64(),
    {
        match self {
            Json::Number(integer, _) => *integer,
            _ => None,
        }
    }

    /// The characters of a string.
    pub fn as_str(&self) -> (value: Option<&str>)
        ensures
            value matches Some(s) ==> self@.as_str() == Some(s@),
            value is None ==> self@.as_str() is None,
    {
        match self {
            Json::Text(s) => Some(s.as_str()),
            _ => None,
        }
    }

    /// The value of a boolean.
    pub fn as_bool(&self) -> (value: Option<bool>)
        ensures
            value == self@.as_bool(),
    {
        match self {
            Json::Bool(b) => Some(*b),
            _ => None,
        }
    }

    /// The items of an array.
    pub fn as_array(&self) -> (value: Option<&Vec<Json>>)
        ensures
            value matches Some(items) ==> self@.as_array() == Some(items_view(items@)),
            value is None ==> self@.as_array() is None,
    {
        match self {
            Json::Array(items) => {
                proof {
                    lemma_array_view(*items);
                }
                Some(items)
            },
            _ => None,
        }
    }

    /// Takes the member called `key` out of an object; `Null` where there
    /// is none.
    pub fn into_member(self, key: &str) -> (value: Json)
        ensures
            value@ == self@.member(key@),
    {
        match self {
            Json::Object(members) => {
                proof {
                    lemma_object_view(members);
                }
                let mut members = members;
                match position_of(&members, key) {
                    Some(i) => members.remove(i).1,
                    None => Json::Null,
                }
            },
            _ => Json::Null,
        }
    }

    /// Takes the items out of an array.
    pub fn into_array(self) -> (value: Option<Vec<Json>>)
        ensures
            value matches Some(items) ==> self@.as_array() == Some(items_view(items@)),
            value is None ==> self@.as_array() is None,
    {
        match self {
            Json::Array(items) => {
                proof {
                    lemma_array_view(items);
                }
                Some(items)
            },
            _ => None,
        }
    }
}

} // verus!
