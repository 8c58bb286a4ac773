//! JSON documents as values: what a parsed text holds, and how it is read.

use vstd::prelude::*;
use crate::error::JsonFailure;

verus! {

/// A JSON number: its text, and its value where it is a whole number that
/// is not negative.
#[derive(Clone, Debug)]
pub struct Number {
    pub text: String,
    pub unsigned: Option<u64>,
}

/// A JSON document.
#[derive(Debug)]
pub enum Json {
    Null,
    Bool(bool),
    Number(Number),
    Text(String),
    List(Vec<Json>),
    Object(Vec<(String, Json)>),
}

/// The view of an optional text.
pub open spec fn text_view(text: Option<String>) -> Option<Seq<char>> {
    match text {
        Some(t) => Some(t@),
        None => None,
    }
}

/// The document that a text denotes, if it is a JSON text.
pub uninterp spec fn json_document(text: Seq<char>) -> Option<Json>;

/// The value of the first member named `key` among the members of an
/// object, if there is one.
pub open spec fn member(entries: Seq<(String, Json)>, key: Seq<char>) -> Option<Json>
    decreases entries.len(),
{
    if entries.len() == 0 {
        None
    } else if entries[0].0@ == key {
        Some(entries[0].1)
    } else {
        member(entries.drop_first(), key)
    }
}

/// Whether each member of an object is named by one of `allowed`.
pub open spec fn only_members(entries: Seq<(String, Json)>, allowed: Seq<Seq<char>>) -> bool {
    forall|i: int| 0 <= i < entries.len() ==> allowed.contains(#[trigger] entries[i].0@)
}

/// The names in a list of literals.
pub open spec fn names(allowed: Seq<&'static str>) -> Seq<Seq<char>> {
    Seq::new(allowed.len(), |i: int| allowed[i]@)
}

/// Copies a `serde_json::Value` into a document, variant by variant: a
/// number by `Number::to_string` and `Number::as_u64`, an array item by
/// item, an object member by member in the order of its map.
#[verifier::external_body]
fn document_of(value: serde_json::Value) -> (json: Json) {
    match value {
        serde_json::Value::Null => Json::Null,
        serde_json::Value::Bool(b) => Json::Bool(b),
        serde_json::Value::Number(n) => Json::Number(Number { text: n.to_string(), unsigned: n.as_u64() }),
        serde_json::Value::String(s) => Json::Text(s),
        serde_json::Value::Array(items) => Json::List(items.into_iter().map(document_of).collect()),
        serde_json::Value::Object(map) => Json::Object(
            map.into_iter().map(|(k, v)| (k, document_of(v))).collect(),
        ),
    }
}

/// Parses a text with `serde_json::from_str` into a `serde_json::Value`.
/// The contract claims that the outcome depends on the text alone: a JSON
/// text gives its document, any other text gives the parser's message.
#[verifier::external_body]
fn parse_value(text: &str) -> (r: Result<Json, String>)
    ensures
        r matches Ok(json) ==> json_document(text@) == Some(json),
        r is Err ==> json_document(text@) is None,
{
    match serde_json::from_str::<serde_json::Value>(text) {
        Ok(value) => Ok(document_of(value)),
        Err(error) => Err(error.to_string()),
    }
}

impl Json {
    /// Parses a text. The failure is one of syntax, with the parser's
    /// message.
    pub fn parse(text: &str) -> (r: Result<Json, JsonFailure>)
        ensures
            r matches Ok(json) ==> json_document(text@) == Some(json),
            r matches Err(failure) ==> json_document(text@) is None && failure is Syntax,
    {
        match parse_value(text) {
            Ok(json) => Ok(json),
            Err(message) => Err(JsonFailure::Syntax(message)),
        }
    }

    /// The text of a document that is a text.
    pub open spec fn text(self) -> Option<Seq<char>> {
        match self {
            Json::Text(t) => Some(t@),
            _ => None,
        }
    }

    /// The text of a document that is absent, `null` or a text: `Some(None)`
    /// for the first two, `None` for any other document.
    pub open spec fn optional_text(found: Option<Json>) -> Option<Option<Seq<char>>> {
        match found {
            None => Some(None),
            Some(Json::Null) => Some(None),
            Some(Json::Text(t)) => Some(Some(t@)),
            Some(_) => None,
        }
    }

    /// The text of a document that is a text.
    pub fn as_text(&self) -> (r: Option<String>)
        ensures
            text_view(r) == self.text(),
    {
        match self {
            Json::Text(t) => Some(t.clone()),
            _ => None,
        }
    }
}

/// The value of the first member named `key`, if there is one.
pub fn find<'a>(entries: &'a Vec<(String, Json)>, key: &str) -> (r: Option<&'a Json>)
    ensures
        r matches Some(json) ==> member(entries@, key@) == Some(*json),
        r is None ==> member(entries@, key@) is None,
{
    match find_index(entries, key) {
        Some(i) => Some(&entries[i].1),
        None => None,
    }
}

/// The place of the first member named `key`, if there is one.
pub fn find_index(entries: &Vec<(String, Json)>, key: &str) -> (r: Option<usize>)
    ensures
        r matches Some(i) ==> i < entries@.len() && member(entries@, key@) == Some(entries@[i as int].1),
        r is None ==> member(entries@, key@) is None,
{
    let wanted = key.to_owned();
    let mut i: usize = 0;
    assert(entries@.subrange(0, entries@.len() as int) =~= entries@);
    while i < entries.len()
        invariant
            0 <= i <= entries.len(),
            wanted@ == key@,
            member(entries@, key@) == member(entries@.subrange(i as int, entries@.len() as int), key@),
        decreases entries.len() - i,
    {
        let ghost rest = entries@.subrange(i as int, entries@.len() as int);
        assert(rest[0] == entries@[i as int]);
        assert(rest.drop_first() =~= entries@.subrange(i + 1, entries@.len() as int));
        if entries[i].0 == wanted {
            return Some(i);
        }
        i += 1;
    }
    None
}

/// Takes the value of the first member named `key` out of the members of
/// an object, if there is one.
pub fn take(entries: Vec<(String, Json)>, key: &str) -> (r: Option<Json>)
    ensures
        r == member(entries@, key@),
{
    let mut entries = entries;
    match find_index(&entries, key) {
        Some(i) => {
            let entry = entries.remove(i);
            Some(entry.1)
        },
        None => None,
    }
}

/// Whether two texts are the same.
pub fn same_text(a: &str, b: &str) -> (same: bool)
    ensures
        same == (a@ == b@),
{
    a.to_owned() == b.to_owned()
}

/// The count that the member named `key` holds, where there is such a
/// member and it is a whole number from zero to the largest `usize`.
pub open spec fn count_member(entries: Seq<(String, Json)>, key: Seq<char>) -> Option<nat> {
    match member(entries, key) {
        Some(Json::Number(n)) => match n.unsigned {
            Some(v) => if v <= usize::MAX {
                Some(v as nat)
            } else {
                None
            },
            None => None,
        },
        _ => None,
    }
}

/// The count that the member named `key` holds, which may be missing or
/// `null`: `Some(None)` for these two, `None` where the member is anything
/// but a whole number from zero to the largest `usize`.
pub open spec fn optional_count_member(entries: Seq<(String, Json)>, key: Seq<char>) -> Option<
    Option<nat>,
> {
    match member(entries, key) {
        None => Some(None),
        Some(Json::Null) => Some(None),
        Some(_) => match count_member(entries, key) {
            Some(count) => Some(Some(count)),
            None => None,
        },
    }
}

/// The view of an optional count.
pub open spec fn count_view(count: Option<usize>) -> Option<nat> {
    match count {
        Some(c) => Some(c as nat),
        None => None,
    }
}

/// Reads the member named `key` as a count that may be missing or `null`.
pub fn read_optional_count(entries: &Vec<(String, Json)>, key: &str) -> (r: Option<Option<usize>>)
    ensures
        r matches Some(count) ==> optional_count_member(entries@, key@) == Some(count_view(count)),
        r is None ==> optional_count_member(entries@, key@) is None,
{
    match find(entries, key) {
        None => Some(None),
        Some(Json::Null) => Some(None),
        Some(_) => match read_count(entries, key) {
            Some(count) => Some(Some(count)),
            None => None,
        },
    }
}

/// Reads the member named `key` as a count.
pub fn read_count(entries: &Vec<(String, Json)>, key: &str) -> (r: Option<usize>)
    ensures
        r matches Some(count) ==> count_member(entries@, key@) == Some(count as nat),
        r is None ==> count_member(entries@, key@) is None,
{
    match find(entries, key) {
        Some(Json::Number(n)) => match n.unsigned {
            Some(v) => if v <= usize::MAX as u64 {
                Some(v as usize)
            } else {
                None
            },
            None => None,
        },
        _ => None,
    }
}

/// The text of the member named `key`, where there is such a member and it
/// is a text.
pub open spec fn text_member(entries: Seq<(String, Json)>, key: Seq<char>) -> Option<Seq<char>> {
    match member(entries, key) {
        Some(Json::Text(t)) => Some(t@),
        _ => None,
    }
}

/// The text of the member named `key`, which may be missing or `null`:
/// `Some(None)` for these two, `None` where the member is anything but a
/// text.
pub open spec fn optional_text_member(entries: Seq<(String, Json)>, key: Seq<char>) -> Option<
    Option<Seq<char>>,
> {
    Json::optional_text(member(entries, key))
}

/// Reads the member named `key` as a text.
pub fn read_text(entries: &Vec<(String, Json)>, key: &str) -> (r: Option<String>)
    ensures
        text_view(r) == text_member(entries@, key@),
{
    match find(entries, key) {
        Some(Json::Text(t)) => Some(t.clone()),
        _ => None,
    }
}

/// Reads the member named `key` as a text that may be missing or `null`.
pub fn read_optional_text(entries: &Vec<(String, Json)>, key: &str) -> (r: Option<Option<String>>)
    ensures
        r matches Some(text) ==> optional_text_member(entries@, key@) == Some(
            text_view(text),
        ),
        r is None ==> optional_text_member(entries@, key@) is None,
{
    match find(entries, key) {
        None => Some(None),
        Some(Json::Null) => Some(None),
        Some(Json::Text(t)) => Some(Some(t.clone())),
        Some(_) => None,
    }
}

/// The truth value of the member named `key`, which may be missing or
/// `null`: `Some(None)` for these two, `None` where the member is anything
/// but `true` or `false`.
pub open spec fn optional_flag_member(entries: Seq<(String, Json)>, key: Seq<char>) -> Option<
    Option<bool>,
> {
    match member(entries, key) {
        None => Some(None),
        Some(Json::Null) => Some(None),
        Some(Json::Bool(b)) => Some(Some(b)),
        Some(_) => None,
    }
}

/// Reads the member named `key` as a truth value that may be missing or
/// `null`.
pub fn read_optional_flag(entries: &Vec<(String, Json)>, key: &str) -> (r: Option<Option<bool>>)
    ensures
        r == optional_flag_member(entries@, key@),
{
    match find(entries, key) {
        None => Some(None),
        Some(Json::Null) => Some(None),
        Some(Json::Bool(b)) => Some(Some(*b)),
        Some(_) => None,
    }
}

/// Whether each member of an object is named by one of `allowed`.
pub fn has_only(entries: &Vec<(String, Json)>, allowed: &Vec<&'static str>) -> (only: bool)
    ensures
        only == only_members(entries@, names(allowed@)),
{
    let mut i: usize = 0;
    while i < entries.len()
        invariant
            0 <= i <= entries.len(),
            forall|k: int| 0 <= k < i ==> names(allowed@).contains(#[trigger] entries@[k].0@),
        decreases entries.len() - i,
    {
        let mut found = false;
        let mut j: usize = 0;
        while j < allowed.len()
            invariant
                0 <= j <= allowed.len(),
                0 <= i < entries.len(),
                found ==> names(allowed@).contains(entries@[i as int].0@),
                !found ==> forall|k: int| 0 <= k < j ==> names(allowed@)[k] != entries@[i as int].0@,
            decreases allowed.len() - j,
        {
            let candidate = allowed[j].to_owned();
            if entries[i].0 == candidate {
                assert(names(allowed@)[j as int] == entries@[i as int].0@);
                found = true;
            }
            j += 1;
        }
        if !found {
            assert(!names(allowed@).contains(entries@[i as int].0@));
            return false;
        }
        i += 1;
    }
    true
}

} // verus!
