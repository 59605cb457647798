//! A JSON value as the wire codec sees it, and lookups in its objects.
//!
//! Numbers are kept as their literal text; an object is its members in order.
use vstd::prelude::*;

verus! {

#[derive(PartialEq, Eq, Debug)]
pub enum Json {
    Null,
    Bool(bool),
    Number(String),
    Str(String),
    Array(Vec<Json>),
    Object(Vec<(String, Json)>),
}

/// The index of the first member named `key` at or after `from`.
pub open spec fn find_from(fields: Seq<(String, Json)>, key: Seq<char>, from: int) -> Option<int>
    decreases fields.len() - from,
{
    if from < 0 || from >= fields.len() {
        None
    } else if fields[from].0@ == key {
        Some(from)
    } else {
        find_from(fields, key, from + 1)
    }
}

/// The value of the first member named `key`.
pub open spec fn field(fields: Seq<(String, Json)>, key: Seq<char>) -> Option<Json> {
    match find_from(fields, key, 0) {
        Some(i) => Some(fields[i].1),
        None => None,
    }
}

proof fn lemma_find_from_skip(fields: Seq<(String, Json)>, key: Seq<char>, from: int, to: int)
    requires
        0 <= from <= to,
        forall|j: int| from <= j < to && j < fields.len() ==> #[trigger] fields[j].0@ != key,
    ensures
        find_from(fields, key, from) == find_from(fields, key, to),
    decreases to - from,
{
    if from < to && from < fields.len() {
        lemma_find_from_skip(fields, key, from + 1, to);
    }
}

/// A member named `key` with no member of that name before it is what a
/// lookup of `key` finds.
pub proof fn lemma_field_at(fields: Seq<(String, Json)>, key: Seq<char>, i: int)
    requires
        0 <= i < fields.len(),
        fields[i].0@ == key,
        forall|j: int| 0 <= j < i ==> #[trigger] fields[j].0@ != key,
    ensures
        find_from(fields, key, 0) == Some(i),
        field(fields, key) == Some(fields[i].1),
{
    lemma_find_from_skip(fields, key, 0, i);
}

/// Finds the first member named `key`.
pub fn find_field(fields: &Vec<(String, Json)>, key: &String) -> (r: Option<usize>)
    ensures
        match r {
            Some(i) => i < fields@.len() && find_from(fields@, key@, 0) == Some(i as int),
            None => find_from(fields@, key@, 0) is None,
        },
{
    let mut i: usize = 0;
    while i < fields.len()
        invariant
            i <= fields@.len(),
            find_from(fields@, key@, 0) == find_from(fields@, key@, i as int),
        decreases fields@.len() - i,
    {
        if fields[i].0 == *key {
            return Some(i);
        }
        proof {
            lemma_find_from_skip(fields@, key@, i as int, i + 1);
        }
        i = i + 1;
    }
    None
}

/// A lookup of `key` among the members.
pub fn get<'a>(fields: &'a Vec<(String, Json)>, key: &str) -> (r: Option<&'a Json>)
    ensures
        match r {
            Some(j) => field(fields@, key@) == Some(*j),
            None => field(fields@, key@) is None,
        },
{
    let k = key.to_owned();
    match find_field(fields, &k) {
        Some(i) => Some(&fields[i].1),
        None => None,
    }
}

/// A string member: `None` when it is absent or of another kind.
pub open spec fn str_value(j: Option<Json>) -> Option<String> {
    match j {
        Some(Json::Str(s)) => Some(s),
        _ => None,
    }
}

/// An optional string member: absent or null is `Some(None)`, a string is
/// `Some(Some(s))`, anything else does not decode.
pub open spec fn opt_str_value(j: Option<Json>) -> Option<Option<String>> {
    match j {
        None => Some(None),
        Some(Json::Null) => Some(None),
        Some(Json::Str(s)) => Some(Some(s)),
        _ => None,
    }
}

/// How an optional string is written: null, or the string.
pub open spec fn opt_str_json(o: Option<String>) -> Json {
    match o {
        None => Json::Null,
        Some(s) => Json::Str(s),
    }
}

pub fn get_str(fields: &Vec<(String, Json)>, key: &str) -> (r: Option<String>)
    ensures
        r == str_value(field(fields@, key@)),
{
    match get(fields, key) {
        Some(Json::Str(s)) => Some(s.clone()),
        _ => None,
    }
}

pub fn get_opt_str(fields: &Vec<(String, Json)>, key: &str) -> (r: Option<Option<String>>)
    ensures
        r == opt_str_value(field(fields@, key@)),
{
    match get(fields, key) {
        None => Some(None),
        Some(Json::Null) => Some(None),
        Some(Json::Str(s)) => Some(Some(s.clone())),
        _ => None,
    }
}

pub fn opt_str_to_json(o: &Option<String>) -> (r: Json)
    ensures
        r == opt_str_json(*o),
{
    match o {
        None => Json::Null,
        Some(s) => Json::Str(s.clone()),
    }
}

/// Whether `s` reads as `lit`.
pub fn is_text(s: &String, lit: &str) -> (r: bool)
    ensures
        r == (s@ == lit@),
{
    let l = lit.to_owned();
    *s == l
}

/// A member named `key` holding `value`.
pub fn member(key: &str, value: Json) -> (r: (String, Json))
    ensures
        r.0@ == key@,
        r.1 == value,
{
    (key.to_owned(), value)
}

} // verus!
