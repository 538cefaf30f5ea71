//! JSON values as the library reads and builds them.
//!
//! Parsing is done by `serde_json`; the parsed tree is held as a [`Json`]
//! value, on which the lookups below are verified.
use vstd::prelude::*;

use crate::text::{chars_of, chars_eq, string_of};

verus! {

/// A JSON value.
#[derive(Debug)]
pub enum Json {
    Null,
    Bool(bool),
    /// A number, held as the IEEE-754 bit pattern of its `f64` value.
    Number(u64),
    Str(String),
    Array(Vec<Json>),
    /// Members in the order they are held: a value built by the library
    /// keeps the order it was built in; a parsed object has its members
    /// sorted by key (each key once), as `serde_json`'s map yields them.
    /// Lookups by key take the first member with that key.
    Object(Vec<(String, Json)>),
}

/// The mathematical content of a [`Json`] value.
pub enum JsonV {
    Null,
    Bool(bool),
    Number(u64),
    Str(Seq<char>),
    Array(Seq<JsonV>),
    Object(Seq<(Seq<char>, JsonV)>),
}

impl Json {
    /// The content of this value, strings taken by their characters.
    pub open spec fn deep(self) -> JsonV
        decreases self,
    {
        match self {
            Json::Null => JsonV::Null,
            Json::Bool(b) => JsonV::Bool(b),
            Json::Number(n) => JsonV::Number(n),
            Json::Str(s) => JsonV::Str(s@),
            Json::Array(v) => JsonV::Array(deep_items(v@)),
            Json::Object(m) => JsonV::Object(deep_members(m@)),
        }
    }
}

/// The contents of a sequence of values.
pub open spec fn deep_items(s: Seq<Json>) -> Seq<JsonV>
    decreases s,
{
    if s.len() == 0 {
        Seq::empty()
    } else {
        seq![s[0].deep()] + deep_items(s.drop_first())
    }
}

/// The contents of a sequence of object members.
pub open spec fn deep_members(s: Seq<(String, Json)>) -> Seq<(Seq<char>, JsonV)>
    decreases s,
{
    if s.len() == 0 {
        Seq::empty()
    } else {
        seq![(s[0].0@, s[0].1.deep())] + deep_members(s.drop_first())
    }
}

proof fn lemma_deep_items_push(s: Seq<Json>, x: Json)
    ensures
        deep_items(s.push(x)) == deep_items(s).push(x.deep()),
    decreases s.len(),
{
    if s.len() == 0 {
        assert(s.push(x).drop_first() =~= s);
        assert(deep_items(s.push(x)) =~= deep_items(s).push(x.deep()));
    } else {
        assert(s.push(x).drop_first() =~= s.drop_first().push(x));
        lemma_deep_items_push(s.drop_first(), x);
        assert(deep_items(s.push(x)) =~= deep_items(s).push(x.deep()));
    }
}

proof fn lemma_deep_members_push(s: Seq<(String, Json)>, x: (String, Json))
    ensures
        deep_members(s.push(x)) == deep_members(s).push((x.0@, x.1.deep())),
    decreases s.len(),
{
    if s.len() == 0 {
        assert(s.push(x).drop_first() =~= s);
        assert(deep_members(s.push(x)) =~= deep_members(s).push((x.0@, x.1.deep())));
    } else {
        assert(s.push(x).drop_first() =~= s.drop_first().push(x));
        lemma_deep_members_push(s.drop_first(), x);
        assert(deep_members(s.push(x)) =~= deep_members(s).push((x.0@, x.1.deep())));
    }
}

/// Appends the member `key: value` to an object's member list.
pub fn push_member(m: &mut Vec<(String, Json)>, key: &str, value: Json)
    ensures
        deep_members(final(m)@) == deep_members(old(m)@).push((key@, value.deep())),
{
    let k = string_of(&chars_of(key));
    proof {
        lemma_deep_members_push(m@, (k, value));
    }
    m.push((k, value));
}

/// Appends `value` to an array's element list.
pub fn push_item(a: &mut Vec<Json>, value: Json)
    ensures
        deep_items(final(a)@) == deep_items(old(a)@).push(value.deep()),
{
    proof {
        lemma_deep_items_push(a@, value);
    }
    a.push(value);
}

/// The value of the first member named `key` among `members`.
pub open spec fn member(members: Seq<(String, Json)>, key: Seq<char>) -> Option<Json>
    decreases members.len(),
{
    if members.len() == 0 {
        None
    } else if members[0].0@ == key {
        Some(members[0].1)
    } else {
        member(members.drop_first(), key)
    }
}

/// `value.get(key)`: the member `key` of an object, `None` otherwise.
pub open spec fn get_key(value: Json, key: Seq<char>) -> Option<Json> {
    match value {
        Json::Object(m) => member(m@, key),
        _ => None,
    }
}

/// `value.get(i)`: the element `i` of an array, `None` otherwise.
pub open spec fn get_index(value: Json, i: int) -> Option<Json> {
    match value {
        Json::Array(v) => if 0 <= i < v@.len() {
            Some(v@[i])
        } else {
            None
        },
        _ => None,
    }
}

/// `get_key` lifted to an optional value.
pub open spec fn opt_key(value: Option<Json>, key: Seq<char>) -> Option<Json> {
    match value {
        Some(v) => get_key(v, key),
        None => None,
    }
}

/// `value.as_str()`.
pub open spec fn str_of(value: Json) -> Option<Seq<char>> {
    match value {
        Json::Str(s) => Some(s@),
        _ => None,
    }
}

/// `get_index` lifted to an optional value.
pub open spec fn opt_index(value: Option<Json>, i: int) -> Option<Json> {
    match value {
        Some(v) => get_index(v, i),
        None => None,
    }
}

/// `as_str` lifted to an optional value.
pub open spec fn opt_str(value: Option<Json>) -> Option<Seq<char>> {
    match value {
        Some(v) => str_of(v),
        None => None,
    }
}

/// `as_f64` (as a bit pattern) lifted to an optional value.
pub open spec fn opt_number(value: Option<Json>) -> Option<u64> {
    match value {
        Some(Json::Number(b)) => Some(b),
        _ => None,
    }
}

/// Whether an optional reference holds exactly the optional value `o`.
pub open spec fn same_opt(r: Option<&Json>, o: Option<Json>) -> bool {
    match r {
        Some(x) => o == Some(*x),
        None => o is None,
    }
}

impl Json {
    /// The member `key` of an object (`None` for other values).
    pub fn get(&self, key: &str) -> (r: Option<&Json>)
        ensures
            same_opt(r, get_key(*self, key@)),
    {
        match self {
            Json::Object(m) => {
                let k = chars_of(key);
                let mut i: usize = 0;
                assert(m@.subrange(0, m@.len() as int) =~= m@);
                while i < m.len()
                    invariant
                        i <= m@.len(),
                        k@ == key@,
                        *self == Json::Object(*m),
                        member(m@, key@) == member(m@.subrange(i as int, m@.len() as int), key@),
                    decreases m.len() - i,
                {
                    let name = chars_of(m[i].0.as_str());
                    assert(m@.subrange(i as int, m@.len() as int).drop_first() =~= m@.subrange(
                        i + 1,
                        m@.len() as int,
                    ));
                    assert(m@.subrange(i as int, m@.len() as int)[0] == m@[i as int]);
                    if chars_eq(&name, &k) {
                        return Some(&m[i].1);
                    }
                    i = i + 1;
                }
                None
            },
            _ => None,
        }
    }

    /// The element `i` of an array (`None` for other values).
    pub fn at(&self, i: usize) -> (r: Option<&Json>)
        ensures
            same_opt(r, get_index(*self, i as int)),
    {
        match self {
            Json::Array(v) => if i < v.len() {
                Some(&v[i])
            } else {
                None
            },
            _ => None,
        }
    }

    /// The text of a string value.
    pub fn as_str(&self) -> (r: Option<&String>)
        ensures
            match r {
                Some(s) => str_of(*self) == Some(s@),
                None => str_of(*self) is None,
            },
    {
        match self {
            Json::Str(s) => Some(s),
            _ => None,
        }
    }

    /// The bit pattern of a number value.
    pub fn as_number(&self) -> (r: Option<u64>)
        ensures
            r == opt_number(Some(*self)),
    {
        match self {
            Json::Number(b) => Some(*b),
            _ => None,
        }
    }

    /// The elements of an array value.
    pub fn as_array(&self) -> (r: Option<&Vec<Json>>)
        ensures
            match r {
                Some(v) => *self == Json::Array(*v),
                None => !(*self is Array),
            },
    {
        match self {
            Json::Array(v) => Some(v),
            _ => None,
        }
    }

    /// Whether this is an object.
    pub fn is_object(&self) -> (r: bool)
        ensures
            r == (*self is Object),
    {
        match self {
            Json::Object(_) => true,
            _ => false,
        }
    }
}

/// A string value with the given text.
pub fn json_text(s: &str) -> (r: Json)
    ensures
        r.deep() == JsonV::Str(s@),
{
    let v = chars_of(s);
    Json::Str(string_of(&v))
}

/// `serde_json::from_str::<serde_json::Value>` applied to a text: the parsed
/// value, or `None` where the text is not one JSON document.
pub uninterp spec fn json_parse(text: Seq<char>) -> Option<Json>;

#[verifier::external_type_specification]
#[verifier::external_body]
pub struct ExValue(serde_json::Value);

/// Converts a `serde_json::Value` to the library's JSON value: members in
/// the order in which the value's map yields them, numbers taken by
/// `Number::as_f64`.
#[verifier::external_body]
fn from_serde(v: &serde_json::Value) -> Json {
    match v {
        serde_json::Value::Null => Json::Null,
        serde_json::Value::Bool(b) => Json::Bool(*b),
        serde_json::Value::Number(n) => Json::Number(n.as_f64().unwrap_or_default().to_bits()),
        serde_json::Value::String(s) => Json::Str(s.clone()),
        serde_json::Value::Array(a) => Json::Array(a.iter().map(from_serde).collect()),
        serde_json::Value::Object(m) => Json::Object(
            m.iter().map(|(k, x)| (k.clone(), from_serde(x))).collect(),
        ),
    }
}

/// Parses `text` with `serde_json::from_str::<serde_json::Value>`.
///
/// The result is named by `json_parse`, of which nothing else is claimed:
/// it is `serde_json`'s parser that decides which texts are JSON.
#[verifier::external_body]
pub(crate) fn parse_json(text: &str) -> (r: Option<Json>)
    ensures
        r == json_parse(text@),
{
    serde_json::from_str::<serde_json::Value>(text).ok().map(|v| from_serde(&v))
}

} // verus!
