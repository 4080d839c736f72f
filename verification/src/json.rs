//! A JSON document model: the values that the Postman API exchanges,
//! with numbers kept as their decimal text.

use vstd::prelude::*;
use crate::text::{text_eq, push_str};

verus! {

/// A JSON value.
#[derive(Debug, PartialEq)]
pub enum JsonValue {
    Null,
    Bool(bool),
    /// A number, as its JSON text.
    Number(String),
    Str(String),
    Array(Vec<JsonValue>),
    Object(Vec<JsonMember>),
}

/// One `"key": value` entry of a JSON object.
#[derive(Debug, PartialEq)]
pub struct JsonMember {
    pub key: String,
    pub value: JsonValue,
}

/// The mathematical model of a JSON value.
pub enum Json {
    Null,
    Bool(bool),
    Number(Seq<char>),
    Str(Seq<char>),
    Array(Seq<Json>),
    Object(Seq<(Seq<char>, Json)>),
}

pub open spec fn view_members(ms: Seq<JsonMember>) -> Seq<(Seq<char>, Json)>
    decreases ms,
{
    if ms.len() == 0 {
        Seq::empty()
    } else {
        seq![(ms[0].key@, ms[0].value.view_json())] + view_members(ms.drop_first())
    }
}

pub open spec fn view_values(vs: Seq<JsonValue>) -> Seq<Json>
    decreases vs,
{
    if vs.len() == 0 {
        Seq::empty()
    } else {
        seq![vs[0].view_json()] + view_values(vs.drop_first())
    }
}

impl JsonValue {
    pub open spec fn view_json(&self) -> Json
        decreases self,
    {
        match self {
            JsonValue::Null => Json::Null,
            JsonValue::Bool(b) => Json::Bool(*b),
            JsonValue::Number(n) => Json::Number(n@),
            JsonValue::Str(s) => Json::Str(s@),
            JsonValue::Array(v) => Json::Array(view_values(v@)),
            JsonValue::Object(ms) => Json::Object(view_members(ms@)),
        }
    }
}


/// The first value stored under `key` among `ms`.
pub open spec fn lookup(ms: Seq<(Seq<char>, Json)>, key: Seq<char>) -> Option<Json>
    decreases ms.len(),
{
    if ms.len() == 0 {
        None
    } else if ms[0].0 == key {
        Some(ms[0].1)
    } else {
        lookup(ms.drop_first(), key)
    }
}

impl Json {
    /// The member `key` of an object; `None` for a missing key or a non-object.
    pub open spec fn get(self, key: Seq<char>) -> Option<Json> {
        match self {
            Json::Object(ms) => lookup(ms, key),
            _ => None,
        }
    }

    pub open spec fn as_str(self) -> Option<Seq<char>> {
        match self {
            Json::Str(s) => Some(s),
            _ => None,
        }
    }

    pub open spec fn as_bool(self) -> Option<bool> {
        match self {
            Json::Bool(b) => Some(b),
            _ => None,
        }
    }

    pub open spec fn as_array(self) -> Option<Seq<Json>> {
        match self {
            Json::Array(a) => Some(a),
            _ => None,
        }
    }

    /// `self.get(key)` read as a string.
    pub open spec fn get_str(self, key: Seq<char>) -> Option<Seq<char>> {
        match self.get(key) {
            Some(v) => v.as_str(),
            None => None,
        }
    }

    /// `self.get(key)` read as a boolean.
    pub open spec fn get_bool(self, key: Seq<char>) -> Option<bool> {
        match self.get(key) {
            Some(v) => v.as_bool(),
            None => None,
        }
    }

    /// `self.get(key)` read as an array.
    pub open spec fn get_array(self, key: Seq<char>) -> Option<Seq<Json>> {
        match self.get(key) {
            Some(v) => v.as_array(),
            None => None,
        }
    }
}

/// The model of an optional borrowed value.
pub open spec fn opt_json(o: Option<&JsonValue>) -> Option<Json> {
    match o {
        Some(v) => Some(v.view_json()),
        None => None,
    }
}

/// The model of an optional owned value.
pub open spec fn opt_view(o: Option<JsonValue>) -> Option<Json> {
    match o {
        Some(v) => Some(v.view_json()),
        None => None,
    }
}

/// The model of an optional borrowed string.
pub open spec fn opt_text(o: Option<&String>) -> Option<Seq<char>> {
    match o {
        Some(s) => Some(s@),
        None => None,
    }
}

pub proof fn lemma_view_members(ms: Seq<JsonMember>)
    ensures
        view_members(ms).len() == ms.len(),
        forall|j: int|
            0 <= j < ms.len() ==> #[trigger] view_members(ms)[j] == (
                ms[j].key@,
                ms[j].value.view_json(),
            ),
    decreases ms.len(),
{
    if ms.len() > 0 {
        lemma_view_members(ms.drop_first());
        assert forall|j: int| 0 <= j < ms.len() implies #[trigger] view_members(ms)[j] == (
            ms[j].key@,
            ms[j].value.view_json(),
        ) by {
            if j > 0 {
                assert(ms.drop_first()[j - 1] == ms[j]);
            }
        }
    }
}

pub proof fn lemma_view_values(vs: Seq<JsonValue>)
    ensures
        view_values(vs).len() == vs.len(),
        forall|j: int| 0 <= j < vs.len() ==> #[trigger] view_values(vs)[j] == vs[j].view_json(),
    decreases vs.len(),
{
    if vs.len() > 0 {
        lemma_view_values(vs.drop_first());
        assert forall|j: int| 0 <= j < vs.len() implies #[trigger] view_values(vs)[j]
            == vs[j].view_json() by {
            if j > 0 {
                assert(vs.drop_first()[j - 1] == vs[j]);
            }
        }
    }
}

impl JsonValue {
    /// The member `key` of an object (`Value::get` with a string key).
    pub fn get(&self, key: &str) -> (r: Option<&JsonValue>)
        ensures
            opt_json(r) == self.view_json().get(key@),
    {
        match self {
            JsonValue::Object(ms) => {
                let ghost model = view_members(ms@);
                proof {
                    lemma_view_members(ms@);
                    assert(model.skip(0) =~= model);
                }
                let n = ms.len();
                let mut i: usize = 0;
                while i < n
                    invariant
                        n == ms@.len(),
                        model == view_members(ms@),
                        self.view_json() == Json::Object(model),
                        model.len() == n,
                        forall|j: int|
                            0 <= j < n ==> #[trigger] model[j] == (
                                ms@[j].key@,
                                ms@[j].value.view_json(),
                            ),
                        i <= n,
                        lookup(model, key@) == lookup(model.skip(i as int), key@),
                    decreases n - i,
                {
                    let ghost rest = model.skip(i as int);
                    assert(rest[0] == model[i as int]);
                    if text_eq(ms[i].key.as_str(), key) {
                        assert(lookup(rest, key@) == Some(rest[0].1));
                        return Some(&ms[i].value);
                    }
                    assert(rest.drop_first() =~= model.skip(i + 1));
                    i = i + 1;
                }
                None
            },
            _ => None,
        }
    }

    pub fn as_str(&self) -> (r: Option<&String>)
        ensures
            opt_text(r) == self.view_json().as_str(),
    {
        match self {
            JsonValue::Str(s) => Some(s),
            _ => None,
        }
    }

    pub fn as_bool(&self) -> (r: Option<bool>)
        ensures
            r == self.view_json().as_bool(),
    {
        match self {
            JsonValue::Bool(b) => Some(*b),
            _ => None,
        }
    }

    pub fn as_array(&self) -> (r: Option<&Vec<JsonValue>>)
        ensures
            r is Some <==> self.view_json().as_array() is Some,
            r matches Some(a) ==> self.view_json().as_array() == Some(view_values(a@)),
    {
        match self {
            JsonValue::Array(a) => Some(a),
            _ => None,
        }
    }

    /// `get(key)` followed by `as_str`.
    pub fn get_str(&self, key: &str) -> (r: Option<&String>)
        ensures
            opt_text(r) == self.view_json().get_str(key@),
    {
        match self.get(key) {
            Some(v) => v.as_str(),
            None => None,
        }
    }

    /// `get(key)` followed by `as_bool`.
    pub fn get_bool(&self, key: &str) -> (r: Option<bool>)
        ensures
            r == self.view_json().get_bool(key@),
    {
        match self.get(key) {
            Some(v) => v.as_bool(),
            None => None,
        }
    }

    /// `get(key)` followed by `as_array`.
    pub fn get_array(&self, key: &str) -> (r: Option<&Vec<JsonValue>>)
        ensures
            r is Some <==> self.view_json().get_array(key@) is Some,
            r matches Some(a) ==> self.view_json().get_array(key@) == Some(view_values(a@)),
    {
        match self.get(key) {
            Some(v) => v.as_array(),
            None => None,
        }
    }
}


/// A string value holding `t`.
pub fn jstr(t: &str) -> (v: JsonValue)
    ensures
        v.view_json() == Json::Str(t@),
{
    let mut s = String::new();
    push_str(&mut s, t);
    JsonValue::Str(s)
}

/// The member `key: value`.
pub fn member(key: &str, value: JsonValue) -> (m: JsonMember)
    ensures
        m.key@ == key@,
        m.value == value,
{
    let mut k = String::new();
    push_str(&mut k, key);
    JsonMember { key: k, value }
}

/// An object with the given members, in order.
pub fn object(members: Vec<JsonMember>) -> (v: JsonValue)
    ensures
        v.view_json() == Json::Object(view_members(members@)),
{
    JsonValue::Object(members)
}

/// Appends the member `key: value`.
pub fn push_member(ms: &mut Vec<JsonMember>, key: &str, value: JsonValue)
    ensures
        view_members(final(ms)@) == view_members(old(ms)@).push((key@, value.view_json())),
{
    let ghost before = ms@;
    let m = member(key, value);
    ms.push(m);
    proof {
        lemma_view_members(before);
        lemma_view_members(ms@);
        assert(view_members(ms@) =~= view_members(before).push((key@, value.view_json())));
    }
}

/// No members.
pub proof fn lemma_view_members_empty()
    ensures
        view_members(Seq::<JsonMember>::empty()) == Seq::<(Seq<char>, Json)>::empty(),
{
    assert(view_members(Seq::<JsonMember>::empty()) =~= Seq::<(Seq<char>, Json)>::empty());
}

/// No values.
pub proof fn lemma_view_values_empty()
    ensures
        view_values(Seq::<JsonValue>::empty()) == Seq::<Json>::empty(),
{
    assert(view_values(Seq::<JsonValue>::empty()) =~= Seq::<Json>::empty());
}

} // verus!
