//! A structured value in the shape of JSON, and the accessors the decoders use.

use vstd::prelude::*;
use vstd::string::*;
use crate::lists::reversed;
use crate::text::str_eq;

verus! {

/// A JSON number, as exact as the text gave it.
#[derive(Clone, Copy, Debug, PartialEq, Eq, Structural)]
pub enum Number {
    /// An integer that is zero or more.
    PosInt(u64),
    /// An integer below zero.
    NegInt(i64),
    /// Any other number, held as its IEEE-754 binary64 bit pattern.
    Float(u64),
}

/// `serde_json::Value`: what `serde_json` parses a text into.
#[verifier::external_type_specification]
#[verifier::external_body]
pub struct ExOutsideValue(serde_json::Value);

/// What `serde_json::from_str` makes of a text: the value it parses to, or
/// nothing where it rejects the text.
pub uninterp spec fn parsed(text: Seq<char>) -> Option<Json>;

/// What a `serde_json::Value` holds.
pub uninterp spec fn held(v: serde_json::Value) -> Json;

/// How deep the lists and objects in a `serde_json::Value` nest.
pub uninterp spec fn nesting(v: serde_json::Value) -> nat;

/// The top level of a `serde_json::Value`, with its members still to be
/// opened.
enum Opened {
    Null,
    Bool(bool),
    Number(Number),
    Text(String),
    Array(Vec<serde_json::Value>),
    Object(Vec<(String, serde_json::Value)>),
}

/// Calls `serde_json::from_str` for a `serde_json::Value`. The contract claims
/// that the outcome is a function of the text: `parsed`.
#[verifier::external_body]
fn parse_text(text: &str) -> (r: Option<serde_json::Value>)
    ensures
        match r {
            Some(v) => parsed(text@) == Some(held(v)),
            None => parsed(text@) is None,
        },
{
    serde_json::from_str::<serde_json::Value>(text).ok()
}

/// Takes a `serde_json::Value` apart by its variant: null, a boolean and a
/// string as they are, the items of a list in order, and the members of an
/// object in the order in which its map hands them out. A number is told apart
/// by what `serde_json::Number` reports of it: the integer of `as_u64` where
/// there is one, else the integer of `as_i64` where there is one, else the bit
/// pattern of the float of `as_f64`. Each item and member nests less deep than
/// the whole.
#[verifier::external_body]
fn open_value(v: serde_json::Value) -> (r: Opened)
    ensures
        match r {
            Opened::Null => held(v) == Json::Null,
            Opened::Bool(b) => held(v) == Json::Bool(b),
            Opened::Number(n) => held(v) == Json::Number(n),
            Opened::Text(s) => held(v) == Json::Text(s@),
            Opened::Array(items) => held(v) == Json::Array(items@.map_values(|x| held(x)))
                && forall|i: int| 0 <= i < items@.len() ==> nesting(#[trigger] items@[i]) < nesting(v),
            Opened::Object(members) => held(v) == Json::Object(
                members@.map_values(|m: (String, serde_json::Value)| (m.0@, held(m.1))),
            ) && forall|i: int|
                0 <= i < members@.len() ==> nesting((#[trigger] members@[i]).1) < nesting(v),
        },
{
    match v {
        serde_json::Value::Null => Opened::Null,
        serde_json::Value::Bool(b) => Opened::Bool(b),
        serde_json::Value::Number(n) => Opened::Number(match (n.as_u64(), n.as_i64()) {
            (Some(u), _) => Number::PosInt(u),
            (None, Some(i)) => Number::NegInt(i),
            (None, None) => Number::Float(n.as_f64().unwrap_or_default().to_bits()),
        }),
        serde_json::Value::String(s) => Opened::Text(s),
        serde_json::Value::Array(a) => Opened::Array(a),
        serde_json::Value::Object(m) => Opened::Object(m.into_iter().collect()),
    }
}

/// The mathematical model of a structured value.
pub enum Json {
    Null,
    Bool(bool),
    Number(Number),
    Text(Seq<char>),
    Array(Seq<Json>),
    Object(Seq<(Seq<char>, Json)>),
}

/// A structured value: null, boolean, number, string, ordered list, or ordered
/// list of key-value pairs.
#[derive(Debug, PartialEq)]
pub enum JsonValue {
    Null,
    Bool(bool),
    Number(Number),
    String(String),
    Array(Vec<JsonValue>),
    Object(Vec<(String, JsonValue)>),
}

/// The model of one value.
pub open spec fn json_of(v: JsonValue) -> Json
    decreases v,
{
    match v {
        JsonValue::Null => Json::Null,
        JsonValue::Bool(b) => Json::Bool(b),
        JsonValue::Number(n) => Json::Number(n),
        JsonValue::String(s) => Json::Text(s@),
        JsonValue::Array(items) => Json::Array(items_of(items@)),
        JsonValue::Object(fields) => Json::Object(fields_of(fields@)),
    }
}

/// The models of a list of values, in order.
pub open spec fn items_of(items: Seq<JsonValue>) -> Seq<Json>
    decreases items,
{
    if items.len() == 0 {
        Seq::empty()
    } else {
        items_of(items.drop_last()).push(json_of(items.last()))
    }
}

/// The models of a list of key-value pairs, in order.
pub open spec fn fields_of(fields: Seq<(String, JsonValue)>) -> Seq<(Seq<char>, Json)>
    decreases fields,
{
    if fields.len() == 0 {
        Seq::empty()
    } else {
        fields_of(fields.drop_last()).push((fields.last().0@, json_of(fields.last().1)))
    }
}

/// `items_of` maps `json_of` over the list, position by position.
pub proof fn lemma_items_of(items: Seq<JsonValue>)
    ensures
        items_of(items).len() == items.len(),
        forall|k: int| 0 <= k < items.len() ==> #[trigger] items_of(items)[k] == json_of(items[k]),
    decreases items.len(),
{
    if items.len() > 0 {
        lemma_items_of(items.drop_last());
    }
}

/// `fields_of` maps each pair to its key's characters and its value's model.
pub proof fn lemma_fields_of(fields: Seq<(String, JsonValue)>)
    ensures
        fields_of(fields).len() == fields.len(),
        forall|k: int|
            0 <= k < fields.len() ==> #[trigger] fields_of(fields)[k] == (
                fields[k].0@,
                json_of(fields[k].1),
            ),
    decreases fields.len(),
{
    if fields.len() > 0 {
        lemma_fields_of(fields.drop_last());
    }
}

impl View for JsonValue {
    type V = Json;

    open spec fn view(&self) -> Json {
        json_of(*self)
    }
}

/// The value under the first occurrence of `key` among `fields`, if any.
pub open spec fn lookup(fields: Seq<(Seq<char>, Json)>, key: Seq<char>) -> Option<Json>
    decreases fields.len(),
{
    if fields.len() == 0 {
        None
    } else if fields[0].0 == key {
        Some(fields[0].1)
    } else {
        lookup(fields.drop_first(), key)
    }
}

impl Json {
    /// The member `key` of an object; nothing for a missing key or a value that
    /// is no object.
    pub open spec fn get(self, key: Seq<char>) -> Option<Json> {
        match self {
            Json::Object(fields) => lookup(fields, key),
            _ => None,
        }
    }

    /// The characters of a string value.
    pub open spec fn as_text(self) -> Option<Seq<char>> {
        match self {
            Json::Text(s) => Some(s),
            _ => None,
        }
    }

    /// The number of a number value.
    pub open spec fn as_number(self) -> Option<Number> {
        match self {
            Json::Number(n) => Some(n),
            _ => None,
        }
    }

    /// The items of a list value.
    pub open spec fn as_array(self) -> Option<Seq<Json>> {
        match self {
            Json::Array(items) => Some(items),
            _ => None,
        }
    }

    /// The string under `key`, if `key` is there and holds a string.
    pub open spec fn text_at(self, key: Seq<char>) -> Option<Seq<char>> {
        match self.get(key) {
            Some(v) => v.as_text(),
            None => None,
        }
    }

    /// The number under `key`, if `key` is there and holds a number.
    pub open spec fn number_at(self, key: Seq<char>) -> Option<Number> {
        match self.get(key) {
            Some(v) => v.as_number(),
            None => None,
        }
    }
}

/// The value that a `serde_json::Value` holds, as a [`JsonValue`].
fn from_outside(v: serde_json::Value) -> (r: JsonValue)
    ensures
        r@ == held(v),
    decreases nesting(v),
{
    match open_value(v) {
        Opened::Null => JsonValue::Null,
        Opened::Bool(b) => JsonValue::Bool(b),
        Opened::Number(n) => JsonValue::Number(n),
        Opened::Text(s) => JsonValue::String(s),
        Opened::Array(items) => {
            let ghost all = items@;
            let mut rest = reversed(items);
            let mut out: Vec<JsonValue> = Vec::new();
            while rest.len() > 0
                invariant
                    rest@.len() + out@.len() == all.len(),
                    rest@ == all.reverse().subrange(0, rest@.len() as int),
                    forall|i: int| 0 <= i < all.len() ==> nesting(#[trigger] all[i]) < nesting(v),
                    forall|k: int| 0 <= k < out@.len() ==> (#[trigger] out@[k])@ == held(all[k]),
                decreases rest@.len(),
            {
                let item = rest.pop().unwrap();
                assert(item == all[out@.len() as int]);
                assert(rest@ =~= all.reverse().subrange(0, rest@.len() as int));
                out.push(from_outside(item));
            }
            proof {
                lemma_items_of(out@);
                assert(items_of(out@) =~= all.map_values(|x| held(x)));
            }
            JsonValue::Array(out)
        },
        Opened::Object(members) => {
            let ghost all = members@;
            let mut rest = reversed(members);
            let mut out: Vec<(String, JsonValue)> = Vec::new();
            while rest.len() > 0
                invariant
                    rest@.len() + out@.len() == all.len(),
                    rest@ == all.reverse().subrange(0, rest@.len() as int),
                    forall|i: int|
                        0 <= i < all.len() ==> nesting((#[trigger] all[i]).1) < nesting(v),
                    forall|k: int|
                        0 <= k < out@.len() ==> (#[trigger] out@[k]).0@ == all[k].0@ && out@[k].1@
                            == held(all[k].1),
                decreases rest@.len(),
            {
                let member = rest.pop().unwrap();
                assert(member == all[out@.len() as int]);
                assert(rest@ =~= all.reverse().subrange(0, rest@.len() as int));
                let value = from_outside(member.1);
                out.push((member.0, value));
            }
            proof {
                lemma_fields_of(out@);
                assert(fields_of(out@) =~= all.map_values(
                    |m: (String, serde_json::Value)| (m.0@, held(m.1)),
                ));
            }
            JsonValue::Object(out)
        },
    }
}

impl JsonValue {
    /// Parses a JSON text; `None` where the text is no JSON document.
    pub fn parse(text: &str) -> (r: Option<JsonValue>)
        ensures
            match r {
                Some(v) => parsed(text@) == Some(v@),
                None => parsed(text@) is None,
            },
    {
        match parse_text(text) {
            Some(v) => Some(from_outside(v)),
            None => None,
        }
    }

    /// A deep copy.
    pub fn duplicate(&self) -> (r: JsonValue)
        ensures
            r@ == self@,
        decreases self,
    {
        match self {
            JsonValue::Null => JsonValue::Null,
            JsonValue::Bool(b) => JsonValue::Bool(*b),
            JsonValue::Number(n) => JsonValue::Number(*n),
            JsonValue::String(s) => JsonValue::String(s.clone()),
            JsonValue::Array(items) => {
                let mut out: Vec<JsonValue> = Vec::new();
                let mut i: usize = 0;
                while i < items.len()
                    invariant
                        i <= items.len(),
                        out@.len() == i,
                        *self == JsonValue::Array(*items),
                        forall|k: int| 0 <= k < i ==> json_of(out@[k]) == json_of(items@[k]),
                    decreases items.len() - i,
                {
                    proof {
                        vstd::std_specs::vec::axiom_vec_index_decreases(*items, i as int);
                        assert(decreases_to!(*self => self->Array_0));
                        assert(decreases_to!(*items => items[i as int]));
                    }
                    let item = items[i].duplicate();
                    out.push(item);
                    i += 1;
                }
                proof {
                    lemma_items_of(items@);
                    lemma_items_of(out@);
                    assert(items_of(out@) =~= items_of(items@));
                }
                JsonValue::Array(out)
            },
            JsonValue::Object(fields) => {
                let mut out: Vec<(String, JsonValue)> = Vec::new();
                let mut i: usize = 0;
                while i < fields.len()
                    invariant
                        i <= fields.len(),
                        out@.len() == i,
                        *self == JsonValue::Object(*fields),
                        forall|k: int|
                            0 <= k < i ==> out@[k].0@ == fields@[k].0@ && json_of(out@[k].1)
                                == json_of(fields@[k].1),
                    decreases fields.len() - i,
                {
                    proof {
                        vstd::std_specs::vec::axiom_vec_index_decreases(*fields, i as int);
                        assert(decreases_to!(*self => self->Object_0));
                        assert(decreases_to!(*fields => fields[i as int]));
                        assert(decreases_to!(fields[i as int] => fields[i as int].1));
                    }
                    let value = fields[i].1.duplicate();
                    out.push((fields[i].0.clone(), value));
                    i += 1;
                }
                proof {
                    lemma_fields_of(fields@);
                    lemma_fields_of(out@);
                    assert(fields_of(out@) =~= fields_of(fields@));
                }
                JsonValue::Object(out)
            },
        }
    }

    /// The string slice of a string value.
    pub fn as_str(&self) -> (r: Option<&str>)
        ensures
            match r {
                Some(s) => self@.as_text() == Some(s@),
                None => self@.as_text() is None,
            },
    {
        match self {
            JsonValue::String(s) => Some(s.as_str()),
            _ => None,
        }
    }

    /// The number of a number value.
    pub fn as_number(&self) -> (r: Option<Number>)
        ensures
            match r {
                Some(n) => self@.as_number() == Some(n),
                None => self@.as_number() is None,
            },
    {
        match self {
            JsonValue::Number(n) => Some(*n),
            _ => None,
        }
    }

    /// The items of a list value.
    pub fn as_array(&self) -> (r: Option<&Vec<JsonValue>>)
        ensures
            match r {
                Some(items) => self@.as_array() == Some(items_of(items@)),
                None => self@.as_array() is None,
            },
    {
        match self {
            JsonValue::Array(items) => Some(items),
            _ => None,
        }
    }

    /// The string under `key`, if `key` is there and holds a string.
    pub fn text_at(&self, key: &str) -> (r: Option<&str>)
        ensures
            match r {
                Some(s) => self@.text_at(key@) == Some(s@),
                None => self@.text_at(key@) is None,
            },
    {
        match self.get(key) {
            Some(v) => v.as_str(),
            None => None,
        }
    }

    /// The number under `key`, if `key` is there and holds a number.
    pub fn number_at(&self, key: &str) -> (r: Option<Number>)
        ensures
            match r {
                Some(n) => self@.number_at(key@) == Some(n),
                None => self@.number_at(key@) is None,
            },
    {
        match self.get(key) {
            Some(v) => v.as_number(),
            None => None,
        }
    }

    /// Takes the member `key` out of an object, and drops the rest.
    pub fn into_member(self, key: &str) -> (r: Option<JsonValue>)
        ensures
            match r {
                Some(v) => self@.get(key@) == Some(v@),
                None => self@.get(key@) is None,
            },
    {
        match self {
            JsonValue::Object(fields) => {
                let mut fields = fields;
                let ghost all = fields@;
                let mut i: usize = 0;
                proof {
                    lemma_fields_of(all);
                    assert(fields_of(all).skip(0) =~= fields_of(all));
                }
                while i < fields.len()
                    invariant
                        i <= fields.len(),
                        fields@ == all,
                        self@ == Json::Object(fields_of(all)),
                        fields_of(all).len() == all.len(),
                        forall|k: int|
                            0 <= k < all.len() ==> #[trigger] fields_of(all)[k] == (
                                all[k].0@,
                                json_of(all[k].1),
                            ),
                        lookup(fields_of(all), key@) == lookup(fields_of(all).skip(i as int), key@),
                    decreases fields.len() - i,
                {
                    if str_eq(fields[i].0.as_str(), key) {
                        let member = fields.swap_remove(i);
                        proof {
                            assert(member == all[i as int]);
                            assert(fields_of(all).skip(i as int)[0] == fields_of(all)[i as int]);
                        }
                        return Some(member.1);
                    }
                    proof {
                        let rest = fields_of(all).skip(i as int);
                        assert(rest.drop_first() =~= fields_of(all).skip(i as int + 1));
                    }
                    i += 1;
                }
                None
            },
            _ => None,
        }
    }

    /// Takes the items out of a list value.
    pub fn into_items(self) -> (r: Option<Vec<JsonValue>>)
        ensures
            match r {
                Some(items) => self@.as_array() == Some(items_of(items@)),
                None => self@.as_array() is None,
            },
    {
        match self {
            JsonValue::Array(items) => Some(items),
            _ => None,
        }
    }

    /// Looks up `key` in an object.
    pub fn get(&self, key: &str) -> (r: Option<&JsonValue>)
        ensures
            match r {
                Some(v) => self@.get(key@) == Some(v@),
                None => self@.get(key@) is None,
            },
    {
        match self {
            JsonValue::Object(fields) => {
                let mut i: usize = 0;
                proof {
                    lemma_fields_of(fields@);
                    assert(self@->Object_0.skip(0) =~= self@->Object_0);
                }
                while i < fields.len()
                    invariant
                        i <= fields.len(),
                        self@ is Object,
                        self@->Object_0.len() == fields@.len(),
                        forall|k: int| 0 <= k < fields@.len() ==> self@->Object_0[k] == (fields@[k].0@, fields@[k].1@),
                        lookup(self@->Object_0, key@) == lookup(self@->Object_0.skip(i as int), key@),
                    decreases fields.len() - i,
                {
                    if str_eq(fields[i].0.as_str(), key) {
                        return Some(&fields[i].1);
                    }
                    proof {
                        let rest = self@->Object_0.skip(i as int);
                        assert(rest.drop_first() =~= self@->Object_0.skip(i as int + 1));
                    }
                    i += 1;
                }
                None
            },
            _ => None,
        }
    }
}

impl Clone for JsonValue {
    fn clone(&self) -> (r: Self)
        ensures
            r@ == self@,
    {
        self.duplicate()
    }
}

} // verus!
