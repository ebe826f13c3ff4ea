//! A JSON document model: the values that rule filters, reaction payloads and webhook
//! contexts hold.
use vstd::prelude::*;
use crate::shared::text::str_eq;

verus! {

/// A JSON number as `serde_json` keeps it: a non-negative integer, a negative
/// integer, or a finite floating-point number given by the shortest text that
/// `serde_json` writes for it (which determines the number).
#[derive(Debug)]
pub enum JsonNumber {
    PosInt(u64),
    NegInt(i64),
    Float(String),
}

/// A JSON value. Object members keep the order in which they were given; lookups
/// take the first member with the key.
#[derive(Debug)]
pub enum JsonValue {
    Null,
    Bool(bool),
    Number(JsonNumber),
    String(String),
    Array(Vec<JsonValue>),
    Object(Vec<(String, JsonValue)>),
}

/// Whether a float's text denotes zero (`0.0` or `-0.0`, which `f64 ==` holds equal).
pub open spec fn float_text_zero(t: Seq<char>) -> bool {
    t == seq!['0', '.', '0'] || t == seq!['-', '0', '.', '0']
}

/// Equality of numbers: integers by value, floats as `f64 ==` compares them.
pub open spec fn number_eq(a: JsonNumber, b: JsonNumber) -> bool {
    match (a, b) {
        (JsonNumber::PosInt(x), JsonNumber::PosInt(y)) => x == y,
        (JsonNumber::NegInt(x), JsonNumber::NegInt(y)) => x == y,
        (JsonNumber::Float(x), JsonNumber::Float(y)) => x@ == y@ || (float_text_zero(x@)
            && float_text_zero(y@)),
        _ => false,
    }
}

/// Equality of JSON values: same kind, same scalar, elements and members equal in order.
pub open spec fn json_eq(a: JsonValue, b: JsonValue) -> bool
    decreases a,
{
    match (a, b) {
        (JsonValue::Null, JsonValue::Null) => true,
        (JsonValue::Bool(x), JsonValue::Bool(y)) => x == y,
        (JsonValue::Number(x), JsonValue::Number(y)) => number_eq(x, y),
        (JsonValue::String(x), JsonValue::String(y)) => x@ == y@,
        (JsonValue::Array(xs), JsonValue::Array(ys)) => xs@.len() == ys@.len() && forall|i: int|
            0 <= i < xs@.len() ==> json_eq(#[trigger] xs@[i], ys@[i]),
        (JsonValue::Object(xs), JsonValue::Object(ys)) => xs@.len() == ys@.len() && forall|i: int|
            0 <= i < xs@.len() ==> (#[trigger] xs@[i]).0@ == ys@[i].0@ && json_eq(xs@[i].1, ys@[i].1),
        _ => false,
    }
}

fn is_zero_text(t: &str) -> (r: bool)
    ensures
        r == float_text_zero(t@),
{
    let n = t.unicode_len();
    if n == 3 {
        let r = t.get_char(0) == '0' && t.get_char(1) == '.' && t.get_char(2) == '0';
        assert(r ==> t@ =~= seq!['0', '.', '0']);
        r
    } else if n == 4 {
        let r = t.get_char(0) == '-' && t.get_char(1) == '0' && t.get_char(2) == '.'
            && t.get_char(3) == '0';
        assert(r ==> t@ =~= seq!['-', '0', '.', '0']);
        r
    } else {
        false
    }
}

fn numbers_equal(a: &JsonNumber, b: &JsonNumber) -> (r: bool)
    ensures
        r == number_eq(*a, *b),
{
    match (a, b) {
        (JsonNumber::PosInt(x), JsonNumber::PosInt(y)) => *x == *y,
        (JsonNumber::NegInt(x), JsonNumber::NegInt(y)) => *x == *y,
        (JsonNumber::Float(x), JsonNumber::Float(y)) => str_eq(x.as_str(), y.as_str()) || (
        is_zero_text(x.as_str()) && is_zero_text(y.as_str())),
        _ => false,
    }
}

/// Whether two JSON values are equal (as `serde_json::Value`'s `==` compares documents
/// whose object members come in the same order).
pub fn values_equal(a: &JsonValue, b: &JsonValue) -> (r: bool)
    ensures
        r == json_eq(*a, *b),
    decreases a,
{
    match (a, b) {
        (JsonValue::Null, JsonValue::Null) => true,
        (JsonValue::Bool(x), JsonValue::Bool(y)) => *x == *y,
        (JsonValue::Number(x), JsonValue::Number(y)) => numbers_equal(x, y),
        (JsonValue::String(x), JsonValue::String(y)) => str_eq(x.as_str(), y.as_str()),
        (JsonValue::Array(xs), JsonValue::Array(ys)) => {
            if xs.len() != ys.len() {
                return false;
            }
            let mut i: usize = 0;
            while i < xs.len()
                invariant
                    xs@.len() == ys@.len(),
                    i <= xs@.len(),
                    *a == JsonValue::Array(*xs),
                    *b == JsonValue::Array(*ys),
                    forall|k: int| 0 <= k < i ==> json_eq(#[trigger] xs@[k], ys@[k]),
                decreases xs@.len() - i,
            {
                proof {
                    assert(decreases_to!(*a => (*a)->Array_0));
                    assert(decreases_to!((*a)->Array_0 => (*a)->Array_0@));
                    assert(decreases_to!((*a)->Array_0@ => (*a)->Array_0@[i as int]));
                }
                if !values_equal(&xs[i], &ys[i]) {
                    return false;
                }
                i = i + 1;
            }
            true
        },
        (JsonValue::Object(xs), JsonValue::Object(ys)) => {
            if xs.len() != ys.len() {
                return false;
            }
            let mut i: usize = 0;
            while i < xs.len()
                invariant
                    xs@.len() == ys@.len(),
                    i <= xs@.len(),
                    *a == JsonValue::Object(*xs),
                    *b == JsonValue::Object(*ys),
                    forall|k: int|
                        0 <= k < i ==> (#[trigger] xs@[k]).0@ == ys@[k].0@ && json_eq(
                            xs@[k].1,
                            ys@[k].1,
                        ),
                decreases xs@.len() - i,
            {
                proof {
                    assert(decreases_to!(*a => (*a)->Object_0));
                    assert(decreases_to!((*a)->Object_0 => (*a)->Object_0@));
                    assert(decreases_to!((*a)->Object_0@ => (*a)->Object_0@[i as int]));
                    assert(decreases_to!((*a)->Object_0@[i as int] => (*a)->Object_0@[i as int].1));
                }
                if !str_eq(xs[i].0.as_str(), ys[i].0.as_str()) {
                    return false;
                }
                if !values_equal(&xs[i].1, &ys[i].1) {
                    return false;
                }
                i = i + 1;
            }
            true
        },
        _ => false,
    }
}

/// The value of the first member named `key`.
pub open spec fn lookup(fields: Seq<(String, JsonValue)>, key: Seq<char>) -> Option<JsonValue>
    decreases fields.len(),
{
    if fields.len() == 0 {
        None
    } else if fields[0].0@ == key {
        Some(fields[0].1)
    } else {
        lookup(fields.drop_first(), key)
    }
}

/// What `value.get(key)` gives: the member of an object, nothing for other values.
pub open spec fn member(v: JsonValue, key: Seq<char>) -> Option<JsonValue> {
    match v {
        JsonValue::Object(fields) => lookup(fields@, key),
        _ => None,
    }
}

/// The text of a string value.
pub open spec fn string_of(v: JsonValue) -> Option<Seq<char>> {
    match v {
        JsonValue::String(s) => Some(s@),
        _ => None,
    }
}

impl JsonValue {
    /// The member named `key` when the value is an object.
    pub fn get(&self, key: &str) -> (r: Option<&JsonValue>)
        ensures
            match r {
                Some(x) => member(*self, key@) == Some(*x),
                None => member(*self, key@) is None,
            },
    {
        match self {
            JsonValue::Object(fields) => {
                let mut i: usize = 0;
                assert(fields@.subrange(0, fields@.len() as int) =~= fields@);
                while i < fields.len()
                    invariant
                        *self == JsonValue::Object(*fields),
                        i <= fields@.len(),
                        lookup(fields@, key@) == lookup(fields@.subrange(i as int, fields@.len() as int), key@),
                    decreases fields@.len() - i,
                {
                    let ghost rest = fields@.subrange(i as int, fields@.len() as int);
                    assert(rest.drop_first() =~= fields@.subrange(i + 1, fields@.len() as int));
                    if str_eq(fields[i].0.as_str(), key) {
                        return Some(&fields[i].1);
                    }
                    i = i + 1;
                }
                None
            },
            _ => None,
        }
    }

    /// The text of a string value.
    pub fn as_str(&self) -> (r: Option<&str>)
        ensures
            match r {
                Some(s) => string_of(*self) == Some(s@),
                None => string_of(*self) is None,
            },
    {
        match self {
            JsonValue::String(s) => Some(s.as_str()),
            _ => None,
        }
    }
}

/// The `serde_json::Value` type, carried opaquely by the conversion below.
#[verifier::external_type_specification]
#[verifier::external_body]
pub struct ExSerdeJsonValue(serde_json::Value);

/// Builds the `serde_json::Value` that a JSON value stands for (no contract: the
/// result is opaque here; it only feeds `json_text`).
#[verifier::external_body]
fn to_serde_value(v: &JsonValue) -> serde_json::Value {
    match v {
        JsonValue::Null => serde_json::Value::Null,
        JsonValue::Bool(b) => serde_json::Value::Bool(*b),
        JsonValue::Number(JsonNumber::PosInt(n)) => serde_json::Value::from(*n),
        JsonValue::Number(JsonNumber::NegInt(n)) => serde_json::Value::from(*n),
        JsonValue::Number(JsonNumber::Float(t)) => serde_json::from_str(t).unwrap_or_default(),
        JsonValue::String(s) => serde_json::Value::String(s.clone()),
        JsonValue::Array(xs) => serde_json::Value::Array(xs.iter().map(to_serde_value).collect()),
        JsonValue::Object(fs) => serde_json::Value::Object(
            fs.iter().map(|(k, x)| (k.clone(), to_serde_value(x))).collect(),
        ),
    }
}

/// The compact JSON text that `serde_json` writes for a value (`Value`'s `Display`).
pub uninterp spec fn serde_json_text(v: JsonValue) -> Seq<char>;

/// Calls `serde_json::Value`'s `Display` (compact JSON text) on the value's
/// `serde_json` form. The contract names the text `serde_json_text(v)`; nothing more
/// of it is stated.
#[verifier::external_body]
pub fn json_text(v: &JsonValue) -> (r: String)
    ensures
        r@ == serde_json_text(*v),
{
    to_serde_value(v).to_string()
}

} // verus!
