//! The JSON document model that command arguments arrive in, and the
//! lookups that the argument readers make on it.

use vstd::prelude::*;

verus! {

/// A JSON number as a parser reports it: a non-negative integer, a negative
/// integer, or a number with a fraction or exponent (kept as its decimal text).
pub enum JsonNumber {
    PosInt(u64),
    NegInt(i64),
    Float(String),
}

/// A JSON document. Object members keep the order in which they were read.
pub enum JsonValue {
    Null,
    Bool(bool),
    Number(JsonNumber),
    Str(String),
    Array(Vec<JsonValue>),
    Object(Vec<(String, JsonValue)>),
}

/// The value paired with the first occurrence of `key` among `entries`.
pub open spec fn lookup<T>(entries: Seq<(String, T)>, key: Seq<char>) -> Option<T>
    decreases entries.len(),
{
    if entries.len() == 0 {
        None
    } else if entries[0].0@ == key {
        Some(entries[0].1)
    } else {
        lookup(entries.drop_first(), key)
    }
}

/// The member `key` of the request arguments: present only when the
/// arguments are an object that has such a member.
pub open spec fn field(args: Option<JsonValue>, key: Seq<char>) -> Option<JsonValue> {
    match args {
        Some(JsonValue::Object(entries)) => lookup(entries@, key),
        _ => None,
    }
}

/// The text of a JSON string.
pub open spec fn str_of(v: JsonValue) -> Option<Seq<char>> {
    match v {
        JsonValue::Str(s) => Some(s@),
        _ => None,
    }
}

/// The value of a JSON boolean.
pub open spec fn bool_of(v: JsonValue) -> Option<bool> {
    match v {
        JsonValue::Bool(b) => Some(b),
        _ => None,
    }
}

/// A JSON integer that fits in `i64`.
pub open spec fn i64_of(v: JsonValue) -> Option<i64> {
    match v {
        JsonValue::Number(JsonNumber::PosInt(n)) => if n <= i64::MAX {
            Some(n as i64)
        } else {
            None
        },
        JsonValue::Number(JsonNumber::NegInt(n)) => Some(n),
        _ => None,
    }
}

/// A non-negative JSON integer.
pub open spec fn u64_of(v: JsonValue) -> Option<u64> {
    match v {
        JsonValue::Number(JsonNumber::PosInt(n)) => Some(n),
        _ => None,
    }
}

/// Whether every element of a JSON array is a string.
pub open spec fn all_strings(items: Seq<JsonValue>) -> bool {
    forall|i: int| 0 <= i < items.len() ==> (#[trigger] items[i]) is Str
}

/// A JSON array of strings, as a list of their texts.
pub open spec fn str_list_of(v: JsonValue) -> Option<Seq<Seq<char>>> {
    match v {
        JsonValue::Array(items) => if all_strings(items@) {
            Some(Seq::new(items@.len(), |i: int| items@[i]->Str_0@))
        } else {
            None
        },
        _ => None,
    }
}

/// Equality of two strings.
pub(crate) fn str_eq(a: &str, b: &str) -> (r: bool)
    ensures
        r == (a@ == b@),
{
    a.to_owned() == b.to_owned()
}

proof fn lemma_lookup_skip<T>(entries: Seq<(String, T)>, key: Seq<char>, i: int)
    requires
        0 <= i <= entries.len(),
        forall|j: int| 0 <= j < i ==> (#[trigger] entries[j]).0@ != key,
    ensures
        lookup(entries, key) == lookup(entries.skip(i), key),
    decreases i,
{
    if i > 0 {
        lemma_lookup_skip(entries.drop_first(), key, i - 1);
        assert(entries.drop_first().skip(i - 1) =~= entries.skip(i));
        assert(entries[0].0@ != key);
    } else {
        assert(entries.skip(0) =~= entries);
    }
}

/// The position of the first occurrence of `key` among `entries`.
pub fn find_key<T>(entries: &Vec<(String, T)>, key: &str) -> (r: Option<usize>)
    ensures
        match r {
            Some(i) => i < entries@.len() && lookup(entries@, key@) == Some(entries@[i as int].1),
            None => lookup(entries@, key@) is None,
        },
{
    let n = entries.len();
    let mut i: usize = 0;
    while i < n
        invariant
            n == entries@.len(),
            0 <= i <= n,
            forall|j: int| 0 <= j < i ==> (#[trigger] entries@[j]).0@ != key@,
        decreases n - i,
    {
        if str_eq(entries[i].0.as_str(), key) {
            proof {
                lemma_lookup_skip(entries@, key@, i as int);
                let rest = entries@.skip(i as int);
                assert(rest[0] == entries@[i as int]);
                assert(lookup(rest, key@) == Some(rest[0].1));
            }
            return Some(i);
        }
        i = i + 1;
    }
    proof {
        lemma_lookup_skip(entries@, key@, i as int);
    }
    None
}

/// The member `key` of the request arguments (`args.get(key)` on an object,
/// nothing otherwise).
pub fn get_field<'a>(args: &'a Option<JsonValue>, key: &str) -> (r: Option<&'a JsonValue>)
    ensures
        match r {
            Some(v) => field(*args, key@) == Some(*v),
            None => field(*args, key@) is None,
        },
{
    match args {
        Some(JsonValue::Object(entries)) => match find_key(entries, key) {
            Some(i) => Some(&entries[i].1),
            None => None,
        },
        _ => None,
    }
}

/// `as_str`: the text of a JSON string.
pub fn as_str(v: &JsonValue) -> (r: Option<&String>)
    ensures
        match r {
            Some(s) => str_of(*v) == Some(s@),
            None => str_of(*v) is None,
        },
{
    match v {
        JsonValue::Str(s) => Some(s),
        _ => None,
    }
}

/// `as_bool`: the value of a JSON boolean.
pub fn as_bool(v: &JsonValue) -> (r: Option<bool>)
    ensures
        r == bool_of(*v),
{
    match v {
        JsonValue::Bool(b) => Some(*b),
        _ => None,
    }
}

/// `as_i64`: a JSON integer that fits in `i64`.
pub fn as_i64(v: &JsonValue) -> (r: Option<i64>)
    ensures
        r == i64_of(*v),
{
    match v {
        JsonValue::Number(JsonNumber::PosInt(n)) => {
            if *n <= 9223372036854775807u64 {
                Some(*n as i64)
            } else {
                None
            }
        },
        JsonValue::Number(JsonNumber::NegInt(n)) => Some(*n),
        _ => None,
    }
}

/// `as_u64`: a non-negative JSON integer.
pub fn as_u64(v: &JsonValue) -> (r: Option<u64>)
    ensures
        r == u64_of(*v),
{
    match v {
        JsonValue::Number(JsonNumber::PosInt(n)) => Some(*n),
        _ => None,
    }
}

/// A JSON array of strings, copied out as a list (what decoding such a value
/// into `Vec<String>` yields); nothing for any other value.
pub fn as_str_list(v: &JsonValue) -> (r: Option<Vec<String>>)
    ensures
        match r {
            Some(list) => str_list_of(*v) == Some(list@.map_values(|s: String| s@)),
            None => str_list_of(*v) is None,
        },
{
    match v {
        JsonValue::Array(items) => {
            let n = items.len();
            let mut out: Vec<String> = Vec::new();
            let mut i: usize = 0;
            while i < n
                invariant
                    n == items@.len(),
                    *v == JsonValue::Array(*items),
                    0 <= i <= n,
                    out@.len() == i,
                    forall|j: int| 0 <= j < i ==> (#[trigger] items@[j]) is Str,
                    forall|j: int| 0 <= j < i ==> (#[trigger] out@[j])@ == items@[j]->Str_0@,
                decreases n - i,
            {
                match &items[i] {
                    JsonValue::Str(s) => {
                        out.push(s.clone());
                    },
                    _ => {
                        assert(!(items@[i as int] is Str));
                        assert(!all_strings(items@));
                        return None;
                    },
                }
                i = i + 1;
            }
            assert(out@.map_values(|s: String| s@) =~= Seq::new(
                items@.len(),
                |j: int| items@[j]->Str_0@,
            ));
            Some(out)
        },
        _ => None,
    }
}

} // verus!
