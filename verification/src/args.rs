//! Readers for the named arguments of a command. Each reads one member of
//! the request's JSON object; the required ones fail with the message that
//! the client is shown.

use vstd::prelude::*;
use vstd::string::*;
use crate::json::{JsonValue, field, str_of, bool_of, i64_of, u64_of, str_list_of, get_field, as_str, as_bool, as_i64, as_u64, as_str_list};

verus! {

/// A message made of a fixed text and a member name.
pub fn message(text: &str, key: &str) -> (r: String)
    ensures
        r@ == text@ + key@,
{
    String::from_str(text).concat(key)
}

/// The view of a reader's result.
pub open spec fn result_view(r: Result<String, String>) -> Result<Seq<char>, Seq<char>> {
    match r {
        Ok(s) => Ok(s@),
        Err(e) => Err(e@),
    }
}

/// The view of an optional text.
pub open spec fn opt_view(r: Option<String>) -> Option<Seq<char>> {
    match r {
        Some(s) => Some(s@),
        None => None,
    }
}

/// The message for a missing required member read by `req`.
pub open spec fn missing_field(key: Seq<char>) -> Seq<char> {
    "Missing required field: "@ + key
}

/// The message for a missing or non-string required member.
pub open spec fn missing_string(key: Seq<char>) -> Seq<char> {
    "Missing required string field: "@ + key
}

/// The message for a missing or non-boolean required member.
pub open spec fn missing_bool(key: Seq<char>) -> Seq<char> {
    "Missing required bool field: "@ + key
}

/// The message for a missing or non-integer required member.
pub open spec fn missing_integer(key: Seq<char>) -> Seq<char> {
    "Missing required integer field: "@ + key
}

/// The message for a member whose value the command's own type rejected.
pub open spec fn invalid_field(key: Seq<char>, reason: Seq<char>) -> Seq<char> {
    "Invalid "@ + key + ": "@ + reason
}

/// `req_str`: the text of a string member.
pub open spec fn spec_req_str(args: Option<JsonValue>, key: Seq<char>) -> Result<Seq<char>, Seq<char>> {
    match field(args, key) {
        Some(v) => match str_of(v) {
            Some(s) => Ok(s),
            None => Err(missing_string(key)),
        },
        None => Err(missing_string(key)),
    }
}

/// `opt_str`: the text of a string member, if there is one.
pub open spec fn spec_opt_str(args: Option<JsonValue>, key: Seq<char>) -> Option<Seq<char>> {
    match field(args, key) {
        Some(v) => str_of(v),
        None => None,
    }
}

/// `opt_bool`: the value of a boolean member, if there is one.
pub open spec fn spec_opt_bool(args: Option<JsonValue>, key: Seq<char>) -> Option<bool> {
    match field(args, key) {
        Some(v) => bool_of(v),
        None => None,
    }
}

/// `req_bool`: the value of a boolean member.
pub open spec fn spec_req_bool(args: Option<JsonValue>, key: Seq<char>) -> Result<bool, Seq<char>> {
    match spec_opt_bool(args, key) {
        Some(b) => Ok(b),
        None => Err(missing_bool(key)),
    }
}

/// `opt_i64`: the value of an integer member that fits in `i64`, if there is one.
pub open spec fn spec_opt_i64(args: Option<JsonValue>, key: Seq<char>) -> Option<i64> {
    match field(args, key) {
        Some(v) => i64_of(v),
        None => None,
    }
}

/// The value of a non-negative integer member, if there is one (also what
/// decoding a member into `u64` yields).
pub open spec fn spec_opt_u64(args: Option<JsonValue>, key: Seq<char>) -> Option<u64> {
    match field(args, key) {
        Some(v) => u64_of(v),
        None => None,
    }
}

/// `req_u32`: a non-negative integer member cut to its low 32 bits.
pub open spec fn spec_req_u32(args: Option<JsonValue>, key: Seq<char>) -> Result<u32, Seq<char>> {
    match spec_opt_u64(args, key) {
        Some(n) => Ok(n as u32),
        None => Err(missing_integer(key)),
    }
}

/// `req_usize`: a non-negative integer member cut to the width of `usize`.
pub open spec fn spec_req_usize(args: Option<JsonValue>, key: Seq<char>) -> Result<usize, Seq<char>> {
    match spec_opt_u64(args, key) {
        Some(n) => Ok(n as usize),
        None => Err(missing_integer(key)),
    }
}

/// A member holding an array of strings, as their texts (what decoding a
/// member into `Vec<String>` yields), if there is one.
pub open spec fn spec_opt_str_list(args: Option<JsonValue>, key: Seq<char>) -> Option<Seq<Seq<char>>> {
    match field(args, key) {
        Some(v) => str_list_of(v),
        None => None,
    }
}

/// `req`: a member that the command decodes into a type of its own.
/// `rejection` is the decoder's complaint about the member's value, if it
/// had one.
pub open spec fn spec_req(args: Option<JsonValue>, key: Seq<char>, rejection: Option<Seq<char>>) -> Result<
    JsonValue,
    Seq<char>,
> {
    match field(args, key) {
        Some(v) => match rejection {
            Some(reason) => Err(invalid_field(key, reason)),
            None => Ok(v),
        },
        None => Err(missing_field(key)),
    }
}

/// `opt`: a member that the command decodes into a type of its own, if it
/// is there and the decoder accepted it.
pub open spec fn spec_opt(args: Option<JsonValue>, key: Seq<char>, rejected: bool) -> Option<JsonValue> {
    match field(args, key) {
        Some(v) => if rejected {
            None
        } else {
            Some(v)
        },
        None => None,
    }
}

/// Reads a required string member.
pub fn req_str(args: &Option<JsonValue>, key: &str) -> (r: Result<String, String>)
    ensures
        result_view(r) == spec_req_str(*args, key@),
{
    match get_field(args, key) {
        Some(v) => match as_str(v) {
            Some(s) => Ok(s.clone()),
            None => Err(message("Missing required string field: ", key)),
        },
        None => Err(message("Missing required string field: ", key)),
    }
}

/// Reads an optional string member.
pub fn opt_str(args: &Option<JsonValue>, key: &str) -> (r: Option<String>)
    ensures
        opt_view(r) == spec_opt_str(*args, key@),
{
    match get_field(args, key) {
        Some(v) => match as_str(v) {
            Some(s) => Some(s.clone()),
            None => None,
        },
        None => None,
    }
}

/// Reads an optional boolean member.
pub fn opt_bool(args: &Option<JsonValue>, key: &str) -> (r: Option<bool>)
    ensures
        r == spec_opt_bool(*args, key@),
{
    match get_field(args, key) {
        Some(v) => as_bool(v),
        None => None,
    }
}

/// Reads a required boolean member.
pub fn req_bool(args: &Option<JsonValue>, key: &str) -> (r: Result<bool, String>)
    ensures
        match r {
            Ok(b) => spec_req_bool(*args, key@) == Ok::<bool, Seq<char>>(b),
            Err(e) => spec_req_bool(*args, key@) == Err::<bool, Seq<char>>(e@),
        },
{
    match opt_bool(args, key) {
        Some(b) => Ok(b),
        None => Err(message("Missing required bool field: ", key)),
    }
}

/// Reads an optional member holding an integer that fits in `i64`.
pub fn opt_i64(args: &Option<JsonValue>, key: &str) -> (r: Option<i64>)
    ensures
        r == spec_opt_i64(*args, key@),
{
    match get_field(args, key) {
        Some(v) => as_i64(v),
        None => None,
    }
}

/// Reads an optional member holding a non-negative integer.
pub fn opt_u64(args: &Option<JsonValue>, key: &str) -> (r: Option<u64>)
    ensures
        r == spec_opt_u64(*args, key@),
{
    match get_field(args, key) {
        Some(v) => as_u64(v),
        None => None,
    }
}

/// Reads a required non-negative integer member, keeping its low 32 bits.
pub fn req_u32(args: &Option<JsonValue>, key: &str) -> (r: Result<u32, String>)
    ensures
        match r {
            Ok(n) => spec_req_u32(*args, key@) == Ok::<u32, Seq<char>>(n),
            Err(e) => spec_req_u32(*args, key@) == Err::<u32, Seq<char>>(e@),
        },
{
    match opt_u64(args, key) {
        Some(n) => Ok(n as u32),
        None => Err(message("Missing required integer field: ", key)),
    }
}

/// Reads a required non-negative integer member as a `usize`.
pub fn req_usize(args: &Option<JsonValue>, key: &str) -> (r: Result<usize, String>)
    ensures
        match r {
            Ok(n) => spec_req_usize(*args, key@) == Ok::<usize, Seq<char>>(n),
            Err(e) => spec_req_usize(*args, key@) == Err::<usize, Seq<char>>(e@),
        },
{
    match opt_u64(args, key) {
        Some(n) => Ok(n as usize),
        None => Err(message("Missing required integer field: ", key)),
    }
}

/// Reads an optional member holding an array of strings.
pub fn opt_str_list(args: &Option<JsonValue>, key: &str) -> (r: Option<Vec<String>>)
    ensures
        match r {
            Some(list) => spec_opt_str_list(*args, key@) == Some(list@.map_values(|s: String| s@)),
            None => spec_opt_str_list(*args, key@) is None,
        },
{
    match get_field(args, key) {
        Some(v) => as_str_list(v),
        None => None,
    }
}

/// Reads a required member that the command decodes itself; `rejection`
/// is the decoder's complaint about its value, if it had one.
pub fn req<'a>(args: &'a Option<JsonValue>, key: &str, rejection: &Option<String>) -> (r: Result<
    &'a JsonValue,
    String,
>)
    ensures
        match r {
            Ok(v) => spec_req(*args, key@, opt_view(*rejection)) == Ok::<JsonValue, Seq<char>>(*v),
            Err(e) => spec_req(*args, key@, opt_view(*rejection)) == Err::<JsonValue, Seq<char>>(e@),
        },
{
    match get_field(args, key) {
        Some(v) => match rejection {
            Some(reason) => {
                let m = message("Invalid ", key).concat(": ").concat(reason.as_str());
                Err(m)
            },
            None => Ok(v),
        },
        None => Err(message("Missing required field: ", key)),
    }
}

/// Reads an optional member that the command decodes itself; it is left out
/// when the decoder rejected its value.
pub fn opt<'a>(args: &'a Option<JsonValue>, key: &str, rejected: bool) -> (r: Option<&'a JsonValue>)
    ensures
        match r {
            Some(v) => spec_opt(*args, key@, rejected) == Some(*v),
            None => spec_opt(*args, key@, rejected) is None,
        },
{
    match get_field(args, key) {
        Some(v) => if rejected {
            None
        } else {
            Some(v)
        },
        None => None,
    }
}

} // verus!
