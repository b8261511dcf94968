//! The library's own JSON value model. Upstream response bodies are parsed
//! into this type (see `parse`), and the record decoders read it. Numbers
//! that fit a `u64` are held exactly; any other number keeps its decimal
//! text, so no floating point enters the library.
use crate::error::ApiError;
use crate::text::spec_dec;
use vstd::prelude::*;

verus! {

/// A parsed JSON document.
#[derive(Debug, PartialEq)]
pub enum JsonValue {
    Null,
    Bool(bool),
    /// A number that is a non-negative integer within `u64`.
    UInt(u64),
    /// Any other number, kept as its decimal text.
    Num(String),
    Str(String),
    Arr(Vec<JsonValue>),
    /// Object members in the order the parser yields them.
    Obj(Vec<(String, JsonValue)>),
}

/// The value of the first member named `key`, if any.
pub open spec fn spec_obj_get(fields: Seq<(String, JsonValue)>, key: Seq<char>) -> Option<
    JsonValue,
>
    decreases fields.len(),
{
    if fields.len() == 0 {
        None
    } else if fields[0].0@ == key {
        Some(fields[0].1)
    } else {
        spec_obj_get(fields.drop_first(), key)
    }
}

/// Looks a key up among object members.
pub fn obj_get<'a>(fields: &'a Vec<(String, JsonValue)>, key: &str) -> (r: Option<
    &'a JsonValue,
>)
    ensures
        match spec_obj_get(fields@, key@) {
            Some(v) => r matches Some(rv) && *rv == v,
            None => r is None,
        },
{
    let k: String = key.to_owned();
    let mut i: usize = 0;
    proof {
        assert(fields@.skip(0) =~= fields@);
    }
    while i < fields.len()
        invariant
            i <= fields.len(),
            k@ == key@,
            spec_obj_get(fields@.skip(i as int), key@) == spec_obj_get(fields@, key@),
        decreases fields.len() - i,
    {
        proof {
            assert(fields@.skip(i as int)[0] == fields@[i as int]);
            assert(fields@.skip(i as int).drop_first() =~= fields@.skip(i + 1));
        }
        if fields[i].0.eq(&k) {
            return Some(&fields[i].1);
        }
        i = i + 1;
    }
    proof {
        assert(fields@.skip(i as int).len() == 0);
    }
    None
}

/// A member that must be a `u64` number.
pub open spec fn sget_u64(fields: Seq<(String, JsonValue)>, key: Seq<char>) -> Option<u64> {
    match spec_obj_get(fields, key) {
        Some(JsonValue::UInt(u)) => Some(u),
        _ => None,
    }
}

/// A member that must be a number fitting `u32`.
pub open spec fn sget_u32(fields: Seq<(String, JsonValue)>, key: Seq<char>) -> Option<u32> {
    match spec_obj_get(fields, key) {
        Some(JsonValue::UInt(u)) => if u <= 0xffff_ffffu64 {
            Some(u as u32)
        } else {
            None
        },
        _ => None,
    }
}

/// A member that must be a string.
pub open spec fn sget_str(fields: Seq<(String, JsonValue)>, key: Seq<char>) -> Option<
    Seq<char>,
> {
    match spec_obj_get(fields, key) {
        Some(JsonValue::Str(s)) => Some(s@),
        _ => None,
    }
}

/// A member that must be a boolean.
pub open spec fn sget_bool(fields: Seq<(String, JsonValue)>, key: Seq<char>) -> Option<bool> {
    match spec_obj_get(fields, key) {
        Some(JsonValue::Bool(b)) => Some(b),
        _ => None,
    }
}

/// A member that must be a number; its decimal text.
pub open spec fn sget_numtext(fields: Seq<(String, JsonValue)>, key: Seq<char>) -> Option<
    Seq<char>,
> {
    match spec_obj_get(fields, key) {
        Some(JsonValue::UInt(u)) => Some(spec_dec(u as nat)),
        Some(JsonValue::Num(t)) => Some(t@),
        _ => None,
    }
}

/// An optional `u64` member: absent or null is `None`, any non-number fails.
pub open spec fn sget_opt_u64(fields: Seq<(String, JsonValue)>, key: Seq<char>) -> Option<
    Option<u64>,
> {
    match spec_obj_get(fields, key) {
        None => Some(None),
        Some(JsonValue::Null) => Some(None),
        Some(JsonValue::UInt(u)) => Some(Some(u)),
        _ => None,
    }
}

/// An optional member that must fit `u32` when present.
pub open spec fn sget_opt_u32(fields: Seq<(String, JsonValue)>, key: Seq<char>) -> Option<
    Option<u32>,
> {
    match spec_obj_get(fields, key) {
        None => Some(None),
        Some(JsonValue::Null) => Some(None),
        Some(JsonValue::UInt(u)) => if u <= 0xffff_ffffu64 {
            Some(Some(u as u32))
        } else {
            None
        },
        _ => None,
    }
}

/// An optional string member.
pub open spec fn sget_opt_str(fields: Seq<(String, JsonValue)>, key: Seq<char>) -> Option<
    Option<Seq<char>>,
> {
    match spec_obj_get(fields, key) {
        None => Some(None),
        Some(JsonValue::Null) => Some(None),
        Some(JsonValue::Str(s)) => Some(Some(s@)),
        _ => None,
    }
}

/// An optional number member; its decimal text when present.
pub open spec fn sget_opt_numtext(fields: Seq<(String, JsonValue)>, key: Seq<char>) -> Option<
    Option<Seq<char>>,
> {
    match spec_obj_get(fields, key) {
        None => Some(None),
        Some(JsonValue::Null) => Some(None),
        Some(JsonValue::UInt(u)) => Some(Some(spec_dec(u as nat))),
        Some(JsonValue::Num(t)) => Some(Some(t@)),
        _ => None,
    }
}

/// The member texts of an array of strings, in order, or `None` if any
/// element is not a string.
pub open spec fn spec_str_items(items: Seq<JsonValue>) -> Option<Seq<Seq<char>>>
    decreases items.len(),
{
    if items.len() == 0 {
        Some(Seq::empty())
    } else {
        match items[0] {
            JsonValue::Str(s) => match spec_str_items(items.drop_first()) {
                Some(rest) => Some(seq![s@] + rest),
                None => None,
            },
            _ => None,
        }
    }
}

/// A member that must be an array of strings.
pub open spec fn sget_strs(fields: Seq<(String, JsonValue)>, key: Seq<char>) -> Option<
    Seq<Seq<char>>,
> {
    match spec_obj_get(fields, key) {
        Some(JsonValue::Arr(items)) => spec_str_items(items@),
        _ => None,
    }
}

/// Reads a mandatory `u64` member.
pub fn get_u64(fields: &Vec<(String, JsonValue)>, key: &str) -> (r: Result<u64, ApiError>)
    ensures
        match sget_u64(fields@, key@) {
            Some(u) => r == Ok::<u64, ApiError>(u),
            None => r == Err::<u64, ApiError>(ApiError::Schema),
        },
{
    match obj_get(fields, key) {
        Some(JsonValue::UInt(u)) => Ok(*u),
        _ => Err(ApiError::Schema),
    }
}

/// Reads a mandatory member that must fit `u32`.
pub fn get_u32(fields: &Vec<(String, JsonValue)>, key: &str) -> (r: Result<u32, ApiError>)
    ensures
        match sget_u32(fields@, key@) {
            Some(u) => r == Ok::<u32, ApiError>(u),
            None => r == Err::<u32, ApiError>(ApiError::Schema),
        },
{
    match obj_get(fields, key) {
        Some(JsonValue::UInt(u)) => if *u <= 0xffff_ffffu64 {
            Ok(*u as u32)
        } else {
            Err(ApiError::Schema)
        },
        _ => Err(ApiError::Schema),
    }
}

/// Reads a mandatory string member.
pub fn get_str(fields: &Vec<(String, JsonValue)>, key: &str) -> (r: Result<String, ApiError>)
    ensures
        match sget_str(fields@, key@) {
            Some(s) => r matches Ok(rs) && rs@ == s,
            None => r matches Err(e) && e == ApiError::Schema,
        },
{
    match obj_get(fields, key) {
        Some(JsonValue::Str(s)) => Ok(s.clone()),
        _ => Err(ApiError::Schema),
    }
}

/// Reads a mandatory boolean member.
pub fn get_bool(fields: &Vec<(String, JsonValue)>, key: &str) -> (r: Result<bool, ApiError>)
    ensures
        match sget_bool(fields@, key@) {
            Some(b) => r == Ok::<bool, ApiError>(b),
            None => r == Err::<bool, ApiError>(ApiError::Schema),
        },
{
    match obj_get(fields, key) {
        Some(JsonValue::Bool(b)) => Ok(*b),
        _ => Err(ApiError::Schema),
    }
}

/// Reads a mandatory number member as its decimal text.
pub fn get_numtext(fields: &Vec<(String, JsonValue)>, key: &str) -> (r: Result<
    String,
    ApiError,
>)
    ensures
        match sget_numtext(fields@, key@) {
            Some(s) => r matches Ok(rs) && rs@ == s,
            None => r matches Err(e) && e == ApiError::Schema,
        },
{
    match obj_get(fields, key) {
        Some(JsonValue::UInt(u)) => Ok(crate::text::u64_to_string(*u)),
        Some(JsonValue::Num(t)) => Ok(t.clone()),
        _ => Err(ApiError::Schema),
    }
}

/// Reads an optional `u64` member.
pub fn get_opt_u64(fields: &Vec<(String, JsonValue)>, key: &str) -> (r: Result<
    Option<u64>,
    ApiError,
>)
    ensures
        match sget_opt_u64(fields@, key@) {
            Some(o) => r == Ok::<Option<u64>, ApiError>(o),
            None => r == Err::<Option<u64>, ApiError>(ApiError::Schema),
        },
{
    match obj_get(fields, key) {
        None => Ok(None),
        Some(JsonValue::Null) => Ok(None),
        Some(JsonValue::UInt(u)) => Ok(Some(*u)),
        _ => Err(ApiError::Schema),
    }
}

/// Reads an optional member that must fit `u32` when present.
pub fn get_opt_u32(fields: &Vec<(String, JsonValue)>, key: &str) -> (r: Result<
    Option<u32>,
    ApiError,
>)
    ensures
        match sget_opt_u32(fields@, key@) {
            Some(o) => r == Ok::<Option<u32>, ApiError>(o),
            None => r == Err::<Option<u32>, ApiError>(ApiError::Schema),
        },
{
    match obj_get(fields, key) {
        None => Ok(None),
        Some(JsonValue::Null) => Ok(None),
        Some(JsonValue::UInt(u)) => if *u <= 0xffff_ffffu64 {
            Ok(Some(*u as u32))
        } else {
            Err(ApiError::Schema)
        },
        _ => Err(ApiError::Schema),
    }
}

/// Reads an optional string member.
pub fn get_opt_str(fields: &Vec<(String, JsonValue)>, key: &str) -> (r: Result<
    Option<String>,
    ApiError,
>)
    ensures
        match sget_opt_str(fields@, key@) {
            Some(Some(s)) => r matches Ok(Some(rs)) && rs@ == s,
            Some(None) => r matches Ok(o) && o is None,
            None => r matches Err(e) && e == ApiError::Schema,
        },
{
    match obj_get(fields, key) {
        None => Ok(None),
        Some(JsonValue::Null) => Ok(None),
        Some(JsonValue::Str(s)) => Ok(Some(s.clone())),
        _ => Err(ApiError::Schema),
    }
}

/// Reads an optional number member as its decimal text.
pub fn get_opt_numtext(fields: &Vec<(String, JsonValue)>, key: &str) -> (r: Result<
    Option<String>,
    ApiError,
>)
    ensures
        match sget_opt_numtext(fields@, key@) {
            Some(Some(s)) => r matches Ok(Some(rs)) && rs@ == s,
            Some(None) => r matches Ok(o) && o is None,
            None => r matches Err(e) && e == ApiError::Schema,
        },
{
    match obj_get(fields, key) {
        None => Ok(None),
        Some(JsonValue::Null) => Ok(None),
        Some(JsonValue::UInt(u)) => Ok(Some(crate::text::u64_to_string(*u))),
        Some(JsonValue::Num(t)) => Ok(Some(t.clone())),
        _ => Err(ApiError::Schema),
    }
}

/// Reads a mandatory array-of-strings member.
pub fn get_strs(fields: &Vec<(String, JsonValue)>, key: &str) -> (r: Result<
    Vec<String>,
    ApiError,
>)
    ensures
        match sget_strs(fields@, key@) {
            Some(texts) => r matches Ok(rs) && rs.deep_view() == texts,
            None => r matches Err(e) && e == ApiError::Schema,
        },
{
    match obj_get(fields, key) {
        Some(JsonValue::Arr(items)) => {
            let mut out: Vec<String> = Vec::new();
            let mut i: usize = 0;
            proof {
                assert(spec_obj_get(fields@, key@) == Some(JsonValue::Arr(*items)));
                assert(items@.skip(0) =~= items@);
                assert(out.deep_view() =~= Seq::<Seq<char>>::empty());
            }
            while i < items.len()
                invariant
                    i <= items.len(),
                    spec_obj_get(fields@, key@) == Some(JsonValue::Arr(*items)),
                    spec_str_items(items@) matches Some(all) ==> (spec_str_items(
                        items@.skip(i as int),
                    ) matches Some(rest) && all =~= out.deep_view() + rest),
                    spec_str_items(items@) is None ==> spec_str_items(items@.skip(i as int))
                        is None,
                decreases items.len() - i,
            {
                proof {
                    assert(items@.skip(i as int)[0] == items@[i as int]);
                    assert(items@.skip(i as int).drop_first() =~= items@.skip(i + 1));
                }
                match &items[i] {
                    JsonValue::Str(s) => {
                        let ghost prev = out.deep_view();
                        out.push(s.clone());
                        proof {
                            assert(out.deep_view() =~= prev + seq![s@]);
                        }
                    },
                    _ => {
                        proof {
                            assert(spec_str_items(items@.skip(i as int)) is None);
                            assert(spec_str_items(items@) is None);
                            assert(sget_strs(fields@, key@) is None);
                        }
                        return Err(ApiError::Schema);
                    },
                }
                i = i + 1;
            }
            proof {
                assert(items@.skip(i as int).len() == 0);
                if let Some(all) = spec_str_items(items@) {
                    assert(all =~= out.deep_view());
                }
            }
            Ok(out)
        },
        _ => Err(ApiError::Schema),
    }
}

} // verus!
