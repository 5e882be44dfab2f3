//! A JSON (or YAML) document as the commands read it: the values that
//! kubectl, kbld and ytt print, after parsing.
use vstd::prelude::*;
use crate::text::{chars_of, same_chars};

verus! {

/// A parsed JSON value. A number keeps its `i64` reading, which is absent
/// for numbers that have none (fractions, or integers beyond `i64`).
pub enum Json {
    Null,
    Bool(bool),
    Number(Option<i64>),
    Str(String),
    Array(Vec<Json>),
    Object(Vec<(String, Json)>),
}

/// The value of the first entry with the key, or `Null`.
pub open spec fn lookup(entries: Seq<(String, Json)>, key: Seq<char>) -> Json
    decreases entries.len(),
{
    if entries.len() == 0 {
        Json::Null
    } else if entries[0].0@ == key {
        entries[0].1
    } else {
        lookup(entries.drop_first(), key)
    }
}

/// `value[key]`: a member of an object, `Null` for anything else.
pub open spec fn get(j: Json, key: Seq<char>) -> Json {
    match j {
        Json::Object(entries) => lookup(entries@, key),
        _ => Json::Null,
    }
}

pub open spec fn as_str(j: Json) -> Option<Seq<char>> {
    match j {
        Json::Str(s) => Some(s@),
        _ => None,
    }
}

pub open spec fn as_i64(j: Json) -> Option<i64> {
    match j {
        Json::Number(n) => n,
        _ => None,
    }
}

pub open spec fn as_bool(j: Json) -> Option<bool> {
    match j {
        Json::Bool(b) => Some(b),
        _ => None,
    }
}

pub open spec fn as_array(j: Json) -> Option<Seq<Json>> {
    match j {
        Json::Array(v) => Some(v@),
        _ => None,
    }
}

/// `value[key]`, or `None` where that is `Null` because the key is missing
/// or the value is no object.
pub fn field<'a>(j: &'a Json, key: &str) -> (r: Option<&'a Json>)
    ensures
        match r {
            Some(v) => *v == get(*j, key@),
            None => get(*j, key@) == Json::Null,
        },
{
    match j {
        Json::Object(entries) => {
            let k = chars_of(key);
            let mut i: usize = 0;
            assert(entries@.skip(0) =~= entries@);
            while i < entries.len()
                invariant
                    i <= entries.len(),
                    k@ == key@,
                    get(*j, key@) == lookup(entries@, key@),
                    lookup(entries@, key@) == lookup(entries@.skip(i as int), key@),
                decreases entries.len() - i,
            {
                let name = chars_of(entries[i].0.as_str());
                proof {
                    let t = entries@.skip(i as int);
                    assert(t[0] == entries@[i as int]);
                    assert(t.drop_first() =~= entries@.skip(i + 1));
                }
                if same_chars(&name, &k) {
                    assert(entries@.skip(i as int)[0].0@ == key@);
                    assert(lookup(entries@.skip(i as int), key@) == entries@[i as int].1);
                    assert(get(*j, key@) == lookup(entries@, key@));
                    return Some(&entries[i].1);
                }
                i = i + 1;
            }
            assert(entries@.skip(i as int).len() == 0);
            None
        },
        _ => None,
    }
}

/// The value an optional reference stands for: absent is `Null`.
pub open spec fn val(o: Option<&Json>) -> Json {
    match o {
        Some(v) => *v,
        None => Json::Null,
    }
}

/// `value[key]` on a value that may be absent.
pub fn member<'a>(o: Option<&'a Json>, key: &str) -> (r: Option<&'a Json>)
    ensures
        val(r) == get(val(o), key@),
{
    match o {
        Some(v) => field(v, key),
        None => None,
    }
}

/// `value.as_str()`.
pub fn text_of(o: Option<&Json>) -> (r: Option<String>)
    ensures
        match r {
            Some(s) => as_str(val(o)) == Some(s@),
            None => as_str(val(o)) is None,
        },
{
    match o {
        Some(Json::Str(s)) => Some(s.clone()),
        _ => None,
    }
}

/// `value.as_i64()`.
pub fn int_of(o: Option<&Json>) -> (r: Option<i64>)
    ensures
        r == as_i64(val(o)),
{
    match o {
        Some(Json::Number(n)) => *n,
        _ => None,
    }
}

/// `value.as_bool()`.
pub fn bool_of(o: Option<&Json>) -> (r: Option<bool>)
    ensures
        r == as_bool(val(o)),
{
    match o {
        Some(Json::Bool(b)) => Some(*b),
        _ => None,
    }
}

/// `value.as_array()`.
pub fn array_of<'a>(o: Option<&'a Json>) -> (r: Option<&'a Vec<Json>>)
    ensures
        match r {
            Some(v) => as_array(val(o)) == Some(v@),
            None => as_array(val(o)) is None,
        },
{
    match o {
        Some(Json::Array(v)) => Some(v),
        _ => None,
    }
}

/// The text of a string value, or a default.
pub open spec fn str_or(j: Json, default: Seq<char>) -> Seq<char> {
    match as_str(j) {
        Some(s) => s,
        None => default,
    }
}

/// `value.as_str().unwrap_or(default)`.
pub fn text_or(o: Option<&Json>, default: &str) -> (r: String)
    ensures
        r@ == str_or(val(o), default@),
{
    match text_of(o) {
        Some(s) => s,
        None => String::from_str(default),
    }
}

}
