use vstd::prelude::*;

use crate::json::{copy_items, copy_members, same_items, same_members, Json};

verus! {

// Optional members of a record, decoded strictly: a member that is absent or
// `null` decodes to `None`; a member present with the wrong shape makes the
// whole record fail to decode.

pub open spec fn absent(v: Option<Json>) -> bool {
    match v {
        None => true,
        Some(Json::Null) => true,
        _ => false,
    }
}

pub open spec fn text_fits(v: Option<Json>) -> bool {
    absent(v) || v.unwrap() is Str
}

pub open spec fn text_is(v: Option<Json>, x: Option<String>) -> bool {
    if absent(v) {
        x is None
    } else {
        x matches Some(s) && v.unwrap().text() == Some(s@)
    }
}

pub open spec fn bool_fits(v: Option<Json>) -> bool {
    absent(v) || v.unwrap() is Bool
}

pub open spec fn bool_is(v: Option<Json>, x: Option<bool>) -> bool {
    if absent(v) {
        x is None
    } else {
        x matches Some(b) && v.unwrap() == Json::Bool(b)
    }
}

pub open spec fn int_fits(v: Option<Json>) -> bool {
    absent(v) || v.unwrap() is Int
}

pub open spec fn int_is(v: Option<Json>, x: Option<i64>) -> bool {
    if absent(v) {
        x is None
    } else {
        x matches Some(n) && v.unwrap() == Json::Int(n)
    }
}

pub open spec fn text_list_fits(v: Option<Json>) -> bool {
    absent(v) || (v.unwrap() is Array && forall|k: int|
        0 <= k < v.unwrap()->Array_0@.len() ==> (#[trigger] v.unwrap()->Array_0@[k]) is Str)
}

pub open spec fn text_list_is(v: Option<Json>, x: Option<Vec<String>>) -> bool {
    if absent(v) {
        x is None
    } else {
        x matches Some(l) && v.unwrap() is Array && l@.len() == v.unwrap()->Array_0@.len()
            && forall|k: int|
            0 <= k < l@.len() ==> (#[trigger] v.unwrap()->Array_0@[k]).text() == Some(l@[k]@)
    }
}

pub open spec fn int_list_fits(v: Option<Json>) -> bool {
    absent(v) || (v.unwrap() is Array && forall|k: int|
        0 <= k < v.unwrap()->Array_0@.len() ==> (#[trigger] v.unwrap()->Array_0@[k]) is Int)
}

pub open spec fn int_list_is(v: Option<Json>, x: Option<Vec<i64>>) -> bool {
    if absent(v) {
        x is None
    } else {
        x matches Some(l) && v.unwrap() is Array && l@.len() == v.unwrap()->Array_0@.len()
            && forall|k: int|
            0 <= k < l@.len() ==> #[trigger] v.unwrap()->Array_0@[k] == Json::Int(l@[k])
    }
}

pub open spec fn doc_list_fits(v: Option<Json>) -> bool {
    absent(v) || v.unwrap() is Array
}

pub open spec fn doc_list_is(v: Option<Json>, x: Option<Vec<Json>>) -> bool {
    if absent(v) {
        x is None
    } else {
        x matches Some(l) && v.unwrap() is Array && same_items(l@, v.unwrap()->Array_0@)
    }
}

pub open spec fn doc_map_fits(v: Option<Json>) -> bool {
    absent(v) || v.unwrap() is Object
}

pub open spec fn doc_map_is(v: Option<Json>, x: Option<Vec<(String, Json)>>) -> bool {
    if absent(v) {
        x is None
    } else {
        x matches Some(m) && v.unwrap() is Object && same_members(m@, v.unwrap()->Object_0@)
    }
}

pub fn text_field(j: &Json, key: &str) -> (r: Option<Option<String>>)
    ensures
        r is Some <==> text_fits(j.field(key@)),
        r matches Some(x) ==> text_is(j.field(key@), x),
{
    match j.get(key) {
        None => Some(None),
        Some(Json::Null) => Some(None),
        Some(Json::Str(s)) => Some(Some(s.clone())),
        Some(_) => None,
    }
}

pub fn bool_field(j: &Json, key: &str) -> (r: Option<Option<bool>>)
    ensures
        r is Some <==> bool_fits(j.field(key@)),
        r matches Some(x) ==> bool_is(j.field(key@), x),
{
    match j.get(key) {
        None => Some(None),
        Some(Json::Null) => Some(None),
        Some(Json::Bool(b)) => Some(Some(*b)),
        Some(_) => None,
    }
}

pub fn int_field(j: &Json, key: &str) -> (r: Option<Option<i64>>)
    ensures
        r is Some <==> int_fits(j.field(key@)),
        r matches Some(x) ==> int_is(j.field(key@), x),
{
    match j.get(key) {
        None => Some(None),
        Some(Json::Null) => Some(None),
        Some(Json::Int(n)) => Some(Some(*n)),
        Some(_) => None,
    }
}

pub fn text_list_field(j: &Json, key: &str) -> (r: Option<Option<Vec<String>>>)
    ensures
        r is Some <==> text_list_fits(j.field(key@)),
        r matches Some(x) ==> text_list_is(j.field(key@), x),
{
    match j.get(key) {
        None => Some(None),
        Some(Json::Null) => Some(None),
        Some(Json::Array(a)) => {
            let mut out: Vec<String> = Vec::new();
            let mut i: usize = 0;
            while i < a.len()
                invariant
                    i <= a@.len(),
                    out@.len() == i,
                    j.field(key@) matches Some(v) && v is Array && v->Array_0@ == a@,
                    forall|k: int| 0 <= k < i ==> (#[trigger] a@[k]).text() == Some(out@[k]@),
                decreases a@.len() - i,
            {
                match &a[i] {
                    Json::Str(s) => out.push(s.clone()),
                    _ => {
                        assert(a@[i as int] == a@[i as int]);
                        return None;
                    },
                }
                i += 1;
            }
            Some(Some(out))
        },
        Some(_) => None,
    }
}

pub fn int_list_field(j: &Json, key: &str) -> (r: Option<Option<Vec<i64>>>)
    ensures
        r is Some <==> int_list_fits(j.field(key@)),
        r matches Some(x) ==> int_list_is(j.field(key@), x),
{
    match j.get(key) {
        None => Some(None),
        Some(Json::Null) => Some(None),
        Some(Json::Array(a)) => {
            let mut out: Vec<i64> = Vec::new();
            let mut i: usize = 0;
            while i < a.len()
                invariant
                    i <= a@.len(),
                    out@.len() == i,
                    j.field(key@) matches Some(v) && v is Array && v->Array_0@ == a@,
                    forall|k: int| 0 <= k < i ==> #[trigger] a@[k] == Json::Int(out@[k]),
                decreases a@.len() - i,
            {
                match &a[i] {
                    Json::Int(n) => out.push(*n),
                    _ => {
                        assert(a@[i as int] == a@[i as int]);
                        return None;
                    },
                }
                i += 1;
            }
            Some(Some(out))
        },
        Some(_) => None,
    }
}

pub fn doc_list_field(j: &Json, key: &str) -> (r: Option<Option<Vec<Json>>>)
    ensures
        r is Some <==> doc_list_fits(j.field(key@)),
        r matches Some(x) ==> doc_list_is(j.field(key@), x),
{
    match j.get(key) {
        None => Some(None),
        Some(Json::Null) => Some(None),
        Some(Json::Array(a)) => Some(Some(copy_items(a))),
        Some(_) => None,
    }
}

pub fn doc_map_field(j: &Json, key: &str) -> (r: Option<Option<Vec<(String, Json)>>>)
    ensures
        r is Some <==> doc_map_fits(j.field(key@)),
        r matches Some(x) ==> doc_map_is(j.field(key@), x),
{
    match j.get(key) {
        None => Some(None),
        Some(Json::Null) => Some(None),
        Some(Json::Object(m)) => Some(Some(copy_members(m))),
        Some(_) => None,
    }
}

} // verus!
