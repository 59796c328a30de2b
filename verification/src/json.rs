//! An owned model of JSON values, and the payload-shaping logic that
//! reads them.
//!
//! Upstream responses arrive as JSON in one of a few envelope shapes -
//! a bare array, `{"items": [...]}`, `{"results": [...]}`, or a single
//! object - and the library normalizes all of them into a flat list of
//! records before handoff to storage. Parsing bytes into this model and
//! converting from other JSON representations happens outside the
//! library; here a value is plain data. A non-integral number is
//! carried as its rendered text, which is all the extraction logic ever
//! reads of it.

use crate::dates::epoch_seconds_valid;
use crate::dates::check_epoch_seconds;
use crate::dates::naive_datetime_epoch;
use crate::dates::parse_naive_datetime;
use crate::dates::parse_utc_datetime;
use crate::dates::utc_datetime_epoch;
use crate::digits::i64_to_string;
use crate::digits::int_str;
use crate::text::str_eq;
use vstd::prelude::*;

verus! {

/// A JSON value as plain data. An object is a list of fields in
/// document order; a lookup takes the first field with the wanted name.
#[derive(Debug)]
pub enum JsonValue {
    Null,
    Bool(bool),
    Int(i64),
    /// A non-integral number, carried as its rendered text.
    Num(String),
    Str(String),
    Arr(Vec<JsonValue>),
    Obj(Vec<(String, JsonValue)>),
}

/// The value of the first field named `key`.
pub open spec fn lookup_spec(fields: Seq<(String, JsonValue)>, key: Seq<char>) -> Option<
    JsonValue,
>
    decreases fields.len(),
{
    if fields.len() == 0 {
        None
    } else if fields[0].0@ == key {
        Some(fields[0].1)
    } else {
        lookup_spec(fields.drop_first(), key)
    }
}

/// The index of the first field named `key`, when there is one.
fn find_entry(fields: &Vec<(String, JsonValue)>, key: &str) -> (r: Option<usize>)
    ensures
        match r {
            Some(i) => 0 <= i < fields@.len() && fields@[i as int].0@ == key@ && lookup_spec(
                fields@,
                key@,
            ) == Some(fields@[i as int].1),
            None => lookup_spec(fields@, key@) is None,
        },
{
    let mut j: usize = 0;
    proof {
        assert(fields@.skip(0) =~= fields@);
    }
    while j < fields.len()
        invariant
            j <= fields@.len(),
            lookup_spec(fields@, key@) == lookup_spec(fields@.skip(j as int), key@),
        decreases fields@.len() - j,
    {
        proof {
            assert(fields@.skip(j as int)[0] == fields@[j as int]);
            assert(fields@.skip(j as int).drop_first() =~= fields@.skip(j + 1));
        }
        if str_eq(fields[j].0.as_str(), key) {
            return Some(j);
        }
        j = j + 1;
    }
    proof {
        assert(fields@.skip(j as int).len() == 0);
    }
    None
}

/// The flat list of records inside a response envelope: the elements of
/// a bare array, of a first `items` array field, or of a first
/// `results` array field; any other value is a single-record list.
pub open spec fn envelope_items(v: JsonValue) -> Seq<JsonValue> {
    match v {
        JsonValue::Arr(a) => a@,
        JsonValue::Obj(fields) => match lookup_spec(fields@, "items"@) {
            Some(JsonValue::Arr(a)) => a@,
            _ => match lookup_spec(fields@, "results"@) {
                Some(JsonValue::Arr(a)) => a@,
                _ => seq![v],
            },
        },
        _ => seq![v],
    }
}

/// Unwrap a response envelope into its flat list of records.
pub fn normalize_envelope(v: JsonValue) -> (items: Vec<JsonValue>)
    ensures
        items@ == envelope_items(v),
{
    match v {
        JsonValue::Arr(a) => a,
        JsonValue::Obj(mut fields) => {
            let probe = find_entry(&fields, "items");
            let use_items = match probe {
                Some(i) => match &fields[i].1 {
                    JsonValue::Arr(_) => true,
                    _ => false,
                },
                None => false,
            };
            if use_items {
                let i = match probe {
                    Some(i) => i,
                    None => vstd::pervasive::unreached(),
                };
                let pair = fields.remove(i);
                match pair.1 {
                    JsonValue::Arr(a) => a,
                    _ => vstd::pervasive::unreached(),
                }
            } else {
                let probe2 = find_entry(&fields, "results");
                let use_results = match probe2 {
                    Some(i) => match &fields[i].1 {
                        JsonValue::Arr(_) => true,
                        _ => false,
                    },
                    None => false,
                };
                if use_results {
                    let i = match probe2 {
                        Some(i) => i,
                        None => vstd::pervasive::unreached(),
                    };
                    let pair = fields.remove(i);
                    match pair.1 {
                        JsonValue::Arr(a) => a,
                        _ => vstd::pervasive::unreached(),
                    }
                } else {
                    let mut out: Vec<JsonValue> = Vec::new();
                    out.push(JsonValue::Obj(fields));
                    out
                }
            }
        },
        other => {
            let mut out: Vec<JsonValue> = Vec::new();
            out.push(other);
            out
        },
    }
}

/// The views of a list of key names.
pub open spec fn strs_view(ks: Seq<&str>) -> Seq<Seq<char>> {
    Seq::new(ks.len(), |i: int| ks[i]@)
}

/// The value of a string field, taken as is (an empty string counts).
pub open spec fn str_field(v: JsonValue, key: Seq<char>) -> Option<Seq<char>> {
    match v {
        JsonValue::Obj(fields) => match lookup_spec(fields@, key) {
            Some(JsonValue::Str(s)) => Some(s@),
            _ => None,
        },
        _ => None,
    }
}

/// Read a string field out of a record.
pub fn get_str(v: &JsonValue, key: &str) -> (r: Option<String>)
    ensures
        (r is Some) == (str_field(*v, key@) is Some),
        r matches Some(s) ==> str_field(*v, key@) == Some(s@),
{
    match v {
        JsonValue::Obj(fields) => {
            match find_entry(fields, key) {
                Some(i) => match &fields[i].1 {
                    JsonValue::Str(s) => Some(s.clone()),
                    _ => None,
                },
                None => None,
            }
        },
        _ => None,
    }
}

/// What one key contributes to a string extraction: a nonempty string
/// field is taken as is, a numeric field is taken as its decimal text,
/// and anything else - including an empty string - yields nothing.
pub open spec fn field_string(v: JsonValue, key: Seq<char>) -> Option<Seq<char>> {
    match v {
        JsonValue::Obj(fields) => match lookup_spec(fields@, key) {
            Some(JsonValue::Str(s)) => if s@.len() > 0 {
                Some(s@)
            } else {
                None
            },
            Some(JsonValue::Int(n)) => Some(int_str(n as int)),
            Some(JsonValue::Num(t)) => Some(t@),
            _ => None,
        },
        _ => None,
    }
}

/// The first key that contributes a string, scanned in order.
pub open spec fn extract_string_spec(v: JsonValue, keys: Seq<Seq<char>>) -> Option<Seq<char>>
    decreases keys.len(),
{
    if keys.len() == 0 {
        None
    } else {
        match field_string(v, keys[0]) {
            Some(s) => Some(s),
            None => extract_string_spec(v, keys.drop_first()),
        }
    }
}

/// Pull a text field out of a record, trying the given key names in
/// order: the first nonempty string or numeric field wins.
pub fn extract_string(v: &JsonValue, keys: &[&str]) -> (r: Option<String>)
    ensures
        (r is Some) == (extract_string_spec(*v, strs_view(keys@)) is Some),
        r matches Some(s) ==> extract_string_spec(*v, strs_view(keys@)) == Some(s@),
{
    let ghost kv = strs_view(keys@);
    let mut k: usize = 0;
    proof {
        assert(kv.skip(0) =~= kv);
    }
    while k < keys.len()
        invariant
            k <= keys@.len(),
            kv == strs_view(keys@),
            extract_string_spec(*v, kv) == extract_string_spec(*v, kv.skip(k as int)),
        decreases keys@.len() - k,
    {
        proof {
            assert(kv.skip(k as int)[0] == kv[k as int]);
            assert(kv.skip(k as int).drop_first() =~= kv.skip(k + 1));
        }
        let key: &str = keys[k];
        match v {
            JsonValue::Obj(fields) => {
                match find_entry(fields, key) {
                    Some(i) => {
                        match &fields[i].1 {
                            JsonValue::Str(s) => {
                                if s.unicode_len() > 0 {
                                    return Some(s.clone());
                                }
                            },
                            JsonValue::Int(n) => {
                                return Some(i64_to_string(*n));
                            },
                            JsonValue::Num(t) => {
                                return Some(t.clone());
                            },
                            _ => {},
                        }
                    },
                    None => {},
                }
            },
            _ => {},
        }
        k = k + 1;
    }
    proof {
        assert(kv.skip(k as int).len() == 0);
    }
    None
}

/// What one key contributes to a timestamp extraction. A string field
/// that parses (RFC 3339 first, then `"YYYY-MM-DD HH:MM:SS"`) ends the
/// scan with its instant; a string that parses as neither yields
/// nothing and the scan goes on. An integer field always ends the scan:
/// with itself as epoch seconds when representable, otherwise with no
/// timestamp at all.
pub open spec fn field_timestamp(v: JsonValue, key: Seq<char>) -> Option<Option<i64>> {
    match v {
        JsonValue::Obj(fields) => match lookup_spec(fields@, key) {
            Some(JsonValue::Str(s)) => match utc_datetime_epoch(s@) {
                Some(t) => Some(Some(t)),
                None => match naive_datetime_epoch(s@) {
                    Some(t) => Some(Some(t)),
                    None => None,
                },
            },
            Some(JsonValue::Int(n)) => Some(
                if epoch_seconds_valid(n) {
                    Some(n)
                } else {
                    None
                },
            ),
            _ => None,
        },
        _ => None,
    }
}

/// The timestamp contributed by the first key that ends the scan.
pub open spec fn extract_timestamp_spec(v: JsonValue, keys: Seq<Seq<char>>) -> Option<i64>
    decreases keys.len(),
{
    if keys.len() == 0 {
        None
    } else {
        match field_timestamp(v, keys[0]) {
            Some(t) => t,
            None => extract_timestamp_spec(v, keys.drop_first()),
        }
    }
}

/// Pull a timestamp (epoch seconds) out of a record, trying the given
/// key names in order.
pub fn extract_timestamp(v: &JsonValue, keys: &[&str]) -> (r: Option<i64>)
    ensures
        r == extract_timestamp_spec(*v, strs_view(keys@)),
{
    let ghost kv = strs_view(keys@);
    let mut k: usize = 0;
    proof {
        assert(kv.skip(0) =~= kv);
    }
    while k < keys.len()
        invariant
            k <= keys@.len(),
            kv == strs_view(keys@),
            extract_timestamp_spec(*v, kv) == extract_timestamp_spec(*v, kv.skip(k as int)),
        decreases keys@.len() - k,
    {
        proof {
            assert(kv.skip(k as int)[0] == kv[k as int]);
            assert(kv.skip(k as int).drop_first() =~= kv.skip(k + 1));
        }
        let key: &str = keys[k];
        match v {
            JsonValue::Obj(fields) => {
                match find_entry(fields, key) {
                    Some(i) => {
                        match &fields[i].1 {
                            JsonValue::Str(s) => {
                                match parse_utc_datetime(s.as_str()) {
                                    Some(t) => {
                                        return Some(t);
                                    },
                                    None => {
                                        match parse_naive_datetime(s.as_str()) {
                                            Some(t) => {
                                                return Some(t);
                                            },
                                            None => {},
                                        }
                                    },
                                }
                            },
                            JsonValue::Int(n) => {
                                if check_epoch_seconds(*n) {
                                    return Some(*n);
                                } else {
                                    return None;
                                }
                            },
                            _ => {},
                        }
                    },
                    None => {},
                }
            },
            _ => {},
        }
        k = k + 1;
    }
    proof {
        assert(kv.skip(k as int).len() == 0);
    }
    None
}

} // verus!
