//! An owned JSON document model, and the readers that decode single members
//! of a JSON object into typed values.
use vstd::prelude::*;

verus! {

/// A JSON number: an integer, or the text of a number with a fraction or an
/// exponent.
#[derive(Debug)]
pub enum JsonNumber {
    Int(i128),
    Real(String),
}

/// A JSON document. The members of an object keep their order.
#[derive(Debug)]
pub enum JsonValue {
    Null,
    Bool(bool),
    Number(JsonNumber),
    Str(String),
    Array(Vec<JsonValue>),
    Object(Vec<(String, JsonValue)>),
}

impl JsonNumber {
    /// A copy of this number.
    pub fn duplicate(&self) -> (r: JsonNumber)
        ensures
            r == *self,
    {
        match self {
            JsonNumber::Int(n) => JsonNumber::Int(*n),
            JsonNumber::Real(s) => JsonNumber::Real(s.clone()),
        }
    }
}

/// The members of a JSON object; no members for any other value.
pub open spec fn entries_of(v: JsonValue) -> Seq<(String, JsonValue)> {
    match v {
        JsonValue::Object(e) => e@,
        _ => Seq::empty(),
    }
}

/// The value of the first member named `key`, searching from position `i`.
pub open spec fn member_from(entries: Seq<(String, JsonValue)>, key: Seq<char>, i: int) -> Option<
    JsonValue,
>
    decreases entries.len() - i,
{
    if i < 0 || i >= entries.len() {
        None
    } else if entries[i].0@ == key {
        Some(entries[i].1)
    } else {
        member_from(entries, key, i + 1)
    }
}

/// The value of the first member named `key` of an object.
pub open spec fn member(entries: Seq<(String, JsonValue)>, key: Seq<char>) -> Option<JsonValue> {
    member_from(entries, key, 0)
}

/// A required string member.
pub open spec fn req_text(entries: Seq<(String, JsonValue)>, key: Seq<char>) -> Option<Seq<char>> {
    match member(entries, key) {
        Some(JsonValue::Str(s)) => Some(s@),
        _ => None,
    }
}

/// An optional string member: absent or `null` reads as no value.
pub open spec fn opt_text(entries: Seq<(String, JsonValue)>, key: Seq<char>) -> Option<
    Option<Seq<char>>,
> {
    match member(entries, key) {
        None => Some(None),
        Some(JsonValue::Null) => Some(None),
        Some(JsonValue::Str(s)) => Some(Some(s@)),
        _ => None,
    }
}

/// A required boolean member.
pub open spec fn req_bool(entries: Seq<(String, JsonValue)>, key: Seq<char>) -> Option<bool> {
    match member(entries, key) {
        Some(JsonValue::Bool(b)) => Some(b),
        _ => None,
    }
}

/// An optional boolean member.
pub open spec fn opt_bool(entries: Seq<(String, JsonValue)>, key: Seq<char>) -> Option<
    Option<bool>,
> {
    match member(entries, key) {
        None => Some(None),
        Some(JsonValue::Null) => Some(None),
        Some(JsonValue::Bool(b)) => Some(Some(b)),
        _ => None,
    }
}

/// A required integer member that lies in `lo..=hi`.
pub open spec fn req_int(entries: Seq<(String, JsonValue)>, key: Seq<char>, lo: int, hi: int) -> Option<int> {
    match member(entries, key) {
        Some(JsonValue::Number(JsonNumber::Int(n))) => if lo <= n <= hi {
            Some(n as int)
        } else {
            None
        },
        _ => None,
    }
}

/// An optional integer member that lies in `lo..=hi` when present.
pub open spec fn opt_int(entries: Seq<(String, JsonValue)>, key: Seq<char>, lo: int, hi: int) -> Option<
    Option<int>,
> {
    match member(entries, key) {
        None => Some(None),
        Some(JsonValue::Null) => Some(None),
        Some(JsonValue::Number(JsonNumber::Int(n))) => if lo <= n <= hi {
            Some(Some(n as int))
        } else {
            None
        },
        _ => None,
    }
}

/// An optional number member, integer or not.
pub open spec fn opt_number(entries: Seq<(String, JsonValue)>, key: Seq<char>) -> Option<
    Option<JsonNumber>,
> {
    match member(entries, key) {
        None => Some(None),
        Some(JsonValue::Null) => Some(None),
        Some(JsonValue::Number(n)) => Some(Some(n)),
        _ => None,
    }
}

/// The view of an optional string.
pub open spec fn text_view(o: Option<String>) -> Option<Seq<char>> {
    match o {
        Some(s) => Some(s@),
        None => None,
    }
}

/// Looks up the first member named `key` of an object.
pub fn get_member<'a>(entries: &'a Vec<(String, JsonValue)>, key: &str) -> (r: Option<&'a JsonValue>)
    ensures
        r is Some <==> member(entries@, key@) is Some,
        r is Some ==> *r->0 == member(entries@, key@)->0,
{
    let k = key.to_owned();
    let mut i: usize = 0;
    while i < entries.len()
        invariant
            k@ == key@,
            i <= entries@.len(),
            member_from(entries@, key@, 0) == member_from(entries@, key@, i as int),
        decreases entries@.len() - i,
    {
        if entries[i].0 == k {
            return Some(&entries[i].1);
        }
        i = i + 1;
    }
    None
}

/// The integer view of an optional `i32`.
pub open spec fn i32_view(o: Option<i32>) -> Option<int> {
    match o {
        Some(n) => Some(n as int),
        None => None,
    }
}

/// The integer view of an optional `u32`.
pub open spec fn u32_view(o: Option<u32>) -> Option<int> {
    match o {
        Some(n) => Some(n as int),
        None => None,
    }
}

/// The integer view of an optional `i64`.
pub open spec fn i64_view(o: Option<i64>) -> Option<int> {
    match o {
        Some(n) => Some(n as int),
        None => None,
    }
}

/// The integer view of an optional `u64`.
pub open spec fn u64_view(o: Option<u64>) -> Option<int> {
    match o {
        Some(n) => Some(n as int),
        None => None,
    }
}

/// Reads a required string member.
pub fn read_text(entries: &Vec<(String, JsonValue)>, key: &str) -> (r: Option<String>)
    ensures
        r is Some <==> req_text(entries@, key@) is Some,
        r is Some ==> r->0@ == req_text(entries@, key@)->0,
{
    match get_member(entries, key) {
        Some(JsonValue::Str(s)) => Some(s.clone()),
        _ => None,
    }
}

/// Reads an optional string member.
pub fn read_opt_text(entries: &Vec<(String, JsonValue)>, key: &str) -> (r: Option<Option<String>>)
    ensures
        r is Some <==> opt_text(entries@, key@) is Some,
        r is Some ==> text_view(r->0) == opt_text(entries@, key@)->0,
{
    match get_member(entries, key) {
        None => Some(None),
        Some(JsonValue::Null) => Some(None),
        Some(JsonValue::Str(s)) => Some(Some(s.clone())),
        _ => None,
    }
}

/// Reads a required boolean member.
pub fn read_bool(entries: &Vec<(String, JsonValue)>, key: &str) -> (r: Option<bool>)
    ensures
        r == req_bool(entries@, key@),
{
    match get_member(entries, key) {
        Some(JsonValue::Bool(b)) => Some(*b),
        _ => None,
    }
}

/// Reads an optional boolean member.
pub fn read_opt_bool(entries: &Vec<(String, JsonValue)>, key: &str) -> (r: Option<Option<bool>>)
    ensures
        r == opt_bool(entries@, key@),
{
    match get_member(entries, key) {
        None => Some(None),
        Some(JsonValue::Null) => Some(None),
        Some(JsonValue::Bool(b)) => Some(Some(*b)),
        _ => None,
    }
}

/// Reads an optional number member.
pub fn read_opt_number(entries: &Vec<(String, JsonValue)>, key: &str) -> (r: Option<
    Option<JsonNumber>,
>)
    ensures
        r == opt_number(entries@, key@),
{
    match get_member(entries, key) {
        None => Some(None),
        Some(JsonValue::Null) => Some(None),
        Some(JsonValue::Number(n)) => Some(Some(n.duplicate())),
        _ => None,
    }
}

/// Reads a required integer member that must lie in `lo..=hi`.
pub fn read_int(entries: &Vec<(String, JsonValue)>, key: &str, lo: i128, hi: i128) -> (r: Option<
    i128,
>)
    ensures
        r is Some <==> req_int(entries@, key@, lo as int, hi as int) is Some,
        r is Some ==> r->0 as int == req_int(entries@, key@, lo as int, hi as int)->0,
{
    match get_member(entries, key) {
        Some(JsonValue::Number(JsonNumber::Int(n))) => if lo <= *n && *n <= hi {
            Some(*n)
        } else {
            None
        },
        _ => None,
    }
}

/// Reads an optional integer member that must lie in `lo..=hi` when present.
pub fn read_opt_int(entries: &Vec<(String, JsonValue)>, key: &str, lo: i128, hi: i128) -> (r:
    Option<Option<i128>>)
    ensures
        r is Some <==> opt_int(entries@, key@, lo as int, hi as int) is Some,
        r is Some ==> (r->0 is Some <==> opt_int(entries@, key@, lo as int, hi as int)->0 is Some),
        r is Some && r->0 is Some ==> r->0->0 as int == opt_int(
            entries@,
            key@,
            lo as int,
            hi as int,
        )->0->0,
        r is Some && r->0 is Some ==> lo <= r->0->0 <= hi,
{
    match get_member(entries, key) {
        None => Some(None),
        Some(JsonValue::Null) => Some(None),
        Some(JsonValue::Number(JsonNumber::Int(n))) => if lo <= *n && *n <= hi {
            Some(Some(*n))
        } else {
            None
        },
        _ => None,
    }
}

/// Reads a required `i32` member.
pub fn read_i32(entries: &Vec<(String, JsonValue)>, key: &str) -> (r: Option<i32>)
    ensures
        r is Some <==> req_int(entries@, key@, i32::MIN as int, i32::MAX as int) is Some,
        r is Some ==> r->0 as int == req_int(entries@, key@, i32::MIN as int, i32::MAX as int)->0,
{
    match read_int(entries, key, i32::MIN as i128, i32::MAX as i128) {
        Some(n) => Some(n as i32),
        None => None,
    }
}

/// Reads an optional `i32` member.
pub fn read_opt_i32(entries: &Vec<(String, JsonValue)>, key: &str) -> (r: Option<Option<i32>>)
    ensures
        r is Some <==> opt_int(entries@, key@, i32::MIN as int, i32::MAX as int) is Some,
        r is Some ==> i32_view(r->0) == opt_int(entries@, key@, i32::MIN as int, i32::MAX as int)->0,
{
    match read_opt_int(entries, key, i32::MIN as i128, i32::MAX as i128) {
        Some(Some(n)) => Some(Some(n as i32)),
        Some(None) => Some(None),
        None => None,
    }
}

/// Reads an optional `u32` member.
pub fn read_opt_u32(entries: &Vec<(String, JsonValue)>, key: &str) -> (r: Option<Option<u32>>)
    ensures
        r is Some <==> opt_int(entries@, key@, 0, u32::MAX as int) is Some,
        r is Some ==> u32_view(r->0) == opt_int(entries@, key@, 0, u32::MAX as int)->0,
{
    match read_opt_int(entries, key, 0, u32::MAX as i128) {
        Some(Some(n)) => Some(Some(n as u32)),
        Some(None) => Some(None),
        None => None,
    }
}

/// Reads an optional `i64` member.
pub fn read_opt_i64(entries: &Vec<(String, JsonValue)>, key: &str) -> (r: Option<Option<i64>>)
    ensures
        r is Some <==> opt_int(entries@, key@, i64::MIN as int, i64::MAX as int) is Some,
        r is Some ==> i64_view(r->0) == opt_int(entries@, key@, i64::MIN as int, i64::MAX as int)->0,
{
    match read_opt_int(entries, key, i64::MIN as i128, i64::MAX as i128) {
        Some(Some(n)) => Some(Some(n as i64)),
        Some(None) => Some(None),
        None => None,
    }
}

/// Reads an optional `u64` member.
pub fn read_opt_u64(entries: &Vec<(String, JsonValue)>, key: &str) -> (r: Option<Option<u64>>)
    ensures
        r is Some <==> opt_int(entries@, key@, 0, u64::MAX as int) is Some,
        r is Some ==> u64_view(r->0) == opt_int(entries@, key@, 0, u64::MAX as int)->0,
{
    match read_opt_int(entries, key, 0, u64::MAX as i128) {
        Some(Some(n)) => Some(Some(n as u64)),
        Some(None) => Some(None),
        None => None,
    }
}

} // verus!
