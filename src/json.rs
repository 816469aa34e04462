//! The parts of `serde_json` that the library reads responses with.
//!
//! A response body is an opaque `serde_json::Value`; the library only looks
//! values up by JSON pointer and reads scalars out of them. What those reads
//! return depends on the value and the pointer alone, so each is named here
//! and the contracts of the readers speak of the names.

use vstd::prelude::*;

verus! {

#[verifier::external_type_specification]
#[verifier::external_body]
pub struct ExValue(serde_json::Value);

/// The value that `pointer` addresses inside `v`, as RFC 6901 resolves it.
pub uninterp spec fn json_lookup(v: serde_json::Value, pointer: Seq<char>) -> Option<
    serde_json::Value,
>;

/// Whether `v` is JSON `null`.
pub uninterp spec fn json_is_null(v: serde_json::Value) -> bool;

/// `v` as an `i64`, where it is a number that fits.
pub uninterp spec fn json_i64(v: serde_json::Value) -> Option<i64>;

/// `v` as a `u64`, where it is a number that fits.
pub uninterp spec fn json_u64(v: serde_json::Value) -> Option<u64>;

/// The characters of `v`, where it is a JSON string.
pub uninterp spec fn json_str(v: serde_json::Value) -> Option<Seq<char>>;

/// Relies on `serde_json::Value::pointer`: looks a value up by JSON pointer.
pub assume_specification<'a>[ serde_json::Value::pointer ](
    v: &'a serde_json::Value,
    pointer: &str,
) -> (r: Option<&'a serde_json::Value>)
    ensures
        match r {
            Some(x) => json_lookup(*v, pointer@) == Some(*x),
            None => json_lookup(*v, pointer@) is None,
        },
;

/// Relies on `serde_json::Value::is_null`: whether the value is JSON `null`.
pub assume_specification[ serde_json::Value::is_null ](v: &serde_json::Value) -> (r: bool)
    ensures
        r == json_is_null(*v),
;

/// Relies on `serde_json::Value::as_i64`: the value as an `i64`, if it is a
/// number that fits.
pub assume_specification[ serde_json::Value::as_i64 ](v: &serde_json::Value) -> (r: Option<i64>)
    ensures
        r == json_i64(*v),
;

/// Relies on `serde_json::Value::as_u64`: the value as a `u64`, if it is a
/// number that fits.
pub assume_specification[ serde_json::Value::as_u64 ](v: &serde_json::Value) -> (r: Option<u64>)
    ensures
        r == json_u64(*v),
;

/// Relies on `serde_json::Value::as_str`: the value as a string slice, if it
/// is a JSON string.
pub assume_specification<'a>[ serde_json::Value::as_str ](v: &'a serde_json::Value) -> (r: Option<
    &'a str,
>)
    ensures
        match r {
            Some(s) => json_str(*v) == Some(s@),
            None => json_str(*v) is None,
        },
;

/// The number at `pointer` in `v`, read as an `i64`.
pub open spec fn i64_at(v: serde_json::Value, pointer: Seq<char>) -> Option<i64> {
    match json_lookup(v, pointer) {
        Some(x) => json_i64(x),
        None => None,
    }
}

/// The number at `pointer` in `v`, read as a `u64`.
pub open spec fn u64_at(v: serde_json::Value, pointer: Seq<char>) -> Option<u64> {
    match json_lookup(v, pointer) {
        Some(x) => json_u64(x),
        None => None,
    }
}

/// The string at `pointer` in `v`.
pub open spec fn str_at(v: serde_json::Value, pointer: Seq<char>) -> Option<Seq<char>> {
    match json_lookup(v, pointer) {
        Some(x) => json_str(x),
        None => None,
    }
}

/// Whether `v` holds a value other than `null` at `pointer`.
pub open spec fn present_at(v: serde_json::Value, pointer: Seq<char>) -> bool {
    match json_lookup(v, pointer) {
        Some(x) => !json_is_null(x),
        None => false,
    }
}

} // verus!
