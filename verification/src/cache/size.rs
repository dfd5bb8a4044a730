//! Estimates of the encoded size of responses.
use vstd::prelude::*;

use crate::proto::{McpError, StreamResponse, StreamResponseMessage, UnityAsset};
use crate::text::{utf8_len, utf8_len_saturating};

verus! {

/// `n`, or `usize::MAX` if it is more.
pub open spec fn sat(n: nat) -> nat {
    if n > usize::MAX { usize::MAX as nat } else { n }
}

/// Bytes of a varint holding `value`, counting at most five.
pub open spec fn varint_size(value: nat) -> nat {
    if value <= 127 {
        1
    } else if value <= 16383 {
        2
    } else if value <= 2097151 {
        3
    } else if value <= 268435455 {
        4
    } else {
        5
    }
}

/// Bytes of a string field: none when empty, else tag, length and bytes.
pub open spec fn string_field_size(s: Seq<char>) -> nat {
    if s.len() == 0 {
        0
    } else {
        1 + varint_size(utf8_len(s)) + utf8_len(s)
    }
}

/// Bytes of an asset's fields.
pub open spec fn asset_size(a: UnityAsset) -> nat {
    string_field_size(a.guid@) + string_field_size(a.asset_path@) + string_field_size(a.asset_type@)
}

/// The magnitude of an `i32`.
pub open spec fn magnitude(c: i32) -> nat {
    if c < 0 { (-c) as nat } else { c as nat }
}

/// Bytes of an error's fields.
pub open spec fn error_size(e: McpError) -> nat {
    (if e.code == 0 { 0 } else { 1 + varint_size(magnitude(e.code)) }) + string_field_size(e.message@)
        + string_field_size(e.details@)
}

/// Bytes of an optional nested field of `size` bytes.
pub open spec fn nested_size(present: bool, size: nat) -> nat {
    if present { 1 + varint_size(size) + size } else { 0 }
}

/// The estimated encoded size of a response, in bytes.
pub open spec fn response_size(r: StreamResponse) -> nat {
    4 + match r.message {
        Some(StreamResponseMessage::ImportAsset(m)) =>
            nested_size(m.asset is Some, match m.asset { Some(a) => asset_size(a), None => 0 })
                + nested_size(m.error is Some, match m.error { Some(e) => error_size(e), None => 0 }),
        Some(StreamResponseMessage::MoveAsset(m)) =>
            nested_size(m.asset is Some, match m.asset { Some(a) => asset_size(a), None => 0 })
                + nested_size(m.error is Some, match m.error { Some(e) => error_size(e), None => 0 }),
        Some(StreamResponseMessage::DeleteAsset(m)) =>
            2 + nested_size(m.error is Some, match m.error { Some(e) => error_size(e), None => 0 }),
        Some(StreamResponseMessage::Refresh(m)) =>
            2 + nested_size(m.error is Some, match m.error { Some(e) => error_size(e), None => 0 }),
        None => 1,
    }
}

/// `a + b`, or `usize::MAX` if that is more.
pub fn add_sat(a: usize, b: usize) -> (r: usize)
    ensures
        r == sat((a + b) as nat),
{
    if a > usize::MAX - b {
        usize::MAX
    } else {
        a + b
    }
}

/// Bytes of a varint holding `value`.
pub fn estimate_varint_size(value: usize) -> (r: usize)
    ensures
        r == varint_size(value as nat),
{
    if value <= 127 {
        1
    } else if value <= 16383 {
        2
    } else if value <= 2097151 {
        3
    } else if value <= 268435455 {
        4
    } else {
        5
    }
}

fn string_field(s: &String) -> (r: usize)
    ensures
        r == sat(string_field_size(s@)),
{
    if s.as_str().is_empty() {
        0
    } else {
        let n = utf8_len_saturating(s.as_str());
        if n == usize::MAX {
            usize::MAX
        } else {
            let v = estimate_varint_size(n);
            add_sat(1 + v, n)
        }
    }
}

/// Estimated bytes of an asset's fields.
pub fn estimate_asset_info_size(asset: &UnityAsset) -> (r: usize)
    ensures
        r == sat(asset_size(*asset)),
{
    let a = string_field(&asset.guid);
    let b = string_field(&asset.asset_path);
    let c = string_field(&asset.asset_type);
    add_sat(add_sat(a, b), c)
}

/// Estimated bytes of an error's fields.
pub fn estimate_error_info_size(error: &McpError) -> (r: usize)
    ensures
        r == sat(error_size(*error)),
{
    let code = if error.code == 0 {
        0
    } else {
        let m: u32 = if error.code < 0 {
            if error.code == i32::MIN { 2147483648u32 } else { (-error.code) as u32 }
        } else {
            error.code as u32
        };
        1 + estimate_varint_size(m as usize)
    };
    let b = string_field(&error.message);
    let c = string_field(&error.details);
    add_sat(add_sat(code, b), c)
}

fn nested(present: bool, size: usize) -> (r: usize)
    ensures
        size < usize::MAX ==> r == sat(nested_size(present, size as nat)),
        size == usize::MAX ==> r == usize::MAX || !present,
        !present ==> r == 0,
{
    if present {
        if size == usize::MAX {
            usize::MAX
        } else {
            add_sat(1 + estimate_varint_size(size), size)
        }
    } else {
        0
    }
}

fn optional_asset(asset: &Option<UnityAsset>) -> (r: usize)
    ensures
        r == sat(nested_size(asset is Some, match asset { Some(a) => asset_size(*a), None => 0 })),
{
    match asset {
        Some(a) => {
            let s = estimate_asset_info_size(a);
            nested(true, s)
        },
        None => 0,
    }
}

fn optional_error(error: &Option<McpError>) -> (r: usize)
    ensures
        r == sat(nested_size(error is Some, match error { Some(e) => error_size(*e), None => 0 })),
{
    match error {
        Some(e) => {
            let s = estimate_error_info_size(e);
            nested(true, s)
        },
        None => 0,
    }
}

/// The estimated encoded size of `response`, in bytes, or `usize::MAX`
/// when it is more.
pub fn estimate_response_size(response: &StreamResponse) -> (r: usize)
    ensures
        r == sat(response_size(*response)),
{
    let body = match &response.message {
        Some(StreamResponseMessage::ImportAsset(m)) => add_sat(optional_asset(&m.asset), optional_error(&m.error)),
        Some(StreamResponseMessage::MoveAsset(m)) => add_sat(optional_asset(&m.asset), optional_error(&m.error)),
        Some(StreamResponseMessage::DeleteAsset(m)) => add_sat(2, optional_error(&m.error)),
        Some(StreamResponseMessage::Refresh(m)) => add_sat(2, optional_error(&m.error)),
        None => 1,
    };
    add_sat(4, body)
}

} // verus!
