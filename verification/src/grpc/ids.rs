//! Random identifiers and wall-clock time, read through `uuid` and `std`.
use vstd::prelude::*;

verus! {

/// Whether `c` is a lower-case hexadecimal digit.
pub open spec fn is_lower_hex(c: char) -> bool {
    ('0' <= c <= '9') || ('a' <= c <= 'f')
}

/// Whether `s` is a UUID as `uuid` writes it by default: 32 lower-case hex
/// digits in groups of 8, 4, 4, 4 and 12 joined by hyphens.
pub open spec fn is_hyphenated_uuid(s: Seq<char>) -> bool {
    &&& s.len() == 36
    &&& forall|i: int| 0 <= i < 36 ==> if i == 8 || i == 13 || i == 18 || i == 23 {
        s[i] == '-'
    } else {
        is_lower_hex(#[trigger] s[i])
    }
}

/// Whether `s` is a UUID in `uuid`'s simple form: 32 lower-case hex
/// digits.
pub open spec fn is_simple_uuid(s: Seq<char>) -> bool {
    s.len() == 32 && forall|i: int| 0 <= i < 32 ==> is_lower_hex(#[trigger] s[i])
}

/// Calls `uuid::Uuid::new_v4` and writes it hyphenated; the value is
/// random, only its form is stated.
#[verifier::external_body]
pub fn new_uuid_hyphenated() -> (r: String)
    ensures
        is_hyphenated_uuid(r@),
{
    uuid::Uuid::new_v4().to_string()
}

/// Calls `uuid::Uuid::new_v4` and writes it in the simple form; the value
/// is random, only its form is stated.
#[verifier::external_body]
pub fn new_uuid_simple() -> (r: String)
    ensures
        is_simple_uuid(r@),
{
    uuid::Uuid::new_v4().simple().to_string()
}

/// Calls `SystemTime::now`; nothing is stated of the time.
#[verifier::external_body]
pub fn system_now() -> (r: std::time::SystemTime) {
    std::time::SystemTime::now()
}

/// Calls `SystemTime::duration_since` from the Unix epoch: whole seconds
/// and the nanoseconds beyond them, or `None` for a time before the epoch.
#[verifier::external_body]
pub fn since_epoch(t: &std::time::SystemTime) -> (r: Option<(u64, u32)>)
    ensures
        r matches Some(p) ==> p.1 < 1_000_000_000,
{
    match t.duration_since(std::time::UNIX_EPOCH) {
        Ok(d) => Some((d.as_secs(), d.subsec_nanos())),
        Err(_) => None,
    }
}

} // verus!
