//! Identity and time: content checksums, fresh item ids, and RFC 3339
//! timestamps in the normalized UTC form the store keeps.

use vstd::prelude::*;

verus! {

/// The lowercase hexadecimal MD5 digest of a byte sequence.
pub uninterp spec fn md5_hex_of(data: Seq<u8>) -> Seq<char>;

/// The RFC 3339 timestamp re-expressed in UTC, or `None` when the text is
/// not a valid RFC 3339 timestamp.
pub uninterp spec fn rfc3339_utc_of(s: Seq<char>) -> Option<Seq<char>>;

/// A timestamp already in the normalized form the library stores: valid
/// RFC 3339 text that re-normalizes to itself.
pub open spec fn canonical_timestamp(s: Seq<char>) -> bool {
    rfc3339_utc_of(s) == Some(s)
}

/// Relies on `md5::compute`, whose digest is a pure function of the bytes,
/// and on the digest's `LowerHex` formatting: two lowercase hex digits per
/// digest byte, 32 characters in all.
#[verifier::external_body]
pub fn md5_hex(data: &Vec<u8>) -> (r: String)
    ensures
        r@ == md5_hex_of(data@),
        r@.len() == 32,
{
    let digest = md5::compute(data.as_slice());
    format!("{:x}", digest)
}

/// Relies on `uuid::Uuid::new_v4` and its `Display` form: a random
/// identifier, printed hyphenated as 36 characters. Nothing relates two
/// calls: every outcome is a fresh draw. Aborts the process if the
/// operating system's random source fails — an environmental failure
/// that no input triggers.
#[verifier::external_body]
pub fn new_uuid() -> (r: String)
    ensures
        r@.len() == 36,
{
    uuid::Uuid::new_v4().to_string()
}

/// Relies on `chrono::Utc::now` and `DateTime::to_rfc3339`: the moment of
/// the call, printed as RFC 3339 text with a `+00:00` offset. Assumes the
/// machine clock reads a year in 0 to 9999 — chrono prints years beyond
/// that range with a sign that its own RFC 3339 parser refuses; within
/// the range, the text parses back (`DateTime::parse_from_rfc3339`) and
/// re-prints unchanged, so every outcome is canonical. The moment itself
/// depends on the clock, so nothing more is promised.
#[verifier::external_body]
pub fn now_rfc3339() -> (r: String)
    ensures
        canonical_timestamp(r@),
{
    chrono::Utc::now().to_rfc3339()
}

/// Relies on `chrono::DateTime::parse_from_rfc3339`, a pure function of the
/// text, together with `with_timezone` and `to_rfc3339`: valid RFC 3339
/// text is re-expressed in UTC, anything else is `None`. Nothing more is
/// claimed of the result: an offset can carry an in-range instant across
/// the year-9999 boundary, where the re-printed text no longer parses.
#[verifier::external_body]
pub fn parse_rfc3339_utc(s: &str) -> (r: Option<String>)
    ensures
        match r {
            Some(t) => rfc3339_utc_of(s@) == Some(t@),
            None => rfc3339_utc_of(s@) is None,
        },
{
    match chrono::DateTime::parse_from_rfc3339(s) {
        Ok(dt) => Some(dt.with_timezone(&chrono::Utc).to_rfc3339()),
        Err(_) => None,
    }
}

} // verus!
