//! Wall-clock time and time-ordered identifiers. Instants are held as
//! nanoseconds since the Unix epoch (UTC).

use vstd::prelude::*;
use crate::text::{has_prefix, lowercase, to_lowercase};

verus! {

/// Nanoseconds in one second.
pub const NANOS_PER_SECOND: i128 = 1_000_000_000;

/// Instants an `OffsetDateTime` can hold in this build: the years
/// -9999..=9999 (the `time` crate without its `large-dates` feature), from
/// -9999-01-01T00:00:00Z to 9999-12-31T23:59:59.999999999Z.
pub open spec fn instant_bound(t: i128) -> bool {
    datetime_range(t as int)
}

/// Nanoseconds since the epoch that a date-time can hold (see
/// `instant_bound`), as a mathematical integer.
pub open spec fn datetime_range(t: int) -> bool {
    -377_705_203_200_000_000_000 <= t <= 253_402_300_799_999_999_999
}

/// Whether an `OffsetDateTime` can hold an instant.
pub fn instant_fits(t: i128) -> (r: bool)
    ensures
        r == instant_bound(t),
{
    -377_705_203_200_000_000_000 <= t && t <= 253_402_300_799_999_999_999
}

/// `time::OffsetDateTime::now_utc`, as nanoseconds since the Unix epoch. The
/// value depends on the system clock; only the range of `OffsetDateTime` is
/// stated.
#[verifier::external_body]
pub fn now() -> (t: i128)
    ensures
        instant_bound(t),
{
    time::OffsetDateTime::now_utc().unix_timestamp_nanos()
}

/// Instants whose calendar year lies in `0..=9999`, the years that RFC 3339
/// text can hold.
pub open spec fn rfc3339_range(t: i128) -> bool {
    -62_167_219_200_000_000_000 <= t < 253_402_300_800_000_000_000
}

/// Whether RFC 3339 text can hold an instant (its year lies in `0..=9999`).
pub fn rfc3339_fits(t: i128) -> (r: bool)
    ensures
        r == rfc3339_range(t),
{
    -62_167_219_200_000_000_000 <= t && t < 253_402_300_800_000_000_000
}

/// The RFC 3339 text of an instant, as the `time` crate writes it in UTC.
pub uninterp spec fn rfc3339_text(t: i128) -> Seq<char>;

/// `OffsetDateTime::from_unix_timestamp_nanos` followed by
/// `format(&Rfc3339)`. Formatting succeeds exactly for years `0..=9999`; the
/// text then has at least the twenty characters of `YYYY-MM-DDTHH:MM:SSZ`.
#[verifier::external_body]
fn format_rfc3339(t: i128) -> (r: Option<String>)
    ensures
        r is Some <==> rfc3339_range(t),
        r matches Some(s) ==> s@ == rfc3339_text(t) && s@.len() >= 20,
{
    match time::OffsetDateTime::from_unix_timestamp_nanos(t) {
        Ok(d) => d.format(&time::format_description::well_known::Rfc3339).ok(),
        Err(_) => None,
    }
}

/// RFC 3339 text of an instant, or the empty text where the year is out of
/// range (`format(..).unwrap_or_default()`).
pub open spec fn rfc3339_or_empty_text(t: i128) -> Seq<char> {
    if rfc3339_range(t) {
        rfc3339_text(t)
    } else {
        Seq::empty()
    }
}

/// RFC 3339 text of an instant, or the empty text where it cannot be written.
pub fn rfc3339_or_empty(t: i128) -> (r: String)
    ensures
        r@ == rfc3339_or_empty_text(t),
        rfc3339_range(t) ==> r@.len() >= 20,
{
    match format_rfc3339(t) {
        Some(s) => s,
        None => String::new(),
    }
}

/// Whole seconds since the epoch, rounded down (`unix_timestamp`).
pub open spec fn unix_seconds_of(t: i128) -> int {
    t as int / NANOS_PER_SECOND as int
}

/// Whole seconds since the epoch, rounded down.
pub fn unix_seconds(t: i128) -> (s: i128)
    ensures
        s as int == unix_seconds_of(t),
{
    let q = t / NANOS_PER_SECOND;
    let r = t % NANOS_PER_SECOND;
    if r < 0 {
        q - 1
    } else {
        q
    }
}

/// `ulid::Ulid::new().to_string()`: a fresh 26-character identifier built
/// from the clock and randomness. Only its length is stated.
#[verifier::external_body]
fn new_ulid_text() -> (r: String)
    ensures
        r@.len() == 26,
{
    ulid::Ulid::new().to_string()
}

/// A fresh identifier: `prefix` followed by a lower-cased ULID.
pub fn fresh_id(prefix: &str) -> (r: String)
    ensures
        exists|u: Seq<char>| u.len() == 26 && r@ == prefix@ + lowercase(u),
        has_prefix(r@, prefix@),
{
    let u = new_ulid_text();
    let low = to_lowercase(u.as_str());
    let mut r = String::from_str(prefix);
    r.append(low.as_str());
    assert(r@.take(prefix@.len() as int) =~= prefix@);
    r
}

} // verus!
