//! Session ids (UUIDs) and instants in their text forms, through the `uuid`
//! and `chrono` crates.
use crate::protocol::Timestamp;
use vstd::prelude::*;

verus! {

/// The UUID that `uuid::Uuid::parse_str` reads from `s` (any of the forms it
/// accepts), as its 128-bit value; `None` where it rejects `s`.
pub uninterp spec fn uuid_from_text(s: Seq<char>) -> Option<u128>;

/// The lowercase hexadecimal digit of `n` (below 16).
pub open spec fn hex_digit(n: nat) -> char {
    seq!['0', '1', '2', '3', '4', '5', '6', '7', '8', '9', 'a', 'b', 'c', 'd', 'e', 'f'][n as int]
}

/// The last `count` hexadecimal digits of `v`, most significant first.
pub open spec fn hex_digits(v: nat, count: nat) -> Seq<char>
    decreases count,
{
    if count == 0 {
        Seq::empty()
    } else {
        hex_digits(v / 16, (count - 1) as nat).push(hex_digit(v % 16))
    }
}

/// The hyphenated lowercase text of a UUID (`uuid::Uuid`'s `Display`): its
/// 32 hexadecimal digits, most significant first, in groups of 8, 4, 4, 4
/// and 12 joined by `-`.
pub open spec fn uuid_text(id: u128) -> Seq<char> {
    let h = hex_digits(id as nat, 32);
    h.subrange(0, 8) + seq!['-'] + h.subrange(8, 12) + seq!['-'] + h.subrange(12, 16) + seq!['-']
        + h.subrange(16, 20) + seq!['-'] + h.subrange(20, 32)
}

/// The instant that `chrono::DateTime::parse_from_rfc3339` reads from `s`,
/// in UTC; `None` where it rejects `s`.
pub uninterp spec fn rfc3339_instant(s: Seq<char>) -> Option<Timestamp>;

/// Parse a UUID (`uuid::Uuid::parse_str`).
#[verifier::external_body]
pub(crate) fn parse_uuid(s: &str) -> (r: Option<u128>)
    ensures
        r == uuid_from_text(s@),
{
    match uuid::Uuid::parse_str(s) {
        Ok(u) => Some(u.as_u128()),
        Err(_) => None,
    }
}

/// The text of a UUID (`uuid::Uuid::to_string`): the hyphenated form, which
/// `uuid::Uuid::parse_str` reads back.
#[verifier::external_body]
pub(crate) fn format_uuid(id: u128) -> (r: String)
    ensures
        r@ == uuid_text(id),
        uuid_from_text(r@) == Some(id),
{
    uuid::Uuid::from_u128(id).to_string()
}

/// Parse an RFC 3339 date-time (`chrono::DateTime::parse_from_rfc3339`) and
/// express it in UTC.
#[verifier::external_body]
pub(crate) fn parse_rfc3339(s: &str) -> (r: Option<Timestamp>)
    ensures
        r == rfc3339_instant(s@),
{
    match chrono::DateTime::parse_from_rfc3339(s) {
        Ok(t) => Some(Timestamp { secs: t.timestamp(), nanos: t.timestamp_subsec_nanos() }),
        Err(_) => None,
    }
}

/// The text `chrono::DateTime::<Utc>::to_rfc3339` writes for an instant.
pub uninterp spec fn rfc3339_text(t: Timestamp) -> Seq<char>;

/// The first second of year 0 and the last second of year 9999 (UTC): the
/// instants whose RFC 3339 text has a four-digit year.
pub const FOUR_DIGIT_YEARS_FIRST_SECS: i64 = -62_167_219_200;

/// The last second of year 9999 (UTC).
pub const FOUR_DIGIT_YEARS_LAST_SECS: i64 = 253_402_300_799;

/// The instant lies in years 0 to 9999, and its nanoseconds are below one
/// second, or below two seconds inside a leap second (the 60th second after
/// a minute's 59th, which chrono admits at any minute's end).
pub open spec fn four_digit_instant(t: Timestamp) -> bool {
    &&& FOUR_DIGIT_YEARS_FIRST_SECS <= t.secs <= FOUR_DIGIT_YEARS_LAST_SECS
    &&& (t.nanos < 1_000_000_000 || (t.nanos < 2_000_000_000 && t.secs % 60 == 59))
}

/// Format an instant as RFC 3339 in UTC (`chrono::DateTime::<Utc>::from_timestamp`
/// then `to_rfc3339`); `None` where chrono has no such instant. An instant
/// in years 0 to 9999 is written with a four-digit year and exact
/// sub-seconds (a leap second as second 60), which `parse_from_rfc3339`
/// reads back.
#[verifier::external_body]
pub(crate) fn format_rfc3339(t: Timestamp) -> (r: Option<String>)
    ensures
        r is Some ==> r->0@ == rfc3339_text(t),
        four_digit_instant(t) ==> r is Some && rfc3339_instant(r->0@) == Some(t),
{
    match chrono::DateTime::<chrono::Utc>::from_timestamp(t.secs, t.nanos) {
        Some(d) => Some(d.to_rfc3339()),
        None => None,
    }
}

/// A fresh time-ordered UUID (`uuid::Uuid::now_v7`), as its 128-bit value.
/// Its version field (bits 76 to 79) reads 7 and its variant field (bits 62
/// and 63) reads `0b10`, as uuid's encoder writes them; the other bits come
/// from the clock and a random source, and nothing is stated of them.
#[verifier::external_body]
pub(crate) fn new_uuid_v7() -> (r: u128)
    ensures
        (r >> 76u128) & 0xfu128 == 7,
        (r >> 62u128) & 0x3u128 == 2,
{
    uuid::Uuid::now_v7().as_u128()
}

/// The current instant (`chrono::Utc::now`), in seconds and nanoseconds
/// since the Unix epoch. It rests on the system clock: nothing is stated of
/// it.
#[verifier::external_body]
pub(crate) fn utc_now() -> (r: Timestamp) {
    let t = chrono::Utc::now();
    Timestamp { secs: t.timestamp(), nanos: t.timestamp_subsec_nanos() }
}

} // verus!
