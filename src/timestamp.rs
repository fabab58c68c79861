use vstd::prelude::*;

use chrono::TimeZone;

verus! {

/// Seconds since the Unix epoch of `0000-01-01T00:00:00Z`, the first instant
/// whose year RFC 2822 can write (it has no negative years).
pub const MIN_RFC2822_SECS: i64 = -62167219200;

/// Seconds since the Unix epoch of `262143-12-31T23:59:59Z`, the last
/// instant that chrono's dates can hold.
pub const MAX_RFC2822_SECS: i64 = 8210298412799;

/// The RFC 2822 text of the UTC instant `secs` seconds after the Unix epoch,
/// as chrono writes it (`Fri, 01 Jan 2021 00:00:00 +0000`).
pub uninterp spec fn rfc2822_of(secs: int) -> Seq<char>;

/// Relies on chrono's `TimeZone::timestamp_opt` for `Utc`, which gives the
/// single instant for every second from year 0 to the last day chrono can
/// hold, and on `DateTime::to_rfc2822`, whose text depends on the instant
/// alone (years past 9999 are written with more digits).
#[verifier::external_body]
fn rfc2822(secs: i64) -> (r: String)
    requires
        MIN_RFC2822_SECS <= secs <= MAX_RFC2822_SECS,
    ensures
        r@ == rfc2822_of(secs as int),
{
    chrono::Utc.timestamp_opt(secs, 0).single().map(|d| d.to_rfc2822()).unwrap_or_default()
}

/// Formats a modification time (seconds since the Unix epoch, UTC) as an
/// RFC 2822 publish date; `None` only for an instant before year 0, which
/// that format cannot write, or past the last one chrono can hold.
pub fn format_timestamp(secs: i64) -> (r: Option<String>)
    ensures
        r is Some <==> MIN_RFC2822_SECS <= secs <= MAX_RFC2822_SECS,
        r is Some ==> r->0@ == rfc2822_of(secs as int),
{
    if MIN_RFC2822_SECS <= secs && secs <= MAX_RFC2822_SECS {
        Some(rfc2822(secs))
    } else {
        None
    }
}

} // verus!
