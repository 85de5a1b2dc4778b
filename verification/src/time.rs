//! Moments in the notation of RFC 3339.

use crate::types::Timestamp;
use vstd::prelude::*;

verus! {

/// True of a moment that a calendar date can be given to: the years -262143 to
/// 262142, with a leap second only at the end of a minute.
pub open spec fn representable(ts: Timestamp) -> bool {
    &&& -8334601228800 <= ts.secs <= 8210266876799
    &&& ts.nanos < 1_000_000_000 || ts.nanos < 2_000_000_000 && ts.secs % 60 == 59
}

/// True of a moment in the years 0 to 9999, outside a leap second.
pub open spec fn civil(ts: Timestamp) -> bool {
    -62167219200 <= ts.secs < 253402300800 && ts.nanos < 1_000_000_000
}

/// True of a moment that a calendar date can be given to.
pub fn is_representable(ts: Timestamp) -> (r: bool)
    ensures
        r == representable(ts),
{
    if ts.secs < -8334601228800 || ts.secs > 8210266876799 {
        return false;
    }
    if ts.nanos < 1_000_000_000 {
        return true;
    }
    let shifted: u64 = (ts.secs + 8334601228800) as u64;
    assert(shifted % 60 == ts.secs % 60);
    ts.nanos < 2_000_000_000 && shifted % 60 == 59
}

/// What `chrono::DateTime::to_rfc3339_opts` writes for a moment with
/// `SecondsFormat::AutoSi` and `Z`.
pub uninterp spec fn instant_text(secs: i64, nanos: u32) -> Seq<char>;

/// What `chrono::DateTime::to_rfc3339` writes for a moment in UTC.
pub uninterp spec fn rfc3339_text(secs: i64, nanos: u32) -> Seq<char>;

/// The moment that the `FromStr` of `chrono::DateTime<FixedOffset>` reads in a
/// text, if it can read one.
pub uninterp spec fn instant_of(text: Seq<char>) -> Option<Timestamp>;

/// `chrono::DateTime::to_rfc3339_opts`: the text of a moment, down to the
/// nanosecond where it needs it, with `Z` for the offset. The `FromStr` of
/// chrono's date and time reads a civil moment back from it.
#[verifier::external_body]
pub(crate) fn format_instant(ts: Timestamp) -> (r: String)
    requires
        representable(ts),
    ensures
        r@ == instant_text(ts.secs, ts.nanos),
        civil(ts) ==> instant_of(r@) == Some(ts),
{
    let moment = chrono::DateTime::<chrono::Utc>::from_timestamp(ts.secs, ts.nanos);
    moment.expect("moment in range").to_rfc3339_opts(chrono::SecondsFormat::AutoSi, true)
}

/// `chrono::DateTime::to_rfc3339` of a moment in UTC.
#[verifier::external_body]
pub(crate) fn format_rfc3339(ts: Timestamp) -> (r: String)
    requires
        representable(ts),
    ensures
        r@ == rfc3339_text(ts.secs, ts.nanos),
{
    let moment = chrono::DateTime::<chrono::Utc>::from_timestamp(ts.secs, ts.nanos);
    moment.expect("moment in range").to_rfc3339()
}

/// The `FromStr` of `chrono::DateTime<FixedOffset>`, with the moment as
/// seconds and nanoseconds since the Unix epoch. Whatever it reads has a
/// calendar date in UTC.
#[verifier::external_body]
pub(crate) fn parse_instant(text: &str) -> (r: Option<Timestamp>)
    ensures
        r == instant_of(text@),
        r is Some ==> representable(r->0),
{
    let moment = text.parse::<chrono::DateTime<chrono::FixedOffset>>().ok();
    moment.map(|t| Timestamp { secs: t.timestamp(), nanos: t.timestamp_subsec_nanos() })
}

/// The moment that `chrono::DateTime::parse_from_rfc3339` reads in a text, if
/// it can read one.
pub uninterp spec fn rfc3339_instant(text: Seq<char>) -> Option<Timestamp>;

/// `chrono::DateTime::parse_from_rfc3339`, with the moment as seconds and
/// nanoseconds since the Unix epoch.
#[verifier::external_body]
pub(crate) fn parse_rfc3339(text: &str) -> (r: Option<Timestamp>)
    ensures
        r == rfc3339_instant(text@),
{
    let moment = chrono::DateTime::parse_from_rfc3339(text).ok();
    moment.map(|t| Timestamp { secs: t.timestamp(), nanos: t.timestamp_subsec_nanos() })
}

/// The moment of a number of seconds since the Unix epoch, where it has a
/// calendar date.
pub open spec fn unix_moment(secs: int) -> Option<Timestamp> {
    if i64::MIN <= secs <= i64::MAX && representable(Timestamp { secs: secs as i64, nanos: 0 }) {
        Some(Timestamp { secs: secs as i64, nanos: 0 })
    } else {
        None
    }
}

/// The moment that a text names in seconds since the Unix epoch.
pub open spec fn unix_text_moment(text: Seq<char>) -> Option<Timestamp> {
    match crate::text::signed_of(text) {
        Some(secs) => unix_moment(secs),
        None => None,
    }
}

/// The moment that a text names in seconds since the Unix epoch.
pub fn parse_unix_timestamp(text: &str) -> (r: Option<Timestamp>)
    ensures
        r == unix_text_moment(text@),
{
    match crate::text::parse_signed(text) {
        Some(secs) => {
            let ts = Timestamp { secs, nanos: 0 };
            if is_representable(ts) {
                Some(ts)
            } else {
                None
            }
        },
        None => None,
    }
}

} // verus!
