//! Query construction for the per-backend fetch calls.
//!
//! Calendars are asked for the events of a time window with an
//! s-expression over two `YYYYMMDDTHHMMSSZ` stamps; task lists are
//! asked for everything with the boolean-true token; address books
//! are asked for everything with the empty query.

use vstd::prelude::*;

verus! {

/// The last second the stamp format can carry: 9999-12-31T23:59:59Z.
pub const MAX_STAMP: i64 = 253402300799;

/// What chrono renders a UTC timestamp as, in `YYYYMMDDTHHMMSSZ` form.
pub uninterp spec fn utc_stamp_text(t: i64) -> Seq<char>;

/// Relies on chrono's `DateTime::from_timestamp` and `format` with
/// `%Y%m%dT%H%M%SZ`: a rendering that depends on the timestamp alone.
#[verifier::external_body]
pub fn format_utc_stamp(t: i64) -> (r: String)
    requires
        0 <= t <= MAX_STAMP,
    ensures
        r@ == utc_stamp_text(t),
{
    let dt = chrono::DateTime::<chrono::Utc>::from_timestamp(t, 0).unwrap();
    dt.format("%Y%m%dT%H%M%SZ").to_string()
}

/// The fetch window around `now`: `days_behind` days back to
/// `days_ahead` days forward, in seconds.
pub fn time_window(now: i64, days_behind: u32, days_ahead: u32) -> (r: (i64, i64))
    requires
        i64::MIN <= now - days_behind * 86400,
        now + days_ahead * 86400 <= i64::MAX,
    ensures
        r.0 == now - days_behind * 86400,
        r.1 == now + days_ahead * 86400,
{
    let start = now - (days_behind as i64) * 86400;
    let end = now + (days_ahead as i64) * 86400;
    (start, end)
}

/// The time-range query around two rendered stamps.
pub open spec fn spec_calendar_query(s: Seq<char>, e: Seq<char>) -> Seq<char> {
    "(occur-in-time-range? (make-time \\\""@ + s + "\\\") (make-time \\\""@ + e + "\\\"))"@
}

/// The calendar query for a time window: an `occur-in-time-range?`
/// expression over the two stamps.
pub fn calendar_query(start: i64, end: i64) -> (r: String)
    requires
        0 <= start <= MAX_STAMP,
        0 <= end <= MAX_STAMP,
    ensures
        r@ == spec_calendar_query(utc_stamp_text(start), utc_stamp_text(end)),
{
    let mut q: String = "(occur-in-time-range? (make-time \\\"".to_owned();
    let s = format_utc_stamp(start);
    q.append(s.as_str());
    q.append("\\\") (make-time \\\"");
    let e = format_utc_stamp(end);
    q.append(e.as_str());
    q.append("\\\"))");
    proof {
        assert(q@ =~= spec_calendar_query(utc_stamp_text(start), utc_stamp_text(end)));
    }
    q
}

/// The task-list query: the boolean-true token, everything matches.
pub fn task_list_query() -> (r: String)
    ensures
        r@ == "#t"@,
{
    "#t".to_owned()
}

/// The address-book query: the empty query, everything matches.
pub fn address_book_query() -> (r: String)
    ensures
        r@ == ""@,
{
    "".to_owned()
}

} // verus!
