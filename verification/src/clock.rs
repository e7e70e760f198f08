//! Upload timestamps: the system clock, rendered by `chrono` in RFC 3339.
use vstd::prelude::*;
use std::time::SystemTime;
use crate::text::opt_chars;

verus! {

/// `std::time::SystemTime`, a reading of the system clock.
#[verifier::external_type_specification]
#[verifier::external_body]
pub struct ExSystemTime(SystemTime);

/// Whether `s` ends with the UTC offset `+00:00`.
pub open spec fn ends_with_utc_offset(s: Seq<char>) -> bool {
    &&& s.len() >= 6
    &&& s.subrange(s.len() - 6, s.len() as int) == seq!['+', '0', '0', ':', '0', '0']
}

/// Calls `std::time::SystemTime::now`. Nothing is stated of the reading.
#[verifier::external_body]
fn system_now() -> (t: SystemTime) {
    SystemTime::now()
}

/// Calls `SystemTime::duration_since(UNIX_EPOCH)` and splits the duration into
/// whole seconds and nanoseconds. `None` when the reading lies before the
/// epoch. Trusted: the nanoseconds are below one billion, as
/// `Duration::subsec_nanos` documents. The values depend on the reading,
/// which is opaque, and are not stated.
#[verifier::external_body]
fn since_unix_epoch(t: &SystemTime) -> (r: Option<(u64, u32)>)
    ensures
        r matches Some(p) ==> p.1 < 1_000_000_000,
{
    match t.duration_since(std::time::UNIX_EPOCH) {
        Ok(d) => Some((d.as_secs(), d.subsec_nanos())),
        Err(_) => None,
    }
}

/// The RFC 3339 text that chrono gives the UTC instant `secs` seconds and
/// `nanos` nanoseconds after the epoch, `None` when chrono cannot represent
/// that instant.
pub uninterp spec fn rfc3339_utc(secs: i64, nanos: u32) -> Option<Seq<char>>;

/// Calls `chrono::DateTime::from_timestamp` and renders the instant with
/// `to_rfc3339`. Trusted: the result depends on `secs` and `nanos` alone
/// (named `rfc3339_utc`), and a text ends with the offset `+00:00`
/// (`to_rfc3339` writes the UTC offset with a colon and never as `Z`). Which
/// inputs chrono can represent (`None` otherwise) and the date and time
/// digits are not stated.
#[verifier::external_body]
fn rfc3339_from_timestamp(secs: i64, nanos: u32) -> (res: Option<String>)
    ensures
        opt_chars(res) == rfc3339_utc(secs, nanos),
        res matches Some(t) ==> ends_with_utc_offset(t@),
{
    match chrono::DateTime::from_timestamp(secs, nanos) {
        Some(d) => Some(d.to_rfc3339()),
        None => None,
    }
}

/// The RFC 3339 text of the instant `secs` seconds and `nanos` nanoseconds
/// after the epoch; `None` when it cannot be written (the seconds exceed the
/// signed 64-bit range, or chrono cannot represent the instant).
pub fn utc_time_text(secs: u64, nanos: u32) -> (res: Option<String>)
    ensures
        secs <= i64::MAX ==> opt_chars(res) == rfc3339_utc(secs as i64, nanos),
        secs > i64::MAX ==> res is None,
        res matches Some(t) ==> ends_with_utc_offset(t@),
{
    if secs <= 0x7fff_ffff_ffff_ffffu64 {
        rfc3339_from_timestamp(secs as i64, nanos)
    } else {
        None
    }
}

/// Whether `r` is what `since_unix_epoch` returned for a reading `t` that
/// `system_now` returned: the clock's offset from the epoch at some call.
pub closed spec fn is_clock_reading(t: SystemTime, r: Option<(u64, u32)>) -> bool {
    call_ensures(system_now, (), t) && call_ensures(since_unix_epoch, (&t,), r)
}

/// The upload time written for a clock reading: the RFC 3339 text of the
/// instant `secs` seconds and `nanos` nanoseconds after the epoch, `None` when
/// the clock read before the epoch or the instant cannot be written.
pub open spec fn time_of_reading(r: Option<(u64, u32)>) -> Option<Seq<char>> {
    match r {
        Some(p) => if p.0 <= i64::MAX {
            rfc3339_utc(p.0 as i64, p.1)
        } else {
            None
        },
        None => None,
    }
}

/// The current time in RFC 3339 form; `None` when the clock reads before the
/// epoch or beyond the range of dates that can be written. The text is that
/// of the very reading the clock gave on this call.
pub fn upload_time_now() -> (res: Option<String>)
    ensures
        res matches Some(t) ==> ends_with_utc_offset(t@),
        exists|t: SystemTime, r: Option<(u64, u32)>|
            #[trigger] is_clock_reading(t, r) && opt_chars(res) == time_of_reading(r),
{
    let read_now = system_now;
    let now = read_now();
    let offset = since_unix_epoch;
    let r = offset(&now);
    assert(is_clock_reading(now, r));
    match r {
        None => None,
        Some((secs, nanos)) => utc_time_text(secs, nanos),
    }
}

/// The upload time follows the clock reading: equal readings give equal
/// times, different times come only from different readings, a reading before
/// the epoch gives none, and a reading within range gives chrono's RFC 3339
/// text of exactly that instant.
pub proof fn lemma_upload_time_follows_reading(r1: Option<(u64, u32)>, r2: Option<(u64, u32)>)
    ensures
        r1 == r2 ==> time_of_reading(r1) == time_of_reading(r2),
        time_of_reading(r1) != time_of_reading(r2) ==> r1 != r2,
        r1 is None ==> time_of_reading(r1) is None,
        r1 matches Some(p) ==> (p.0 <= i64::MAX ==> time_of_reading(r1) == rfc3339_utc(p.0 as i64, p.1)),
        r1 matches Some(p) ==> (p.0 > i64::MAX ==> time_of_reading(r1) is None),
{
}

} // verus!
