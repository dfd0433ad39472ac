//! Wall-clock texts in the America/Lima zone, computed by `chrono` and
//! `chrono-tz`. Times are carried as Unix timestamps in whole seconds.

use vstd::prelude::*;

verus! {

/// The text `"%Y-%m-%d %H:%M:%S"` of the instant `secs` seconds after the Unix
/// epoch, on the America/Lima wall clock; `None` when that instant lies outside
/// the range of `chrono`'s date type.
pub uninterp spec fn lima_clock_text(secs: i64) -> Option<Seq<char>>;

/// Minutes from the wall-clock text `earlier` to `later`, both read with the
/// format `"%Y-%m-%d %H:%M:%S"`, truncated toward zero; `None` when either
/// text does not parse.
pub uninterp spec fn minutes_between_texts(later: Seq<char>, earlier: Seq<char>) -> Option<i64>;

/// `DateTime::from_timestamp(secs, 0)`, then `with_timezone(&Lima)` and
/// `format("%Y-%m-%d %H:%M:%S").to_string()`. The text is named, not stated:
/// it is a function of `secs` alone (the zone rules are those compiled into
/// `chrono-tz`, not the machine's).
#[verifier::external_body]
pub(crate) fn lima_text(secs: i64) -> (r: Option<String>)
    ensures
        r matches Some(t) ==> lima_clock_text(secs) == Some(t@),
        r is None ==> lima_clock_text(secs) is None,
{
    match chrono::DateTime::from_timestamp(secs, 0) {
        Some(t) => Some(t.with_timezone(&chrono_tz::America::Lima).format("%Y-%m-%d %H:%M:%S").to_string()),
        None => None,
    }
}

/// `NaiveDateTime::parse_from_str` on both texts with `"%Y-%m-%d %H:%M:%S"`,
/// then their difference (`later - earlier`) and `TimeDelta::num_minutes`.
/// The result is named, not stated.
#[verifier::external_body]
pub(crate) fn minutes_between(later: &str, earlier: &str) -> (r: Option<i64>)
    ensures
        r == minutes_between_texts(later@, earlier@),
{
    let fmt = "%Y-%m-%d %H:%M:%S";
    match (chrono::NaiveDateTime::parse_from_str(later, fmt), chrono::NaiveDateTime::parse_from_str(earlier, fmt)) {
        (Ok(a), Ok(b)) => Some((a - b).num_minutes()),
        _ => None,
    }
}

/// `TimeDelta::minutes` panics above this many minutes either way (its range
/// is `i64::MAX` milliseconds).
pub const MAX_WINDOW_MINUTES: i64 = 153722867280912;

/// The text of the instant `minutes` minutes before `now`, when the window
/// fits `chrono`'s duration range (an instant beyond `i64` seconds is beyond
/// `chrono`'s date range too).
pub open spec fn window_start_text(now: i64, minutes: i64) -> Option<Seq<char>> {
    let start = now - 60 * minutes;
    if -MAX_WINDOW_MINUTES <= minutes <= MAX_WINDOW_MINUTES && i64::MIN <= start <= i64::MAX {
        lima_clock_text(start as i64)
    } else {
        None
    }
}

/// The Lima wall-clock text of `minutes` minutes before `now`; `None` where
/// `now - TimeDelta::minutes(minutes)` would panic.
pub fn window_start(now: i64, minutes: i64) -> (r: Option<String>)
    ensures
        r matches Some(t) ==> window_start_text(now, minutes) == Some(t@),
        r is None ==> window_start_text(now, minutes) is None,
{
    if minutes < -MAX_WINDOW_MINUTES || minutes > MAX_WINDOW_MINUTES {
        return None;
    }
    let start: i128 = now as i128 - 60 * (minutes as i128);
    if start < i64::MIN as i128 || start > i64::MAX as i128 {
        return None;
    }
    lima_text(start as i64)
}

} // verus!
