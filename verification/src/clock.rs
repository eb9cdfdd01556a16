//! Instants and their HTTP date text.
//!
//! An instant is a count of milliseconds since 1970-01-01 00:00:00 UTC. The
//! text of a date, as headers carry it, is written and read by `chrono`.

use vstd::prelude::*;
use vstd::string::*;

verus! {

/// The first instant of the year 0.
pub const FIRST_DATED_MS: i64 = -62_167_219_200_000;

/// The first instant of the year 10000.
pub const END_DATED_MS: i64 = 253_402_300_800_000;

/// Whether an instant falls in a year that a date of four digits can show.
pub open spec fn has_date_text(ms: int) -> bool {
    FIRST_DATED_MS <= ms < END_DATED_MS
}

/// The pattern of an HTTP date in its preferred form: the day name, the day
/// in two digits, the month name, the year in four digits, the time of day,
/// and the zone `GMT`, as in `Thu, 01 Jan 1970 00:00:00 GMT`. Written for
/// `chrono` it is `%a, %d %b %Y %H:%M:%S GMT`.
pub open spec fn http_date_pattern() -> Seq<char> {
    seq![
        '%', 'a', ',', ' ', '%', 'd', ' ', '%', 'b', ' ', '%', 'Y', ' ', '%', 'H', ':', '%', 'M',
        ':', '%', 'S', ' ', 'G', 'M', 'T',
    ]
}

/// The text of an instant in UTC that `chrono` writes for a pattern.
pub uninterp spec fn formatted_instant(ms: int, pattern: Seq<char>) -> Seq<char>;

/// The HTTP date of an instant.
pub open spec fn http_date_text(ms: int) -> Seq<char> {
    formatted_instant(ms, http_date_pattern())
}

/// The instant that `chrono` reads from an RFC 2822 date, of which an HTTP
/// date is one form, or `None` where the text is no such date.
pub uninterp spec fn rfc2822_instant(text: Seq<char>) -> Option<i64>;

/// The modification time to record for a response: the instant that its
/// `Last-Modified` header states, or the time of arrival where the header is
/// missing, cannot be read, or states an instant that has no date text and
/// so could not be stated in a later request.
pub open spec fn mtime_from(stated: Option<i64>, now_ms: i64) -> i64 {
    match stated {
        Some(ms) => if has_date_text(ms as int) {
            ms
        } else {
            now_ms
        },
        None => now_ms,
    }
}

/// The instant that a `Last-Modified` header states, if any.
pub open spec fn stated_instant(header: Option<Seq<char>>) -> Option<i64> {
    match header {
        Some(text) => rfc2822_instant(text),
        None => None,
    }
}

/// The instant that lies `secs` seconds and `nanos` nanoseconds from the
/// epoch, after it or before it, in milliseconds. A part of a millisecond
/// is dropped toward the earlier instant.
pub open spec fn millis_from_epoch(before_epoch: bool, secs: u64, nanos: u32) -> int {
    if before_epoch {
        (0 - (secs * 1_000_000_000 + nanos)) / 1_000_000
    } else {
        (secs * 1_000_000_000 + nanos) / 1_000_000
    }
}

/// `ms`, held within what an instant can show.
pub open spec fn clamped(ms: int) -> i64 {
    if ms > i64::MAX {
        i64::MAX
    } else if ms < i64::MIN {
        i64::MIN
    } else {
        ms as i64
    }
}

/// Calls `chrono::DateTime::from_timestamp_millis` and then
/// `DateTime::format` with `pattern` on the result, and gives the text.
/// Trusted: the text is a function of the instant and the pattern alone, and
/// with the pattern of an HTTP date the calls do not panic for an instant
/// whose year in UTC lies between 0 and 9999.
#[verifier::external_body]
fn format_instant(ms: i64, pattern: &str) -> (text: String)
    requires
        has_date_text(ms as int),
        pattern@ == http_date_pattern(),
    ensures
        text@ == formatted_instant(ms as int, pattern@),
{
    match chrono::DateTime::from_timestamp_millis(ms) {
        Some(instant) => instant.format(pattern).to_string(),
        None => String::new(),
    }
}

/// Calls `chrono::DateTime::parse_from_rfc2822` and then
/// `DateTime::timestamp_millis` on the result. Trusted: whether the text is
/// read as a date, and as which instant, is a function of the text alone.
#[verifier::external_body]
fn parse_rfc2822(text: &str) -> (ms: Option<i64>)
    ensures
        ms == rfc2822_instant(text@),
{
    match chrono::DateTime::parse_from_rfc2822(text) {
        Ok(instant) => Some(instant.timestamp_millis()),
        Err(_) => None,
    }
}

/// The HTTP date of `ms` for a conditional request, or `None` where the
/// instant lies outside the years 0 to 9999 and has no such text.
pub fn date_text(ms: i64) -> (text: Option<String>)
    ensures
        text is Some <==> has_date_text(ms as int),
        text matches Some(t) ==> t@ == http_date_text(ms as int),
{
    if FIRST_DATED_MS <= ms && ms < END_DATED_MS {
        proof {
            reveal_strlit("%a, %d %b %Y %H:%M:%S GMT");
            assert("%a, %d %b %Y %H:%M:%S GMT"@ =~= http_date_pattern());
        }
        Some(format_instant(ms, "%a, %d %b %Y %H:%M:%S GMT"))
    } else {
        None
    }
}

/// The modification time to record, given what the `Last-Modified` header
/// was read as and the time of arrival.
pub fn choose_mtime(stated: Option<i64>, now_ms: i64) -> (ms: i64)
    ensures
        ms == mtime_from(stated, now_ms),
{
    match stated {
        Some(ms) => if FIRST_DATED_MS <= ms && ms < END_DATED_MS {
            ms
        } else {
            now_ms
        },
        None => now_ms,
    }
}

/// The modification time to record for a response with the given
/// `Last-Modified` header that arrived at `now_ms`.
pub fn modified_time(last_modified: &Option<String>, now_ms: i64) -> (ms: i64)
    ensures
        ms == mtime_from(stated_instant(last_modified.deep_view()), now_ms),
{
    let stated: Option<i64> = match last_modified {
        Some(text) => parse_rfc2822(text.as_str()),
        None => None,
    };
    choose_mtime(stated, now_ms)
}

/// The instant of a file time that lies `secs` seconds and `nanos`
/// nanoseconds after the epoch, or before it where `before_epoch` is set.
pub fn instant_ms(before_epoch: bool, secs: u64, nanos: u32) -> (ms: i64)
    ensures
        ms == clamped(millis_from_epoch(before_epoch, secs, nanos)),
{
    let span: i128 = secs as i128 * 1_000_000_000 + nanos as i128;
    if before_epoch {
        let whole: i128 = (span + 999_999) / 1_000_000;
        if whole > 9_223_372_036_854_775_808 {
            i64::MIN
        } else {
            (0 - whole) as i64
        }
    } else {
        let whole: i128 = span / 1_000_000;
        if whole > 9_223_372_036_854_775_807 {
            i64::MAX
        } else {
            whole as i64
        }
    }
}

} // verus!
