//! Formatting of modification times.
//!
//! A modification time is carried around as whole seconds since the Unix
//! epoch and rendered once, at scan time, as `DD/MM/YYYY HH:MM:SS` text
//! (zero-padded, 24-hour clock).  Only instants whose year fits in four
//! digits can be rendered; everything else is a fatal scan error.

use vstd::prelude::*;

verus! {

/// The last instant renderable with a four-digit year:
/// 31/12/9999 23:59:59 UTC, in seconds since the Unix epoch.
pub const MAX_TIMESTAMP_SECS: i64 = 253402300799;

/// An instant (seconds since the Unix epoch) that can be rendered with a
/// zero-padded four-digit year.
pub open spec fn time_in_range(secs: int) -> bool {
    0 <= secs <= MAX_TIMESTAMP_SECS as int
}

pub open spec fn is_ascii_digit(c: char) -> bool {
    '0' <= c && c <= '9'
}

/// The text shape `DD/MM/YYYY HH:MM:SS`: two-digit day, month, hour,
/// minute and second, four-digit year, with the fixed separators.
pub open spec fn is_timestamp_text(s: Seq<char>) -> bool {
    &&& s.len() == 19
    &&& is_ascii_digit(s[0]) && is_ascii_digit(s[1])
    &&& s[2] == '/'
    &&& is_ascii_digit(s[3]) && is_ascii_digit(s[4])
    &&& s[5] == '/'
    &&& is_ascii_digit(s[6]) && is_ascii_digit(s[7]) && is_ascii_digit(s[8]) && is_ascii_digit(s[9])
    &&& s[10] == ' '
    &&& is_ascii_digit(s[11]) && is_ascii_digit(s[12])
    &&& s[13] == ':'
    &&& is_ascii_digit(s[14]) && is_ascii_digit(s[15])
    &&& s[16] == ':'
    &&& is_ascii_digit(s[17]) && is_ascii_digit(s[18])
}

/// The `DD/MM/YYYY HH:MM:SS` rendering of an instant, a function of the
/// instant alone.  Its value comes from the calendar arithmetic of the
/// chrono crate and is not restated here.
pub uninterp spec fn timestamp_text(secs: int) -> Seq<char>;

/// Relies on chrono's `DateTime::<Utc>::from_timestamp` and its `format`
/// with `"%d/%m/%Y %T"`: a pure function of the instant, zero-padded
/// day/month/year and 24-hour clock.  `from_timestamp` returns `Some` for
/// every second up to the end of year 9999, and `%Y` renders years
/// 1970..=9999 as exactly four digits.
#[verifier::external_body]
fn format_epoch_secs(secs: i64) -> (r: String)
    requires
        time_in_range(secs as int),
    ensures
        r@ == timestamp_text(secs as int),
        is_timestamp_text(r@),
{
    let dt = chrono::DateTime::<chrono::Utc>::from_timestamp(secs, 0).unwrap();
    dt.format("%d/%m/%Y %T").to_string()
}

/// Render a modification time, or report that it cannot be rendered with
/// a four-digit year.
pub fn format_mtime(secs: i64) -> (r: Option<String>)
    ensures
        r is Some <==> time_in_range(secs as int),
        r matches Some(s) ==> s@ == timestamp_text(secs as int) && is_timestamp_text(s@),
{
    if 0 <= secs && secs <= MAX_TIMESTAMP_SECS {
        Some(format_epoch_secs(secs))
    } else {
        None
    }
}

} // verus!
