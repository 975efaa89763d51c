//! Instants as Unix seconds (UTC) and the few calendar facts the billing rules use.
use vstd::prelude::*;

verus! {

pub const SECONDS_PER_DAY: i64 = 86400;

/// Bound on instants: beyond the calendar range of the date library, so differences
/// and the offsets used here never leave 64 bits.
pub const INSTANT_LIMIT: i64 = 100000000000000;

pub open spec fn instant_ok(t: i64) -> bool {
    -INSTANT_LIMIT <= t <= INSTANT_LIMIT
}

/// Whole days in a signed number of seconds, truncated toward zero.
pub open spec fn whole_days(secs: int) -> int {
    if secs >= 0 {
        secs / 86400
    } else {
        -((-secs) / 86400)
    }
}

/// Days from `from` until `to`, a started day counting as a whole one; zero when
/// `to` is not after `from`.
pub open spec fn spec_days_until(from: int, to: int) -> int {
    if to - from <= 0 {
        0
    } else {
        (to - from + 86399) / 86400
    }
}

/// Whole days elapsed from `earlier` to `later`, truncated toward zero.
pub fn days_between(earlier: i64, later: i64) -> (r: i64)
    ensures
        r == whole_days(later - earlier),
{
    let d: i128 = later as i128 - earlier as i128;
    let q: i128 = if d >= 0 {
        d / 86400
    } else {
        -((-d) / 86400)
    };
    q as i64
}

/// Days until `to`, rounding a started day up; zero once `to` has passed.
pub fn days_until(from: i64, to: i64) -> (r: i64)
    ensures
        r == spec_days_until(from as int, to as int),
        r >= 0,
{
    let seconds: i128 = to as i128 - from as i128;
    if seconds <= 0 {
        0
    } else {
        ((seconds + 86399) / 86400) as i64
    }
}

/// The pattern `%Y-%m-%d`.
pub open spec fn ymd_pattern() -> Seq<char> {
    seq!['%', 'Y', '-', '%', 'm', '-', '%', 'd']
}

/// The pattern `%Y%m%d%H%M%S`.
pub open spec fn compact_pattern() -> Seq<char> {
    seq!['%', 'Y', '%', 'm', '%', 'd', '%', 'H', '%', 'M', '%', 'S']
}

/// What the date library prints for the UTC instant `secs` with `pattern`;
/// nothing outside its calendar range.
pub uninterp spec fn utc_text(secs: int, pattern: Seq<char>) -> Option<Seq<char>>;

/// An instant printed with one of the two patterns above, through
/// `chrono::DateTime::from_timestamp` and `DateTime::format`.
/// Trusted: the text is the named one for these seconds and this pattern.
#[verifier::external_body]
pub(crate) fn format_utc(secs: i64, pattern: &str) -> (r: Option<String>)
    requires
        pattern@ == ymd_pattern() || pattern@ == compact_pattern(),
    ensures
        match r {
            Some(t) => utc_text(secs as int, pattern@) == Some(t@),
            None => utc_text(secs as int, pattern@) is None,
        },
{
    match chrono::DateTime::from_timestamp(secs, 0) {
        Some(dt) => Some(dt.format(pattern).to_string()),
        None => None,
    }
}

/// The calendar date of an instant as `YYYY-MM-DD`.
pub fn format_ymd(secs: i64) -> (r: Option<String>)
    ensures
        match r {
            Some(t) => utc_text(secs as int, ymd_pattern()) == Some(t@),
            None => utc_text(secs as int, ymd_pattern()) is None,
        },
{
    let pattern = "%Y-%m-%d";
    proof {
        reveal_strlit("%Y-%m-%d");
        assert(pattern@ =~= ymd_pattern());
    }
    format_utc(secs, pattern)
}

/// The instant as `YYYYMMDDHHMMSS`.
pub fn format_compact(secs: i64) -> (r: Option<String>)
    ensures
        match r {
            Some(t) => utc_text(secs as int, compact_pattern()) == Some(t@),
            None => utc_text(secs as int, compact_pattern()) is None,
        },
{
    let pattern = "%Y%m%d%H%M%S";
    proof {
        reveal_strlit("%Y%m%d%H%M%S");
        assert(pattern@ =~= compact_pattern());
    }
    format_utc(secs, pattern)
}

} // verus!
