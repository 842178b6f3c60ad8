//! Normalisation of vehicle report timestamps to UTC wall-clock text.
use vstd::prelude::*;

verus! {

/// The text that `chrono` gives for `text` read as an RFC 3339 timestamp, shifted to the
/// fixed offset of `offset_secs` seconds east of UTC and rendered with the strftime
/// pattern `out_fmt`; `None` when `text` is not RFC 3339.
pub uninterp spec fn chrono_rfc3339_rendered(
    text: Seq<char>,
    offset_secs: int,
    out_fmt: Seq<char>,
) -> Option<Seq<char>>;

/// The text that `chrono` gives for `text` read with the strftime pattern `in_fmt` (which
/// must yield an offset), shifted to `offset_secs` seconds east of UTC and rendered with
/// `out_fmt`; `None` when `text` does not match `in_fmt`.
pub uninterp spec fn chrono_pattern_rendered(
    text: Seq<char>,
    in_fmt: Seq<char>,
    offset_secs: int,
    out_fmt: Seq<char>,
) -> Option<Seq<char>>;

/// The rendering of a database timestamp: date and time to the second.
pub open spec fn seconds_format() -> Seq<char> {
    "%Y-%m-%d %H:%M:%S"@
}

/// The first fallback input pattern: date, time with fraction, numeric offset.
pub open spec fn offset_pattern() -> Seq<char> {
    "%Y-%m-%d %H:%M:%S%.f %z"@
}

/// The second fallback input pattern: date and time with fraction, without offset.
pub open spec fn local_pattern() -> Seq<char> {
    "%Y-%m-%d %H:%M:%S%.f"@
}

/// Reads `s` with `chrono::DateTime::parse_from_rfc3339`, converts the result to the
/// fixed offset `offset_secs` (`FixedOffset::east`) and renders it with `format(out_fmt)`.
/// The contract names the rendered text `chrono_rfc3339_rendered`; what text that is, is
/// not stated here. The offset must lie within a day, where `FixedOffset::east` does not
/// panic, and the output pattern is the fixed seconds pattern, which renders without error.
#[verifier::external_body]
#[allow(deprecated)]
fn rfc3339_rendered(s: &str, offset_secs: i32, out_fmt: &str) -> (res: Option<String>)
    requires
        -86_400 < offset_secs < 86_400,
        out_fmt@ == seconds_format(),
    ensures
        res matches Some(t) ==> chrono_rfc3339_rendered(s@, offset_secs as int, out_fmt@) == Some(
            t@,
        ),
        res is None ==> chrono_rfc3339_rendered(s@, offset_secs as int, out_fmt@) is None,
{
    match chrono::DateTime::parse_from_rfc3339(s) {
        Ok(dt) => Some(
            dt.with_timezone(&chrono::FixedOffset::east(offset_secs)).format(
                out_fmt,
            ).to_string(),
        ),
        Err(_) => None,
    }
}

/// Reads `s` with `chrono::DateTime::parse_from_str(s, in_fmt)`, converts the result to
/// the fixed offset `offset_secs` and renders it with `format(out_fmt)`. The contract names
/// the rendered text `chrono_pattern_rendered`; what text that is, is not stated here.
/// As chrono documents, this reading requires a timezone in the input: a pattern with no
/// offset (`%z` and its variants), no RFC 3339 field (`%+`) and no timestamp (`%s`), which
/// are the only items that give one, never yields a reading.
#[verifier::external_body]
#[allow(deprecated)]
fn pattern_rendered(s: &str, in_fmt: &str, offset_secs: i32, out_fmt: &str) -> (res: Option<
    String,
>)
    requires
        -86_400 < offset_secs < 86_400,
        out_fmt@ == seconds_format(),
    ensures
        res matches Some(t) ==> chrono_pattern_rendered(
            s@,
            in_fmt@,
            offset_secs as int,
            out_fmt@,
        ) == Some(t@),
        res is None ==> chrono_pattern_rendered(s@, in_fmt@, offset_secs as int, out_fmt@) is None,
        !in_fmt@.contains('z') && !in_fmt@.contains('+') && !in_fmt@.contains('s') ==> res is None,
{
    match chrono::DateTime::parse_from_str(s, in_fmt) {
        Ok(dt) => Some(
            dt.with_timezone(&chrono::FixedOffset::east(offset_secs)).format(
                out_fmt,
            ).to_string(),
        ),
        Err(_) => None,
    }
}

/// The UTC text of a report timestamp: the first of the RFC 3339 reading, the reading with
/// an explicit offset, and the reading without one, that succeeds.
pub open spec fn utc_timestamp(raw: Seq<char>) -> Option<Seq<char>> {
    first_reading(
        chrono_rfc3339_rendered(raw, 0, seconds_format()),
        chrono_pattern_rendered(raw, offset_pattern(), 0, seconds_format()),
        chrono_pattern_rendered(raw, local_pattern(), 0, seconds_format()),
    )
}

/// The first of the readings `first`, `second`, `third` that succeeded.
pub open spec fn first_reading(
    first: Option<Seq<char>>,
    second: Option<Seq<char>>,
    third: Option<Seq<char>>,
) -> Option<Seq<char>> {
    match first {
        Some(t) => Some(t),
        None => match second {
            Some(t) => Some(t),
            None => third,
        },
    }
}

/// The view of an optional text.
pub open spec fn text_view(t: Option<String>) -> Option<Seq<char>> {
    match t {
        Some(s) => Some(s@),
        None => None,
    }
}

/// The first of three readings of a timestamp that succeeded, in the order given.
pub fn earliest_reading(first: Option<String>, second: Option<String>, third: Option<String>) -> (res:
    Option<String>)
    ensures
        text_view(res) == first_reading(text_view(first), text_view(second), text_view(third)),
{
    match first {
        Some(t) => Some(t),
        None => match second {
            Some(t) => Some(t),
            None => third,
        },
    }
}

/// The report timestamp `raw` as UTC text to the second, trying the accepted readings in
/// order; `None` when none of them accepts `raw`.
pub fn utc_timestamp_text(raw: &str) -> (res: Option<String>)
    ensures
        text_view(res) == utc_timestamp(raw@),
        chrono_pattern_rendered(raw@, local_pattern(), 0, seconds_format()) is None,
{
    let out_fmt = "%Y-%m-%d %H:%M:%S";
    let rfc3339 = rfc3339_rendered(raw, 0, out_fmt);
    let with_offset = pattern_rendered(raw, "%Y-%m-%d %H:%M:%S%.f %z", 0, out_fmt);
    let local = "%Y-%m-%d %H:%M:%S%.f";
    proof {
        reveal_strlit("%Y-%m-%d %H:%M:%S%.f");
        assert(!local@.contains('z'));
        assert(!local@.contains('+'));
        assert(!local@.contains('s'));
    }
    let without_offset = pattern_rendered(raw, local, 0, out_fmt);
    earliest_reading(rfc3339, with_offset, without_offset)
}

} // verus!
