//! Instants in time. A `Stamp` holds, as plain numbers, what a
//! `jiff::Timestamp` is made of; rendering, parsing and reading the clock go
//! through jiff.

use vstd::prelude::*;
use crate::error::{BuildError, timestamp_error};
use crate::text::none_if_empty;

verus! {

/// The earliest second that jiff represents (`Timestamp::MIN`).
pub const MIN_SECOND: i64 = -377705023201i64;

/// The latest second that jiff represents (`Timestamp::MAX`).
pub const MAX_SECOND: i64 = 253402207200i64;

/// `(second, nanosecond)` is a timestamp in jiff's normalized form: seconds
/// within range, nanoseconds below one second in magnitude, both of one sign,
/// and no negative nanoseconds at the earliest second.
pub open spec fn valid_instant(second: i64, nanosecond: i32) -> bool {
    &&& MIN_SECOND <= second <= MAX_SECOND
    &&& -999_999_999 <= nanosecond <= 999_999_999
    &&& (second == MIN_SECOND ==> nanosecond >= 0)
    &&& (second > 0 ==> nanosecond >= 0)
    &&& (second < 0 ==> nanosecond <= 0)
}

/// What jiff's `Display` of the timestamp `(second, nanosecond)` prints.
pub uninterp spec fn timestamp_text(second: i64, nanosecond: i32) -> Seq<char>;

/// The timestamp, as `(second, nanosecond)`, that jiff's `FromStr` reads from a
/// text, or `None` where it reports an error.
pub uninterp spec fn timestamp_parse(text: Seq<char>) -> Option<(i64, i32)>;

#[verifier::external_type_specification]
#[verifier::external_body]
pub struct ExJiffError(jiff::Error);

/// Calls `jiff::Timestamp::new` on a normalized pair (which jiff accepts and
/// keeps as it is) and then its `Display`. Claimed: the text is
/// `timestamp_text` of the pair.
#[verifier::external_body]
fn render_timestamp(second: i64, nanosecond: i32) -> (res: String)
    requires
        valid_instant(second, nanosecond),
    ensures
        res@ == timestamp_text(second, nanosecond),
{
    match jiff::Timestamp::new(second, nanosecond) {
        Ok(t) => t.to_string(),
        Err(_) => String::new(),
    }
}

/// Calls `<jiff::Timestamp as FromStr>::from_str` and reads the result back
/// with `as_second` and `subsec_nanosecond`. Claimed: success and the pair
/// follow `timestamp_parse`, and the pair is normalized (jiff keeps every
/// timestamp normalized).
#[verifier::external_body]
fn parse_timestamp(text: &str) -> (res: Result<(i64, i32), jiff::Error>)
    ensures
        match res {
            Ok(p) => timestamp_parse(text@) == Some(p) && valid_instant(p.0, p.1),
            Err(_) => timestamp_parse(text@) is None,
        },
{
    match text.parse::<jiff::Timestamp>() {
        Ok(t) => Ok((t.as_second(), t.subsec_nanosecond())),
        Err(e) => Err(e),
    }
}

/// Calls `jiff::Timestamp::now` and reads it back. Claimed: the pair is
/// normalized. Which instant comes back depends on the clock, so nothing
/// else is said; jiff panics when the system clock lies outside its range.
#[verifier::external_body]
fn current_instant() -> (res: (i64, i32))
    ensures
        valid_instant(res.0, res.1),
{
    let t = jiff::Timestamp::now();
    (t.as_second(), t.subsec_nanosecond())
}

/// An instant: seconds and nanoseconds since the Unix epoch, normalized as
/// jiff keeps them.
#[derive(Clone, Copy, Debug, PartialEq, Eq, Structural)]
pub struct Stamp {
    second: i64,
    nanosecond: i32,
}

impl View for Stamp {
    type V = (i64, i32);

    open spec fn view(&self) -> (i64, i32) {
        (self.spec_second(), self.spec_nanosecond())
    }
}

impl Stamp {
    #[verifier::type_invariant]
    spec fn normalized(self) -> bool {
        valid_instant(self.second, self.nanosecond)
    }

    /// The whole seconds.
    pub closed spec fn spec_second(self) -> i64 {
        self.second
    }

    /// The sub-second nanoseconds.
    pub closed spec fn spec_nanosecond(self) -> i32 {
        self.nanosecond
    }

    /// The stamp for `(second, nanosecond)`, or `None` where the pair is not a
    /// normalized timestamp.
    pub fn new(second: i64, nanosecond: i32) -> (res: Option<Stamp>)
        ensures
            match res {
                Some(s) => valid_instant(second, nanosecond) && s@ == (second, nanosecond),
                None => !valid_instant(second, nanosecond),
            },
    {
        if MIN_SECOND <= second && second <= MAX_SECOND && -999_999_999 <= nanosecond
            && nanosecond <= 999_999_999 && (second != MIN_SECOND || nanosecond >= 0) && (
        second <= 0 || nanosecond >= 0) && (second >= 0 || nanosecond <= 0) {
            Some(Stamp { second, nanosecond })
        } else {
            None
        }
    }

    /// The Unix epoch, the default timestamp.
    pub fn epoch() -> (res: Stamp)
        ensures
            res@ == (0i64, 0i32),
    {
        Stamp { second: 0, nanosecond: 0 }
    }

    /// The current time, a normalized timestamp.
    pub fn now() -> (res: Stamp)
        ensures
            valid_instant(res@.0, res@.1),
    {
        let (second, nanosecond) = current_instant();
        Stamp { second, nanosecond }
    }

    /// The whole seconds.
    pub fn second(&self) -> (res: i64)
        ensures
            res == self@.0,
    {
        self.second
    }

    /// The sub-second nanoseconds.
    pub fn nanosecond(&self) -> (res: i32)
        ensures
            res == self@.1,
    {
        self.nanosecond
    }

    /// The stamp as jiff prints it.
    pub fn to_text(&self) -> (res: String)
        ensures
            res@ == timestamp_text(self@.0, self@.1),
    {
        proof {
            use_type_invariant(self);
        }
        render_timestamp(self.second, self.nanosecond)
    }

    /// The stamp that jiff reads from `text`, or `None` where jiff refuses it.
    pub fn parse(text: &str) -> (res: Option<Stamp>)
        ensures
            match res {
                Some(s) => timestamp_parse(text@) == Some(s@),
                None => timestamp_parse(text@) is None,
            },
    {
        match parse_timestamp(text) {
            Ok((second, nanosecond)) => Some(Stamp { second, nanosecond }),
            Err(_) => None,
        }
    }
}

/// The text that jiff prints for a stamp.
pub open spec fn stamp_text(s: Stamp) -> Seq<char> {
    timestamp_text(s@.0, s@.1)
}

/// What an optional stamp contributes to a row: its text, or nothing.
pub open spec fn optional_stamp_text(s: Option<Stamp>) -> Seq<char> {
    match s {
        Some(t) => stamp_text(t),
        None => Seq::empty(),
    }
}

/// The text of an optional stamp, empty when there is none.
pub fn optional_text(s: &Option<Stamp>) -> (res: String)
    ensures
        res@ == optional_stamp_text(*s),
{
    match s {
        Some(t) => t.to_text(),
        None => String::new(),
    }
}

/// The day `day` at midnight UTC, in the form jiff reads as a timestamp:
/// `day` followed by `T00:00:00Z`.
pub open spec fn midnight_text(day: Seq<char>) -> Seq<char> {
    day + "T00:00:00Z"@
}

/// Reads the day `day` (as `YYYY-MM-DD`) at midnight UTC.
pub fn parse_day(day: &str) -> (res: Option<Stamp>)
    ensures
        match res {
            Some(s) => timestamp_parse(midnight_text(day@)) == Some(s@),
            None => timestamp_parse(midnight_text(day@)) is None,
        },
{
    let mut text = day.to_owned();
    text.append("T00:00:00Z");
    Stamp::parse(text.as_str())
}

/// The view of an optional stamp.
pub open spec fn stamp_option_view(s: Option<Stamp>) -> Option<(i64, i32)> {
    match s {
        Some(t) => Some(t@),
        None => None,
    }
}

/// An optional date read from its text: `Some(None)` for an empty text,
/// `Some(Some(t))` for a day jiff reads, `None` when jiff refuses it.
pub open spec fn optional_day(text: Seq<char>) -> Option<Option<(i64, i32)>> {
    if text.len() == 0 {
        Some(None)
    } else {
        match timestamp_parse(midnight_text(text)) {
            Some(t) => Some(Some(t)),
            None => None,
        }
    }
}

/// Reads the day `text` at midnight UTC, reporting the text jiff refused.
pub(crate) fn read_day(text: &str) -> (res: Result<Stamp, BuildError>)
    ensures
        match res {
            Ok(s) => timestamp_parse(midnight_text(text@)) == Some(s@),
            Err(e) => timestamp_parse(midnight_text(text@)) is None && timestamp_error(
                e,
                midnight_text(text@),
            ),
        },
{
    match parse_day(text) {
        Some(t) => Ok(t),
        None => {
            let mut shown = text.to_owned();
            shown.append("T00:00:00Z");
            Err(BuildError::Timestamp(shown))
        },
    }
}

/// Reads an optional day at midnight UTC; an empty text is no day.
pub(crate) fn read_optional_day(text: &str) -> (res: Result<Option<Stamp>, BuildError>)
    ensures
        match res {
            Ok(s) => optional_day(text@) == Some(stamp_option_view(s)),
            Err(e) => optional_day(text@) is None && timestamp_error(e, midnight_text(text@)),
        },
{
    match none_if_empty(text) {
        None => Ok(None),
        Some(day) => match read_day(day.as_str()) {
            Ok(t) => Ok(Some(t)),
            Err(e) => Err(e),
        },
    }
}

} // verus!
