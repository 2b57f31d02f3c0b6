//! Times of day, to the minute.
//!
//! A `ClockTime` is read from text and written as text by `chrono`; what it
//! holds, an hour and a minute, is kept here as two numbers.

use vstd::prelude::*;

verus! {

/// A time of day: an hour from 0 to 23 and a minute from 0 to 59.
#[derive(Clone, Copy, Debug, PartialEq, Eq, Structural)]
pub struct ClockTime {
    hour: u32,
    minute: u32,
}

impl ClockTime {
    #[verifier::type_invariant]
    spec fn in_range(self) -> bool {
        self.hour < 24 && self.minute < 60
    }

    /// The time with the given hour and minute.
    pub closed spec fn at(hour: u32, minute: u32) -> ClockTime {
        ClockTime { hour, minute }
    }

    /// The time with the given hour and minute, where there is one.
    pub open spec fn checked(hour: u32, minute: u32) -> Option<ClockTime> {
        if hour < 24 && minute < 60 {
            Some(ClockTime::at(hour, minute))
        } else {
            None
        }
    }

    /// The hour of the time.
    pub closed spec fn spec_hour(&self) -> u32 {
        self.hour
    }

    /// The minute of the time.
    pub closed spec fn spec_minute(&self) -> u32 {
        self.minute
    }

    /// A time is made of its hour and its minute, and of nothing else.
    pub broadcast proof fn lemma_parts(hour: u32, minute: u32)
        ensures
            (#[trigger] ClockTime::at(hour, minute)).spec_hour() == hour,
            ClockTime::at(hour, minute).spec_minute() == minute,
    {
    }

    /// Every time is the time at its own hour and minute.
    pub broadcast proof fn lemma_whole(time: ClockTime)
        ensures
            time == ClockTime::at(#[trigger] time.spec_hour(), time.spec_minute()),
    {
    }

    /// Makes a time of day; `None` where the hour is above 23 or the minute
    /// above 59.
    pub fn new(hour: u32, minute: u32) -> (time: Option<ClockTime>)
        ensures
            time == ClockTime::checked(hour, minute),
    {
        if hour < 24 && minute < 60 {
            Some(ClockTime { hour, minute })
        } else {
            None
        }
    }

    /// The hour, from 0 to 23.
    #[verifier::when_used_as_spec(spec_hour)]
    pub fn hour(&self) -> (hour: u32)
        ensures
            hour == self.spec_hour(),
            hour < 24,
    {
        proof {
            use_type_invariant(self);
        }
        self.hour
    }

    /// The minute, from 0 to 59.
    #[verifier::when_used_as_spec(spec_minute)]
    pub fn minute(&self) -> (minute: u32)
        ensures
            minute == self.spec_minute(),
            minute < 60,
    {
        proof {
            use_type_invariant(self);
        }
        self.minute
    }
}

/// The character of a decimal digit.
pub open spec fn digit_char(digit: int) -> char {
    ((48 + digit) as u8) as char
}

/// A time of day as text: two digits for the hour, two for the minute and
/// two zeros for the seconds, with colons between them.
pub open spec fn clock_text(hour: u32, minute: u32) -> Seq<char> {
    seq![
        digit_char(hour as int / 10),
        digit_char(hour as int % 10),
        ':',
        digit_char(minute as int / 10),
        digit_char(minute as int % 10),
        ':',
        '0',
        '0',
    ]
}

/// Writes a time of day with `chrono::NaiveTime`: the time is made by
/// `NaiveTime::from_hms_opt` with no seconds and written by its `to_string`.
///
/// Not verified. The contract claims that the text is the hour and the
/// minute in two digits each and `00` for the seconds, colons between them.
#[verifier::external_body]
fn format_time(hour: u32, minute: u32) -> (text: String)
    requires
        hour < 24,
        minute < 60,
    ensures
        text@ == clock_text(hour, minute),
{
    chrono::NaiveTime::from_hms_opt(hour, minute, 0).map(|time| time.to_string()).unwrap_or_default()
}

/// The hour and the minute of the time that `text` holds when read by
/// `format`, or `None` where it holds none.
pub uninterp spec fn parsed_time(text: Seq<char>, format: Seq<char>) -> Option<(u32, u32)>;

/// Calls `chrono::NaiveTime::parse_from_str`.
///
/// Not verified. The contract gives the outcome a name and claims that it
/// depends on the two texts alone: `None` for an `Err`, else the hour and the
/// minute of the time.
#[verifier::external_body]
fn parse_time(text: &str, format: &str) -> (time: Option<(u32, u32)>)
    ensures
        time == parsed_time(text@, format@),
{
    match chrono::NaiveTime::parse_from_str(text, format) {
        Ok(time) => Some((chrono::Timelike::hour(&time), chrono::Timelike::minute(&time))),
        Err(_) => None,
    }
}

impl ClockTime {
    /// The time that `text` holds in the form `hour:minute`.
    pub open spec fn from_text(text: Seq<char>) -> Option<ClockTime> {
        match parsed_time(text, "%H:%M"@) {
            Some((hour, minute)) => ClockTime::checked(hour, minute),
            None => None,
        }
    }

    /// Reads a time of day in the form `hour:minute`, as in `08:00`.
    pub fn parse(text: &str) -> (time: Option<ClockTime>)
        ensures
            time == ClockTime::from_text(text@),
    {
        match parse_time(text, "%H:%M") {
            Some((hour, minute)) => ClockTime::new(hour, minute),
            None => None,
        }
    }

    /// The time as text, as in `08:00:00`.
    pub fn to_string(&self) -> (text: String)
        ensures
            text@ == clock_text(self.spec_hour(), self.spec_minute()),
    {
        format_time(self.hour(), self.minute())
    }
}

} // verus!
