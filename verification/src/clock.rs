//! Wall-clock values as the activation engine sees them.

use vstd::prelude::*;
use vstd::string::*;

verus! {

/// A day of the week.
#[derive(Clone, Copy, Debug, PartialEq, Eq, Structural)]
pub enum Weekday {
    Mon,
    Tue,
    Wed,
    Thu,
    Fri,
    Sat,
    Sun,
}

impl Weekday {
    /// The number of days since the last Sunday: 0 for Sunday, 6 for Saturday.
    pub open spec fn days_from_sunday(self) -> u32 {
        match self {
            Weekday::Sun => 0,
            Weekday::Mon => 1,
            Weekday::Tue => 2,
            Weekday::Wed => 3,
            Weekday::Thu => 4,
            Weekday::Fri => 5,
            Weekday::Sat => 6,
        }
    }

    /// The number of days since the last Sunday: 0 for Sunday, 6 for Saturday.
    pub fn num_days_from_sunday(&self) -> (r: u32)
        ensures
            r == self.days_from_sunday(),
    {
        match self {
            Weekday::Sun => 0,
            Weekday::Mon => 1,
            Weekday::Tue => 2,
            Weekday::Wed => 3,
            Weekday::Thu => 4,
            Weekday::Fri => 5,
            Weekday::Sat => 6,
        }
    }
}

/// One reading of the local wall clock, broken into calendar fields.
#[derive(Clone, Copy, Debug, PartialEq, Eq, Structural)]
pub struct ClockReading {
    /// Minute of the hour, 0 to 59.
    pub minute: u32,
    /// Hour of the day, 0 to 23.
    pub hour: u32,
    /// Day of the month, starting at 1.
    pub day: u32,
    /// Month of the year, starting at 1.
    pub month: u32,
    /// Day of the week.
    pub weekday: Weekday,
    /// Second of the minute, 0 to 59.
    pub second: u32,
}

/// The text that stands for the time of day `secs` seconds and `nanos`
/// nanoseconds after midnight: hours, minutes and seconds as `HH:MM:SS`, then
/// a point and three, six or nine digits of the second where `nanos` is not 0.
pub uninterp spec fn time_text(secs: u32, nanos: u32) -> Seq<char>;

/// Writes a time of day with `chrono`: the `Display` form of the
/// `chrono::NaiveTime` that `from_num_seconds_from_midnight_opt` makes.
///
/// Trusted: the text depends on the seconds and nanoseconds alone. The
/// values that `chrono` takes for no time of day are ruled out.
#[verifier::external_body]
fn format_time(secs: u32, nanos: u32) -> (r: String)
    requires
        secs < 86_400,
        nanos < 2_000_000_000,
        nanos >= 1_000_000_000 ==> secs % 60 == 59,
    ensures
        r@ == time_text(secs, nanos),
{
    match chrono::NaiveTime::from_num_seconds_from_midnight_opt(secs, nanos) {
        Some(time) => time.to_string(),
        None => String::new(),
    }
}

/// A time of day: whole seconds since midnight and the nanoseconds past them.
///
/// Times are ordered by the seconds first and the nanoseconds second.
#[derive(Clone, Copy, Debug, PartialEq, Eq, Structural)]
pub struct TimeOfDay {
    secs: u32,
    nanos: u32,
}

impl TimeOfDay {
    #[verifier::type_invariant]
    spec fn valid(self) -> bool {
        self.is_valid()
    }

    /// Seconds since midnight.
    pub closed spec fn secs(self) -> nat {
        self.secs as nat
    }

    /// Nanoseconds since the last whole second; a billion or more inside a leap second.
    pub closed spec fn nanos(self) -> nat {
        self.nanos as nat
    }

    /// The time lies within one day, and its nanoseconds pass a billion only
    /// in the last second of a minute.
    pub open spec fn is_valid(self) -> bool {
        &&& self.secs() < 86_400
        &&& self.nanos() < 2_000_000_000
        &&& self.nanos() >= 1_000_000_000 ==> self.secs() % 60 == 59
    }

    /// `self` is not later than `other`.
    pub open spec fn not_after(self, other: TimeOfDay) -> bool {
        self.secs() < other.secs() || (self.secs() == other.secs() && self.nanos() <= other.nanos())
    }

    /// The hour, minute and second name a time of day.
    pub open spec fn hms_in_range(hour: u32, min: u32, sec: u32) -> bool {
        hour < 24 && min < 60 && sec < 60
    }

    /// The time `hour:min:sec`, or `None` if a part is out of range.
    pub fn from_hms_opt(hour: u32, min: u32, sec: u32) -> (r: Option<TimeOfDay>)
        ensures
            r is Some <==> Self::hms_in_range(hour, min, sec),
            r matches Some(t) ==> t.is_valid() && t.secs() == hour * 3600 + min * 60 + sec
                && t.nanos() == 0,
    {
        Self::from_hms_nano_opt(hour, min, sec, 0)
    }

    /// The time `hour:min:sec` and `nano` nanoseconds, or `None` if a part is
    /// out of range. `nano` may pass a billion only where `sec` is 59.
    pub fn from_hms_nano_opt(hour: u32, min: u32, sec: u32, nano: u32) -> (r: Option<TimeOfDay>)
        ensures
            r is Some <==> Self::hms_in_range(hour, min, sec) && nano < 2_000_000_000 && (nano
                >= 1_000_000_000 ==> sec == 59),
            r matches Some(t) ==> t.is_valid() && t.secs() == hour * 3600 + min * 60 + sec
                && t.nanos() == nano,
    {
        if (hour >= 24 || min >= 60 || sec >= 60) || (nano >= 1_000_000_000 && sec != 59) || nano
            >= 2_000_000_000 {
            return None;
        }
        let secs: u32 = hour * 3600 + min * 60 + sec;
        Some(TimeOfDay { secs, nanos: nano })
    }

    /// Midnight.
    pub fn midnight() -> (r: TimeOfDay)
        ensures
            r.is_valid(),
            r.secs() == 0,
            r.nanos() == 0,
    {
        TimeOfDay { secs: 0, nanos: 0 }
    }

    /// Seconds since midnight.
    pub fn num_seconds_from_midnight(&self) -> (r: u32)
        ensures
            r == self.secs(),
    {
        self.secs
    }

    /// Nanoseconds since the last whole second.
    pub fn nanosecond(&self) -> (r: u32)
        ensures
            r == self.nanos(),
    {
        self.nanos
    }

    /// The time as it is written: `HH:MM:SS`, with the fraction of a second
    /// after it where there is one.
    pub closed spec fn text(self) -> Seq<char> {
        time_text(self.secs, self.nanos)
    }

    /// The time as it is written.
    pub fn format(&self) -> (r: String)
        ensures
            r@ == self.text(),
    {
        proof {
            use_type_invariant(self);
        }
        format_time(self.secs, self.nanos)
    }

    /// Whether `self` is not later than `other`.
    pub fn le(&self, other: &TimeOfDay) -> (r: bool)
        ensures
            r == self.not_after(*other),
    {
        self.secs < other.secs || (self.secs == other.secs && self.nanos <= other.nanos)
    }
}

impl ClockReading {
    /// The time of day that the reading shows, to the second; midnight where
    /// its fields name no time of day.
    pub open spec fn time_spec(self) -> TimeOfDay {
        Self::time_from(self.hour, self.minute, self.second)
    }

    /// The time of day `hour:minute:second`, or midnight where that is none.
    pub closed spec fn time_from(hour: u32, minute: u32, second: u32) -> TimeOfDay {
        if TimeOfDay::hms_in_range(hour, minute, second) {
            TimeOfDay { secs: (hour * 3600 + minute * 60 + second) as u32, nanos: 0 }
        } else {
            TimeOfDay { secs: 0, nanos: 0 }
        }
    }

    /// What `time_from` gives: the seconds of `hour:minute:second` since
    /// midnight where that is a time of day, else none; and no nanoseconds.
    pub proof fn lemma_time_from(hour: u32, minute: u32, second: u32)
        ensures
            Self::time_from(hour, minute, second).nanos() == 0,
            Self::time_from(hour, minute, second).is_valid(),
            TimeOfDay::hms_in_range(hour, minute, second) ==> Self::time_from(
                hour,
                minute,
                second,
            ).secs() == hour * 3600 + minute * 60 + second,
            !TimeOfDay::hms_in_range(hour, minute, second) ==> Self::time_from(
                hour,
                minute,
                second,
            ).secs() == 0,
    {
    }

    /// The time of day that the reading shows, to the second.
    pub fn time_of_day(&self) -> (r: TimeOfDay)
        ensures
            r == self.time_spec(),
    {
        match TimeOfDay::from_hms_opt(self.hour, self.minute, self.second) {
            Some(t) => t,
            None => TimeOfDay::midnight(),
        }
    }
}

} // verus!
