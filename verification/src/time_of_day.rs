use vstd::prelude::*;

verus! {

/// A time within one day, to the nanosecond.
#[derive(Clone, Copy, Debug, PartialEq, Eq, Hash, Structural)]
pub struct TimeOfDay {
    hour: u8,
    minute: u8,
    second: u8,
    nanosecond: u32,
}

/// The format of a clock reading written as hours, minutes and seconds.
pub open spec fn clock_format() -> Seq<char> {
    seq!['%', 'T']
}

/// What `time::Time::parse` makes of `text` under `format`: the reading, or
/// `None` where it reports an error.
pub uninterp spec fn parsed_time(text: Seq<char>, format: Seq<char>) -> Option<TimeOfDay>;

/// Calls `time::Time::parse` and copies the four components of the reading it
/// returns. Not proved: that the outcome depends on the two texts alone, and that
/// the components are in the ranges that `time::Time` documents for its accessors
/// (hours below 24, minutes and seconds below 60, nanoseconds below a billion).
/// The format is held to the one this library uses, since `time` panics on a
/// format it cannot read.
#[verifier::external_body]
fn parse_with_format(text: &str, format: &str) -> (parsed: Option<TimeOfDay>)
    requires
        format@ == clock_format(),
    ensures
        parsed == parsed_time(text@, format@),
{
    match time::Time::parse(text, format) {
        Ok(reading) => Some(
            TimeOfDay {
                hour: reading.hour(),
                minute: reading.minute(),
                second: reading.second(),
                nanosecond: reading.nanosecond(),
            },
        ),
        Err(_) => None,
    }
}

impl TimeOfDay {
    #[verifier::type_invariant]
    spec fn in_range(self) -> bool {
        self.hour < 24 && self.minute < 60 && self.second < 60 && self.nanosecond < 1_000_000_000
    }

    /// The hour of the day.
    pub closed spec fn hour_of(self) -> int {
        self.hour as int
    }

    /// The minute of the hour.
    pub closed spec fn minute_of(self) -> int {
        self.minute as int
    }

    /// The second of the minute.
    pub closed spec fn second_of(self) -> int {
        self.second as int
    }

    /// The nanosecond of the second.
    pub closed spec fn nanosecond_of(self) -> int {
        self.nanosecond as int
    }

    /// The time with the given components, where each is in range.
    pub closed spec fn at(hour: int, minute: int, second: int, nanosecond: int) -> TimeOfDay {
        TimeOfDay {
            hour: hour as u8,
            minute: minute as u8,
            second: second as u8,
            nanosecond: nanosecond as u32,
        }
    }

    /// Whether the four numbers are the components of a time.
    pub open spec fn components_in_range(hour: int, minute: int, second: int, nanosecond: int) -> bool {
        0 <= hour < 24 && 0 <= minute < 60 && 0 <= second < 60 && 0 <= nanosecond < 1_000_000_000
    }

    /// Whole seconds since midnight.
    pub open spec fn seconds_of(self) -> int {
        (self.hour_of() * 60 + self.minute_of()) * 60 + self.second_of()
    }

    /// A time from its hour, minute and second, where each is in range.
    pub fn try_from_hms(hour: u8, minute: u8, second: u8) -> (made: Option<Self>)
        ensures
            made == if TimeOfDay::components_in_range(hour as int, minute as int, second as int, 0) {
                Some(TimeOfDay::at(hour as int, minute as int, second as int, 0))
            } else {
                None
            },
    {
        Self::try_from_hms_nano(hour, minute, second, 0)
    }

    /// A time from its hour, minute, second and nanosecond, where each is in range.
    pub fn try_from_hms_nano(hour: u8, minute: u8, second: u8, nanosecond: u32) -> (made: Option<
        Self,
    >)
        ensures
            made == if TimeOfDay::components_in_range(
                hour as int,
                minute as int,
                second as int,
                nanosecond as int,
            ) {
                Some(TimeOfDay::at(hour as int, minute as int, second as int, nanosecond as int))
            } else {
                None
            },
    {
        if hour < 24 && minute < 60 && second < 60 && nanosecond < 1_000_000_000 {
            Some(TimeOfDay { hour, minute, second, nanosecond })
        } else {
            None
        }
    }

    /// Reads a clock time written as hours, minutes and seconds.
    pub fn parse(text: &str) -> (parsed: Option<Self>)
        ensures
            parsed == parsed_time(text@, clock_format()),
    {
        proof {
            reveal_strlit("%T");
            assert("%T"@ =~= clock_format());
        }
        parse_with_format(text, "%T")
    }

    pub fn hour(&self) -> (h: u8)
        ensures
            h == self.hour_of(),
            h < 24,
    {
        proof {
            use_type_invariant(self);
        }
        self.hour
    }

    pub fn minute(&self) -> (m: u8)
        ensures
            m == self.minute_of(),
            m < 60,
    {
        proof {
            use_type_invariant(self);
        }
        self.minute
    }

    pub fn second(&self) -> (s: u8)
        ensures
            s == self.second_of(),
            s < 60,
    {
        proof {
            use_type_invariant(self);
        }
        self.second
    }

    pub fn nanosecond(&self) -> (n: u32)
        ensures
            n == self.nanosecond_of(),
            n < 1_000_000_000,
    {
        proof {
            use_type_invariant(self);
        }
        self.nanosecond
    }

    /// Whole seconds since midnight; the nanoseconds are dropped.
    pub fn seconds(&self) -> (total: i32)
        ensures
            total == self.seconds_of(),
            0 <= total <= 86399,
    {
        proof {
            use_type_invariant(self);
        }
        let hours: i32 = self.hour as i32;
        let minutes: i32 = hours * 60 + self.minute as i32;
        minutes * 60 + self.second as i32
    }
}

/// A time made of components in range has those components.
pub proof fn lemma_components(hour: int, minute: int, second: int, nanosecond: int)
    requires
        TimeOfDay::components_in_range(hour, minute, second, nanosecond),
    ensures
        TimeOfDay::at(hour, minute, second, nanosecond).hour_of() == hour,
        TimeOfDay::at(hour, minute, second, nanosecond).minute_of() == minute,
        TimeOfDay::at(hour, minute, second, nanosecond).second_of() == second,
        TimeOfDay::at(hour, minute, second, nanosecond).nanosecond_of() == nanosecond,
        TimeOfDay::at(hour, minute, second, nanosecond).seconds_of() == (hour * 60 + minute) * 60
            + second,
{
}

} // verus!
