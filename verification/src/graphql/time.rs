use vstd::prelude::*;
use vstd::std_specs::convert::FromSpecImpl;
use crate::time_of_day::TimeOfDay;

verus! {

/// A time of day as the query surface shows it: in whole seconds.
pub struct Time(TimeOfDay);

impl Time {
    /// The time of day that is shown.
    pub closed spec fn time(&self) -> TimeOfDay {
        self.0
    }

    /// The seconds since midnight; what is left of a second is dropped.
    pub fn seconds(&self) -> (seconds: i32)
        ensures
            seconds == self.time().seconds_of(),
            0 <= seconds <= 86399,
    {
        self.0.seconds()
    }
}

impl From<TimeOfDay> for Time {
    fn from(time: TimeOfDay) -> (shown: Time) {
        Time(time)
    }
}

impl FromSpecImpl<TimeOfDay> for Time {
    open spec fn obeys_from_spec() -> bool {
        true
    }

    closed spec fn from_spec(time: TimeOfDay) -> Time {
        Time(time)
    }
}

/// The time that is made from a time of day shows that time of day.
pub proof fn lemma_from_keeps_time(time: TimeOfDay)
    ensures
        <Time as vstd::std_specs::convert::FromSpec<TimeOfDay>>::from_spec(time).time() == time,
{
}

} // verus!
