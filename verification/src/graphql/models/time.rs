use vstd::prelude::*;
use crate::time_of_day::TimeOfDay;

verus! {

/// A time of day as the query surface shows it: in whole seconds.
pub struct Time(TimeOfDay);

impl Time {
    /// The time of day that is shown.
    pub closed spec fn time(&self) -> TimeOfDay {
        self.0
    }

    /// The seconds since midnight; what is left of a second is dropped.
    pub fn seconds(&self) -> (seconds: i32)
        ensures
            seconds == self.time().seconds_of(),
            0 <= seconds <= 86399,
    {
        self.0.seconds()
    }

    pub fn from_time(time: &TimeOfDay) -> (shown: Self)
        ensures
            shown.time() == *time,
    {
        Self(*time)
    }
}

} // verus!
