use vstd::prelude::*;
use scraper::ElementRef;
use crate::document::first_inner_html;
use crate::document::first_inner_html_of;
use crate::error::result_view;
use crate::error::site_error;
use crate::error::Error;
use crate::error::ErrorView;
use crate::error::HaloWaypointError;
use crate::error::HaloWaypointErrorView;
use crate::text::str_eq;
use crate::time_of_day::clock_format;
use crate::time_of_day::parsed_time;
use crate::time_of_day::TimeOfDay;
use crate::views::option_view;

verus! {

/// The best time recorded for a mission, if one was recorded.
#[derive(PartialEq, Eq, Hash, Clone, Copy, Debug, Structural)]
pub enum FastestTime {
    Recorded(TimeOfDay),
    Unrecorded,
}

impl FastestTime {
    /// The text that stands for "no time recorded".
    pub open spec fn blank() -> Seq<char> {
        "--"@
    }

    /// What the text `text` gives, where `reading` is what the clock parser made
    /// of it: the blank is no time, a reading is a time, anything else is
    /// reported with its text.
    pub open spec fn interpreted(text: Seq<char>, reading: Option<TimeOfDay>) -> Result<
        FastestTime,
        ErrorView,
    > {
        if text == FastestTime::blank() {
            Ok(FastestTime::Unrecorded)
        } else {
            match reading {
                Some(time) => Ok(FastestTime::Recorded(time)),
                None => Err(site_error(HaloWaypointErrorView::InvalidTime(text))),
            }
        }
    }

    /// What the text `text` gives.
    pub open spec fn parsed(text: Seq<char>) -> Result<FastestTime, ErrorView> {
        FastestTime::interpreted(text, parsed_time(text, clock_format()))
    }

    /// What the markup of a mission's best-time element gives: a missing element
    /// is an error of its own.
    pub open spec fn extracted(markup: Option<Seq<char>>) -> Result<FastestTime, ErrorView> {
        match markup {
            Some(text) => FastestTime::parsed(text),
            None => Err(site_error(HaloWaypointErrorView::MissingTime)),
        }
    }

    /// The time, where one was recorded.
    pub open spec fn internal(self) -> Option<TimeOfDay> {
        match self {
            FastestTime::Recorded(time) => Some(time),
            FastestTime::Unrecorded => None,
        }
    }

    /// The selector of the element that holds the time.
    pub open spec fn selector() -> Seq<char> {
        ".best-time"@
    }

    /// Decides what `text` stands for, given what the clock parser made of it.
    pub fn interpret(text: &str, reading: Option<TimeOfDay>) -> (outcome: Result<Self, Error>)
        ensures
            result_view(outcome) == FastestTime::interpreted(text@, reading),
    {
        if str_eq(text, "--") {
            Ok(FastestTime::Unrecorded)
        } else {
            match reading {
                Some(time) => Ok(FastestTime::Recorded(time)),
                None => Err(Error::site(HaloWaypointError::InvalidTime(text.to_owned()))),
            }
        }
    }

    /// Reads the text of a best-time element.
    pub fn try_from_str(text: &str) -> (outcome: Result<Self, Error>)
        ensures
            result_view(outcome) == FastestTime::parsed(text@),
    {
        Self::interpret(text, TimeOfDay::parse(text))
    }

    /// Reads the markup of a best-time element, where there is one.
    pub fn try_from_markup(markup: Option<&str>) -> (outcome: Result<Self, Error>)
        ensures
            result_view(outcome) == FastestTime::extracted(option_view(markup)),
    {
        match markup {
            Some(text) => Self::try_from_str(text),
            None => Err(Error::site(HaloWaypointError::MissingTime)),
        }
    }

    /// The best time of the mission at `element`: the markup inside the first
    /// best-time element below it.
    pub fn try_from_halo_waypoint_service_record(element: ElementRef) -> (outcome: Result<
        Self,
        Error,
    >)
        ensures
            result_view(outcome) == FastestTime::extracted(
                first_inner_html_of(element, FastestTime::selector()),
            ),
    {
        match first_inner_html(element, ".best-time") {
            Some(markup) => Self::try_from_markup(Some(markup.as_str())),
            None => Self::try_from_markup(None),
        }
    }

    /// The time, where one was recorded.
    pub fn to_internal(&self) -> (time: Option<TimeOfDay>)
        ensures
            time == self.internal(),
    {
        match self {
            FastestTime::Recorded(time) => Some(*time),
            FastestTime::Unrecorded => None,
        }
    }
}

/// The blank is no error, whatever a clock parser would make of it: it reads as
/// "no time".
pub proof fn lemma_blank_is_no_time(reading: Option<TimeOfDay>)
    ensures
        FastestTime::interpreted(FastestTime::blank(), reading) == Ok::<FastestTime, ErrorView>(
            FastestTime::Unrecorded,
        ),
        FastestTime::extracted(Some(FastestTime::blank())) == Ok::<FastestTime, ErrorView>(
            FastestTime::Unrecorded,
        ),
{
}

} // verus!
