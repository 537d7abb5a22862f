use vstd::prelude::*;
use scraper::ElementRef;
use crate::document::first_inner_html;
use crate::document::first_inner_html_of;
use crate::error::result_view;
use crate::error::site_error;
use crate::error::Error;
use crate::error::ErrorView;
use crate::error::HaloWaypointError;
use crate::error::HaloWaypointErrorView;
use crate::text::decimal_i32;
use crate::text::parse_i32;
use crate::text::str_eq;
use crate::views::option_view;

verus! {

/// The highest score recorded for a mission, if one was recorded.
#[derive(PartialEq, Eq, Hash, Clone, Copy, Debug, Structural)]
pub enum HighestScore {
    Recorded(i32),
    Unrecorded,
}

impl HighestScore {
    /// The text that stands for "no score recorded".
    pub open spec fn blank() -> Seq<char> {
        "--"@
    }

    /// What the text `text` gives: the blank is no score, a decimal number is a
    /// score, anything else is reported with its text.
    pub open spec fn parsed(text: Seq<char>) -> Result<HighestScore, ErrorView> {
        if text == HighestScore::blank() {
            Ok(HighestScore::Unrecorded)
        } else {
            match decimal_i32(text) {
                Some(score) => Ok(HighestScore::Recorded(score)),
                None => Err(site_error(HaloWaypointErrorView::InvalidScore(text))),
            }
        }
    }

    /// What the markup of a mission's highest-score element gives: a missing
    /// element is an error of its own.
    pub open spec fn extracted(markup: Option<Seq<char>>) -> Result<HighestScore, ErrorView> {
        match markup {
            Some(text) => HighestScore::parsed(text),
            None => Err(site_error(HaloWaypointErrorView::MissingScore)),
        }
    }

    /// The score, where one was recorded.
    pub open spec fn internal(self) -> Option<i32> {
        match self {
            HighestScore::Recorded(score) => Some(score),
            HighestScore::Unrecorded => None,
        }
    }

    /// The selector of the element that holds the score.
    pub open spec fn selector() -> Seq<char> {
        ".highest-score"@
    }

    /// Reads the text of a highest-score element.
    pub fn try_from_str(text: &str) -> (outcome: Result<Self, Error>)
        ensures
            result_view(outcome) == HighestScore::parsed(text@),
    {
        if str_eq(text, "--") {
            Ok(HighestScore::Unrecorded)
        } else {
            match parse_i32(text) {
                Some(score) => Ok(HighestScore::Recorded(score)),
                None => Err(Error::site(HaloWaypointError::InvalidScore(text.to_owned()))),
            }
        }
    }

    /// Reads the markup of a highest-score element, where there is one.
    pub fn try_from_markup(markup: Option<&str>) -> (outcome: Result<Self, Error>)
        ensures
            result_view(outcome) == HighestScore::extracted(option_view(markup)),
    {
        match markup {
            Some(text) => Self::try_from_str(text),
            None => Err(Error::site(HaloWaypointError::MissingScore)),
        }
    }

    /// The highest score of the mission at `element`: the markup inside the first
    /// highest-score element below it.
    pub fn try_from_halo_waypoint_service_record(element: ElementRef) -> (outcome: Result<
        Self,
        Error,
    >)
        ensures
            result_view(outcome) == HighestScore::extracted(
                first_inner_html_of(element, HighestScore::selector()),
            ),
    {
        match first_inner_html(element, ".highest-score") {
            Some(markup) => Self::try_from_markup(Some(markup.as_str())),
            None => Self::try_from_markup(None),
        }
    }

    /// The score, where one was recorded.
    pub fn to_internal(&self) -> (score: Option<i32>)
        ensures
            score == self.internal(),
    {
        match self {
            HighestScore::Recorded(highest_score) => Some(*highest_score),
            HighestScore::Unrecorded => None,
        }
    }
}

} // verus!
