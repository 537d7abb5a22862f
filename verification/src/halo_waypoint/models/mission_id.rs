use vstd::prelude::*;
use scraper::ElementRef;
use crate::document::attribute;
use crate::document::attribute_of;
use crate::error::result_view;
use crate::error::site_error;
use crate::error::Error;
use crate::error::ErrorView;
use crate::error::HaloWaypointError;
use crate::error::HaloWaypointErrorView;
use crate::halo_waypoint::models::game::Game;
use crate::text::decimal_i32;
use crate::text::parse_i32;
use crate::views::option_view;

verus! {

/// The number a page of the statistics site gives a mission.
#[derive(PartialEq, Eq, Hash, Clone, Copy, Debug, Structural)]
pub struct MissionId(pub i32);

impl MissionId {
    /// What the text `text` gives: the number it writes in decimal, or the
    /// complaint that it writes none.
    pub open spec fn parsed(text: Seq<char>) -> Result<MissionId, ErrorView> {
        match decimal_i32(text) {
            Some(number) => Ok(MissionId(number)),
            None => Err(site_error(HaloWaypointErrorView::InvalidMissionId(text))),
        }
    }

    /// What the mission attribute of an element gives: a missing attribute is an
    /// error of its own.
    pub open spec fn extracted(attribute: Option<Seq<char>>) -> Result<MissionId, ErrorView> {
        match attribute {
            Some(text) => MissionId::parsed(text),
            None => Err(site_error(HaloWaypointErrorView::MissingMissionId)),
        }
    }

    /// The attribute that carries the number of a mission.
    pub open spec fn attribute_name() -> Seq<char> {
        "data-mission-id"@
    }

    /// The catalog's number for the mission, which is a mission of `game`: each
    /// game has its own shift between the site's numbers and the catalog's.
    pub open spec fn internal(self, game: Game) -> int {
        self.0 + game.mission_offset()
    }

    /// Whether the catalog's number for the mission can be held.
    pub open spec fn fits(self, game: Game) -> bool {
        i32::MIN <= self.internal(game) <= i32::MAX
    }

    pub fn new(mission: i32) -> (made: Self)
        ensures
            made == MissionId(mission),
    {
        Self(mission)
    }

    /// Reads the text of a mission attribute.
    pub fn try_from_str(text: &str) -> (outcome: Result<Self, Error>)
        ensures
            result_view(outcome) == MissionId::parsed(text@),
    {
        match parse_i32(text) {
            Some(number) => Ok(Self::new(number)),
            None => Err(Error::site(HaloWaypointError::InvalidMissionId(text.to_owned()))),
        }
    }

    /// Reads a mission attribute, where there is one.
    pub fn try_from_attribute(attribute: Option<&str>) -> (outcome: Result<Self, Error>)
        ensures
            result_view(outcome) == MissionId::extracted(option_view(attribute)),
    {
        match attribute {
            Some(text) => Self::try_from_str(text),
            None => Err(Error::site(HaloWaypointError::MissingMissionId)),
        }
    }

    /// The number of the mission at `element`: the mission attribute of the
    /// element itself.
    pub fn try_from_halo_waypoint_service_record(element: ElementRef) -> (outcome: Result<
        Self,
        Error,
    >)
        ensures
            result_view(outcome) == MissionId::extracted(
                attribute_of(element, MissionId::attribute_name()),
            ),
    {
        Self::try_from_attribute(attribute(element, "data-mission-id"))
    }

    /// Whether the catalog's number for the mission can be held.
    pub fn is_translatable(&self, game: &Game) -> (fits: bool)
        ensures
            fits == self.fits(*game),
    {
        let offset = game.to_mission_offset();
        if offset >= 0 {
            self.0 <= i32::MAX - offset
        } else {
            self.0 >= i32::MIN - offset
        }
    }

    /// The catalog's number for the mission, which is a mission of `game`.
    pub fn to_internal(&self, game: &Game) -> (number: i32)
        requires
            self.fits(*game),
        ensures
            number == self.internal(*game),
    {
        self.0 + game.to_mission_offset()
    }
}

/// An element without the mission attribute is reported as lacking it, and an
/// attribute that writes no number is reported with its text.
pub proof fn lemma_mission_attribute_errors(text: Seq<char>)
    requires
        decimal_i32(text) is None,
    ensures
        MissionId::extracted(None) == Err::<MissionId, ErrorView>(
            site_error(HaloWaypointErrorView::MissingMissionId),
        ),
        MissionId::extracted(Some(text)) == Err::<MissionId, ErrorView>(
            site_error(HaloWaypointErrorView::InvalidMissionId(text)),
        ),
{
}

} // verus!
