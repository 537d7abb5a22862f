use vstd::prelude::*;
use scraper::ElementRef;
use crate::difficulties::difficulty::Difficulty as InternalDifficulty;
use crate::document::first_attribute;
use crate::document::first_attribute_of;
use crate::error::result_view;
use crate::error::site_error;
use crate::error::Error;
use crate::error::ErrorView;
use crate::error::HaloWaypointError;
use crate::error::HaloWaypointErrorView;
use crate::text::str_eq;
use crate::views::option_view;

verus! {

/// The difficulty shown for a mission; `Unplayed` where the mission was never played.
#[derive(PartialEq, Eq, Hash, Clone, Copy, Debug, Structural)]
pub enum Difficulty {
    Unplayed,
    Easy,
    Normal,
    Heroic,
    Legendary,
}

impl Difficulty {
    /// The difficulty that the title `title` names, if it names one.
    pub open spec fn of_title(title: Seq<char>) -> Option<Difficulty> {
        if title == "None"@ {
            Some(Difficulty::Unplayed)
        } else if title == "Easy"@ {
            Some(Difficulty::Easy)
        } else if title == "Normal"@ {
            Some(Difficulty::Normal)
        } else if title == "Heroic"@ {
            Some(Difficulty::Heroic)
        } else if title == "Legendary"@ {
            Some(Difficulty::Legendary)
        } else {
            None
        }
    }

    /// What the text `title` gives: its difficulty, or the complaint that it names
    /// none.
    pub open spec fn parsed(title: Seq<char>) -> Result<Difficulty, ErrorView> {
        match Difficulty::of_title(title) {
            Some(difficulty) => Ok(difficulty),
            None => Err(site_error(HaloWaypointErrorView::UnknownDifficulty(title))),
        }
    }

    /// What the title of a mission's skull gives: a missing title is an error of
    /// its own.
    pub open spec fn extracted(title: Option<Seq<char>>) -> Result<Difficulty, ErrorView> {
        match title {
            Some(text) => Difficulty::parsed(text),
            None => Err(site_error(HaloWaypointErrorView::MissingDifficulty)),
        }
    }

    /// The catalog's difficulty, where the mission was played.
    pub open spec fn internal(self) -> Option<InternalDifficulty> {
        match self {
            Difficulty::Unplayed => None,
            Difficulty::Easy => Some(InternalDifficulty::Easy),
            Difficulty::Normal => Some(InternalDifficulty::Normal),
            Difficulty::Heroic => Some(InternalDifficulty::Heroic),
            Difficulty::Legendary => Some(InternalDifficulty::Legendary),
        }
    }

    /// The selector of the element whose title is the difficulty.
    pub open spec fn selector() -> Seq<char> {
        ".skull .spritesheet"@
    }

    /// The attribute that carries the difficulty.
    pub open spec fn attribute_name() -> Seq<char> {
        "title"@
    }

    /// The difficulty that the title `difficulty` names.
    pub fn try_from_str(difficulty: &str) -> (outcome: Result<Self, Error>)
        ensures
            result_view(outcome) == Difficulty::parsed(difficulty@),
    {
        if str_eq(difficulty, "None") {
            Ok(Difficulty::Unplayed)
        } else if str_eq(difficulty, "Easy") {
            Ok(Difficulty::Easy)
        } else if str_eq(difficulty, "Normal") {
            Ok(Difficulty::Normal)
        } else if str_eq(difficulty, "Heroic") {
            Ok(Difficulty::Heroic)
        } else if str_eq(difficulty, "Legendary") {
            Ok(Difficulty::Legendary)
        } else {
            Err(Error::site(HaloWaypointError::UnknownDifficulty(difficulty.to_owned())))
        }
    }

    /// The difficulty that the title of a mission's skull names.
    pub fn try_from_title(title: Option<&str>) -> (outcome: Result<Self, Error>)
        ensures
            result_view(outcome) == Difficulty::extracted(option_view(title)),
    {
        match title {
            Some(text) => Self::try_from_str(text),
            None => Err(Error::site(HaloWaypointError::MissingDifficulty)),
        }
    }

    /// The difficulty of the mission at `element`: the title of the first skull
    /// below it.
    pub fn try_from_halo_waypoint_service_record(element: ElementRef) -> (outcome: Result<
        Self,
        Error,
    >)
        ensures
            result_view(outcome) == Difficulty::extracted(
                first_attribute_of(element, Difficulty::selector(), Difficulty::attribute_name()),
            ),
    {
        Self::try_from_title(first_attribute(element, ".skull .spritesheet", "title"))
    }

    /// The catalog's difficulty, where the mission was played.
    pub fn to_internal(&self) -> (difficulty: Option<InternalDifficulty>)
        ensures
            difficulty == self.internal(),
    {
        match self {
            Difficulty::Unplayed => None,
            Difficulty::Easy => Some(InternalDifficulty::Easy),
            Difficulty::Normal => Some(InternalDifficulty::Normal),
            Difficulty::Heroic => Some(InternalDifficulty::Heroic),
            Difficulty::Legendary => Some(InternalDifficulty::Legendary),
        }
    }
}

/// The title `None` is no error: it reads as a mission that was never played.
pub proof fn lemma_none_is_no_error()
    ensures
        Difficulty::extracted(Some("None"@)) == Ok::<Difficulty, ErrorView>(Difficulty::Unplayed),
        Difficulty::Unplayed.internal() is None,
{
}

/// A title that is none of the five known ones is reported with its text.
pub proof fn lemma_unknown_title_is_reported(title: Seq<char>)
    requires
        title != "None"@,
        title != "Easy"@,
        title != "Normal"@,
        title != "Heroic"@,
        title != "Legendary"@,
    ensures
        Difficulty::extracted(Some(title)) == Err::<Difficulty, ErrorView>(
            site_error(HaloWaypointErrorView::UnknownDifficulty(title)),
        ),
{
}

} // verus!
