use vstd::prelude::*;
use scraper::ElementRef;
use crate::campaign_modes::campaign_mode::CampaignMode as InternalCampaignMode;
use crate::document::first_attribute;
use crate::document::first_attribute_of;
use crate::error::result_view;
use crate::error::site_error;
use crate::error::Error;
use crate::error::ErrorView;
use crate::error::HaloWaypointError;
use crate::error::HaloWaypointErrorView;
use crate::text::str_eq;
use crate::views::option_view;

verus! {

/// A campaign mode as the statistics site names it.
#[derive(PartialEq, Eq, Hash, Clone, Copy, Debug, Structural)]
pub enum CampaignMode {
    Solo,
    Coop,
}

impl CampaignMode {
    /// The code the site uses for the mode.
    pub open spec fn code(self) -> Seq<char> {
        match self {
            CampaignMode::Solo => "Solo"@,
            CampaignMode::Coop => "Coop"@,
        }
    }

    /// The mode that `code` names, if it names one.
    pub open spec fn of_code(code: Seq<char>) -> Option<CampaignMode> {
        if code == "Solo"@ {
            Some(CampaignMode::Solo)
        } else if code == "Coop"@ {
            Some(CampaignMode::Coop)
        } else {
            None
        }
    }

    /// What the text `code` gives: its mode, or the complaint that it names none.
    pub open spec fn parsed(code: Seq<char>) -> Result<CampaignMode, ErrorView> {
        match CampaignMode::of_code(code) {
            Some(mode) => Ok(mode),
            None => Err(site_error(HaloWaypointErrorView::UnknownCampaignMode(code))),
        }
    }

    /// What the mode attribute of a page gives: a missing attribute is an error of
    /// its own.
    pub open spec fn extracted(attribute: Option<Seq<char>>) -> Result<CampaignMode, ErrorView> {
        match attribute {
            Some(code) => CampaignMode::parsed(code),
            None => Err(site_error(HaloWaypointErrorView::MissingCampaignMode)),
        }
    }

    /// The catalog's mode for the site's.
    pub open spec fn internal(self) -> InternalCampaignMode {
        match self {
            CampaignMode::Solo => InternalCampaignMode::Solo,
            CampaignMode::Coop => InternalCampaignMode::Coop,
        }
    }

    /// The selector of the element that carries the mode.
    pub open spec fn selector() -> Seq<char> {
        "[data-mode-id]"@
    }

    /// The attribute that carries the mode.
    pub open spec fn attribute_name() -> Seq<char> {
        "data-mode-id"@
    }

    /// The mode that the code `campaign_mode` names.
    pub fn try_from_str(campaign_mode: &str) -> (outcome: Result<Self, Error>)
        ensures
            result_view(outcome) == CampaignMode::parsed(campaign_mode@),
    {
        if str_eq(campaign_mode, "Solo") {
            Ok(CampaignMode::Solo)
        } else if str_eq(campaign_mode, "Coop") {
            Ok(CampaignMode::Coop)
        } else {
            Err(Error::site(HaloWaypointError::UnknownCampaignMode(campaign_mode.to_owned())))
        }
    }

    /// The mode that the attribute of a page names.
    pub fn try_from_attribute(attribute: Option<&str>) -> (outcome: Result<Self, Error>)
        ensures
            result_view(outcome) == CampaignMode::extracted(option_view(attribute)),
    {
        match attribute {
            Some(code) => Self::try_from_str(code),
            None => Err(Error::site(HaloWaypointError::MissingCampaignMode)),
        }
    }

    /// The mode of the page below `element`: read off the first element that
    /// carries the mode attribute.
    pub fn try_from_halo_waypoint_service_record(element: ElementRef) -> (outcome: Result<
        Self,
        Error,
    >)
        ensures
            result_view(outcome) == CampaignMode::extracted(
                first_attribute_of(
                    element,
                    CampaignMode::selector(),
                    CampaignMode::attribute_name(),
                ),
            ),
    {
        Self::try_from_attribute(first_attribute(element, "[data-mode-id]", "data-mode-id"))
    }

    /// The code the site uses for the mode.
    #[allow(clippy::inherent_to_string)]
    pub fn to_string(&self) -> (code: String)
        ensures
            code@ == self.code(),
    {
        match self {
            CampaignMode::Solo => "Solo".to_owned(),
            CampaignMode::Coop => "Coop".to_owned(),
        }
    }

    /// The site's mode for a mode of the catalog.
    pub fn from_internal(campaign_mode: &InternalCampaignMode) -> (made: Self)
        ensures
            made.internal() == *campaign_mode,
    {
        match campaign_mode {
            InternalCampaignMode::Solo => CampaignMode::Solo,
            InternalCampaignMode::Coop => CampaignMode::Coop,
        }
    }

    /// The catalog's mode for the site's.
    pub fn to_internal(&self) -> (mode: InternalCampaignMode)
        ensures
            mode == self.internal(),
    {
        match self {
            CampaignMode::Solo => InternalCampaignMode::Solo,
            CampaignMode::Coop => InternalCampaignMode::Coop,
        }
    }
}

/// Each mode is the mode that its own code names.
pub proof fn lemma_code_names_its_mode(mode: CampaignMode)
    ensures
        CampaignMode::of_code(mode.code()) == Some(mode),
{
    reveal_strlit("Solo");
    reveal_strlit("Coop");
    assert("Solo"@[0] == 'S');
    assert("Coop"@[0] == 'C');
}

} // verus!
