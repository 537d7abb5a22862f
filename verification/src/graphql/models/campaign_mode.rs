use vstd::prelude::*;
use crate::campaign_modes::campaign_mode::CampaignMode;

verus! {

/// The word the query surface shows for a campaign mode.
pub open spec fn shown(mode: CampaignMode) -> Seq<char> {
    match mode {
        CampaignMode::Solo => "solo"@,
        CampaignMode::Coop => "coop"@,
    }
}

/// The word the query surface shows for `mode`.
pub fn resolve(mode: &CampaignMode) -> (word: String)
    ensures
        word@ == shown(*mode),
{
    match mode {
        CampaignMode::Solo => "solo".to_owned(),
        CampaignMode::Coop => "coop".to_owned(),
    }
}

} // verus!
