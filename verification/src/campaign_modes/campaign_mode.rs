use vstd::prelude::*;

verus! {

/// How a mission was played: alone or with others.
#[derive(Clone, Copy, Debug, PartialEq, Eq, Hash, Structural)]
pub enum CampaignMode {
    Solo,
    Coop,
}

} // verus!
