use vstd::prelude::*;

verus! {

/// The difficulty a mission was completed on.
#[derive(Clone, Copy, Debug, PartialEq, Eq, Hash, Structural)]
pub enum Difficulty {
    Easy,
    Normal,
    Heroic,
    Legendary,
}

impl Difficulty {
    /// The lower-case name of the difficulty.
    pub open spec fn name(self) -> Seq<char> {
        match self {
            Difficulty::Easy => "easy"@,
            Difficulty::Normal => "normal"@,
            Difficulty::Heroic => "heroic"@,
            Difficulty::Legendary => "legendary"@,
        }
    }

    /// The lower-case name of the difficulty.
    pub fn to_string(&self) -> (text: String)
        ensures
            text@ == self.name(),
    {
        match self {
            Difficulty::Easy => "easy".to_owned(),
            Difficulty::Normal => "normal".to_owned(),
            Difficulty::Heroic => "heroic".to_owned(),
            Difficulty::Legendary => "legendary".to_owned(),
        }
    }
}

} // verus!
