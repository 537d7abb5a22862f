use vstd::prelude::*;

verus! {

/// A level as the list of levels gives it: its game, its number, its name and,
/// where the game sets one, the time to beat in seconds.
#[derive(Debug, PartialEq, Eq)]
pub struct Level {
    pub game_id: i32,
    pub id: i32,
    pub name: String,
    pub par_time: Option<i32>,
}

/// The mathematical value of a [`Level`].
pub struct LevelView {
    pub game_id: i32,
    pub id: i32,
    pub name: Seq<char>,
    pub par_time: Option<i32>,
}

impl View for Level {
    type V = LevelView;

    open spec fn view(&self) -> LevelView {
        LevelView {
            game_id: self.game_id,
            id: self.id,
            name: self.name@,
            par_time: self.par_time,
        }
    }
}

impl Clone for Level {
    fn clone(&self) -> (copy: Self)
        ensures
            copy@ == self@,
    {
        Level {
            game_id: self.game_id,
            id: self.id,
            name: self.name.clone(),
            par_time: self.par_time,
        }
    }
}

} // verus!
