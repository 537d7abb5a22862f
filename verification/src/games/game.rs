use vstd::prelude::*;

verus! {

/// The number under which the catalog knows a game.
#[derive(Debug, Clone, Copy, PartialEq, Eq, PartialOrd, Ord, Hash, Structural)]
pub struct GameId(pub i32);

impl GameId {
    pub fn new(id: i32) -> (made: Self)
        ensures
            made == GameId(id),
    {
        Self(id)
    }

    pub fn value(&self) -> (id: &i32)
        ensures
            *id == self.0,
    {
        &self.0
    }
}

/// A game of the catalog.
#[derive(Debug, PartialEq, Eq, Hash)]
pub struct Game {
    id: GameId,
    name: String,
}

/// The mathematical value of a [`Game`].
pub struct GameView {
    pub id: GameId,
    pub name: Seq<char>,
}

impl View for Game {
    type V = GameView;

    closed spec fn view(&self) -> GameView {
        GameView { id: self.id, name: self.name@ }
    }
}

impl Clone for Game {
    fn clone(&self) -> (copy: Self)
        ensures
            copy@ == self@,
    {
        Game { id: self.id, name: self.name.clone() }
    }
}

impl Game {
    pub fn new(id: GameId, name: &str) -> (made: Self)
        ensures
            made@ == (GameView { id, name: name@ }),
    {
        Self { id, name: name.to_owned() }
    }

    pub fn id(&self) -> (id: GameId)
        ensures
            id == self@.id,
    {
        self.id
    }

    pub fn name(&self) -> (name: String)
        ensures
            name@ == self@.name,
    {
        self.name.clone()
    }
}

} // verus!
