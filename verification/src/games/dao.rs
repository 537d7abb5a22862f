use vstd::prelude::*;
use crate::games::game::Game;
use crate::games::game::GameId;
use crate::games::game::GameView;
use crate::views::first_match;
use crate::views::lemma_first_match_skip;
use crate::views::views_of;

verus! {

/// A source of the games of the catalog.
pub trait GamesDao {
    /// The games this source holds, in its own order.
    spec fn games(&self) -> Seq<GameView>;

    /// Every game of the source.
    fn all(&self) -> (all: Vec<Game>)
        ensures
            views_of(all@) == self.games(),
    ;

    /// The first game with the number `id`, if the source holds one.
    fn find_by_id(&self, id: GameId) -> (found: Option<Game>)
        ensures
            match found {
                Some(game) => first_match(self.games(), |g: GameView| g.id == id) == Some(game@),
                None => first_match(self.games(), |g: GameView| g.id == id) is None,
            },
    ;
}

/// The six games of the collection, held in memory.
pub struct InMemoryGamesDao {
    games: Vec<Game>,
}

/// The games of the collection.
pub open spec fn catalog() -> Seq<GameView> {
    seq![
        GameView { id: GameId(1), name: "Halo: Combat Evolved Anniversary"@ },
        GameView { id: GameId(2), name: "Halo 2: Anniversary"@ },
        GameView { id: GameId(3), name: "Halo 3"@ },
        GameView { id: GameId(4), name: "Halo 3: ODST"@ },
        GameView { id: GameId(5), name: "Halo: Reach"@ },
        GameView { id: GameId(6), name: "Halo 4"@ },
    ]
}

impl InMemoryGamesDao {
    /// The source that holds the games of the collection.
    pub fn default() -> (dao: Self)
        ensures
            dao.games() == catalog(),
    {
        let mut games: Vec<Game> = Vec::new();
        games.push(Game::new(GameId::new(1), "Halo: Combat Evolved Anniversary"));
        games.push(Game::new(GameId::new(2), "Halo 2: Anniversary"));
        games.push(Game::new(GameId::new(3), "Halo 3"));
        games.push(Game::new(GameId::new(4), "Halo 3: ODST"));
        games.push(Game::new(GameId::new(5), "Halo: Reach"));
        games.push(Game::new(GameId::new(6), "Halo 4"));
        Self { games }
    }
}

impl GamesDao for InMemoryGamesDao {
    closed spec fn games(&self) -> Seq<GameView> {
        views_of(self.games@)
    }

    fn all(&self) -> (all: Vec<Game>) {
        let mut all: Vec<Game> = Vec::new();
        let mut i: usize = 0;
        while i < self.games.len()
            invariant
                i <= self.games.len(),
                all.len() == i,
                forall|j: int| 0 <= j < i ==> all@[j]@ == self.games@[j]@,
            decreases self.games.len() - i,
        {
            all.push(self.games[i].clone());
            i += 1;
        }
        all
    }

    fn find_by_id(&self, id: GameId) -> (found: Option<Game>) {
        let ghost wanted = |g: GameView| g.id == id;
        let mut i: usize = 0;
        while i < self.games.len()
            invariant
                i <= self.games.len(),
                wanted == |g: GameView| g.id == id,
                forall|j: int| 0 <= j < i ==> !wanted(#[trigger] self.games()[j]),
            decreases self.games.len() - i,
        {
            if self.games[i].id() == id {
                proof {
                    lemma_first_match_skip(self.games(), wanted, i as int);
                }
                return Some(self.games[i].clone());
            }
            i += 1;
        }
        proof {
            lemma_first_match_skip(self.games(), wanted, i as int);
        }
        None
    }
}

} // verus!
