use vstd::prelude::*;
use crate::levels::level::Level;
use crate::levels::level::LevelView;
use crate::views::first_match;
use crate::views::lemma_filter_step;
use crate::views::lemma_first_match_skip;
use crate::views::option_view;
use crate::views::views_of;

verus! {

/// The levels that were loaded, in the order of the list they came from.
pub struct LevelsDao {
    cache: Vec<Level>,
}

impl LevelsDao {
    /// The levels the source holds, in order.
    pub closed spec fn levels(&self) -> Seq<LevelView> {
        views_of(self.cache@)
    }

    /// A source over the levels that were read from the list.
    pub fn new(levels: Vec<Level>) -> (dao: LevelsDao)
        ensures
            dao.levels() == views_of(levels@),
    {
        LevelsDao { cache: levels }
    }

    /// The first level of the game `game_id` with the number `id`, if there is
    /// one.
    pub fn find_by_game_id_and_id(&self, game_id: i32, id: i32) -> (found: Option<Level>)
        ensures
            option_view(found) == first_match(
                self.levels(),
                |level: LevelView| level.game_id == game_id && level.id == id,
            ),
    {
        let ghost wanted = |level: LevelView| level.game_id == game_id && level.id == id;
        let mut i: usize = 0;
        while i < self.cache.len()
            invariant
                i <= self.cache.len(),
                wanted == |level: LevelView| level.game_id == game_id && level.id == id,
                forall|j: int| 0 <= j < i ==> !wanted(#[trigger] self.levels()[j]),
            decreases self.cache.len() - i,
        {
            if self.cache[i].game_id == game_id && self.cache[i].id == id {
                proof {
                    lemma_first_match_skip(self.levels(), wanted, i as int);
                }
                return Some(self.cache[i].clone());
            }
            i += 1;
        }
        proof {
            lemma_first_match_skip(self.levels(), wanted, i as int);
        }
        None
    }

    /// The levels of the game `game_id`, in the order of the list.
    pub fn all_by_game_id(&self, game_id: i32) -> (found: Vec<Level>)
        ensures
            views_of(found@) == self.levels().filter(|level: LevelView| level.game_id == game_id),
    {
        let ghost wanted = |level: LevelView| level.game_id == game_id;
        let ghost all = self.levels();
        let mut found: Vec<Level> = Vec::new();
        let mut i: usize = 0;
        assert(all.take(0).filter(wanted) =~= Seq::<LevelView>::empty()) by {
            reveal(Seq::filter);
        }
        while i < self.cache.len()
            invariant
                i <= self.cache.len(),
                all == self.levels(),
                wanted == |level: LevelView| level.game_id == game_id,
                views_of(found@) == all.take(i as int).filter(wanted),
            decreases self.cache.len() - i,
        {
            proof {
                lemma_filter_step(all, wanted, i as int);
            }
            if self.cache[i].game_id == game_id {
                found.push(self.cache[i].clone());
            }
            i += 1;
        }
        assert(all.take(i as int) =~= all);
        found
    }
}

} // verus!
