use vstd::prelude::*;
use crate::games::game::GameId;
use crate::missions::mission::halo::HaloMission;
use crate::missions::mission::halo_2::Halo2Mission;
use crate::missions::mission::halo_3::Halo3Mission;
use crate::missions::mission::halo_3_odst::Halo3OdstMission;
use crate::missions::mission::halo_4::Halo4Mission;
use crate::missions::mission::halo_reach::HaloReachMission;
use crate::missions::mission::Mission;
use crate::missions::mission::MissionId;
use crate::missions::mission::MissionView;
use crate::views::first_match;
use crate::views::lemma_filter_step;
use crate::views::lemma_first_match_skip;
use crate::views::option_view;
use crate::views::views_of;

verus! {

/// A source of the missions of the catalog.
pub trait MissionsDao {
    /// The missions this source holds, in its own order.
    spec fn missions(&self) -> Seq<MissionView>;

    /// The missions of the game `game_id`, in the order of the source.
    fn all_by_game_id(&self, game_id: GameId) -> (found: Vec<Mission>)
        ensures
            views_of(found@) == self.missions().filter(|m: MissionView| m.game_id == game_id),
    ;

    /// The first mission of the game `game_id` with the number `id`, if the source
    /// holds one.
    fn find_by_game_id_and_id(&self, game_id: GameId, id: MissionId) -> (found: Option<Mission>)
        ensures
            option_view(found) == first_match(
                self.missions(),
                |m: MissionView| m.game_id == game_id && m.id == id,
            ),
    ;
}

/// The missions of the six games, held in memory.
pub struct InMemoryMissionsDao {
    missions: Vec<Mission>,
}

/// The missions of the collection: game after game, each in the order of its
/// campaign.
pub open spec fn catalog() -> Seq<MissionView> {
    HaloMission::catalog() + Halo2Mission::catalog() + Halo3Mission::catalog()
        + Halo3OdstMission::catalog() + HaloReachMission::catalog() + Halo4Mission::catalog()
}

/// Moves the missions of `more` to the end of `missions`.
fn extend(missions: &mut Vec<Mission>, more: Vec<Mission>)
    ensures
        views_of(final(missions)@) == views_of(old(missions)@) + views_of(more@),
{
    let mut rest = more;
    missions.append(&mut rest);
}

impl InMemoryMissionsDao {
    /// The source that holds the missions of the collection.
    pub fn default() -> (dao: Self)
        ensures
            dao.missions() == catalog(),
    {
        let mut missions: Vec<Mission> = HaloMission::all();
        extend(&mut missions, Halo2Mission::all());
        extend(&mut missions, Halo3Mission::all());
        extend(&mut missions, Halo3OdstMission::all());
        extend(&mut missions, HaloReachMission::all());
        extend(&mut missions, Halo4Mission::all());
        Self { missions }
    }
}

impl MissionsDao for InMemoryMissionsDao {
    closed spec fn missions(&self) -> Seq<MissionView> {
        views_of(self.missions@)
    }

    fn all_by_game_id(&self, game_id: GameId) -> (found: Vec<Mission>) {
        let ghost wanted = |m: MissionView| m.game_id == game_id;
        let ghost all = self.missions();
        let mut found: Vec<Mission> = Vec::new();
        let mut i: usize = 0;
        assert(all.take(0).filter(wanted) =~= Seq::<MissionView>::empty()) by {
            reveal(Seq::filter);
        }
        while i < self.missions.len()
            invariant
                i <= self.missions.len(),
                all == self.missions(),
                wanted == |m: MissionView| m.game_id == game_id,
                views_of(found@) == all.take(i as int).filter(wanted),
            decreases self.missions.len() - i,
        {
            proof {
                lemma_filter_step(all, wanted, i as int);
            }
            if self.missions[i].game_id() == game_id {
                found.push(self.missions[i].clone());
            }
            i += 1;
        }
        assert(all.take(i as int) =~= all);
        found
    }

    fn find_by_game_id_and_id(&self, game_id: GameId, id: MissionId) -> (found: Option<Mission>) {
        let ghost wanted = |m: MissionView| m.game_id == game_id && m.id == id;
        let mut i: usize = 0;
        while i < self.missions.len()
            invariant
                i <= self.missions.len(),
                wanted == |m: MissionView| m.game_id == game_id && m.id == id,
                forall|j: int| 0 <= j < i ==> !wanted(#[trigger] self.missions()[j]),
            decreases self.missions.len() - i,
        {
            if self.missions[i].game_id() == game_id && self.missions[i].id() == id {
                proof {
                    lemma_first_match_skip(self.missions(), wanted, i as int);
                }
                return Some(self.missions[i].clone());
            }
            i += 1;
        }
        proof {
            lemma_first_match_skip(self.missions(), wanted, i as int);
        }
        None
    }
}

} // verus!
