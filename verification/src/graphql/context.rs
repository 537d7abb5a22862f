use vstd::prelude::*;
use crate::games::dao::GamesDao;
use crate::games::dao::InMemoryGamesDao;
use crate::games::game::GameView;
use crate::missions::dao::InMemoryMissionsDao;
use crate::missions::dao::MissionsDao;
use crate::missions::mission::MissionView;
use crate::service_records::dao::ServiceRecordsDao;

verus! {

/// What the query surface draws on: the games, the missions, and the way to a
/// player's records.
pub struct Context {
    games_dao: InMemoryGamesDao,
    missions_dao: InMemoryMissionsDao,
    service_records_doa: ServiceRecordsDao,
}

impl Context {
    /// The games that can be asked about.
    pub closed spec fn games(&self) -> Seq<GameView> {
        self.games_dao.games()
    }

    /// The missions that can be asked about.
    pub closed spec fn missions(&self) -> Seq<MissionView> {
        self.missions_dao.missions()
    }

    /// The games in which records are looked for.
    pub closed spec fn record_games(&self) -> Seq<GameView> {
        self.service_records_doa.games()
    }

    pub fn games_dao(&self) -> (dao: &InMemoryGamesDao)
        ensures
            dao.games() == self.games(),
    {
        &self.games_dao
    }

    pub fn missions_dao(&self) -> (dao: &InMemoryMissionsDao)
        ensures
            dao.missions() == self.missions(),
    {
        &self.missions_dao
    }

    pub fn service_records_doa(&self) -> (dao: &ServiceRecordsDao)
        ensures
            dao.games() == self.record_games(),
    {
        &self.service_records_doa
    }

    /// The context over the catalog of the collection.
    pub fn default() -> (context: Self)
        ensures
            context.games() == crate::games::dao::catalog(),
            context.missions() == crate::missions::dao::catalog(),
            context.record_games() == crate::games::dao::catalog(),
    {
        Self {
            games_dao: InMemoryGamesDao::default(),
            missions_dao: InMemoryMissionsDao::default(),
            service_records_doa: ServiceRecordsDao::default(),
        }
    }
}

} // verus!
