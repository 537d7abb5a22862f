use vstd::prelude::*;
use crate::games::game::GameId;
use crate::time_of_day::TimeOfDay;

pub mod halo;
pub mod halo_2;
pub mod halo_3;
pub mod halo_3_odst;
pub mod halo_4;
pub mod halo_reach;

verus! {

/// The number of a mission within its game.
#[derive(Debug, Clone, Copy, PartialEq, Eq, PartialOrd, Ord, Hash, Structural)]
pub struct MissionId(pub i32);

impl MissionId {
    pub fn new(id: i32) -> (made: Self)
        ensures
            made == MissionId(id),
    {
        Self(id)
    }

    pub fn value(&self) -> (id: &i32)
        ensures
            *id == self.0,
    {
        &self.0
    }
}

/// A mission of the catalog, with the time and the score to beat where the game
/// sets them.
#[derive(Debug)]
pub struct Mission {
    game_id: GameId,
    id: MissionId,
    name: String,
    par_time: Option<TimeOfDay>,
    par_score: Option<i32>,
}

/// The mathematical value of a [`Mission`].
pub struct MissionView {
    pub game_id: GameId,
    pub id: MissionId,
    pub name: Seq<char>,
    pub par_time: Option<TimeOfDay>,
    pub par_score: Option<i32>,
}

impl View for Mission {
    type V = MissionView;

    closed spec fn view(&self) -> MissionView {
        MissionView {
            game_id: self.game_id,
            id: self.id,
            name: self.name@,
            par_time: self.par_time,
            par_score: self.par_score,
        }
    }
}

impl Clone for Mission {
    fn clone(&self) -> (copy: Self)
        ensures
            copy@ == self@,
    {
        Mission {
            game_id: self.game_id,
            id: self.id,
            name: self.name.clone(),
            par_time: self.par_time,
            par_score: self.par_score,
        }
    }
}

/// What the catalog knows of a mission, with plain numbers for the game and the
/// mission.
#[derive(Debug)]
pub struct MissionProperties {
    pub game_id: i32,
    pub id: i32,
    pub name: String,
    pub par_time: Option<TimeOfDay>,
    pub par_score: Option<i32>,
}

/// The mathematical value of [`MissionProperties`].
pub struct MissionPropertiesView {
    pub game_id: i32,
    pub id: i32,
    pub name: Seq<char>,
    pub par_time: Option<TimeOfDay>,
    pub par_score: Option<i32>,
}

impl MissionPropertiesView {
    /// The mission that has these properties.
    pub open spec fn mission(self) -> MissionView {
        MissionView {
            game_id: GameId(self.game_id),
            id: MissionId(self.id),
            name: self.name,
            par_time: self.par_time,
            par_score: self.par_score,
        }
    }
}

impl View for MissionProperties {
    type V = MissionPropertiesView;

    open spec fn view(&self) -> MissionPropertiesView {
        MissionPropertiesView {
            game_id: self.game_id,
            id: self.id,
            name: self.name@,
            par_time: self.par_time,
            par_score: self.par_score,
        }
    }
}

/// The time that is `count` minutes after midnight, for less than an hour.
pub fn minutes(count: u8) -> (time: TimeOfDay)
    requires
        count < 60,
    ensures
        time == TimeOfDay::at(0, count as int, 0, 0),
{
    match TimeOfDay::try_from_hms(0, count, 0) {
        Some(time) => time,
        None => unreached(),
    }
}

impl Mission {
    pub fn new(
        game_id: GameId,
        id: MissionId,
        name: &str,
        par_time: Option<TimeOfDay>,
        par_score: Option<i32>,
    ) -> (made: Self)
        ensures
            made@ == (MissionView { game_id, id, name: name@, par_time, par_score }),
    {
        Self { game_id, id, name: name.to_owned(), par_time, par_score }
    }

    /// The mission that has the given properties.
    pub fn from_properties(properties: &MissionProperties) -> (made: Self)
        ensures
            made@ == properties@.mission(),
    {
        Self::new(
            GameId::new(properties.game_id),
            MissionId::new(properties.id),
            properties.name.as_str(),
            properties.par_time,
            properties.par_score,
        )
    }

    pub fn game_id(&self) -> (game_id: GameId)
        ensures
            game_id == self@.game_id,
    {
        self.game_id
    }

    pub fn id(&self) -> (id: MissionId)
        ensures
            id == self@.id,
    {
        self.id
    }

    pub fn name(&self) -> (name: String)
        ensures
            name@ == self@.name,
    {
        self.name.clone()
    }

    pub fn par_time(&self) -> (par_time: Option<TimeOfDay>)
        ensures
            par_time == self@.par_time,
    {
        self.par_time
    }

    pub fn par_score(&self) -> (par_score: Option<i32>)
        ensures
            par_score == self@.par_score,
    {
        self.par_score
    }
}

} // verus!
