use vstd::prelude::*;
use crate::missions::mission::minutes;
use crate::missions::mission::Mission;
use crate::missions::mission::MissionProperties;
use crate::missions::mission::MissionPropertiesView;
use crate::missions::mission::MissionView;
use crate::time_of_day::TimeOfDay;
use crate::views::views_of;

verus! {

/// The missions of Halo 4, in the order of the campaign.
#[derive(Clone, Copy, Debug, PartialEq, Eq, Structural)]
pub enum Halo4Mission {
    Prologue,
    Dawn,
    Requiem,
    Forerunner,
    Infinity,
    Reclaimer,
    Shutdown,
    Composer,
    Midnight,
    Epilogue,
}

impl Halo4Mission {
    /// What the catalog knows of the mission.
    pub open spec fn properties(self) -> MissionPropertiesView {
        match self {
            Halo4Mission::Prologue => MissionPropertiesView {
                game_id: 6,
                id: 1,
                name: "Prologue"@,
                par_time: None,
                par_score: None,
            },
            Halo4Mission::Dawn => MissionPropertiesView {
                game_id: 6,
                id: 2,
                name: "Dawn"@,
                par_time: Some(TimeOfDay::at(0, 15, 0, 0)),
                par_score: Some(25_000),
            },
            Halo4Mission::Requiem => MissionPropertiesView {
                game_id: 6,
                id: 3,
                name: "Requiem"@,
                par_time: Some(TimeOfDay::at(0, 15, 0, 0)),
                par_score: Some(22_000),
            },
            Halo4Mission::Forerunner => MissionPropertiesView {
                game_id: 6,
                id: 4,
                name: "Forerunner"@,
                par_time: Some(TimeOfDay::at(0, 20, 0, 0)),
                par_score: Some(22_000),
            },
            Halo4Mission::Infinity => MissionPropertiesView {
                game_id: 6,
                id: 5,
                name: "Infinity"@,
                par_time: Some(TimeOfDay::at(0, 25, 0, 0)),
                par_score: Some(25_000),
            },
            Halo4Mission::Reclaimer => MissionPropertiesView {
                game_id: 6,
                id: 6,
                name: "Reclaimer"@,
                par_time: Some(TimeOfDay::at(0, 20, 0, 0)),
                par_score: Some(25_000),
            },
            Halo4Mission::Shutdown => MissionPropertiesView {
                game_id: 6,
                id: 7,
                name: "Shutdown"@,
                par_time: Some(TimeOfDay::at(0, 20, 0, 0)),
                par_score: Some(25_000),
            },
            Halo4Mission::Composer => MissionPropertiesView {
                game_id: 6,
                id: 8,
                name: "Composer"@,
                par_time: Some(TimeOfDay::at(0, 20, 0, 0)),
                par_score: Some(25_000),
            },
            Halo4Mission::Midnight => MissionPropertiesView {
                game_id: 6,
                id: 9,
                name: "Midnight"@,
                par_time: Some(TimeOfDay::at(0, 25, 0, 0)),
                par_score: Some(25_000),
            },
            Halo4Mission::Epilogue => MissionPropertiesView {
                game_id: 6,
                id: 10,
                name: "Epilogue"@,
                par_time: None,
                par_score: None,
            },
        }
    }

    /// The missions of the game, in the order of the campaign.
    pub open spec fn campaign() -> Seq<Halo4Mission> {
        seq![
            Halo4Mission::Prologue,
            Halo4Mission::Dawn,
            Halo4Mission::Requiem,
            Halo4Mission::Forerunner,
            Halo4Mission::Infinity,
            Halo4Mission::Reclaimer,
            Halo4Mission::Shutdown,
            Halo4Mission::Composer,
            Halo4Mission::Midnight,
            Halo4Mission::Epilogue,
        ]
    }

    /// The missions of the game as the catalog lists them.
    pub open spec fn catalog() -> Seq<MissionView> {
        Halo4Mission::campaign().map_values(|mission: Halo4Mission| mission.properties().mission())
    }

    pub fn to_mission(&self) -> (mission: Mission)
        ensures
            mission@ == self.properties().mission(),
    {
        Mission::from_properties(&self.to_properties())
    }

    pub fn to_properties(&self) -> (properties: MissionProperties)
        ensures
            properties@ == self.properties(),
    {
        match self {
            Halo4Mission::Prologue => MissionProperties {
                game_id: 6,
                id: 1,
                name: "Prologue".to_owned(),
                par_time: None,
                par_score: None,
            },
            Halo4Mission::Dawn => MissionProperties {
                game_id: 6,
                id: 2,
                name: "Dawn".to_owned(),
                par_time: Some(minutes(15)),
                par_score: Some(25_000),
            },
            Halo4Mission::Requiem => MissionProperties {
                game_id: 6,
                id: 3,
                name: "Requiem".to_owned(),
                par_time: Some(minutes(15)),
                par_score: Some(22_000),
            },
            Halo4Mission::Forerunner => MissionProperties {
                game_id: 6,
                id: 4,
                name: "Forerunner".to_owned(),
                par_time: Some(minutes(20)),
                par_score: Some(22_000),
            },
            Halo4Mission::Infinity => MissionProperties {
                game_id: 6,
                id: 5,
                name: "Infinity".to_owned(),
                par_time: Some(minutes(25)),
                par_score: Some(25_000),
            },
            Halo4Mission::Reclaimer => MissionProperties {
                game_id: 6,
                id: 6,
                name: "Reclaimer".to_owned(),
                par_time: Some(minutes(20)),
                par_score: Some(25_000),
            },
            Halo4Mission::Shutdown => MissionProperties {
                game_id: 6,
                id: 7,
                name: "Shutdown".to_owned(),
                par_time: Some(minutes(20)),
                par_score: Some(25_000),
            },
            Halo4Mission::Composer => MissionProperties {
                game_id: 6,
                id: 8,
                name: "Composer".to_owned(),
                par_time: Some(minutes(20)),
                par_score: Some(25_000),
            },
            Halo4Mission::Midnight => MissionProperties {
                game_id: 6,
                id: 9,
                name: "Midnight".to_owned(),
                par_time: Some(minutes(25)),
                par_score: Some(25_000),
            },
            Halo4Mission::Epilogue => MissionProperties {
                game_id: 6,
                id: 10,
                name: "Epilogue".to_owned(),
                par_time: None,
                par_score: None,
            },
        }
    }

    /// Every mission of the game, in the order of the campaign.
    pub fn all() -> (missions: Vec<Mission>)
        ensures
            views_of(missions@) == Halo4Mission::catalog(),
    {
        let mut missions: Vec<Mission> = Vec::new();
        missions.push(Halo4Mission::Prologue.to_mission());
        missions.push(Halo4Mission::Dawn.to_mission());
        missions.push(Halo4Mission::Requiem.to_mission());
        missions.push(Halo4Mission::Forerunner.to_mission());
        missions.push(Halo4Mission::Infinity.to_mission());
        missions.push(Halo4Mission::Reclaimer.to_mission());
        missions.push(Halo4Mission::Shutdown.to_mission());
        missions.push(Halo4Mission::Composer.to_mission());
        missions.push(Halo4Mission::Midnight.to_mission());
        missions.push(Halo4Mission::Epilogue.to_mission());
        missions
    }
}

} // verus!
