use vstd::prelude::*;
use crate::missions::mission::minutes;
use crate::missions::mission::Mission;
use crate::missions::mission::MissionProperties;
use crate::missions::mission::MissionPropertiesView;
use crate::missions::mission::MissionView;
use crate::time_of_day::TimeOfDay;
use crate::views::views_of;

verus! {

/// The missions of Halo 3, in the order of the campaign.
#[derive(Clone, Copy, Debug, PartialEq, Eq, Structural)]
pub enum Halo3Mission {
    Arrival,
    SierraOneOneSeven,
    CrowsNest,
    TvasoHighway,
    TheStorm,
    Floodgate,
    TheArk,
    TheCovenant,
    Cortana,
    Halo,
    Epilogue,
}

impl Halo3Mission {
    /// What the catalog knows of the mission.
    pub open spec fn properties(self) -> MissionPropertiesView {
        match self {
            Halo3Mission::Arrival => MissionPropertiesView {
                game_id: 3,
                id: 1,
                name: "Arrival"@,
                par_time: None,
                par_score: None,
            },
            Halo3Mission::SierraOneOneSeven => MissionPropertiesView {
                game_id: 3,
                id: 2,
                name: "Sierra 117"@,
                par_time: Some(TimeOfDay::at(0, 15, 0, 0)),
                par_score: Some(13_000),
            },
            Halo3Mission::CrowsNest => MissionPropertiesView {
                game_id: 3,
                id: 3,
                name: "Crow’s Nest"@,
                par_time: Some(TimeOfDay::at(0, 20, 0, 0)),
                par_score: Some(19_000),
            },
            Halo3Mission::TvasoHighway => MissionPropertiesView {
                game_id: 3,
                id: 4,
                name: "Tvaso Highway"@,
                par_time: Some(TimeOfDay::at(0, 20, 0, 0)),
                par_score: Some(21_000),
            },
            Halo3Mission::TheStorm => MissionPropertiesView {
                game_id: 3,
                id: 5,
                name: "The Storm"@,
                par_time: Some(TimeOfDay::at(0, 15, 0, 0)),
                par_score: Some(15_000),
            },
            Halo3Mission::Floodgate => MissionPropertiesView {
                game_id: 3,
                id: 6,
                name: "Floodgate"@,
                par_time: Some(TimeOfDay::at(0, 15, 0, 0)),
                par_score: Some(25_000),
            },
            Halo3Mission::TheArk => MissionPropertiesView {
                game_id: 3,
                id: 7,
                name: "The Ark"@,
                par_time: Some(TimeOfDay::at(0, 20, 0, 0)),
                par_score: Some(25_000),
            },
            Halo3Mission::TheCovenant => MissionPropertiesView {
                game_id: 3,
                id: 8,
                name: "The Covenant"@,
                par_time: Some(TimeOfDay::at(0, 20, 0, 0)),
                par_score: Some(25_000),
            },
            Halo3Mission::Cortana => MissionPropertiesView {
                game_id: 3,
                id: 9,
                name: "Cortana"@,
                par_time: Some(TimeOfDay::at(0, 15, 0, 0)),
                par_score: Some(17_000),
            },
            Halo3Mission::Halo => MissionPropertiesView {
                game_id: 3,
                id: 10,
                name: "Halo"@,
                par_time: Some(TimeOfDay::at(0, 20, 0, 0)),
                par_score: Some(24_000),
            },
            Halo3Mission::Epilogue => MissionPropertiesView {
                game_id: 3,
                id: 11,
                name: "Epilogue"@,
                par_time: None,
                par_score: None,
            },
        }
    }

    /// The missions of the game, in the order of the campaign.
    pub open spec fn campaign() -> Seq<Halo3Mission> {
        seq![
            Halo3Mission::Arrival,
            Halo3Mission::SierraOneOneSeven,
            Halo3Mission::CrowsNest,
            Halo3Mission::TvasoHighway,
            Halo3Mission::TheStorm,
            Halo3Mission::Floodgate,
            Halo3Mission::TheArk,
            Halo3Mission::TheCovenant,
            Halo3Mission::Cortana,
            Halo3Mission::Halo,
            Halo3Mission::Epilogue,
        ]
    }

    /// The missions of the game as the catalog lists them.
    pub open spec fn catalog() -> Seq<MissionView> {
        Halo3Mission::campaign().map_values(|mission: Halo3Mission| mission.properties().mission())
    }

    pub fn to_mission(&self) -> (mission: Mission)
        ensures
            mission@ == self.properties().mission(),
    {
        Mission::from_properties(&self.to_properties())
    }

    pub fn to_properties(&self) -> (properties: MissionProperties)
        ensures
            properties@ == self.properties(),
    {
        match self {
            Halo3Mission::Arrival => MissionProperties {
                game_id: 3,
                id: 1,
                name: "Arrival".to_owned(),
                par_time: None,
                par_score: None,
            },
            Halo3Mission::SierraOneOneSeven => MissionProperties {
                game_id: 3,
                id: 2,
                name: "Sierra 117".to_owned(),
                par_time: Some(minutes(15)),
                par_score: Some(13_000),
            },
            Halo3Mission::CrowsNest => MissionProperties {
                game_id: 3,
                id: 3,
                name: "Crow’s Nest".to_owned(),
                par_time: Some(minutes(20)),
                par_score: Some(19_000),
            },
            Halo3Mission::TvasoHighway => MissionProperties {
                game_id: 3,
                id: 4,
                name: "Tvaso Highway".to_owned(),
                par_time: Some(minutes(20)),
                par_score: Some(21_000),
            },
            Halo3Mission::TheStorm => MissionProperties {
                game_id: 3,
                id: 5,
                name: "The Storm".to_owned(),
                par_time: Some(minutes(15)),
                par_score: Some(15_000),
            },
            Halo3Mission::Floodgate => MissionProperties {
                game_id: 3,
                id: 6,
                name: "Floodgate".to_owned(),
                par_time: Some(minutes(15)),
                par_score: Some(25_000),
            },
            Halo3Mission::TheArk => MissionProperties {
                game_id: 3,
                id: 7,
                name: "The Ark".to_owned(),
                par_time: Some(minutes(20)),
                par_score: Some(25_000),
            },
            Halo3Mission::TheCovenant => MissionProperties {
                game_id: 3,
                id: 8,
                name: "The Covenant".to_owned(),
                par_time: Some(minutes(20)),
                par_score: Some(25_000),
            },
            Halo3Mission::Cortana => MissionProperties {
                game_id: 3,
                id: 9,
                name: "Cortana".to_owned(),
                par_time: Some(minutes(15)),
                par_score: Some(17_000),
            },
            Halo3Mission::Halo => MissionProperties {
                game_id: 3,
                id: 10,
                name: "Halo".to_owned(),
                par_time: Some(minutes(20)),
                par_score: Some(24_000),
            },
            Halo3Mission::Epilogue => MissionProperties {
                game_id: 3,
                id: 11,
                name: "Epilogue".to_owned(),
                par_time: None,
                par_score: None,
            },
        }
    }

    /// Every mission of the game, in the order of the campaign.
    pub fn all() -> (missions: Vec<Mission>)
        ensures
            views_of(missions@) == Halo3Mission::catalog(),
    {
        let mut missions: Vec<Mission> = Vec::new();
        missions.push(Halo3Mission::Arrival.to_mission());
        missions.push(Halo3Mission::SierraOneOneSeven.to_mission());
        missions.push(Halo3Mission::CrowsNest.to_mission());
        missions.push(Halo3Mission::TvasoHighway.to_mission());
        missions.push(Halo3Mission::TheStorm.to_mission());
        missions.push(Halo3Mission::Floodgate.to_mission());
        missions.push(Halo3Mission::TheArk.to_mission());
        missions.push(Halo3Mission::TheCovenant.to_mission());
        missions.push(Halo3Mission::Cortana.to_mission());
        missions.push(Halo3Mission::Halo.to_mission());
        missions.push(Halo3Mission::Epilogue.to_mission());
        missions
    }
}

} // verus!
