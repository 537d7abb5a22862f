use vstd::prelude::*;
use crate::missions::mission::minutes;
use crate::missions::mission::Mission;
use crate::missions::mission::MissionProperties;
use crate::missions::mission::MissionPropertiesView;
use crate::missions::mission::MissionView;
use crate::time_of_day::TimeOfDay;
use crate::views::views_of;

verus! {

/// The missions of Halo 3: ODST, in the order of the campaign.
#[derive(Clone, Copy, Debug, PartialEq, Eq, Structural)]
pub enum Halo3OdstMission {
    PrepareToDrop,
    MombasaStreets,
    TayariPlaza,
    UpliftReserve,
    KizingoBoulevard,
    ONIAlphaSite,
    NMPDHQ,
    KikowaniStation,
    DataHive,
    CoastalHighway,
    Epilogue,
}

impl Halo3OdstMission {
    /// What the catalog knows of the mission.
    pub open spec fn properties(self) -> MissionPropertiesView {
        match self {
            Halo3OdstMission::PrepareToDrop => MissionPropertiesView {
                game_id: 4,
                id: 1,
                name: "Prepare To Drop"@,
                par_time: None,
                par_score: None,
            },
            Halo3OdstMission::MombasaStreets => MissionPropertiesView {
                game_id: 4,
                id: 2,
                name: "Mombasa Streets"@,
                par_time: None,
                par_score: None,
            },
            Halo3OdstMission::TayariPlaza => MissionPropertiesView {
                game_id: 4,
                id: 3,
                name: "Tayari Plaza"@,
                par_time: Some(TimeOfDay::at(0, 3, 0, 0)),
                par_score: Some(8_000),
            },
            Halo3OdstMission::UpliftReserve => MissionPropertiesView {
                game_id: 4,
                id: 4,
                name: "Uplift Reserve"@,
                par_time: Some(TimeOfDay::at(0, 4, 0, 0)),
                par_score: Some(14_000),
            },
            Halo3OdstMission::KizingoBoulevard => MissionPropertiesView {
                game_id: 4,
                id: 5,
                name: "Kizingo Boulevard"@,
                par_time: Some(TimeOfDay::at(0, 9, 0, 0)),
                par_score: Some(18_000),
            },
            Halo3OdstMission::ONIAlphaSite => MissionPropertiesView {
                game_id: 4,
                id: 6,
                name: "ONI Alpha Site"@,
                par_time: Some(TimeOfDay::at(0, 13, 0, 0)),
                par_score: Some(16_000),
            },
            Halo3OdstMission::NMPDHQ => MissionPropertiesView {
                game_id: 4,
                id: 7,
                name: "NMPD HQ"@,
                par_time: Some(TimeOfDay::at(0, 10, 0, 0)),
                par_score: Some(40_000),
            },
            Halo3OdstMission::KikowaniStation => MissionPropertiesView {
                game_id: 4,
                id: 8,
                name: "Kikowani Station"@,
                par_time: Some(TimeOfDay::at(0, 10, 0, 0)),
                par_score: Some(42_000),
            },
            Halo3OdstMission::DataHive => MissionPropertiesView {
                game_id: 4,
                id: 9,
                name: "Data Hive"@,
                par_time: Some(TimeOfDay::at(0, 16, 0, 0)),
                par_score: Some(8_000),
            },
            Halo3OdstMission::CoastalHighway => MissionPropertiesView {
                game_id: 4,
                id: 10,
                name: "Coastal Highway"@,
                par_time: Some(TimeOfDay::at(0, 25, 0, 0)),
                par_score: Some(90_000),
            },
            Halo3OdstMission::Epilogue => MissionPropertiesView {
                game_id: 4,
                id: 11,
                name: "Epilogue"@,
                par_time: None,
                par_score: None,
            },
        }
    }

    /// The missions of the game, in the order of the campaign.
    pub open spec fn campaign() -> Seq<Halo3OdstMission> {
        seq![
            Halo3OdstMission::PrepareToDrop,
            Halo3OdstMission::MombasaStreets,
            Halo3OdstMission::TayariPlaza,
            Halo3OdstMission::UpliftReserve,
            Halo3OdstMission::KizingoBoulevard,
            Halo3OdstMission::ONIAlphaSite,
            Halo3OdstMission::NMPDHQ,
            Halo3OdstMission::KikowaniStation,
            Halo3OdstMission::DataHive,
            Halo3OdstMission::CoastalHighway,
            Halo3OdstMission::Epilogue,
        ]
    }

    /// The missions of the game as the catalog lists them.
    pub open spec fn catalog() -> Seq<MissionView> {
        Halo3OdstMission::campaign().map_values(|mission: Halo3OdstMission| mission.properties().mission())
    }

    pub fn to_mission(&self) -> (mission: Mission)
        ensures
            mission@ == self.properties().mission(),
    {
        Mission::from_properties(&self.to_properties())
    }

    pub fn to_properties(&self) -> (properties: MissionProperties)
        ensures
            properties@ == self.properties(),
    {
        match self {
            Halo3OdstMission::PrepareToDrop => MissionProperties {
                game_id: 4,
                id: 1,
                name: "Prepare To Drop".to_owned(),
                par_time: None,
                par_score: None,
            },
            Halo3OdstMission::MombasaStreets => MissionProperties {
                game_id: 4,
                id: 2,
                name: "Mombasa Streets".to_owned(),
                par_time: None,
                par_score: None,
            },
            Halo3OdstMission::TayariPlaza => MissionProperties {
                game_id: 4,
                id: 3,
                name: "Tayari Plaza".to_owned(),
                par_time: Some(minutes(3)),
                par_score: Some(8_000),
            },
            Halo3OdstMission::UpliftReserve => MissionProperties {
                game_id: 4,
                id: 4,
                name: "Uplift Reserve".to_owned(),
                par_time: Some(minutes(4)),
                par_score: Some(14_000),
            },
            Halo3OdstMission::KizingoBoulevard => MissionProperties {
                game_id: 4,
                id: 5,
                name: "Kizingo Boulevard".to_owned(),
                par_time: Some(minutes(9)),
                par_score: Some(18_000),
            },
            Halo3OdstMission::ONIAlphaSite => MissionProperties {
                game_id: 4,
                id: 6,
                name: "ONI Alpha Site".to_owned(),
                par_time: Some(minutes(13)),
                par_score: Some(16_000),
            },
            Halo3OdstMission::NMPDHQ => MissionProperties {
                game_id: 4,
                id: 7,
                name: "NMPD HQ".to_owned(),
                par_time: Some(minutes(10)),
                par_score: Some(40_000),
            },
            Halo3OdstMission::KikowaniStation => MissionProperties {
                game_id: 4,
                id: 8,
                name: "Kikowani Station".to_owned(),
                par_time: Some(minutes(10)),
                par_score: Some(42_000),
            },
            Halo3OdstMission::DataHive => MissionProperties {
                game_id: 4,
                id: 9,
                name: "Data Hive".to_owned(),
                par_time: Some(minutes(16)),
                par_score: Some(8_000),
            },
            Halo3OdstMission::CoastalHighway => MissionProperties {
                game_id: 4,
                id: 10,
                name: "Coastal Highway".to_owned(),
                par_time: Some(minutes(25)),
                par_score: Some(90_000),
            },
            Halo3OdstMission::Epilogue => MissionProperties {
                game_id: 4,
                id: 11,
                name: "Epilogue".to_owned(),
                par_time: None,
                par_score: None,
            },
        }
    }

    /// Every mission of the game, in the order of the campaign.
    pub fn all() -> (missions: Vec<Mission>)
        ensures
            views_of(missions@) == Halo3OdstMission::catalog(),
    {
        let mut missions: Vec<Mission> = Vec::new();
        missions.push(Halo3OdstMission::PrepareToDrop.to_mission());
        missions.push(Halo3OdstMission::MombasaStreets.to_mission());
        missions.push(Halo3OdstMission::TayariPlaza.to_mission());
        missions.push(Halo3OdstMission::UpliftReserve.to_mission());
        missions.push(Halo3OdstMission::KizingoBoulevard.to_mission());
        missions.push(Halo3OdstMission::ONIAlphaSite.to_mission());
        missions.push(Halo3OdstMission::NMPDHQ.to_mission());
        missions.push(Halo3OdstMission::KikowaniStation.to_mission());
        missions.push(Halo3OdstMission::DataHive.to_mission());
        missions.push(Halo3OdstMission::CoastalHighway.to_mission());
        missions.push(Halo3OdstMission::Epilogue.to_mission());
        missions
    }
}

} // verus!
