use vstd::prelude::*;
use crate::missions::mission::minutes;
use crate::missions::mission::Mission;
use crate::missions::mission::MissionProperties;
use crate::missions::mission::MissionPropertiesView;
use crate::missions::mission::MissionView;
use crate::time_of_day::TimeOfDay;
use crate::views::views_of;

verus! {

/// The missions of Halo: Reach, in the order of the campaign.
#[derive(Clone, Copy, Debug, PartialEq, Eq, Structural)]
pub enum HaloReachMission {
    NobleActual,
    WinterContingency,
    ONISwordBase,
    Nightfall,
    TipOfTheSpear,
    LongNightOfSolace,
    Exodus,
    NewAlexandria,
    ThePackage,
    ThePillarOfAutumn,
    Epilogue,
    LoneWolf,
}

impl HaloReachMission {
    /// What the catalog knows of the mission.
    pub open spec fn properties(self) -> MissionPropertiesView {
        match self {
            HaloReachMission::NobleActual => MissionPropertiesView {
                game_id: 5,
                id: 1,
                name: "Noble Actual"@,
                par_time: None,
                par_score: None,
            },
            HaloReachMission::WinterContingency => MissionPropertiesView {
                game_id: 5,
                id: 2,
                name: "Winter Contingency"@,
                par_time: Some(TimeOfDay::at(0, 15, 0, 0)),
                par_score: Some(15_000),
            },
            HaloReachMission::ONISwordBase => MissionPropertiesView {
                game_id: 5,
                id: 3,
                name: "ONI Sword Base"@,
                par_time: Some(TimeOfDay::at(0, 10, 0, 0)),
                par_score: Some(25_000),
            },
            HaloReachMission::Nightfall => MissionPropertiesView {
                game_id: 5,
                id: 4,
                name: "Nightfall"@,
                par_time: Some(TimeOfDay::at(0, 10, 0, 0)),
                par_score: Some(7_500),
            },
            HaloReachMission::TipOfTheSpear => MissionPropertiesView {
                game_id: 5,
                id: 5,
                name: "Tip of The Spear"@,
                par_time: Some(TimeOfDay::at(0, 15, 0, 0)),
                par_score: Some(30_000),
            },
            HaloReachMission::LongNightOfSolace => MissionPropertiesView {
                game_id: 5,
                id: 6,
                name: "Long Night of Solace"@,
                par_time: Some(TimeOfDay::at(0, 25, 0, 0)),
                par_score: Some(45_000),
            },
            HaloReachMission::Exodus => MissionPropertiesView {
                game_id: 5,
                id: 7,
                name: "Exodus"@,
                par_time: Some(TimeOfDay::at(0, 20, 0, 0)),
                par_score: Some(30_000),
            },
            HaloReachMission::NewAlexandria => MissionPropertiesView {
                game_id: 5,
                id: 8,
                name: "New Alexandria"@,
                par_time: Some(TimeOfDay::at(0, 20, 0, 0)),
                par_score: Some(22_500),
            },
            HaloReachMission::ThePackage => MissionPropertiesView {
                game_id: 5,
                id: 9,
                name: "The Package"@,
                par_time: Some(TimeOfDay::at(0, 20, 0, 0)),
                par_score: Some(65_000),
            },
            HaloReachMission::ThePillarOfAutumn => MissionPropertiesView {
                game_id: 5,
                id: 10,
                name: "The Pillar of Autumn"@,
                par_time: Some(TimeOfDay::at(0, 20, 0, 0)),
                par_score: Some(25_000),
            },
            HaloReachMission::Epilogue => MissionPropertiesView {
                game_id: 5,
                id: 11,
                name: "Epilogue"@,
                par_time: None,
                par_score: None,
            },
            HaloReachMission::LoneWolf => MissionPropertiesView {
                game_id: 5,
                id: 12,
                name: "Lone Wolf"@,
                par_time: None,
                par_score: None,
            },
        }
    }

    /// The missions of the game, in the order of the campaign.
    pub open spec fn campaign() -> Seq<HaloReachMission> {
        seq![
            HaloReachMission::NobleActual,
            HaloReachMission::WinterContingency,
            HaloReachMission::ONISwordBase,
            HaloReachMission::Nightfall,
            HaloReachMission::TipOfTheSpear,
            HaloReachMission::LongNightOfSolace,
            HaloReachMission::Exodus,
            HaloReachMission::NewAlexandria,
            HaloReachMission::ThePackage,
            HaloReachMission::ThePillarOfAutumn,
            HaloReachMission::Epilogue,
            HaloReachMission::LoneWolf,
        ]
    }

    /// The missions of the game as the catalog lists them.
    pub open spec fn catalog() -> Seq<MissionView> {
        HaloReachMission::campaign().map_values(|mission: HaloReachMission| mission.properties().mission())
    }

    pub fn to_mission(&self) -> (mission: Mission)
        ensures
            mission@ == self.properties().mission(),
    {
        Mission::from_properties(&self.to_properties())
    }

    pub fn to_properties(&self) -> (properties: MissionProperties)
        ensures
            properties@ == self.properties(),
    {
        match self {
            HaloReachMission::NobleActual => MissionProperties {
                game_id: 5,
                id: 1,
                name: "Noble Actual".to_owned(),
                par_time: None,
                par_score: None,
            },
            HaloReachMission::WinterContingency => MissionProperties {
                game_id: 5,
                id: 2,
                name: "Winter Contingency".to_owned(),
                par_time: Some(minutes(15)),
                par_score: Some(15_000),
            },
            HaloReachMission::ONISwordBase => MissionProperties {
                game_id: 5,
                id: 3,
                name: "ONI Sword Base".to_owned(),
                par_time: Some(minutes(10)),
                par_score: Some(25_000),
            },
            HaloReachMission::Nightfall => MissionProperties {
                game_id: 5,
                id: 4,
                name: "Nightfall".to_owned(),
                par_time: Some(minutes(10)),
                par_score: Some(7_500),
            },
            HaloReachMission::TipOfTheSpear => MissionProperties {
                game_id: 5,
                id: 5,
                name: "Tip of The Spear".to_owned(),
                par_time: Some(minutes(15)),
                par_score: Some(30_000),
            },
            HaloReachMission::LongNightOfSolace => MissionProperties {
                game_id: 5,
                id: 6,
                name: "Long Night of Solace".to_owned(),
                par_time: Some(minutes(25)),
                par_score: Some(45_000),
            },
            HaloReachMission::Exodus => MissionProperties {
                game_id: 5,
                id: 7,
                name: "Exodus".to_owned(),
                par_time: Some(minutes(20)),
                par_score: Some(30_000),
            },
            HaloReachMission::NewAlexandria => MissionProperties {
                game_id: 5,
                id: 8,
                name: "New Alexandria".to_owned(),
                par_time: Some(minutes(20)),
                par_score: Some(22_500),
            },
            HaloReachMission::ThePackage => MissionProperties {
                game_id: 5,
                id: 9,
                name: "The Package".to_owned(),
                par_time: Some(minutes(20)),
                par_score: Some(65_000),
            },
            HaloReachMission::ThePillarOfAutumn => MissionProperties {
                game_id: 5,
                id: 10,
                name: "The Pillar of Autumn".to_owned(),
                par_time: Some(minutes(20)),
                par_score: Some(25_000),
            },
            HaloReachMission::Epilogue => MissionProperties {
                game_id: 5,
                id: 11,
                name: "Epilogue".to_owned(),
                par_time: None,
                par_score: None,
            },
            HaloReachMission::LoneWolf => MissionProperties {
                game_id: 5,
                id: 12,
                name: "Lone Wolf".to_owned(),
                par_time: None,
                par_score: None,
            },
        }
    }

    /// Every mission of the game, in the order of the campaign.
    pub fn all() -> (missions: Vec<Mission>)
        ensures
            views_of(missions@) == HaloReachMission::catalog(),
    {
        let mut missions: Vec<Mission> = Vec::new();
        missions.push(HaloReachMission::NobleActual.to_mission());
        missions.push(HaloReachMission::WinterContingency.to_mission());
        missions.push(HaloReachMission::ONISwordBase.to_mission());
        missions.push(HaloReachMission::Nightfall.to_mission());
        missions.push(HaloReachMission::TipOfTheSpear.to_mission());
        missions.push(HaloReachMission::LongNightOfSolace.to_mission());
        missions.push(HaloReachMission::Exodus.to_mission());
        missions.push(HaloReachMission::NewAlexandria.to_mission());
        missions.push(HaloReachMission::ThePackage.to_mission());
        missions.push(HaloReachMission::ThePillarOfAutumn.to_mission());
        missions.push(HaloReachMission::Epilogue.to_mission());
        missions.push(HaloReachMission::LoneWolf.to_mission());
        missions
    }
}

} // verus!
