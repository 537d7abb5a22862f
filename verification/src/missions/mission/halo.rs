use vstd::prelude::*;
use crate::missions::mission::minutes;
use crate::missions::mission::Mission;
use crate::missions::mission::MissionProperties;
use crate::missions::mission::MissionPropertiesView;
use crate::missions::mission::MissionView;
use crate::time_of_day::TimeOfDay;
use crate::views::views_of;

verus! {

/// The missions of Halo: Combat Evolved, in the order of the campaign.
#[derive(Clone, Copy, Debug, PartialEq, Eq, Structural)]
pub enum HaloMission {
    PillarOfAutumn,
    Halo,
    TruthAndReconciliation,
    SilentCartographer,
    AssaultOnTheControlRoom,
    ThreeFourThreeGuiltySpark,
    TheLibrary,
    TwoBetrayals,
    Keyes,
    TheMaw,
}

impl HaloMission {
    /// What the catalog knows of the mission.
    pub open spec fn properties(self) -> MissionPropertiesView {
        match self {
            HaloMission::PillarOfAutumn => MissionPropertiesView {
                game_id: 1,
                id: 1,
                name: "Pillar of Autumn"@,
                par_time: Some(TimeOfDay::at(0, 15, 0, 0)),
                par_score: Some(17_000),
            },
            HaloMission::Halo => MissionPropertiesView {
                game_id: 1,
                id: 2,
                name: "Halo"@,
                par_time: Some(TimeOfDay::at(0, 20, 0, 0)),
                par_score: Some(12_000),
            },
            HaloMission::TruthAndReconciliation => MissionPropertiesView {
                game_id: 1,
                id: 3,
                name: "Truth and Reconciliation"@,
                par_time: Some(TimeOfDay::at(0, 20, 0, 0)),
                par_score: Some(19_000),
            },
            HaloMission::SilentCartographer => MissionPropertiesView {
                game_id: 1,
                id: 4,
                name: "Silent Cartographer"@,
                par_time: Some(TimeOfDay::at(0, 15, 0, 0)),
                par_score: Some(18_000),
            },
            HaloMission::AssaultOnTheControlRoom => MissionPropertiesView {
                game_id: 1,
                id: 5,
                name: "Assault on the Control Room"@,
                par_time: Some(TimeOfDay::at(0, 15, 0, 0)),
                par_score: Some(18_000),
            },
            HaloMission::ThreeFourThreeGuiltySpark => MissionPropertiesView {
                game_id: 1,
                id: 6,
                name: "343 Guilty Spark"@,
                par_time: Some(TimeOfDay::at(0, 15, 0, 0)),
                par_score: Some(17_000),
            },
            HaloMission::TheLibrary => MissionPropertiesView {
                game_id: 1,
                id: 7,
                name: "The Library"@,
                par_time: Some(TimeOfDay::at(0, 25, 0, 0)),
                par_score: Some(25_000),
            },
            HaloMission::TwoBetrayals => MissionPropertiesView {
                game_id: 1,
                id: 8,
                name: "Two Betrayals"@,
                par_time: Some(TimeOfDay::at(0, 20, 0, 0)),
                par_score: Some(16_000),
            },
            HaloMission::Keyes => MissionPropertiesView {
                game_id: 1,
                id: 9,
                name: "Keyes"@,
                par_time: Some(TimeOfDay::at(0, 15, 0, 0)),
                par_score: Some(20_000),
            },
            HaloMission::TheMaw => MissionPropertiesView {
                game_id: 1,
                id: 10,
                name: "The Maw"@,
                par_time: Some(TimeOfDay::at(0, 15, 0, 0)),
                par_score: Some(18_000),
            },
        }
    }

    /// The missions of the game, in the order of the campaign.
    pub open spec fn campaign() -> Seq<HaloMission> {
        seq![
            HaloMission::PillarOfAutumn,
            HaloMission::Halo,
            HaloMission::TruthAndReconciliation,
            HaloMission::SilentCartographer,
            HaloMission::AssaultOnTheControlRoom,
            HaloMission::ThreeFourThreeGuiltySpark,
            HaloMission::TheLibrary,
            HaloMission::TwoBetrayals,
            HaloMission::Keyes,
            HaloMission::TheMaw,
        ]
    }

    /// The missions of the game as the catalog lists them.
    pub open spec fn catalog() -> Seq<MissionView> {
        HaloMission::campaign().map_values(|mission: HaloMission| mission.properties().mission())
    }

    pub fn to_mission(&self) -> (mission: Mission)
        ensures
            mission@ == self.properties().mission(),
    {
        Mission::from_properties(&self.to_properties())
    }

    pub fn to_properties(&self) -> (properties: MissionProperties)
        ensures
            properties@ == self.properties(),
    {
        match self {
            HaloMission::PillarOfAutumn => MissionProperties {
                game_id: 1,
                id: 1,
                name: "Pillar of Autumn".to_owned(),
                par_time: Some(minutes(15)),
                par_score: Some(17_000),
            },
            HaloMission::Halo => MissionProperties {
                game_id: 1,
                id: 2,
                name: "Halo".to_owned(),
                par_time: Some(minutes(20)),
                par_score: Some(12_000),
            },
            HaloMission::TruthAndReconciliation => MissionProperties {
                game_id: 1,
                id: 3,
                name: "Truth and Reconciliation".to_owned(),
                par_time: Some(minutes(20)),
                par_score: Some(19_000),
            },
            HaloMission::SilentCartographer => MissionProperties {
                game_id: 1,
                id: 4,
                name: "Silent Cartographer".to_owned(),
                par_time: Some(minutes(15)),
                par_score: Some(18_000),
            },
            HaloMission::AssaultOnTheControlRoom => MissionProperties {
                game_id: 1,
                id: 5,
                name: "Assault on the Control Room".to_owned(),
                par_time: Some(minutes(15)),
                par_score: Some(18_000),
            },
            HaloMission::ThreeFourThreeGuiltySpark => MissionProperties {
                game_id: 1,
                id: 6,
                name: "343 Guilty Spark".to_owned(),
                par_time: Some(minutes(15)),
                par_score: Some(17_000),
            },
            HaloMission::TheLibrary => MissionProperties {
                game_id: 1,
                id: 7,
                name: "The Library".to_owned(),
                par_time: Some(minutes(25)),
                par_score: Some(25_000),
            },
            HaloMission::TwoBetrayals => MissionProperties {
                game_id: 1,
                id: 8,
                name: "Two Betrayals".to_owned(),
                par_time: Some(minutes(20)),
                par_score: Some(16_000),
            },
            HaloMission::Keyes => MissionProperties {
                game_id: 1,
                id: 9,
                name: "Keyes".to_owned(),
                par_time: Some(minutes(15)),
                par_score: Some(20_000),
            },
            HaloMission::TheMaw => MissionProperties {
                game_id: 1,
                id: 10,
                name: "The Maw".to_owned(),
                par_time: Some(minutes(15)),
                par_score: Some(18_000),
            },
        }
    }

    /// Every mission of the game, in the order of the campaign.
    pub fn all() -> (missions: Vec<Mission>)
        ensures
            views_of(missions@) == HaloMission::catalog(),
    {
        let mut missions: Vec<Mission> = Vec::new();
        missions.push(HaloMission::PillarOfAutumn.to_mission());
        missions.push(HaloMission::Halo.to_mission());
        missions.push(HaloMission::TruthAndReconciliation.to_mission());
        missions.push(HaloMission::SilentCartographer.to_mission());
        missions.push(HaloMission::AssaultOnTheControlRoom.to_mission());
        missions.push(HaloMission::ThreeFourThreeGuiltySpark.to_mission());
        missions.push(HaloMission::TheLibrary.to_mission());
        missions.push(HaloMission::TwoBetrayals.to_mission());
        missions.push(HaloMission::Keyes.to_mission());
        missions.push(HaloMission::TheMaw.to_mission());
        missions
    }
}

} // verus!
