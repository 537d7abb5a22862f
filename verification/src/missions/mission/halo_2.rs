use vstd::prelude::*;
use crate::missions::mission::minutes;
use crate::missions::mission::Mission;
use crate::missions::mission::MissionProperties;
use crate::missions::mission::MissionPropertiesView;
use crate::missions::mission::MissionView;
use crate::time_of_day::TimeOfDay;
use crate::views::views_of;

verus! {

/// The missions of Halo 2, in the order of the campaign.
#[derive(Clone, Copy, Debug, PartialEq, Eq, Structural)]
pub enum Halo2Mission {
    TheHeretic,
    TheArmory,
    CairoStation,
    Outskirts,
    Metropolis,
    TheArbiter,
    TheOracle,
    DeltaHalo,
    Regret,
    SacredIcon,
    QuarantineZone,
    Gravemind,
    Uprising,
    HighCharity,
    TheGreatJourney,
}

impl Halo2Mission {
    /// What the catalog knows of the mission.
    pub open spec fn properties(self) -> MissionPropertiesView {
        match self {
            Halo2Mission::TheHeretic => MissionPropertiesView {
                game_id: 2,
                id: 1,
                name: "The Heretic"@,
                par_time: None,
                par_score: None,
            },
            Halo2Mission::TheArmory => MissionPropertiesView {
                game_id: 2,
                id: 2,
                name: "The Armory"@,
                par_time: None,
                par_score: None,
            },
            Halo2Mission::CairoStation => MissionPropertiesView {
                game_id: 2,
                id: 3,
                name: "Cairo Station"@,
                par_time: Some(TimeOfDay::at(0, 15, 0, 0)),
                par_score: Some(14_000),
            },
            Halo2Mission::Outskirts => MissionPropertiesView {
                game_id: 2,
                id: 4,
                name: "Outskirts"@,
                par_time: Some(TimeOfDay::at(0, 15, 0, 0)),
                par_score: Some(8_000),
            },
            Halo2Mission::Metropolis => MissionPropertiesView {
                game_id: 2,
                id: 5,
                name: "Metropolis"@,
                par_time: Some(TimeOfDay::at(0, 15, 0, 0)),
                par_score: Some(9_000),
            },
            Halo2Mission::TheArbiter => MissionPropertiesView {
                game_id: 2,
                id: 6,
                name: "The Arbiter"@,
                par_time: Some(TimeOfDay::at(0, 15, 0, 0)),
                par_score: Some(7_000),
            },
            Halo2Mission::TheOracle => MissionPropertiesView {
                game_id: 2,
                id: 7,
                name: "The Oracle"@,
                par_time: Some(TimeOfDay::at(0, 25, 0, 0)),
                par_score: Some(16_000),
            },
            Halo2Mission::DeltaHalo => MissionPropertiesView {
                game_id: 2,
                id: 8,
                name: "Delta Halo"@,
                par_time: Some(TimeOfDay::at(0, 15, 0, 0)),
                par_score: Some(10_000),
            },
            Halo2Mission::Regret => MissionPropertiesView {
                game_id: 2,
                id: 9,
                name: "Regret"@,
                par_time: Some(TimeOfDay::at(0, 15, 0, 0)),
                par_score: Some(8_000),
            },
            Halo2Mission::SacredIcon => MissionPropertiesView {
                game_id: 2,
                id: 10,
                name: "Sacred Icon"@,
                par_time: Some(TimeOfDay::at(0, 15, 0, 0)),
                par_score: Some(7_000),
            },
            Halo2Mission::QuarantineZone => MissionPropertiesView {
                game_id: 2,
                id: 11,
                name: "Quarantine Zone"@,
                par_time: Some(TimeOfDay::at(0, 15, 0, 0)),
                par_score: Some(7_000),
            },
            Halo2Mission::Gravemind => MissionPropertiesView {
                game_id: 2,
                id: 12,
                name: "Gravemind"@,
                par_time: Some(TimeOfDay::at(0, 20, 0, 0)),
                par_score: Some(11_000),
            },
            Halo2Mission::Uprising => MissionPropertiesView {
                game_id: 2,
                id: 13,
                name: "Uprising"@,
                par_time: Some(TimeOfDay::at(0, 15, 0, 0)),
                par_score: Some(9_000),
            },
            Halo2Mission::HighCharity => MissionPropertiesView {
                game_id: 2,
                id: 14,
                name: "High Charity"@,
                par_time: Some(TimeOfDay::at(0, 15, 0, 0)),
                par_score: Some(9_000),
            },
            Halo2Mission::TheGreatJourney => MissionPropertiesView {
                game_id: 2,
                id: 15,
                name: "The Great Journey"@,
                par_time: Some(TimeOfDay::at(0, 15, 0, 0)),
                par_score: Some(8_000),
            },
        }
    }

    /// The missions of the game, in the order of the campaign.
    pub open spec fn campaign() -> Seq<Halo2Mission> {
        seq![
            Halo2Mission::TheHeretic,
            Halo2Mission::TheArmory,
            Halo2Mission::CairoStation,
            Halo2Mission::Outskirts,
            Halo2Mission::Metropolis,
            Halo2Mission::TheArbiter,
            Halo2Mission::TheOracle,
            Halo2Mission::DeltaHalo,
            Halo2Mission::Regret,
            Halo2Mission::SacredIcon,
            Halo2Mission::QuarantineZone,
            Halo2Mission::Gravemind,
            Halo2Mission::Uprising,
            Halo2Mission::HighCharity,
            Halo2Mission::TheGreatJourney,
        ]
    }

    /// The missions of the game as the catalog lists them.
    pub open spec fn catalog() -> Seq<MissionView> {
        Halo2Mission::campaign().map_values(|mission: Halo2Mission| mission.properties().mission())
    }

    pub fn to_mission(&self) -> (mission: Mission)
        ensures
            mission@ == self.properties().mission(),
    {
        Mission::from_properties(&self.to_properties())
    }

    pub fn to_properties(&self) -> (properties: MissionProperties)
        ensures
            properties@ == self.properties(),
    {
        match self {
            Halo2Mission::TheHeretic => MissionProperties {
                game_id: 2,
                id: 1,
                name: "The Heretic".to_owned(),
                par_time: None,
                par_score: None,
            },
            Halo2Mission::TheArmory => MissionProperties {
                game_id: 2,
                id: 2,
                name: "The Armory".to_owned(),
                par_time: None,
                par_score: None,
            },
            Halo2Mission::CairoStation => MissionProperties {
                game_id: 2,
                id: 3,
                name: "Cairo Station".to_owned(),
                par_time: Some(minutes(15)),
                par_score: Some(14_000),
            },
            Halo2Mission::Outskirts => MissionProperties {
                game_id: 2,
                id: 4,
                name: "Outskirts".to_owned(),
                par_time: Some(minutes(15)),
                par_score: Some(8_000),
            },
            Halo2Mission::Metropolis => MissionProperties {
                game_id: 2,
                id: 5,
                name: "Metropolis".to_owned(),
                par_time: Some(minutes(15)),
                par_score: Some(9_000),
            },
            Halo2Mission::TheArbiter => MissionProperties {
                game_id: 2,
                id: 6,
                name: "The Arbiter".to_owned(),
                par_time: Some(minutes(15)),
                par_score: Some(7_000),
            },
            Halo2Mission::TheOracle => MissionProperties {
                game_id: 2,
                id: 7,
                name: "The Oracle".to_owned(),
                par_time: Some(minutes(25)),
                par_score: Some(16_000),
            },
            Halo2Mission::DeltaHalo => MissionProperties {
                game_id: 2,
                id: 8,
                name: "Delta Halo".to_owned(),
                par_time: Some(minutes(15)),
                par_score: Some(10_000),
            },
            Halo2Mission::Regret => MissionProperties {
                game_id: 2,
                id: 9,
                name: "Regret".to_owned(),
                par_time: Some(minutes(15)),
                par_score: Some(8_000),
            },
            Halo2Mission::SacredIcon => MissionProperties {
                game_id: 2,
                id: 10,
                name: "Sacred Icon".to_owned(),
                par_time: Some(minutes(15)),
                par_score: Some(7_000),
            },
            Halo2Mission::QuarantineZone => MissionProperties {
                game_id: 2,
                id: 11,
                name: "Quarantine Zone".to_owned(),
                par_time: Some(minutes(15)),
                par_score: Some(7_000),
            },
            Halo2Mission::Gravemind => MissionProperties {
                game_id: 2,
                id: 12,
                name: "Gravemind".to_owned(),
                par_time: Some(minutes(20)),
                par_score: Some(11_000),
            },
            Halo2Mission::Uprising => MissionProperties {
                game_id: 2,
                id: 13,
                name: "Uprising".to_owned(),
                par_time: Some(minutes(15)),
                par_score: Some(9_000),
            },
            Halo2Mission::HighCharity => MissionProperties {
                game_id: 2,
                id: 14,
                name: "High Charity".to_owned(),
                par_time: Some(minutes(15)),
                par_score: Some(9_000),
            },
            Halo2Mission::TheGreatJourney => MissionProperties {
                game_id: 2,
                id: 15,
                name: "The Great Journey".to_owned(),
                par_time: Some(minutes(15)),
                par_score: Some(8_000),
            },
        }
    }

    /// Every mission of the game, in the order of the campaign.
    pub fn all() -> (missions: Vec<Mission>)
        ensures
            views_of(missions@) == Halo2Mission::catalog(),
    {
        let mut missions: Vec<Mission> = Vec::new();
        missions.push(Halo2Mission::TheHeretic.to_mission());
        missions.push(Halo2Mission::TheArmory.to_mission());
        missions.push(Halo2Mission::CairoStation.to_mission());
        missions.push(Halo2Mission::Outskirts.to_mission());
        missions.push(Halo2Mission::Metropolis.to_mission());
        missions.push(Halo2Mission::TheArbiter.to_mission());
        missions.push(Halo2Mission::TheOracle.to_mission());
        missions.push(Halo2Mission::DeltaHalo.to_mission());
        missions.push(Halo2Mission::Regret.to_mission());
        missions.push(Halo2Mission::SacredIcon.to_mission());
        missions.push(Halo2Mission::QuarantineZone.to_mission());
        missions.push(Halo2Mission::Gravemind.to_mission());
        missions.push(Halo2Mission::Uprising.to_mission());
        missions.push(Halo2Mission::HighCharity.to_mission());
        missions.push(Halo2Mission::TheGreatJourney.to_mission());
        missions
    }
}

} // verus!
