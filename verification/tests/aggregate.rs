use halomcc::campaign_modes::campaign_mode::CampaignMode;
use halomcc::difficulties::difficulty::Difficulty;
use halomcc::error::Error;
use halomcc::error::HaloWaypointError;
use halomcc::games::game::Game;
use halomcc::games::game::GameId;
use halomcc::halo_waypoint::models::campaign_mode::CampaignMode as SiteMode;
use halomcc::halo_waypoint::models::difficulty::Difficulty as SiteDifficulty;
use halomcc::halo_waypoint::models::fastest_time::FastestTime;
use halomcc::halo_waypoint::models::game::Game as SiteGame;
use halomcc::halo_waypoint::models::highest_score::HighestScore;
use halomcc::halo_waypoint::models::mission_id::MissionId as SiteMissionId;
use halomcc::halo_waypoint::requests::service_record::GetServiceRecordResponse;
use halomcc::halo_waypoint::requests::service_record::GetServiceRecordResponseMission;
use halomcc::missions::mission::Mission;
use halomcc::missions::mission::MissionId;
use halomcc::service_records::dao::ServiceRecordsDao;
use halomcc::service_records::service_record::RunRow;
use halomcc::service_records::service_record::ServiceRecord;
use halomcc::service_records::service_record::ServiceRecordRun;
use halomcc::time_of_day::TimeOfDay;

fn time(minute: u8, second: u8) -> TimeOfDay {
    TimeOfDay::try_from_hms(0, minute, second).unwrap()
}

fn row(game: i32, mission: i32, mode: CampaignMode, difficulty: Difficulty, minute: u8, score: i32) -> RunRow {
    (GameId::new(game), mission, mode, difficulty, time(minute, 0), score)
}

fn keys(records: &[ServiceRecord]) -> Vec<(i32, i32)> {
    records.iter().map(|record| (*record.game_id().value(), record.mission_id())).collect()
}

#[test]
fn no_rows_give_no_records() {
    assert!(ServiceRecord::from_player_and_runs("John117", &[]).is_empty());
}

#[test]
fn rows_are_grouped_by_game_and_mission_in_ascending_order() {
    let rows = vec![
        row(2, 5, CampaignMode::Solo, Difficulty::Easy, 10, 100),
        row(1, 9, CampaignMode::Solo, Difficulty::Normal, 11, 200),
        row(2, 3, CampaignMode::Coop, Difficulty::Heroic, 12, 300),
        row(1, 9, CampaignMode::Coop, Difficulty::Legendary, 13, 400),
        row(1, 2, CampaignMode::Solo, Difficulty::Easy, 14, 500),
        row(2, 5, CampaignMode::Coop, Difficulty::Easy, 15, 600),
    ];
    let records = ServiceRecord::from_player_and_runs("John117", &rows);
    assert_eq!(keys(&records), vec![(1, 2), (1, 9), (2, 3), (2, 5)]);
    for record in &records {
        assert_eq!(record.player(), "John117");
    }
    assert_eq!(
        records[0].runs(),
        vec![ServiceRecordRun::new(CampaignMode::Solo, Difficulty::Easy, time(14, 0), 500)]
    );
    assert_eq!(
        records[1].runs(),
        vec![
            ServiceRecordRun::new(CampaignMode::Solo, Difficulty::Normal, time(11, 0), 200),
            ServiceRecordRun::new(CampaignMode::Coop, Difficulty::Legendary, time(13, 0), 400),
        ]
    );
    assert_eq!(
        records[2].runs(),
        vec![ServiceRecordRun::new(CampaignMode::Coop, Difficulty::Heroic, time(12, 0), 300)]
    );
    assert_eq!(
        records[3].runs(),
        vec![
            ServiceRecordRun::new(CampaignMode::Solo, Difficulty::Easy, time(10, 0), 100),
            ServiceRecordRun::new(CampaignMode::Coop, Difficulty::Easy, time(15, 0), 600),
        ]
    );
}

#[test]
fn every_row_gives_exactly_one_run() {
    let rows = vec![
        row(3, 1, CampaignMode::Solo, Difficulty::Easy, 1, 1),
        row(3, 1, CampaignMode::Solo, Difficulty::Easy, 1, 1),
        row(3, 2, CampaignMode::Solo, Difficulty::Easy, 2, 2),
        row(-1, -7, CampaignMode::Coop, Difficulty::Easy, 3, 3),
        row(3, 1, CampaignMode::Coop, Difficulty::Easy, 4, 4),
    ];
    let records = ServiceRecord::from_player_and_runs("Noble Six", &rows);
    let runs: usize = records.iter().map(|record| record.runs().len()).sum();
    assert_eq!(runs, rows.len());
    assert_eq!(keys(&records), vec![(-1, -7), (3, 1), (3, 2)]);
    for record in &records {
        assert!(!record.runs().is_empty());
    }
}

#[test]
fn the_same_mode_twice_gives_two_runs() {
    let rows = vec![
        row(1, 1, CampaignMode::Solo, Difficulty::Easy, 1, 10),
        row(1, 1, CampaignMode::Solo, Difficulty::Easy, 1, 10),
    ];
    let records = ServiceRecord::from_player_and_runs("John117", &rows);
    assert_eq!(records.len(), 1);
    assert_eq!(records[0].runs().len(), 2);
}

#[test]
fn the_order_of_the_rows_does_not_change_the_order_of_the_records() {
    let one = vec![
        row(1, 1, CampaignMode::Solo, Difficulty::Easy, 1, 10),
        row(6, 9, CampaignMode::Solo, Difficulty::Easy, 2, 20),
        row(4, 4, CampaignMode::Solo, Difficulty::Easy, 3, 30),
    ];
    let other = vec![one[2], one[1], one[0]];
    let first = ServiceRecord::from_player_and_runs("John117", &one);
    let second = ServiceRecord::from_player_and_runs("John117", &other);
    assert_eq!(first, second);
    assert_eq!(keys(&first), vec![(1, 1), (4, 4), (6, 9)]);
}

#[test]
fn a_record_hands_out_what_it_was_made_with() {
    let run = ServiceRecordRun::new(CampaignMode::Coop, Difficulty::Heroic, time(20, 47), 8204);
    assert_eq!(run.campaign_mode(), CampaignMode::Coop);
    assert_eq!(run.difficulty(), Difficulty::Heroic);
    assert_eq!(run.time(), time(20, 47));
    assert_eq!(run.score(), 8204);
    let record = ServiceRecord::new("John117".to_string(), GameId::new(1), 4, vec![run]);
    assert_eq!(record.player(), "John117");
    assert_eq!(record.game_id(), GameId::new(1));
    assert_eq!(record.mission_id(), 4);
    assert_eq!(record.runs(), vec![run]);
}

fn site_row(id: i32, difficulty: SiteDifficulty, minute: Option<u8>, score: Option<i32>) -> GetServiceRecordResponseMission {
    GetServiceRecordResponseMission {
        id: SiteMissionId::new(id),
        difficulty,
        fastest_time: match minute {
            Some(minute) => FastestTime::Recorded(time(minute, 0)),
            None => FastestTime::Unrecorded,
        },
        highest_score: match score {
            Some(score) => HighestScore::Recorded(score),
            None => HighestScore::Unrecorded,
        },
    }
}

fn solo() -> GetServiceRecordResponse {
    GetServiceRecordResponse::new(
        SiteGame::Halo,
        SiteMode::Solo,
        vec![
            site_row(0, SiteDifficulty::Legendary, Some(15), Some(23520)),
            site_row(1, SiteDifficulty::Legendary, Some(27), None),
            site_row(2, SiteDifficulty::Unplayed, None, None),
        ],
    )
}

fn coop() -> GetServiceRecordResponse {
    GetServiceRecordResponse::new(
        SiteGame::Halo,
        SiteMode::Coop,
        vec![
            site_row(0, SiteDifficulty::Heroic, Some(13), Some(19147)),
            site_row(1, SiteDifficulty::Unplayed, None, None),
            site_row(2, SiteDifficulty::Unplayed, None, None),
        ],
    )
}

#[test]
fn the_pages_of_both_modes_come_to_one_record_for_each_mission_played() {
    let pages = vec![solo(), coop()];
    assert!(ServiceRecordsDao::is_translatable(&pages));
    let records = ServiceRecordsDao::find_by_player_and_game("John117", &pages);
    assert_eq!(keys(&records), vec![(1, 1), (1, 2)]);
    assert_eq!(
        records[0].runs(),
        vec![
            ServiceRecordRun::new(CampaignMode::Solo, Difficulty::Legendary, time(15, 0), 23520),
            ServiceRecordRun::new(CampaignMode::Coop, Difficulty::Heroic, time(13, 0), 19147),
        ]
    );
    assert_eq!(
        records[1].runs(),
        vec![ServiceRecordRun::new(CampaignMode::Solo, Difficulty::Legendary, time(27, 0), 0)]
    );
}

#[test]
fn a_mission_that_was_not_played_has_no_record() {
    let pages = vec![solo(), coop()];
    let records = ServiceRecordsDao::find_by_player_and_game("John117", &pages);
    assert!(records.iter().all(|record| record.mission_id() != 3));
}

#[test]
fn the_questions_go_to_both_modes() {
    let game = Game::new(GameId::new(4), "Halo 3: ODST");
    let requests = ServiceRecordsDao::requests("John117", &game);
    assert_eq!(
        requests,
        vec![
            halomcc::halo_waypoint::requests::service_record::GetServiceRecordRequest::new(
                "John117",
                &SiteGame::Halo3Odst,
                &SiteMode::Solo
            ),
            halomcc::halo_waypoint::requests::service_record::GetServiceRecordRequest::new(
                "John117",
                &SiteGame::Halo3Odst,
                &SiteMode::Coop
            ),
        ]
    );
}

#[test]
fn one_failed_request_fails_them_all() {
    let down = Error::Hyper("connection reset".to_string());
    let bad = Error::HaloWaypoint(HaloWaypointError::Http("oops".to_string()));
    let gathered = ServiceRecordsDao::gather(vec![Ok(solo()), Err(down.clone())]);
    assert_eq!(gathered.unwrap_err(), Error::List(vec![down.clone()]));
    let gathered = ServiceRecordsDao::gather(vec![Err(bad.clone()), Err(down.clone())]);
    assert_eq!(gathered.unwrap_err(), Error::List(vec![bad, down]));
    let gathered = ServiceRecordsDao::gather(vec![Ok(solo()), Ok(coop())]).unwrap();
    assert_eq!(gathered.len(), 2);
    assert_eq!(gathered[0].campaign_mode(), SiteMode::Solo);
    assert_eq!(gathered[1].campaign_mode(), SiteMode::Coop);
    assert!(ServiceRecordsDao::gather(vec![]).unwrap().is_empty());
}

#[test]
fn the_record_of_a_mission_is_found_among_the_records() {
    let records = || ServiceRecordsDao::find_by_player_and_game("John117", &vec![solo(), coop()]);
    let halo = Mission::new(GameId::new(1), MissionId::new(2), "Halo", None, None);
    let found = ServiceRecordsDao::find_by_player_and_mission(records(), "John117", &halo).unwrap();
    assert_eq!(found.mission_id(), 2);
    assert_eq!(found.game_id(), GameId::new(1));
    let keyes = Mission::new(GameId::new(1), MissionId::new(9), "Keyes", None, None);
    assert_eq!(ServiceRecordsDao::find_by_player_and_mission(records(), "John117", &keyes), None);
    let other_game = Mission::new(GameId::new(2), MissionId::new(2), "The Armory", None, None);
    assert_eq!(ServiceRecordsDao::find_by_player_and_mission(records(), "John117", &other_game), None);
    assert_eq!(ServiceRecordsDao::find_by_player_and_mission(records(), "Cortana", &halo), None);
}

#[test]
fn the_game_to_ask_about_is_looked_up_in_the_catalog() {
    let dao = ServiceRecordsDao::default();
    assert_eq!(dao.find_game(GameId::new(5)).unwrap().name(), "Halo: Reach");
    assert_eq!(dao.find_game(GameId::new(0)), None);
}
