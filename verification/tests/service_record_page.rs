use halomcc::campaign_modes::campaign_mode::CampaignMode as InternalCampaignMode;
use halomcc::difficulties::difficulty::Difficulty as InternalDifficulty;
use halomcc::error::Error;
use halomcc::error::HaloWaypointError;
use halomcc::games::game::GameId;
use halomcc::halo_waypoint::models::campaign_mode::CampaignMode;
use halomcc::halo_waypoint::models::difficulty::Difficulty;
use halomcc::halo_waypoint::models::fastest_time::FastestTime;
use halomcc::halo_waypoint::models::game::Game;
use halomcc::halo_waypoint::models::highest_score::HighestScore;
use halomcc::halo_waypoint::models::mission_id::MissionId;
use halomcc::halo_waypoint::requests::service_record::GetServiceRecordResponse;
use halomcc::halo_waypoint::requests::service_record::GetServiceRecordResponseMission;
use halomcc::halo_waypoint::transport::Response;
use halomcc::service_records::service_record::ServiceRecord;
use halomcc::time_of_day::TimeOfDay;
use scraper::Html;

fn mission(id: &str, difficulty: &str, time: &str, score: &str) -> String {
    format!(
        "<li class=\"mission\" data-mission-id=\"{}\">\
         <div class=\"skull\"><span class=\"spritesheet\" title=\"{}\"></span></div>\
         <p class=\"stat\"><span class=\"best-time\">{}</span></p>\
         <p class=\"stat\"><span class=\"highest-score\">{}</span></p>\
         </li>",
        id, difficulty, time, score
    )
}

fn page(game: &str, mode: &str, missions: &[String]) -> String {
    format!(
        "<div class=\"service-record\" data-game-id=\"{}\">\
         <div class=\"mode\" data-mode-id=\"{}\"></div>\
         <ul>{}</ul></div>",
        game,
        mode,
        missions.concat()
    )
}

fn time(hour: u8, minute: u8, second: u8) -> TimeOfDay {
    TimeOfDay::try_from_hms(hour, minute, second).unwrap()
}

fn row(
    id: i32,
    difficulty: Difficulty,
    fastest_time: FastestTime,
    highest_score: HighestScore,
) -> GetServiceRecordResponseMission {
    GetServiceRecordResponseMission {
        id: MissionId::new(id),
        difficulty,
        fastest_time,
        highest_score,
    }
}

fn read(html: &str) -> Result<GetServiceRecordResponse, Error> {
    let fragment = Html::parse_fragment(html);
    GetServiceRecordResponse::try_from_halo_waypoint_service_record(fragment.root_element())
}

fn halo_solo_page() -> String {
    page(
        "HaloCombatEvolved",
        "Solo",
        &[
            mission("0", "Legendary", "00:15:53", "23520"),
            mission("1", "Legendary", "01:27:34", "--"),
            mission("2", "Normal", "00:39:03", "6974"),
            mission("3", "Normal", "00:20:47", "8204"),
            mission("4", "Normal", "00:44:50", "10301"),
            mission("5", "Normal", "00:18:56", "3601"),
            mission("6", "Normal", "00:41:19", "11838"),
            mission("7", "None", "--", "--"),
            mission("8", "None", "--", "--"),
            mission("9", "Normal", "00:39:46", "3319"),
        ],
    )
}

fn halo_coop_page() -> String {
    page(
        "HaloCombatEvolved",
        "Coop",
        &[
            mission("0", "Legendary", "00:13:35", "19147"),
            mission("1", "Legendary", "00:35:13", "7953"),
            mission("2", "Legendary", "00:42:42", "23553"),
            mission("3", "Legendary", "00:27:46", "17378"),
            mission("4", "Legendary", "00:23:57", "--"),
            mission("5", "Legendary", "00:29:31", "11021"),
            mission("6", "Legendary", "00:59:24", "44636"),
            mission("7", "Legendary", "00:57:49", "12172"),
            mission("8", "Legendary", "00:50:27", "16359"),
            mission("9", "Legendary", "00:40:42", "21823"),
        ],
    )
}

fn pages_of_every_game_and_mode() -> Vec<String> {
    let games = vec![
        ("HaloCombatEvolved", 0),
        ("Halo2", 31),
        ("Halo3", 70),
        ("Halo3Odst", 168),
        ("HaloReach", 178),
        ("Halo4", 104),
    ];
    let mut pages = vec![];
    for (game, first) in games {
        for mode in vec!["Solo", "Coop"] {
            pages.push(page(
                game,
                mode,
                &[
                    mission(&first.to_string(), "Heroic", "00:12:34", "12345"),
                    mission(&(first + 1).to_string(), "None", "--", "--"),
                ],
            ));
        }
    }
    pages
}

#[test]
fn try_from_string() {
    let res = pages_of_every_game_and_mode()
        .iter()
        .map(|html| read(html))
        .collect::<Result<Vec<GetServiceRecordResponse>, Error>>();

    assert!(res.is_ok());
    assert_eq!(res.unwrap().len(), 12);
}

#[test]
fn halo_solo() {
    let res = read(&halo_solo_page()).unwrap();

    assert_eq!(res.game(), Game::Halo);
    assert_eq!(res.campaign_mode(), CampaignMode::Solo);

    assert_eq!(
        res.missions().get(0),
        Some(&GetServiceRecordResponseMission {
            id: MissionId::new(0),
            difficulty: Difficulty::Legendary,
            fastest_time: FastestTime::Recorded(time(0, 15, 53)),
            highest_score: HighestScore::Recorded(23520),
        })
    );
    assert_eq!(
        res.missions().get(1),
        Some(&GetServiceRecordResponseMission {
            id: MissionId::new(1),
            difficulty: Difficulty::Legendary,
            fastest_time: FastestTime::Recorded(time(1, 27, 34)),
            highest_score: HighestScore::Unrecorded,
        })
    );
    assert_eq!(
        res.missions().get(2),
        Some(&GetServiceRecordResponseMission {
            id: MissionId::new(2),
            difficulty: Difficulty::Normal,
            fastest_time: FastestTime::Recorded(time(0, 39, 3)),
            highest_score: HighestScore::Recorded(6974),
        })
    );
    assert_eq!(
        res.missions().get(3),
        Some(&GetServiceRecordResponseMission {
            id: MissionId::new(3),
            difficulty: Difficulty::Normal,
            fastest_time: FastestTime::Recorded(time(0, 20, 47)),
            highest_score: HighestScore::Recorded(8204),
        })
    );
    assert_eq!(
        res.missions().get(4),
        Some(&GetServiceRecordResponseMission {
            id: MissionId::new(4),
            difficulty: Difficulty::Normal,
            fastest_time: FastestTime::Recorded(time(0, 44, 50)),
            highest_score: HighestScore::Recorded(10301),
        })
    );
    assert_eq!(
        res.missions().get(5),
        Some(&GetServiceRecordResponseMission {
            id: MissionId::new(5),
            difficulty: Difficulty::Normal,
            fastest_time: FastestTime::Recorded(time(0, 18, 56)),
            highest_score: HighestScore::Recorded(3601),
        })
    );
    assert_eq!(
        res.missions().get(6),
        Some(&GetServiceRecordResponseMission {
            id: MissionId::new(6),
            difficulty: Difficulty::Normal,
            fastest_time: FastestTime::Recorded(time(0, 41, 19)),
            highest_score: HighestScore::Recorded(11838),
        })
    );
    assert_eq!(
        res.missions().get(7),
        Some(&GetServiceRecordResponseMission {
            id: MissionId::new(7),
            difficulty: Difficulty::Unplayed,
            fastest_time: FastestTime::Unrecorded,
            highest_score: HighestScore::Unrecorded,
        })
    );
    assert_eq!(
        res.missions().get(8),
        Some(&GetServiceRecordResponseMission {
            id: MissionId::new(8),
            difficulty: Difficulty::Unplayed,
            fastest_time: FastestTime::Unrecorded,
            highest_score: HighestScore::Unrecorded,
        })
    );
    assert_eq!(
        res.missions().get(9),
        Some(&GetServiceRecordResponseMission {
            id: MissionId::new(9),
            difficulty: Difficulty::Normal,
            fastest_time: FastestTime::Recorded(time(0, 39, 46)),
            highest_score: HighestScore::Recorded(3319),
        })
    );
    assert_eq!(res.missions().get(10), None);
}

#[test]
fn halo_coop() {
    let res = read(&halo_coop_page()).unwrap();

    assert_eq!(res.game(), Game::Halo);
    assert_eq!(res.campaign_mode(), CampaignMode::Coop);
    assert_eq!(
        res.missions().get(0),
        Some(&GetServiceRecordResponseMission {
            id: MissionId::new(0),
            difficulty: Difficulty::Legendary,
            fastest_time: FastestTime::Recorded(time(0, 13, 35)),
            highest_score: HighestScore::Recorded(19147),
        })
    );
    assert_eq!(
        res.missions().get(1),
        Some(&GetServiceRecordResponseMission {
            id: MissionId::new(1),
            difficulty: Difficulty::Legendary,
            fastest_time: FastestTime::Recorded(time(0, 35, 13)),
            highest_score: HighestScore::Recorded(7953),
        })
    );
    assert_eq!(
        res.missions().get(2),
        Some(&GetServiceRecordResponseMission {
            id: MissionId::new(2),
            difficulty: Difficulty::Legendary,
            fastest_time: FastestTime::Recorded(time(0, 42, 42)),
            highest_score: HighestScore::Recorded(23553),
        })
    );
    assert_eq!(
        res.missions().get(3),
        Some(&GetServiceRecordResponseMission {
            id: MissionId::new(3),
            difficulty: Difficulty::Legendary,
            fastest_time: FastestTime::Recorded(time(0, 27, 46)),
            highest_score: HighestScore::Recorded(17378),
        })
    );
    assert_eq!(
        res.missions().get(4),
        Some(&GetServiceRecordResponseMission {
            id: MissionId::new(4),
            difficulty: Difficulty::Legendary,
            fastest_time: FastestTime::Recorded(time(0, 23, 57)),
            highest_score: HighestScore::Unrecorded,
        })
    );
    assert_eq!(
        res.missions().get(5),
        Some(&GetServiceRecordResponseMission {
            id: MissionId::new(5),
            difficulty: Difficulty::Legendary,
            fastest_time: FastestTime::Recorded(time(0, 29, 31)),
            highest_score: HighestScore::Recorded(11021),
        })
    );
    assert_eq!(
        res.missions().get(6),
        Some(&GetServiceRecordResponseMission {
            id: MissionId::new(6),
            difficulty: Difficulty::Legendary,
            fastest_time: FastestTime::Recorded(time(0, 59, 24)),
            highest_score: HighestScore::Recorded(44636),
        })
    );
    assert_eq!(
        res.missions().get(7),
        Some(&GetServiceRecordResponseMission {
            id: MissionId::new(7),
            difficulty: Difficulty::Legendary,
            fastest_time: FastestTime::Recorded(time(0, 57, 49)),
            highest_score: HighestScore::Recorded(12172),
        })
    );
    assert_eq!(
        res.missions().get(8),
        Some(&GetServiceRecordResponseMission {
            id: MissionId::new(8),
            difficulty: Difficulty::Legendary,
            fastest_time: FastestTime::Recorded(time(0, 50, 27)),
            highest_score: HighestScore::Recorded(16359),
        })
    );
    assert_eq!(
        res.missions().get(9),
        Some(&GetServiceRecordResponseMission {
            id: MissionId::new(9),
            difficulty: Difficulty::Legendary,
            fastest_time: FastestTime::Recorded(time(0, 40, 42)),
            highest_score: HighestScore::Recorded(21823),
        })
    );
    assert_eq!(res.missions().get(10), None);
}

#[test]
fn twelve_missions_of_which_eight_were_played_give_eight_runs() {
    let html = page(
        "HaloReach",
        "Solo",
        &[
            mission("178", "None", "--", "--"),
            mission("179", "Heroic", "00:21:10", "15230"),
            mission("180", "Heroic", "00:12:05", "25110"),
            mission("181", "Normal", "00:09:59", "7600"),
            mission("182", "Legendary", "00:31:00", "30990"),
            mission("183", "Easy", "00:25:25", "45001"),
            mission("184", "Heroic", "00:19:19", "30002"),
            mission("185", "Heroic", "00:20:20", "22503"),
            mission("186", "Legendary", "00:45:45", "65004"),
            mission("187", "None", "--", "--"),
            mission("188", "None", "--", "--"),
            mission("189", "None", "--", "--"),
        ],
    );
    let res = read(&html).unwrap();
    assert_eq!(res.missions().len(), 12);
    assert!(res.is_translatable());

    let rows = res.to_internal();
    assert_eq!(rows.len(), 8);

    let records = ServiceRecord::from_player_and_runs("John117", &rows);
    assert_eq!(records.len(), 8);
    let runs: usize = records.iter().map(|record| record.runs().len()).sum();
    assert_eq!(runs, 8);

    let expected = vec![
        (2, InternalDifficulty::Heroic, time(0, 21, 10), 15230),
        (3, InternalDifficulty::Heroic, time(0, 12, 5), 25110),
        (4, InternalDifficulty::Normal, time(0, 9, 59), 7600),
        (5, InternalDifficulty::Legendary, time(0, 31, 0), 30990),
        (6, InternalDifficulty::Easy, time(0, 25, 25), 45001),
        (7, InternalDifficulty::Heroic, time(0, 19, 19), 30002),
        (8, InternalDifficulty::Heroic, time(0, 20, 20), 22503),
        (9, InternalDifficulty::Legendary, time(0, 45, 45), 65004),
    ];
    for (record, (mission_id, difficulty, time, score)) in records.iter().zip(expected) {
        assert_eq!(record.player(), "John117");
        assert_eq!(record.game_id(), GameId::new(5));
        assert_eq!(record.mission_id(), mission_id);
        let runs = record.runs();
        assert_eq!(runs.len(), 1);
        assert_eq!(runs[0].campaign_mode(), InternalCampaignMode::Solo);
        assert_eq!(runs[0].difficulty(), difficulty);
        assert_eq!(runs[0].time(), time);
        assert_eq!(runs[0].score(), score);
    }
}

#[test]
fn a_page_without_missions_is_still_a_page() {
    let res = read(&page("Halo4", "Coop", &[])).unwrap();
    assert_eq!(res.game(), Game::Halo4);
    assert_eq!(res.campaign_mode(), CampaignMode::Coop);
    assert!(res.missions().is_empty());
    assert!(res.to_internal().is_empty());
}

#[test]
fn an_empty_document_lacks_game_and_mode() {
    let err = read("").unwrap_err();
    assert_eq!(
        err,
        Error::List(vec![
            Error::HaloWaypoint(HaloWaypointError::MissingGame),
            Error::HaloWaypoint(HaloWaypointError::MissingCampaignMode),
        ])
    );
}

#[test]
fn every_error_of_a_page_is_reported() {
    let html = page(
        "HaloFive",
        "Versus",
        &[
            mission("0", "Legendary", "00:15:53", "23520"),
            mission("one", "Mythic", "soon", "lots"),
            mission("2", "Normal", "00:39:03", "6974"),
            "<li data-mission-id=\"3\"></li>".to_string(),
        ],
    );
    let err = read(&html).unwrap_err();
    assert_eq!(
        err,
        Error::List(vec![
            Error::HaloWaypoint(HaloWaypointError::UnknownGame("HaloFive".to_string())),
            Error::HaloWaypoint(HaloWaypointError::UnknownCampaignMode("Versus".to_string())),
            Error::List(vec![
                Error::HaloWaypoint(HaloWaypointError::InvalidMissionId("one".to_string())),
                Error::HaloWaypoint(HaloWaypointError::UnknownDifficulty("Mythic".to_string())),
                Error::HaloWaypoint(HaloWaypointError::InvalidTime("soon".to_string())),
                Error::HaloWaypoint(HaloWaypointError::InvalidScore("lots".to_string())),
            ]),
            Error::List(vec![
                Error::HaloWaypoint(HaloWaypointError::MissingDifficulty),
                Error::HaloWaypoint(HaloWaypointError::MissingTime),
                Error::HaloWaypoint(HaloWaypointError::MissingScore),
            ]),
        ])
    );
}

#[test]
fn one_bad_mission_fails_a_page_that_is_good_otherwise() {
    let html = page(
        "Halo2",
        "Solo",
        &[
            mission("31", "Easy", "00:10:00", "100"),
            mission("32", "Easy", "25:00:00", "100"),
        ],
    );
    let err = read(&html).unwrap_err();
    assert_eq!(
        err,
        Error::List(vec![Error::List(vec![Error::HaloWaypoint(
            HaloWaypointError::InvalidTime("25:00:00".to_string())
        )])])
    );
}

#[test]
fn assemble_collects_the_errors_of_a_mission_in_order() {
    let outcome = GetServiceRecordResponseMission::assemble(
        Ok(MissionId::new(4)),
        Err(Error::HaloWaypoint(HaloWaypointError::MissingDifficulty)),
        Ok(FastestTime::Unrecorded),
        Err(Error::HaloWaypoint(HaloWaypointError::InvalidScore("x".to_string()))),
    );
    assert_eq!(
        outcome,
        Err(Error::List(vec![
            Error::HaloWaypoint(HaloWaypointError::MissingDifficulty),
            Error::HaloWaypoint(HaloWaypointError::InvalidScore("x".to_string())),
        ]))
    );
    let outcome = GetServiceRecordResponseMission::assemble(
        Ok(MissionId::new(4)),
        Ok(Difficulty::Heroic),
        Ok(FastestTime::Unrecorded),
        Ok(HighestScore::Recorded(12)),
    );
    assert_eq!(
        outcome,
        Ok(row(4, Difficulty::Heroic, FastestTime::Unrecorded, HighestScore::Recorded(12)))
    );
}

#[test]
fn assemble_puts_a_page_together() {
    let first = row(0, Difficulty::Easy, FastestTime::Recorded(time(0, 1, 2)), HighestScore::Unrecorded);
    let page = GetServiceRecordResponse::assemble(
        Ok(Game::Halo3),
        Ok(CampaignMode::Coop),
        vec![Ok(first)],
    )
    .unwrap();
    assert_eq!(page.game(), Game::Halo3);
    assert_eq!(page.campaign_mode(), CampaignMode::Coop);
    assert_eq!(page.missions(), &vec![first]);

    let failed = GetServiceRecordResponse::assemble(
        Ok(Game::Halo3),
        Err(Error::HaloWaypoint(HaloWaypointError::MissingCampaignMode)),
        vec![
            Ok(first),
            Err(Error::List(vec![Error::HaloWaypoint(HaloWaypointError::MissingTime)])),
        ],
    );
    assert_eq!(
        failed.unwrap_err(),
        Error::List(vec![
            Error::HaloWaypoint(HaloWaypointError::MissingCampaignMode),
            Error::List(vec![Error::HaloWaypoint(HaloWaypointError::MissingTime)]),
        ])
    );
}

#[test]
fn a_response_is_read_only_with_status_200() {
    let ok = Response::new(200, vec![], halo_solo_page());
    let page = GetServiceRecordResponse::try_from_response(ok).unwrap();
    assert_eq!(page.game(), Game::Halo);
    assert_eq!(page.missions().len(), 10);

    let not_found = Response::new(404, vec![], halo_solo_page());
    assert_eq!(
        GetServiceRecordResponse::try_from_response(not_found).unwrap_err(),
        Error::HaloWaypoint(HaloWaypointError::Http(halo_solo_page()))
    );

    let redirect = Response::new(302, vec![], "moved".to_string());
    assert_eq!(
        GetServiceRecordResponse::try_from_response(redirect).unwrap_err(),
        Error::HaloWaypoint(HaloWaypointError::Http("moved".to_string()))
    );
}

#[test]
fn rows_carry_the_numbers_of_the_catalog() {
    let page = GetServiceRecordResponse::new(
        Game::Halo2,
        CampaignMode::Coop,
        vec![
            row(31, Difficulty::Heroic, FastestTime::Recorded(time(0, 14, 0)), HighestScore::Recorded(9000)),
            row(32, Difficulty::Unplayed, FastestTime::Unrecorded, HighestScore::Unrecorded),
            row(33, Difficulty::Normal, FastestTime::Recorded(time(0, 16, 0)), HighestScore::Unrecorded),
            row(34, Difficulty::Normal, FastestTime::Unrecorded, HighestScore::Recorded(5)),
        ],
    );
    assert!(page.is_translatable());
    assert_eq!(
        page.to_internal(),
        vec![
            (GameId::new(2), 3, InternalCampaignMode::Coop, InternalDifficulty::Heroic, time(0, 14, 0), 9000),
            (GameId::new(2), 5, InternalCampaignMode::Coop, InternalDifficulty::Normal, time(0, 16, 0), 0),
        ]
    );
}

#[test]
fn a_page_whose_numbers_cannot_be_held_is_told_apart() {
    let played = GetServiceRecordResponse::new(
        Game::Halo,
        CampaignMode::Solo,
        vec![row(i32::MAX, Difficulty::Easy, FastestTime::Recorded(time(0, 1, 0)), HighestScore::Unrecorded)],
    );
    assert!(!played.is_translatable());
    let unplayed = GetServiceRecordResponse::new(
        Game::Halo,
        CampaignMode::Solo,
        vec![row(i32::MAX, Difficulty::Unplayed, FastestTime::Unrecorded, HighestScore::Unrecorded)],
    );
    assert!(unplayed.is_translatable());
    assert!(unplayed.to_internal().is_empty());
}
