use halomcc::campaign_modes::campaign_mode::CampaignMode as InternalCampaignMode;
use halomcc::difficulties::difficulty::Difficulty as InternalDifficulty;
use halomcc::error::Error;
use halomcc::error::HaloWaypointError;
use halomcc::games::game::Game as InternalGame;
use halomcc::games::game::GameId;
use halomcc::halo_waypoint::models::campaign_mode::CampaignMode;
use halomcc::halo_waypoint::models::difficulty::Difficulty;
use halomcc::halo_waypoint::models::fastest_time::FastestTime;
use halomcc::halo_waypoint::models::game::Game;
use halomcc::halo_waypoint::models::highest_score::HighestScore;
use halomcc::halo_waypoint::models::mission_id::MissionId;
use halomcc::time_of_day::TimeOfDay;
use scraper::Html;

fn site(error: HaloWaypointError) -> Error {
    Error::HaloWaypoint(error)
}

#[test]
fn game_codes_are_read_and_written() {
    let games = vec![
        (Game::Halo, "HaloCombatEvolved", 1),
        (Game::Halo2, "Halo2", 2),
        (Game::Halo3, "Halo3", 3),
        (Game::Halo3Odst, "Halo3Odst", 4),
        (Game::HaloReach, "HaloReach", 5),
        (Game::Halo4, "Halo4", 6),
    ];
    for (game, code, number) in games {
        assert_eq!(Game::try_from_str(code), Ok(game));
        assert_eq!(game.to_string(), code);
        assert_eq!(game.to_internal(), GameId::new(number));
        assert_eq!(Game::from_internal(&InternalGame::new(GameId::new(number), "any")), game);
    }
}

#[test]
fn an_unknown_game_is_reported_with_its_text() {
    assert_eq!(
        Game::try_from_str("Halo5"),
        Err(site(HaloWaypointError::UnknownGame("Halo5".to_string())))
    );
    assert_eq!(
        Game::try_from_str("halo2"),
        Err(site(HaloWaypointError::UnknownGame("halo2".to_string())))
    );
    assert_eq!(Game::try_from_str(""), Err(site(HaloWaypointError::UnknownGame(String::new()))));
    assert_eq!(Game::try_from_attribute(None), Err(site(HaloWaypointError::MissingGame)));
    assert_eq!(Game::try_from_attribute(Some("Halo3")), Ok(Game::Halo3));
}

#[test]
fn campaign_mode_codes_are_read_and_written() {
    assert_eq!(CampaignMode::try_from_str("Solo"), Ok(CampaignMode::Solo));
    assert_eq!(CampaignMode::try_from_str("Coop"), Ok(CampaignMode::Coop));
    assert_eq!(CampaignMode::Solo.to_string(), "Solo");
    assert_eq!(CampaignMode::Coop.to_string(), "Coop");
    assert_eq!(CampaignMode::Solo.to_internal(), InternalCampaignMode::Solo);
    assert_eq!(CampaignMode::Coop.to_internal(), InternalCampaignMode::Coop);
    assert_eq!(CampaignMode::from_internal(&InternalCampaignMode::Solo), CampaignMode::Solo);
    assert_eq!(CampaignMode::from_internal(&InternalCampaignMode::Coop), CampaignMode::Coop);
    assert_eq!(
        CampaignMode::try_from_str("solo"),
        Err(site(HaloWaypointError::UnknownCampaignMode("solo".to_string())))
    );
    assert_eq!(
        CampaignMode::try_from_attribute(None),
        Err(site(HaloWaypointError::MissingCampaignMode))
    );
}

#[test]
fn the_title_none_is_a_mission_that_was_not_played() {
    assert_eq!(Difficulty::try_from_str("None"), Ok(Difficulty::Unplayed));
    assert_eq!(Difficulty::Unplayed.to_internal(), None);
}

#[test]
fn difficulty_titles_are_read() {
    assert_eq!(Difficulty::try_from_str("Easy"), Ok(Difficulty::Easy));
    assert_eq!(Difficulty::try_from_str("Normal"), Ok(Difficulty::Normal));
    assert_eq!(Difficulty::try_from_str("Heroic"), Ok(Difficulty::Heroic));
    assert_eq!(Difficulty::try_from_str("Legendary"), Ok(Difficulty::Legendary));
    assert_eq!(Difficulty::Easy.to_internal(), Some(InternalDifficulty::Easy));
    assert_eq!(Difficulty::Normal.to_internal(), Some(InternalDifficulty::Normal));
    assert_eq!(Difficulty::Heroic.to_internal(), Some(InternalDifficulty::Heroic));
    assert_eq!(Difficulty::Legendary.to_internal(), Some(InternalDifficulty::Legendary));
}

#[test]
fn an_unknown_difficulty_is_reported_with_its_text() {
    assert_eq!(
        Difficulty::try_from_str("Mythic"),
        Err(site(HaloWaypointError::UnknownDifficulty("Mythic".to_string())))
    );
    assert_eq!(
        Difficulty::try_from_str("none"),
        Err(site(HaloWaypointError::UnknownDifficulty("none".to_string())))
    );
    assert_eq!(Difficulty::try_from_title(None), Err(site(HaloWaypointError::MissingDifficulty)));
}

#[test]
fn the_blank_is_no_time_and_no_error() {
    assert_eq!(FastestTime::try_from_str("--"), Ok(FastestTime::Unrecorded));
    assert_eq!(FastestTime::Unrecorded.to_internal(), None);
    let any = TimeOfDay::try_from_hms(1, 2, 3);
    assert_eq!(FastestTime::interpret("--", any), Ok(FastestTime::Unrecorded));
    assert_eq!(FastestTime::interpret("--", None), Ok(FastestTime::Unrecorded));
}

#[test]
fn a_fastest_time_is_read_as_a_clock_time() {
    let read = FastestTime::try_from_str("00:15:53").unwrap();
    let time = read.to_internal().unwrap();
    assert_eq!(time.seconds(), 953);
    assert_eq!(read, FastestTime::Recorded(TimeOfDay::try_from_hms(0, 15, 53).unwrap()));
}

#[test]
fn a_fastest_time_that_is_no_time_is_reported_with_its_text() {
    assert_eq!(
        FastestTime::try_from_str("fast"),
        Err(site(HaloWaypointError::InvalidTime("fast".to_string())))
    );
    assert_eq!(
        FastestTime::try_from_str(""),
        Err(site(HaloWaypointError::InvalidTime(String::new())))
    );
    assert_eq!(
        FastestTime::interpret("12:00:00", None),
        Err(site(HaloWaypointError::InvalidTime("12:00:00".to_string())))
    );
    assert_eq!(FastestTime::try_from_markup(None), Err(site(HaloWaypointError::MissingTime)));
}

#[test]
fn a_highest_score_is_read_as_a_number() {
    assert_eq!(HighestScore::try_from_str("--"), Ok(HighestScore::Unrecorded));
    assert_eq!(HighestScore::try_from_str("23520"), Ok(HighestScore::Recorded(23520)));
    assert_eq!(HighestScore::try_from_str("-5"), Ok(HighestScore::Recorded(-5)));
    assert_eq!(HighestScore::Recorded(7).to_internal(), Some(7));
    assert_eq!(HighestScore::Unrecorded.to_internal(), None);
    assert_eq!(
        HighestScore::try_from_str("23,520"),
        Err(site(HaloWaypointError::InvalidScore("23,520".to_string())))
    );
    assert_eq!(
        HighestScore::try_from_str("99999999999"),
        Err(site(HaloWaypointError::InvalidScore("99999999999".to_string())))
    );
    assert_eq!(HighestScore::try_from_markup(None), Err(site(HaloWaypointError::MissingScore)));
}

#[test]
fn a_mission_number_is_read_off_the_elements_own_attribute() {
    let fragment = Html::parse_fragment("<li data-mission-id=\"42\"><b data-mission-id=\"7\"></b></li>");
    let selector = scraper::Selector::parse("li").unwrap();
    let element = fragment.select(&selector).next().unwrap();
    assert_eq!(MissionId::try_from_halo_waypoint_service_record(element), Ok(MissionId::new(42)));
}

#[test]
fn a_missing_mission_number_is_reported() {
    let fragment = Html::parse_fragment("<li class=\"mission\"></li>");
    let selector = scraper::Selector::parse("li").unwrap();
    let element = fragment.select(&selector).next().unwrap();
    assert_eq!(
        MissionId::try_from_halo_waypoint_service_record(element),
        Err(site(HaloWaypointError::MissingMissionId))
    );
    assert_eq!(MissionId::try_from_attribute(None), Err(site(HaloWaypointError::MissingMissionId)));
}

#[test]
fn a_mission_number_that_is_no_number_is_reported_with_its_text() {
    let fragment = Html::parse_fragment("<li data-mission-id=\"seven\"></li>");
    let selector = scraper::Selector::parse("li").unwrap();
    let element = fragment.select(&selector).next().unwrap();
    assert_eq!(
        MissionId::try_from_halo_waypoint_service_record(element),
        Err(site(HaloWaypointError::InvalidMissionId("seven".to_string())))
    );
    assert_eq!(
        MissionId::try_from_str(""),
        Err(site(HaloWaypointError::InvalidMissionId(String::new())))
    );
}

#[test]
fn mission_numbers_of_the_site_become_numbers_of_the_catalog() {
    let cases = vec![
        (Game::Halo, 0, 1),
        (Game::Halo, 9, 10),
        (Game::Halo2, 31, 3),
        (Game::Halo2, 43, 15),
        (Game::Halo3, 70, 2),
        (Game::Halo3, 78, 10),
        (Game::Halo4, 104, 2),
        (Game::Halo4, 111, 9),
        (Game::Halo3Odst, 168, 3),
        (Game::Halo3Odst, 175, 10),
        (Game::HaloReach, 178, 1),
        (Game::HaloReach, 189, 12),
    ];
    for (game, site, catalog) in cases {
        let id = MissionId::new(site);
        assert!(id.is_translatable(&game));
        assert_eq!(id.to_internal(&game), catalog);
    }
}

#[test]
fn each_game_has_its_own_shift() {
    assert_eq!(Game::Halo.to_mission_offset(), 1);
    assert_eq!(Game::Halo2.to_mission_offset(), -28);
    assert_eq!(Game::Halo3.to_mission_offset(), -68);
    assert_eq!(Game::Halo3Odst.to_mission_offset(), -165);
    assert_eq!(Game::HaloReach.to_mission_offset(), -177);
    assert_eq!(Game::Halo4.to_mission_offset(), -102);
}

#[test]
fn a_mission_number_at_the_edge_of_the_range_is_told_apart() {
    assert!(!MissionId::new(i32::MAX).is_translatable(&Game::Halo));
    assert!(MissionId::new(i32::MAX - 1).is_translatable(&Game::Halo));
    assert_eq!(MissionId::new(i32::MAX - 1).to_internal(&Game::Halo), i32::MAX);
    assert!(MissionId::new(i32::MIN).is_translatable(&Game::Halo));
    assert!(!MissionId::new(i32::MIN).is_translatable(&Game::Halo2));
    assert!(!MissionId::new(i32::MIN + 176).is_translatable(&Game::HaloReach));
    assert!(MissionId::new(i32::MIN + 177).is_translatable(&Game::HaloReach));
    assert_eq!(MissionId::new(i32::MIN + 177).to_internal(&Game::HaloReach), i32::MIN);
    assert!(MissionId::new(i32::MAX).is_translatable(&Game::Halo4));
}

#[test]
fn fields_are_read_off_the_first_element_that_carries_them() {
    let fragment = Html::parse_fragment(
        "<div data-game-id=\"Halo3\"><i data-game-id=\"Halo4\"></i>\
         <i data-mode-id=\"Coop\"></i><i data-mode-id=\"Solo\"></i>\
         <div class=\"skull\"><b class=\"spritesheet\" title=\"Heroic\"></b></div>\
         <b class=\"spritesheet\" title=\"Easy\"></b>\
         <span class=\"best-time\">00:00:01</span><span class=\"best-time\">00:00:02</span>\
         <span class=\"highest-score\">1</span><span class=\"highest-score\">2</span></div>",
    );
    let root = fragment.root_element();
    assert_eq!(Game::try_from_halo_waypoint_service_record(root), Ok(Game::Halo3));
    assert_eq!(CampaignMode::try_from_halo_waypoint_service_record(root), Ok(CampaignMode::Coop));
    assert_eq!(Difficulty::try_from_halo_waypoint_service_record(root), Ok(Difficulty::Heroic));
    assert_eq!(
        FastestTime::try_from_halo_waypoint_service_record(root),
        Ok(FastestTime::Recorded(TimeOfDay::try_from_hms(0, 0, 1).unwrap()))
    );
    assert_eq!(
        HighestScore::try_from_halo_waypoint_service_record(root),
        Ok(HighestScore::Recorded(1))
    );
}

#[test]
fn fields_that_are_not_there_are_reported_as_missing() {
    let fragment = Html::parse_fragment("<div><b class=\"spritesheet\" title=\"Easy\"></b></div>");
    let root = fragment.root_element();
    assert_eq!(
        Game::try_from_halo_waypoint_service_record(root),
        Err(site(HaloWaypointError::MissingGame))
    );
    assert_eq!(
        CampaignMode::try_from_halo_waypoint_service_record(root),
        Err(site(HaloWaypointError::MissingCampaignMode))
    );
    assert_eq!(
        Difficulty::try_from_halo_waypoint_service_record(root),
        Err(site(HaloWaypointError::MissingDifficulty))
    );
    assert_eq!(
        FastestTime::try_from_halo_waypoint_service_record(root),
        Err(site(HaloWaypointError::MissingTime))
    );
    assert_eq!(
        HighestScore::try_from_halo_waypoint_service_record(root),
        Err(site(HaloWaypointError::MissingScore))
    );
}

#[test]
fn a_skull_without_a_title_is_a_missing_difficulty() {
    let fragment = Html::parse_fragment("<div class=\"skull\"><b class=\"spritesheet\"></b></div>");
    assert_eq!(
        Difficulty::try_from_halo_waypoint_service_record(fragment.root_element()),
        Err(site(HaloWaypointError::MissingDifficulty))
    );
}

#[test]
fn markup_inside_a_field_is_part_of_its_text() {
    let fragment = Html::parse_fragment("<span class=\"highest-score\"><b>12</b></span>");
    assert_eq!(
        HighestScore::try_from_halo_waypoint_service_record(fragment.root_element()),
        Err(site(HaloWaypointError::InvalidScore("<b>12</b>".to_string())))
    );
}

#[test]
fn errors_are_copied_whole() {
    let error = Error::List(vec![
        Error::Hyper("down".to_string()),
        site(HaloWaypointError::Http("body".to_string())),
        Error::List(vec![site(HaloWaypointError::MissingScore)]),
    ]);
    assert_eq!(error.clone(), error);
}
