use halomcc::campaign_modes::campaign_mode::CampaignMode as InternalCampaignMode;
use halomcc::games::game::Game as InternalGame;
use halomcc::games::game::GameId;
use halomcc::halo_waypoint::models::campaign_mode::CampaignMode;
use halomcc::halo_waypoint::models::game::Game;
use halomcc::halo_waypoint::requests::auth::GetAuthResponse;
use halomcc::halo_waypoint::requests::service_record::AuthenticatedGetServiceRecord;
use halomcc::halo_waypoint::requests::service_record::GetServiceRecordRequest;
use halomcc::halo_waypoint::transport::Header;
use halomcc::halo_waypoint::transport::Method;
use halomcc::halo_waypoint::transport::ReceivedHeader;
use halomcc::halo_waypoint::transport::Response;

#[test]
fn to_uri() {
    let req = AuthenticatedGetServiceRecord::new(
        GetAuthResponse::new("".to_string()),
        GetServiceRecordRequest::new("John117", &Game::Halo, &CampaignMode::Solo),
    );
    let uri = req.to_uri().unwrap();

    assert_eq!(uri.path(), "/en-us/games/halo-the-master-chief-collection/xbox-one/service-records/players/John117/missions");
    assert_eq!(
        uri.query(),
        Some("game=HaloCombatEvolved&campaignMode=Solo")
    );
}

#[test]
fn the_address_is_on_the_site_over_https() {
    let req = AuthenticatedGetServiceRecord::new(
        GetAuthResponse::new("Auth=abc".to_string()),
        GetServiceRecordRequest::new("Noble6", &Game::HaloReach, &CampaignMode::Coop),
    );
    let uri = req.to_uri().unwrap();
    assert_eq!(uri.scheme_str(), Some("https"));
    assert_eq!(uri.host(), Some("www.halowaypoint.com"));
    assert_eq!(
        req.path_and_query(),
        "/en-us/games/halo-the-master-chief-collection/xbox-one/service-records/players/Noble6/missions?game=HaloReach&campaignMode=Coop"
    );
    assert_eq!(uri.path_and_query().unwrap().as_str(), req.path_and_query());
}

#[test]
fn a_name_that_leaves_no_address_gives_no_request() {
    let req = AuthenticatedGetServiceRecord::new(
        GetAuthResponse::new("Auth=abc".to_string()),
        GetServiceRecordRequest::new("Master Chief", &Game::Halo, &CampaignMode::Solo),
    );
    assert!(req.to_uri().is_none());
    assert!(req.to_request().is_none());
}

#[test]
fn the_question_is_asked_within_the_session() {
    let req = AuthenticatedGetServiceRecord::new(
        GetAuthResponse::new("Auth=abc".to_string()),
        GetServiceRecordRequest::new("John117", &Game::Halo4, &CampaignMode::Coop),
    );
    let request = req.to_request().unwrap();
    assert_eq!(request.method, Method::Get);
    assert_eq!(request.uri, req.to_uri().unwrap());
    assert_eq!(
        request.headers,
        vec![
            Header { name: "cookie".to_string(), value: "Auth=abc".to_string() },
            Header { name: "x-requested-with".to_string(), value: "XMLHttpRequest".to_string() },
        ]
    );
    assert_eq!(request.body, "");
}

#[test]
fn a_question_about_the_catalog_becomes_a_question_to_the_site() {
    let game = InternalGame::new(GameId::new(3), "Halo 3");
    let request = GetServiceRecordRequest::from_internal("John117", &game, &InternalCampaignMode::Coop);
    assert_eq!(request, GetServiceRecordRequest::new("John117", &Game::Halo3, &CampaignMode::Coop));
    assert_eq!(request.clone(), request);
    assert_ne!(request, GetServiceRecordRequest::new("John117", &Game::Halo3, &CampaignMode::Solo));
}

#[test]
fn headers_are_found_by_name() {
    let response = Response::new(
        200,
        vec![
            ReceivedHeader { name: "set-cookie".to_string(), value: Some("a=1".to_string()) },
            ReceivedHeader { name: "location".to_string(), value: None },
            ReceivedHeader { name: "set-cookie".to_string(), value: None },
            ReceivedHeader { name: "location".to_string(), value: Some("/next".to_string()) },
            ReceivedHeader { name: "set-cookie".to_string(), value: Some("b=2".to_string()) },
        ],
        String::new(),
    );
    assert_eq!(response.header_values("set-cookie"), vec!["a=1".to_string(), "b=2".to_string()]);
    assert_eq!(response.header_values("location"), vec!["/next".to_string()]);
    assert_eq!(response.header_values("etag"), Vec::<String>::new());
    assert_eq!(response.first_header("set-cookie"), Some("a=1".to_string()));
    assert_eq!(response.first_header("location"), None);
    assert_eq!(response.first_header("etag"), None);
}
