use halomcc::error::Error;
use halomcc::error::HaloWaypointError;
use halomcc::halo_waypoint::cache::CacheKey;
use halomcc::halo_waypoint::cache::CacheValue;
use halomcc::halo_waypoint::client::InMemoryCache;
use halomcc::halo_waypoint::client::ResultCache;
use halomcc::halo_waypoint::models::campaign_mode::CampaignMode;
use halomcc::halo_waypoint::models::game::Game;
use halomcc::halo_waypoint::requests::auth::GetAuthRequest;
use halomcc::halo_waypoint::requests::auth::GetAuthResponse;
use halomcc::halo_waypoint::requests::service_record::GetServiceRecordRequest;
use halomcc::halo_waypoint::requests::service_record::GetServiceRecordResponse;

fn credentials(login: &str) -> GetAuthRequest {
    GetAuthRequest::new(login.to_string(), "SECRET-REDACTED".to_string())
}

fn session(text: &str) -> GetAuthResponse {
    GetAuthResponse::new(text.to_string())
}

fn question(player: &str) -> GetServiceRecordRequest {
    GetServiceRecordRequest::new(player, &Game::Halo, &CampaignMode::Solo)
}

fn page() -> GetServiceRecordResponse {
    GetServiceRecordResponse::new(Game::Halo, CampaignMode::Solo, vec![])
}

#[test]
fn an_empty_cache_answers_nothing() {
    let cache = InMemoryCache::default();
    assert_eq!(cache.get_auth(&credentials("chief")), None);
    assert!(cache.get_service_record(&session("Auth=a"), &question("John117")).is_none());
}

#[test]
fn a_sign_in_is_answered_from_the_cache_once_it_is_stored() {
    let mut cache = InMemoryCache::default();
    let outcome = Ok(session("Auth=abc"));
    cache.put_auth(&credentials("chief"), &outcome);
    assert_eq!(cache.get_auth(&credentials("chief")), Some(outcome));
    assert_eq!(cache.get_auth(&credentials("arbiter")), None);
}

#[test]
fn a_failure_is_replayed_like_a_success() {
    let mut cache = InMemoryCache::default();
    let failure: Result<GetAuthResponse, Error> =
        Err(Error::HaloWaypoint(HaloWaypointError::Http("denied".to_string())));
    cache.put_auth(&credentials("chief"), &failure);
    assert_eq!(cache.get_auth(&credentials("chief")), Some(failure.clone()));
    assert_eq!(cache.get_auth(&credentials("chief")), Some(failure));

    let failure: Result<GetServiceRecordResponse, Error> = Err(Error::Hyper("reset".to_string()));
    cache.put_service_record(&session("Auth=a"), &question("John117"), &failure);
    let replayed = cache.get_service_record(&session("Auth=a"), &question("John117")).unwrap();
    assert_eq!(replayed.unwrap_err(), Error::Hyper("reset".to_string()));
}

#[test]
fn the_last_outcome_stored_is_the_one_that_is_answered() {
    let mut cache = InMemoryCache::default();
    cache.put_auth(&credentials("chief"), &Ok(session("Auth=old")));
    cache.put_auth(&credentials("chief"), &Ok(session("Auth=new")));
    assert_eq!(cache.get_auth(&credentials("chief")), Some(Ok(session("Auth=new"))));
}

#[test]
fn pages_are_filed_under_session_and_question() {
    let mut cache = InMemoryCache::default();
    cache.put_service_record(&session("Auth=a"), &question("John117"), &Ok(page()));
    let hit = cache.get_service_record(&session("Auth=a"), &question("John117")).unwrap().unwrap();
    assert_eq!(hit.game(), Game::Halo);
    assert!(cache.get_service_record(&session("Auth=b"), &question("John117")).is_none());
    assert!(cache.get_service_record(&session("Auth=a"), &question("Noble6")).is_none());
}

#[test]
fn the_two_caches_do_not_touch_each_other() {
    let mut cache = InMemoryCache::default();
    cache.put_auth(&credentials("chief"), &Ok(session("Auth=abc")));
    for player in 0..1200 {
        cache.put_service_record(&session("Auth=abc"), &question(&format!("p{}", player)), &Ok(page()));
    }
    assert_eq!(cache.get_auth(&credentials("chief")), Some(Ok(session("Auth=abc"))));
    assert!(cache.get_service_record(&session("Auth=abc"), &question("p0")).is_none());
    assert!(cache.get_service_record(&session("Auth=abc"), &question("p1199")).is_some());
}

#[test]
fn the_oldest_session_leaves_when_the_cache_is_full() {
    let mut cache = InMemoryCache::default();
    for login in 0..11 {
        cache.put_auth(&credentials(&format!("spartan{}", login)), &Ok(session("Auth=x")));
    }
    assert_eq!(cache.get_auth(&credentials("spartan0")), None);
    for login in 1..11 {
        assert!(cache.get_auth(&credentials(&format!("spartan{}", login))).is_some());
    }
}

#[test]
fn an_outcome_is_forgotten_once_its_time_is_over() {
    let mut cache = ResultCache::new(4, 0);
    cache.store(CacheKey::Auth(credentials("chief")), CacheValue::Auth(Ok(session("Auth=abc"))));
    let stored = std::time::Instant::now();
    while stored.elapsed() < std::time::Duration::from_millis(20) {}
    assert!(cache.lookup(&CacheKey::Auth(credentials("chief"))).is_none());
}

#[test]
fn an_outcome_is_kept_while_its_time_lasts() {
    let mut cache = ResultCache::new(4, 3600);
    cache.store(CacheKey::Auth(credentials("chief")), CacheValue::Auth(Ok(session("Auth=abc"))));
    match cache.lookup(&CacheKey::Auth(credentials("chief"))) {
        Some(CacheValue::Auth(Ok(found))) => assert_eq!(found.auth_header(), "Auth=abc"),
        other => panic!("unexpected {:?}", other),
    }
}

#[test]
fn a_cache_without_room_keeps_nothing() {
    let mut cache = ResultCache::new(0, 3600);
    cache.store(CacheKey::Auth(credentials("chief")), CacheValue::Auth(Ok(session("Auth=abc"))));
    assert!(cache.lookup(&CacheKey::Auth(credentials("chief"))).is_none());
}

#[test]
fn a_time_to_live_beyond_the_bound_is_cut_down() {
    let mut cache = ResultCache::new(1, u64::MAX);
    cache.store(CacheKey::Auth(credentials("chief")), CacheValue::Auth(Ok(session("Auth=abc"))));
    assert!(cache.lookup(&CacheKey::Auth(credentials("chief"))).is_some());
}

#[test]
fn what_was_found_is_handed_on_and_nothing_else() {
    assert_eq!(InMemoryCache::auth_hit(None), None);
    assert!(InMemoryCache::service_record_hit(None).is_none());

    let signed_in = CacheValue::Auth(Ok(session("Auth=abc")));
    assert_eq!(InMemoryCache::auth_hit(Some(&signed_in)), Some(Ok(session("Auth=abc"))));
    assert!(InMemoryCache::service_record_hit(Some(&signed_in)).is_none());

    let denied = CacheValue::Auth(Err(Error::Hyper("reset".to_string())));
    assert_eq!(
        InMemoryCache::auth_hit(Some(&denied)),
        Some(Err(Error::Hyper("reset".to_string())))
    );

    let stored = CacheValue::ServiceRecord(Ok(page()));
    let found = InMemoryCache::service_record_hit(Some(&stored)).unwrap().unwrap();
    assert_eq!(found.game(), Game::Halo);
    assert_eq!(InMemoryCache::auth_hit(Some(&stored)), None);

    let failed = CacheValue::ServiceRecord(Err(Error::HaloWaypoint(HaloWaypointError::Http(
        "busy".to_string(),
    ))));
    assert_eq!(
        InMemoryCache::service_record_hit(Some(&failed)).unwrap().unwrap_err(),
        Error::HaloWaypoint(HaloWaypointError::Http("busy".to_string()))
    );
}
