use vstd::prelude::*;
use http::Uri;
use scraper::ElementRef;
use crate::campaign_modes::campaign_mode::CampaignMode as InternalCampaignMode;
use crate::document::attribute_of;
use crate::document::first_attribute_of;
use crate::document::first_inner_html_of;
use crate::document::fragment_of;
use crate::document::matches_of;
use crate::document::parse_fragment;
use crate::document::root_element;
use crate::document::root_of;
use crate::document::select_all;
use crate::error::error_views;
use crate::error::outcome_view;
use crate::error::result_view;
use crate::error::site_error;
use crate::error::Error;
use crate::error::ErrorView;
use crate::error::HaloWaypointError;
use crate::error::HaloWaypointErrorView;
use crate::games::game::Game as InternalGame;
use crate::games::game::GameId;
use crate::halo_waypoint::models::campaign_mode::CampaignMode;
use crate::halo_waypoint::models::difficulty::Difficulty;
use crate::halo_waypoint::models::fastest_time::FastestTime;
use crate::halo_waypoint::models::game::Game;
use crate::halo_waypoint::models::highest_score::HighestScore;
use crate::halo_waypoint::models::mission_id::MissionId;
use crate::halo_waypoint::requests::auth::GetAuthResponse;
use crate::halo_waypoint::transport::build_uri;
use crate::halo_waypoint::transport::uri_from_parts;
use crate::halo_waypoint::transport::Header;
use crate::halo_waypoint::transport::Method;
use crate::halo_waypoint::transport::Request;
use crate::halo_waypoint::transport::RequestView;
use crate::halo_waypoint::transport::Response;
use crate::halo_waypoint::transport::ResponseView;
use crate::service_records::service_record::aggregates;
use crate::service_records::service_record::lemma_one_run_for_each_row;
use crate::service_records::service_record::total_runs;
use crate::service_records::service_record::RunRow;
use crate::service_records::service_record::ServiceRecordView;
use crate::views::option_view;

verus! {

/// The host of the statistics site.
pub const AUTHORITY: &'static str = "www.halowaypoint.com";

/// The path of a player's statistics, up to the player's name.
pub const PATH_HEAD: &'static str =
    "/en-us/games/halo-the-master-chief-collection/xbox-one/service-records/players/";

/// The selector of the elements that stand for a mission.
pub const MISSION_SELECTOR: &'static str = "[data-mission-id]";

/// A question to the statistics site: how did `player` do in `game`, played in
/// `campaign_mode`?
#[derive(PartialEq, Eq, Hash, Debug)]
pub struct GetServiceRecordRequest {
    player: String,
    game: Game,
    campaign_mode: CampaignMode,
}

/// The mathematical value of a [`GetServiceRecordRequest`].
pub struct GetServiceRecordRequestView {
    pub player: Seq<char>,
    pub game: Game,
    pub campaign_mode: CampaignMode,
}

impl View for GetServiceRecordRequest {
    type V = GetServiceRecordRequestView;

    closed spec fn view(&self) -> GetServiceRecordRequestView {
        GetServiceRecordRequestView {
            player: self.player@,
            game: self.game,
            campaign_mode: self.campaign_mode,
        }
    }
}

impl Clone for GetServiceRecordRequest {
    fn clone(&self) -> (copy: Self)
        ensures
            copy@ == self@,
    {
        GetServiceRecordRequest {
            player: self.player.clone(),
            game: self.game,
            campaign_mode: self.campaign_mode,
        }
    }
}

impl GetServiceRecordRequest {
    pub fn new(player: &str, game: &Game, campaign_mode: &CampaignMode) -> (made: Self)
        ensures
            made@ == (GetServiceRecordRequestView {
                player: player@,
                game: *game,
                campaign_mode: *campaign_mode,
            }),
    {
        Self { player: player.to_owned(), game: *game, campaign_mode: *campaign_mode }
    }

    /// The question about a game and a mode of the catalog.
    pub fn from_internal(
        player: &str,
        game: &InternalGame,
        campaign_mode: &InternalCampaignMode,
    ) -> (made: Self)
        requires
            1 <= game@.id.0 <= 6,
        ensures
            made@.player == player@,
            made@.game.catalog_number() == game@.id.0,
            made@.campaign_mode.internal() == *campaign_mode,
    {
        Self::new(player, &Game::from_internal(game), &CampaignMode::from_internal(campaign_mode))
    }
}

/// A question to the statistics site together with the session it is asked in.
#[derive(Debug)]
pub struct AuthenticatedGetServiceRecord {
    authentication: GetAuthResponse,
    request: GetServiceRecordRequest,
}

impl AuthenticatedGetServiceRecord {
    /// The session cookie the question is asked with.
    pub closed spec fn session(&self) -> Seq<char> {
        self.authentication@
    }

    /// The question that is asked.
    pub closed spec fn question(&self) -> GetServiceRecordRequestView {
        self.request@
    }

    /// The path and query that ask `question`.
    pub open spec fn path_and_query_of(question: GetServiceRecordRequestView) -> Seq<char> {
        PATH_HEAD@ + question.player + "/missions?game="@ + question.game.code()
            + "&campaignMode="@ + question.campaign_mode.code()
    }

    /// The address that asks `question`, if the three parts make a URI.
    pub open spec fn uri_for(question: GetServiceRecordRequestView) -> Option<Uri> {
        uri_from_parts(
            "https"@,
            AUTHORITY@,
            AuthenticatedGetServiceRecord::path_and_query_of(question),
        )
    }

    /// The request that asks at `uri` within the session `session`.
    pub open spec fn request_to(uri: Uri, session: Seq<char>) -> RequestView {
        RequestView {
            method: Method::Get,
            uri,
            headers: seq![("cookie"@, session), ("x-requested-with"@, "XMLHttpRequest"@)],
            body: Seq::empty(),
        }
    }

    pub fn new(authentication: GetAuthResponse, request: GetServiceRecordRequest) -> (made: Self)
        ensures
            made.session() == authentication@,
            made.question() == request@,
    {
        Self { authentication, request }
    }

    /// The path and query of the address that asks the question.
    pub fn path_and_query(&self) -> (text: String)
        ensures
            text@ == AuthenticatedGetServiceRecord::path_and_query_of(self.question()),
    {
        let mut text = PATH_HEAD.to_owned();
        text.append(self.request.player.as_str());
        text.append("/missions?game=");
        text.append(self.request.game.to_string().as_str());
        text.append("&campaignMode=");
        text.append(self.request.campaign_mode.to_string().as_str());
        text
    }

    /// The address that asks the question: `None` where the player's name leaves
    /// no URI to build.
    pub fn to_uri(&self) -> (uri: Option<Uri>)
        ensures
            uri == AuthenticatedGetServiceRecord::uri_for(self.question()),
    {
        let path_and_query = self.path_and_query();
        build_uri("https", AUTHORITY, path_and_query.as_str())
    }

    /// The request that asks the question: `None` where the player's name leaves
    /// no URI to build.
    pub fn to_request(&self) -> (request: Option<Request>)
        ensures
            option_view(request) == match AuthenticatedGetServiceRecord::uri_for(self.question()) {
                Some(uri) => Some(
                    AuthenticatedGetServiceRecord::request_to(uri, self.session()),
                ),
                None => None,
            },
    {
        match self.to_uri() {
            Some(uri) => {
                let mut headers: Vec<Header> = Vec::new();
                headers.push(Header::new("cookie", self.authentication.auth_header()));
                headers.push(Header::new("x-requested-with", "XMLHttpRequest".to_owned()));
                let request = Request { method: Method::Get, uri, headers, body: String::new() };
                assert(request@.headers =~= AuthenticatedGetServiceRecord::request_to(
                    uri,
                    self.session(),
                ).headers);
                Some(request)
            },
            None => None,
        }
    }
}

/// What a page shows for one mission.
#[derive(Clone, Copy, Debug, PartialEq, Eq, Structural)]
pub struct GetServiceRecordResponseMission {
    pub id: MissionId,
    pub difficulty: Difficulty,
    pub fastest_time: FastestTime,
    pub highest_score: HighestScore,
}

/// The error an outcome holds, if it holds one, as a list of at most one.
pub open spec fn failure_of<T>(outcome: Result<T, ErrorView>) -> Seq<ErrorView> {
    match outcome {
        Ok(_) => Seq::empty(),
        Err(error) => seq![error],
    }
}

impl GetServiceRecordResponseMission {
    /// What the four fields of a mission come to: the mission where all four were
    /// read, else the list of every error among them, in the order number,
    /// difficulty, time, score.
    pub open spec fn assembled(
        id: Result<MissionId, ErrorView>,
        difficulty: Result<Difficulty, ErrorView>,
        fastest_time: Result<FastestTime, ErrorView>,
        highest_score: Result<HighestScore, ErrorView>,
    ) -> Result<GetServiceRecordResponseMission, ErrorView> {
        if id is Ok && difficulty is Ok && fastest_time is Ok && highest_score is Ok {
            Ok(
                GetServiceRecordResponseMission {
                    id: id->Ok_0,
                    difficulty: difficulty->Ok_0,
                    fastest_time: fastest_time->Ok_0,
                    highest_score: highest_score->Ok_0,
                },
            )
        } else {
            Err(
                ErrorView::List(
                    failure_of(id) + failure_of(difficulty) + failure_of(fastest_time)
                        + failure_of(highest_score),
                ),
            )
        }
    }

    /// What the element of a mission comes to.
    pub open spec fn read(element: ElementRef) -> Result<
        GetServiceRecordResponseMission,
        ErrorView,
    > {
        GetServiceRecordResponseMission::assembled(
            MissionId::extracted(attribute_of(element, MissionId::attribute_name())),
            Difficulty::extracted(
                first_attribute_of(element, Difficulty::selector(), Difficulty::attribute_name()),
            ),
            FastestTime::extracted(first_inner_html_of(element, FastestTime::selector())),
            HighestScore::extracted(first_inner_html_of(element, HighestScore::selector())),
        )
    }

    /// Whether the mission counts for the aggregate: it does where it shows a
    /// difficulty and a time.
    pub open spec fn counts(self) -> bool {
        self.difficulty.internal() is Some && self.fastest_time.internal() is Some
    }

    /// The row the mission gives for the aggregate on a page of `game` played in
    /// `campaign_mode`, where it counts: the mission under the catalog's numbers,
    /// with a score of zero where none is shown.
    pub open spec fn row(self, game: Game, campaign_mode: CampaignMode) -> Option<RunRow> {
        match (self.difficulty.internal(), self.fastest_time.internal()) {
            (Some(difficulty), Some(time)) => Some(
                (
                    game_id_of(game),
                    self.id.internal(game) as i32,
                    campaign_mode.internal(),
                    difficulty,
                    time,
                    match self.highest_score.internal() {
                        Some(score) => score,
                        None => 0,
                    },
                ),
            ),
            _ => None,
        }
    }

    pub fn new(
        id: MissionId,
        difficulty: Difficulty,
        fastest_time: FastestTime,
        highest_score: HighestScore,
    ) -> (made: Self)
        ensures
            made == (GetServiceRecordResponseMission { id, difficulty, fastest_time, highest_score }),
    {
        Self { id, difficulty, fastest_time, highest_score }
    }

    /// Puts the four fields of a mission together: the mission where all four
    /// were read, else every error among them.
    pub fn assemble(
        id: Result<MissionId, Error>,
        difficulty: Result<Difficulty, Error>,
        fastest_time: Result<FastestTime, Error>,
        highest_score: Result<HighestScore, Error>,
    ) -> (outcome: Result<Self, Error>)
        ensures
            result_view(outcome) == GetServiceRecordResponseMission::assembled(
                result_view(id),
                result_view(difficulty),
                result_view(fastest_time),
                result_view(highest_score),
            ),
    {
        match (id, difficulty, fastest_time, highest_score) {
            (Ok(id), Ok(difficulty), Ok(fastest_time), Ok(highest_score)) => Ok(
                Self { id, difficulty, fastest_time, highest_score },
            ),
            (id, difficulty, fastest_time, highest_score) => {
                let mut errors: Vec<Error> = Vec::new();
                let ghost wanted = failure_of(result_view(id)) + failure_of(result_view(difficulty))
                    + failure_of(result_view(fastest_time)) + failure_of(
                    result_view(highest_score),
                );
                if let Err(error) = id {
                    errors.push(error);
                }
                assert(error_views(errors@) =~= failure_of(result_view(id)));
                if let Err(error) = difficulty {
                    errors.push(error);
                }
                assert(error_views(errors@) =~= failure_of(result_view(id)) + failure_of(
                    result_view(difficulty),
                ));
                if let Err(error) = fastest_time {
                    errors.push(error);
                }
                assert(error_views(errors@) =~= failure_of(result_view(id)) + failure_of(
                    result_view(difficulty),
                ) + failure_of(result_view(fastest_time)));
                if let Err(error) = highest_score {
                    errors.push(error);
                }
                assert(error_views(errors@) =~= wanted);
                Err(Error::list(errors))
            },
        }
    }

    /// Reads the mission at `element`: its number off the element itself, its
    /// difficulty, time and score off the elements below it.
    pub fn try_from_halo_waypoint_service_record(element: ElementRef) -> (outcome: Result<
        Self,
        Error,
    >)
        ensures
            result_view(outcome) == GetServiceRecordResponseMission::read(element),
    {
        let id = MissionId::try_from_halo_waypoint_service_record(element);
        let difficulty = Difficulty::try_from_halo_waypoint_service_record(element);
        let fastest_time = FastestTime::try_from_halo_waypoint_service_record(element);
        let highest_score = HighestScore::try_from_halo_waypoint_service_record(element);
        Self::assemble(id, difficulty, fastest_time, highest_score)
    }

    /// The row the mission gives for the aggregate on a page of `game` played in
    /// `campaign_mode`, if it gives one.
    pub fn to_row(&self, game: &Game, campaign_mode: &CampaignMode) -> (row: Option<RunRow>)
        requires
            self.counts() ==> self.id.fits(*game),
        ensures
            row == self.row(*game, *campaign_mode),
    {
        let difficulty = self.difficulty.to_internal();
        let time = self.fastest_time.to_internal();
        match (difficulty, time) {
            (Some(difficulty), Some(time)) => {
                let score = match self.highest_score.to_internal() {
                    Some(score) => score,
                    None => 0,
                };
                Some(
                    (
                        game.to_internal(),
                        self.id.to_internal(game),
                        campaign_mode.to_internal(),
                        difficulty,
                        time,
                        score,
                    ),
                )
            },
            _ => None,
        }
    }
}

/// What a page of the statistics site shows: a game, a campaign mode, and the
/// missions of the game in the order of the page.
#[derive(Debug)]
pub struct GetServiceRecordResponse {
    game: Game,
    campaign_mode: CampaignMode,
    missions: Vec<GetServiceRecordResponseMission>,
}

/// The mathematical value of a [`GetServiceRecordResponse`].
pub struct GetServiceRecordResponseView {
    pub game: Game,
    pub campaign_mode: CampaignMode,
    pub missions: Seq<GetServiceRecordResponseMission>,
}

impl View for GetServiceRecordResponse {
    type V = GetServiceRecordResponseView;

    closed spec fn view(&self) -> GetServiceRecordResponseView {
        GetServiceRecordResponseView {
            game: self.game,
            campaign_mode: self.campaign_mode,
            missions: self.missions@,
        }
    }
}

impl Clone for GetServiceRecordResponse {
    fn clone(&self) -> (copy: Self)
        ensures
            copy@ == self@,
    {
        let mut missions: Vec<GetServiceRecordResponseMission> = Vec::new();
        let mut i: usize = 0;
        while i < self.missions.len()
            invariant
                i <= self.missions.len(),
                missions@ == self.missions@.take(i as int),
            decreases self.missions.len() - i,
        {
            missions.push(self.missions[i]);
            i += 1;
            assert(missions@ =~= self.missions@.take(i as int));
        }
        assert(self.missions@.take(i as int) =~= self.missions@);
        GetServiceRecordResponse { game: self.game, campaign_mode: self.campaign_mode, missions }
    }
}

/// The outcomes of reading some missions, with each error as a mathematical
/// value.
pub open spec fn outcome_views(
    outcomes: Seq<Result<GetServiceRecordResponseMission, Error>>,
) -> Seq<Result<GetServiceRecordResponseMission, ErrorView>> {
    outcomes.map_values(|outcome: Result<GetServiceRecordResponseMission, Error>| result_view(outcome))
}

/// The errors among the outcomes, in order.
pub open spec fn failures(outcomes: Seq<Result<GetServiceRecordResponseMission, ErrorView>>) -> Seq<
    ErrorView,
> {
    outcomes.filter_map(
        |outcome: Result<GetServiceRecordResponseMission, ErrorView>|
            match outcome {
                Ok(_) => None,
                Err(error) => Some(error),
            },
    )
}

/// The missions among the outcomes, in order.
pub open spec fn successes(outcomes: Seq<Result<GetServiceRecordResponseMission, ErrorView>>) -> Seq<
    GetServiceRecordResponseMission,
> {
    outcomes.filter_map(
        |outcome: Result<GetServiceRecordResponseMission, ErrorView>|
            match outcome {
                Ok(mission) => Some(mission),
                Err(_) => None,
            },
    )
}

/// The catalog's number for a game of the site.
pub open spec fn game_id_of(game: Game) -> GameId {
    GameId(game.catalog_number() as i32)
}

impl GetServiceRecordResponse {
    /// What the parts of a page come to: the page where the game, the mode and
    /// every mission were read, else the list of every error among them: that of
    /// the game, that of the mode, then that of each mission that failed, in the
    /// order of the page.
    pub open spec fn assembled(
        game: Result<Game, ErrorView>,
        campaign_mode: Result<CampaignMode, ErrorView>,
        missions: Seq<Result<GetServiceRecordResponseMission, ErrorView>>,
    ) -> Result<GetServiceRecordResponseView, ErrorView> {
        if game is Ok && campaign_mode is Ok && failures(missions).len() == 0 {
            Ok(
                GetServiceRecordResponseView {
                    game: game->Ok_0,
                    campaign_mode: campaign_mode->Ok_0,
                    missions: successes(missions),
                },
            )
        } else {
            Err(
                ErrorView::List(failure_of(game) + failure_of(campaign_mode) + failures(missions)),
            )
        }
    }

    /// What the elements that stand for a mission below `element` come to, one by
    /// one.
    pub open spec fn missions_below(element: ElementRef) -> Seq<
        Result<GetServiceRecordResponseMission, ErrorView>,
    > {
        matches_of(element, MISSION_SELECTOR@).map_values(
            |mission: ElementRef| GetServiceRecordResponseMission::read(mission),
        )
    }

    /// What the page below `element` comes to.
    pub open spec fn read(element: ElementRef) -> Result<GetServiceRecordResponseView, ErrorView> {
        GetServiceRecordResponse::assembled(
            Game::extracted(first_attribute_of(element, Game::selector(), Game::attribute_name())),
            CampaignMode::extracted(
                first_attribute_of(
                    element,
                    CampaignMode::selector(),
                    CampaignMode::attribute_name(),
                ),
            ),
            GetServiceRecordResponse::missions_below(element),
        )
    }

    /// What a response of the site comes to: with a status of 200 its body is
    /// read as a page; with any other status, or with a body that leaves no
    /// element to start from, the body is handed back as an error.
    pub open spec fn read_response(response: ResponseView) -> Result<
        GetServiceRecordResponseView,
        ErrorView,
    > {
        if response.status == 200 {
            match root_of(fragment_of(response.body)) {
                Some(root) => GetServiceRecordResponse::read(root),
                None => Err(site_error(HaloWaypointErrorView::Http(response.body))),
            }
        } else {
            Err(site_error(HaloWaypointErrorView::Http(response.body)))
        }
    }

    /// The rows the page gives for the aggregate: one for each mission that shows
    /// a difficulty and a time, in the order of the page.
    pub open spec fn rows(page: GetServiceRecordResponseView) -> Seq<RunRow> {
        page.missions.filter_map(
            |mission: GetServiceRecordResponseMission| mission.row(page.game, page.campaign_mode),
        )
    }

    /// The catalog's number can be held for every mission of the page that counts
    /// for the aggregate.
    pub open spec fn translatable(page: GetServiceRecordResponseView) -> bool {
        forall|i: int|
            0 <= i < page.missions.len() && (#[trigger] page.missions[i]).counts()
                ==> page.missions[i].id.fits(page.game)
    }

    pub fn new(
        game: Game,
        campaign_mode: CampaignMode,
        missions: Vec<GetServiceRecordResponseMission>,
    ) -> (made: Self)
        ensures
            made@ == (GetServiceRecordResponseView { game, campaign_mode, missions: missions@ }),
    {
        Self { game, campaign_mode, missions }
    }

    pub fn game(&self) -> (game: Game)
        ensures
            game == self@.game,
    {
        self.game
    }

    pub fn campaign_mode(&self) -> (campaign_mode: CampaignMode)
        ensures
            campaign_mode == self@.campaign_mode,
    {
        self.campaign_mode
    }

    pub fn missions(&self) -> (missions: &Vec<GetServiceRecordResponseMission>)
        ensures
            missions@ == self@.missions,
    {
        &self.missions
    }

    /// Puts the parts of a page together: the page where everything was read,
    /// else every error that was met.
    pub fn assemble(
        game: Result<Game, Error>,
        campaign_mode: Result<CampaignMode, Error>,
        missions: Vec<Result<GetServiceRecordResponseMission, Error>>,
    ) -> (outcome: Result<Self, Error>)
        ensures
            outcome_view(outcome) == GetServiceRecordResponse::assembled(
                result_view(game),
                result_view(campaign_mode),
                outcome_views(missions@),
            ),
    {
        let ghost outcomes = outcome_views(missions@);
        let ghost head = failure_of(result_view(game)) + failure_of(result_view(campaign_mode));
        let mut errors: Vec<Error> = Vec::new();
        match &game {
            Ok(_) => {},
            Err(error) => {
                errors.push(error.clone());
            },
        }
        assert(error_views(errors@) =~= failure_of(result_view(game)));
        match &campaign_mode {
            Ok(_) => {},
            Err(error) => {
                errors.push(error.clone());
            },
        }
        assert(error_views(errors@) =~= head);
        let mut read: Vec<GetServiceRecordResponseMission> = Vec::new();
        let mut i: usize = 0;
        while i < missions.len()
            invariant
                i <= missions.len(),
                outcomes == outcome_views(missions@),
                error_views(errors@) == head + failures(outcomes.take(i as int)),
                read@ == successes(outcomes.take(i as int)),
            decreases missions.len() - i,
        {
            assert(outcomes.take(i + 1).drop_last() =~= outcomes.take(i as int));
            assert(outcomes.take(i + 1).last() == result_view(missions@[i as int]));
            let ghost errors_before = error_views(errors@);
            match &missions[i] {
                Ok(mission) => {
                    read.push(*mission);
                    assert(read@ =~= successes(outcomes.take(i + 1)));
                },
                Err(error) => {
                    errors.push(error.clone());
                    assert(error_views(errors@) =~= errors_before.push(error@));
                    assert(error_views(errors@) =~= head + failures(outcomes.take(i + 1)));
                },
            }
            i += 1;
        }
        assert(outcomes.take(i as int) =~= outcomes);
        match (game, campaign_mode) {
            (Ok(game), Ok(campaign_mode)) => {
                if errors.len() == 0 {
                    assert(failures(outcomes).len() == 0);
                    Ok(Self { game, campaign_mode, missions: read })
                } else {
                    assert(head.len() == 0);
                    Err(Error::list(errors))
                }
            },
            _ => Err(Error::list(errors)),
        }
    }

    /// Reads the page below `element`: the game and the mode off the first
    /// elements that carry them, and a mission off each element that carries a
    /// mission number.
    pub fn try_from_halo_waypoint_service_record(element: ElementRef) -> (outcome: Result<
        Self,
        Error,
    >)
        ensures
            outcome_view(outcome) == GetServiceRecordResponse::read(element),
    {
        let game = Game::try_from_halo_waypoint_service_record(element);
        let campaign_mode = CampaignMode::try_from_halo_waypoint_service_record(element);
        let found = select_all(element, MISSION_SELECTOR);
        let mut missions: Vec<Result<GetServiceRecordResponseMission, Error>> = Vec::new();
        let mut i: usize = 0;
        while i < found.len()
            invariant
                i <= found.len(),
                missions.len() == i,
                forall|j: int|
                    0 <= j < i ==> result_view(#[trigger] missions@[j])
                        == GetServiceRecordResponseMission::read(found@[j]),
            decreases found.len() - i,
        {
            missions.push(
                GetServiceRecordResponseMission::try_from_halo_waypoint_service_record(found[i]),
            );
            i += 1;
        }
        assert(outcome_views(missions@) =~= GetServiceRecordResponse::missions_below(element));
        Self::assemble(game, campaign_mode, missions)
    }

    /// Reads a response of the site.
    pub fn try_from_response(res: Response) -> (outcome: Result<Self, Error>)
        ensures
            outcome_view(outcome) == GetServiceRecordResponse::read_response(res@),
    {
        if res.status == 200 {
            let html = parse_fragment(res.body.as_str());
            match root_element(&html) {
                Some(root) => Self::try_from_halo_waypoint_service_record(root),
                None => Err(Error::site(HaloWaypointError::Http(res.body))),
            }
        } else {
            Err(Error::site(HaloWaypointError::Http(res.body)))
        }
    }

    /// Whether the catalog's number can be held for every mission of the page that
    /// counts for the aggregate.
    pub fn is_translatable(&self) -> (translatable: bool)
        ensures
            translatable == GetServiceRecordResponse::translatable(self@),
    {
        let mut i: usize = 0;
        while i < self.missions.len()
            invariant
                i <= self.missions.len(),
                forall|j: int|
                    0 <= j < i && (#[trigger] self.missions@[j]).counts()
                        ==> self.missions@[j].id.fits(self.game),
            decreases self.missions.len() - i,
        {
            let mission = &self.missions[i];
            let counts = mission.difficulty.to_internal().is_some()
                && mission.fastest_time.to_internal().is_some();
            if counts && !mission.id.is_translatable(&self.game) {
                assert(self@.missions[i as int].counts());
                return false;
            }
            i += 1;
        }
        true
    }

    /// The rows the page gives for the aggregate: one for each mission that shows
    /// a difficulty and a time, in the order of the page, under the catalog's
    /// numbers.
    pub fn to_internal(&self) -> (rows: Vec<RunRow>)
        requires
            GetServiceRecordResponse::translatable(self@),
        ensures
            rows@ == GetServiceRecordResponse::rows(self@),
    {
        let ghost pick = |mission: GetServiceRecordResponseMission|
            mission.row(self@.game, self@.campaign_mode);
        let mut rows: Vec<RunRow> = Vec::new();
        let mut i: usize = 0;
        while i < self.missions.len()
            invariant
                i <= self.missions.len(),
                GetServiceRecordResponse::translatable(self@),
                pick == |mission: GetServiceRecordResponseMission|
                    mission.row(self@.game, self@.campaign_mode),
                rows@ == self.missions@.take(i as int).filter_map(pick),
            decreases self.missions.len() - i,
        {
            assert(self.missions@.take(i + 1).drop_last() =~= self.missions@.take(i as int));
            assert(self.missions@.take(i + 1).last() == self.missions@[i as int]);
            assert(self@.missions[i as int].counts() ==> self@.missions[i as int].id.fits(
                self@.game,
            ));
            match self.missions[i].to_row(&self.game, &self.campaign_mode) {
                Some(row) => {
                    rows.push(row);
                    assert(rows@ =~= self.missions@.take(i + 1).filter_map(pick));
                },
                None => {},
            }
            i += 1;
        }
        assert(self.missions@.take(i as int) =~= self.missions@);
        rows
    }
}

/// The page `page` with one mission more at its end.
pub open spec fn page_with(
    page: GetServiceRecordResponseView,
    mission: GetServiceRecordResponseMission,
) -> GetServiceRecordResponseView {
    GetServiceRecordResponseView {
        game: page.game,
        campaign_mode: page.campaign_mode,
        missions: page.missions.push(mission),
    }
}

/// The row that `mission` gives on `page`, where it gives one.
pub open spec fn row_on(
    page: GetServiceRecordResponseView,
    mission: GetServiceRecordResponseMission,
) -> Option<RunRow> {
    mission.row(page.game, page.campaign_mode)
}

/// A mission that shows a difficulty and a time gives exactly one row, under the
/// page's game and mode; its score is the one shown, or zero where none is shown.
pub proof fn lemma_played_mission_gives_one_row(
    page: GetServiceRecordResponseView,
    mission: GetServiceRecordResponseMission,
)
    requires
        mission.difficulty != Difficulty::Unplayed,
        mission.fastest_time is Recorded,
    ensures
        row_on(page, mission) is Some,
        GetServiceRecordResponse::rows(page_with(page, mission)) == GetServiceRecordResponse::rows(
            page,
        ).push(row_on(page, mission).unwrap()),
        row_on(page, mission).unwrap().0 == game_id_of(page.game),
        row_on(page, mission).unwrap().1 == mission.id.internal(page.game) as i32,
        row_on(page, mission).unwrap().2 == page.campaign_mode.internal(),
        Some(row_on(page, mission).unwrap().3) == mission.difficulty.internal(),
        mission.fastest_time == FastestTime::Recorded(row_on(page, mission).unwrap().4),
        row_on(page, mission).unwrap().5 == match mission.highest_score {
            HighestScore::Recorded(score) => score,
            HighestScore::Unrecorded => 0,
        },
{
    let longer = page_with(page, mission);
    assert(longer.missions.drop_last() =~= page.missions);
    assert(longer.missions.last() == mission);
}

/// A mission that shows no difficulty gives no row, whatever else it shows.
pub proof fn lemma_unplayed_mission_gives_no_row(
    page: GetServiceRecordResponseView,
    mission: GetServiceRecordResponseMission,
)
    requires
        mission.difficulty == Difficulty::Unplayed,
    ensures
        row_on(page, mission) is None,
        GetServiceRecordResponse::rows(page_with(page, mission)) == GetServiceRecordResponse::rows(
            page,
        ),
{
    let longer = page_with(page, mission);
    assert(longer.missions.drop_last() =~= page.missions);
    assert(longer.missions.last() == mission);
}

/// The missions of a page that count for the aggregate, in the order of the
/// page.
pub open spec fn counting(page: GetServiceRecordResponseView) -> Seq<
    GetServiceRecordResponseMission,
> {
    page.missions.filter(|mission: GetServiceRecordResponseMission| mission.counts())
}

/// A page gives one row for each of its missions that shows a difficulty and a
/// time, and no other row.
pub proof fn lemma_one_row_for_each_mission_that_counts(page: GetServiceRecordResponseView)
    ensures
        GetServiceRecordResponse::rows(page).len() == counting(page).len(),
    decreases page.missions.len(),
{
    reveal(Seq::filter);
    if page.missions.len() > 0 {
        let shorter = GetServiceRecordResponseView {
            game: page.game,
            campaign_mode: page.campaign_mode,
            missions: page.missions.drop_last(),
        };
        lemma_one_row_for_each_mission_that_counts(shorter);
    }
}

/// The records that the rows of a page come to hold one playthrough for each
/// mission of the page that shows a difficulty and a time, and nothing for any
/// other mission.
pub proof fn lemma_one_run_for_each_mission_that_counts(
    player: Seq<char>,
    page: GetServiceRecordResponseView,
    records: Seq<ServiceRecordView>,
)
    requires
        aggregates(player, GetServiceRecordResponse::rows(page), records),
    ensures
        total_runs(records) == counting(page).len(),
{
    lemma_one_row_for_each_mission_that_counts(page);
    lemma_one_run_for_each_row(player, GetServiceRecordResponse::rows(page), records);
}

} // verus!
