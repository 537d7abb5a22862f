use vstd::prelude::*;
use crate::campaign_modes::campaign_mode::CampaignMode;
use crate::error::error_views;
use crate::error::outcome_view;
use crate::error::Error;
use crate::error::ErrorView;
use crate::games::dao::GamesDao;
use crate::games::dao::InMemoryGamesDao;
use crate::games::game::Game;
use crate::games::game::GameId;
use crate::games::game::GameView;
use crate::halo_waypoint::requests::service_record::GetServiceRecordRequest;
use crate::halo_waypoint::requests::service_record::GetServiceRecordResponse;
use crate::halo_waypoint::requests::service_record::GetServiceRecordResponseView;
use crate::missions::mission::Mission;
use crate::missions::mission::MissionView;
use crate::service_records::service_record::aggregates;
use crate::service_records::service_record::RunRow;
use crate::service_records::service_record::ServiceRecord;
use crate::service_records::service_record::ServiceRecordView;
use crate::text::str_eq;
use crate::views::first_match;
use crate::views::lemma_first_match_skip;
use crate::views::option_view;
use crate::views::views_of;

verus! {

/// What asking the site for several pages came to, page by page, as
/// mathematical values.
pub open spec fn page_outcomes(outcomes: Seq<Result<GetServiceRecordResponse, Error>>) -> Seq<
    Result<GetServiceRecordResponseView, ErrorView>,
> {
    outcomes.map_values(
        |outcome: Result<GetServiceRecordResponse, Error>| outcome_view(outcome),
    )
}

/// The errors among the outcomes, in order.
pub open spec fn page_failures(
    outcomes: Seq<Result<GetServiceRecordResponseView, ErrorView>>,
) -> Seq<ErrorView> {
    outcomes.filter_map(
        |outcome: Result<GetServiceRecordResponseView, ErrorView>|
            match outcome {
                Ok(_) => None,
                Err(error) => Some(error),
            },
    )
}

/// The pages among the outcomes, in order.
pub open spec fn pages_of(outcomes: Seq<Result<GetServiceRecordResponseView, ErrorView>>) -> Seq<
    GetServiceRecordResponseView,
> {
    outcomes.filter_map(
        |outcome: Result<GetServiceRecordResponseView, ErrorView>|
            match outcome {
                Ok(page) => Some(page),
                Err(_) => None,
            },
    )
}

/// The rows of several pages, page after page.
pub open spec fn all_rows(pages: Seq<GetServiceRecordResponseView>) -> Seq<RunRow>
    decreases pages.len(),
{
    if pages.len() == 0 {
        Seq::empty()
    } else {
        all_rows(pages.drop_last()) + GetServiceRecordResponse::rows(pages.last())
    }
}

/// The catalog's number can be held for every mission of every page that counts
/// for the aggregate.
pub open spec fn all_translatable(pages: Seq<GetServiceRecordResponseView>) -> bool {
    forall|i: int|
        0 <= i < pages.len() ==> GetServiceRecordResponse::translatable(#[trigger] pages[i])
}

/// The record that is about `mission` for `player`.
pub open spec fn is_about(record: ServiceRecordView, player: Seq<char>, mission: MissionView) -> bool {
    record.player == player && record.game_id == mission.game_id && record.mission_id
        == mission.id.0
}

/// What a player has achieved, as far as the statistics site tells. The site is
/// asked by whoever holds this; here is what to ask and what to make of the
/// answers.
pub struct ServiceRecordsDao {
    games_dao: InMemoryGamesDao,
}

impl ServiceRecordsDao {
    /// The games that are known.
    pub closed spec fn games(&self) -> Seq<GameView> {
        self.games_dao.games()
    }

    /// The way to the records of the games of the collection.
    pub fn default() -> (dao: Self)
        ensures
            dao.games() == crate::games::dao::catalog(),
    {
        Self { games_dao: InMemoryGamesDao::default() }
    }

    /// The game with the number `game_id`, if it is known: the game to ask the
    /// site about.
    pub fn find_game(&self, game_id: GameId) -> (found: Option<Game>)
        ensures
            option_view(found) == first_match(self.games(), |g: GameView| g.id == game_id),
    {
        self.games_dao.find_by_id(game_id)
    }

    /// The questions to ask the site about `player` and `game`: one for each
    /// campaign mode, alone first.
    pub fn requests(player: &str, game: &Game) -> (requests: Vec<GetServiceRecordRequest>)
        requires
            1 <= game@.id.0 <= 6,
        ensures
            requests.len() == 2,
            requests@[0]@.player == player@,
            requests@[1]@.player == player@,
            requests@[0]@.game.catalog_number() == game@.id.0,
            requests@[1]@.game.catalog_number() == game@.id.0,
            requests@[0]@.campaign_mode.internal() == CampaignMode::Solo,
            requests@[1]@.campaign_mode.internal() == CampaignMode::Coop,
    {
        let mut requests: Vec<GetServiceRecordRequest> = Vec::new();
        requests.push(GetServiceRecordRequest::from_internal(player, game, &CampaignMode::Solo));
        requests.push(GetServiceRecordRequest::from_internal(player, game, &CampaignMode::Coop));
        requests
    }

    /// All the pages, or, where a request failed, every error that was met: no
    /// part of the answers is kept once one of them is missing.
    pub fn gather(outcomes: Vec<Result<GetServiceRecordResponse, Error>>) -> (gathered: Result<
        Vec<GetServiceRecordResponse>,
        Error,
    >)
        ensures
            match gathered {
                Ok(pages) => page_failures(page_outcomes(outcomes@)).len() == 0 && views_of(pages@)
                    == pages_of(page_outcomes(outcomes@)),
                Err(error) => page_failures(page_outcomes(outcomes@)).len() > 0 && error@
                    == ErrorView::List(page_failures(page_outcomes(outcomes@))),
            },
    {
        let ghost all = page_outcomes(outcomes@);
        let mut pages: Vec<GetServiceRecordResponse> = Vec::new();
        let mut errors: Vec<Error> = Vec::new();
        let mut i: usize = 0;
        while i < outcomes.len()
            invariant
                i <= outcomes.len(),
                all == page_outcomes(outcomes@),
                views_of(pages@) == pages_of(all.take(i as int)),
                error_views(errors@) == page_failures(all.take(i as int)),
            decreases outcomes.len() - i,
        {
            assert(all.take(i + 1).drop_last() =~= all.take(i as int));
            assert(all.take(i + 1).last() == outcome_view(outcomes@[i as int]));
            let ghost pages_before = views_of(pages@);
            let ghost errors_before = error_views(errors@);
            match &outcomes[i] {
                Ok(page) => {
                    pages.push(page.clone());
                    assert(views_of(pages@) =~= pages_before.push(page@));
                },
                Err(error) => {
                    errors.push(error.clone());
                    assert(error_views(errors@) =~= errors_before.push(error@));
                },
            }
            i += 1;
        }
        assert(all.take(i as int) =~= all);
        if errors.len() == 0 {
            Ok(pages)
        } else {
            Err(Error::list(errors))
        }
    }

    /// Whether the catalog's number can be held for every mission of every page
    /// that counts for the aggregate.
    pub fn is_translatable(pages: &Vec<GetServiceRecordResponse>) -> (translatable: bool)
        ensures
            translatable == all_translatable(views_of(pages@)),
    {
        let mut i: usize = 0;
        while i < pages.len()
            invariant
                i <= pages.len(),
                forall|j: int|
                    0 <= j < i ==> GetServiceRecordResponse::translatable(
                        #[trigger] views_of(pages@)[j],
                    ),
            decreases pages.len() - i,
        {
            if !pages[i].is_translatable() {
                assert(!GetServiceRecordResponse::translatable(views_of(pages@)[i as int]));
                return false;
            }
            i += 1;
        }
        true
    }

    /// The records of `player` that the pages come to: the rows of all pages,
    /// grouped by game and mission.
    pub fn find_by_player_and_game(player: &str, pages: &Vec<GetServiceRecordResponse>) -> (records:
        Vec<ServiceRecord>)
        requires
            all_translatable(views_of(pages@)),
        ensures
            aggregates(player@, all_rows(views_of(pages@)), views_of(records@)),
    {
        let ghost views = views_of(pages@);
        let mut rows: Vec<RunRow> = Vec::new();
        let mut i: usize = 0;
        while i < pages.len()
            invariant
                i <= pages.len(),
                views == views_of(pages@),
                all_translatable(views),
                rows@ == all_rows(views.take(i as int)),
            decreases pages.len() - i,
        {
            assert(views.take(i + 1).drop_last() =~= views.take(i as int));
            assert(views.take(i + 1).last() == pages@[i as int]@);
            assert(GetServiceRecordResponse::translatable(views[i as int]));
            let mut more = pages[i].to_internal();
            rows.append(&mut more);
            i += 1;
        }
        assert(views.take(i as int) =~= views);
        ServiceRecord::from_player_and_runs(player, rows.as_slice())
    }

    /// The record about `mission` among the records of `player`, if there is
    /// one.
    pub fn find_by_player_and_mission(
        records: Vec<ServiceRecord>,
        player: &str,
        mission: &Mission,
    ) -> (found: Option<ServiceRecord>)
        ensures
            option_view(found) == first_match(
                views_of(records@),
                |record: ServiceRecordView| is_about(record, player@, mission@),
            ),
    {
        let ghost all = views_of(records@);
        let ghost wanted = |record: ServiceRecordView| is_about(record, player@, mission@);
        let mut left = records;
        let game_id = mission.game_id();
        let mission_id = mission.id();
        let mut i: usize = 0;
        while i < left.len()
            invariant
                i <= left.len(),
                all == views_of(left@),
                all == views_of(records@),
                wanted == |record: ServiceRecordView| is_about(record, player@, mission@),
                game_id == mission@.game_id,
                mission_id == mission@.id,
                forall|j: int| 0 <= j < i ==> !wanted(#[trigger] all[j]),
            decreases left.len() - i,
        {
            let held = left[i].player();
            if str_eq(held.as_str(), player) && left[i].game_id() == game_id
                && left[i].mission_id() == *mission_id.value() {
                proof {
                    lemma_first_match_skip(all, wanted, i as int);
                    assert(all.skip(i as int)[0] == left@[i as int]@);
                    assert(wanted(all.skip(i as int)[0]));
                    assert(first_match(all, wanted) == Some(left@[i as int]@));
                }
                let ghost target = left@[i as int];
                let found = left.swap_remove(i);
                assert(found == target);
                return Some(found);
            }
            i += 1;
        }
        proof {
            lemma_first_match_skip(all, wanted, i as int);
            assert(all.skip(i as int).len() == 0);
        }
        None
    }
}

} // verus!
