use vstd::prelude::*;
use crate::games::dao::GamesDao;
use crate::games::game::Game;
use crate::games::game::GameId;
use crate::games::game::GameView;
use crate::graphql::context::Context;
use crate::views::first_match;
use crate::views::option_view;
use crate::views::views_of;

verus! {

/// The root of what can be asked: the games of the collection.
pub struct Query;

impl Query {
    /// Every game, in the order of the catalog.
    pub fn games(context: &Context) -> (games: Vec<Game>)
        ensures
            views_of(games@) == context.games(),
    {
        context.games_dao().all()
    }

    /// The game with the number `id`, if there is one.
    pub fn game(context: &Context, id: i32) -> (game: Option<Game>)
        ensures
            option_view(game) == first_match(context.games(), |g: GameView| g.id == GameId(id)),
    {
        context.games_dao().find_by_id(GameId::new(id))
    }
}

} // verus!
