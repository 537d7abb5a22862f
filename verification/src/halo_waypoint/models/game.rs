use vstd::prelude::*;
use scraper::ElementRef;
use crate::document::first_attribute;
use crate::document::first_attribute_of;
use crate::error::result_view;
use crate::error::site_error;
use crate::error::Error;
use crate::error::ErrorView;
use crate::error::HaloWaypointError;
use crate::error::HaloWaypointErrorView;
use crate::games::game::Game as InternalGame;
use crate::games::game::GameId as InternalGameId;
use crate::text::str_eq;
use crate::views::option_view;

verus! {

/// A game as the statistics site names it.
#[derive(PartialEq, Eq, Hash, Clone, Copy, Debug, Structural)]
pub enum Game {
    Halo,
    Halo2,
    Halo3,
    Halo3Odst,
    HaloReach,
    Halo4,
}

impl Game {
    /// The code the site uses for the game.
    pub open spec fn code(self) -> Seq<char> {
        match self {
            Game::Halo => "HaloCombatEvolved"@,
            Game::Halo2 => "Halo2"@,
            Game::Halo3 => "Halo3"@,
            Game::Halo3Odst => "Halo3Odst"@,
            Game::HaloReach => "HaloReach"@,
            Game::Halo4 => "Halo4"@,
        }
    }

    /// The game that `code` names, if it names one.
    pub open spec fn of_code(code: Seq<char>) -> Option<Game> {
        if code == "HaloCombatEvolved"@ {
            Some(Game::Halo)
        } else if code == "Halo2"@ {
            Some(Game::Halo2)
        } else if code == "Halo3"@ {
            Some(Game::Halo3)
        } else if code == "Halo3Odst"@ {
            Some(Game::Halo3Odst)
        } else if code == "HaloReach"@ {
            Some(Game::HaloReach)
        } else if code == "Halo4"@ {
            Some(Game::Halo4)
        } else {
            None
        }
    }

    /// What the text `code` gives: its game, or the complaint that it names none.
    pub open spec fn parsed(code: Seq<char>) -> Result<Game, ErrorView> {
        match Game::of_code(code) {
            Some(game) => Ok(game),
            None => Err(site_error(HaloWaypointErrorView::UnknownGame(code))),
        }
    }

    /// What the game attribute of a page gives: a missing attribute is an error of
    /// its own.
    pub open spec fn extracted(attribute: Option<Seq<char>>) -> Result<Game, ErrorView> {
        match attribute {
            Some(code) => Game::parsed(code),
            None => Err(site_error(HaloWaypointErrorView::MissingGame)),
        }
    }

    /// The number of the game in the catalog.
    pub open spec fn catalog_number(self) -> int {
        match self {
            Game::Halo => 1,
            Game::Halo2 => 2,
            Game::Halo3 => 3,
            Game::Halo3Odst => 4,
            Game::HaloReach => 5,
            Game::Halo4 => 6,
        }
    }

    /// What the number that the site gives a mission of the game is moved by to
    /// give the number of the mission in the catalog.
    pub open spec fn mission_offset(self) -> int {
        match self {
            Game::Halo => 1,
            Game::Halo2 => -28,
            Game::Halo3 => -68,
            Game::Halo3Odst => -165,
            Game::HaloReach => -177,
            Game::Halo4 => -102,
        }
    }

    /// The selector of the element that carries the game.
    pub open spec fn selector() -> Seq<char> {
        "[data-game-id]"@
    }

    /// The attribute that carries the game.
    pub open spec fn attribute_name() -> Seq<char> {
        "data-game-id"@
    }

    /// The game that the code `game` names.
    pub fn try_from_str(game: &str) -> (outcome: Result<Self, Error>)
        ensures
            result_view(outcome) == Game::parsed(game@),
    {
        if str_eq(game, "HaloCombatEvolved") {
            Ok(Game::Halo)
        } else if str_eq(game, "Halo2") {
            Ok(Game::Halo2)
        } else if str_eq(game, "Halo3") {
            Ok(Game::Halo3)
        } else if str_eq(game, "Halo3Odst") {
            Ok(Game::Halo3Odst)
        } else if str_eq(game, "HaloReach") {
            Ok(Game::HaloReach)
        } else if str_eq(game, "Halo4") {
            Ok(Game::Halo4)
        } else {
            Err(Error::site(HaloWaypointError::UnknownGame(game.to_owned())))
        }
    }

    /// The code the site uses for the game.
    #[allow(clippy::inherent_to_string)]
    pub fn to_string(&self) -> (code: String)
        ensures
            code@ == self.code(),
    {
        match self {
            Game::Halo => "HaloCombatEvolved".to_owned(),
            Game::Halo2 => "Halo2".to_owned(),
            Game::Halo3 => "Halo3".to_owned(),
            Game::Halo3Odst => "Halo3Odst".to_owned(),
            Game::HaloReach => "HaloReach".to_owned(),
            Game::Halo4 => "Halo4".to_owned(),
        }
    }

    /// The game that the attribute of a page names.
    pub fn try_from_attribute(attribute: Option<&str>) -> (outcome: Result<Self, Error>)
        ensures
            result_view(outcome) == Game::extracted(option_view(attribute)),
    {
        match attribute {
            Some(code) => Self::try_from_str(code),
            None => Err(Error::site(HaloWaypointError::MissingGame)),
        }
    }

    /// The game of the page below `element`: read off the first element that
    /// carries the game attribute.
    pub fn try_from_halo_waypoint_service_record(element: ElementRef) -> (outcome: Result<
        Self,
        Error,
    >)
        ensures
            result_view(outcome) == Game::extracted(
                first_attribute_of(element, Game::selector(), Game::attribute_name()),
            ),
    {
        Self::try_from_attribute(first_attribute(element, "[data-game-id]", "data-game-id"))
    }

    /// The site's game for a game of the catalog.
    pub fn from_internal(game: &InternalGame) -> (made: Self)
        requires
            1 <= game@.id.0 <= 6,
        ensures
            made.catalog_number() == game@.id.0,
    {
        let id = game.id();
        let number: i32 = *id.value();
        if number == 1 {
            Game::Halo
        } else if number == 2 {
            Game::Halo2
        } else if number == 3 {
            Game::Halo3
        } else if number == 4 {
            Game::Halo3Odst
        } else if number == 5 {
            Game::HaloReach
        } else {
            Game::Halo4
        }
    }

    /// What the site's number of a mission of the game is moved by to give the
    /// catalog's.
    pub fn to_mission_offset(&self) -> (offset: i32)
        ensures
            offset == self.mission_offset(),
    {
        match self {
            Game::Halo => 1,
            Game::Halo2 => -28,
            Game::Halo3 => -68,
            Game::Halo3Odst => -165,
            Game::HaloReach => -177,
            Game::Halo4 => -102,
        }
    }

    /// The catalog's number for the game.
    pub fn to_internal(&self) -> (id: InternalGameId)
        ensures
            id.0 == self.catalog_number(),
    {
        let id: i32 = match self {
            Game::Halo => 1,
            Game::Halo2 => 2,
            Game::Halo3 => 3,
            Game::Halo3Odst => 4,
            Game::HaloReach => 5,
            Game::Halo4 => 6,
        };
        InternalGameId::new(id)
    }
}

/// Each game is the game that its own code names.
pub proof fn lemma_code_names_its_game(game: Game)
    ensures
        Game::of_code(game.code()) == Some(game),
{
    reveal_strlit("HaloCombatEvolved");
    reveal_strlit("Halo2");
    reveal_strlit("Halo3");
    reveal_strlit("Halo3Odst");
    reveal_strlit("HaloReach");
    reveal_strlit("Halo4");
    assert("HaloCombatEvolved"@.len() == 17);
    assert("Halo2"@.len() == 5);
    assert("Halo3"@.len() == 5);
    assert("Halo3Odst"@.len() == 9);
    assert("HaloReach"@.len() == 9);
    assert("Halo4"@.len() == 5);
    assert("Halo2"@[4] == '2');
    assert("Halo3"@[4] == '3');
    assert("Halo4"@[4] == '4');
    assert("Halo3Odst"@[4] == '3');
    assert("HaloReach"@[4] == 'R');
}

} // verus!
