//! The games the API serves and their fixed names.

pub mod genshin;
pub mod starrail;
pub mod themis;
pub mod zenless;

use vstd::prelude::*;
use crate::text::str_eq;

verus! {

/// A HoYoverse game.
#[derive(Debug, Clone, Copy, PartialEq, Eq, Hash, Structural)]
pub enum Game {
    Genshin,
    Starrail,
    Zenless,
    Honkai,
    Themis,
}

/// The MongoDB collection holding a game's codes.
pub open spec fn spec_collection_name(g: Game) -> Seq<char> {
    match g {
            Game::Genshin => "genshin_codes"@,
            Game::Starrail => "starrail_codes"@,
            Game::Zenless => "zenless_codes"@,
            Game::Honkai => "honkai_codes"@,
            Game::Themis => "themis_codes"@,
    }
}

/// The URL slug of a game.
pub open spec fn spec_slug(g: Game) -> Seq<char> {
    match g {
            Game::Genshin => "genshin"@,
            Game::Starrail => "starrail"@,
            Game::Zenless => "zenless"@,
            Game::Honkai => "honkai"@,
            Game::Themis => "themis"@,
    }
}

/// The game a slug names, if any.
pub open spec fn spec_from_slug(s: Seq<char>) -> Option<Game> {
    if s == "genshin"@ {
        Some(Game::Genshin)
    } else if s == "starrail"@ {
        Some(Game::Starrail)
    } else if s == "zenless"@ {
        Some(Game::Zenless)
    } else if s == "honkai"@ {
        Some(Game::Honkai)
    } else if s == "themis"@ {
        Some(Game::Themis)
    } else {
        None
    }
}

/// The human-readable name of a game.
pub open spec fn spec_display_name(g: Game) -> Seq<char> {
    match g {
            Game::Genshin => "Genshin Impact"@,
            Game::Starrail => "Honkai: Star Rail"@,
            Game::Zenless => "Zenless Zone Zero"@,
            Game::Honkai => "Honkai Impact 3rd"@,
            Game::Themis => "Tears of Themis"@,
    }
}

/// The code redemption endpoint of a game, for the games that have one.
pub open spec fn spec_redeem_endpoint(g: Game) -> Option<Seq<char>> {
    match g {
            Game::Genshin => Some(genshin::REDEEM_API@),
            Game::Starrail => Some(starrail::REDEEM_API@),
            Game::Zenless => Some(zenless::REDEEM_API@),
            Game::Honkai => None,
            Game::Themis => Some(themis::REDEEM_API@),
    }
}

/// The business identifier of a game, for the games that can redeem codes.
pub open spec fn spec_game_biz(g: Game) -> Option<Seq<char>> {
    match g {
            Game::Genshin => Some(genshin::GAME_BIZ@),
            Game::Starrail => Some(starrail::GAME_BIZ@),
            Game::Zenless => Some(zenless::GAME_BIZ@),
            Game::Honkai => None,
            Game::Themis => Some(themis::GAME_BIZ@),
    }
}

impl Game {
    /// The MongoDB collection holding this game's codes.
    pub fn collection_name(&self) -> (r: &'static str)
        ensures
            r@ == spec_collection_name(*self),
    {
        match self {
            Game::Genshin => "genshin_codes",
            Game::Starrail => "starrail_codes",
            Game::Zenless => "zenless_codes",
            Game::Honkai => "honkai_codes",
            Game::Themis => "themis_codes",
        }
    }

    /// The URL slug of this game.
    pub fn slug(&self) -> (r: &'static str)
        ensures
            r@ == spec_slug(*self),
    {
        match self {
            Game::Genshin => "genshin",
            Game::Starrail => "starrail",
            Game::Zenless => "zenless",
            Game::Honkai => "honkai",
            Game::Themis => "themis",
        }
    }

    /// The game a slug names, if any.
    pub fn from_slug(s: &str) -> (r: Option<Game>)
        ensures
            r == spec_from_slug(s@),
    {
        if str_eq(s, "genshin") {
            Some(Game::Genshin)
        } else if str_eq(s, "starrail") {
            Some(Game::Starrail)
        } else if str_eq(s, "zenless") {
            Some(Game::Zenless)
        } else if str_eq(s, "honkai") {
            Some(Game::Honkai)
        } else if str_eq(s, "themis") {
            Some(Game::Themis)
        } else {
            None
        }
    }

    /// The human-readable name of this game.
    pub fn display_name(&self) -> (r: &'static str)
        ensures
            r@ == spec_display_name(*self),
    {
        match self {
            Game::Genshin => "Genshin Impact",
            Game::Starrail => "Honkai: Star Rail",
            Game::Zenless => "Zenless Zone Zero",
            Game::Honkai => "Honkai Impact 3rd",
            Game::Themis => "Tears of Themis",
        }
    }

    /// The code redemption endpoint, for the games that have one.
    pub fn redeem_endpoint(&self) -> (r: Option<&'static str>)
        ensures
            r is Some <==> spec_redeem_endpoint(*self) is Some,
            r is Some ==> spec_redeem_endpoint(*self) == Some(r->0@),
    {
        match self {
            Game::Genshin => Some(genshin::REDEEM_API),
            Game::Starrail => Some(starrail::REDEEM_API),
            Game::Zenless => Some(zenless::REDEEM_API),
            Game::Honkai => None,
            Game::Themis => Some(themis::REDEEM_API),
        }
    }

    /// The business identifier, for the games that can redeem codes.
    pub fn game_biz(&self) -> (r: Option<&'static str>)
        ensures
            r is Some <==> spec_game_biz(*self) is Some,
            r is Some ==> spec_game_biz(*self) == Some(r->0@),
    {
        match self {
            Game::Genshin => Some(genshin::GAME_BIZ),
            Game::Starrail => Some(starrail::GAME_BIZ),
            Game::Zenless => Some(zenless::GAME_BIZ),
            Game::Honkai => None,
            Game::Themis => Some(themis::GAME_BIZ),
        }
    }
}

/// A game's slug names that game and no other: `from_slug` undoes `slug`.
pub proof fn law_slug_round_trip(g: Game)
    ensures
        spec_from_slug(spec_slug(g)) == Some(g),
{
    reveal_strlit("genshin");
    reveal_strlit("starrail");
    reveal_strlit("zenless");
    reveal_strlit("honkai");
    reveal_strlit("themis");
    assert("genshin"@[0] == 'g');
    assert("starrail"@[0] == 's');
    assert("zenless"@[0] == 'z');
    assert("honkai"@[0] == 'h');
    assert("themis"@[0] == 't');
}

/// A slug that names a game is that game's slug.
pub proof fn law_from_slug_exact(s: Seq<char>)
    ensures
        spec_from_slug(s) matches Some(g) ==> spec_slug(g) == s,
{
}

/// A game can redeem codes exactly when it has a business identifier, and
/// every game but Honkai Impact 3rd has both.
pub proof fn law_redeem_support(g: Game)
    ensures
        spec_redeem_endpoint(g) is Some <==> spec_game_biz(g) is Some,
        spec_redeem_endpoint(g) is Some <==> g != Game::Honkai,
{
}

} // verus!
