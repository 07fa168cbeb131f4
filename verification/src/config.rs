//! Service settings and their defaults.

use vstd::prelude::*;
use crate::games::{spec_redeem_endpoint, Game};

verus! {

/// Rate limiting of the codes route.
#[derive(Debug, Clone)]
pub struct RateLimitConfig {
    /// Token replenish rate per second.
    pub per_second: u64,
    /// Maximum burst size.
    pub burst_size: u32,
}

impl Default for RateLimitConfig {
    fn default() -> (c: RateLimitConfig)
        ensures
            c.per_second == 2,
            c.burst_size == 120,
    {
        RateLimitConfig { per_second: 2, burst_size: 120 }
    }
}

/// Where the code database lives.
#[derive(Debug, Clone)]
pub struct DatabaseConfig {
    /// MongoDB connection URI.
    pub uri: String,
    /// Database name.
    pub name: String,
}

impl Default for DatabaseConfig {
    fn default() -> (c: DatabaseConfig)
        ensures
            c.uri@ == "mongodb://localhost:27017"@,
            c.name@ == "hoyoverse"@,
    {
        DatabaseConfig { uri: "mongodb://localhost:27017".to_owned(), name: "hoyoverse".to_owned() }
    }
}

impl DatabaseConfig {
    /// Applies the overrides that the environment gives (`DATABASE_URI`,
    /// `DATABASE_NAME`): each one that is set replaces its setting.
    pub fn apply_overrides(&mut self, uri: Option<String>, name: Option<String>)
        ensures
            final(self).uri@ == match uri {
                Some(u) => u@,
                None => old(self).uri@,
            },
            final(self).name@ == match name {
                Some(n) => n@,
                None => old(self).name@,
            },
    {
        match uri {
            Some(u) => {
                self.uri = u;
            },
            None => {},
        }
        match name {
            Some(n) => {
                self.name = n;
            },
            None => {},
        }
    }
}

/// Credentials and settings that one game's validator and calendar use.
#[derive(Debug, Clone)]
pub struct GameValidatorConfig {
    /// Whether validation is enabled for this game.
    pub enabled: bool,
    /// Full HoYoLab cookie string.
    pub cookie: String,
    /// In-game UID for redemption.
    pub uid: String,
    /// Server region (e.g. os_usa, os_euro, os_asia, os_cht).
    pub region: String,
}

impl Default for GameValidatorConfig {
    fn default() -> (c: GameValidatorConfig)
        ensures
            !c.enabled,
            c.cookie@.len() == 0,
            c.uid@.len() == 0,
            c.region@ == "os_usa"@,
    {
        GameValidatorConfig {
            enabled: false,
            cookie: String::new(),
            uid: String::new(),
            region: "os_usa".to_owned(),
        }
    }
}

/// Code validation settings, one entry per game that can redeem codes.
#[derive(Debug, Clone)]
pub struct ValidatorConfig {
    /// Whether active validation is enabled.
    pub enabled: bool,
    /// Validation interval in seconds.
    pub interval_secs: u64,
    pub genshin: GameValidatorConfig,
    pub starrail: GameValidatorConfig,
    pub zenless: GameValidatorConfig,
    pub themis: GameValidatorConfig,
}

/// Whether a game's settings are the defaults.
pub open spec fn is_default_game_config(c: GameValidatorConfig) -> bool {
    !c.enabled && c.cookie@.len() == 0 && c.uid@.len() == 0 && c.region@ == "os_usa"@
}

impl Default for ValidatorConfig {
    fn default() -> (c: ValidatorConfig)
        ensures
            !c.enabled,
            c.interval_secs == 1800,
            is_default_game_config(c.genshin),
            is_default_game_config(c.starrail),
            is_default_game_config(c.zenless),
            is_default_game_config(c.themis),
    {
        ValidatorConfig {
            enabled: false,
            interval_secs: 1800,
            genshin: GameValidatorConfig::default(),
            starrail: GameValidatorConfig::default(),
            zenless: GameValidatorConfig::default(),
            themis: GameValidatorConfig::default(),
        }
    }
}

impl ValidatorConfig {
    /// The settings of a game; Honkai Impact 3rd has no redemption API and so none.
    pub fn game_config(&self, game: Game) -> (r: Option<&GameValidatorConfig>)
        ensures
            game == Game::Genshin ==> r == Some(&self.genshin),
            game == Game::Starrail ==> r == Some(&self.starrail),
            game == Game::Zenless ==> r == Some(&self.zenless),
            game == Game::Honkai ==> r is None,
            game == Game::Themis ==> r == Some(&self.themis),
            r is Some <==> spec_game_config(*self, game) is Some,
            r is Some ==> spec_game_config(*self, game) == Some(*r->0),
    {
        match game {
            Game::Genshin => Some(&self.genshin),
            Game::Starrail => Some(&self.starrail),
            Game::Zenless => Some(&self.zenless),
            Game::Honkai => None,
            Game::Themis => Some(&self.themis),
        }
    }
}

/// The settings that a validator configuration holds for a game.
pub open spec fn spec_game_config(v: ValidatorConfig, game: Game) -> Option<GameValidatorConfig> {
    match game {
        Game::Genshin => Some(v.genshin),
        Game::Starrail => Some(v.starrail),
        Game::Zenless => Some(v.zenless),
        Game::Honkai => None,
        Game::Themis => Some(v.themis),
    }
}

/// Validator settings exist for exactly the games that have a redeem endpoint.
pub proof fn law_settings_follow_redeem_support(v: ValidatorConfig, game: Game)
    ensures
        spec_game_config(v, game) is Some <==> spec_redeem_endpoint(game) is Some,
{
}

/// Scraping schedule.
#[derive(Debug, Clone)]
pub struct ScraperConfig {
    /// Whether scraping is enabled.
    pub enabled: bool,
    /// Scrape interval in seconds.
    pub interval_secs: u64,
}

impl Default for ScraperConfig {
    fn default() -> (c: ScraperConfig)
        ensures
            !c.enabled,
            c.interval_secs == 300,
    {
        ScraperConfig { enabled: false, interval_secs: 300 }
    }
}

} // verus!
