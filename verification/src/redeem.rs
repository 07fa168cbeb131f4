//! Redeeming a code by hand: which endpoint and settings a game uses, the
//! query sent, and what HoYoverse's answer means.

use vstd::prelude::*;
use crate::config::{spec_game_config, GameValidatorConfig, ValidatorConfig};
use crate::games::{spec_display_name, spec_from_slug, spec_game_biz, spec_redeem_endpoint, Game};
use crate::text::str_eq;

verus! {

/// The region a game account is assumed to be on when the settings name none.
pub fn default_region() -> (r: String)
    ensures
        r@ == "os_usa"@,
{
    "os_usa".to_string()
}

/// HoYoverse's answer to a redemption.
#[derive(Debug, Clone)]
pub struct RedeemResponse {
    pub retcode: i32,
    pub message: String,
}

/// What a redemption return code means.
pub open spec fn spec_interpret(retcode: i32) -> Seq<char> {
    if retcode == 0 {
        "success — code redeemed"@
    } else if retcode == -2017 || retcode == -2018 {
        "already redeemed (code is active)"@
    } else if retcode == -2021 || retcode == -2011 {
        "game level too low (code is active)"@
    } else if retcode == -2001 {
        "expired"@
    } else if retcode == -1065 || retcode == -2003 || retcode == -2004 || retcode == -2014 {
        "invalid / does not exist"@
    } else if retcode == -2006 {
        "max usage limit reached (invalid)"@
    } else if retcode == -2016 {
        "rate limited (cooldown)"@
    } else if retcode == -1071 {
        "invalid cookies"@
    } else if retcode == -1073 {
        "no game account bound to this HoYoLab account"@
    } else if retcode == -1075 {
        "no character on this server"@
    } else {
        "unknown"@
    }
}

/// Whether a return code says that the cookie, uid or region is wrong.
pub open spec fn spec_is_credentials_issue(retcode: i32) -> bool {
    retcode == -1071 || retcode == -1073 || retcode == -1075
}

impl RedeemResponse {
    /// What the answer's return code means.
    pub fn interpret(&self) -> (r: &'static str)
        ensures
            r@ == spec_interpret(self.retcode),
    {
        match self.retcode {
            0 => "success — code redeemed",
            -2017 | -2018 => "already redeemed (code is active)",
            -2021 | -2011 => "game level too low (code is active)",
            -2001 => "expired",
            -1065 | -2003 | -2004 | -2014 => "invalid / does not exist",
            -2006 => "max usage limit reached (invalid)",
            -2016 => "rate limited (cooldown)",
            -1071 => "invalid cookies",
            -1073 => "no game account bound to this HoYoLab account",
            -1075 => "no character on this server",
            _ => "unknown",
        }
    }

    /// Whether the answer says that the account settings are wrong.
    pub fn is_credentials_issue(&self) -> (r: bool)
        ensures
            r == spec_is_credentials_issue(self.retcode),
    {
        self.retcode == -1071 || self.retcode == -1073 || self.retcode == -1075
    }
}

/// The answers that say the account is wrong: its cookies are invalid, no
/// game account is bound to it, or it has no character on this server.
pub open spec fn is_account_problem(meaning: Seq<char>) -> bool {
    ||| meaning == "invalid cookies"@
    ||| meaning == "no game account bound to this HoYoLab account"@
    ||| meaning == "no character on this server"@
}

/// An answer is a credentials issue exactly when what its return code means
/// is an account problem: invalid cookies, no game account bound, or no
/// character on this server.
pub proof fn law_credentials_issue_is_account_problem(r: RedeemResponse)
    ensures
        spec_is_credentials_issue(r.retcode) <==> is_account_problem(spec_interpret(r.retcode)),
{
    reveal_strlit("success — code redeemed");
    reveal_strlit("already redeemed (code is active)");
    reveal_strlit("game level too low (code is active)");
    reveal_strlit("expired");
    reveal_strlit("invalid / does not exist");
    reveal_strlit("max usage limit reached (invalid)");
    reveal_strlit("rate limited (cooldown)");
    reveal_strlit("invalid cookies");
    reveal_strlit("no game account bound to this HoYoLab account");
    reveal_strlit("no character on this server");
    reveal_strlit("unknown");
    assert("success — code redeemed"@.len() == 23);
    assert("already redeemed (code is active)"@.len() == 33);
    assert("game level too low (code is active)"@.len() == 35);
    assert("expired"@.len() == 7);
    assert("invalid / does not exist"@.len() == 24);
    assert("max usage limit reached (invalid)"@.len() == 33);
    assert("rate limited (cooldown)"@.len() == 23);
    assert("invalid cookies"@.len() == 15);
    assert("no game account bound to this HoYoLab account"@.len() == 45);
    assert("no character on this server"@.len() == 27);
    assert("unknown"@.len() == 7);
}

/// Where and as what a game's codes are redeemed.
#[derive(Debug, Clone, Copy)]
pub struct GameInfo {
    pub endpoint: &'static str,
    pub game_biz: &'static str,
    pub display_name: &'static str,
}

/// Whether `slug` names a game whose codes can be redeemed.
pub open spec fn redeemable_slug(slug: Seq<char>) -> bool {
    spec_from_slug(slug) matches Some(g) && spec_redeem_endpoint(g) is Some
}

/// The endpoint, business id and name of the game `slug` names; `None` for
/// an unknown slug and for a game without a redemption endpoint.
pub fn game_info(slug: &str) -> (r: Option<GameInfo>)
    ensures
        r is Some <==> redeemable_slug(slug@),
        r matches Some(info) ==> {
            let g = spec_from_slug(slug@)->0;
            &&& Some(info.endpoint@) == spec_redeem_endpoint(g)
            &&& Some(info.game_biz@) == spec_game_biz(g)
            &&& info.display_name@ == spec_display_name(g)
        },
{
    match Game::from_slug(slug) {
        Some(g) => match (g.redeem_endpoint(), g.game_biz()) {
            (Some(endpoint), Some(game_biz)) => Some(
                GameInfo { endpoint, game_biz, display_name: g.display_name() },
            ),
            _ => None,
        },
        None => None,
    }
}

/// The account settings of the game `slug` names; `None` for an unknown slug
/// and for a game without settings.
pub fn game_credentials<'a>(config: &'a ValidatorConfig, slug: &str) -> (r: Option<&'a GameValidatorConfig>)
    ensures
        r is Some <==> redeemable_slug(slug@),
        r is Some ==> Some(*r->0) == spec_game_config(*config, spec_from_slug(slug@)->0),
{
    match Game::from_slug(slug) {
        Some(g) => config.game_config(g),
        None => None,
    }
}

/// Whether a redemption of the game `slug` sends HoYoverse's Tears of Themis
/// site as its referer.
pub fn needs_referer(slug: &str) -> (r: bool)
    ensures
        r == (slug@ == "themis"@),
{
    str_eq(slug, "themis")
}

/// The query parameters of a redemption of `code` for the game `slug`: the
/// code, the account, English, the business id and the time, and for
/// Genshin Impact the page language as well.
pub open spec fn spec_redeem_params(
    slug: Seq<char>,
    code: Seq<char>,
    uid: Seq<char>,
    region: Seq<char>,
    game_biz: Seq<char>,
    t: Seq<char>,
) -> Seq<(Seq<char>, Seq<char>)> {
    let base = seq![
        ("cdkey"@, code),
        ("uid"@, uid),
        ("region"@, region),
        ("lang"@, "en"@),
        ("game_biz"@, game_biz),
        ("t"@, t),
    ];
    if slug == "genshin"@ {
        base.push(("sLangKey"@, "en-us"@))
    } else {
        base
    }
}

/// The views of a list of string pairs.
pub open spec fn pair_strings(s: Seq<(String, String)>) -> Seq<(Seq<char>, Seq<char>)> {
    Seq::new(s.len(), |i: int| (s[i].0@, s[i].1@))
}

/// The query parameters of a redemption.
pub fn redeem_params(
    slug: &str,
    code: &str,
    uid: &str,
    region: &str,
    game_biz: &str,
    t: &str,
) -> (r: Vec<(String, String)>)
    ensures
        pair_strings(r@) == spec_redeem_params(slug@, code@, uid@, region@, game_biz@, t@),
{
    let mut r: Vec<(String, String)> = Vec::new();
    r.push(("cdkey".to_string(), code.to_string()));
    r.push(("uid".to_string(), uid.to_string()));
    r.push(("region".to_string(), region.to_string()));
    r.push(("lang".to_string(), "en".to_string()));
    r.push(("game_biz".to_string(), game_biz.to_string()));
    r.push(("t".to_string(), t.to_string()));
    if str_eq(slug, "genshin") {
        r.push(("sLangKey".to_string(), "en-us".to_string()));
    }
    assert(pair_strings(r@) =~= spec_redeem_params(slug@, code@, uid@, region@, game_biz@, t@));
    r
}

/// `game_info` and `game_credentials` agree: a slug has redemption details
/// exactly when it has account settings, and both belong to the game the
/// slug names.
pub proof fn law_info_matches_credentials(config: ValidatorConfig, slug: Seq<char>)
    ensures
        redeemable_slug(slug) <==> (spec_from_slug(slug) matches Some(g) && spec_game_config(config, g) is Some),
{
}

} // verus!
