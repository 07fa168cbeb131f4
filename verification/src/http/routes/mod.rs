//! Route logic.

pub mod calendar;
pub mod codes;
pub mod news;

use vstd::prelude::*;
use crate::games::{spec_slug, Game};
use crate::http::error::{ApiError, ApiErrorCode};
use crate::text::concat_str;

verus! {

/// The payload of an upstream answer: a non-zero return code or a missing
/// payload is a `500` with code `3001`, naming which API failed.
pub fn upstream_data<T>(retcode: i32, data: Option<T>, api: &str) -> (r: Result<T, ApiError>)
    ensures
        retcode == 0 && data is Some ==> r == Ok::<T, ApiError>(data->0),
        retcode != 0 ==> r is Err && r->Err_0.error@ == api@ + " API returned an error"@,
        retcode == 0 && data is None ==> r is Err && r->Err_0.error@ == api@ + " API returned no data"@,
        r is Err ==> r->Err_0.status_code == 500 && r->Err_0.status@ == "Internal Server Error"@
            && r->Err_0.error_code.0 == 3001,
{
    if retcode != 0 {
        let msg = concat_str(api, " API returned an error");
        return Err(ApiError::internal_server_error(ApiErrorCode::upstream_error(), msg.as_str()));
    }
    match data {
        Some(d) => Ok(d),
        None => {
            let msg = concat_str(api, " API returned no data");
            Err(ApiError::internal_server_error(ApiErrorCode::upstream_error(), msg.as_str()))
        },
    }
}

/// The path of a game's code list.
pub open spec fn spec_codes_path(g: Game) -> Seq<char> {
    "/mihoyo/"@ + spec_slug(g) + "/codes"@
}

/// The code list endpoints that the API's root lists, one per game in the
/// order Genshin Impact, Honkai: Star Rail, Zenless Zone Zero, Honkai Impact
/// 3rd, Tears of Themis.
pub fn root_endpoints() -> (r: Vec<String>)
    ensures
        r@.len() == 5,
        r@[0]@ == spec_codes_path(Game::Genshin),
        r@[1]@ == spec_codes_path(Game::Starrail),
        r@[2]@ == spec_codes_path(Game::Zenless),
        r@[3]@ == spec_codes_path(Game::Honkai),
        r@[4]@ == spec_codes_path(Game::Themis),
{
    let games = [Game::Genshin, Game::Starrail, Game::Zenless, Game::Honkai, Game::Themis];
    let mut r: Vec<String> = Vec::new();
    let mut i: usize = 0;
    while i < 5
        invariant
            i <= 5,
            games@ == seq![Game::Genshin, Game::Starrail, Game::Zenless, Game::Honkai, Game::Themis],
            r@.len() == i,
            forall|j: int| 0 <= j < i ==> (#[trigger] r@[j])@ == spec_codes_path(games@[j]),
        decreases 5 - i,
    {
        let a = concat_str("/mihoyo/", games[i].slug());
        let path = concat_str(a.as_str(), "/codes");
        r.push(path);
        i = i + 1;
    }
    r
}

} // verus!
