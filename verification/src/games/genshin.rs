//! Genshin Impact endpoints.

use vstd::prelude::*;

verus! {

/// Code redemption endpoint.
pub const REDEEM_API: &'static str = "https://sg-hk4e-api.hoyoverse.com/common/apicdkey/api/webExchangeCdkey";

/// Game business identifier sent with redemptions.
pub const GAME_BIZ: &'static str = "hk4e_global";

/// Activity calendar endpoint.
pub const CALENDAR_API: &'static str = "https://sg-public-api.hoyolab.com/event/game_record/genshin/api/act_calendar";

} // verus!
