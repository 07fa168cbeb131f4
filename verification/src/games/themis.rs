//! Tears of Themis endpoints.

use vstd::prelude::*;

verus! {

/// Code redemption endpoint.
pub const REDEEM_API: &'static str = "https://public-operation-common.hoyoverse.com/common/apicdkey/api/webExchangeCdkey";

/// Game business identifier sent with redemptions.
pub const GAME_BIZ: &'static str = "nxx_global";

} // verus!
