//! Zenless Zone Zero endpoints.

use vstd::prelude::*;

verus! {

/// Code redemption endpoint.
pub const REDEEM_API: &'static str = "https://public-operation-nap.hoyoverse.com/common/apicdkey/api/webExchangeCdkey";

/// Game business identifier sent with redemptions.
pub const GAME_BIZ: &'static str = "nap_global";

/// Activity calendar endpoint.
pub const ACTIVITY_CALENDAR_API: &'static str = "https://sg-act-public-api.hoyolab.com/event/game_record_zzz/api/zzz/activity_calendar";

/// Banner calendar endpoint.
pub const GACHA_CALENDAR_API: &'static str = "https://sg-act-public-api.hoyolab.com/event/game_record_zzz/api/zzz/gacha_calendar";

/// Deadly Assault schedule endpoint.
pub const DEADLY_ASSAULT_API: &'static str = "https://sg-act-nap-api.hoyolab.com/event/game_record_zzz/api/zzz/mem_detail";

/// Threshold Simulation schedule endpoint.
pub const THRESHOLD_SIMULATION_API: &'static str = "https://sg-act-nap-api.hoyolab.com/event/game_record_zzz/api/zzz/void_front_battle_period_abstract_info";

/// Shiyu Defense schedule endpoint.
pub const SHIYU_DEFENSE_API: &'static str = "https://sg-act-nap-api.hoyolab.com/event/game_record_zzz/api/zzz/hadal_info_v2";

/// Annihilation Simulacrum schedule endpoint.
pub const ANNIHILATION_SIMULACRUM_API: &'static str = "https://sg-act-nap-api.hoyolab.com/event/game_record_zzz/api/zzz/holo_boss_detail";

} // verus!
