//! Verified core of the HoYoverse redemption-code, calendar and news API.
//!
//! The HTTP server, database access and upstream requests live in the
//! accompanying application crate; this library holds the rules that decide
//! what those parts send and answer.

pub mod text;
pub mod http;
pub mod games;
pub mod database;
pub mod config;
pub mod clock;
pub mod error;
pub mod redeem;
pub mod ratelimit;
pub mod mutex;
pub mod crons;
pub mod notifier;
pub mod probe;
