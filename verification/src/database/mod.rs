//! Stored records.

pub mod redemption_code;
