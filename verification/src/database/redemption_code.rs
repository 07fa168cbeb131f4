//! Redemption codes as stored and as answered.

use vstd::prelude::*;

verus! {

/// A stored redemption code; `date` is when it was first seen, in
/// milliseconds since the Unix epoch.
#[derive(Debug, Clone)]
pub struct RedemptionCode {
    pub code: String,
    pub active: bool,
    pub date: i64,
    pub rewards: Vec<String>,
    pub source: String,
}

/// A redemption code as the API answers it: the code and its rewards.
#[derive(Debug, Clone)]
pub struct RedemptionCodeResponse {
    pub code: String,
    pub rewards: Vec<String>,
}

/// The answer for a stored code.
pub open spec fn response_of(c: RedemptionCode) -> RedemptionCodeResponse {
    RedemptionCodeResponse { code: c.code, rewards: c.rewards }
}

impl From<RedemptionCode> for RedemptionCodeResponse {
    fn from(code: RedemptionCode) -> (r: RedemptionCodeResponse) {
        RedemptionCodeResponse { code: code.code, rewards: code.rewards }
    }
}

impl vstd::std_specs::convert::FromSpecImpl<RedemptionCode> for RedemptionCodeResponse {
    open spec fn obeys_from_spec() -> bool {
        true
    }

    open spec fn from_spec(code: RedemptionCode) -> RedemptionCodeResponse {
        response_of(code)
    }
}

} // verus!
