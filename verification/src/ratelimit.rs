//! Per-client rate limiting: which address a request is counted against,
//! the key it is counted under, and how the limiter's answer reads.

use vstd::prelude::*;
use crate::text::{append_str, string_of};

verus! {

/// The limiter's verdict on one request.
#[derive(Debug, Clone)]
pub struct RateLimitResponse {
    pub remaining: i64,
    pub reset: i64,
    pub limit: i64,
    pub used: i64,
    pub resource: String,
}

impl RateLimitResponse {
    /// Whether the request may go ahead: the limiter left a count of zero or more.
    pub fn is_allowed(&self) -> (r: bool)
        ensures
            r == (self.remaining >= 0),
    {
        self.remaining >= 0
    }
}

/// The verdict read from the limiter script's reply `result` (remaining
/// count, then reset time) for one request on `resource` under the limit
/// `max_requests`.
pub fn rate_limit_response(resource: String, max_requests: i64, result: &[i64]) -> (r: RateLimitResponse)
    requires
        result@.len() >= 2,
    ensures
        r.remaining == result@[0],
        r.reset == result@[1],
        r.limit == max_requests,
        r.used == 1,
        r.resource@ == resource@,
{
    RateLimitResponse { remaining: result[0], reset: result[1], limit: max_requests, used: 1, resource }
}

/// An IP address, as its number.
#[derive(Debug, Clone, Copy, PartialEq, Eq, Structural)]
pub enum IpAddress {
    V4(u32),
    V6(u128),
}

/// The address a client is counted as: an IPv4 address written in IPv6 as
/// `::ffff:a.b.c.d` counts as the IPv4 address `a.b.c.d`.
pub open spec fn spec_canonical_ip(ip: IpAddress) -> IpAddress {
    match ip {
        IpAddress::V6(bits) => if bits / 0x1_0000_0000 == 0xffff {
            IpAddress::V4((bits % 0x1_0000_0000) as u32)
        } else {
            ip
        },
        IpAddress::V4(_) => ip,
    }
}

/// The address a client is counted as.
pub fn canonical_ip(ip: IpAddress) -> (r: IpAddress)
    ensures
        r == spec_canonical_ip(ip),
{
    match ip {
        IpAddress::V6(bits) => if bits / 0x1_0000_0000 == 0xffff {
            IpAddress::V4((bits % 0x1_0000_0000) as u32)
        } else {
            ip
        },
        IpAddress::V4(_) => ip,
    }
}

/// Counting an address as its canonical form twice changes nothing more:
/// a rate-limit key made from an already counted address is the same key.
pub proof fn law_canonical_ip_idempotent(ip: IpAddress)
    ensures
        spec_canonical_ip(spec_canonical_ip(ip)) == spec_canonical_ip(ip),
{
}

/// The address a request is counted against: the first of the addresses
/// read from `CF-Connecting-IP`, `X-Real-IP` and the first entry of
/// `X-Forwarded-For` that parsed, in canonical form.
pub open spec fn spec_real_ip(
    cf_connecting_ip: Option<IpAddress>,
    x_real_ip: Option<IpAddress>,
    x_forwarded_for: Option<IpAddress>,
) -> Option<IpAddress> {
    match cf_connecting_ip {
        Some(ip) => Some(spec_canonical_ip(ip)),
        None => match x_real_ip {
            Some(ip) => Some(spec_canonical_ip(ip)),
            None => match x_forwarded_for {
                Some(ip) => Some(spec_canonical_ip(ip)),
                None => None,
            },
        },
    }
}

/// The address a request is counted against, from the addresses its
/// headers hold; `None` when none of them parsed.
pub fn real_ip(
    cf_connecting_ip: Option<IpAddress>,
    x_real_ip: Option<IpAddress>,
    x_forwarded_for: Option<IpAddress>,
) -> (r: Option<IpAddress>)
    ensures
        r == spec_real_ip(cf_connecting_ip, x_real_ip, x_forwarded_for),
{
    match cf_connecting_ip {
        Some(ip) => Some(canonical_ip(ip)),
        None => match x_real_ip {
            Some(ip) => Some(canonical_ip(ip)),
            None => match x_forwarded_for {
                Some(ip) => Some(canonical_ip(ip)),
                None => None,
            },
        },
    }
}

/// The address a request is counted against, `0.0.0.0` when its headers
/// name none.
pub fn client_ip(
    cf_connecting_ip: Option<IpAddress>,
    x_real_ip: Option<IpAddress>,
    x_forwarded_for: Option<IpAddress>,
) -> (r: IpAddress)
    ensures
        r == match spec_real_ip(cf_connecting_ip, x_real_ip, x_forwarded_for) {
            Some(ip) => ip,
            None => IpAddress::V4(0),
        },
{
    match real_ip(cf_connecting_ip, x_real_ip, x_forwarded_for) {
        Some(ip) => ip,
        None => IpAddress::V4(0),
    }
}

/// The key a client's requests on a resource are counted under.
pub open spec fn spec_rate_limit_key(ip: Seq<char>, resource: Seq<char>) -> Seq<char> {
    "ratelimit:"@ + ip + ":"@ + resource
}

/// The key a client's requests on `resource` are counted under, with the
/// client's canonical address written as `ip`.
pub fn rate_limit_key(ip: &str, resource: &str) -> (r: String)
    ensures
        r@ == spec_rate_limit_key(ip@, resource@),
{
    let mut v: Vec<char> = Vec::new();
    append_str(&mut v, "ratelimit:");
    append_str(&mut v, ip);
    append_str(&mut v, ":");
    append_str(&mut v, resource);
    string_of(&v)
}

} // verus!
