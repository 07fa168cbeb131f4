//! The code list route: client keys for rate limiting and the active/inactive split.

use vstd::prelude::*;
use crate::database::redemption_code::{response_of, RedemptionCode, RedemptionCodeResponse};
use crate::games::{spec_from_slug, Game};
use crate::http::error::{ApiError, ApiErrorCode};
use crate::text::{
    chars_of, concat_str, free_of, lemma_split_append_free, lemma_split_push_sep, split_on, trim,
    trim_range,
};

verus! {

/// What a request carries under a header name.
#[derive(Debug, Clone)]
pub enum HeaderText {
    /// The header is absent.
    Absent,
    /// The header is present but not visible ASCII text.
    Opaque,
    /// The header's text.
    Text(String),
}

/// The first entry of a comma-separated list, trimmed.
pub open spec fn spec_forwarded_first(s: Seq<char>) -> Seq<char> {
    trim(split_on(s, ',')[0])
}

proof fn lemma_split_first_kept(a: Seq<char>, b: Seq<char>, sep: char)
    requires
        split_on(a, sep).len() >= 2,
    ensures
        split_on(a + b, sep).len() >= 2,
        split_on(a + b, sep)[0] == split_on(a, sep)[0],
    decreases b.len(),
{
    if b.len() == 0 {
        assert(a + b =~= a);
    } else {
        lemma_split_first_kept(a, b.drop_last(), sep);
        assert((a + b).drop_last() =~= a + b.drop_last());
    }
}

proof fn lemma_split_first(s: Seq<char>, k: int, sep: char)
    requires
        0 <= k <= s.len(),
        free_of(s.subrange(0, k), sep),
        k < s.len() ==> s[k] == sep,
    ensures
        split_on(s, sep)[0] == s.subrange(0, k),
{
    let a = s.subrange(0, k);
    lemma_split_append_free(Seq::empty(), a, sep);
    assert(Seq::<char>::empty() + a =~= a);
    assert(split_on(Seq::<char>::empty(), sep) =~= seq![Seq::<char>::empty()]);
    if k == s.len() {
        assert(a =~= s);
    } else {
        lemma_split_push_sep(a, sep);
        let rest = s.subrange(k + 1, s.len() as int);
        assert(a.push(sep) + rest =~= s);
        lemma_split_first_kept(a.push(sep), rest, sep);
    }
}

/// The first entry of a comma-separated header such as `X-Forwarded-For`, trimmed.
pub fn forwarded_first(s: &str) -> (r: String)
    ensures
        r@ == spec_forwarded_first(s@),
{
    let v = chars_of(s);
    let mut k: usize = 0;
    while k < v.len() && v[k] != ','
        invariant
            k <= v.len(),
            v@ == s@,
            free_of(v@.subrange(0, k as int), ','),
        decreases v.len() - k,
    {
        k = k + 1;
        assert(free_of(v@.subrange(0, k as int), ',')) by {
            assert forall|j: int| 0 <= j < k implies v@.subrange(0, k as int)[j] != ',' by {
                if j < k - 1 {
                    assert(v@.subrange(0, k as int)[j] == v@.subrange(0, k - 1)[j]);
                }
            }
        }
    }
    proof {
        lemma_split_first(s@, k as int, ',');
    }
    let t = trim_range(&v, 0, k);
    crate::text::string_of(&t)
}

/// The key a request is rate limited by: the Cloudflare or proxy header
/// (`CF-Connecting-IP`, or else `X-Real-IP`) when it is text; otherwise the
/// first entry of `X-Forwarded-For`; otherwise the peer address.
pub open spec fn spec_client_key(
    cf_connecting_ip: HeaderText,
    x_real_ip: HeaderText,
    x_forwarded_for: HeaderText,
    peer: Option<Seq<char>>,
) -> Option<Seq<char>> {
    let first = match cf_connecting_ip {
        HeaderText::Absent => x_real_ip,
        other => other,
    };
    match first {
        HeaderText::Text(s) => Some(s@),
        _ => match x_forwarded_for {
            HeaderText::Text(s) => Some(spec_forwarded_first(s@)),
            _ => peer,
        },
    }
}

/// The key a request is rate limited by; `None` when none can be found.
pub fn client_key(
    cf_connecting_ip: HeaderText,
    x_real_ip: HeaderText,
    x_forwarded_for: HeaderText,
    peer: Option<String>,
) -> (r: Option<String>)
    ensures
        crate::text::opt_view(r) == spec_client_key(
            cf_connecting_ip,
            x_real_ip,
            x_forwarded_for,
            crate::text::opt_view(peer),
        ),
{
    let first = match cf_connecting_ip {
        HeaderText::Absent => x_real_ip,
        other => other,
    };
    match first {
        HeaderText::Text(s) => Some(s),
        _ => match x_forwarded_for {
            HeaderText::Text(s) => Some(forwarded_first(s.as_str())),
            _ => peer,
        },
    }
}

/// The codes of a game, split into active and inactive ones.
#[derive(Debug, Clone)]
pub struct CodesResponse {
    pub active: Vec<RedemptionCodeResponse>,
    pub inactive: Vec<RedemptionCodeResponse>,
}

/// The codes with the given activity, in order.
pub open spec fn codes_with(codes: Seq<RedemptionCode>, active: bool) -> Seq<RedemptionCode>
    decreases codes.len(),
{
    if codes.len() == 0 {
        Seq::empty()
    } else if codes.last().active == active {
        codes_with(codes.drop_last(), active).push(codes.last())
    } else {
        codes_with(codes.drop_last(), active)
    }
}

/// The answer for each code, in order.
pub open spec fn responses_of(codes: Seq<RedemptionCode>) -> Seq<RedemptionCodeResponse> {
    Seq::new(codes.len(), |i: int| response_of(codes[i]))
}

/// The code list answer: active codes first list, inactive codes second,
/// each in stored order.
pub fn split_codes(codes: Vec<RedemptionCode>) -> (r: CodesResponse)
    ensures
        r.active@ == responses_of(codes_with(codes@, true)),
        r.inactive@ == responses_of(codes_with(codes@, false)),
{
    let ghost all = codes@;
    let mut active: Vec<RedemptionCodeResponse> = Vec::new();
    let mut inactive: Vec<RedemptionCodeResponse> = Vec::new();
    for c in it: codes.into_iter()
        invariant
            it.seq() == all,
            active@ == responses_of(codes_with(all.take(it.index() as int), true)),
            inactive@ == responses_of(codes_with(all.take(it.index() as int), false)),
    {
        let ghost k = it.index() as int;
        proof {
            assert(all.take(k + 1).drop_last() =~= all.take(k));
        }
        if c.active {
            active.push(RedemptionCodeResponse::from(c));
            assert(active@ =~= responses_of(codes_with(all.take(k + 1), true)));
        } else {
            inactive.push(RedemptionCodeResponse::from(c));
            assert(inactive@ =~= responses_of(codes_with(all.take(k + 1), false)));
        }
    }
    proof {
        assert(all.take(all.len() as int) =~= all);
    }
    CodesResponse { active, inactive }
}

/// Every code is listed exactly once: the active and inactive lists together
/// are as long as the stored list.
pub proof fn law_codes_partitioned(codes: Seq<RedemptionCode>)
    ensures
        codes_with(codes, true).len() + codes_with(codes, false).len() == codes.len(),
    decreases codes.len(),
{
    if codes.len() > 0 {
        law_codes_partitioned(codes.drop_last());
    }
}

/// The game a code route names, or a `404` with code `1000` whose message
/// names an unknown slug.
pub fn resolve_code_game(slug: &str) -> (r: Result<Game, ApiError>)
    ensures
        spec_from_slug(slug@) matches Some(g) ==> r == Ok::<Game, ApiError>(g),
        spec_from_slug(slug@) is None ==> r is Err && r->Err_0.status_code == 404
            && r->Err_0.status@ == "Not Found"@ && r->Err_0.error_code.0 == 1000 && r->Err_0.error@ == "Unknown game: "@ + slug@,
{
    match Game::from_slug(slug) {
        Some(g) => Ok(g),
        None => {
            let msg = concat_str("Unknown game: ", slug);
            Err(ApiError::not_found(ApiErrorCode::unknown_game(), msg.as_str()))
        },
    }
}

/// The cache key of a code list request.
pub fn codes_cache_key(game_slug: &str) -> (r: String)
    ensures
        r@ == "/mihoyo/"@ + game_slug@ + "/codes"@,
{
    let a = concat_str("/mihoyo/", game_slug);
    concat_str(a.as_str(), "/codes")
}

} // verus!
