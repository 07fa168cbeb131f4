//! HTTP-facing rules: client classification, error bodies and route logic.

pub mod error;
pub mod routes;

use vstd::prelude::*;
use crate::text::{
    ascii_lower, chars_of, contains, has_infix, has_prefix, lemma_ascii_lower_idempotent,
    starts_with, to_ascii_lowercase,
};

verus! {

/// The kind of client a user agent names, ignoring ASCII case.
pub open spec fn spec_classify_user_agent(ua: Seq<char>) -> Seq<char> {
    let l = ascii_lower(ua);
    if has_prefix(l, "mozilla/"@) {
        "browser"@
    } else if has_prefix(l, "curl/"@) {
        "curl"@
    } else if has_infix(l, "python"@) {
        "python"@
    } else if has_prefix(l, "go-http-client/"@) {
        "go"@
    } else if has_infix(l, "axios"@) || has_prefix(l, "node"@) {
        "node"@
    } else if has_infix(l, "bot"@) || has_infix(l, "spider"@) || has_infix(l, "crawler"@) {
        "bot"@
    } else if l.len() == 0 {
        "none"@
    } else {
        "other"@
    }
}

fn lower_starts_with(l: &Vec<char>, p: &str) -> (r: bool)
    ensures
        r == has_prefix(l@, p@),
{
    let pv = chars_of(p);
    starts_with(l, &pv)
}

fn lower_contains(l: &Vec<char>, p: &str) -> (r: bool)
    ensures
        r == has_infix(l@, p@),
{
    let pv = chars_of(p);
    contains(l, &pv)
}

/// The kind of client a user agent names, for the per-client request
/// metrics: browsers, curl, Python, Go, Node, bots, no agent, or other.
pub fn classify_user_agent(ua: &str) -> (r: &'static str)
    ensures
        r@ == spec_classify_user_agent(ua@),
{
    let l = to_ascii_lowercase(ua);
    if lower_starts_with(&l, "mozilla/") {
        "browser"
    } else if lower_starts_with(&l, "curl/") {
        "curl"
    } else if lower_contains(&l, "python") {
        "python"
    } else if lower_starts_with(&l, "go-http-client/") {
        "go"
    } else if lower_contains(&l, "axios") || lower_starts_with(&l, "node") {
        "node"
    } else if lower_contains(&l, "bot") || lower_contains(&l, "spider") || lower_contains(&l, "crawler") {
        "bot"
    } else if l.len() == 0 {
        "none"
    } else {
        "other"
    }
}

/// The classification ignores ASCII case: an agent and its lower-case form
/// are the same kind of client.
pub proof fn law_classification_ignores_case(ua: Seq<char>)
    ensures
        spec_classify_user_agent(ascii_lower(ua)) == spec_classify_user_agent(ua),
{
    lemma_ascii_lower_idempotent(ua);
}

/// Whether an agent names a bot: its lower-case form holds `bot`, `spider`
/// or `crawler`.
pub open spec fn names_a_bot(ua: Seq<char>) -> bool {
    let l = ascii_lower(ua);
    has_infix(l, "bot"@) || has_infix(l, "spider"@) || has_infix(l, "crawler"@)
}

/// Whether an agent is one of the named clients that are told apart before
/// bots: a browser, curl, Python, Go or Node.
pub open spec fn is_named_client(kind: Seq<char>) -> bool {
    kind == "browser"@ || kind == "curl"@ || kind == "python"@ || kind == "go"@ || kind == "node"@
}

/// An agent that names a bot, spider or crawler is counted as a bot unless
/// it is a browser, curl, Python, Go or Node client; and only such an agent
/// is counted as a bot.
pub proof fn law_crawlers_are_bots(ua: Seq<char>)
    ensures
        names_a_bot(ua) ==> spec_classify_user_agent(ua) == "bot"@ || is_named_client(spec_classify_user_agent(ua)),
        spec_classify_user_agent(ua) == "bot"@ ==> names_a_bot(ua),
{
    lemma_kinds_have_distinct_names();
}

/// Each kind of client is told only to agents that bear its mark (ASCII case
/// ignored): a browser's agent starts with `mozilla/`, curl's with `curl/`,
/// Go's with `go-http-client/`, Python's holds `python`, Node's holds `axios`
/// or starts with `node`; no agent is `none` but the empty one, and `other`
/// bears none of the marks.
pub proof fn law_kinds_bear_their_marks(ua: Seq<char>)
    ensures
        spec_classify_user_agent(ua) == "browser"@ ==> has_prefix(ascii_lower(ua), "mozilla/"@),
        spec_classify_user_agent(ua) == "curl"@ ==> has_prefix(ascii_lower(ua), "curl/"@),
        spec_classify_user_agent(ua) == "python"@ ==> has_infix(ascii_lower(ua), "python"@),
        spec_classify_user_agent(ua) == "go"@ ==> has_prefix(ascii_lower(ua), "go-http-client/"@),
        spec_classify_user_agent(ua) == "node"@ ==> has_infix(ascii_lower(ua), "axios"@) || has_prefix(
            ascii_lower(ua),
            "node"@,
        ),
        spec_classify_user_agent(ua) == "none"@ <==> ua.len() == 0,
        spec_classify_user_agent(ua) == "other"@ ==> !names_a_bot(ua) && ua.len() > 0 && !has_prefix(
            ascii_lower(ua),
            "mozilla/"@,
        ) && !has_prefix(ascii_lower(ua), "curl/"@) && !has_infix(ascii_lower(ua), "python"@) && !has_prefix(
            ascii_lower(ua),
            "go-http-client/"@,
        ) && !has_infix(ascii_lower(ua), "axios"@) && !has_prefix(ascii_lower(ua), "node"@),
{
    lemma_kinds_have_distinct_names();
    reveal_strlit("mozilla/");
    reveal_strlit("curl/");
    reveal_strlit("python");
    reveal_strlit("go-http-client/");
    reveal_strlit("axios");
    reveal_strlit("node");
    reveal_strlit("bot");
    reveal_strlit("spider");
    reveal_strlit("crawler");
    assert(ascii_lower(ua).len() == ua.len());
    if ua.len() == 0 {
        assert(!has_prefix(ascii_lower(ua), "mozilla/"@));
    }
}

proof fn lemma_kinds_have_distinct_names()
    ensures
        "bot"@.len() == 3 && "browser"@.len() == 7 && "curl"@.len() == 4 && "python"@.len() == 6,
        "go"@.len() == 2 && "node"@.len() == 4 && "none"@.len() == 4 && "other"@.len() == 5,
        "node"@ != "none"@ && "curl"@ != "none"@ && "curl"@ != "node"@,
{
    reveal_strlit("browser");
    reveal_strlit("curl");
    reveal_strlit("python");
    reveal_strlit("go");
    reveal_strlit("node");
    reveal_strlit("bot");
    reveal_strlit("none");
    reveal_strlit("other");
    assert("node"@[2] != "none"@[2]);
    assert("curl"@[0] != "none"@[0] && "curl"@[0] != "node"@[0]);
}

/// The client label of a request's metrics: the kind of its user agent
/// when it has one readable as text, else `none`.
pub fn client_label(user_agent: Option<&str>) -> (r: &'static str)
    ensures
        r@ == match user_agent {
            Some(ua) => spec_classify_user_agent(ua@),
            None => "none"@,
        },
{
    match user_agent {
        Some(ua) => classify_user_agent(ua),
        None => "none",
    }
}

/// The endpoint label of a request's metrics: the route it matched, or
/// `unknown`.
pub fn endpoint_label(matched_path: Option<&str>) -> (r: String)
    ensures
        r@ == match matched_path {
            Some(p) => p@,
            None => "unknown"@,
        },
{
    match matched_path {
        Some(p) => p.to_string(),
        None => "unknown".to_string(),
    }
}

} // verus!
