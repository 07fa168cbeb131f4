//! The calendar probe: a command-line check of the three calendar
//! endpoints that prints, section by section, what HoYoLab answers.

pub mod genshin;
pub mod starrail;
pub mod zenless;
pub mod codes;

use vstd::prelude::*;
use crate::games::Game;
use crate::text::{append_str, decimal, push_decimal, string_of};

verus! {

/// The Genshin Impact region assumed when the settings name none.
pub fn genshin_default_region() -> (r: String)
    ensures
        r@ == "os_usa"@,
{
    "os_usa".to_string()
}

/// The Honkai: Star Rail region assumed when the settings name none.
pub fn starrail_default_region() -> (r: String)
    ensures
        r@ == "prod_official_usa"@,
{
    "prod_official_usa".to_string()
}

/// The Zenless Zone Zero region assumed when the settings name none.
pub fn zenless_default_region() -> (r: String)
    ensures
        r@ == "prod_gf_us"@,
{
    "prod_gf_us".to_string()
}

/// The lines a report is made of, as character sequences.
pub open spec fn views(s: Seq<String>) -> Seq<Seq<char>> {
    s.map_values(|x: String| x@)
}

/// The lines of each item, one item after another.
pub open spec fn concat_lines<T>(items: Seq<T>, f: spec_fn(T) -> Seq<Seq<char>>) -> Seq<Seq<char>>
    decreases items.len(),
{
    if items.len() == 0 {
        Seq::empty()
    } else {
        concat_lines(items.drop_last(), f) + f(items.last())
    }
}

/// One more item adds its lines at the end.
pub proof fn lemma_concat_lines_step<T>(items: Seq<T>, i: int, f: spec_fn(T) -> Seq<Seq<char>>)
    requires
        0 <= i < items.len(),
    ensures
        concat_lines(items.take(i + 1), f) == concat_lines(items.take(i), f) + f(items[i]),
{
    assert(items.take(i + 1).drop_last() =~= items.take(i));
}

/// Appends a line holding the characters `v`.
pub fn push_line(out: &mut Vec<String>, v: &Vec<char>)
    ensures
        views(final(out)@) == views(old(out)@).push(v@),
{
    let s = string_of(v);
    out.push(s);
    assert(views(final(out)@) =~= views(old(out)@).push(v@));
}

/// The rule that follows a section title.
pub open spec fn section_rule() -> Seq<char> {
    "──────────────────────────────"@
}

/// The heading of a section listing `count` items.
pub open spec fn section_heading(title: Seq<char>, count: nat) -> Seq<char> {
    "── "@ + title + " ("@ + decimal(count) + ") "@ + section_rule()
}

/// Appends the heading of a section listing `count` items.
pub fn push_section_heading(out: &mut Vec<String>, title: &str, count: usize)
    ensures
        views(final(out)@) == views(old(out)@).push(section_heading(title@, count as nat)),
{
    let mut v: Vec<char> = Vec::new();
    append_str(&mut v, "── ");
    append_str(&mut v, title);
    append_str(&mut v, " (");
    push_decimal(&mut v, count as u64);
    append_str(&mut v, ") ");
    append_str(&mut v, "──────────────────────────────");
    push_line(out, &v);
}

/// Appends an empty line.
pub fn push_blank(out: &mut Vec<String>)
    ensures
        views(final(out)@) == views(old(out)@).push(Seq::empty()),
{
    let v: Vec<char> = Vec::new();
    push_line(out, &v);
}

/// The banner line that opens a game's report.
pub open spec fn game_banner(g: Game) -> Seq<char> {
    if g == Game::Genshin {
        "━━ Genshin Impact ━━━━━━━━━━━━━━━━━━━━━━━━━━━━━━━━━━━━━━━━━━━━━━━━━━━━━━━━━━"@
    } else if g == Game::Starrail {
        "━━ Honkai: Star Rail ━━━━━━━━━━━━━━━━━━━━━━━━━━━━━━━━━━━━━━━━━━━━━━━━━━━━━━━"@
    } else {
        "━━ Zenless Zone Zero ━━━━━━━━━━━━━━━━━━━━━━━━━━━━━━━━━━━━━━━━━━━━━━━━━━━━━━━"@
    }
}

/// Whether a game has a calendar the probe reads.
pub open spec fn probed_game(g: Game) -> bool {
    g == Game::Genshin || g == Game::Starrail || g == Game::Zenless
}

/// The lines that open a game's report: its banner line, the account and
/// the language, and an empty line.
pub open spec fn spec_header_lines(g: Game, uid: Seq<char>, region: Seq<char>, lang: Seq<char>) -> Seq<Seq<char>> {
    seq![
        game_banner(g),
        "UID:    "@ + uid,
        "Region: "@ + region,
        "Lang:   "@ + lang,
        Seq::empty(),
    ]
}

/// The lines that open a game's report.
pub fn header_lines(g: Game, uid: &str, region: &str, lang: &str) -> (r: Vec<String>)
    requires
        probed_game(g),
    ensures
        views(r@) == spec_header_lines(g, uid@, region@, lang@),
{
    let mut out: Vec<String> = Vec::new();
    let mut v: Vec<char> = Vec::new();
    if g == Game::Genshin {
        append_str(&mut v, "━━ Genshin Impact ━━━━━━━━━━━━━━━━━━━━━━━━━━━━━━━━━━━━━━━━━━━━━━━━━━━━━━━━━━");
    } else if g == Game::Starrail {
        append_str(&mut v, "━━ Honkai: Star Rail ━━━━━━━━━━━━━━━━━━━━━━━━━━━━━━━━━━━━━━━━━━━━━━━━━━━━━━━");
    } else {
        append_str(&mut v, "━━ Zenless Zone Zero ━━━━━━━━━━━━━━━━━━━━━━━━━━━━━━━━━━━━━━━━━━━━━━━━━━━━━━━");
    }
    push_line(&mut out, &v);
    let mut u: Vec<char> = Vec::new();
    append_str(&mut u, "UID:    ");
    append_str(&mut u, uid);
    push_line(&mut out, &u);
    let mut r: Vec<char> = Vec::new();
    append_str(&mut r, "Region: ");
    append_str(&mut r, region);
    push_line(&mut out, &r);
    let mut l: Vec<char> = Vec::new();
    append_str(&mut l, "Lang:   ");
    append_str(&mut l, lang);
    push_line(&mut out, &l);
    push_blank(&mut out);
    assert(views(out@) =~= spec_header_lines(g, uid@, region@, lang@));
    out
}

/// The complaint about a game whose settings lack a cookie or uid, naming
/// its section `[validator.{section}]`; `None` when both are set.
pub open spec fn spec_credentials_problem(section: Seq<char>, cookie: Seq<char>, uid: Seq<char>) -> Option<Seq<char>> {
    if cookie.len() == 0 || uid.len() == 0 {
        Some("cookie or uid is empty for [validator."@ + section + "] in config.toml"@)
    } else {
        None
    }
}

/// The complaint about a game whose settings lack a cookie or uid.
pub fn credentials_problem(section: &str, cookie: &str, uid: &str) -> (r: Option<String>)
    ensures
        match r {
            Some(s) => spec_credentials_problem(section@, cookie@, uid@) == Some(s@),
            None => spec_credentials_problem(section@, cookie@, uid@) is None,
        },
{
    if cookie.unicode_len() == 0 || uid.unicode_len() == 0 {
        let mut v: Vec<char> = Vec::new();
        append_str(&mut v, "cookie or uid is empty for [validator.");
        append_str(&mut v, section);
        append_str(&mut v, "] in config.toml");
        Some(string_of(&v))
    } else {
        None
    }
}

/// The role of an agent or W-Engine by HoYoLab's number, in lower case.
pub open spec fn spec_profession(id: u8) -> Seq<char> {
    if id == 1 {
        "attack"@
    } else if id == 2 {
        "stun"@
    } else if id == 3 {
        "anomaly"@
    } else if id == 4 {
        "support"@
    } else if id == 5 {
        "defence"@
    } else if id == 6 {
        "rupture"@
    } else {
        "unknown"@
    }
}

/// The role of an agent or W-Engine by HoYoLab's number, in lower case.
pub fn map_profession(id: u8) -> (r: &'static str)
    ensures
        r@ == spec_profession(id),
{
    match id {
        1 => "attack",
        2 => "stun",
        3 => "anomaly",
        4 => "support",
        5 => "defence",
        6 => "rupture",
        _ => "unknown",
    }
}

/// The attribute of an agent by HoYoLab's number.
pub fn map_element(id: u16) -> (r: &'static str)
    ensures
        r@ == crate::http::routes::calendar::zenless::spec_element(id),
{
    match id {
        200 => "Physical",
        201 => "Fire",
        202 => "Ice",
        203 => "Electric",
        204 => "Wind",
        205 => "Ether",
        _ => "unknown",
    }
}

/// The line giving when an item runs.
pub open spec fn period_line(start: Seq<char>, end: Seq<char>) -> Seq<char> {
    "       "@ + start + " → "@ + end
}

/// Appends the line giving when an item runs.
pub fn push_period_line(out: &mut Vec<String>, start: &Vec<char>, end: &Vec<char>)
    ensures
        views(final(out)@) == views(old(out)@).push(period_line(start@, end@)),
{
    let mut v: Vec<char> = Vec::new();
    append_str(&mut v, "       ");
    crate::text::append_chars(&mut v, start);
    append_str(&mut v, " → ");
    crate::text::append_chars(&mut v, end);
    push_line(out, &v);
}

/// The line of a special reward.
pub open spec fn special_line(name: Seq<char>, num: nat, rarity: Seq<char>) -> Seq<char> {
    "       special: "@ + name + " x"@ + decimal(num) + " (rarity "@ + rarity + ")"@
}

/// Appends the line of a special reward.
pub fn push_special_line(out: &mut Vec<String>, name: &str, num: u64, rarity: &str)
    ensures
        views(final(out)@) == views(old(out)@).push(special_line(name@, num as nat, rarity@)),
{
    let mut v: Vec<char> = Vec::new();
    append_str(&mut v, "       special: ");
    append_str(&mut v, name);
    append_str(&mut v, " x");
    push_decimal(&mut v, num);
    append_str(&mut v, " (rarity ");
    append_str(&mut v, rarity);
    append_str(&mut v, ")");
    push_line(out, &v);
}

/// The heading of the four Zenless Zone Zero challenges.
pub open spec fn zenless_challenge_heading() -> Seq<char> {
    "── Challenges (4) ───────────────────────────"@
}

} // verus!
