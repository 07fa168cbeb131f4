//! The parser check: codes read from HoYoLab's material guide, and the
//! report of the codes a parser found.

use vstd::prelude::*;
use crate::games::Game;
use crate::text::{append_chars, append_str, chars_of, decimal, join, lemma_join_push, push_decimal, str_eq, string_of};
use super::{push_blank, push_line, views};

verus! {

/// A code a parser found, with its rewards.
#[derive(Debug, Clone)]
pub struct ParsedCode {
    pub code: String,
    pub rewards: Vec<String>,
}

/// One reward icon of a material guide entry: its image url and count,
/// each absent when the answer does not hold it as a string or a number.
#[derive(Debug, Clone)]
pub struct IconBonus {
    pub icon_url: Option<String>,
    pub bonus_num: Option<u64>,
}

/// One code entry of HoYoLab's material guide, its fields absent when the
/// answer does not hold them with the expected kind.
#[derive(Debug, Clone)]
pub struct MaterialBonus {
    pub code_status: Option<String>,
    pub exchange_code: Option<String>,
    pub icon_bonuses: Option<Vec<IconBonus>>,
}

/// The part of `s` after its last `c`; all of `s` when it has none.
pub open spec fn after_last(s: Seq<char>, c: char) -> Seq<char>
    decreases s.len(),
{
    if s.len() == 0 {
        Seq::empty()
    } else if s.last() == c {
        Seq::empty()
    } else {
        after_last(s.drop_last(), c).push(s.last())
    }
}

/// The part of `s` before its first `c`; all of `s` when it has none.
pub open spec fn before_first(s: Seq<char>, c: char) -> Seq<char>
    decreases s.len(),
{
    if s.len() == 0 {
        Seq::empty()
    } else if s[0] == c {
        Seq::empty()
    } else {
        seq![s[0]] + before_first(s.drop_first(), c)
    }
}

proof fn lemma_after_last(s: Seq<char>, c: char, k: int)
    requires
        0 <= k <= s.len(),
        k > 0 ==> s[k - 1] == c,
        forall|j: int| k <= j < s.len() ==> s[j] != c,
    ensures
        after_last(s, c) == s.skip(k),
    decreases s.len() - k,
{
    if s.len() == k {
        if k > 0 {
            assert(s.last() == c);
        }
        assert(s.skip(k) =~= Seq::<char>::empty());
    } else {
        lemma_after_last(s.drop_last(), c, k);
        assert(s.skip(k) =~= s.drop_last().skip(k).push(s.last()));
    }
}

proof fn lemma_before_first(s: Seq<char>, c: char, k: int)
    requires
        0 <= k <= s.len(),
        k < s.len() ==> s[k] == c,
        forall|j: int| 0 <= j < k ==> s[j] != c,
    ensures
        before_first(s, c) == s.take(k),
    decreases k,
{
    if k == 0 {
        assert(s.take(0) =~= Seq::<char>::empty());
    } else {
        lemma_before_first(s.drop_first(), c, k - 1);
        assert(s.take(k) =~= seq![s[0]] + s.drop_first().take(k - 1));
    }
}

/// The hash an icon url names: its file name without the extension.
pub open spec fn icon_hash(url: Seq<char>) -> Seq<char> {
    before_first(after_last(url, '/'), '.')
}

/// The hash an icon url names.
pub fn icon_hash_of(url: &str) -> (r: Vec<char>)
    ensures
        r@ == icon_hash(url@),
{
    let v = chars_of(url);
    let mut k: usize = v.len();
    while k > 0 && v[k - 1] != '/'
        invariant
            k <= v@.len(),
            v@ == url@,
            forall|j: int| k <= j < v@.len() ==> v@[j] != '/',
        decreases k,
    {
        k = k - 1;
    }
    proof {
        lemma_after_last(v@, '/', k as int);
    }
    let mut name: Vec<char> = Vec::new();
    let mut i: usize = k;
    while i < v.len()
        invariant
            k <= i <= v@.len(),
            name@ == v@.subrange(k as int, i as int),
        decreases v@.len() - i,
    {
        name.push(v[i]);
        i = i + 1;
        assert(name@ =~= v@.subrange(k as int, i as int));
    }
    assert(name@ =~= v@.skip(k as int));
    let mut d: usize = 0;
    while d < name.len() && name[d] != '.'
        invariant
            d <= name@.len(),
            forall|j: int| 0 <= j < d ==> name@[j] != '.',
        decreases name@.len() - d,
    {
        d = d + 1;
    }
    proof {
        lemma_before_first(name@, '.', d as int);
    }
    let mut r: Vec<char> = Vec::new();
    let mut j: usize = 0;
    while j < d
        invariant
            j <= d <= name@.len(),
            r@ == name@.take(j as int),
        decreases d - j,
    {
        r.push(name[j]);
        j = j + 1;
        assert(r@ =~= name@.take(j as int));
    }
    r
}

/// The item a material guide icon shows, known by the hash of its image:
/// Star Rail's Stellar Jade, Refined Aether, Traveler's Guide and Credit,
/// and Zenless Zone Zero's Dennies, Polychrome, W-Engine Energy Module and
/// Senior Investigator Logs.
pub open spec fn spec_material_name(game: Game, hash: Seq<char>) -> Option<Seq<char>> {
    if game == Game::Starrail {
        if hash == "77cb5426637574ba524ac458fa963da0_6409817950389238658"@ {
            Some("Stellar Jade"@)
        } else if hash == "7cb0e487e051f177d3f41de8d4bbc521_2556290033227986328"@ {
            Some("Refined Aether"@)
        } else if hash == "508229a94e4fa459651f64c1cd02687a_6307505132287490837"@ {
            Some("Traveler's Guide"@)
        } else if hash == "0b12bdf76fa4abc6b4d1fdfc0fb4d6f5_4521150989210768295"@ {
            Some("Credit"@)
        } else {
            None
        }
    } else if game == Game::Zenless {
        if hash == "cd6682dd2d871dc93dfa28c3f281d527_6175554878133394960"@ {
            Some("Dennies"@)
        } else if hash == "8609070fe148c0e0e367cda25fdae632_208324374592932270"@ {
            Some("Polychrome"@)
        } else if hash == "6ef3e419022c871257a936b1857ac9d1_411767156105350865"@ {
            Some("W-Engine Energy Module"@)
        } else if hash == "86e1f7a5ff283d527bbc019475847174_5751095862610622324"@ {
            Some("Senior Investigator Logs"@)
        } else {
            None
        }
    } else {
        None
    }
}

/// The item a material guide icon url shows, for Star Rail and Zenless Zone Zero.
pub fn material_item_name(game: Game, url: &str) -> (r: Option<&'static str>)
    ensures
        match r {
            Some(name) => spec_material_name(game, icon_hash(url@)) == Some(name@),
            None => spec_material_name(game, icon_hash(url@)) is None,
        },
{
    let hash = string_of(&icon_hash_of(url));
    let h = hash.as_str();
    match game {
        Game::Starrail => {
            if str_eq(h, "77cb5426637574ba524ac458fa963da0_6409817950389238658") {
                Some("Stellar Jade")
            } else if str_eq(h, "7cb0e487e051f177d3f41de8d4bbc521_2556290033227986328") {
                Some("Refined Aether")
            } else if str_eq(h, "508229a94e4fa459651f64c1cd02687a_6307505132287490837") {
                Some("Traveler's Guide")
            } else if str_eq(h, "0b12bdf76fa4abc6b4d1fdfc0fb4d6f5_4521150989210768295") {
                Some("Credit")
            } else {
                None
            }
        },
        Game::Zenless => {
            if str_eq(h, "cd6682dd2d871dc93dfa28c3f281d527_6175554878133394960") {
                Some("Dennies")
            } else if str_eq(h, "8609070fe148c0e0e367cda25fdae632_208324374592932270") {
                Some("Polychrome")
            } else if str_eq(h, "6ef3e419022c871257a936b1857ac9d1_411767156105350865") {
                Some("W-Engine Energy Module")
            } else if str_eq(h, "86e1f7a5ff283d527bbc019475847174_5751095862610622324") {
                Some("Senior Investigator Logs")
            } else {
                None
            }
        },
        _ => None,
    }
}

/// The icons of the material guide that name an item, with the item each
/// shows: Star Rail's Stellar Jade, Refined Aether, Traveler's Guide and
/// Credit, and Zenless Zone Zero's Dennies, Polychrome, W-Engine Energy
/// Module and Senior Investigator Logs.
pub open spec fn known_material_icons(game: Game) -> Seq<(Seq<char>, Seq<char>)> {
    if game == Game::Starrail {
        seq![
            ("77cb5426637574ba524ac458fa963da0_6409817950389238658"@, "Stellar Jade"@),
            ("7cb0e487e051f177d3f41de8d4bbc521_2556290033227986328"@, "Refined Aether"@),
            ("508229a94e4fa459651f64c1cd02687a_6307505132287490837"@, "Traveler's Guide"@),
            ("0b12bdf76fa4abc6b4d1fdfc0fb4d6f5_4521150989210768295"@, "Credit"@),
        ]
    } else if game == Game::Zenless {
        seq![
            ("cd6682dd2d871dc93dfa28c3f281d527_6175554878133394960"@, "Dennies"@),
            ("8609070fe148c0e0e367cda25fdae632_208324374592932270"@, "Polychrome"@),
            ("6ef3e419022c871257a936b1857ac9d1_411767156105350865"@, "W-Engine Energy Module"@),
            ("86e1f7a5ff283d527bbc019475847174_5751095862610622324"@, "Senior Investigator Logs"@),
        ]
    } else {
        Seq::empty()
    }
}

/// An icon names an item only as the game's list of known icons pairs them,
/// and no two icons of a game name the same item.
pub proof fn law_material_icons_name_one_item(game: Game, hash: Seq<char>, other: Seq<char>)
    ensures
        spec_material_name(game, hash) matches Some(n) ==> known_material_icons(game).contains((hash, n)),
        spec_material_name(game, hash) is Some && spec_material_name(game, hash) == spec_material_name(game, other)
            ==> hash == other,
        forall|k: int|
            0 <= k < known_material_icons(game).len() ==> spec_material_name(game, (#[trigger] known_material_icons(game)[k]).0)
                == Some(known_material_icons(game)[k].1),
{
    reveal_strlit("Stellar Jade");
    reveal_strlit("Refined Aether");
    reveal_strlit("Traveler's Guide");
    reveal_strlit("Credit");
    reveal_strlit("Dennies");
    reveal_strlit("Polychrome");
    reveal_strlit("W-Engine Energy Module");
    reveal_strlit("Senior Investigator Logs");
    reveal_strlit("77cb5426637574ba524ac458fa963da0_6409817950389238658");
    reveal_strlit("7cb0e487e051f177d3f41de8d4bbc521_2556290033227986328");
    reveal_strlit("508229a94e4fa459651f64c1cd02687a_6307505132287490837");
    reveal_strlit("0b12bdf76fa4abc6b4d1fdfc0fb4d6f5_4521150989210768295");
    reveal_strlit("cd6682dd2d871dc93dfa28c3f281d527_6175554878133394960");
    reveal_strlit("8609070fe148c0e0e367cda25fdae632_208324374592932270");
    reveal_strlit("6ef3e419022c871257a936b1857ac9d1_411767156105350865");
    reveal_strlit("86e1f7a5ff283d527bbc019475847174_5751095862610622324");
    assert("7cb0e487e051f177d3f41de8d4bbc521_2556290033227986328"@[1] != "77cb5426637574ba524ac458fa963da0_6409817950389238658"@[1]);
    assert("508229a94e4fa459651f64c1cd02687a_6307505132287490837"@[0] != "77cb5426637574ba524ac458fa963da0_6409817950389238658"@[0]);
    assert("508229a94e4fa459651f64c1cd02687a_6307505132287490837"@[0] != "7cb0e487e051f177d3f41de8d4bbc521_2556290033227986328"@[0]);
    assert("0b12bdf76fa4abc6b4d1fdfc0fb4d6f5_4521150989210768295"@[0] != "77cb5426637574ba524ac458fa963da0_6409817950389238658"@[0]);
    assert("0b12bdf76fa4abc6b4d1fdfc0fb4d6f5_4521150989210768295"@[0] != "7cb0e487e051f177d3f41de8d4bbc521_2556290033227986328"@[0]);
    assert("0b12bdf76fa4abc6b4d1fdfc0fb4d6f5_4521150989210768295"@[0] != "508229a94e4fa459651f64c1cd02687a_6307505132287490837"@[0]);
    assert("8609070fe148c0e0e367cda25fdae632_208324374592932270"@[0] != "cd6682dd2d871dc93dfa28c3f281d527_6175554878133394960"@[0]);
    assert("6ef3e419022c871257a936b1857ac9d1_411767156105350865"@[0] != "cd6682dd2d871dc93dfa28c3f281d527_6175554878133394960"@[0]);
    assert("6ef3e419022c871257a936b1857ac9d1_411767156105350865"@[0] != "8609070fe148c0e0e367cda25fdae632_208324374592932270"@[0]);
    assert("86e1f7a5ff283d527bbc019475847174_5751095862610622324"@[0] != "cd6682dd2d871dc93dfa28c3f281d527_6175554878133394960"@[0]);
    assert("86e1f7a5ff283d527bbc019475847174_5751095862610622324"@[2] != "8609070fe148c0e0e367cda25fdae632_208324374592932270"@[2]);
    assert("86e1f7a5ff283d527bbc019475847174_5751095862610622324"@[0] != "6ef3e419022c871257a936b1857ac9d1_411767156105350865"@[0]);
    assert("Stellar Jade"@.len() == 12);
    assert("Refined Aether"@.len() == 14);
    assert("Traveler's Guide"@.len() == 16);
    assert("Credit"@.len() == 6);
    assert("Dennies"@.len() == 7);
    assert("Polychrome"@.len() == 10);
    assert("W-Engine Energy Module"@.len() == 22);
    assert("Senior Investigator Logs"@.len() == 24);
    if let Some(n) = spec_material_name(game, hash) {
        let t = known_material_icons(game);
        if game == Game::Starrail {
            assert(t[0] == ("77cb5426637574ba524ac458fa963da0_6409817950389238658"@, "Stellar Jade"@));
            assert(t[1] == ("7cb0e487e051f177d3f41de8d4bbc521_2556290033227986328"@, "Refined Aether"@));
            assert(t[2] == ("508229a94e4fa459651f64c1cd02687a_6307505132287490837"@, "Traveler's Guide"@));
            assert(t[3] == ("0b12bdf76fa4abc6b4d1fdfc0fb4d6f5_4521150989210768295"@, "Credit"@));
        } else {
            assert(t[0] == ("cd6682dd2d871dc93dfa28c3f281d527_6175554878133394960"@, "Dennies"@));
            assert(t[1] == ("8609070fe148c0e0e367cda25fdae632_208324374592932270"@, "Polychrome"@));
            assert(t[2] == ("6ef3e419022c871257a936b1857ac9d1_411767156105350865"@, "W-Engine Energy Module"@));
            assert(t[3] == ("86e1f7a5ff283d527bbc019475847174_5751095862610622324"@, "Senior Investigator Logs"@));
        }
    }
}

/// The reward an icon stands for: `"{item} ×{count}"`, when it has a url of
/// a known item and a count.
pub open spec fn icon_reward(game: Game, b: IconBonus) -> Option<Seq<char>> {
    match (b.icon_url, b.bonus_num) {
        (Some(url), Some(num)) => match spec_material_name(game, icon_hash(url@)) {
            Some(name) => Some(name + " ×"@ + decimal(num as nat)),
            None => None,
        },
        _ => None,
    }
}

/// The rewards of an entry's icons, in order, skipping icons that stand for none.
pub open spec fn icon_rewards(game: Game, icons: Seq<IconBonus>) -> Seq<Seq<char>>
    decreases icons.len(),
{
    if icons.len() == 0 {
        Seq::empty()
    } else {
        match icon_reward(game, icons.last()) {
            Some(r) => icon_rewards(game, icons.drop_last()).push(r),
            None => icon_rewards(game, icons.drop_last()),
        }
    }
}

/// Whether a guide entry is a live code: its status is `ON` and its code is
/// not empty.
pub open spec fn live_bonus(b: MaterialBonus) -> bool {
    &&& b.code_status matches Some(s) && s@ == "ON"@
    &&& b.exchange_code matches Some(c) && c@.len() > 0
}

/// The live codes of the guide's entries, in order, with their rewards.
pub open spec fn material_codes_spec(game: Game, bonuses: Seq<MaterialBonus>) -> Seq<(Seq<char>, Seq<Seq<char>>)>
    decreases bonuses.len(),
{
    if bonuses.len() == 0 {
        Seq::empty()
    } else {
        let init = material_codes_spec(game, bonuses.drop_last());
        let b = bonuses.last();
        if live_bonus(b) {
            init.push(
                (
                    b.exchange_code->0@,
                    match b.icon_bonuses {
                        Some(icons) => icon_rewards(game, icons@),
                        None => Seq::empty(),
                    },
                ),
            )
        } else {
            init
        }
    }
}

/// The views of parsed codes.
pub open spec fn parsed_views(s: Seq<ParsedCode>) -> Seq<(Seq<char>, Seq<Seq<char>>)> {
    Seq::new(s.len(), |i: int| (s[i].code@, views(s[i].rewards@)))
}

fn rewards_of_icons(game: Game, icons: &Vec<IconBonus>) -> (r: Vec<String>)
    ensures
        views(r@) == icon_rewards(game, icons@),
{
    let mut r: Vec<String> = Vec::new();
    let mut i: usize = 0;
    while i < icons.len()
        invariant
            i <= icons@.len(),
            views(r@) == icon_rewards(game, icons@.take(i as int)),
        decreases icons@.len() - i,
    {
        proof {
            assert(icons@.take(i + 1).drop_last() =~= icons@.take(i as int));
        }
        let b = &icons[i];
        match (&b.icon_url, b.bonus_num) {
            (Some(url), Some(num)) => match material_item_name(game, url.as_str()) {
                Some(name) => {
                    let mut v: Vec<char> = Vec::new();
                    append_str(&mut v, name);
                    append_str(&mut v, " ×");
                    push_decimal(&mut v, num);
                    push_line(&mut r, &v);
                },
                None => {},
            },
            _ => {},
        }
        i = i + 1;
    }
    assert(icons@.take(icons@.len() as int) =~= icons@);
    r
}

fn is_live(b: &MaterialBonus) -> (r: bool)
    ensures
        r == live_bonus(*b),
{
    let on = match &b.code_status {
        Some(s) => str_eq(s.as_str(), "ON"),
        None => false,
    };
    let has_code = match &b.exchange_code {
        Some(c) => c.as_str().unicode_len() > 0,
        None => false,
    };
    on && has_code
}

/// The live codes of HoYoLab's material guide for a game, in order, each
/// with the rewards its icons stand for.
pub fn material_codes(game: Game, bonuses: &[MaterialBonus]) -> (r: Vec<ParsedCode>)
    ensures
        parsed_views(r@) == material_codes_spec(game, bonuses@),
{
    let mut r: Vec<ParsedCode> = Vec::new();
    let mut i: usize = 0;
    while i < bonuses.len()
        invariant
            i <= bonuses@.len(),
            parsed_views(r@) == material_codes_spec(game, bonuses@.take(i as int)),
        decreases bonuses@.len() - i,
    {
        proof {
            assert(bonuses@.take(i + 1).drop_last() =~= bonuses@.take(i as int));
        }
        let b = &bonuses[i];
        if is_live(b) {
            let code = match &b.exchange_code {
                Some(c) => c.clone(),
                None => String::new(),
            };
            let rewards = match &b.icon_bonuses {
                Some(icons) => rewards_of_icons(game, icons),
                None => {
                    let none: Vec<String> = Vec::new();
                    assert(views(none@) =~= Seq::<Seq<char>>::empty());
                    none
                },
            };
            let ghost before = r@;
            r.push(ParsedCode { code, rewards });
            assert(parsed_views(r@) =~= parsed_views(before).push((r@.last().code@, views(r@.last().rewards@))));
        }
        i = i + 1;
    }
    assert(bonuses@.take(bonuses@.len() as int) =~= bonuses@);
    r
}

/// The upper-case form of a string, as `str::to_uppercase` gives it.
pub uninterp spec fn spec_to_uppercase(s: Seq<char>) -> Seq<char>;

/// `str::to_uppercase`: the string with every character mapped to its
/// upper case. The mapping is named, not spelled out.
#[verifier::external_body]
fn to_uppercase(s: &str) -> (r: String)
    ensures
        r@ == spec_to_uppercase(s@),
{
    s.to_uppercase()
}

/// How `{:?}` writes a list of strings, as `["a", "b"]` with each string
/// quoted and escaped.
pub uninterp spec fn spec_debug_strings(v: Seq<Seq<char>>) -> Seq<char>;

/// The `{:?}` form of a list of strings. The escaping is named, not spelled out.
#[verifier::external_body]
fn debug_strings(v: &Vec<String>) -> (r: String)
    ensures
        r@ == spec_debug_strings(views(v@)),
{
    format!("{:?}", v)
}

/// `s` padded with spaces to at least 30 characters, as `{:<30}` writes it.
pub open spec fn pad30(s: Seq<char>) -> Seq<char> {
    if s.len() >= 30 {
        s
    } else {
        s + Seq::new((30 - s.len()) as nat, |i: int| ' ')
    }
}

fn push_padded(v: &mut Vec<char>, s: &str)
    ensures
        final(v)@ == old(v)@ + pad30(s@),
{
    let ghost start = v@;
    append_str(v, s);
    let n = s.unicode_len();
    let mut k: usize = n;
    while k < 30
        invariant
            n == s@.len(),
            n <= k <= 30 || (n > 30 && k == n),
            v@ == start + s@ + Seq::new((k - n) as nat, |i: int| ' '),
        decreases 30 - k,
    {
        v.push(' ');
        k = k + 1;
        assert(v@ =~= start + s@ + Seq::new((k - n) as nat, |i: int| ' '));
    }
    assert(v@ =~= start + pad30(s@));
}

/// The table row of a code: the code padded to 30 characters, its rewards
/// joined with `", "` (or `(none)`), and a note when it is not upper case.
pub open spec fn code_row(code: Seq<char>, rewards: Seq<Seq<char>>) -> Seq<char> {
    pad30(code) + " "@ + (if rewards.len() == 0 {
        "(none)"@
    } else {
        join(rewards, ", "@)
    }) + (if spec_to_uppercase(code) != code {
        " (mixed case)"@
    } else {
        Seq::empty()
    })
}

/// The distinct upper-case forms of the codes, in the order they first appear.
pub open spec fn upper_keys(codes: Seq<ParsedCode>) -> Seq<Seq<char>>
    decreases codes.len(),
{
    if codes.len() == 0 {
        Seq::empty()
    } else {
        let init = upper_keys(codes.drop_last());
        let k = spec_to_uppercase(codes.last().code@);
        if init.contains(k) {
            init
        } else {
            init.push(k)
        }
    }
}

/// The codes whose upper-case form is `key`, in order.
pub open spec fn variants_of(codes: Seq<ParsedCode>, key: Seq<char>) -> Seq<Seq<char>>
    decreases codes.len(),
{
    if codes.len() == 0 {
        Seq::empty()
    } else if spec_to_uppercase(codes.last().code@) == key {
        variants_of(codes.drop_last(), key).push(codes.last().code@)
    } else {
        variants_of(codes.drop_last(), key)
    }
}

/// The upper-case forms shared by more than one code, in order of first appearance.
pub open spec fn duplicate_keys(codes: Seq<ParsedCode>) -> Seq<Seq<char>> {
    upper_keys(codes).filter(|k: Seq<char>| variants_of(codes, k).len() > 1)
}

/// The line that reports a case-insensitive duplicate.
pub open spec fn duplicate_line(key: Seq<char>, variants: Seq<Seq<char>>) -> Seq<char> {
    "  "@ + key + " -> "@ + spec_debug_strings(variants)
}

/// The report of the codes a parser found: their count, a table of codes
/// and rewards, and the codes that differ only in case, grouped by their
/// upper-case form in the order those forms first appear.
pub open spec fn spec_result_lines(codes: Seq<ParsedCode>) -> Seq<Seq<char>> {
    let rows = Seq::new(codes.len(), |i: int| code_row(codes[i].code@, views(codes[i].rewards@)));
    let dups = duplicate_keys(codes);
    let tail = if dups.len() == 0 {
        seq![Seq::empty(), "No case-insensitive duplicates found."@]
    } else {
        seq![Seq::empty(), "Case-insensitive duplicates found:"@] + Seq::new(
            dups.len(),
            |i: int| duplicate_line(dups[i], variants_of(codes, dups[i])),
        )
    };
    seq![
        "Parsed "@ + decimal(codes.len() as nat) + " code entries:"@,
        Seq::empty(),
        pad30("CODE"@) + " REWARDS"@,
        Seq::new(80, |i: int| '-'),
    ] + rows + tail
}

fn joined(parts: &Vec<String>) -> (v: Vec<char>)
    ensures
        v@ == join(views(parts@), ", "@),
{
    let ghost ps = views(parts@);
    let mut v: Vec<char> = Vec::new();
    let mut i: usize = 0;
    while i < parts.len()
        invariant
            i <= parts@.len(),
            ps == views(parts@),
            v@ == join(ps.take(i as int), ", "@),
        decreases parts@.len() - i,
    {
        if i > 0 {
            append_str(&mut v, ", ");
        }
        append_str(&mut v, parts[i].as_str());
        proof {
            assert(ps.take(i + 1) =~= ps.take(i as int).push(ps[i as int]));
            if i > 0 {
                lemma_join_push(ps.take(i as int), ", "@, ps[i as int]);
            } else {
                assert(ps.take(1) =~= seq![ps[0]]);
            }
            assert(v@ =~= join(ps.take(i + 1), ", "@));
        }
        i = i + 1;
    }
    assert(ps.take(parts@.len() as int) =~= ps);
    v
}

fn push_code_row(out: &mut Vec<String>, c: &ParsedCode)
    ensures
        views(final(out)@) == views(old(out)@).push(code_row(c.code@, views(c.rewards@))),
{
    let mut v: Vec<char> = Vec::new();
    push_padded(&mut v, c.code.as_str());
    append_str(&mut v, " ");
    if c.rewards.len() == 0 {
        append_str(&mut v, "(none)");
    } else {
        let j = joined(&c.rewards);
        append_chars(&mut v, &j);
    }
    let upper = to_uppercase(c.code.as_str());
    if !str_eq(upper.as_str(), c.code.as_str()) {
        append_str(&mut v, " (mixed case)");
    }
    assert(v@ =~= code_row(c.code@, views(c.rewards@)));
    push_line(out, &v);
}

/// The upper-case form of each code, in order.
fn uppers_of(codes: &[ParsedCode]) -> (r: Vec<String>)
    ensures
        views(r@) == Seq::new(codes@.len(), |i: int| spec_to_uppercase(codes@[i].code@)),
{
    let mut r: Vec<String> = Vec::new();
    let mut i: usize = 0;
    while i < codes.len()
        invariant
            i <= codes@.len(),
            views(r@) == Seq::new(i as nat, |j: int| spec_to_uppercase(codes@[j].code@)),
        decreases codes@.len() - i,
    {
        let u = to_uppercase(codes[i].code.as_str());
        let ghost before = r@;
        r.push(u);
        assert(views(r@) =~= views(before).push(spec_to_uppercase(codes@[i as int].code@)));
        i = i + 1;
        assert(views(r@) =~= Seq::new(i as nat, |j: int| spec_to_uppercase(codes@[j].code@)));
    }
    r
}

fn position_of(keys: &Vec<String>, key: &str) -> (r: Option<usize>)
    ensures
        match r {
            Some(p) => p < keys@.len() && keys@[p as int]@ == key@,
            None => !views(keys@).contains(key@),
        },
{
    let mut i: usize = 0;
    while i < keys.len()
        invariant
            i <= keys@.len(),
            forall|j: int| 0 <= j < i ==> keys@[j]@ != key@,
        decreases keys@.len() - i,
    {
        if str_eq(keys[i].as_str(), key) {
            return Some(i);
        }
        i = i + 1;
    }
    proof {
        if views(keys@).contains(key@) {
            let j = choose|j: int| 0 <= j < views(keys@).len() && views(keys@)[j] == key@;
            assert(keys@[j]@ == key@);
        }
    }
    None
}

proof fn lemma_variants_step(codes: Seq<ParsedCode>, n: int, key: Seq<char>)
    requires
        0 <= n < codes.len(),
    ensures
        variants_of(codes.take(n + 1), key) == if spec_to_uppercase(codes[n].code@) == key {
            variants_of(codes.take(n), key).push(codes[n].code@)
        } else {
            variants_of(codes.take(n), key)
        },
{
    assert(codes.take(n + 1).drop_last() =~= codes.take(n));
}

/// Whether no two of `keys` are equal.
pub open spec fn distinct_keys(keys: Seq<Seq<char>>) -> bool {
    forall|a: int, b: int| 0 <= a < b < keys.len() ==> keys[a] != keys[b]
}

/// Groups the codes by upper-case form: the distinct forms in order of
/// first appearance, each with the codes that have it.
fn group_by_upper(codes: &[ParsedCode]) -> (r: (Vec<String>, Vec<Vec<String>>))
    ensures
        views(r.0@) == upper_keys(codes@),
        r.1@.len() == r.0@.len(),
        forall|g: int| 0 <= g < r.0@.len() ==> views((#[trigger] r.1@[g])@) == variants_of(codes@, r.0@[g]@),
{
    let uppers = uppers_of(codes);
    proof {
        assert(views(uppers@).len() == uppers@.len());
        assert forall|j: int| 0 <= j < codes@.len() implies (#[trigger] uppers@[j])@ == spec_to_uppercase(codes@[j].code@) by {
            assert(views(uppers@)[j] == uppers@[j]@);
        }
    }
    let mut keys: Vec<String> = Vec::new();
    let mut groups: Vec<Vec<String>> = Vec::new();
    let mut i: usize = 0;
    assert(views(keys@) =~= upper_keys(codes@.take(0)));
    while i < codes.len()
        invariant
            i <= codes@.len(),
            uppers@.len() == codes@.len(),
            forall|j: int| 0 <= j < codes@.len() ==> (#[trigger] uppers@[j])@ == spec_to_uppercase(codes@[j].code@),
            views(keys@) == upper_keys(codes@.take(i as int)),
            distinct_keys(views(keys@)),
            groups@.len() == keys@.len(),
            forall|g: int| 0 <= g < keys@.len() ==> views((#[trigger] groups@[g])@) == variants_of(codes@.take(i as int), keys@[g]@),
        decreases codes@.len() - i,
    {
        let key = uppers[i].as_str();
        let ghost kv = spec_to_uppercase(codes@[i as int].code@);
        assert(key@ == kv);
        let ghost before_groups = groups@;
        let ghost before_keys = keys@;
        proof {
            assert(codes@.take(i + 1).drop_last() =~= codes@.take(i as int));
            assert(codes@.take(i + 1).last() == codes@[i as int]);
        }
        match position_of(&keys, key) {
            Some(p) => {
                let mut g = groups[p].clone();
                let ghost gv = before_groups[p as int]@;
                proof {
                    assert forall|j: int| 0 <= j < g@.len() implies g@[j] == gv[j] by {
                        assert(cloned::<String>(gv[j], g@[j]));
                    }
                    assert(g@ =~= gv);
                }
                g.push(codes[i].code.clone());
                groups.set(p, g);
                proof {
                    assert(views(keys@)[p as int] == kv);
                    assert(views(keys@).contains(kv));
                    assert(upper_keys(codes@.take(i + 1)) == upper_keys(codes@.take(i as int)));
                    assert forall|h: int| 0 <= h < keys@.len() implies views((#[trigger] groups@[h])@)
                        == variants_of(codes@.take(i + 1), keys@[h]@) by {
                        lemma_variants_step(codes@, i as int, keys@[h]@);
                        assert(views(keys@)[h] == keys@[h]@);
                        if h == p {
                            assert(views(groups@[h]@) =~= views(before_groups[h]@).push(codes@[i as int].code@));
                        } else {
                            assert(views(keys@)[h] != views(keys@)[p as int]);
                            assert(groups@[h] == before_groups[h]);
                        }
                    }
                }
            },
            None => {
                let mut g: Vec<String> = Vec::new();
                g.push(codes[i].code.clone());
                keys.push(uppers[i].clone());
                groups.push(g);
                proof {
                    assert(!views(before_keys).contains(kv));
                    assert(views(keys@) =~= views(before_keys).push(kv));
                    assert(upper_keys(codes@.take(i + 1)) == upper_keys(codes@.take(i as int)).push(kv));
                    assert forall|a: int, b: int| 0 <= a < b < views(keys@).len() implies views(keys@)[a] != views(keys@)[b] by {
                        if b == views(keys@).len() - 1 {
                            assert(views(before_keys)[a] == views(keys@)[a]);
                        } else {
                            assert(views(before_keys)[a] == views(keys@)[a]);
                            assert(views(before_keys)[b] == views(keys@)[b]);
                        }
                    }
                    lemma_variants_absent(codes@.take(i as int), kv);
                    assert forall|h: int| 0 <= h < keys@.len() implies views((#[trigger] groups@[h])@)
                        == variants_of(codes@.take(i + 1), keys@[h]@) by {
                        lemma_variants_step(codes@, i as int, keys@[h]@);
                        assert(views(keys@)[h] == keys@[h]@);
                        if h == keys@.len() - 1 {
                            assert(views(groups@[h]@) =~= seq![codes@[i as int].code@]);
                            assert(variants_of(codes@.take(i as int), kv).push(codes@[i as int].code@) =~= seq![codes@[i as int].code@]);
                        } else {
                            assert(groups@[h] == before_groups[h]);
                            assert(keys@[h] == before_keys[h]);
                            assert(views(before_keys)[h] == before_keys[h]@);
                            assert(views(before_keys)[h] != kv);
                        }
                    }
                }
            },
        }
        i = i + 1;
    }
    assert(codes@.take(codes@.len() as int) =~= codes@);
    (keys, groups)
}

proof fn lemma_variants_absent(codes: Seq<ParsedCode>, key: Seq<char>)
    requires
        !upper_keys(codes).contains(key),
    ensures
        variants_of(codes, key) == Seq::<Seq<char>>::empty(),
    decreases codes.len(),
{
    if codes.len() > 0 {
        let init = upper_keys(codes.drop_last());
        if init.contains(key) {
            let idx = choose|idx: int| 0 <= idx < init.len() && init[idx] == key;
            assert(upper_keys(codes)[idx] == key);
            assert(false);
        }
        lemma_variants_absent(codes.drop_last(), key);
        if spec_to_uppercase(codes.last().code@) == key {
            assert(upper_keys(codes) == init.push(key));
            assert(upper_keys(codes)[init.len() as int] == key);
            assert(false);
        }
    }
}

/// The report of the codes a parser found, line by line.
pub fn result_lines(codes: &[ParsedCode]) -> (r: Vec<String>)
    ensures
        views(r@) == spec_result_lines(codes@),
{
    let mut out: Vec<String> = Vec::new();
    let mut head: Vec<char> = Vec::new();
    append_str(&mut head, "Parsed ");
    push_decimal(&mut head, codes.len() as u64);
    append_str(&mut head, " code entries:");
    push_line(&mut out, &head);
    push_blank(&mut out);
    let mut header: Vec<char> = Vec::new();
    push_padded(&mut header, "CODE");
    append_str(&mut header, " REWARDS");
    push_line(&mut out, &header);
    let mut rule: Vec<char> = Vec::new();
    let mut k: usize = 0;
    while k < 80
        invariant
            k <= 80,
            rule@ == Seq::new(k as nat, |i: int| '-'),
        decreases 80 - k,
    {
        rule.push('-');
        k = k + 1;
        assert(rule@ =~= Seq::new(k as nat, |i: int| '-'));
    }
    push_line(&mut out, &rule);
    let ghost start = views(out@);
    let mut i: usize = 0;
    while i < codes.len()
        invariant
            i <= codes@.len(),
            views(out@) == start + Seq::new(i as nat, |j: int| code_row(codes@[j].code@, views(codes@[j].rewards@))),
        decreases codes@.len() - i,
    {
        push_code_row(&mut out, &codes[i]);
        i = i + 1;
        assert(views(out@) =~= start + Seq::new(i as nat, |j: int| code_row(codes@[j].code@, views(codes@[j].rewards@))));
    }
    let (keys, groups) = group_by_upper(codes);
    let ghost all_keys = views(keys@);
    let ghost dups = duplicate_keys(codes@);
    let ghost before_tail = views(out@);
    push_blank(&mut out);
    let mut any = false;
    let mut g: usize = 0;
    while g < keys.len()
        invariant
            g <= keys@.len(),
            groups@.len() == keys@.len(),
            any == (all_keys.take(g as int).filter(|k: Seq<char>| variants_of(codes@, k).len() > 1).len() > 0),
            all_keys == views(keys@),
            forall|h: int| 0 <= h < keys@.len() ==> views((#[trigger] groups@[h])@) == variants_of(codes@, keys@[h]@),
        decreases keys@.len() - g,
    {
        proof {
            assert(all_keys.take(g + 1) =~= all_keys.take(g as int).push(all_keys[g as int]));
            all_keys.take(g as int).lemma_filter_push(all_keys[g as int], |k: Seq<char>| variants_of(codes@, k).len() > 1);
            assert(all_keys[g as int] == keys@[g as int]@);
        }
        if groups[g].len() > 1 {
            any = true;
        }
        g = g + 1;
    }
    assert(all_keys.take(keys@.len() as int) =~= all_keys);
    if !any {
        let mut v: Vec<char> = Vec::new();
        append_str(&mut v, "No case-insensitive duplicates found.");
        push_line(&mut out, &v);
        assert(views(out@) =~= spec_result_lines(codes@));
    } else {
        let mut v: Vec<char> = Vec::new();
        append_str(&mut v, "Case-insensitive duplicates found:");
        push_line(&mut out, &v);
        let ghost s1 = views(out@);
        let mut h: usize = 0;
        while h < keys.len()
            invariant
                h <= keys@.len(),
                groups@.len() == keys@.len(),
                all_keys == views(keys@),
                forall|x: int| 0 <= x < keys@.len() ==> views((#[trigger] groups@[x])@) == variants_of(codes@, keys@[x]@),
                views(out@) == s1 + {
                    let d = all_keys.take(h as int).filter(|k: Seq<char>| variants_of(codes@, k).len() > 1);
                    Seq::new(d.len(), |i: int| duplicate_line(d[i], variants_of(codes@, d[i])))
                },
            decreases keys@.len() - h,
        {
            let ghost d0 = all_keys.take(h as int).filter(|k: Seq<char>| variants_of(codes@, k).len() > 1);
            proof {
                assert(all_keys.take(h + 1) =~= all_keys.take(h as int).push(all_keys[h as int]));
                all_keys.take(h as int).lemma_filter_push(all_keys[h as int], |k: Seq<char>| variants_of(codes@, k).len() > 1);
                assert(all_keys[h as int] == keys@[h as int]@);
            }
            if groups[h].len() > 1 {
                let mut line: Vec<char> = Vec::new();
                append_str(&mut line, "  ");
                append_str(&mut line, keys[h].as_str());
                append_str(&mut line, " -> ");
                let d = debug_strings(&groups[h]);
                append_str(&mut line, d.as_str());
                push_line(&mut out, &line);
                let ghost d1 = all_keys.take(h + 1).filter(|k: Seq<char>| variants_of(codes@, k).len() > 1);
                assert(d1 =~= d0.push(keys@[h as int]@));
                assert(views(out@) =~= s1 + Seq::new(d1.len(), |i: int| duplicate_line(d1[i], variants_of(codes@, d1[i]))));
            } else {
                let ghost d1 = all_keys.take(h + 1).filter(|k: Seq<char>| variants_of(codes@, k).len() > 1);
                assert(d1 =~= d0);
            }
            h = h + 1;
        }
        assert(all_keys.take(keys@.len() as int) =~= all_keys);
        assert(views(out@) =~= spec_result_lines(codes@));
    }
    out
}

/// The game and source pairs the parser check knows.
pub fn known_combos() -> (r: Vec<String>)
    ensures
        views(r@) == seq![
            "Known combinations:"@,
            "  genshin   fandom"@,
            "  genshin   game8"@,
            "  starrail  fandom"@,
            "  starrail  game8"@,
            "  starrail  sportskeeda"@,
            "  starrail  hoyolab"@,
            "  zenless   fandom"@,
            "  zenless   game8"@,
            "  zenless   hoyolab"@,
            "  honkai    fandom"@,
            "  themis    totwiki"@,
        ],
{
    let mut r: Vec<String> = Vec::new();
    r.push("Known combinations:".to_string());
    r.push("  genshin   fandom".to_string());
    r.push("  genshin   game8".to_string());
    r.push("  starrail  fandom".to_string());
    r.push("  starrail  game8".to_string());
    r.push("  starrail  sportskeeda".to_string());
    r.push("  starrail  hoyolab".to_string());
    r.push("  zenless   fandom".to_string());
    r.push("  zenless   game8".to_string());
    r.push("  zenless   hoyolab".to_string());
    r.push("  honkai    fandom".to_string());
    r.push("  themis    totwiki".to_string());
    assert(views(r@) =~= seq![
        "Known combinations:"@,
        "  genshin   fandom"@,
        "  genshin   game8"@,
        "  starrail  fandom"@,
        "  starrail  game8"@,
        "  starrail  sportskeeda"@,
        "  starrail  hoyolab"@,
        "  zenless   fandom"@,
        "  zenless   game8"@,
        "  zenless   hoyolab"@,
        "  honkai    fandom"@,
        "  themis    totwiki"@,
    ]);
    r
}

} // verus!
