//! The probe's report of a Genshin Impact calendar.

use vstd::prelude::*;
use crate::http::routes::calendar::genshin::{HyvActivity, HyvAvatar, HyvBannerPool, HyvCalendarData, HyvReward, HyvWeapon};
use crate::text::{append_chars, append_str, chars_of, decimal, join, lemma_join_push, push_decimal};
use super::{
    concat_lines, lemma_concat_lines_step, period_line, push_blank, push_line, push_period_line,
    push_section_heading, push_special_line, section_heading, special_line, views,
};

verus! {

/// The first reward shown on HoYoLab's home page, if any.
pub open spec fn first_shown(rs: Seq<HyvReward>) -> Option<HyvReward>
    decreases rs.len(),
{
    if rs.len() == 0 {
        None
    } else if rs[0].homepage_show {
        Some(rs[0])
    } else {
        first_shown(rs.drop_first())
    }
}

/// The names of the rewards not shown on the home page, in order.
pub open spec fn unshown_names(rs: Seq<HyvReward>) -> Seq<Seq<char>>
    decreases rs.len(),
{
    if rs.len() == 0 {
        Seq::empty()
    } else if rs.last().homepage_show {
        unshown_names(rs.drop_last())
    } else {
        unshown_names(rs.drop_last()).push(rs.last().name@)
    }
}

/// The lines of an activity: its id, name and type, when it runs, its
/// special reward if one is shown, and, for an event, the other rewards.
pub open spec fn activity_lines(e: HyvActivity, with_rewards: bool) -> Seq<Seq<char>> {
    let head = seq![
        "  ["@ + decimal(e.id as nat) + "] "@ + e.name@ + " ("@ + e.kind@ + ")"@,
        period_line(e.start_timestamp@, e.end_timestamp@),
    ];
    let with_special = match first_shown(e.reward_list@) {
        Some(r) => head.push(special_line(r.name@, r.num as nat, r.rarity@)),
        None => head,
    };
    let rest = unshown_names(e.reward_list@);
    if with_rewards && rest.len() > 0 {
        with_special.push("       rewards: "@ + join(rest, ", "@))
    } else {
        with_special
    }
}

fn find_shown(rs: &Vec<HyvReward>) -> (r: Option<usize>)
    ensures
        match r {
            Some(i) => i < rs@.len() && first_shown(rs@) == Some(rs@[i as int]),
            None => first_shown(rs@) is None,
        },
{
    let mut i: usize = 0;
    assert(rs@.subrange(0, rs@.len() as int) =~= rs@);
    while i < rs.len()
        invariant
            i <= rs@.len(),
            first_shown(rs@) == first_shown(rs@.subrange(i as int, rs@.len() as int)),
        decreases rs@.len() - i,
    {
        let ghost rest = rs@.subrange(i as int, rs@.len() as int);
        assert(rest[0] == rs@[i as int]);
        if rs[i].homepage_show {
            return Some(i);
        }
        assert(rest.drop_first() =~= rs@.subrange(i + 1, rs@.len() as int));
        i = i + 1;
    }
    None
}

fn unshown_joined(rs: &Vec<HyvReward>) -> (r: (usize, Vec<char>))
    ensures
        r.0 == unshown_names(rs@).len(),
        r.1@ == join(unshown_names(rs@), ", "@),
{
    let mut count: usize = 0;
    let mut v: Vec<char> = Vec::new();
    let mut i: usize = 0;
    while i < rs.len()
        invariant
            i <= rs@.len(),
            count == unshown_names(rs@.take(i as int)).len(),
            count <= i,
            v@ == join(unshown_names(rs@.take(i as int)), ", "@),
        decreases rs@.len() - i,
    {
        proof {
            assert(rs@.take(i + 1).drop_last() =~= rs@.take(i as int));
        }
        if !rs[i].homepage_show {
            let ghost names = unshown_names(rs@.take(i as int));
            if count > 0 {
                append_str(&mut v, ", ");
            }
            append_str(&mut v, rs[i].name.as_str());
            proof {
                if count > 0 {
                    lemma_join_push(names, ", "@, rs@[i as int].name@);
                } else {
                    assert(names.push(rs@[i as int].name@) =~= seq![rs@[i as int].name@]);
                }
            }
            count = count + 1;
        }
        i = i + 1;
    }
    assert(rs@.take(rs@.len() as int) =~= rs@);
    (count, v)
}

/// Appends the lines of an activity.
pub fn push_activity_lines(out: &mut Vec<String>, e: &HyvActivity, with_rewards: bool)
    ensures
        views(final(out)@) == views(old(out)@) + activity_lines(*e, with_rewards),
{
    let ghost start = views(out@);
    let mut head: Vec<char> = Vec::new();
    append_str(&mut head, "  [");
    push_decimal(&mut head, e.id);
    append_str(&mut head, "] ");
    append_str(&mut head, e.name.as_str());
    append_str(&mut head, " (");
    append_str(&mut head, e.kind.as_str());
    append_str(&mut head, ")");
    push_line(out, &head);
    let s = chars_of(e.start_timestamp.as_str());
    let t = chars_of(e.end_timestamp.as_str());
    push_period_line(out, &s, &t);
    match find_shown(&e.reward_list) {
        Some(k) => {
            let r = &e.reward_list[k];
            push_special_line(out, r.name.as_str(), r.num, r.rarity.as_str());
        },
        None => {},
    }
    let ghost before_rest = views(out@);
    if with_rewards {
        let (count, joined) = unshown_joined(&e.reward_list);
        if count > 0 {
            let mut line: Vec<char> = Vec::new();
            append_str(&mut line, "       rewards: ");
            append_chars(&mut line, &joined);
            push_line(out, &line);
        }
    }
    assert(views(out@) =~= start + activity_lines(*e, with_rewards));
}

/// How a character is shown on a banner's line.
pub open spec fn character_entry(a: HyvAvatar) -> Seq<char> {
    a.name@ + " ("@ + a.element@ + " ★"@ + decimal(a.rarity as nat) + ")"@
}

/// How a weapon is shown on a banner's line.
pub open spec fn weapon_entry(w: HyvWeapon) -> Seq<char> {
    w.name@ + " ★"@ + decimal(w.rarity as nat)
}

/// The lines of a banner: its id, name and version, when it runs, and its
/// characters and weapons when it has any.
pub open spec fn banner_lines(b: HyvBannerPool) -> Seq<Seq<char>> {
    let head = seq![
        "  ["@ + decimal(b.pool_id as nat) + "] "@ + b.pool_name@ + " v"@ + b.version_name@,
        period_line(b.start_timestamp@, b.end_timestamp@),
    ];
    let with_chars = if b.avatars@.len() > 0 {
        head.push(
            "       characters: "@ + join(Seq::new(b.avatars@.len(), |i: int| character_entry(b.avatars@[i])), ", "@),
        )
    } else {
        head
    };
    if b.weapon@.len() > 0 {
        with_chars.push("       weapons: "@ + join(Seq::new(b.weapon@.len(), |i: int| weapon_entry(b.weapon@[i])), ", "@))
    } else {
        with_chars
    }
}

fn characters_joined(avatars: &Vec<HyvAvatar>) -> (v: Vec<char>)
    ensures
        v@ == join(Seq::new(avatars@.len(), |i: int| character_entry(avatars@[i])), ", "@),
{
    let ghost parts = Seq::new(avatars@.len(), |i: int| character_entry(avatars@[i]));
    let mut v: Vec<char> = Vec::new();
    let mut i: usize = 0;
    while i < avatars.len()
        invariant
            i <= avatars@.len(),
            parts == Seq::new(avatars@.len(), |i: int| character_entry(avatars@[i])),
            v@ == join(parts.take(i as int), ", "@),
        decreases avatars@.len() - i,
    {
        if i > 0 {
            append_str(&mut v, ", ");
        }
        let a = &avatars[i];
        append_str(&mut v, a.name.as_str());
        append_str(&mut v, " (");
        append_str(&mut v, a.element.as_str());
        append_str(&mut v, " ★");
        push_decimal(&mut v, a.rarity as u64);
        append_str(&mut v, ")");
        proof {
            assert(parts.take(i + 1) =~= parts.take(i as int).push(parts[i as int]));
            if i > 0 {
                lemma_join_push(parts.take(i as int), ", "@, parts[i as int]);
            } else {
                assert(parts.take(1) =~= seq![parts[0]]);
            }
            assert(v@ =~= join(parts.take(i + 1), ", "@));
        }
        i = i + 1;
    }
    assert(parts.take(avatars@.len() as int) =~= parts);
    v
}

fn weapons_joined(weapons: &Vec<HyvWeapon>) -> (v: Vec<char>)
    ensures
        v@ == join(Seq::new(weapons@.len(), |i: int| weapon_entry(weapons@[i])), ", "@),
{
    let ghost parts = Seq::new(weapons@.len(), |i: int| weapon_entry(weapons@[i]));
    let mut v: Vec<char> = Vec::new();
    let mut i: usize = 0;
    while i < weapons.len()
        invariant
            i <= weapons@.len(),
            parts == Seq::new(weapons@.len(), |i: int| weapon_entry(weapons@[i])),
            v@ == join(parts.take(i as int), ", "@),
        decreases weapons@.len() - i,
    {
        if i > 0 {
            append_str(&mut v, ", ");
        }
        let w = &weapons[i];
        append_str(&mut v, w.name.as_str());
        append_str(&mut v, " ★");
        push_decimal(&mut v, w.rarity as u64);
        proof {
            assert(parts.take(i + 1) =~= parts.take(i as int).push(parts[i as int]));
            if i > 0 {
                lemma_join_push(parts.take(i as int), ", "@, parts[i as int]);
            } else {
                assert(parts.take(1) =~= seq![parts[0]]);
            }
            assert(v@ =~= join(parts.take(i + 1), ", "@));
        }
        i = i + 1;
    }
    assert(parts.take(weapons@.len() as int) =~= parts);
    v
}

/// Appends the lines of a banner.
pub fn push_banner_lines(out: &mut Vec<String>, b: &HyvBannerPool)
    ensures
        views(final(out)@) == views(old(out)@) + banner_lines(*b),
{
    let ghost start = views(out@);
    let mut head: Vec<char> = Vec::new();
    append_str(&mut head, "  [");
    push_decimal(&mut head, b.pool_id);
    append_str(&mut head, "] ");
    append_str(&mut head, b.pool_name.as_str());
    append_str(&mut head, " v");
    append_str(&mut head, b.version_name.as_str());
    push_line(out, &head);
    let s = chars_of(b.start_timestamp.as_str());
    let t = chars_of(b.end_timestamp.as_str());
    push_period_line(out, &s, &t);
    if b.avatars.len() > 0 {
        let mut line: Vec<char> = Vec::new();
        append_str(&mut line, "       characters: ");
        let joined = characters_joined(&b.avatars);
        append_chars(&mut line, &joined);
        push_line(out, &line);
    }
    if b.weapon.len() > 0 {
        let mut line: Vec<char> = Vec::new();
        append_str(&mut line, "       weapons: ");
        let joined = weapons_joined(&b.weapon);
        append_chars(&mut line, &joined);
        push_line(out, &line);
    }
    assert(views(out@) =~= start + banner_lines(*b));
}

/// The report of a Genshin Impact calendar: its events with their rewards,
/// then the character, weapon and mixed banners, then the challenges, each
/// section under a heading with its count and separated by an empty line.
pub open spec fn spec_report(data: HyvCalendarData) -> Seq<Seq<char>> {
    let pools = data.avatar_card_pool_list@ + data.weapon_card_pool_list@ + data.mixed_card_pool_list@;
    seq![section_heading("Events"@, data.act_list@.len())]
        + concat_lines(data.act_list@, |e: HyvActivity| activity_lines(e, true))
        + seq![Seq::empty(), section_heading("Banners"@, pools.len())]
        + concat_lines(pools, |b: HyvBannerPool| banner_lines(b))
        + seq![Seq::empty(), section_heading("Challenges"@, data.fixed_act_list@.len())]
        + concat_lines(data.fixed_act_list@, |e: HyvActivity| activity_lines(e, false))
}

fn push_activities(out: &mut Vec<String>, acts: &Vec<HyvActivity>, with_rewards: bool)
    ensures
        views(final(out)@) == views(old(out)@) + concat_lines(acts@, |e: HyvActivity| activity_lines(e, with_rewards)),
{
    let ghost start = views(out@);
    let ghost f = |e: HyvActivity| activity_lines(e, with_rewards);
    let mut i: usize = 0;
    while i < acts.len()
        invariant
            i <= acts@.len(),
            f == (|e: HyvActivity| activity_lines(e, with_rewards)),
            views(out@) == start + concat_lines(acts@.take(i as int), f),
        decreases acts@.len() - i,
    {
        push_activity_lines(out, &acts[i], with_rewards);
        proof {
            lemma_concat_lines_step(acts@, i as int, f);
        }
        i = i + 1;
        assert(views(out@) =~= start + concat_lines(acts@.take(i as int), f));
    }
    assert(acts@.take(acts@.len() as int) =~= acts@);
}

fn push_banners(out: &mut Vec<String>, pools: &Vec<HyvBannerPool>)
    ensures
        views(final(out)@) == views(old(out)@) + concat_lines(pools@, |b: HyvBannerPool| banner_lines(b)),
{
    let ghost start = views(out@);
    let ghost f = |b: HyvBannerPool| banner_lines(b);
    let mut i: usize = 0;
    while i < pools.len()
        invariant
            i <= pools@.len(),
            f == (|b: HyvBannerPool| banner_lines(b)),
            views(out@) == start + concat_lines(pools@.take(i as int), f),
        decreases pools@.len() - i,
    {
        push_banner_lines(out, &pools[i]);
        proof {
            lemma_concat_lines_step(pools@, i as int, f);
        }
        i = i + 1;
        assert(views(out@) =~= start + concat_lines(pools@.take(i as int), f));
    }
    assert(pools@.take(pools@.len() as int) =~= pools@);
}

proof fn lemma_concat_lines_append<T>(a: Seq<T>, b: Seq<T>, f: spec_fn(T) -> Seq<Seq<char>>)
    ensures
        concat_lines(a + b, f) == concat_lines(a, f) + concat_lines(b, f),
    decreases b.len(),
{
    if b.len() == 0 {
        assert(a + b =~= a);
        assert(concat_lines(a, f) + concat_lines(b, f) =~= concat_lines(a, f));
    } else {
        lemma_concat_lines_append(a, b.drop_last(), f);
        assert((a + b).drop_last() =~= a + b.drop_last());
        assert(concat_lines(a, f) + concat_lines(b, f) =~= concat_lines(a, f) + concat_lines(b.drop_last(), f) + f(b.last()));
    }
}

/// The report of a Genshin Impact calendar, line by line.
pub fn report(data: &HyvCalendarData) -> (r: Vec<String>)
    requires
        data.avatar_card_pool_list@.len() + data.weapon_card_pool_list@.len() + data.mixed_card_pool_list@.len()
            <= usize::MAX,
    ensures
        views(r@) == spec_report(*data),
{
    let mut out: Vec<String> = Vec::new();
    push_section_heading(&mut out, "Events", data.act_list.len());
    push_activities(&mut out, &data.act_list, true);
    push_blank(&mut out);
    let total = data.avatar_card_pool_list.len() + data.weapon_card_pool_list.len() + data.mixed_card_pool_list.len();
    push_section_heading(&mut out, "Banners", total);
    let ghost b0 = views(out@);
    push_banners(&mut out, &data.avatar_card_pool_list);
    push_banners(&mut out, &data.weapon_card_pool_list);
    push_banners(&mut out, &data.mixed_card_pool_list);
    proof {
        let f = |b: HyvBannerPool| banner_lines(b);
        lemma_concat_lines_append(data.avatar_card_pool_list@, data.weapon_card_pool_list@, f);
        lemma_concat_lines_append(
            data.avatar_card_pool_list@ + data.weapon_card_pool_list@,
            data.mixed_card_pool_list@,
            f,
        );
    }
    push_blank(&mut out);
    push_section_heading(&mut out, "Challenges", data.fixed_act_list.len());
    push_activities(&mut out, &data.fixed_act_list, false);
    assert(views(out@) =~= spec_report(*data));
    out
}

} // verus!
