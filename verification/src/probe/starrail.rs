//! The probe's report of a Honkai: Star Rail calendar.

use vstd::prelude::*;
use crate::http::routes::calendar::starrail::{
    dated, dated_activities, HyvActivity, HyvAvatarPool, HyvCalendarData, HyvChallenge, HyvCharacter,
    HyvEquipPool, HyvLightCone, HyvReward,
};
use crate::text::{append_chars, append_str, chars_of, decimal, join, lemma_join_push, push_decimal};
use super::{
    concat_lines, lemma_concat_lines_step, period_line, push_blank, push_line, push_period_line,
    push_section_heading, push_special_line, section_heading, special_line, views,
};

verus! {

/// The special reward shown, if there is one: HoYoLab writes item id `0`
/// for none.
pub open spec fn shown_special(r: Option<HyvReward>) -> Option<HyvReward> {
    match r {
        Some(x) => if x.item_id != 0 {
            Some(x)
        } else {
            None
        },
        None => None,
    }
}

/// The lines of the special reward, if one is shown.
pub open spec fn special_lines(r: Option<HyvReward>) -> Seq<Seq<char>> {
    match shown_special(r) {
        Some(x) => seq![special_line(x.name@, x.num as nat, x.rarity@)],
        None => Seq::empty(),
    }
}

/// The names of the rewards given in some number, in order.
pub open spec fn counted_names(rs: Seq<HyvReward>) -> Seq<Seq<char>>
    decreases rs.len(),
{
    if rs.len() == 0 {
        Seq::empty()
    } else if rs.last().num > 0 {
        counted_names(rs.drop_last()).push(rs.last().name@)
    } else {
        counted_names(rs.drop_last())
    }
}

/// The lines of an event: its id, name and type, when it runs, its special
/// reward if one is shown, and the rewards given in some number.
pub open spec fn event_lines(e: HyvActivity) -> Seq<Seq<char>> {
    let head = seq![
        "  ["@ + decimal(e.id as nat) + "] "@ + e.name@ + " ("@ + e.act_type@ + ")"@,
        period_line(e.time_info.start_time@, e.time_info.end_time@),
    ] + special_lines(e.special_reward);
    let rest = counted_names(e.reward_list@);
    if rest.len() > 0 {
        head.push("       rewards: "@ + join(rest, ", "@))
    } else {
        head
    }
}

fn push_special_lines(out: &mut Vec<String>, r: &Option<HyvReward>)
    ensures
        views(final(out)@) == views(old(out)@) + special_lines(*r),
{
    match r {
        Some(x) => if x.item_id != 0 {
            push_special_line(out, x.name.as_str(), x.num, x.rarity.as_str());
        } else {
            assert(views(out@) =~= views(out@) + Seq::<Seq<char>>::empty());
        },
        None => {
            assert(views(out@) =~= views(out@) + Seq::<Seq<char>>::empty());
        },
    }
    assert(views(final(out)@) =~= views(old(out)@) + special_lines(*r));
}

fn counted_joined(rs: &Vec<HyvReward>) -> (r: (usize, Vec<char>))
    ensures
        r.0 == counted_names(rs@).len(),
        r.1@ == join(counted_names(rs@), ", "@),
{
    let mut count: usize = 0;
    let mut v: Vec<char> = Vec::new();
    let mut i: usize = 0;
    while i < rs.len()
        invariant
            i <= rs@.len(),
            count == counted_names(rs@.take(i as int)).len(),
            count <= i,
            v@ == join(counted_names(rs@.take(i as int)), ", "@),
        decreases rs@.len() - i,
    {
        proof {
            assert(rs@.take(i + 1).drop_last() =~= rs@.take(i as int));
        }
        if rs[i].num > 0 {
            let ghost names = counted_names(rs@.take(i as int));
            if count > 0 {
                append_str(&mut v, ", ");
            }
            append_str(&mut v, rs[i].name.as_str());
            proof {
                if count > 0 {
                    lemma_join_push(names, ", "@, rs@[i as int].name@);
                } else {
                    assert(names.push(rs@[i as int].name@) =~= seq![rs@[i as int].name@]);
                }
            }
            count = count + 1;
        }
        i = i + 1;
    }
    assert(rs@.take(rs@.len() as int) =~= rs@);
    (count, v)
}

/// Appends the lines of an event.
pub fn push_event_lines(out: &mut Vec<String>, e: &HyvActivity)
    ensures
        views(final(out)@) == views(old(out)@) + event_lines(*e),
{
    let ghost start = views(out@);
    let mut head: Vec<char> = Vec::new();
    append_str(&mut head, "  [");
    push_decimal(&mut head, e.id);
    append_str(&mut head, "] ");
    append_str(&mut head, e.name.as_str());
    append_str(&mut head, " (");
    append_str(&mut head, e.act_type.as_str());
    append_str(&mut head, ")");
    push_line(out, &head);
    let s = chars_of(e.time_info.start_time.as_str());
    let t = chars_of(e.time_info.end_time.as_str());
    push_period_line(out, &s, &t);
    push_special_lines(out, &e.special_reward);
    let (count, joined) = counted_joined(&e.reward_list);
    if count > 0 {
        let mut line: Vec<char> = Vec::new();
        append_str(&mut line, "       rewards: ");
        append_chars(&mut line, &joined);
        push_line(out, &line);
    }
    assert(views(out@) =~= start + event_lines(*e));
}

/// The lines of a challenge: its id, name and type, when it runs, and its
/// special reward if one is shown.
pub open spec fn challenge_lines(c: HyvChallenge) -> Seq<Seq<char>> {
    seq![
        "  ["@ + decimal(c.group_id as nat) + "] "@ + c.name_mi18n@ + " ("@ + c.challenge_type@ + ")"@,
        period_line(c.time_info.start_time@, c.time_info.end_time@),
    ] + special_lines(c.special_reward)
}

/// Appends the lines of a challenge.
pub fn push_challenge_lines(out: &mut Vec<String>, c: &HyvChallenge)
    ensures
        views(final(out)@) == views(old(out)@) + challenge_lines(*c),
{
    let ghost start = views(out@);
    let mut head: Vec<char> = Vec::new();
    append_str(&mut head, "  [");
    push_decimal(&mut head, c.group_id);
    append_str(&mut head, "] ");
    append_str(&mut head, c.name_mi18n.as_str());
    append_str(&mut head, " (");
    append_str(&mut head, c.challenge_type.as_str());
    append_str(&mut head, ")");
    push_line(out, &head);
    let s = chars_of(c.time_info.start_time.as_str());
    let t = chars_of(c.time_info.end_time.as_str());
    push_period_line(out, &s, &t);
    push_special_lines(out, &c.special_reward);
    assert(views(out@) =~= start + challenge_lines(*c));
}

/// How a character is shown on a banner's line.
pub open spec fn character_entry(c: HyvCharacter) -> Seq<char> {
    c.item_name@ + " ("@ + c.damage_type@ + " path:"@ + c.avatar_base_type@ + " ★"@ + c.rarity@ + ")"@
}

/// How a light cone is shown on a banner's line.
pub open spec fn light_cone_entry(c: HyvLightCone) -> Seq<char> {
    c.item_name@ + " (path:"@ + c.avatar_base_type@ + " ★"@ + c.rarity@ + ")"@
}

/// The first two lines of a banner: its id, name and version, and when it runs.
pub open spec fn banner_head(id: Seq<char>, name: Seq<char>, version: Seq<char>, start: Seq<char>, end: Seq<char>) -> Seq<Seq<char>> {
    seq!["  ["@ + id + "] "@ + name + " v"@ + version, period_line(start, end)]
}

/// The lines of a character banner.
pub open spec fn avatar_banner_lines(p: HyvAvatarPool) -> Seq<Seq<char>> {
    let head = banner_head(p.id@, p.name@, p.version@, p.time_info.start_time@, p.time_info.end_time@);
    if p.avatar_list@.len() > 0 {
        head.push(
            "       characters: "@ + join(Seq::new(p.avatar_list@.len(), |i: int| character_entry(p.avatar_list@[i])), ", "@),
        )
    } else {
        head
    }
}

/// The lines of a light cone banner.
pub open spec fn equip_banner_lines(p: HyvEquipPool) -> Seq<Seq<char>> {
    let head = banner_head(p.id@, p.name@, p.version@, p.time_info.start_time@, p.time_info.end_time@);
    if p.equip_list@.len() > 0 {
        head.push(
            "       light cones: "@ + join(Seq::new(p.equip_list@.len(), |i: int| light_cone_entry(p.equip_list@[i])), ", "@),
        )
    } else {
        head
    }
}

fn push_banner_head(out: &mut Vec<String>, id: &str, name: &str, version: &str, start: &str, end: &str)
    ensures
        views(final(out)@) == views(old(out)@) + banner_head(id@, name@, version@, start@, end@),
{
    let ghost before = views(out@);
    let mut head: Vec<char> = Vec::new();
    append_str(&mut head, "  [");
    append_str(&mut head, id);
    append_str(&mut head, "] ");
    append_str(&mut head, name);
    append_str(&mut head, " v");
    append_str(&mut head, version);
    push_line(out, &head);
    let s = chars_of(start);
    let t = chars_of(end);
    push_period_line(out, &s, &t);
    assert(views(out@) =~= before + banner_head(id@, name@, version@, start@, end@));
}

fn characters_joined(list: &Vec<HyvCharacter>) -> (v: Vec<char>)
    ensures
        v@ == join(Seq::new(list@.len(), |i: int| character_entry(list@[i])), ", "@),
{
    let ghost parts = Seq::new(list@.len(), |i: int| character_entry(list@[i]));
    let mut v: Vec<char> = Vec::new();
    let mut i: usize = 0;
    while i < list.len()
        invariant
            i <= list@.len(),
            parts == Seq::new(list@.len(), |i: int| character_entry(list@[i])),
            v@ == join(parts.take(i as int), ", "@),
        decreases list@.len() - i,
    {
        if i > 0 {
            append_str(&mut v, ", ");
        }
        let c = &list[i];
        append_str(&mut v, c.item_name.as_str());
        append_str(&mut v, " (");
        append_str(&mut v, c.damage_type.as_str());
        append_str(&mut v, " path:");
        append_str(&mut v, c.avatar_base_type.as_str());
        append_str(&mut v, " ★");
        append_str(&mut v, c.rarity.as_str());
        append_str(&mut v, ")");
        proof {
            assert(parts.take(i + 1) =~= parts.take(i as int).push(parts[i as int]));
            if i > 0 {
                lemma_join_push(parts.take(i as int), ", "@, parts[i as int]);
            } else {
                assert(parts.take(1) =~= seq![parts[0]]);
            }
            assert(v@ =~= join(parts.take(i + 1), ", "@));
        }
        i = i + 1;
    }
    assert(parts.take(list@.len() as int) =~= parts);
    v
}

fn light_cones_joined(list: &Vec<HyvLightCone>) -> (v: Vec<char>)
    ensures
        v@ == join(Seq::new(list@.len(), |i: int| light_cone_entry(list@[i])), ", "@),
{
    let ghost parts = Seq::new(list@.len(), |i: int| light_cone_entry(list@[i]));
    let mut v: Vec<char> = Vec::new();
    let mut i: usize = 0;
    while i < list.len()
        invariant
            i <= list@.len(),
            parts == Seq::new(list@.len(), |i: int| light_cone_entry(list@[i])),
            v@ == join(parts.take(i as int), ", "@),
        decreases list@.len() - i,
    {
        if i > 0 {
            append_str(&mut v, ", ");
        }
        let c = &list[i];
        append_str(&mut v, c.item_name.as_str());
        append_str(&mut v, " (path:");
        append_str(&mut v, c.avatar_base_type.as_str());
        append_str(&mut v, " ★");
        append_str(&mut v, c.rarity.as_str());
        append_str(&mut v, ")");
        proof {
            assert(parts.take(i + 1) =~= parts.take(i as int).push(parts[i as int]));
            if i > 0 {
                lemma_join_push(parts.take(i as int), ", "@, parts[i as int]);
            } else {
                assert(parts.take(1) =~= seq![parts[0]]);
            }
            assert(v@ =~= join(parts.take(i + 1), ", "@));
        }
        i = i + 1;
    }
    assert(parts.take(list@.len() as int) =~= parts);
    v
}

/// Appends the lines of a character banner.
pub fn push_avatar_banner_lines(out: &mut Vec<String>, p: &HyvAvatarPool)
    ensures
        views(final(out)@) == views(old(out)@) + avatar_banner_lines(*p),
{
    let ghost start = views(out@);
    push_banner_head(
        out,
        p.id.as_str(),
        p.name.as_str(),
        p.version.as_str(),
        p.time_info.start_time.as_str(),
        p.time_info.end_time.as_str(),
    );
    if p.avatar_list.len() > 0 {
        let mut line: Vec<char> = Vec::new();
        append_str(&mut line, "       characters: ");
        let joined = characters_joined(&p.avatar_list);
        append_chars(&mut line, &joined);
        push_line(out, &line);
    }
    assert(views(out@) =~= start + avatar_banner_lines(*p));
}

/// Appends the lines of a light cone banner.
pub fn push_equip_banner_lines(out: &mut Vec<String>, p: &HyvEquipPool)
    ensures
        views(final(out)@) == views(old(out)@) + equip_banner_lines(*p),
{
    let ghost start = views(out@);
    push_banner_head(
        out,
        p.id.as_str(),
        p.name.as_str(),
        p.version.as_str(),
        p.time_info.start_time.as_str(),
        p.time_info.end_time.as_str(),
    );
    if p.equip_list.len() > 0 {
        let mut line: Vec<char> = Vec::new();
        append_str(&mut line, "       light cones: ");
        let joined = light_cones_joined(&p.equip_list);
        append_chars(&mut line, &joined);
        push_line(out, &line);
    }
    assert(views(out@) =~= start + equip_banner_lines(*p));
}

/// The report of a Honkai: Star Rail calendar: the events that have both
/// times, then the character and light cone banners, then the challenges,
/// each section under a heading with its count and separated by an empty
/// line.
pub open spec fn spec_report(data: HyvCalendarData) -> Seq<Seq<char>> {
    let events = dated_activities(data.act_list@);
    seq![section_heading("Events"@, events.len())]
        + concat_lines(events, |e: HyvActivity| event_lines(e))
        + seq![
        Seq::empty(),
        section_heading("Banners"@, data.avatar_card_pool_list@.len() + data.equip_card_pool_list@.len()),
    ] + concat_lines(data.avatar_card_pool_list@, |p: HyvAvatarPool| avatar_banner_lines(p))
        + concat_lines(data.equip_card_pool_list@, |p: HyvEquipPool| equip_banner_lines(p))
        + seq![Seq::empty(), section_heading("Challenges"@, data.challenge_list@.len())]
        + concat_lines(data.challenge_list@, |c: HyvChallenge| challenge_lines(c))
}

/// The report of a Honkai: Star Rail calendar, line by line.
pub fn report(data: &HyvCalendarData) -> (r: Vec<String>)
    requires
        data.avatar_card_pool_list@.len() + data.equip_card_pool_list@.len() <= usize::MAX,
    ensures
        views(r@) == spec_report(*data),
{
    let mut out: Vec<String> = Vec::new();
    let mut events: Vec<&HyvActivity> = Vec::new();
    let mut i: usize = 0;
    while i < data.act_list.len()
        invariant
            i <= data.act_list@.len(),
            events@.len() == dated_activities(data.act_list@.take(i as int)).len(),
            forall|j: int| 0 <= j < events@.len() ==> *(#[trigger] events@[j]) == dated_activities(data.act_list@.take(i as int))[j],
        decreases data.act_list@.len() - i,
    {
        proof {
            assert(data.act_list@.take(i + 1).drop_last() =~= data.act_list@.take(i as int));
        }
        if dated(&data.act_list[i]) {
            events.push(&data.act_list[i]);
        }
        i = i + 1;
    }
    proof {
        assert(data.act_list@.take(data.act_list@.len() as int) =~= data.act_list@);
    }
    let ghost ev = dated_activities(data.act_list@);
    push_section_heading(&mut out, "Events", events.len());
    let ghost start = views(out@);
    let ghost f = |e: HyvActivity| event_lines(e);
    let mut k: usize = 0;
    while k < events.len()
        invariant
            k <= events@.len(),
            events@.len() == ev.len(),
            forall|j: int| 0 <= j < events@.len() ==> *(#[trigger] events@[j]) == ev[j],
            f == (|e: HyvActivity| event_lines(e)),
            views(out@) == start + concat_lines(ev.take(k as int), f),
        decreases events@.len() - k,
    {
        push_event_lines(&mut out, events[k]);
        proof {
            lemma_concat_lines_step(ev, k as int, f);
        }
        k = k + 1;
        assert(views(out@) =~= start + concat_lines(ev.take(k as int), f));
    }
    assert(ev.take(ev.len() as int) =~= ev);
    push_blank(&mut out);
    push_section_heading(&mut out, "Banners", data.avatar_card_pool_list.len() + data.equip_card_pool_list.len());
    let ghost s1 = views(out@);
    let ghost fa = |p: HyvAvatarPool| avatar_banner_lines(p);
    let mut a: usize = 0;
    while a < data.avatar_card_pool_list.len()
        invariant
            a <= data.avatar_card_pool_list@.len(),
            fa == (|p: HyvAvatarPool| avatar_banner_lines(p)),
            views(out@) == s1 + concat_lines(data.avatar_card_pool_list@.take(a as int), fa),
        decreases data.avatar_card_pool_list@.len() - a,
    {
        push_avatar_banner_lines(&mut out, &data.avatar_card_pool_list[a]);
        proof {
            lemma_concat_lines_step(data.avatar_card_pool_list@, a as int, fa);
        }
        a = a + 1;
        assert(views(out@) =~= s1 + concat_lines(data.avatar_card_pool_list@.take(a as int), fa));
    }
    assert(data.avatar_card_pool_list@.take(data.avatar_card_pool_list@.len() as int) =~= data.avatar_card_pool_list@);
    let ghost s2 = views(out@);
    let ghost fe = |p: HyvEquipPool| equip_banner_lines(p);
    let mut b: usize = 0;
    while b < data.equip_card_pool_list.len()
        invariant
            b <= data.equip_card_pool_list@.len(),
            fe == (|p: HyvEquipPool| equip_banner_lines(p)),
            views(out@) == s2 + concat_lines(data.equip_card_pool_list@.take(b as int), fe),
        decreases data.equip_card_pool_list@.len() - b,
    {
        push_equip_banner_lines(&mut out, &data.equip_card_pool_list[b]);
        proof {
            lemma_concat_lines_step(data.equip_card_pool_list@, b as int, fe);
        }
        b = b + 1;
        assert(views(out@) =~= s2 + concat_lines(data.equip_card_pool_list@.take(b as int), fe));
    }
    assert(data.equip_card_pool_list@.take(data.equip_card_pool_list@.len() as int) =~= data.equip_card_pool_list@);
    push_blank(&mut out);
    push_section_heading(&mut out, "Challenges", data.challenge_list.len());
    let ghost s3 = views(out@);
    let ghost fc = |c: HyvChallenge| challenge_lines(c);
    let mut c: usize = 0;
    while c < data.challenge_list.len()
        invariant
            c <= data.challenge_list@.len(),
            fc == (|c: HyvChallenge| challenge_lines(c)),
            views(out@) == s3 + concat_lines(data.challenge_list@.take(c as int), fc),
        decreases data.challenge_list@.len() - c,
    {
        push_challenge_lines(&mut out, &data.challenge_list[c]);
        proof {
            lemma_concat_lines_step(data.challenge_list@, c as int, fc);
        }
        c = c + 1;
        assert(views(out@) =~= s3 + concat_lines(data.challenge_list@.take(c as int), fc));
    }
    assert(data.challenge_list@.take(data.challenge_list@.len() as int) =~= data.challenge_list@);
    assert(views(out@) =~= spec_report(*data));
    out
}

} // verus!
