//! The probe's report of a Zenless Zone Zero calendar and its challenges.

use vstd::prelude::*;
use crate::http::routes::calendar::zenless::{
    challenge_names, numeric_timestamp, spec_challenge_names, spec_element, spec_numeric_timestamp,
    spec_shiyu_end, spec_shiyu_start, spec_structured_timestamp, structured_timestamp, HyvActivity,
    HyvActivityData, HyvAvatar, HyvAvatarGacha, HyvChallengePeriod, HyvGachaData, HyvShiyuData,
    HyvShiyuPeriod, HyvThresholdData, HyvWeapon, HyvWeaponGacha,
};
use crate::text::{
    append_chars, append_str, decimal, join, lemma_join_push, opt_view, push_decimal, push_signed_decimal,
    signed_decimal,
};
use super::{
    concat_lines, lemma_concat_lines_step, map_element, map_profession, period_line, push_blank, push_line,
    push_period_line, push_section_heading, section_heading, spec_profession, views,
    zenless_challenge_heading,
};

verus! {

/// The lines of an event: its id, name and state, when it runs, and its
/// Polychrome reward.
pub open spec fn event_lines(e: HyvActivity) -> Seq<Seq<char>> {
    seq![
        "  ["@ + decimal(e.activity_id as nat) + "] "@ + e.name@ + " ("@ + e.state@ + ")"@,
        period_line(signed_decimal(e.start_ts as int), signed_decimal(e.end_ts as int)),
        "       polychrome: "@ + decimal(e.monochrome_cnt as nat),
    ]
}

/// Appends the lines of an event.
pub fn push_event_lines(out: &mut Vec<String>, e: &HyvActivity)
    ensures
        views(final(out)@) == views(old(out)@) + event_lines(*e),
{
    let ghost start = views(out@);
    let mut head: Vec<char> = Vec::new();
    append_str(&mut head, "  [");
    push_decimal(&mut head, e.activity_id);
    append_str(&mut head, "] ");
    append_str(&mut head, e.name.as_str());
    append_str(&mut head, " (");
    append_str(&mut head, e.state.as_str());
    append_str(&mut head, ")");
    push_line(out, &head);
    let mut s: Vec<char> = Vec::new();
    push_signed_decimal(&mut s, e.start_ts);
    let mut t: Vec<char> = Vec::new();
    push_signed_decimal(&mut t, e.end_ts);
    push_period_line(out, &s, &t);
    let mut p: Vec<char> = Vec::new();
    append_str(&mut p, "       polychrome: ");
    push_decimal(&mut p, e.monochrome_cnt);
    push_line(out, &p);
    assert(views(out@) =~= start + event_lines(*e));
}

/// The name an agent is shown by: its full name, or its short name when the
/// full one is empty.
pub open spec fn agent_name(a: HyvAvatar) -> Seq<char> {
    if a.full_name@.len() == 0 {
        a.avatar_name@
    } else {
        a.full_name@
    }
}

/// How an agent is shown on a banner's line.
pub open spec fn agent_entry(a: HyvAvatar) -> Seq<char> {
    agent_name(a) + " #"@ + decimal(a.avatar_id as nat) + " (★"@ + a.rarity@ + " "@ + spec_profession(a.avatar_profession)
        + " "@ + spec_element(a.avatar_element_type) + ")"@
}

/// How a W-Engine is shown on a banner's line.
pub open spec fn w_engine_entry(w: HyvWeapon) -> Seq<char> {
    w.talent_title@ + " #"@ + decimal(w.weapon_id as nat) + " (★"@ + w.rarity@ + " "@ + spec_profession(w.profession) + ")"@
}

/// The first two lines of a banner: its kind, version and state, and when it runs.
pub open spec fn banner_head(kind: Seq<char>, version: Seq<char>, state: Seq<char>, start: i64, end: i64) -> Seq<Seq<char>> {
    seq![
        "  "@ + kind + " v"@ + version + " ("@ + state + ")"@,
        period_line(signed_decimal(start as int), signed_decimal(end as int)),
    ]
}

/// The lines of an agent banner.
pub open spec fn agent_banner_lines(b: HyvAvatarGacha) -> Seq<Seq<char>> {
    let head = banner_head(b.gacha_type@, b.version@, b.gacha_state@, b.start_ts, b.end_ts);
    if b.avatar_list@.len() > 0 {
        head.push("       agents: "@ + join(Seq::new(b.avatar_list@.len(), |i: int| agent_entry(b.avatar_list@[i])), ", "@))
    } else {
        head
    }
}

/// The lines of a W-Engine banner.
pub open spec fn w_engine_banner_lines(b: HyvWeaponGacha) -> Seq<Seq<char>> {
    let head = banner_head(b.gacha_type@, b.version@, b.gacha_state@, b.start_ts, b.end_ts);
    if b.weapon_list@.len() > 0 {
        head.push(
            "       w-engines: "@ + join(Seq::new(b.weapon_list@.len(), |i: int| w_engine_entry(b.weapon_list@[i])), ", "@),
        )
    } else {
        head
    }
}

fn push_banner_head(out: &mut Vec<String>, kind: &str, version: &str, state: &str, start: i64, end: i64)
    ensures
        views(final(out)@) == views(old(out)@) + banner_head(kind@, version@, state@, start, end),
{
    let ghost before = views(out@);
    let mut head: Vec<char> = Vec::new();
    append_str(&mut head, "  ");
    append_str(&mut head, kind);
    append_str(&mut head, " v");
    append_str(&mut head, version);
    append_str(&mut head, " (");
    append_str(&mut head, state);
    append_str(&mut head, ")");
    push_line(out, &head);
    let mut s: Vec<char> = Vec::new();
    push_signed_decimal(&mut s, start);
    let mut t: Vec<char> = Vec::new();
    push_signed_decimal(&mut t, end);
    push_period_line(out, &s, &t);
    assert(views(out@) =~= before + banner_head(kind@, version@, state@, start, end));
}

fn agents_joined(list: &Vec<HyvAvatar>) -> (v: Vec<char>)
    ensures
        v@ == join(Seq::new(list@.len(), |i: int| agent_entry(list@[i])), ", "@),
{
    let ghost parts = Seq::new(list@.len(), |i: int| agent_entry(list@[i]));
    let mut v: Vec<char> = Vec::new();
    let mut i: usize = 0;
    while i < list.len()
        invariant
            i <= list@.len(),
            parts == Seq::new(list@.len(), |i: int| agent_entry(list@[i])),
            v@ == join(parts.take(i as int), ", "@),
        decreases list@.len() - i,
    {
        if i > 0 {
            append_str(&mut v, ", ");
        }
        let a = &list[i];
        if a.full_name.as_str().unicode_len() == 0 {
            append_str(&mut v, a.avatar_name.as_str());
        } else {
            append_str(&mut v, a.full_name.as_str());
        }
        append_str(&mut v, " #");
        push_decimal(&mut v, a.avatar_id);
        append_str(&mut v, " (★");
        append_str(&mut v, a.rarity.as_str());
        append_str(&mut v, " ");
        append_str(&mut v, map_profession(a.avatar_profession));
        append_str(&mut v, " ");
        append_str(&mut v, map_element(a.avatar_element_type));
        append_str(&mut v, ")");
        proof {
            assert(parts.take(i + 1) =~= parts.take(i as int).push(parts[i as int]));
            if i > 0 {
                lemma_join_push(parts.take(i as int), ", "@, parts[i as int]);
            } else {
                assert(parts.take(1) =~= seq![parts[0]]);
            }
            assert(v@ =~= join(parts.take(i + 1), ", "@));
        }
        i = i + 1;
    }
    assert(parts.take(list@.len() as int) =~= parts);
    v
}

fn w_engines_joined(list: &Vec<HyvWeapon>) -> (v: Vec<char>)
    ensures
        v@ == join(Seq::new(list@.len(), |i: int| w_engine_entry(list@[i])), ", "@),
{
    let ghost parts = Seq::new(list@.len(), |i: int| w_engine_entry(list@[i]));
    let mut v: Vec<char> = Vec::new();
    let mut i: usize = 0;
    while i < list.len()
        invariant
            i <= list@.len(),
            parts == Seq::new(list@.len(), |i: int| w_engine_entry(list@[i])),
            v@ == join(parts.take(i as int), ", "@),
        decreases list@.len() - i,
    {
        if i > 0 {
            append_str(&mut v, ", ");
        }
        let w = &list[i];
        append_str(&mut v, w.talent_title.as_str());
        append_str(&mut v, " #");
        push_decimal(&mut v, w.weapon_id);
        append_str(&mut v, " (★");
        append_str(&mut v, w.rarity.as_str());
        append_str(&mut v, " ");
        append_str(&mut v, map_profession(w.profession));
        append_str(&mut v, ")");
        proof {
            assert(parts.take(i + 1) =~= parts.take(i as int).push(parts[i as int]));
            if i > 0 {
                lemma_join_push(parts.take(i as int), ", "@, parts[i as int]);
            } else {
                assert(parts.take(1) =~= seq![parts[0]]);
            }
            assert(v@ =~= join(parts.take(i + 1), ", "@));
        }
        i = i + 1;
    }
    assert(parts.take(list@.len() as int) =~= parts);
    v
}

/// Appends the lines of an agent banner.
pub fn push_agent_banner_lines(out: &mut Vec<String>, b: &HyvAvatarGacha)
    ensures
        views(final(out)@) == views(old(out)@) + agent_banner_lines(*b),
{
    let ghost start = views(out@);
    push_banner_head(out, b.gacha_type.as_str(), b.version.as_str(), b.gacha_state.as_str(), b.start_ts, b.end_ts);
    if b.avatar_list.len() > 0 {
        let mut line: Vec<char> = Vec::new();
        append_str(&mut line, "       agents: ");
        let joined = agents_joined(&b.avatar_list);
        append_chars(&mut line, &joined);
        push_line(out, &line);
    }
    assert(views(out@) =~= start + agent_banner_lines(*b));
}

/// Appends the lines of a W-Engine banner.
pub fn push_w_engine_banner_lines(out: &mut Vec<String>, b: &HyvWeaponGacha)
    ensures
        views(final(out)@) == views(old(out)@) + w_engine_banner_lines(*b),
{
    let ghost start = views(out@);
    push_banner_head(out, b.gacha_type.as_str(), b.version.as_str(), b.gacha_state.as_str(), b.start_ts, b.end_ts);
    if b.weapon_list.len() > 0 {
        let mut line: Vec<char> = Vec::new();
        append_str(&mut line, "       w-engines: ");
        let joined = w_engines_joined(&b.weapon_list);
        append_chars(&mut line, &joined);
        push_line(out, &line);
    }
    assert(views(out@) =~= start + w_engine_banner_lines(*b));
}

/// A time as the probe prints it: the timestamp, or `unavailable`.
pub open spec fn time_text(t: Option<i64>) -> Seq<char> {
    match t {
        Some(v) => signed_decimal(v as int),
        None => "unavailable"@,
    }
}

/// The lines of a challenge: its name, and when it runs.
pub open spec fn challenge_lines(name: Seq<char>, start: Option<i64>, end: Option<i64>) -> Seq<Seq<char>> {
    seq!["  "@ + name, period_line(time_text(start), time_text(end))]
}

fn push_time_text(v: &mut Vec<char>, t: Option<i64>)
    ensures
        final(v)@ == old(v)@ + time_text(t),
{
    match t {
        Some(x) => push_signed_decimal(v, x),
        None => append_str(v, "unavailable"),
    }
}

/// Appends the lines of a challenge.
pub fn push_challenge_lines(out: &mut Vec<String>, name: &str, start: Option<i64>, end: Option<i64>)
    ensures
        views(final(out)@) == views(old(out)@) + challenge_lines(name@, start, end),
{
    let ghost before = views(out@);
    let mut head: Vec<char> = Vec::new();
    append_str(&mut head, "  ");
    append_str(&mut head, name);
    push_line(out, &head);
    let mut s: Vec<char> = Vec::new();
    push_time_text(&mut s, start);
    let mut t: Vec<char> = Vec::new();
    push_time_text(&mut t, end);
    push_period_line(out, &s, &t);
    assert(views(out@) =~= before + challenge_lines(name@, start, end));
}

/// The start and end of a dated schedule.
pub open spec fn period_times(p: Option<HyvChallengePeriod>, region: Seq<char>) -> (Option<i64>, Option<i64>) {
    match p {
        Some(d) => (spec_structured_timestamp(d.start_time, region), spec_structured_timestamp(d.end_time, region)),
        None => (None, None),
    }
}

/// The start and end of the Shiyu Defense schedule: numeric timestamps, or
/// else dates.
pub open spec fn shiyu_times(data: Option<HyvShiyuData>, region: Seq<char>) -> (Option<i64>, Option<i64>) {
    match data {
        Some(d) => match d.hadal_info_v2 {
            Some(p) => (spec_shiyu_start(p, region), spec_shiyu_end(p, region)),
            None => (None, None),
        },
        None => (None, None),
    }
}

fn dated_period_times(p: Option<&HyvChallengePeriod>, region: &str) -> (r: (Option<i64>, Option<i64>))
    ensures
        r == period_times(match p { Some(d) => Some(*d), None => None }, region@),
{
    match p {
        Some(d) => (structured_timestamp(d.start_time.as_ref(), region), structured_timestamp(d.end_time.as_ref(), region)),
        None => (None, None),
    }
}

fn shiyu_period_times(data: &Option<HyvShiyuData>, region: &str) -> (r: (Option<i64>, Option<i64>))
    ensures
        r == shiyu_times(*data, region@),
{
    let p: &HyvShiyuPeriod = match data {
        Some(d) => match &d.hadal_info_v2 {
            Some(p) => p,
            None => return (None, None),
        },
        None => return (None, None),
    };
    let start = match numeric_timestamp(match &p.begin_time { Some(b) => Some(b.as_str()), None => None }) {
        Some(v) => Some(v),
        None => structured_timestamp(p.hadal_begin_time.as_ref(), region),
    };
    let end = match numeric_timestamp(match &p.end_time { Some(b) => Some(b.as_str()), None => None }) {
        Some(v) => Some(v),
        None => structured_timestamp(p.hadal_end_time.as_ref(), region),
    };
    (start, end)
}

/// The lines of the four challenges, under their heading, with their names
/// in `lang`: Deadly Assault, Threshold Simulation, Shiyu Defense and
/// Annihilation Simulacrum, each with the times its answer gives.
pub open spec fn spec_challenge_report(
    deadly: Option<HyvChallengePeriod>,
    threshold: Option<HyvThresholdData>,
    shiyu: Option<HyvShiyuData>,
    annihilation: Option<HyvChallengePeriod>,
    region: Seq<char>,
    lang: Seq<char>,
) -> Seq<Seq<char>> {
    let names = spec_challenge_names(lang);
    let d = period_times(deadly, region);
    let t = period_times(
        match threshold {
            Some(x) => x.void_front_battle_abstract_info_brief,
            None => None,
        },
        region,
    );
    let s = shiyu_times(shiyu, region);
    let a = period_times(annihilation, region);
    seq![zenless_challenge_heading()] + challenge_lines(names[0], d.0, d.1) + challenge_lines(names[1], t.0, t.1)
        + challenge_lines(names[2], s.0, s.1) + challenge_lines(names[3], a.0, a.1)
}

/// The report of a Zenless Zone Zero calendar: its events, then the agent
/// and W-Engine banners, then the four challenges, each section separated
/// by an empty line.
pub open spec fn spec_report(
    activity: HyvActivityData,
    gacha: HyvGachaData,
    deadly: Option<HyvChallengePeriod>,
    threshold: Option<HyvThresholdData>,
    shiyu: Option<HyvShiyuData>,
    annihilation: Option<HyvChallengePeriod>,
    region: Seq<char>,
    lang: Seq<char>,
) -> Seq<Seq<char>> {
    seq![section_heading("Events"@, activity.activity_list@.len())]
        + concat_lines(activity.activity_list@, |e: HyvActivity| event_lines(e))
        + seq![
        Seq::empty(),
        section_heading("Banners"@, gacha.avatar_gacha_schedule_list@.len() + gacha.weapon_gacha_schedule_list@.len()),
    ] + concat_lines(gacha.avatar_gacha_schedule_list@, |b: HyvAvatarGacha| agent_banner_lines(b))
        + concat_lines(gacha.weapon_gacha_schedule_list@, |b: HyvWeaponGacha| w_engine_banner_lines(b))
        + seq![Seq::empty()]
        + spec_challenge_report(deadly, threshold, shiyu, annihilation, region, lang)
}

/// The report of a Zenless Zone Zero calendar, line by line; each
/// challenge's answer is `None` when it could not be had.
pub fn report(
    activity: &HyvActivityData,
    gacha: &HyvGachaData,
    deadly: &Option<HyvChallengePeriod>,
    threshold: &Option<HyvThresholdData>,
    shiyu: &Option<HyvShiyuData>,
    annihilation: &Option<HyvChallengePeriod>,
    region: &str,
    lang: &str,
) -> (r: Vec<String>)
    requires
        gacha.avatar_gacha_schedule_list@.len() + gacha.weapon_gacha_schedule_list@.len() <= usize::MAX,
    ensures
        views(r@) == spec_report(*activity, *gacha, *deadly, *threshold, *shiyu, *annihilation, region@, lang@),
{
    let mut out: Vec<String> = Vec::new();
    push_section_heading(&mut out, "Events", activity.activity_list.len());
    let ghost s0 = views(out@);
    let ghost fe = |e: HyvActivity| event_lines(e);
    let mut i: usize = 0;
    while i < activity.activity_list.len()
        invariant
            i <= activity.activity_list@.len(),
            fe == (|e: HyvActivity| event_lines(e)),
            views(out@) == s0 + concat_lines(activity.activity_list@.take(i as int), fe),
        decreases activity.activity_list@.len() - i,
    {
        push_event_lines(&mut out, &activity.activity_list[i]);
        proof {
            lemma_concat_lines_step(activity.activity_list@, i as int, fe);
        }
        i = i + 1;
        assert(views(out@) =~= s0 + concat_lines(activity.activity_list@.take(i as int), fe));
    }
    assert(activity.activity_list@.take(activity.activity_list@.len() as int) =~= activity.activity_list@);
    push_blank(&mut out);
    push_section_heading(
        &mut out,
        "Banners",
        gacha.avatar_gacha_schedule_list.len() + gacha.weapon_gacha_schedule_list.len(),
    );
    let ghost s1 = views(out@);
    let ghost fa = |b: HyvAvatarGacha| agent_banner_lines(b);
    let mut a: usize = 0;
    while a < gacha.avatar_gacha_schedule_list.len()
        invariant
            a <= gacha.avatar_gacha_schedule_list@.len(),
            fa == (|b: HyvAvatarGacha| agent_banner_lines(b)),
            views(out@) == s1 + concat_lines(gacha.avatar_gacha_schedule_list@.take(a as int), fa),
        decreases gacha.avatar_gacha_schedule_list@.len() - a,
    {
        push_agent_banner_lines(&mut out, &gacha.avatar_gacha_schedule_list[a]);
        proof {
            lemma_concat_lines_step(gacha.avatar_gacha_schedule_list@, a as int, fa);
        }
        a = a + 1;
        assert(views(out@) =~= s1 + concat_lines(gacha.avatar_gacha_schedule_list@.take(a as int), fa));
    }
    assert(gacha.avatar_gacha_schedule_list@.take(gacha.avatar_gacha_schedule_list@.len() as int)
        =~= gacha.avatar_gacha_schedule_list@);
    let ghost s2 = views(out@);
    let ghost fw = |b: HyvWeaponGacha| w_engine_banner_lines(b);
    let mut w: usize = 0;
    while w < gacha.weapon_gacha_schedule_list.len()
        invariant
            w <= gacha.weapon_gacha_schedule_list@.len(),
            fw == (|b: HyvWeaponGacha| w_engine_banner_lines(b)),
            views(out@) == s2 + concat_lines(gacha.weapon_gacha_schedule_list@.take(w as int), fw),
        decreases gacha.weapon_gacha_schedule_list@.len() - w,
    {
        push_w_engine_banner_lines(&mut out, &gacha.weapon_gacha_schedule_list[w]);
        proof {
            lemma_concat_lines_step(gacha.weapon_gacha_schedule_list@, w as int, fw);
        }
        w = w + 1;
        assert(views(out@) =~= s2 + concat_lines(gacha.weapon_gacha_schedule_list@.take(w as int), fw));
    }
    assert(gacha.weapon_gacha_schedule_list@.take(gacha.weapon_gacha_schedule_list@.len() as int)
        =~= gacha.weapon_gacha_schedule_list@);
    push_blank(&mut out);
    let ghost s3 = views(out@);
    let mut heading: Vec<char> = Vec::new();
    append_str(&mut heading, "── Challenges (4) ───────────────────────────");
    push_line(&mut out, &heading);
    let names = challenge_names(lang);
    let d = dated_period_times(deadly.as_ref(), region);
    push_challenge_lines(&mut out, names[0], d.0, d.1);
    let threshold_period = match threshold {
        Some(x) => x.void_front_battle_abstract_info_brief.as_ref(),
        None => None,
    };
    let t = dated_period_times(threshold_period, region);
    push_challenge_lines(&mut out, names[1], t.0, t.1);
    let s = shiyu_period_times(shiyu, region);
    push_challenge_lines(&mut out, names[2], s.0, s.1);
    let an = dated_period_times(annihilation.as_ref(), region);
    push_challenge_lines(&mut out, names[3], an.0, an.1);
    assert(views(out@) =~= s3 + spec_challenge_report(*deadly, *threshold, *shiyu, *annihilation, region@, lang@));
    assert(views(out@) =~= spec_report(*activity, *gacha, *deadly, *threshold, *shiyu, *annihilation, region@, lang@));
    out
}

} // verus!
