//! Genshin Impact calendar: the HoYoLab answer and the API's calendar built from it.

use vstd::prelude::*;
use std::collections::HashMap;
use crate::text::{i64_or_zero, opt_view, spec_i64_or_zero, str_eq};
use crate::http::error::ApiError;
use super::{activity_names, image_map_spec, names_distinct, names_of, CalendarPlan, canonical_pairs, canonical_spec, fandom_cache_key_for, fandom_key, ids_of, image_at, image_of, images_view, pair_views};

pub use super::map_activity_images;

verus! {

/// A reward as HoYoLab lists it.
#[derive(Debug, Clone)]
pub struct HyvReward {
    pub item_id: u64,
    pub name: String,
    pub icon: String,
    pub rarity: String,
    pub num: u64,
    pub homepage_show: bool,
}

/// A reward as the API answers it.
#[derive(Debug, Clone)]
pub struct Reward {
    pub id: u64,
    pub name: String,
    pub icon: String,
    pub rarity: String,
    pub amount: u64,
}

/// Whether `out` carries the fields of `r`.
pub open spec fn reward_of(r: HyvReward, out: Reward) -> bool {
    &&& out.id == r.item_id
    &&& out.name@ == r.name@
    &&& out.icon@ == r.icon@
    &&& out.rarity@ == r.rarity@
    &&& out.amount == r.num
}

/// The rewards that are not highlighted, in order.
pub open spec fn regular_rewards(s: Seq<HyvReward>) -> Seq<HyvReward>
    decreases s.len(),
{
    if s.len() == 0 {
        Seq::empty()
    } else if s.last().homepage_show {
        regular_rewards(s.drop_last())
    } else {
        regular_rewards(s.drop_last()).push(s.last())
    }
}

/// The last highlighted reward, if any.
pub open spec fn last_special(s: Seq<HyvReward>) -> Option<HyvReward>
    decreases s.len(),
{
    if s.len() == 0 {
        None
    } else if s.last().homepage_show {
        Some(s.last())
    } else {
        last_special(s.drop_last())
    }
}

/// Whether `out` lists the rewards `s`, one for one and in order.
pub open spec fn rewards_of(s: Seq<HyvReward>, out: Seq<Reward>) -> bool {
    out.len() == s.len() && forall|i: int| 0 <= i < s.len() ==> reward_of(s[i], #[trigger] out[i])
}

/// Whether `out` is the highlighted reward `s`, or both are absent.
pub open spec fn special_of(s: Option<HyvReward>, out: Option<Reward>) -> bool {
    match (s, out) {
        (Some(r), Some(o)) => reward_of(r, o),
        (None, None) => true,
        _ => false,
    }
}

fn to_reward(r: HyvReward) -> (out: Reward)
    ensures
        reward_of(r, out),
{
    Reward { id: r.item_id, name: r.name, icon: r.icon, rarity: r.rarity, amount: r.num }
}

/// Splits an activity's rewards: the highlighted one (the last, when several
/// are highlighted) becomes the special reward, the others stay in order.
pub fn map_rewards(reward_list: Vec<HyvReward>) -> (r: (Vec<Reward>, Option<Reward>))
    ensures
        rewards_of(regular_rewards(reward_list@), r.0@),
        special_of(last_special(reward_list@), r.1),
{
    let ghost all = reward_list@;
    let mut special_reward: Option<Reward> = None;
    let mut rewards: Vec<Reward> = Vec::new();
    for r in it: reward_list.into_iter()
        invariant
            it.seq() == all,
            rewards_of(regular_rewards(all.take(it.index() as int)), rewards@),
            special_of(last_special(all.take(it.index() as int)), special_reward),
    {
        let ghost k = it.index() as int;
        proof {
            assert(all.take(k + 1).drop_last() =~= all.take(k));
        }
        let show = r.homepage_show;
        let reward = to_reward(r);
        if show {
            special_reward = Some(reward);
        } else {
            rewards.push(reward);
        }
    }
    proof {
        assert(all.take(all.len() as int) =~= all);
    }
    (rewards, special_reward)
}


/// An activity or challenge as HoYoLab lists it.
#[derive(Debug, Clone)]
pub struct HyvActivity {
    pub id: u64,
    pub name: String,
    pub kind: String,
    pub desc: String,
    pub start_timestamp: String,
    pub end_timestamp: String,
    pub reward_list: Vec<HyvReward>,
}

/// A character on a banner as HoYoLab lists it.
#[derive(Debug, Clone)]
pub struct HyvAvatar {
    pub id: u64,
    pub name: String,
    pub icon: String,
    pub element: String,
    pub rarity: u8,
}

/// A weapon on a banner as HoYoLab lists it.
#[derive(Debug, Clone)]
pub struct HyvWeapon {
    pub id: u64,
    pub name: String,
    pub icon: String,
    pub rarity: u8,
}

/// A banner as HoYoLab lists it.
#[derive(Debug, Clone)]
pub struct HyvBannerPool {
    pub pool_id: u64,
    pub pool_name: String,
    pub version_name: String,
    pub avatars: Vec<HyvAvatar>,
    pub weapon: Vec<HyvWeapon>,
    pub start_timestamp: String,
    pub end_timestamp: String,
}

/// The calendar HoYoLab answers for Genshin Impact.
#[derive(Debug, Clone)]
pub struct HyvCalendarData {
    pub act_list: Vec<HyvActivity>,
    pub fixed_act_list: Vec<HyvActivity>,
    pub avatar_card_pool_list: Vec<HyvBannerPool>,
    pub weapon_card_pool_list: Vec<HyvBannerPool>,
    pub mixed_card_pool_list: Vec<HyvBannerPool>,
}

/// An event as the API answers it.
#[derive(Debug, Clone)]
pub struct Event {
    pub id: u64,
    pub name: String,
    pub description: String,
    pub image_url: Option<String>,
    pub kind: String,
    pub start_time: i64,
    pub end_time: i64,
    pub rewards: Vec<Reward>,
    pub special_reward: Option<Reward>,
}

/// A character on a banner as the API answers it.
#[derive(Debug, Clone)]
pub struct Character {
    pub id: u64,
    pub name: String,
    pub icon: String,
    pub element: String,
    pub rarity: u8,
}

/// A weapon on a banner as the API answers it.
#[derive(Debug, Clone)]
pub struct Weapon {
    pub id: u64,
    pub name: String,
    pub icon: String,
    pub rarity: u8,
}

/// A banner as the API answers it.
#[derive(Debug, Clone)]
pub struct Banner {
    pub id: u64,
    pub name: String,
    pub version: String,
    pub characters: Vec<Character>,
    pub weapons: Vec<Weapon>,
    pub start_time: i64,
    pub end_time: i64,
}

/// A challenge as the API answers it.
#[derive(Debug, Clone)]
pub struct Challenge {
    pub id: u64,
    pub name: String,
    pub kind: String,
    pub start_time: i64,
    pub end_time: i64,
    pub rewards: Vec<Reward>,
    pub special_reward: Option<Reward>,
}

/// The calendar the API answers for Genshin Impact.
#[derive(Debug, Clone)]
pub struct CalendarResponse {
    pub events: Vec<Event>,
    pub banners: Vec<Banner>,
    pub challenges: Vec<Challenge>,
}

/// Whether `out` is the event made from `act` with image `image`.
pub open spec fn event_of(act: HyvActivity, image: Option<Seq<char>>, out: Event) -> bool {
    &&& out.id == act.id
    &&& out.name@ == act.name@
    &&& out.description@ == act.desc@
    &&& opt_view(out.image_url) == image
    &&& out.kind@ == act.kind@
    &&& out.start_time == spec_i64_or_zero(act.start_timestamp@)
    &&& out.end_time == spec_i64_or_zero(act.end_timestamp@)
    &&& rewards_of(regular_rewards(act.reward_list@), out.rewards@)
    &&& special_of(last_special(act.reward_list@), out.special_reward)
}

/// Whether `out` is the challenge made from `act`.
pub open spec fn challenge_of(act: HyvActivity, out: Challenge) -> bool {
    &&& out.id == act.id
    &&& out.name@ == act.name@
    &&& out.kind@ == act.kind@
    &&& out.start_time == spec_i64_or_zero(act.start_timestamp@)
    &&& out.end_time == spec_i64_or_zero(act.end_timestamp@)
    &&& rewards_of(regular_rewards(act.reward_list@), out.rewards@)
    &&& special_of(last_special(act.reward_list@), out.special_reward)
}

/// Whether `out` carries the fields of character `a`.
pub open spec fn character_of(a: HyvAvatar, out: Character) -> bool {
    out.id == a.id && out.name@ == a.name@ && out.icon@ == a.icon@ && out.element@ == a.element@
        && out.rarity == a.rarity
}

/// Whether `out` carries the fields of weapon `w`.
pub open spec fn weapon_of(w: HyvWeapon, out: Weapon) -> bool {
    out.id == w.id && out.name@ == w.name@ && out.icon@ == w.icon@ && out.rarity == w.rarity
}

/// Whether `out` is the banner made from `pool`.
pub open spec fn banner_of(pool: HyvBannerPool, out: Banner) -> bool {
    &&& out.id == pool.pool_id
    &&& out.name@ == pool.pool_name@
    &&& out.version@ == pool.version_name@
    &&& out.characters@.len() == pool.avatars@.len()
    &&& forall|i: int| 0 <= i < pool.avatars@.len() ==> character_of(pool.avatars@[i], #[trigger] out.characters@[i])
    &&& out.weapons@.len() == pool.weapon@.len()
    &&& forall|i: int| 0 <= i < pool.weapon@.len() ==> weapon_of(pool.weapon@[i], #[trigger] out.weapons@[i])
    &&& out.start_time == spec_i64_or_zero(pool.start_timestamp@)
    &&& out.end_time == spec_i64_or_zero(pool.end_timestamp@)
}

/// The event made from an activity, with the image found for it.
pub fn transform_event(act: HyvActivity, image_url: Option<String>) -> (e: Event)
    ensures
        event_of(act, opt_view(image_url), e),
{
    let start_time = i64_or_zero(act.start_timestamp.as_str());
    let end_time = i64_or_zero(act.end_timestamp.as_str());
    let (rewards, special_reward) = map_rewards(act.reward_list);
    Event {
        id: act.id,
        name: act.name,
        description: act.desc,
        image_url,
        kind: act.kind,
        start_time,
        end_time,
        rewards,
        special_reward,
    }
}

/// The challenge made from a fixed activity.
pub fn transform_challenge(act: HyvActivity) -> (c: Challenge)
    ensures
        challenge_of(act, c),
{
    let start_time = i64_or_zero(act.start_timestamp.as_str());
    let end_time = i64_or_zero(act.end_timestamp.as_str());
    let (rewards, special_reward) = map_rewards(act.reward_list);
    Challenge {
        id: act.id,
        name: act.name,
        kind: act.kind,
        start_time,
        end_time,
        rewards,
        special_reward,
    }
}

/// The banner made from a pool: its characters and weapons one for one.
pub fn transform_banner(pool: HyvBannerPool) -> (b: Banner)
    ensures
        banner_of(pool, b),
{
    let ghost avatars = pool.avatars@;
    let ghost weapons = pool.weapon@;
    let mut characters: Vec<Character> = Vec::new();
    for a in it: pool.avatars.into_iter()
        invariant
            it.seq() == avatars,
            characters@.len() == it.index(),
            forall|i: int| 0 <= i < it.index() ==> character_of(avatars[i], #[trigger] characters@[i]),
    {
        characters.push(Character { id: a.id, name: a.name, icon: a.icon, element: a.element, rarity: a.rarity });
    }
    let mut weapon_list: Vec<Weapon> = Vec::new();
    for w in it: pool.weapon.into_iter()
        invariant
            it.seq() == weapons,
            weapon_list@.len() == it.index(),
            forall|i: int| 0 <= i < it.index() ==> weapon_of(weapons[i], #[trigger] weapon_list@[i]),
    {
        weapon_list.push(Weapon { id: w.id, name: w.name, icon: w.icon, rarity: w.rarity });
    }
    Banner {
        id: pool.pool_id,
        name: pool.pool_name,
        version: pool.version_name,
        characters,
        weapons: weapon_list,
        start_time: i64_or_zero(pool.start_timestamp.as_str()),
        end_time: i64_or_zero(pool.end_timestamp.as_str()),
    }
}

/// Activity types that are not events players can take part in.
pub open spec fn is_skipped_type(t: Seq<char>) -> bool {
    t == "Test Run"@ || t == "In-Person"@ || t == "Web"@
}

/// The ids of the activities of a playable type, in order.
pub open spec fn eligible_ids(acts: Seq<HyvActivity>) -> Seq<u64>
    decreases acts.len(),
{
    if acts.len() == 0 {
        Seq::empty()
    } else if is_skipped_type(acts.last().kind@) {
        eligible_ids(acts.drop_last())
    } else {
        eligible_ids(acts.drop_last()).push(acts.last().id)
    }
}

/// The ids of the activities whose images are looked up: all but test runs,
/// in-person and web events.
pub fn eligible_activity_ids(data: &HyvCalendarData) -> (r: Vec<u64>)
    ensures
        r@ == eligible_ids(data.act_list@),
{
    let mut r: Vec<u64> = Vec::new();
    let mut i: usize = 0;
    while i < data.act_list.len()
        invariant
            i <= data.act_list@.len(),
            r@ == eligible_ids(data.act_list@.take(i as int)),
        decreases data.act_list@.len() - i,
    {
        proof {
            assert(data.act_list@.take(i + 1).drop_last() =~= data.act_list@.take(i as int));
        }
        let t = data.act_list[i].kind.as_str();
        if !(str_eq(t, "Test Run") || str_eq(t, "In-Person") || str_eq(t, "Web")) {
            r.push(data.act_list[i].id);
        }
        i = i + 1;
    }
    proof {
        assert(data.act_list@.take(data.act_list@.len() as int) =~= data.act_list@);
    }
    r
}

/// The `(id, name)` pair of each activity.
pub open spec fn activity_pairs(acts: Seq<HyvActivity>) -> Seq<(u64, Seq<char>)> {
    Seq::new(acts.len(), |i: int| (acts[i].id, acts[i].name@))
}

/// The activities whose names serve to look up images: one per eligible id,
/// sorted by id.
pub fn canonical_activities(data: &HyvCalendarData, eligible_ids: &[u64]) -> (r: Vec<(u64, String)>)
    ensures
        canonical_spec(activity_pairs(data.act_list@), eligible_ids@, r@),
{
    let mut pairs: Vec<(u64, String)> = Vec::new();
    let mut i: usize = 0;
    while i < data.act_list.len()
        invariant
            i <= data.act_list@.len(),
            pairs@.len() == i,
            forall|j: int| 0 <= j < i ==> (#[trigger] pairs@[j]).0 == data.act_list@[j].id
                && pairs@[j].1@ == data.act_list@[j].name@,
        decreases data.act_list@.len() - i,
    {
        pairs.push((data.act_list[i].id, data.act_list[i].name.clone()));
        i = i + 1;
    }
    proof {
        assert(pair_views(pairs@) =~= activity_pairs(data.act_list@));
    }
    canonical_pairs(pairs, eligible_ids)
}

/// The cache key of the Genshin Impact event images of `activities`.
pub fn fandom_cache_key(activities: &[(u64, String)]) -> (r: String)
    ensures
        r@ == fandom_key("genshin"@, ids_of(activities@)),
{
    fandom_cache_key_for("genshin", activities)
}


/// Whether `out` lists the banners made from `pools`, one for one and in order.
pub open spec fn banners_of(pools: Seq<HyvBannerPool>, out: Seq<Banner>) -> bool {
    out.len() == pools.len() && forall|i: int| 0 <= i < pools.len() ==> banner_of(pools[i], #[trigger] out[i])
}

fn push_banners(out: &mut Vec<Banner>, pools: Vec<HyvBannerPool>)
    ensures
        final(out)@.len() == old(out)@.len() + pools@.len(),
        forall|i: int| 0 <= i < old(out)@.len() ==> #[trigger] final(out)@[i] == old(out)@[i],
        forall|j: int| 0 <= j < pools@.len() ==> banner_of(pools@[j], #[trigger] final(out)@[old(out)@.len() + j]),
{
    let ghost start = out@;
    let ghost all = pools@;
    for p in it: pools.into_iter()
        invariant
            it.seq() == all,
            out@.len() == start.len() + it.index(),
            forall|i: int| 0 <= i < start.len() ==> #[trigger] out@[i] == start[i],
            forall|j: int| 0 <= j < it.index() ==> banner_of(all[j], #[trigger] out@[start.len() + j]),
    {
        let b = transform_banner(p);
        out.push(b);
    }
}

/// Whether `c` is the calendar made from HoYoLab's answer `data` with the
/// event images `images`: every activity becomes an event with the image
/// held for its id, every fixed activity a challenge, and the character,
/// weapon and mixed banners follow in that order.
pub open spec fn calendar_of(data: HyvCalendarData, images: Map<u64, Seq<char>>, c: CalendarResponse) -> bool {
    &&& c.events@.len() == data.act_list@.len()
    &&& forall|i: int| 0 <= i < data.act_list@.len() ==> event_of(
        data.act_list@[i],
        image_at(images, data.act_list@[i].id),
        #[trigger] c.events@[i],
    )
    &&& c.challenges@.len() == data.fixed_act_list@.len()
    &&& forall|i: int| 0 <= i < data.fixed_act_list@.len() ==> challenge_of(
        data.fixed_act_list@[i],
        #[trigger] c.challenges@[i],
    )
    &&& banners_of(
        data.avatar_card_pool_list@ + data.weapon_card_pool_list@ + data.mixed_card_pool_list@,
        c.banners@,
    )
}

/// The calendar made from HoYoLab's answer: every activity becomes an event
/// with the image the map holds for its id, every fixed activity a
/// challenge, and the character, weapon and mixed banners follow in that order.
pub fn transform_calendar(data: HyvCalendarData, image_map: &HashMap<u64, String>) -> (c: CalendarResponse)
    ensures
        calendar_of(data, images_view(image_map@), c),
{
    let ghost acts = data.act_list@;
    let ghost fixed = data.fixed_act_list@;
    let ghost pools = data.avatar_card_pool_list@ + data.weapon_card_pool_list@ + data.mixed_card_pool_list@;
    let ghost a_len = data.avatar_card_pool_list@.len();
    let ghost w_len = data.weapon_card_pool_list@.len();
    let mut events: Vec<Event> = Vec::new();
    for act in it: data.act_list.into_iter()
        invariant
            it.seq() == acts,
            events@.len() == it.index(),
            forall|i: int| 0 <= i < it.index() ==> event_of(acts[i], image_at(images_view(image_map@), acts[i].id), #[trigger] events@[i]),
    {
        let image_url = image_of(image_map, act.id);
        events.push(transform_event(act, image_url));
    }
    let mut challenges: Vec<Challenge> = Vec::new();
    for act in it: data.fixed_act_list.into_iter()
        invariant
            it.seq() == fixed,
            challenges@.len() == it.index(),
            forall|i: int| 0 <= i < it.index() ==> challenge_of(fixed[i], #[trigger] challenges@[i]),
    {
        challenges.push(transform_challenge(act));
    }
    let ghost av = data.avatar_card_pool_list@;
    let ghost wv = data.weapon_card_pool_list@;
    let ghost mv = data.mixed_card_pool_list@;
    let mut banners: Vec<Banner> = Vec::new();
    push_banners(&mut banners, data.avatar_card_pool_list);
    let ghost b1 = banners@;
    push_banners(&mut banners, data.weapon_card_pool_list);
    let ghost b2 = banners@;
    push_banners(&mut banners, data.mixed_card_pool_list);
    proof {
        assert forall|i: int| 0 <= i < pools.len() implies banner_of(pools[i], #[trigger] banners@[i]) by {
            if i < a_len {
                assert(pools[i] == av[i]);
                assert(banners@[i] == b2[i]);
                assert(b2[i] == b1[i]);
                assert(banner_of(av[i], b1[0 + i]));
            } else if i < a_len + w_len {
                assert(pools[i] == wv[i - a_len]);
                assert(banners@[i] == b2[i]);
                assert(banner_of(wv[i - a_len], b2[a_len + (i - a_len)]));
            } else {
                assert(pools[i] == mv[i - a_len - w_len]);
                assert(banner_of(mv[i - a_len - w_len], banners@[(a_len + w_len) + (i - a_len - w_len)]));
            }
        }
    }
    CalendarResponse { events, banners, challenges }
}

/// The next thing to do in answering a Genshin Impact calendar request.
pub enum CalendarStep {
    /// Answer with this error.
    Fail(ApiError),
    /// Fetch the calendar in English with `cookie`, to learn the English
    /// names of the activities of `data` whose ids are `eligible`.
    FetchEnglish { data: HyvCalendarData, eligible: Vec<u64>, cookie: String },
    /// Fetch the event images of `names`, cached under `cache_key`, for the
    /// activities `canonical` of `data`.
    FetchImages {
        data: HyvCalendarData,
        canonical: Vec<(u64, String)>,
        cache_key: String,
        names: Vec<String>,
    },
    /// Answer with this calendar.
    Reply(CalendarResponse),
}

/// Whether `step` is what follows once the activities `canonical` of `data`
/// are known: without any, the calendar is answered with no images;
/// otherwise their images are fetched by name.
pub open spec fn step_after_canonical(data: HyvCalendarData, canonical: Seq<(u64, String)>, step: CalendarStep) -> bool {
    if canonical.len() == 0 {
        step matches CalendarStep::Reply(c) && calendar_of(data, Map::empty(), c)
    } else {
        step matches CalendarStep::FetchImages { data: d, canonical: k, cache_key, names }
            && d == data && k@ == canonical
            && cache_key@ == fandom_key("genshin"@, ids_of(canonical))
            && names@.map_values(|n: String| n@) == names_of(canonical)
    }
}

fn after_canonical(data: HyvCalendarData, canonical: Vec<(u64, String)>) -> (step: CalendarStep)
    ensures
        step_after_canonical(data, canonical@, step),
{
    if canonical.len() == 0 {
        let empty: HashMap<u64, String> = HashMap::new();
        let c = transform_calendar(data, &empty);
        proof {
            assert(images_view(empty@) =~= Map::empty());
        }
        CalendarStep::Reply(c)
    } else {
        let cache_key = fandom_cache_key(canonical.as_slice());
        let names = activity_names(&canonical);
        CalendarStep::FetchImages { data, canonical, cache_key, names }
    }
}

/// What follows the calendar fetched in the asked language: an error from
/// the fetch is the answer; otherwise, for a request in English its own
/// activities name the images, and for another language the calendar is
/// fetched again in English.
pub fn after_localized(plan: &CalendarPlan, fetched: Result<HyvCalendarData, ApiError>) -> (step: CalendarStep)
    ensures
        fetched is Err ==> step == CalendarStep::Fail(fetched->Err_0),
        fetched is Ok ==> match plan.english_cookie {
            Some(cookie) => step matches CalendarStep::FetchEnglish { data, eligible, cookie: c }
                && data == fetched->Ok_0 && eligible@ == eligible_ids(data.act_list@) && c@ == cookie@,
            None => exists|canonical: Seq<(u64, String)>|
                canonical_spec(activity_pairs(fetched->Ok_0.act_list@), eligible_ids(fetched->Ok_0.act_list@), canonical)
                && #[trigger] step_after_canonical(fetched->Ok_0, canonical, step),
        },
{
    match fetched {
        Err(e) => CalendarStep::Fail(e),
        Ok(data) => {
            let eligible = eligible_activity_ids(&data);
            match &plan.english_cookie {
                Some(cookie) => CalendarStep::FetchEnglish { data, eligible, cookie: cookie.clone() },
                None => {
                    let canonical = canonical_activities(&data, eligible.as_slice());
                    let ghost k = canonical@;
                    let step = after_canonical(data, canonical);
                    assert(step_after_canonical(fetched->Ok_0, k, step));
                    step
                },
            }
        },
    }
}

/// What follows the calendar fetched in English: its activities name the
/// images of the `eligible` ones, and when that fetch failed no images are
/// looked up.
pub fn after_english(data: HyvCalendarData, eligible: Vec<u64>, fetched: Result<HyvCalendarData, ApiError>) -> (step: CalendarStep)
    ensures
        fetched is Err ==> step_after_canonical(data, Seq::empty(), step),
        fetched is Ok ==> exists|canonical: Seq<(u64, String)>|
            canonical_spec(activity_pairs(fetched->Ok_0.act_list@), eligible@, canonical)
            && #[trigger] step_after_canonical(data, canonical, step),
{
    match fetched {
        Err(_) => {
            let none: Vec<(u64, String)> = Vec::new();
            let step = after_canonical(data, none);
            assert(none@ =~= Seq::<(u64, String)>::empty());
            step
        },
        Ok(english) => {
            let canonical = canonical_activities(&english, eligible.as_slice());
            let ghost k = canonical@;
            let step = after_canonical(data, canonical);
            assert(step_after_canonical(data, k, step));
            step
        },
    }
}

/// The calendar answered once the event images are known: `images` holds
/// the `(name, url)` entries that were found, and is `None` when they could
/// not be had.
pub fn after_images(
    data: HyvCalendarData,
    canonical: Vec<(u64, String)>,
    images: Option<Vec<(String, String)>>,
) -> (c: CalendarResponse)
    requires
        images matches Some(v) ==> names_distinct(v@),
    ensures
        calendar_of(
            data,
            image_map_spec(canonical@, match images { Some(v) => v@, None => Seq::empty() }),
            c,
        ),
{
    let found: Vec<(String, String)> = match images {
        Some(v) => v,
        None => Vec::new(),
    };
    let image_map = map_activity_images(canonical.as_slice(), found.as_slice());
    transform_calendar(data, &image_map)
}

} // verus!
