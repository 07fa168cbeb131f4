//! Honkai: Star Rail calendar: the HoYoLab answer and the API's calendar built from it.

use vstd::prelude::*;
use std::collections::HashMap;
use crate::text::{
    i64_or_zero, opt_view, spec_i64_or_zero, spec_u64_or_zero, spec_u8_or_zero, str_eq,
    u64_or_zero, u8_or_zero,
};
use crate::http::error::ApiError;
use super::{activity_names, image_map_spec, names_distinct, names_of, CalendarPlan, canonical_pairs, canonical_spec, fandom_cache_key_for, fandom_key, ids_of, image_at, image_of, images_view, pair_views};

pub use super::map_activity_images;

verus! {

/// Start and end of an entry, as HoYoLab writes them: as Unix timestamps
/// and as readable dates.
#[derive(Debug, Clone)]
pub struct HyvTimeInfo {
    pub start_ts: String,
    pub end_ts: String,
    pub start_time: String,
    pub end_time: String,
}

/// A character on a banner as HoYoLab lists it.
#[derive(Debug, Clone)]
pub struct HyvCharacter {
    pub item_id: String,
    pub item_name: String,
    pub rarity: String,
    pub damage_type: String,
    pub avatar_base_type: String,
    pub icon_url: String,
}

/// A light cone on a banner as HoYoLab lists it.
#[derive(Debug, Clone)]
pub struct HyvLightCone {
    pub item_id: String,
    pub item_name: String,
    pub rarity: String,
    pub avatar_base_type: String,
    pub item_url: String,
}

/// A character banner as HoYoLab lists it.
#[derive(Debug, Clone)]
pub struct HyvAvatarPool {
    pub id: String,
    pub name: String,
    pub version: String,
    pub time_info: HyvTimeInfo,
    pub avatar_list: Vec<HyvCharacter>,
}

/// A light cone banner as HoYoLab lists it.
#[derive(Debug, Clone)]
pub struct HyvEquipPool {
    pub id: String,
    pub name: String,
    pub version: String,
    pub time_info: HyvTimeInfo,
    pub equip_list: Vec<HyvLightCone>,
}

/// A reward as HoYoLab lists it.
#[derive(Debug, Clone)]
pub struct HyvReward {
    pub item_id: u64,
    pub name: String,
    pub icon: String,
    pub rarity: String,
    pub num: u64,
}

/// An activity as HoYoLab lists it.
#[derive(Debug, Clone)]
pub struct HyvActivity {
    pub id: u64,
    pub name: String,
    pub panel_desc: String,
    pub act_type: String,
    pub reward_list: Vec<HyvReward>,
    pub special_reward: Option<HyvReward>,
    pub time_info: HyvTimeInfo,
}

/// A challenge as HoYoLab lists it.
#[derive(Debug, Clone)]
pub struct HyvChallenge {
    pub group_id: u64,
    pub name_mi18n: String,
    pub challenge_type: String,
    pub reward_list: Vec<HyvReward>,
    pub special_reward: Option<HyvReward>,
    pub time_info: HyvTimeInfo,
}

/// The calendar HoYoLab answers for Honkai: Star Rail.
#[derive(Debug, Clone)]
pub struct HyvCalendarData {
    pub avatar_card_pool_list: Vec<HyvAvatarPool>,
    pub equip_card_pool_list: Vec<HyvEquipPool>,
    pub act_list: Vec<HyvActivity>,
    pub challenge_list: Vec<HyvChallenge>,
}

/// A reward as the API answers it.
#[derive(Debug, Clone)]
pub struct Reward {
    pub id: u64,
    pub name: String,
    pub icon: String,
    pub rarity: String,
    pub amount: u64,
}

/// An event as the API answers it.
#[derive(Debug, Clone)]
pub struct Event {
    pub id: u64,
    pub name: String,
    pub description: String,
    pub image_url: Option<String>,
    pub kind: String,
    pub start_time: i64,
    pub end_time: i64,
    pub rewards: Vec<Reward>,
    pub special_reward: Option<Reward>,
}

/// A character on a banner as the API answers it.
#[derive(Debug, Clone)]
pub struct Character {
    pub id: u64,
    pub name: String,
    pub icon: String,
    pub element: String,
    pub path: String,
    pub rarity: u8,
}

/// A light cone on a banner as the API answers it.
#[derive(Debug, Clone)]
pub struct LightCone {
    pub id: u64,
    pub name: String,
    pub icon: String,
    pub path: String,
    pub rarity: u8,
}

/// A banner as the API answers it.
#[derive(Debug, Clone)]
pub struct Banner {
    pub id: u64,
    pub name: String,
    pub version: String,
    pub characters: Vec<Character>,
    pub light_cones: Vec<LightCone>,
    pub start_time: i64,
    pub end_time: i64,
}

/// A challenge as the API answers it.
#[derive(Debug, Clone)]
pub struct Challenge {
    pub id: u64,
    pub name: String,
    pub kind: String,
    pub start_time: i64,
    pub end_time: i64,
    pub rewards: Vec<Reward>,
    pub special_reward: Option<Reward>,
}

/// The calendar the API answers for Honkai: Star Rail.
#[derive(Debug, Clone)]
pub struct CalendarResponse {
    pub events: Vec<Event>,
    pub banners: Vec<Banner>,
    pub challenges: Vec<Challenge>,
}

/// Whether `out` carries the fields of `r`.
pub open spec fn reward_of(r: HyvReward, out: Reward) -> bool {
    &&& out.id == r.item_id
    &&& out.name@ == r.name@
    &&& out.icon@ == r.icon@
    &&& out.rarity@ == r.rarity@
    &&& out.amount == r.num
}

/// Whether `out` lists the rewards `s`, one for one and in order.
pub open spec fn rewards_of(s: Seq<HyvReward>, out: Seq<Reward>) -> bool {
    out.len() == s.len() && forall|i: int| 0 <= i < s.len() ==> reward_of(s[i], #[trigger] out[i])
}

/// Whether `out` is the special reward made from `s`: a reward with item id 0
/// stands for no special reward.
pub open spec fn special_of(s: Option<HyvReward>, out: Option<Reward>) -> bool {
    match s {
        Some(r) => if r.item_id != 0 {
            out matches Some(o) && reward_of(r, o)
        } else {
            out is None
        },
        None => out is None,
    }
}

/// The reward as the API answers it.
pub fn map_reward(r: HyvReward) -> (out: Reward)
    ensures
        reward_of(r, out),
{
    Reward { id: r.item_id, name: r.name, icon: r.icon, rarity: r.rarity, amount: r.num }
}

/// The special reward, unless it is absent or has item id 0.
pub fn map_special_reward(r: Option<HyvReward>) -> (out: Option<Reward>)
    ensures
        special_of(r, out),
{
    match r {
        Some(r) => if r.item_id != 0 {
            Some(map_reward(r))
        } else {
            None
        },
        None => None,
    }
}

fn map_rewards(list: Vec<HyvReward>) -> (out: Vec<Reward>)
    ensures
        rewards_of(list@, out@),
{
    let ghost all = list@;
    let mut out: Vec<Reward> = Vec::new();
    for r in it: list.into_iter()
        invariant
            it.seq() == all,
            out@.len() == it.index(),
            forall|i: int| 0 <= i < it.index() ==> reward_of(all[i], #[trigger] out@[i]),
    {
        out.push(map_reward(r));
    }
    out
}

/// Whether `out` is the event made from `act` with image `image`.
pub open spec fn event_of(act: HyvActivity, image: Option<Seq<char>>, out: Event) -> bool {
    &&& out.id == act.id
    &&& out.name@ == act.name@
    &&& out.description@ == act.panel_desc@
    &&& opt_view(out.image_url) == image
    &&& out.kind@ == act.act_type@
    &&& out.start_time == spec_i64_or_zero(act.time_info.start_ts@)
    &&& out.end_time == spec_i64_or_zero(act.time_info.end_ts@)
    &&& rewards_of(act.reward_list@, out.rewards@)
    &&& special_of(act.special_reward, out.special_reward)
}

/// Whether `out` is the challenge made from `c`.
pub open spec fn challenge_of(c: HyvChallenge, out: Challenge) -> bool {
    &&& out.id == c.group_id
    &&& out.name@ == c.name_mi18n@
    &&& out.kind@ == c.challenge_type@
    &&& out.start_time == spec_i64_or_zero(c.time_info.start_ts@)
    &&& out.end_time == spec_i64_or_zero(c.time_info.end_ts@)
    &&& rewards_of(c.reward_list@, out.rewards@)
    &&& special_of(c.special_reward, out.special_reward)
}

/// Whether `out` carries the fields of character `c`; unparsable numbers become 0.
pub open spec fn character_of(c: HyvCharacter, out: Character) -> bool {
    &&& out.id == spec_u64_or_zero(c.item_id@)
    &&& out.name@ == c.item_name@
    &&& out.icon@ == c.icon_url@
    &&& out.element@ == c.damage_type@
    &&& out.path@ == c.avatar_base_type@
    &&& out.rarity == spec_u8_or_zero(c.rarity@)
}

/// Whether `out` carries the fields of light cone `c`; unparsable numbers become 0.
pub open spec fn light_cone_of(c: HyvLightCone, out: LightCone) -> bool {
    &&& out.id == spec_u64_or_zero(c.item_id@)
    &&& out.name@ == c.item_name@
    &&& out.icon@ == c.item_url@
    &&& out.path@ == c.avatar_base_type@
    &&& out.rarity == spec_u8_or_zero(c.rarity@)
}

/// Whether `out` is the banner made from character pool `p`.
pub open spec fn avatar_banner_of(p: HyvAvatarPool, out: Banner) -> bool {
    &&& out.id == spec_u64_or_zero(p.id@)
    &&& out.name@ == p.name@
    &&& out.version@ == p.version@
    &&& out.characters@.len() == p.avatar_list@.len()
    &&& forall|i: int| 0 <= i < p.avatar_list@.len() ==> character_of(p.avatar_list@[i], #[trigger] out.characters@[i])
    &&& out.light_cones@.len() == 0
    &&& out.start_time == spec_i64_or_zero(p.time_info.start_ts@)
    &&& out.end_time == spec_i64_or_zero(p.time_info.end_ts@)
}

/// Whether `out` is the banner made from light cone pool `p`.
pub open spec fn equip_banner_of(p: HyvEquipPool, out: Banner) -> bool {
    &&& out.id == spec_u64_or_zero(p.id@)
    &&& out.name@ == p.name@
    &&& out.version@ == p.version@
    &&& out.characters@.len() == 0
    &&& out.light_cones@.len() == p.equip_list@.len()
    &&& forall|i: int| 0 <= i < p.equip_list@.len() ==> light_cone_of(p.equip_list@[i], #[trigger] out.light_cones@[i])
    &&& out.start_time == spec_i64_or_zero(p.time_info.start_ts@)
    &&& out.end_time == spec_i64_or_zero(p.time_info.end_ts@)
}

/// The event made from an activity, with the image found for it.
pub fn transform_event(act: HyvActivity, image_url: Option<String>) -> (e: Event)
    ensures
        event_of(act, opt_view(image_url), e),
{
    let start_time = i64_or_zero(act.time_info.start_ts.as_str());
    let end_time = i64_or_zero(act.time_info.end_ts.as_str());
    Event {
        id: act.id,
        name: act.name,
        description: act.panel_desc,
        image_url,
        kind: act.act_type,
        start_time,
        end_time,
        rewards: map_rewards(act.reward_list),
        special_reward: map_special_reward(act.special_reward),
    }
}

/// The challenge made from a HoYoLab challenge.
pub fn transform_challenge(challenge: HyvChallenge) -> (c: Challenge)
    ensures
        challenge_of(challenge, c),
{
    let start_time = i64_or_zero(challenge.time_info.start_ts.as_str());
    let end_time = i64_or_zero(challenge.time_info.end_ts.as_str());
    Challenge {
        id: challenge.group_id,
        name: challenge.name_mi18n,
        kind: challenge.challenge_type,
        start_time,
        end_time,
        rewards: map_rewards(challenge.reward_list),
        special_reward: map_special_reward(challenge.special_reward),
    }
}

/// The banner made from a character pool.
pub fn transform_avatar_banner(pool: HyvAvatarPool) -> (b: Banner)
    ensures
        avatar_banner_of(pool, b),
{
    let ghost list = pool.avatar_list@;
    let mut characters: Vec<Character> = Vec::new();
    for c in it: pool.avatar_list.into_iter()
        invariant
            it.seq() == list,
            characters@.len() == it.index(),
            forall|i: int| 0 <= i < it.index() ==> character_of(list[i], #[trigger] characters@[i]),
    {
        let id = u64_or_zero(c.item_id.as_str());
        let rarity = u8_or_zero(c.rarity.as_str());
        characters.push(
            Character {
                id,
                name: c.item_name,
                icon: c.icon_url,
                element: c.damage_type,
                path: c.avatar_base_type,
                rarity,
            },
        );
    }
    Banner {
        id: u64_or_zero(pool.id.as_str()),
        name: pool.name,
        version: pool.version,
        characters,
        light_cones: Vec::new(),
        start_time: i64_or_zero(pool.time_info.start_ts.as_str()),
        end_time: i64_or_zero(pool.time_info.end_ts.as_str()),
    }
}

/// The banner made from a light cone pool.
pub fn transform_equip_banner(pool: HyvEquipPool) -> (b: Banner)
    ensures
        equip_banner_of(pool, b),
{
    let ghost list = pool.equip_list@;
    let mut light_cones: Vec<LightCone> = Vec::new();
    for c in it: pool.equip_list.into_iter()
        invariant
            it.seq() == list,
            light_cones@.len() == it.index(),
            forall|i: int| 0 <= i < it.index() ==> light_cone_of(list[i], #[trigger] light_cones@[i]),
    {
        let id = u64_or_zero(c.item_id.as_str());
        let rarity = u8_or_zero(c.rarity.as_str());
        light_cones.push(
            LightCone { id, name: c.item_name, icon: c.item_url, path: c.avatar_base_type, rarity },
        );
    }
    Banner {
        id: u64_or_zero(pool.id.as_str()),
        name: pool.name,
        version: pool.version,
        characters: Vec::new(),
        light_cones,
        start_time: i64_or_zero(pool.time_info.start_ts.as_str()),
        end_time: i64_or_zero(pool.time_info.end_ts.as_str()),
    }
}

/// Whether an activity has both a start and an end: HoYoLab writes `"0"` for
/// a missing one.
pub open spec fn is_dated(act: HyvActivity) -> bool {
    act.time_info.start_ts@ != "0"@ && act.time_info.end_ts@ != "0"@
}

/// Whether an activity has both a start and an end.
pub fn dated(act: &HyvActivity) -> (r: bool)
    ensures
        r == is_dated(*act),
{
    !str_eq(act.time_info.start_ts.as_str(), "0") && !str_eq(act.time_info.end_ts.as_str(), "0")
}

/// The ids of the dated activities, in order.
pub open spec fn eligible_ids(acts: Seq<HyvActivity>) -> Seq<u64>
    decreases acts.len(),
{
    if acts.len() == 0 {
        Seq::empty()
    } else if is_dated(acts.last()) {
        eligible_ids(acts.drop_last()).push(acts.last().id)
    } else {
        eligible_ids(acts.drop_last())
    }
}

/// The ids of the activities whose images are looked up: those with both a
/// start and an end.
pub fn eligible_activity_ids(data: &HyvCalendarData) -> (r: Vec<u64>)
    ensures
        r@ == eligible_ids(data.act_list@),
{
    let mut r: Vec<u64> = Vec::new();
    let mut i: usize = 0;
    while i < data.act_list.len()
        invariant
            i <= data.act_list@.len(),
            r@ == eligible_ids(data.act_list@.take(i as int)),
        decreases data.act_list@.len() - i,
    {
        proof {
            assert(data.act_list@.take(i + 1).drop_last() =~= data.act_list@.take(i as int));
        }
        if dated(&data.act_list[i]) {
            r.push(data.act_list[i].id);
        }
        i = i + 1;
    }
    proof {
        assert(data.act_list@.take(data.act_list@.len() as int) =~= data.act_list@);
    }
    r
}

/// The `(id, name)` pair of each activity.
pub open spec fn activity_pairs(acts: Seq<HyvActivity>) -> Seq<(u64, Seq<char>)> {
    Seq::new(acts.len(), |i: int| (acts[i].id, acts[i].name@))
}

/// The activities whose names serve to look up images: one per eligible id,
/// sorted by id.
pub fn canonical_activities(data: &HyvCalendarData, eligible_ids: &[u64]) -> (r: Vec<(u64, String)>)
    ensures
        canonical_spec(activity_pairs(data.act_list@), eligible_ids@, r@),
{
    let mut pairs: Vec<(u64, String)> = Vec::new();
    let mut i: usize = 0;
    while i < data.act_list.len()
        invariant
            i <= data.act_list@.len(),
            pairs@.len() == i,
            forall|j: int| 0 <= j < i ==> (#[trigger] pairs@[j]).0 == data.act_list@[j].id
                && pairs@[j].1@ == data.act_list@[j].name@,
        decreases data.act_list@.len() - i,
    {
        pairs.push((data.act_list[i].id, data.act_list[i].name.clone()));
        i = i + 1;
    }
    proof {
        assert(pair_views(pairs@) =~= activity_pairs(data.act_list@));
    }
    canonical_pairs(pairs, eligible_ids)
}

/// The cache key of the Honkai: Star Rail event images of `activities`.
pub fn fandom_cache_key(activities: &[(u64, String)]) -> (r: String)
    ensures
        r@ == fandom_key("starrail"@, ids_of(activities@)),
{
    fandom_cache_key_for("starrail", activities)
}


/// The dated activities, in order.
pub open spec fn dated_activities(acts: Seq<HyvActivity>) -> Seq<HyvActivity>
    decreases acts.len(),
{
    if acts.len() == 0 {
        Seq::empty()
    } else if is_dated(acts.last()) {
        dated_activities(acts.drop_last()).push(acts.last())
    } else {
        dated_activities(acts.drop_last())
    }
}

/// Whether `c` is the calendar made from HoYoLab's answer `data` with the
/// event images `images`: the character banners, then the light cone
/// banners; one event, with the image held for its id, for each activity
/// with both of its times; one challenge for each challenge.
pub open spec fn calendar_of(data: HyvCalendarData, images: Map<u64, Seq<char>>, c: CalendarResponse) -> bool {
    &&& c.banners@.len() == data.avatar_card_pool_list@.len() + data.equip_card_pool_list@.len()
    &&& forall|i: int| 0 <= i < data.avatar_card_pool_list@.len() ==> avatar_banner_of(
        data.avatar_card_pool_list@[i],
        #[trigger] c.banners@[i],
    )
    &&& forall|j: int| 0 <= j < data.equip_card_pool_list@.len() ==> equip_banner_of(
        data.equip_card_pool_list@[j],
        #[trigger] c.banners@[data.avatar_card_pool_list@.len() + j],
    )
    &&& c.events@.len() == dated_activities(data.act_list@).len()
    &&& forall|i: int| 0 <= i < c.events@.len() ==> event_of(
        dated_activities(data.act_list@)[i],
        image_at(images, dated_activities(data.act_list@)[i].id),
        #[trigger] c.events@[i],
    )
    &&& c.challenges@.len() == data.challenge_list@.len()
    &&& forall|i: int| 0 <= i < data.challenge_list@.len() ==> challenge_of(
        data.challenge_list@[i],
        #[trigger] c.challenges@[i],
    )
}

/// The calendar made from HoYoLab's answer: character banners then light cone
/// banners; every dated activity becomes an event with the image the map
/// holds for its id; every challenge is kept.
pub fn transform_calendar(data: HyvCalendarData, image_map: &HashMap<u64, String>) -> (c: CalendarResponse)
    ensures
        calendar_of(data, images_view(image_map@), c),
{
    let ghost avatars = data.avatar_card_pool_list@;
    let ghost equips = data.equip_card_pool_list@;
    let ghost acts = data.act_list@;
    let ghost challenges_in = data.challenge_list@;
    let mut banners: Vec<Banner> = Vec::new();
    for p in it: data.avatar_card_pool_list.into_iter()
        invariant
            it.seq() == avatars,
            banners@.len() == it.index(),
            forall|i: int| 0 <= i < it.index() ==> avatar_banner_of(avatars[i], #[trigger] banners@[i]),
    {
        banners.push(transform_avatar_banner(p));
    }
    let ghost first = banners@;
    for p in it: data.equip_card_pool_list.into_iter()
        invariant
            it.seq() == equips,
            first.len() == avatars.len(),
            banners@.len() == avatars.len() + it.index(),
            forall|i: int| 0 <= i < avatars.len() ==> #[trigger] banners@[i] == first[i],
            forall|i: int| 0 <= i < avatars.len() ==> avatar_banner_of(avatars[i], #[trigger] first[i]),
            forall|j: int| 0 <= j < it.index() ==> equip_banner_of(equips[j], #[trigger] banners@[avatars.len() + j]),
    {
        banners.push(transform_equip_banner(p));
    }
    let mut events: Vec<Event> = Vec::new();
    for act in it: data.act_list.into_iter()
        invariant
            it.seq() == acts,
            events@.len() == dated_activities(acts.take(it.index() as int)).len(),
            forall|i: int| 0 <= i < events@.len() ==> event_of(
                dated_activities(acts.take(it.index() as int))[i],
                image_at(images_view(image_map@), dated_activities(acts.take(it.index() as int))[i].id),
                #[trigger] events@[i],
            ),
    {
        let ghost k = it.index() as int;
        proof {
            assert(acts.take(k + 1).drop_last() =~= acts.take(k));
        }
        if dated(&act) {
            let image_url = image_of(image_map, act.id);
            events.push(transform_event(act, image_url));
        }
    }
    let mut challenges: Vec<Challenge> = Vec::new();
    for ch in it: data.challenge_list.into_iter()
        invariant
            it.seq() == challenges_in,
            challenges@.len() == it.index(),
            forall|i: int| 0 <= i < it.index() ==> challenge_of(challenges_in[i], #[trigger] challenges@[i]),
    {
        challenges.push(transform_challenge(ch));
    }
    proof {
        assert(acts.take(acts.len() as int) =~= acts);
    }
    CalendarResponse { events, banners, challenges }
}

/// The next thing to do in answering a Honkai: Star Rail calendar request.
pub enum CalendarStep {
    /// Answer with this error.
    Fail(ApiError),
    /// Fetch the calendar in English with `cookie`, to learn the English
    /// names of the activities of `data` whose ids are `eligible`.
    FetchEnglish { data: HyvCalendarData, eligible: Vec<u64>, cookie: String },
    /// Fetch the event images of `names`, cached under `cache_key`, for the
    /// activities `canonical` of `data`.
    FetchImages {
        data: HyvCalendarData,
        canonical: Vec<(u64, String)>,
        cache_key: String,
        names: Vec<String>,
    },
    /// Answer with this calendar.
    Reply(CalendarResponse),
}

/// Whether `step` is what follows once the activities `canonical` of `data`
/// are known: without any, the calendar is answered with no images;
/// otherwise their images are fetched by name.
pub open spec fn step_after_canonical(data: HyvCalendarData, canonical: Seq<(u64, String)>, step: CalendarStep) -> bool {
    if canonical.len() == 0 {
        step matches CalendarStep::Reply(c) && calendar_of(data, Map::empty(), c)
    } else {
        step matches CalendarStep::FetchImages { data: d, canonical: k, cache_key, names }
            && d == data && k@ == canonical
            && cache_key@ == fandom_key("starrail"@, ids_of(canonical))
            && names@.map_values(|n: String| n@) == names_of(canonical)
    }
}

fn after_canonical(data: HyvCalendarData, canonical: Vec<(u64, String)>) -> (step: CalendarStep)
    ensures
        step_after_canonical(data, canonical@, step),
{
    if canonical.len() == 0 {
        let empty: HashMap<u64, String> = HashMap::new();
        let c = transform_calendar(data, &empty);
        proof {
            assert(images_view(empty@) =~= Map::empty());
        }
        CalendarStep::Reply(c)
    } else {
        let cache_key = fandom_cache_key(canonical.as_slice());
        let names = activity_names(&canonical);
        CalendarStep::FetchImages { data, canonical, cache_key, names }
    }
}

/// What follows the calendar fetched in the asked language: an error from
/// the fetch is the answer; otherwise, for a request in English its own
/// activities name the images, and for another language the calendar is
/// fetched again in English.
pub fn after_localized(plan: &CalendarPlan, fetched: Result<HyvCalendarData, ApiError>) -> (step: CalendarStep)
    ensures
        fetched is Err ==> step == CalendarStep::Fail(fetched->Err_0),
        fetched is Ok ==> match plan.english_cookie {
            Some(cookie) => step matches CalendarStep::FetchEnglish { data, eligible, cookie: c }
                && data == fetched->Ok_0 && eligible@ == eligible_ids(data.act_list@) && c@ == cookie@,
            None => exists|canonical: Seq<(u64, String)>|
                canonical_spec(activity_pairs(fetched->Ok_0.act_list@), eligible_ids(fetched->Ok_0.act_list@), canonical)
                && #[trigger] step_after_canonical(fetched->Ok_0, canonical, step),
        },
{
    match fetched {
        Err(e) => CalendarStep::Fail(e),
        Ok(data) => {
            let eligible = eligible_activity_ids(&data);
            match &plan.english_cookie {
                Some(cookie) => CalendarStep::FetchEnglish { data, eligible, cookie: cookie.clone() },
                None => {
                    let canonical = canonical_activities(&data, eligible.as_slice());
                    let ghost k = canonical@;
                    let step = after_canonical(data, canonical);
                    assert(step_after_canonical(fetched->Ok_0, k, step));
                    step
                },
            }
        },
    }
}

/// What follows the calendar fetched in English: its activities name the
/// images of the `eligible` ones, and when that fetch failed no images are
/// looked up.
pub fn after_english(data: HyvCalendarData, eligible: Vec<u64>, fetched: Result<HyvCalendarData, ApiError>) -> (step: CalendarStep)
    ensures
        fetched is Err ==> step_after_canonical(data, Seq::empty(), step),
        fetched is Ok ==> exists|canonical: Seq<(u64, String)>|
            canonical_spec(activity_pairs(fetched->Ok_0.act_list@), eligible@, canonical)
            && #[trigger] step_after_canonical(data, canonical, step),
{
    match fetched {
        Err(_) => {
            let none: Vec<(u64, String)> = Vec::new();
            let step = after_canonical(data, none);
            assert(none@ =~= Seq::<(u64, String)>::empty());
            step
        },
        Ok(english) => {
            let canonical = canonical_activities(&english, eligible.as_slice());
            let ghost k = canonical@;
            let step = after_canonical(data, canonical);
            assert(step_after_canonical(data, k, step));
            step
        },
    }
}

/// The calendar answered once the event images are known: `images` holds
/// the `(name, url)` entries that were found, and is `None` when they could
/// not be had.
pub fn after_images(
    data: HyvCalendarData,
    canonical: Vec<(u64, String)>,
    images: Option<Vec<(String, String)>>,
) -> (c: CalendarResponse)
    requires
        images matches Some(v) ==> names_distinct(v@),
    ensures
        calendar_of(
            data,
            image_map_spec(canonical@, match images { Some(v) => v@, None => Seq::empty() }),
            c,
        ),
{
    let found: Vec<(String, String)> = match images {
        Some(v) => v,
        None => Vec::new(),
    };
    let image_map = map_activity_images(canonical.as_slice(), found.as_slice());
    transform_calendar(data, &image_map)
}

} // verus!
