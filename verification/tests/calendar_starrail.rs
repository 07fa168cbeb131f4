use hoyoverse_api::config::ValidatorConfig;
use hoyoverse_api::games::Game;
use hoyoverse_api::http::routes::calendar::calendar_plan;
use hoyoverse_api::http::routes::calendar::starrail::{
    after_english, after_images, after_localized, canonical_activities, dated, eligible_activity_ids,
    fandom_cache_key, map_activity_images, map_reward, map_special_reward, transform_avatar_banner,
    transform_calendar, transform_challenge, transform_equip_banner, transform_event, CalendarStep,
    HyvActivity, HyvAvatarPool, HyvCalendarData, HyvChallenge, HyvCharacter, HyvEquipPool, HyvLightCone,
    HyvReward, HyvTimeInfo,
};
use std::collections::HashMap;

fn times(start_ts: &str, end_ts: &str) -> HyvTimeInfo {
    HyvTimeInfo {
        start_ts: start_ts.to_string(),
        end_ts: end_ts.to_string(),
        start_time: String::new(),
        end_time: String::new(),
    }
}

fn activity(id: u64, name: &str, start_ts: &str, end_ts: &str) -> HyvActivity {
    HyvActivity {
        id,
        name: name.to_string(),
        panel_desc: String::new(),
        act_type: "Event".to_string(),
        reward_list: Vec::new(),
        special_reward: None,
        time_info: times(start_ts, end_ts),
    }
}

fn calendar_data(activities: Vec<HyvActivity>) -> HyvCalendarData {
    HyvCalendarData {
        avatar_card_pool_list: Vec::new(),
        equip_card_pool_list: Vec::new(),
        act_list: activities,
        challenge_list: Vec::new(),
    }
}

fn reward(item_id: u64, name: &str, num: u64) -> HyvReward {
    HyvReward { item_id, name: name.to_string(), icon: "i.png".to_string(), rarity: "5".to_string(), num }
}

#[test]
fn starrail_maps_canonical_image_to_localized_activity() {
    let canonical = vec![(42, "English Event".to_string())];
    let fandom_images = vec![("English Event".to_string(), "https://example.com/event.png".to_string())];
    let image_map = map_activity_images(&canonical, &fandom_images);
    let event = transform_event(activity(42, "ローカライズイベント", "1", "2"), image_map.get(&42).cloned());

    assert_eq!(event.name, "ローカライズイベント");
    assert_eq!(event.image_url.as_deref(), Some("https://example.com/event.png"));
}

#[test]
fn excludes_zero_timestamp_activities() {
    let data = calendar_data(vec![
        activity(1, "Playable", "1", "2"),
        activity(2, "No Start", "0", "2"),
        activity(3, "No End", "1", "0"),
    ]);

    assert_eq!(eligible_activity_ids(&data), vec![1]);
}

#[test]
fn starrail_fandom_cache_key_is_order_independent() {
    let first = canonical_activities(
        &calendar_data(vec![activity(20, "Second", "1", "2"), activity(10, "First", "1", "2")]),
        &[20, 10],
    );
    let reordered = canonical_activities(
        &calendar_data(vec![activity(10, "First", "1", "2"), activity(20, "Second", "1", "2")]),
        &[10, 20],
    );
    let changed = canonical_activities(
        &calendar_data(vec![
            activity(10, "First", "1", "2"),
            activity(20, "Second", "1", "2"),
            activity(30, "Third", "1", "2"),
        ]),
        &[10, 20, 30],
    );

    assert_eq!(fandom_cache_key(&first), fandom_cache_key(&reordered));
    assert_ne!(fandom_cache_key(&first), fandom_cache_key(&changed));
}

#[test]
fn starrail_cache_key_names_the_game() {
    let canonical = vec![(3, "C".to_string()), (7, "G".to_string())];
    assert_eq!(fandom_cache_key(&canonical), "/fandom/starrail/event-images/3,7");
}

#[test]
fn dated_needs_both_times() {
    assert!(dated(&activity(1, "A", "5", "6")));
    assert!(!dated(&activity(1, "A", "0", "6")));
    assert!(!dated(&activity(1, "A", "5", "0")));
}

#[test]
fn map_reward_copies_fields() {
    let r = map_reward(reward(9, "Stellar Jade", 60));
    assert_eq!(r.id, 9);
    assert_eq!(r.name, "Stellar Jade");
    assert_eq!(r.amount, 60);
    assert_eq!(r.rarity, "5");
}

#[test]
fn special_reward_with_item_zero_is_none() {
    assert!(map_special_reward(Some(reward(0, "Nothing", 1))).is_none());
    assert!(map_special_reward(None).is_none());
    assert_eq!(map_special_reward(Some(reward(2, "Pass", 1))).unwrap().name, "Pass");
}

#[test]
fn transform_event_reads_times_and_rewards() {
    let mut act = activity(5, "Event", "1700000000", "x");
    act.reward_list = vec![reward(1, "Credit", 5000), reward(2, "Jade", 0)];
    act.special_reward = Some(reward(3, "Pass", 1));
    let event = transform_event(act, None);
    assert_eq!(event.start_time, 1700000000);
    assert_eq!(event.end_time, 0);
    assert_eq!(event.rewards.len(), 2);
    assert_eq!(event.special_reward.unwrap().id, 3);
    assert_eq!(event.kind, "Event");
}

#[test]
fn transform_challenge_uses_group_id() {
    let challenge = HyvChallenge {
        group_id: 77,
        name_mi18n: "Memory of Chaos".to_string(),
        challenge_type: "Chaos".to_string(),
        reward_list: vec![],
        special_reward: Some(reward(0, "None", 0)),
        time_info: times("10", "20"),
    };
    let c = transform_challenge(challenge);
    assert_eq!(c.id, 77);
    assert_eq!(c.name, "Memory of Chaos");
    assert_eq!(c.start_time, 10);
    assert_eq!(c.end_time, 20);
    assert!(c.special_reward.is_none());
}

fn avatar_pool(id: &str) -> HyvAvatarPool {
    HyvAvatarPool {
        id: id.to_string(),
        name: "Warp".to_string(),
        version: "2.0".to_string(),
        time_info: times("1", "2"),
        avatar_list: vec![HyvCharacter {
            item_id: "1205".to_string(),
            item_name: "Blade".to_string(),
            rarity: "5".to_string(),
            damage_type: "Wind".to_string(),
            avatar_base_type: "Destruction".to_string(),
            icon_url: "blade.png".to_string(),
        }],
    }
}

fn equip_pool(id: &str) -> HyvEquipPool {
    HyvEquipPool {
        id: id.to_string(),
        name: "Cone Warp".to_string(),
        version: "2.0".to_string(),
        time_info: times("1", "2"),
        equip_list: vec![HyvLightCone {
            item_id: "23009".to_string(),
            item_name: "The Unreachable Side".to_string(),
            rarity: "x".to_string(),
            avatar_base_type: "Destruction".to_string(),
            item_url: "cone.png".to_string(),
        }],
    }
}

#[test]
fn avatar_banner_parses_ids_and_rarity() {
    let b = transform_avatar_banner(avatar_pool("12"));
    assert_eq!(b.id, 12);
    assert_eq!(b.characters[0].id, 1205);
    assert_eq!(b.characters[0].rarity, 5);
    assert_eq!(b.characters[0].path, "Destruction");
    assert_eq!(b.characters[0].element, "Wind");
    assert!(b.light_cones.is_empty());
}

#[test]
fn equip_banner_with_bad_numbers_reads_zero() {
    let b = transform_equip_banner(equip_pool("not a number"));
    assert_eq!(b.id, 0);
    assert_eq!(b.light_cones[0].id, 23009);
    assert_eq!(b.light_cones[0].rarity, 0);
    assert!(b.characters.is_empty());
}

#[test]
fn transform_calendar_skips_undated_events() {
    let mut data = calendar_data(vec![activity(1, "A", "1", "2"), activity(2, "B", "0", "2")]);
    data.avatar_card_pool_list = vec![avatar_pool("1")];
    data.equip_card_pool_list = vec![equip_pool("2")];
    let mut images = HashMap::new();
    images.insert(1u64, "a.png".to_string());
    let c = transform_calendar(data, &images);
    assert_eq!(c.events.len(), 1);
    assert_eq!(c.events[0].image_url.as_deref(), Some("a.png"));
    assert_eq!(c.banners.len(), 2);
    assert_eq!(c.banners[0].id, 1);
    assert_eq!(c.banners[1].id, 2);
}

#[test]
fn starrail_flow_fetches_english_then_images() {
    let mut v = ValidatorConfig::default();
    v.starrail.cookie = "a=1".to_string();
    v.starrail.uid = "600".to_string();
    v.starrail.region = "prod_official_usa".to_string();
    let plan = calendar_plan(&v, Game::Starrail, "zh-cn").unwrap();
    assert_eq!(plan.cookie, "mi18nLang=zh-cn; a=1");
    let localized = calendar_data(vec![activity(4, "活动", "1", "2"), activity(5, "未定", "0", "2")]);
    let (data, eligible) = match after_localized(&plan, Ok(localized)) {
        CalendarStep::FetchEnglish { data, eligible, cookie } => {
            assert_eq!(cookie, "mi18nLang=en-us; a=1");
            (data, eligible)
        },
        _ => panic!("expected an English fetch"),
    };
    assert_eq!(eligible, vec![4]);
    let english = calendar_data(vec![activity(4, "Festival", "1", "2"), activity(5, "Later", "0", "2")]);
    match after_english(data, eligible, Ok(english)) {
        CalendarStep::FetchImages { data, canonical, cache_key, names } => {
            assert_eq!(cache_key, "/fandom/starrail/event-images/4");
            assert_eq!(names, vec!["Festival".to_string()]);
            let c = after_images(data, canonical, Some(vec![("Festival".to_string(), "f.png".to_string())]));
            assert_eq!(c.events.len(), 1);
            assert_eq!(c.events[0].name, "活动");
            assert_eq!(c.events[0].image_url.as_deref(), Some("f.png"));
        },
        _ => panic!("expected an image fetch"),
    }
}

#[test]
fn no_eligible_activity_answers_at_once() {
    let mut v = ValidatorConfig::default();
    v.starrail.cookie = "a=1".to_string();
    v.starrail.uid = "600".to_string();
    let plan = calendar_plan(&v, Game::Starrail, "en-us").unwrap();
    match after_localized(&plan, Ok(calendar_data(vec![activity(1, "Undated", "0", "0")]))) {
        CalendarStep::Reply(c) => assert!(c.events.is_empty()),
        _ => panic!("expected a reply"),
    }
}
