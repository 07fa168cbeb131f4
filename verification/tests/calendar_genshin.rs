use hoyoverse_api::config::ValidatorConfig;
use hoyoverse_api::games::Game;
use hoyoverse_api::http::routes::calendar::calendar_plan;
use hoyoverse_api::http::routes::calendar::genshin::{
    after_english, after_images, after_localized, canonical_activities, eligible_activity_ids,
    fandom_cache_key, map_activity_images, map_rewards, transform_banner, transform_calendar,
    transform_challenge, transform_event, CalendarStep, HyvActivity, HyvAvatar, HyvBannerPool,
    HyvCalendarData, HyvReward, HyvWeapon,
};
use hoyoverse_api::http::routes::calendar::image_of;
use hoyoverse_api::http::error::{ApiError, ApiErrorCode};
use std::collections::HashMap;

fn activity(id: u64, name: &str, kind: &str) -> HyvActivity {
    HyvActivity {
        id,
        name: name.to_string(),
        kind: kind.to_string(),
        desc: String::new(),
        start_timestamp: "1".to_string(),
        end_timestamp: "2".to_string(),
        reward_list: Vec::new(),
    }
}

fn calendar_data(activities: Vec<HyvActivity>) -> HyvCalendarData {
    HyvCalendarData {
        act_list: activities,
        fixed_act_list: Vec::new(),
        avatar_card_pool_list: Vec::new(),
        weapon_card_pool_list: Vec::new(),
        mixed_card_pool_list: Vec::new(),
    }
}

fn reward(id: u64, name: &str, shown: bool) -> HyvReward {
    HyvReward {
        item_id: id,
        name: name.to_string(),
        icon: format!("icon{id}"),
        rarity: "4".to_string(),
        num: id * 10,
        homepage_show: shown,
    }
}

#[test]
fn genshin_maps_canonical_image_to_localized_activity() {
    let canonical = vec![(42, "English Event".to_string())];
    let fandom_images = vec![("English Event".to_string(), "https://example.com/event.png".to_string())];
    let image_map = map_activity_images(&canonical, &fandom_images);
    let event = transform_event(activity(42, "ローカライズイベント", "Event"), image_map.get(&42).cloned());

    assert_eq!(event.name, "ローカライズイベント");
    assert_eq!(event.image_url.as_deref(), Some("https://example.com/event.png"));
}

#[test]
fn excludes_non_event_activity_types() {
    let data = calendar_data(vec![
        activity(1, "Playable", "Event"),
        activity(2, "Test", "Test Run"),
        activity(3, "Web", "Web"),
    ]);

    assert_eq!(eligible_activity_ids(&data), vec![1]);
}

#[test]
fn genshin_fandom_cache_key_is_order_independent() {
    let first = canonical_activities(
        &calendar_data(vec![activity(20, "Second", "Event"), activity(10, "First", "Event")]),
        &[20, 10],
    );
    let reordered = canonical_activities(
        &calendar_data(vec![activity(10, "First", "Event"), activity(20, "Second", "Event")]),
        &[10, 20],
    );
    let changed = canonical_activities(
        &calendar_data(vec![
            activity(10, "First", "Event"),
            activity(20, "Second", "Event"),
            activity(30, "Third", "Event"),
        ]),
        &[10, 20, 30],
    );

    assert_eq!(fandom_cache_key(&first), fandom_cache_key(&reordered));
    assert_ne!(fandom_cache_key(&first), fandom_cache_key(&changed));
}

#[test]
fn in_person_activities_are_not_eligible() {
    let data = calendar_data(vec![
        activity(5, "Meet", "In-Person"),
        activity(6, "Quest", "Event"),
        activity(7, "Other", "Login"),
    ]);
    assert_eq!(eligible_activity_ids(&data), vec![6, 7]);
}

#[test]
fn canonical_activities_are_sorted_and_filtered() {
    let data = calendar_data(vec![
        activity(30, "Third", "Event"),
        activity(10, "First", "Event"),
        activity(20, "Second", "Event"),
    ]);
    let canonical = canonical_activities(&data, &[10, 30]);
    assert_eq!(canonical, vec![(10, "First".to_string()), (30, "Third".to_string())]);
}

#[test]
fn fandom_cache_key_lists_sorted_ids() {
    let canonical = vec![(10, "First".to_string()), (20, "Second".to_string())];
    assert_eq!(fandom_cache_key(&canonical), "/fandom/genshin/event-images/10,20");
}

#[test]
fn map_rewards_splits_off_the_last_shown_reward() {
    let (regular, special) = map_rewards(vec![reward(1, "Primogem", true), reward(2, "Mora", false), reward(3, "Crown", true)]);
    assert_eq!(regular.len(), 1);
    assert_eq!(regular[0].name, "Mora");
    assert_eq!(regular[0].amount, 20);
    let special = special.unwrap();
    assert_eq!(special.name, "Crown");
    assert_eq!(special.id, 3);
}

#[test]
fn map_rewards_without_shown_rewards_has_no_special() {
    let (regular, special) = map_rewards(vec![reward(1, "Mora", false)]);
    assert_eq!(regular.len(), 1);
    assert!(special.is_none());
}

#[test]
fn transform_event_parses_timestamps() {
    let mut act = activity(7, "Lantern Rite", "Event");
    act.start_timestamp = "1700000000".to_string();
    act.end_timestamp = "not a number".to_string();
    act.desc = "festival".to_string();
    let event = transform_event(act, None);
    assert_eq!(event.id, 7);
    assert_eq!(event.start_time, 1700000000);
    assert_eq!(event.end_time, 0);
    assert_eq!(event.description, "festival");
    assert_eq!(event.kind, "Event");
    assert!(event.image_url.is_none());
}

#[test]
fn transform_challenge_keeps_the_shown_reward() {
    let mut act = activity(9, "Abyss", "Spiral Abyss");
    act.reward_list = vec![reward(4, "Primogem", true)];
    let challenge = transform_challenge(act);
    assert_eq!(challenge.id, 9);
    assert_eq!(challenge.name, "Abyss");
    assert_eq!(challenge.special_reward.unwrap().name, "Primogem");
}

fn pool(id: u64) -> HyvBannerPool {
    HyvBannerPool {
        pool_id: id,
        pool_name: format!("Pool {id}"),
        version_name: "5.0".to_string(),
        avatars: vec![HyvAvatar {
            id: 100 + id,
            name: "Furina".to_string(),
            icon: "f.png".to_string(),
            element: "Hydro".to_string(),
            rarity: 5,
        }],
        weapon: vec![HyvWeapon { id: 200 + id, name: "Blade".to_string(), icon: "b.png".to_string(), rarity: 4 }],
        start_timestamp: "100".to_string(),
        end_timestamp: "200".to_string(),
    }
}

#[test]
fn transform_banner_copies_characters_and_weapons() {
    let banner = transform_banner(pool(1));
    assert_eq!(banner.id, 1);
    assert_eq!(banner.name, "Pool 1");
    assert_eq!(banner.version, "5.0");
    assert_eq!(banner.characters.len(), 1);
    assert_eq!(banner.characters[0].element, "Hydro");
    assert_eq!(banner.weapons[0].name, "Blade");
    assert_eq!(banner.start_time, 100);
    assert_eq!(banner.end_time, 200);
}

#[test]
fn transform_calendar_orders_banners_and_maps_images() {
    let mut data = calendar_data(vec![activity(1, "A", "Event"), activity(2, "B", "Event")]);
    data.fixed_act_list = vec![activity(3, "Abyss", "Spiral Abyss")];
    data.avatar_card_pool_list = vec![pool(10)];
    data.weapon_card_pool_list = vec![pool(20)];
    data.mixed_card_pool_list = vec![pool(30)];
    let mut images = HashMap::new();
    images.insert(2u64, "b.png".to_string());
    let calendar = transform_calendar(data, &images);
    assert_eq!(calendar.events.len(), 2);
    assert!(calendar.events[0].image_url.is_none());
    assert_eq!(calendar.events[1].image_url.as_deref(), Some("b.png"));
    assert_eq!(calendar.challenges.len(), 1);
    let ids: Vec<u64> = calendar.banners.iter().map(|b| b.id).collect();
    assert_eq!(ids, vec![10, 20, 30]);
}

#[test]
fn image_of_reads_the_map() {
    let mut images = HashMap::new();
    images.insert(5u64, "five.png".to_string());
    assert_eq!(image_of(&images, 5).as_deref(), Some("five.png"));
    assert_eq!(image_of(&images, 6), None);
}

fn configured() -> ValidatorConfig {
    let mut v = ValidatorConfig::default();
    v.genshin.cookie = "ltuid=1; mi18nLang=ja-jp".to_string();
    v.genshin.uid = "800".to_string();
    v
}

#[test]
fn english_request_uses_its_own_activity_names() {
    let plan = calendar_plan(&configured(), Game::Genshin, "en-us").unwrap();
    assert!(plan.english_cookie.is_none());
    let data = calendar_data(vec![activity(1, "Event One", "Event"), activity(2, "Trial", "Test Run")]);
    match after_localized(&plan, Ok(data)) {
        CalendarStep::FetchImages { canonical, cache_key, names, .. } => {
            assert_eq!(canonical, vec![(1, "Event One".to_string())]);
            assert_eq!(cache_key, "/fandom/genshin/event-images/1");
            assert_eq!(names, vec!["Event One".to_string()]);
        },
        _ => panic!("expected an image fetch"),
    }
}

#[test]
fn other_languages_fetch_english_names_first() {
    let plan = calendar_plan(&configured(), Game::Genshin, "ja-jp").unwrap();
    let data = calendar_data(vec![activity(1, "イベント", "Event")]);
    match after_localized(&plan, Ok(data)) {
        CalendarStep::FetchEnglish { eligible, cookie, .. } => {
            assert_eq!(eligible, vec![1]);
            assert_eq!(cookie, "mi18nLang=en-us; ltuid=1");
        },
        _ => panic!("expected an English fetch"),
    }
}

#[test]
fn failed_fetch_is_the_answer() {
    let plan = calendar_plan(&configured(), Game::Genshin, "en-us").unwrap();
    let error = ApiError::internal_server_error(ApiErrorCode::upstream_error(), "failed to fetch calendar");
    match after_localized(&plan, Err(error)) {
        CalendarStep::Fail(e) => {
            assert_eq!(e.status_code, 500);
            assert_eq!(e.error, "failed to fetch calendar");
        },
        _ => panic!("expected a failure"),
    }
}

#[test]
fn failed_english_fetch_answers_without_images() {
    let data = calendar_data(vec![activity(1, "イベント", "Event")]);
    let error = ApiError::internal_server_error(ApiErrorCode::upstream_error(), "failed to fetch calendar");
    match after_english(data, vec![1], Err(error)) {
        CalendarStep::Reply(calendar) => {
            assert_eq!(calendar.events.len(), 1);
            assert!(calendar.events[0].image_url.is_none());
        },
        _ => panic!("expected a reply"),
    }
}

#[test]
fn english_names_find_images_for_localized_events() {
    let localized = calendar_data(vec![activity(1, "イベント", "Event")]);
    let english = calendar_data(vec![activity(1, "Event", "Event")]);
    let step = after_english(localized, vec![1], Ok(english));
    match step {
        CalendarStep::FetchImages { data, canonical, names, .. } => {
            assert_eq!(names, vec!["Event".to_string()]);
            let images = vec![("Event".to_string(), "e.png".to_string())];
            let calendar = after_images(data, canonical, Some(images));
            assert_eq!(calendar.events[0].name, "イベント");
            assert_eq!(calendar.events[0].image_url.as_deref(), Some("e.png"));
        },
        _ => panic!("expected an image fetch"),
    }
}

#[test]
fn unavailable_images_leave_events_without_images() {
    let data = calendar_data(vec![activity(1, "Event", "Event")]);
    let calendar = after_images(data, vec![(1, "Event".to_string())], None);
    assert!(calendar.events[0].image_url.is_none());
}
