use hoyoverse_api::http::routes::calendar::zenless::{
    challenge_names, hardcoded_shiyu_period, hardcoded_shiyu_period_at, map_element, map_profession, normalize_period, numeric_timestamp,
    server_offset, shiyu_period, shiyu_period_at, shiyu_period_fits, shiyu_rotation, structured_period, structured_timestamp, transform_activity,
    transform_avatar_banner, transform_calendar, transform_challenges, transform_challenges_at, transform_weapon_banner, HyvActivity,
    HyvActivityData, HyvAvatar, HyvAvatarGacha, HyvChallengePeriod, HyvDateTime, HyvGachaData, HyvShiyuData,
    HyvShiyuPeriod, HyvThresholdData, HyvWeapon, HyvWeaponGacha,
};

const ROTATION: i64 = 14 * 24 * 60 * 60;

fn date(year: i32, month: u32, day: u32, hour: u32) -> HyvDateTime {
    HyvDateTime { year, month, day, hour, minute: 0, second: 0 }
}

#[test]
fn server_offsets_by_region() {
    assert_eq!(server_offset("prod_gf_us"), Some(-18000));
    assert_eq!(server_offset("prod_gf_eu"), Some(3600));
    assert_eq!(server_offset("prod_gf_jp"), Some(28800));
    assert_eq!(server_offset("prod_gf_sg"), Some(28800));
    assert_eq!(server_offset("os_usa"), None);
}

#[test]
fn structured_timestamp_uses_the_server_zone() {
    let d = date(2024, 1, 1, 0);
    assert_eq!(structured_timestamp(Some(&d), "prod_gf_us"), Some(1704085200));
    assert_eq!(structured_timestamp(Some(&d), "prod_gf_eu"), Some(1704063600));
    assert_eq!(structured_timestamp(Some(&d), "prod_gf_sg"), Some(1704038400));
    assert_eq!(structured_timestamp(Some(&d), "unknown"), None);
    assert_eq!(structured_timestamp(None, "prod_gf_us"), None);
}

#[test]
fn impossible_dates_have_no_timestamp() {
    let d = date(2024, 2, 30, 0);
    assert_eq!(structured_timestamp(Some(&d), "prod_gf_us"), None);
}

#[test]
fn structured_timestamp_follows_the_gregorian_calendar() {
    let leap = date(2024, 2, 29, 12);
    assert_eq!(structured_timestamp(Some(&leap), "prod_gf_eu"), Some(1709204400));
    assert_eq!(structured_timestamp(Some(&date(2023, 2, 29, 0)), "prod_gf_eu"), None);
    assert_eq!(structured_timestamp(Some(&date(2000, 2, 29, 0)), "prod_gf_sg"), Some(951753600));
    assert_eq!(structured_timestamp(Some(&date(1900, 2, 29, 0)), "prod_gf_sg"), None);
    assert_eq!(structured_timestamp(Some(&date(1969, 12, 31, 19)), "prod_gf_us"), Some(0));
    assert_eq!(structured_timestamp(Some(&date(2024, 4, 31, 0)), "prod_gf_us"), None);
    assert_eq!(structured_timestamp(Some(&date(2024, 13, 1, 0)), "prod_gf_us"), None);
    assert_eq!(structured_timestamp(Some(&date(2024, 1, 0, 0)), "prod_gf_us"), None);
    assert_eq!(structured_timestamp(Some(&date(2024, 1, 1, 24)), "prod_gf_us"), None);
    let late = HyvDateTime { year: 2024, month: 12, day: 31, hour: 23, minute: 59, second: 59 };
    assert_eq!(structured_timestamp(Some(&late), "prod_gf_eu"), Some(1735685999));
    let leap_second = HyvDateTime { second: 60, ..late };
    assert_eq!(structured_timestamp(Some(&leap_second), "prod_gf_eu"), None);
    assert_eq!(structured_timestamp(Some(&date(262143, 1, 1, 0)), "prod_gf_eu"), None);
    assert_eq!(structured_timestamp(Some(&date(-262143, 1, 1, 0)), "prod_gf_eu"), None);
    assert_eq!(structured_timestamp(Some(&date(-262143, 1, 1, 0)), "prod_gf_us"), Some(-8334601228800 + 18000));
}

#[test]
fn numeric_timestamps_must_be_positive() {
    assert_eq!(numeric_timestamp(Some("1700000000")), Some(1700000000));
    assert_eq!(numeric_timestamp(Some("0")), None);
    assert_eq!(numeric_timestamp(Some("-5")), None);
    assert_eq!(numeric_timestamp(Some("soon")), None);
    assert_eq!(numeric_timestamp(None), None);
}

#[test]
fn end_before_start_is_dropped() {
    let p = normalize_period(Some(10), Some(5));
    assert_eq!(p.start_time, Some(10));
    assert_eq!(p.end_time, None);
    let p = normalize_period(Some(10), Some(10));
    assert_eq!(p.end_time, Some(10));
    let p = normalize_period(None, Some(3));
    assert_eq!(p.end_time, Some(3));
}

#[test]
fn structured_period_reads_both_ends() {
    let data = HyvChallengePeriod { start_time: Some(date(2024, 1, 1, 0)), end_time: Some(date(2024, 1, 2, 0)) };
    let p = structured_period(Some(data), "prod_gf_us");
    assert_eq!(p.start_time, Some(1704085200));
    assert_eq!(p.end_time, Some(1704085200 + 86400));
    let empty = structured_period(None, "prod_gf_us");
    assert_eq!(empty.start_time, None);
    assert_eq!(empty.end_time, None);
}

#[test]
fn shiyu_rotation_counts_from_the_anchor() {
    let p = shiyu_rotation(1000, 1000);
    assert_eq!(p.start_time, Some(1000));
    assert_eq!(p.end_time, Some(1000 + ROTATION - 1));
    let p = shiyu_rotation(1000, 1000 + ROTATION * 3 + 5);
    assert_eq!(p.start_time, Some(1000 + ROTATION * 3));
    let p = shiyu_rotation(1000, 999);
    assert_eq!(p.start_time, Some(1000 - ROTATION));
    assert_eq!(p.end_time, Some(999));
}

#[test]
fn counted_rotation_holds_now() {
    let p = hardcoded_shiyu_period("prod_gf_us").unwrap();
    let start = p.start_time.unwrap();
    let end = p.end_time.unwrap();
    assert_eq!(end - start, ROTATION - 1);
    assert_eq!((start - 1782464400).rem_euclid(ROTATION), 0);
    let now = std::time::SystemTime::now().duration_since(std::time::UNIX_EPOCH).unwrap().as_secs() as i64;
    assert!(start <= now + 1 && now - 1 <= end);
    let none = hardcoded_shiyu_period("os_usa").unwrap();
    assert!(none.start_time.is_none() && none.end_time.is_none());
}

#[test]
fn counted_rotation_at_a_given_time() {
    let anchor = 1782464400;
    let p = hardcoded_shiyu_period_at("prod_gf_us", anchor + ROTATION * 2 + 77);
    assert_eq!((p.start_time, p.end_time), (Some(anchor + ROTATION * 2), Some(anchor + ROTATION * 3 - 1)));
    let p = hardcoded_shiyu_period_at("prod_gf_us", anchor - 1);
    assert_eq!((p.start_time, p.end_time), (Some(anchor - ROTATION), Some(anchor - 1)));
    let p = hardcoded_shiyu_period_at("os_usa", anchor);
    assert_eq!((p.start_time, p.end_time), (None, None));
}

#[test]
fn shiyu_period_fits_near_the_end_of_i64() {
    assert!(shiyu_period_fits(&None));
    assert!(shiyu_period_fits(&shiyu(Some("1000"), None)));
    let near = (i64::MAX - 5).to_string();
    assert!(!shiyu_period_fits(&shiyu(Some(&near), None)));
    assert!(!shiyu_period_fits(&shiyu(Some(&near), Some("1000"))));
    let later = (i64::MAX - 1).to_string();
    assert!(shiyu_period_fits(&shiyu(Some(&near), Some(&later))));
    let p = shiyu_period(shiyu(Some(&near), Some(&later)), "prod_gf_us").unwrap();
    assert_eq!((p.start_time, p.end_time), (Some(i64::MAX - 5), Some(i64::MAX - 1)));
}

#[test]
fn shiyu_period_at_prefers_the_answer() {
    let anchor = 1782464400;
    let p = shiyu_period_at(None, "prod_gf_us", anchor + 5);
    assert_eq!((p.start_time, p.end_time), (Some(anchor), Some(anchor + ROTATION - 1)));
    let p = shiyu_period_at(shiyu(Some("10"), Some("20")), "prod_gf_us", anchor + 5);
    assert_eq!((p.start_time, p.end_time), (Some(10), Some(20)));
    let p = shiyu_period_at(shiyu(None, None), "prod_gf_us", anchor + ROTATION);
    assert_eq!((p.start_time, p.end_time), (Some(anchor + ROTATION), Some(anchor + ROTATION * 2 - 1)));
    let p = shiyu_period(None, "os_usa").unwrap();
    assert_eq!((p.start_time, p.end_time), (None, None));
}

#[test]
fn transform_challenges_at_counts_the_rotation() {
    let anchor = 1782464400;
    let c = transform_challenges_at(None, None, None, None, "prod_gf_us", "de-de", anchor + ROTATION + 1);
    assert_eq!(c.len(), 4);
    assert_eq!(c[2].name, "Shiyu-Verteidigung");
    assert_eq!(c[2].kind, "shiyu_defense");
    assert_eq!((c[2].start_time, c[2].end_time), (Some(anchor + ROTATION), Some(anchor + ROTATION * 2 - 1)));
    assert_eq!((c[0].start_time, c[3].end_time), (None, None));
}

fn shiyu(begin: Option<&str>, end: Option<&str>) -> Option<HyvShiyuData> {
    Some(HyvShiyuData {
        hadal_info_v2: Some(HyvShiyuPeriod {
            begin_time: begin.map(|s| s.to_string()),
            end_time: end.map(|s| s.to_string()),
            hadal_begin_time: None,
            hadal_end_time: None,
        }),
    })
}

#[test]
fn shiyu_period_completes_a_missing_end() {
    let p = shiyu_period(shiyu(Some("1000"), None), "prod_gf_us").unwrap();
    assert_eq!(p.start_time, Some(1000));
    assert_eq!(p.end_time, Some(1000 + ROTATION - 1));
    let p = shiyu_period(shiyu(None, Some("5000000")), "prod_gf_us").unwrap();
    assert_eq!(p.start_time, Some(5000000 - ROTATION + 1));
    let p = shiyu_period(shiyu(Some("10"), Some("20")), "prod_gf_us").unwrap();
    assert_eq!((p.start_time, p.end_time), (Some(10), Some(20)));
}

#[test]
fn shiyu_period_falls_back_to_dates() {
    let data = Some(HyvShiyuData {
        hadal_info_v2: Some(HyvShiyuPeriod {
            begin_time: Some("0".to_string()),
            end_time: None,
            hadal_begin_time: Some(date(2024, 1, 1, 0)),
            hadal_end_time: Some(date(2024, 1, 2, 0)),
        }),
    });
    let p = shiyu_period(data, "prod_gf_us").unwrap();
    assert_eq!(p.start_time, Some(1704085200));
    assert_eq!(p.end_time, Some(1704085200 + 86400));
}

#[test]
fn challenge_names_by_language() {
    assert_eq!(
        challenge_names("en-us"),
        ["Deadly Assault", "Threshold Simulation", "Shiyu Defense", "Annihilation Simulacrum"]
    );
    assert_eq!(challenge_names("ja-jp"), ["危局強襲戦", "臨界推演", "式輿防衛戦", "仮想殲滅作戦"]);
    assert_eq!(challenge_names("xx")[0], "Deadly Assault");
    assert_eq!(challenge_names("it-it")[3], "Annihilation Simulacrum");
}

#[test]
fn professions_and_elements() {
    assert_eq!(map_profession(1), "Attack");
    assert_eq!(map_profession(6), "Rupture");
    assert_eq!(map_profession(9), "unknown");
    assert_eq!(map_element(203), "Electric");
    assert_eq!(map_element(205), "Ether");
    assert_eq!(map_element(1), "unknown");
}

#[test]
fn transform_challenges_lists_the_four() {
    let deadly = HyvChallengePeriod { start_time: Some(date(2024, 1, 1, 0)), end_time: Some(date(2024, 1, 2, 0)) };
    let threshold = HyvThresholdData { void_front_battle_abstract_info_brief: None };
    let c = transform_challenges(Some(deadly), Some(threshold), shiyu(Some("10"), Some("20")), None, "prod_gf_us", "en-us").unwrap();
    assert_eq!(c.len(), 4);
    assert_eq!(c[0].id, 1);
    assert_eq!(c[0].kind, "deadly_assault");
    assert_eq!(c[0].start_time, Some(1704085200));
    assert_eq!(c[1].kind, "threshold_simulation");
    assert_eq!(c[1].start_time, None);
    assert_eq!(c[2].name, "Shiyu Defense");
    assert_eq!((c[2].start_time, c[2].end_time), (Some(10), Some(20)));
    assert_eq!(c[3].kind, "annihilation_simulacrum");
    assert_eq!(c[3].end_time, None);
}

fn agent() -> HyvAvatar {
    HyvAvatar {
        avatar_id: 1191,
        avatar_name: "Ellen".to_string(),
        full_name: "Ellen Joe".to_string(),
        rarity: "S".to_string(),
        icon: "e.png".to_string(),
        avatar_profession: 1,
        avatar_element_type: 202,
    }
}

fn w_engine() -> HyvWeapon {
    HyvWeapon {
        weapon_id: 14119,
        rarity: "S".to_string(),
        icon: "w.png".to_string(),
        talent_title: "Deep Sea Visitor".to_string(),
        profession: 1,
    }
}

#[test]
fn banners_name_professions_and_elements() {
    let b = transform_avatar_banner(HyvAvatarGacha {
        gacha_type: "agent".to_string(),
        gacha_state: "open".to_string(),
        start_ts: 1,
        end_ts: 2,
        version: "1.0".to_string(),
        avatar_list: vec![agent()],
    });
    assert_eq!(b.agents[0].profession, "Attack");
    assert_eq!(b.agents[0].element, "Ice");
    assert_eq!(b.agents[0].name, "Ellen");
    assert_eq!(b.agents[0].full_name, "Ellen Joe");
    assert!(b.w_engines.is_empty());
    let w = transform_weapon_banner(HyvWeaponGacha {
        gacha_type: "w-engine".to_string(),
        gacha_state: "open".to_string(),
        start_ts: 3,
        end_ts: 4,
        version: "1.0".to_string(),
        weapon_list: vec![w_engine()],
    });
    assert_eq!(w.w_engines[0].name, "Deep Sea Visitor");
    assert_eq!(w.w_engines[0].profession, "Attack");
    assert_eq!(w.start_time, 3);
}

#[test]
fn calendar_finds_images_by_event_name() {
    let act = HyvActivity {
        activity_id: 5,
        state: "ongoing".to_string(),
        name: "Summer".to_string(),
        monochrome_cnt: 300,
        start_ts: 10,
        end_ts: 20,
    };
    let e = transform_activity(act.clone(), None);
    assert_eq!(e.polychrome, 300);
    let images = vec![("Summer".to_string(), "s.png".to_string())];
    let c = transform_calendar(
        HyvActivityData { activity_list: vec![act] },
        HyvGachaData { avatar_gacha_schedule_list: vec![], weapon_gacha_schedule_list: vec![] },
        vec![],
        &images,
    );
    assert_eq!(c.events[0].image_url.as_deref(), Some("s.png"));
    assert!(c.banners.is_empty());
}
