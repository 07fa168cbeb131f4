use hoyoverse_api::games::Game;
use hoyoverse_api::http::routes::calendar::{genshin, starrail, zenless};
use hoyoverse_api::probe;
use hoyoverse_api::probe::codes::{
    icon_hash_of, known_combos, material_codes, material_item_name, result_lines, IconBonus, MaterialBonus,
    ParsedCode,
};

#[test]
fn probe_defaults_and_names() {
    assert_eq!(probe::genshin_default_region(), "os_usa");
    assert_eq!(probe::starrail_default_region(), "prod_official_usa");
    assert_eq!(probe::zenless_default_region(), "prod_gf_us");
    assert_eq!(probe::map_profession(3), "anomaly");
    assert_eq!(probe::map_profession(0), "unknown");
    assert_eq!(probe::map_element(201), "Fire");
}

#[test]
fn probe_header() {
    let lines = probe::header_lines(Game::Genshin, "800", "os_usa", "en-us");
    assert_eq!(lines.len(), 5);
    assert!(lines[0].starts_with("━━ Genshin Impact ━"));
    assert_eq!(lines[0].chars().count(), 76);
    assert_eq!(lines[1], "UID:    800");
    assert_eq!(lines[2], "Region: os_usa");
    assert_eq!(lines[3], "Lang:   en-us");
    assert_eq!(lines[4], "");
}

#[test]
fn probe_credentials() {
    assert_eq!(
        probe::credentials_problem("zenless", "", "1").as_deref(),
        Some("cookie or uid is empty for [validator.zenless] in config.toml")
    );
    assert_eq!(probe::credentials_problem("zenless", "c", "1"), None);
}

fn rule() -> String {
    "─".repeat(30)
}

#[test]
fn genshin_report_sections() {
    let reward = |name: &str, shown: bool| genshin::HyvReward {
        item_id: 1,
        name: name.to_string(),
        icon: String::new(),
        rarity: "4".to_string(),
        num: 60,
        homepage_show: shown,
    };
    let act = genshin::HyvActivity {
        id: 7,
        name: "Lantern Rite".to_string(),
        kind: "Event".to_string(),
        desc: String::new(),
        start_timestamp: "1".to_string(),
        end_timestamp: "2".to_string(),
        reward_list: vec![reward("Primogem", true), reward("Mora", false), reward("Wit", false)],
    };
    let pool = genshin::HyvBannerPool {
        pool_id: 3,
        pool_name: "Epitome".to_string(),
        version_name: "5.3".to_string(),
        avatars: vec![],
        weapon: vec![genshin::HyvWeapon { id: 1, name: "Sword".to_string(), icon: String::new(), rarity: 5 }],
        start_timestamp: "10".to_string(),
        end_timestamp: "20".to_string(),
    };
    let data = genshin::HyvCalendarData {
        act_list: vec![act.clone()],
        fixed_act_list: vec![act],
        avatar_card_pool_list: vec![],
        weapon_card_pool_list: vec![pool],
        mixed_card_pool_list: vec![],
    };
    let lines = probe::genshin::report(&data);
    let expected = vec![
        format!("── Events (1) {}", rule()),
        "  [7] Lantern Rite (Event)".to_string(),
        "       1 → 2".to_string(),
        "       special: Primogem x60 (rarity 4)".to_string(),
        "       rewards: Mora, Wit".to_string(),
        String::new(),
        format!("── Banners (1) {}", rule()),
        "  [3] Epitome v5.3".to_string(),
        "       10 → 20".to_string(),
        "       weapons: Sword ★5".to_string(),
        String::new(),
        format!("── Challenges (1) {}", rule()),
        "  [7] Lantern Rite (Event)".to_string(),
        "       1 → 2".to_string(),
        "       special: Primogem x60 (rarity 4)".to_string(),
    ];
    assert_eq!(lines, expected);
}

#[test]
fn starrail_report_skips_undated_events() {
    let times = |s: &str| starrail::HyvTimeInfo {
        start_ts: s.to_string(),
        end_ts: "2".to_string(),
        start_time: "2024-01-01".to_string(),
        end_time: "2024-01-15".to_string(),
    };
    let reward = |id: u64, name: &str, num: u64| starrail::HyvReward {
        item_id: id,
        name: name.to_string(),
        icon: String::new(),
        rarity: "5".to_string(),
        num,
    };
    let event = |id: u64, start: &str| starrail::HyvActivity {
        id,
        name: format!("Event {id}"),
        panel_desc: String::new(),
        act_type: "Login".to_string(),
        reward_list: vec![reward(1, "Jade", 60), reward(2, "Nothing", 0)],
        special_reward: Some(reward(0, "Hidden", 1)),
        time_info: times(start),
    };
    let data = starrail::HyvCalendarData {
        avatar_card_pool_list: vec![starrail::HyvAvatarPool {
            id: "9".to_string(),
            name: "Warp".to_string(),
            version: "2.0".to_string(),
            time_info: times("1"),
            avatar_list: vec![starrail::HyvCharacter {
                item_id: "1".to_string(),
                item_name: "Blade".to_string(),
                rarity: "5".to_string(),
                damage_type: "Wind".to_string(),
                avatar_base_type: "Destruction".to_string(),
                icon_url: String::new(),
            }],
        }],
        equip_card_pool_list: vec![],
        act_list: vec![event(1, "1"), event(2, "0")],
        challenge_list: vec![],
    };
    let lines = starrail::HyvCalendarData::clone(&data);
    let report = probe::starrail::report(&lines);
    let expected = vec![
        format!("── Events (1) {}", rule()),
        "  [1] Event 1 (Login)".to_string(),
        "       2024-01-01 → 2024-01-15".to_string(),
        "       rewards: Jade".to_string(),
        String::new(),
        format!("── Banners (1) {}", rule()),
        "  [9] Warp v2.0".to_string(),
        "       2024-01-01 → 2024-01-15".to_string(),
        "       characters: Blade (Wind path:Destruction ★5)".to_string(),
        String::new(),
        format!("── Challenges (0) {}", rule()),
    ];
    assert_eq!(report, expected);
}

#[test]
fn zenless_report_with_challenges() {
    let activity = zenless::HyvActivityData {
        activity_list: vec![zenless::HyvActivity {
            activity_id: 5,
            state: "ongoing".to_string(),
            name: "Summer".to_string(),
            monochrome_cnt: 300,
            start_ts: 10,
            end_ts: -1,
        }],
    };
    let gacha = zenless::HyvGachaData {
        avatar_gacha_schedule_list: vec![zenless::HyvAvatarGacha {
            gacha_type: "agent".to_string(),
            gacha_state: "open".to_string(),
            start_ts: 1,
            end_ts: 2,
            version: "1.0".to_string(),
            avatar_list: vec![zenless::HyvAvatar {
                avatar_id: 1191,
                avatar_name: "Ellen".to_string(),
                full_name: String::new(),
                rarity: "S".to_string(),
                icon: String::new(),
                avatar_profession: 1,
                avatar_element_type: 202,
            }],
        }],
        weapon_gacha_schedule_list: vec![],
    };
    let shiyu = Some(zenless::HyvShiyuData {
        hadal_info_v2: Some(zenless::HyvShiyuPeriod {
            begin_time: Some("100".to_string()),
            end_time: None,
            hadal_begin_time: None,
            hadal_end_time: None,
        }),
    });
    let report = probe::zenless::report(&activity, &gacha, &None, &None, &shiyu, &None, "prod_gf_us", "en-us");
    assert_eq!(
        report,
        vec![
            format!("── Events (1) {}", rule()),
            "  [5] Summer (ongoing)".to_string(),
            "       10 → -1".to_string(),
            "       polychrome: 300".to_string(),
            String::new(),
            format!("── Banners (1) {}", rule()),
            "  agent v1.0 (open)".to_string(),
            "       1 → 2".to_string(),
            "       agents: Ellen #1191 (★S attack Ice)".to_string(),
            String::new(),
            format!("── Challenges (4) {}", "─".repeat(27)),
            "  Deadly Assault".to_string(),
            "       unavailable → unavailable".to_string(),
            "  Threshold Simulation".to_string(),
            "       unavailable → unavailable".to_string(),
            "  Shiyu Defense".to_string(),
            "       100 → unavailable".to_string(),
            "  Annihilation Simulacrum".to_string(),
            "       unavailable → unavailable".to_string(),
        ]
    );
}

#[test]
fn icon_hash_is_the_file_name_without_extension() {
    let hash: String = icon_hash_of("https://upload.example.com/a/b/77cb_123.png?x=1").into_iter().collect();
    assert_eq!(hash, "77cb_123");
    let hash: String = icon_hash_of("plain").into_iter().collect();
    assert_eq!(hash, "plain");
}

#[test]
fn material_items_by_game() {
    let url = "https://x/y/77cb5426637574ba524ac458fa963da0_6409817950389238658.png";
    assert_eq!(material_item_name(Game::Starrail, url), Some("Stellar Jade"));
    assert_eq!(material_item_name(Game::Zenless, url), None);
    let url = "https://x/8609070fe148c0e0e367cda25fdae632_208324374592932270.png";
    assert_eq!(material_item_name(Game::Zenless, url), Some("Polychrome"));
    assert_eq!(material_item_name(Game::Genshin, url), None);
}

fn icon(url: &str, num: Option<u64>) -> IconBonus {
    IconBonus { icon_url: Some(url.to_string()), bonus_num: num }
}

#[test]
fn live_material_codes() {
    let jade = "https://x/77cb5426637574ba524ac458fa963da0_6409817950389238658.png";
    let credit = "https://x/0b12bdf76fa4abc6b4d1fdfc0fb4d6f5_4521150989210768295.png";
    let bonuses = vec![
        MaterialBonus {
            code_status: Some("ON".to_string()),
            exchange_code: Some("STARRAILGIFT".to_string()),
            icon_bonuses: Some(vec![icon(jade, Some(50)), icon("https://x/unknown.png", Some(1)), icon(credit, None), icon(credit, Some(10000))]),
        },
        MaterialBonus {
            code_status: Some("OFF".to_string()),
            exchange_code: Some("OLD".to_string()),
            icon_bonuses: None,
        },
        MaterialBonus { code_status: Some("ON".to_string()), exchange_code: Some(String::new()), icon_bonuses: None },
        MaterialBonus { code_status: Some("ON".to_string()), exchange_code: Some("BARE".to_string()), icon_bonuses: None },
    ];
    let codes = material_codes(Game::Starrail, &bonuses);
    assert_eq!(codes.len(), 2);
    assert_eq!(codes[0].code, "STARRAILGIFT");
    assert_eq!(codes[0].rewards, vec!["Stellar Jade ×50".to_string(), "Credit ×10000".to_string()]);
    assert_eq!(codes[1].code, "BARE");
    assert!(codes[1].rewards.is_empty());
}

#[test]
fn parser_report_marks_case_and_duplicates() {
    let codes = vec![
        ParsedCode { code: "GENSHINGIFT".to_string(), rewards: vec!["Primogem ×50".to_string(), "Mora ×10000".to_string()] },
        ParsedCode { code: "GenshinGift".to_string(), rewards: vec![] },
        ParsedCode { code: "OTHER".to_string(), rewards: vec!["Hero's Wit ×2".to_string()] },
    ];
    let lines = result_lines(&codes);
    let expected = vec![
        "Parsed 3 code entries:".to_string(),
        String::new(),
        format!("{:<30} REWARDS", "CODE"),
        "-".repeat(80),
        format!("{:<30} {}{}", "GENSHINGIFT", "Primogem ×50, Mora ×10000", ""),
        format!("{:<30} {}{}", "GenshinGift", "(none)", " (mixed case)"),
        format!("{:<30} {}{}", "OTHER", "Hero's Wit ×2", ""),
        String::new(),
        "Case-insensitive duplicates found:".to_string(),
        "  GENSHINGIFT -> [\"GENSHINGIFT\", \"GenshinGift\"]".to_string(),
    ];
    assert_eq!(lines, expected);
}

#[test]
fn parser_report_without_duplicates() {
    let long = "A".repeat(35);
    let codes = vec![ParsedCode { code: long.clone(), rewards: vec!["X".to_string()] }];
    let lines = result_lines(&codes);
    assert_eq!(lines[4], format!("{} X", long));
    assert_eq!(lines[5], "");
    assert_eq!(lines[6], "No case-insensitive duplicates found.");
    assert_eq!(lines.len(), 7);
    assert_eq!(result_lines(&[])[0], "Parsed 0 code entries:");
}

#[test]
fn known_parser_combinations() {
    let combos = known_combos();
    assert_eq!(combos.len(), 12);
    assert_eq!(combos[0], "Known combinations:");
    assert_eq!(combos[6], "  starrail  hoyolab");
}
