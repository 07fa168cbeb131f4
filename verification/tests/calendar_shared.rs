use hoyoverse_api::config::ValidatorConfig;
use hoyoverse_api::games::Game;
use hoyoverse_api::http::routes::calendar::sign::{
    ds_token, generate_ds_genshin, generate_ds_starrail, genshin_ds_at, message_digest, nonce_from_nanos,
    random_r, starrail_ds_at,
};
use hoyoverse_api::http::routes::calendar::{
    activity_names, calendar_cache_key, calendar_plan, canonical_pairs, contains_id, cookie_with_lang, distinct_names,
    fandom_cache_key_for, fandom_image_entries, fandom_image_name, fandom_titles, find_image, resolve_lang,
};

#[test]
fn cookie_gets_the_language_first() {
    assert_eq!(cookie_with_lang("ltuid=1; ltoken=abc", "ja-jp"), "mi18nLang=ja-jp; ltuid=1; ltoken=abc");
}

#[test]
fn cookie_language_is_replaced_not_repeated() {
    let once = cookie_with_lang(" ltuid=1 ;mi18nLang=de-de;; ltoken=abc ", "fr-fr");
    assert_eq!(once, "mi18nLang=fr-fr; ltuid=1; ltoken=abc");
    let twice = cookie_with_lang(&once, "ko-kr");
    assert_eq!(twice, cookie_with_lang(" ltuid=1 ;mi18nLang=de-de;; ltoken=abc ", "ko-kr"));
}

#[test]
fn empty_cookie_holds_only_the_language() {
    assert_eq!(cookie_with_lang("", "en-us"), "mi18nLang=en-us");
}

#[test]
fn language_defaults_to_english() {
    assert_eq!(resolve_lang(None).unwrap(), "en-us");
}

#[test]
fn language_aliases_resolve() {
    assert_eq!(resolve_lang(Some("jp".to_string())).unwrap(), "ja-jp");
    assert_eq!(resolve_lang(Some("cn".to_string())).unwrap(), "zh-cn");
    assert_eq!(resolve_lang(Some("tw".to_string())).unwrap(), "zh-tw");
    assert_eq!(resolve_lang(Some("vi-vn".to_string())).unwrap(), "vi-vn");
}

#[test]
fn resolved_language_resolves_to_itself() {
    let first = resolve_lang(Some("kr".to_string())).unwrap();
    assert_eq!(resolve_lang(Some(first.to_string())).unwrap(), first);
}

#[test]
fn unknown_language_is_a_bad_request() {
    let e = resolve_lang(Some("xx".to_string())).unwrap_err();
    assert_eq!(e.status_code, 400);
    assert_eq!(e.status, "Bad Request");
    assert_eq!(e.error_code.0, 1001);
    assert_eq!(e.error, "unsupported language");
    let e = resolve_lang(Some("EN".to_string())).unwrap_err();
    assert_eq!(e.error_code.0, 1001);
}

#[test]
fn canonical_pairs_sort_and_keep_eligible() {
    let pairs = vec![(3, "c".to_string()), (1, "a".to_string()), (2, "b".to_string())];
    assert_eq!(canonical_pairs(pairs, &[1, 3]), vec![(1, "a".to_string()), (3, "c".to_string())]);
    assert!(contains_id(&[4, 5], 5));
    assert!(!contains_id(&[4, 5], 6));
}

#[test]
fn fandom_key_joins_ids() {
    let acts = vec![(1, "a".to_string()), (22, "b".to_string())];
    assert_eq!(fandom_cache_key_for("zenless", &acts), "/fandom/zenless/event-images/1,22");
    assert_eq!(fandom_cache_key_for("genshin", &[]), "/fandom/genshin/event-images/");
}

#[test]
fn find_image_takes_the_first_entry() {
    let images = vec![
        ("A".to_string(), "1.png".to_string()),
        ("B".to_string(), "2.png".to_string()),
        ("A".to_string(), "3.png".to_string()),
    ];
    assert_eq!(find_image(&images, "A").as_deref(), Some("1.png"));
    assert_eq!(find_image(&images, "C"), None);
}

#[test]
fn image_names_are_checked_for_repeats() {
    let mut images = vec![
        ("A".to_string(), "1.png".to_string()),
        ("B".to_string(), "2.png".to_string()),
        ("C".to_string(), "3.png".to_string()),
    ];
    assert!(distinct_names(&images));
    assert!(distinct_names(&[]));
    for (name, url) in &images {
        assert_eq!(find_image(&images, name).as_deref(), Some(url.as_str()));
    }
    images.reverse();
    assert_eq!(find_image(&images, "B").as_deref(), Some("2.png"));
    images.push(("B".to_string(), "4.png".to_string()));
    assert!(!distinct_names(&images));
}

#[test]
fn calendar_cache_key_has_game_and_language() {
    assert_eq!(calendar_cache_key(Game::Genshin, "en-us"), "/mihoyo/genshin/calendar/en-us");
    assert_eq!(calendar_cache_key(Game::Zenless, "ja-jp"), "/mihoyo/zenless/calendar/ja-jp");
}

#[test]
fn calendar_plan_needs_cookie_and_uid() {
    let mut v = ValidatorConfig::default();
    let e = calendar_plan(&v, Game::Genshin, "en-us").err().unwrap();
    assert_eq!(e.status_code, 500);
    assert_eq!(e.status, "Internal Server Error");
    assert_eq!(e.error_code.0, 3000);
    assert_eq!(e.error, "genshin calendar credentials not configured");
    v.zenless.cookie = "c=1".to_string();
    let e = calendar_plan(&v, Game::Zenless, "en-us").err().unwrap();
    assert_eq!(e.error, "zenless calendar credentials not configured");
    v.zenless.uid = "1000".to_string();
    v.zenless.region = "prod_gf_jp".to_string();
    let plan = calendar_plan(&v, Game::Zenless, "en-us").unwrap();
    assert_eq!(plan.uid, "1000");
    assert_eq!(plan.region, "prod_gf_jp");
    assert_eq!(plan.lang, "en-us");
    assert_eq!(plan.cookie, "mi18nLang=en-us; c=1");
    assert!(plan.english_cookie.is_none());
    let e = calendar_plan(&v, Game::Honkai, "en-us").err().unwrap();
    assert_eq!(e.error, "honkai calendar credentials not configured");
}

#[test]
fn activity_names_in_order() {
    let acts = vec![(2, "Two".to_string()), (1, "One".to_string())];
    assert_eq!(activity_names(&acts), vec!["Two".to_string(), "One".to_string()]);
}

#[test]
fn fandom_titles_are_joined_with_bars() {
    let names = vec!["A".to_string(), "B C".to_string()];
    assert_eq!(fandom_titles("File:", ".png", &names), "File:A.png|File:B C.png");
    assert_eq!(fandom_titles("File:", ".png", &[]), "");
}

#[test]
fn fandom_image_name_strips_prefix_and_suffix() {
    assert_eq!(fandom_image_name("File:Event ", ".png", "File:Event Lantern Rite.png"), "Lantern Rite");
    assert_eq!(fandom_image_name("File:", ".png", "File:Thing.jpg"), "File:Thing.jpg");
    assert_eq!(fandom_image_name("File:", ".png", "Other.png"), "Other.png");
}

#[test]
fn fandom_image_entries_skip_pages_without_images() {
    let pages = vec![
        ("File:A.png".to_string(), Some("https://a".to_string())),
        ("File:B.png".to_string(), None),
        ("Odd".to_string(), Some("https://odd".to_string())),
    ];
    let entries = fandom_image_entries("File:", ".png", pages);
    assert_eq!(
        entries,
        vec![("A".to_string(), "https://a".to_string()), ("Odd".to_string(), "https://odd".to_string())]
    );
}

#[test]
fn message_digest_is_md5_in_hex() {
    assert_eq!(message_digest("abc"), "900150983cd24fb0d6963f7d28e17f72");
    assert_eq!(message_digest(""), "d41d8cd98f00b204e9800998ecf8427e");
    assert_eq!(message_digest("イベント"), "4cdb193c62c3624a8b4ab622a9c9d768");
}

#[test]
fn ds_token_joins_its_parts() {
    assert_eq!(ds_token(1700000000, "ABCDEF", "ff"), "1700000000,ABCDEF,ff");
}

#[test]
fn genshin_ds_signs_the_salted_body() {
    let ds = genshin_ds_at(1700000000, "ABCDEF", "{\"role_id\":\"1\",\"server\":\"os_usa\"}");
    assert_eq!(ds, "1700000000,ABCDEF,b6b6b75625461cdcc7437819a981c13b");
}

#[test]
fn starrail_ds_signs_the_salted_time() {
    assert_eq!(starrail_ds_at(1700000000, "ABCDEF"), "1700000000,ABCDEF,cb7a4a13ac7d40d7ec1759774f56052a");
}

#[test]
fn nonce_follows_the_nanoseconds() {
    assert_eq!(nonce_from_nanos(0), "AtcL4n");
    assert_eq!(nonce_from_nanos(123456789), "hQ9sbK");
    assert_eq!(nonce_from_nanos(999999999), "P8raJ2");
}

fn is_nonce(r: &str) -> bool {
    r.len() == 6 && r.chars().all(|c| c.is_ascii_alphanumeric())
}

#[test]
fn random_nonce_has_six_characters() {
    assert!(is_nonce(&random_r()));
}

#[test]
fn generated_ds_has_time_nonce_and_digest() {
    for ds in [generate_ds_genshin("{}").unwrap(), generate_ds_starrail().unwrap()] {
        let parts: Vec<&str> = ds.split(',').collect();
        assert_eq!(parts.len(), 3);
        assert!(parts[0].parse::<i64>().unwrap() > 0);
        assert!(is_nonce(parts[1]));
        assert_eq!(parts[2].len(), 32);
        assert!(parts[2].chars().all(|c| c.is_ascii_hexdigit() && !c.is_ascii_uppercase()));
    }
    let ds = generate_ds_starrail().unwrap();
    let parts: Vec<&str> = ds.split(',').collect();
    let t: i64 = parts[0].parse().unwrap();
    assert_eq!(ds, starrail_ds_at(t, parts[1]));
}
