use hoyoverse_api::config::ValidatorConfig;
use hoyoverse_api::crons::{check_collection_empty, initial_codes, should_insert, NewsEvent, NewsTally};
use hoyoverse_api::database::redemption_code::RedemptionCode;
use hoyoverse_api::games::Game;
use hoyoverse_api::mutex::{lock_arguments, lock_step, unlock_result, LockStep, MutexError, MAX_LOCK_ATTEMPTS};
use hoyoverse_api::notifier::{code_embed, code_field};
use hoyoverse_api::ratelimit::{
    canonical_ip, client_ip, rate_limit_key, rate_limit_response, real_ip, IpAddress, RateLimitResponse,
};
use hoyoverse_api::redeem::{
    default_region, game_credentials, game_info, needs_referer, redeem_params, RedeemResponse,
};

fn response(retcode: i32) -> RedeemResponse {
    RedeemResponse { retcode, message: String::new() }
}

#[test]
fn redeem_codes_are_interpreted() {
    assert_eq!(response(0).interpret(), "success — code redeemed");
    assert_eq!(response(-2018).interpret(), "already redeemed (code is active)");
    assert_eq!(response(-2011).interpret(), "game level too low (code is active)");
    assert_eq!(response(-2001).interpret(), "expired");
    assert_eq!(response(-2014).interpret(), "invalid / does not exist");
    assert_eq!(response(-2006).interpret(), "max usage limit reached (invalid)");
    assert_eq!(response(-2016).interpret(), "rate limited (cooldown)");
    assert_eq!(response(-1073).interpret(), "no game account bound to this HoYoLab account");
    assert_eq!(response(12345).interpret(), "unknown");
}

#[test]
fn credential_problems() {
    assert!(response(-1071).is_credentials_issue());
    assert!(response(-1075).is_credentials_issue());
    assert!(!response(-2001).is_credentials_issue());
}

#[test]
fn redemption_details_by_slug() {
    let info = game_info("zenless").unwrap();
    assert_eq!(info.endpoint, "https://public-operation-nap.hoyoverse.com/common/apicdkey/api/webExchangeCdkey");
    assert_eq!(info.game_biz, "nap_global");
    assert_eq!(info.display_name, "Zenless Zone Zero");
    assert_eq!(game_info("themis").unwrap().game_biz, "nxx_global");
    assert!(game_info("honkai").is_none());
    assert!(game_info("unknown").is_none());
    assert_eq!(default_region(), "os_usa");
}

#[test]
fn redemption_credentials_by_slug() {
    let mut v = ValidatorConfig::default();
    v.starrail.uid = "7".to_string();
    assert_eq!(game_credentials(&v, "starrail").unwrap().uid, "7");
    assert!(game_credentials(&v, "honkai").is_none());
    for slug in ["genshin", "starrail", "zenless", "themis", "honkai", "x"] {
        assert_eq!(game_info(slug).is_some(), game_credentials(&v, slug).is_some());
    }
}

#[test]
fn redemption_query() {
    let p = redeem_params("genshin", "CODE", "1", "os_usa", "hk4e_global", "1700");
    assert_eq!(p.len(), 7);
    assert_eq!(p[0], ("cdkey".to_string(), "CODE".to_string()));
    assert_eq!(p[3], ("lang".to_string(), "en".to_string()));
    assert_eq!(p[6], ("sLangKey".to_string(), "en-us".to_string()));
    let p = redeem_params("themis", "CODE", "1", "os_usa", "nxx_global", "1700");
    assert_eq!(p.len(), 6);
    assert_eq!(p[5], ("t".to_string(), "1700".to_string()));
    assert!(needs_referer("themis"));
    assert!(!needs_referer("genshin"));
}

#[test]
fn rate_limit_verdicts() {
    let r = rate_limit_response("ratelimit:1.2.3.4:codes".to_string(), 60, &[0, 30]);
    assert!(r.is_allowed());
    assert_eq!((r.remaining, r.reset, r.limit, r.used), (0, 30, 60, 1));
    let r = RateLimitResponse { remaining: -1, reset: 5, limit: 60, used: 1, resource: String::new() };
    assert!(!r.is_allowed());
}

#[test]
fn mapped_addresses_count_as_ipv4() {
    let mapped = IpAddress::V6(0xffff_0102_0304);
    assert_eq!(canonical_ip(mapped), IpAddress::V4(0x0102_0304));
    assert_eq!(canonical_ip(IpAddress::V6(1)), IpAddress::V6(1));
    assert_eq!(canonical_ip(canonical_ip(mapped)), canonical_ip(mapped));
}

#[test]
fn real_ip_follows_header_order() {
    let a = Some(IpAddress::V4(1));
    let b = Some(IpAddress::V4(2));
    let c = Some(IpAddress::V6(0xffff_0000_0003));
    assert_eq!(real_ip(a, b, c), a);
    assert_eq!(real_ip(None, b, c), b);
    assert_eq!(real_ip(None, None, c), Some(IpAddress::V4(3)));
    assert_eq!(real_ip(None, None, None), None);
    assert_eq!(client_ip(None, None, None), IpAddress::V4(0));
    assert_eq!(rate_limit_key("1.2.3.4", "codes"), "ratelimit:1.2.3.4:codes");
}

#[test]
fn lock_replies() {
    assert!(matches!(lock_step(0, Ok(1)), LockStep::Acquired));
    assert!(matches!(lock_step(0, Ok(0)), LockStep::WaitAndRetry));
    assert!(matches!(lock_step(MAX_LOCK_ATTEMPTS - 1, Ok(0)), LockStep::WaitAndFail(MutexError::AcquireFailed(10))));
    match lock_step(3, Ok(7)) {
        LockStep::Fail(e) => assert_eq!(e.message(), "redis error: Unexpected return value from mutex lock"),
        _ => panic!("expected a failure"),
    }
    match lock_step(3, Err("connection reset".to_string())) {
        LockStep::Fail(e) => assert_eq!(e.message(), "redis error: connection reset"),
        _ => panic!("expected a failure"),
    }
    assert_eq!(MutexError::AcquireFailed(10).message(), "failed to acquire mutex after 10 attempts");
    assert_eq!(lock_arguments("id-1"), vec!["id-1".to_string(), "30".to_string()]);
}

#[test]
fn unlock_replies() {
    assert!(unlock_result(Ok(1)).is_ok());
    let e = unlock_result(Ok(0)).unwrap_err();
    assert!(matches!(e, MutexError::LockLost));
    assert_eq!(e.message(), "mutex lock was lost");
    assert_eq!(
        unlock_result(Ok(2)).unwrap_err().message(),
        "redis error: Unexpected return value from mutex unlock"
    );
}

fn stored(text: &str, active: bool) -> RedemptionCode {
    RedemptionCode { code: text.to_string(), active, date: 1, rewards: vec![], source: "game8".to_string() }
}

#[test]
fn first_scrape_stores_codes_inactive() {
    let codes = initial_codes(true, vec![stored("A", true), stored("B", false)]);
    assert!(codes.iter().all(|c| !c.active));
    assert_eq!(codes[0].code, "A");
    let codes = initial_codes(false, vec![stored("A", true), stored("B", false)]);
    assert!(codes[0].active && !codes[1].active);
}

#[test]
fn empty_collections_and_inserts() {
    assert!(check_collection_empty(Some(0)));
    assert!(!check_collection_empty(Some(3)));
    assert!(check_collection_empty(None));
    assert!(should_insert(Some(false)));
    assert!(should_insert(None));
    assert!(!should_insert(Some(true)));
}

#[test]
fn news_tally_counts_a_run() {
    let mut t = NewsTally::new();
    t.record(NewsEvent::Fetched(3));
    t.record(NewsEvent::Stored { inserted: true });
    t.record(NewsEvent::Stored { inserted: false });
    t.record(NewsEvent::Failed);
    t.record(NewsEvent::Fetched(2));
    assert_eq!((t.total, t.new, t.failed), (5, 1, 1));
    assert_eq!(t.summary("[Genshin][News]"), "[Genshin][News] Fetch complete - Total: 5, New: 1, Failed: 1");
}

#[test]
fn discord_fields() {
    let f = code_field("ABC", &vec!["Primogem ×60".to_string(), "Mora ×5000".to_string()], "fandom");
    assert_eq!(f.name, "`ABC`");
    assert_eq!(f.value, "Primogem ×60, Mora ×5000\nSource: fandom");
    assert!(!f.inline);
    let f = code_field("XYZ", &vec![], "game8");
    assert_eq!(f.value, "Source: game8");
}

#[test]
fn discord_embed() {
    let codes = vec![
        ("TESTCODE123".to_string(), vec!["Stellar Jade ×60".to_string()], "fandom".to_string()),
        ("ANOTHER".to_string(), vec![], "game8".to_string()),
    ];
    let e = code_embed(Game::Starrail, &codes);
    assert_eq!(e.title, "New Honkai: Star Rail Codes");
    assert_eq!(e.fields.len(), 2);
    assert_eq!(e.fields[1].name, "`ANOTHER`");
}
