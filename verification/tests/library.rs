use hoyoverse_api::config::{DatabaseConfig, GameValidatorConfig, RateLimitConfig, ScraperConfig, ValidatorConfig};
use hoyoverse_api::database::redemption_code::{RedemptionCode, RedemptionCodeResponse};
use hoyoverse_api::error;
use hoyoverse_api::games::Game;
use hoyoverse_api::http::error::{ApiError, ApiErrorCode};
use hoyoverse_api::http::routes::codes::{
    client_key, codes_cache_key, forwarded_first, resolve_code_game, split_codes, HeaderText,
};
use hoyoverse_api::http::routes::news::{
    event_news_item, events_to_news, news_cache_key, news_list_type, post_news_item, posts_to_news,
    resolve_game, HylEvent, HylImage, HylNewsItem, HylPost, NewsSection,
};
use hoyoverse_api::http::routes::{root_endpoints, upstream_data};
use hoyoverse_api::http::{classify_user_agent, client_label, endpoint_label};
use hoyoverse_api::text::{parse_i64, parse_u64, parse_u8, to_ascii_lowercase};

#[test]
fn game_names_and_slugs() {
    let all = [Game::Genshin, Game::Starrail, Game::Zenless, Game::Honkai, Game::Themis];
    let slugs: Vec<&str> = all.iter().map(|g| g.slug()).collect();
    assert_eq!(slugs, vec!["genshin", "starrail", "zenless", "honkai", "themis"]);
    for g in all {
        assert_eq!(Game::from_slug(g.slug()), Some(g));
        assert_eq!(g.collection_name(), format!("{}_codes", g.slug()));
    }
    assert_eq!(Game::from_slug("Genshin"), None);
    assert_eq!(Game::Honkai.display_name(), "Honkai Impact 3rd");
    assert_eq!(Game::Starrail.display_name(), "Honkai: Star Rail");
}

#[test]
fn only_honkai_lacks_a_redeem_endpoint() {
    assert_eq!(Game::Honkai.redeem_endpoint(), None);
    assert_eq!(Game::Honkai.game_biz(), None);
    assert_eq!(Game::Genshin.game_biz(), Some("hk4e_global"));
    assert_eq!(Game::Zenless.game_biz(), Some("nap_global"));
    assert_eq!(
        Game::Starrail.redeem_endpoint(),
        Some("https://sg-hkrpg-api.hoyoverse.com/common/apicdkey/api/webExchangeCdkey")
    );
}

#[test]
fn config_defaults() {
    let r = RateLimitConfig::default();
    assert_eq!((r.per_second, r.burst_size), (2, 120));
    let d = DatabaseConfig::default();
    assert_eq!(d.uri, "mongodb://localhost:27017");
    assert_eq!(d.name, "hoyoverse");
    let g = GameValidatorConfig::default();
    assert!(!g.enabled);
    assert_eq!(g.region, "os_usa");
    assert!(g.cookie.is_empty() && g.uid.is_empty());
    let v = ValidatorConfig::default();
    assert!(!v.enabled);
    assert_eq!(v.interval_secs, 1800);
    let s = ScraperConfig::default();
    assert!(!s.enabled);
    assert_eq!(s.interval_secs, 300);
}

#[test]
fn environment_overrides_replace_settings() {
    let mut d = DatabaseConfig::default();
    d.apply_overrides(Some("mongodb://db:27017".to_string()), None);
    assert_eq!(d.uri, "mongodb://db:27017");
    assert_eq!(d.name, "hoyoverse");
    d.apply_overrides(None, Some("codes".to_string()));
    assert_eq!(d.name, "codes");
}

#[test]
fn game_config_by_game() {
    let mut v = ValidatorConfig::default();
    v.themis.uid = "42".to_string();
    assert_eq!(v.game_config(Game::Themis).unwrap().uid, "42");
    assert!(v.game_config(Game::Honkai).is_none());
}

#[test]
fn api_error_codes_have_names_and_numbers() {
    assert_eq!(error::ApiErrorCode::RateLimitExceeded.as_str(), "RATE_LIMIT_EXCEEDED");
    assert_eq!(error::ApiErrorCode::RateLimitExceeded.code(), 2000);
    assert_eq!(error::ApiErrorCode::ExternalServiceError.code(), 5001);
    assert_eq!(error::ApiErrorCode::Unknown.code(), 0);
}

#[test]
fn legacy_errors_carry_status_and_code() {
    let e = error::ApiError::rate_limit_exceeded("slow down");
    assert_eq!(e.status_code, 429);
    assert_eq!(e.status, "Too Many Requests");
    assert!(matches!(e.error_code, error::ApiErrorCode::RateLimitExceeded));
    assert!(e.extra_headers.is_none());
    let e = e.with_extra_headers(vec![("Retry-After".to_string(), "5".to_string())]);
    assert_eq!(e.extra_headers.unwrap()[0].1, "5");
    let e = error::ApiError::not_found("missing");
    assert_eq!(e.status, "Not Found");
    assert!(matches!(e.error_code, error::ApiErrorCode::ResourceNotFound));
    let e = error::ApiError::database_error("db");
    assert_eq!(e.status_code, 500);
    assert!(matches!(e.error_code, error::ApiErrorCode::DatabaseError));
}

#[test]
fn api_error_reason_phrases() {
    let e = ApiError::new(418, ApiErrorCode::unknown_game(), "teapot");
    assert_eq!(e.status, "I'm a teapot");
    let e = ApiError::new(599, ApiErrorCode::upstream_error(), "odd");
    assert_eq!(e.status, "unknown");
    let e = ApiError::new(503, ApiErrorCode::upstream_error(), "down");
    assert_eq!(e.status, "Service Unavailable");
    assert_eq!(ApiError::not_found(ApiErrorCode::route_not_found(), "route not found").error_code.0, 404);
}

#[test]
fn api_error_code_numbers() {
    assert_eq!(ApiErrorCode::route_not_found().0, 404);
    assert_eq!(ApiErrorCode::unknown_game().0, 1000);
    assert_eq!(ApiErrorCode::invalid_language().0, 1001);
    assert_eq!(ApiErrorCode::database_error().0, 2000);
    assert_eq!(ApiErrorCode::not_configured().0, 3000);
    assert_eq!(ApiErrorCode::upstream_error().0, 3001);
}

#[test]
fn upstream_errors() {
    let ok: Result<u8, ApiError> = upstream_data(0, Some(7), "calendar");
    assert_eq!(ok.unwrap(), 7);
    let e = upstream_data::<u8>(-1, Some(7), "calendar").unwrap_err();
    assert_eq!(e.error, "calendar API returned an error");
    assert_eq!(e.error_code.0, 3001);
    let e = upstream_data::<u8>(0, None, "news").unwrap_err();
    assert_eq!(e.error, "news API returned no data");
    assert_eq!(e.status_code, 500);
}

#[test]
fn root_lists_code_endpoints() {
    assert_eq!(
        root_endpoints(),
        vec![
            "/mihoyo/genshin/codes".to_string(),
            "/mihoyo/starrail/codes".to_string(),
            "/mihoyo/zenless/codes".to_string(),
            "/mihoyo/honkai/codes".to_string(),
            "/mihoyo/themis/codes".to_string(),
        ]
    );
}

fn code(text: &str, active: bool) -> RedemptionCode {
    RedemptionCode {
        code: text.to_string(),
        active,
        date: 0,
        rewards: vec![format!("{text} reward")],
        source: "fandom".to_string(),
    }
}

#[test]
fn codes_split_by_activity_in_order() {
    let r = split_codes(vec![code("A", true), code("B", false), code("C", true)]);
    let active: Vec<&str> = r.active.iter().map(|c| c.code.as_str()).collect();
    let inactive: Vec<&str> = r.inactive.iter().map(|c| c.code.as_str()).collect();
    assert_eq!(active, vec!["A", "C"]);
    assert_eq!(inactive, vec!["B"]);
    assert_eq!(r.active[1].rewards, vec!["C reward".to_string()]);
}

#[test]
fn code_response_keeps_code_and_rewards() {
    let r = RedemptionCodeResponse::from(code("X", true));
    assert_eq!(r.code, "X");
    assert_eq!(r.rewards, vec!["X reward".to_string()]);
}

#[test]
fn unknown_code_game_is_not_found() {
    assert_eq!(resolve_code_game("zenless").unwrap(), Game::Zenless);
    let e = resolve_code_game("invalid_game").unwrap_err();
    assert_eq!(e.status_code, 404);
    assert_eq!(e.status, "Not Found");
    assert_eq!(e.error_code.0, 1000);
    assert_eq!(e.error, "Unknown game: invalid_game");
    assert_eq!(codes_cache_key("genshin"), "/mihoyo/genshin/codes");
}

#[test]
fn client_key_prefers_proxy_headers() {
    let t = |s: &str| HeaderText::Text(s.to_string());
    assert_eq!(
        client_key(t("1.1.1.1"), t("2.2.2.2"), t("3.3.3.3"), Some("4.4.4.4".to_string())).as_deref(),
        Some("1.1.1.1")
    );
    assert_eq!(
        client_key(HeaderText::Absent, t("2.2.2.2"), t("3.3.3.3"), None).as_deref(),
        Some("2.2.2.2")
    );
    assert_eq!(
        client_key(HeaderText::Absent, HeaderText::Absent, t(" 3.3.3.3 , 5.5.5.5"), None).as_deref(),
        Some("3.3.3.3")
    );
    assert_eq!(
        client_key(HeaderText::Opaque, t("2.2.2.2"), HeaderText::Absent, Some("4.4.4.4".to_string())).as_deref(),
        Some("4.4.4.4")
    );
    assert_eq!(client_key(HeaderText::Absent, HeaderText::Absent, HeaderText::Absent, None), None);
    assert_eq!(forwarded_first("a,b"), "a");
    assert_eq!(forwarded_first("  only  "), "only");
}

#[test]
fn news_items_from_events_and_posts() {
    let e = HylEvent {
        id: "9".to_string(),
        name: "Web Event".to_string(),
        desc: "d".to_string(),
        create_at: 100,
        banner_url: String::new(),
        web_path: "/event/9".to_string(),
    };
    let item = event_news_item(e.clone());
    assert_eq!(item.url, "https://www.hoyolab.com/event/9");
    assert_eq!(item.kind, "event");
    assert!(item.banner.is_none());
    assert_eq!(events_to_news(vec![e]).len(), 1);
    let post = HylNewsItem {
        post: HylPost { post_id: "77".to_string(), subject: "Patch".to_string(), desc: "notes".to_string(), created_at: 5 },
        image_list: vec![HylImage { url: "first.png".to_string() }, HylImage { url: "second.png".to_string() }],
    };
    let item = post_news_item(post.clone(), "notice");
    assert_eq!(item.url, "https://www.hoyolab.com/article/77");
    assert_eq!(item.banner.as_deref(), Some("first.png"));
    assert_eq!(item.kind, "notice");
    let items = posts_to_news(vec![post], "info");
    assert_eq!(items[0].kind, "info");
}

#[test]
fn news_sections() {
    assert_eq!(news_cache_key(Game::Genshin, NewsSection::Notices), "/hoyolab/genshin/news/notices");
    assert_eq!(news_list_type(NewsSection::Events), None);
    assert_eq!(news_list_type(NewsSection::Notices), Some((1, "notice")));
    assert_eq!(news_list_type(NewsSection::Info), Some((3, "info")));
    assert!(resolve_game("themis").is_ok());
    let e = resolve_game("invalid_game").unwrap_err();
    assert_eq!((e.status_code, e.status.as_str(), e.error_code.0), (404, "Not Found", 1000));
    assert_eq!(e.error, "Unknown game: invalid_game");
}

#[test]
fn user_agents_are_classified() {
    assert_eq!(classify_user_agent("Mozilla/5.0 (X11)"), "browser");
    assert_eq!(classify_user_agent("curl/8.0"), "curl");
    assert_eq!(classify_user_agent("python-requests/2.31"), "python");
    assert_eq!(classify_user_agent("Go-http-client/1.1"), "go");
    assert_eq!(classify_user_agent("axios/1.6"), "node");
    assert_eq!(classify_user_agent("node-fetch"), "node");
    assert_eq!(classify_user_agent("Googlebot"), "bot");
    assert_eq!(classify_user_agent(""), "none");
    assert_eq!(classify_user_agent("Wget/1.21"), "other");
}

#[test]
fn classification_ignores_case() {
    for ua in ["MOZILLA/5.0", "CURL/8", "PyThOn", "Spider"] {
        let lower: String = to_ascii_lowercase(ua).into_iter().collect();
        assert_eq!(classify_user_agent(ua), classify_user_agent(&lower));
    }
}

#[test]
fn metric_labels() {
    assert_eq!(client_label(None), "none");
    assert_eq!(client_label(Some("curl/8")), "curl");
    assert_eq!(endpoint_label(None), "unknown");
    assert_eq!(endpoint_label(Some("/mihoyo/:game/codes")), "/mihoyo/:game/codes");
}

#[test]
fn number_parsing() {
    assert_eq!(parse_u64("18446744073709551615"), Some(u64::MAX));
    assert_eq!(parse_u64("18446744073709551616"), None);
    assert_eq!(parse_u8("255"), Some(255));
    assert_eq!(parse_u8("256"), None);
    assert_eq!(parse_i64("-9223372036854775808"), Some(i64::MIN));
    assert_eq!(parse_i64("+5"), Some(5));
    assert_eq!(parse_i64(""), None);
    assert_eq!(parse_i64("1 "), None);
}
