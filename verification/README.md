# hoyoverse_api

A REST API for HoYoverse games: redemption codes, event calendars and news.
The rules of the service are a library proved correct with Verus; the server
around them is ordinary Rust.

## Layout

- `src/` — the verified library.
  - `games`, `config`: the games, their endpoints and the service's settings.
  - `http`: error bodies, client classification, and the routes' logic —
    code lists (`routes::codes`), news items (`routes::news`), and the event
    calendars (`routes::calendar`): language and cookie handling, request
    signing (`sign`), the per-game transformations, and the steps of
    answering a calendar request (`after_localized`, `after_english`,
    `after_images`).
  - `redeem`, `notifier`, `crons`, `ratelimit`, `mutex`: redemption answers,
    Discord announcements, the scrapers' storage decisions, client addresses
    for rate limiting, and a Redis lock's replies.
  - `probe`: the reports of the calendar and code-parser checking tools.
  - `text`, `clock`: character-level string functions and clock readings.
- `app/` — the server (`axum`, MongoDB, caches, upstream requests) and the
  checking tools (`test-calendar`, `test-redemption`, `test-notifier`,
  `test-parser`).
- `tests/` — tests of the library on concrete values.

## Endpoints

- `GET /mihoyo/` — API information.
- `GET /mihoyo/{game}/codes` — active and inactive codes (rate limited).
- `GET /mihoyo/genshin/calendar`, `GET /mihoyo/starrail/calendar` — events,
  banners and challenges, with `?lang=` for the language.
