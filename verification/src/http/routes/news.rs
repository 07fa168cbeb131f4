//! HoYoLab news: events, notices and info posts in the API's shape.

use vstd::prelude::*;
use crate::games::{spec_from_slug, spec_slug, Game};
use crate::http::error::{ApiError, ApiErrorCode};
use crate::text::concat_str;

verus! {

/// An event as HoYoLab's event list gives it.
#[derive(Debug, Clone)]
pub struct HylEvent {
    pub id: String,
    pub name: String,
    pub desc: String,
    pub create_at: i64,
    pub banner_url: String,
    pub web_path: String,
}

/// A post as HoYoLab's news list gives it.
#[derive(Debug, Clone)]
pub struct HylPost {
    pub post_id: String,
    pub subject: String,
    pub desc: String,
    pub created_at: i64,
}

/// An image attached to a post.
#[derive(Debug, Clone)]
pub struct HylImage {
    pub url: String,
}

/// An entry of HoYoLab's news list.
#[derive(Debug, Clone)]
pub struct HylNewsItem {
    pub post: HylPost,
    pub image_list: Vec<HylImage>,
}

/// A news entry as the API answers it; `kind` is `event`, `notice` or `info`.
#[derive(Debug, Clone)]
pub struct NewsItem {
    pub id: String,
    pub title: String,
    pub description: String,
    pub created_at: i64,
    pub banner: Option<String>,
    pub url: String,
    pub kind: &'static str,
}

/// Whether `out` is the news entry made from event `e`: an empty banner url
/// means no banner, and the link is the event's path on hoyolab.com.
pub open spec fn event_item_of(e: HylEvent, out: NewsItem) -> bool {
    &&& out.id@ == e.id@
    &&& out.title@ == e.name@
    &&& out.description@ == e.desc@
    &&& out.created_at == e.create_at
    &&& (if e.banner_url@.len() == 0 { out.banner is None } else { out.banner matches Some(b) && b@ == e.banner_url@ })
    &&& out.url@ == "https://www.hoyolab.com"@ + e.web_path@
    &&& out.kind@ == "event"@
}

/// The news entry made from an event.
pub fn event_news_item(e: HylEvent) -> (out: NewsItem)
    ensures
        event_item_of(e, out),
{
    let url = concat_str("https://www.hoyolab.com", e.web_path.as_str());
    let banner = if e.banner_url.as_str().is_empty() {
        None
    } else {
        Some(e.banner_url)
    };
    NewsItem {
        id: e.id,
        title: e.name,
        description: e.desc,
        created_at: e.create_at,
        banner,
        url,
        kind: "event",
    }
}

/// Whether `out` is the news entry of kind `kind` made from `item`: the
/// first attached image is the banner, and the link is the article page.
pub open spec fn post_item_of(item: HylNewsItem, kind: Seq<char>, out: NewsItem) -> bool {
    &&& out.id@ == item.post.post_id@
    &&& out.title@ == item.post.subject@
    &&& out.description@ == item.post.desc@
    &&& out.created_at == item.post.created_at
    &&& (if item.image_list@.len() == 0 { out.banner is None } else { out.banner matches Some(b) && b@
        == item.image_list@[0].url@ })
    &&& out.url@ == "https://www.hoyolab.com/article/"@ + item.post.post_id@
    &&& out.kind@ == kind
}

/// The news entry of kind `kind` made from a news list entry.
pub fn post_news_item(item: HylNewsItem, kind: &'static str) -> (out: NewsItem)
    ensures
        post_item_of(item, kind@, out),
{
    let ghost images = item.image_list@;
    let url = concat_str("https://www.hoyolab.com/article/", item.post.post_id.as_str());
    let mut banner: Option<String> = None;
    for img in it: item.image_list.into_iter()
        invariant
            it.seq() == images,
            it.index() == 0 ==> banner is None,
            it.index() > 0 ==> (banner matches Some(b) && b@ == images[0].url@),
    {
        if banner.is_none() {
            banner = Some(img.url);
        }
    }
    NewsItem {
        id: item.post.post_id,
        title: item.post.subject,
        description: item.post.desc,
        created_at: item.post.created_at,
        banner,
        url,
        kind,
    }
}

/// The news entries made from HoYoLab's event list, in order.
pub fn events_to_news(list: Vec<HylEvent>) -> (out: Vec<NewsItem>)
    ensures
        out@.len() == list@.len(),
        forall|i: int| 0 <= i < list@.len() ==> event_item_of(list@[i], #[trigger] out@[i]),
{
    let ghost all = list@;
    let mut out: Vec<NewsItem> = Vec::new();
    for e in it: list.into_iter()
        invariant
            it.seq() == all,
            out@.len() == it.index(),
            forall|i: int| 0 <= i < it.index() ==> event_item_of(all[i], #[trigger] out@[i]),
    {
        out.push(event_news_item(e));
    }
    out
}

/// The news entries of kind `kind` made from HoYoLab's news list, in order.
pub fn posts_to_news(list: Vec<HylNewsItem>, kind: &'static str) -> (out: Vec<NewsItem>)
    ensures
        out@.len() == list@.len(),
        forall|i: int| 0 <= i < list@.len() ==> post_item_of(list@[i], kind@, #[trigger] out@[i]),
{
    let ghost all = list@;
    let mut out: Vec<NewsItem> = Vec::new();
    for item in it: list.into_iter()
        invariant
            it.seq() == all,
            out@.len() == it.index(),
            forall|i: int| 0 <= i < it.index() ==> post_item_of(all[i], kind@, #[trigger] out@[i]),
    {
        out.push(post_news_item(item, kind));
    }
    out
}

/// The game a news route names, or a `404` with code `1000` whose message
/// names an unknown slug.
pub fn resolve_game(slug: &str) -> (r: Result<Game, ApiError>)
    ensures
        spec_from_slug(slug@) matches Some(g) ==> r == Ok::<Game, ApiError>(g),
        spec_from_slug(slug@) is None ==> r is Err && r->Err_0.status_code == 404
            && r->Err_0.status@ == "Not Found"@ && r->Err_0.error_code.0 == 1000
            && r->Err_0.error@ == "Unknown game: "@ + slug@,
{
    match Game::from_slug(slug) {
        Some(g) => Ok(g),
        None => {
            let msg = concat_str("Unknown game: ", slug);
            Err(ApiError::not_found(ApiErrorCode::unknown_game(), msg.as_str()))
        },
    }
}

/// The news sections a game has.
#[derive(Debug, Clone, Copy, PartialEq, Eq, Structural)]
pub enum NewsSection {
    Events,
    Notices,
    Info,
}

/// The path segment of a news section.
pub open spec fn spec_section_name(s: NewsSection) -> Seq<char> {
    match s {
        NewsSection::Events => "events"@,
        NewsSection::Notices => "notices"@,
        NewsSection::Info => "info"@,
    }
}

/// The cache key of a game's news section.
pub open spec fn spec_news_cache_key(game: Game, section: NewsSection) -> Seq<char> {
    "/hoyolab/"@ + spec_slug(game) + "/news/"@ + spec_section_name(section)
}

/// The cache key under which a game's news section is kept.
pub fn news_cache_key(game: Game, section: NewsSection) -> (r: String)
    ensures
        r@ == spec_news_cache_key(game, section),
{
    let name = match section {
        NewsSection::Events => "events",
        NewsSection::Notices => "notices",
        NewsSection::Info => "info",
    };
    let a = concat_str("/hoyolab/", game.slug());
    let b = concat_str(a.as_str(), "/news/");
    concat_str(b.as_str(), name)
}

/// The HoYoLab news type number of a section that is a news list, and the
/// kind its entries carry; events come from a separate list.
pub fn news_list_type(section: NewsSection) -> (r: Option<(u8, &'static str)>)
    ensures
        section == NewsSection::Events ==> r is None,
        section == NewsSection::Notices ==> (r matches Some(t) && t.0 == 1 && t.1@ == "notice"@),
        section == NewsSection::Info ==> (r matches Some(t) && t.0 == 3 && t.1@ == "info"@),
{
    match section {
        NewsSection::Events => None,
        NewsSection::Notices => Some((1, "notice")),
        NewsSection::Info => Some((3, "info")),
    }
}

} // verus!
