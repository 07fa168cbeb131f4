//! Logic shared by the calendar routes: languages, cookies and event images.

pub mod genshin;
pub mod starrail;
pub mod zenless;
pub mod sign;

use vstd::prelude::*;
use std::collections::HashMap;
use crate::config::{spec_game_config, GameValidatorConfig, ValidatorConfig};
use crate::games::{spec_slug, Game};
use crate::http::error::{ApiError, ApiErrorCode};
use crate::text::{
    decimal, opt_view, push_decimal,
    append_chars, append_str, chars_of, ends_with, has_suffix, slice_chars, free_of, has_prefix, is_white_space, join,
    lemma_join_push, lemma_split_append_free, lemma_split_pieces_free, lemma_split_push_sep,
    lemma_split_step, lemma_trim_end_shape, lemma_trim_ends, lemma_trim_free,
    lemma_trim_spaced, lemma_trim_start_shape, split_on, starts_with, str_eq, string_of, trim, trim_end,
    trim_range, trim_start,
};

verus! {

/// The cookie entry name that selects the language of HoYoLab responses.
pub open spec fn lang_cookie_prefix() -> Seq<char> {
    seq!['m', 'i', '1', '8', 'n', 'L', 'a', 'n', 'g', '=']
}

/// The separator between cookie entries.
pub open spec fn cookie_sep() -> Seq<char> {
    seq![';', ' ']
}

/// Whether a trimmed cookie entry is kept: it is not empty and does not set the language.
pub open spec fn keep_cookie_part(p: Seq<char>) -> bool {
    p.len() > 0 && !has_prefix(p, lang_cookie_prefix())
}

/// The trimmed cookie entries that are kept, in order.
pub open spec fn kept_cookie_parts(pieces: Seq<Seq<char>>) -> Seq<Seq<char>>
    decreases pieces.len(),
{
    if pieces.len() == 0 {
        Seq::empty()
    } else {
        let init = kept_cookie_parts(pieces.drop_last());
        let t = trim(pieces.last());
        if keep_cookie_part(t) {
            init.push(t)
        } else {
            init
        }
    }
}

/// The cookie with its language entry replaced: `mi18nLang={lang}` first, then
/// every other non-empty entry of `cookie`, trimmed, joined with `"; "`.
pub open spec fn spec_cookie_with_lang(cookie: Seq<char>, lang: Seq<char>) -> Seq<char> {
    join(
        seq![lang_cookie_prefix() + lang] + kept_cookie_parts(split_on(cookie, ';')),
        cookie_sep(),
    )
}

proof fn lemma_kept_push(done: Seq<Seq<char>>, x: Seq<char>)
    ensures
        kept_cookie_parts(done.push(x)) == (if keep_cookie_part(trim(x)) {
            kept_cookie_parts(done).push(trim(x))
        } else {
            kept_cookie_parts(done)
        }),
{
    assert(done.push(x).drop_last() =~= done);
}

/// Adds the trimmed piece `c[start..end]` to `out` when it is kept.
fn add_cookie_piece(
    out: &mut Vec<char>,
    c: &Vec<char>,
    prefix: &Vec<char>,
    start: usize,
    end: usize,
    Ghost(head): Ghost<Seq<char>>,
    Ghost(done): Ghost<Seq<Seq<char>>>,
)
    requires
        start <= end <= c.len(),
        prefix@ == lang_cookie_prefix(),
        old(out)@ == join(seq![head] + kept_cookie_parts(done), cookie_sep()),
    ensures
        final(out)@ == join(
            seq![head] + kept_cookie_parts(done.push(c@.subrange(start as int, end as int))),
            cookie_sep(),
        ),
{
    let t = trim_range(c, start, end);
    proof {
        lemma_kept_push(done, c@.subrange(start as int, end as int));
    }
    if t.len() > 0 && !starts_with(&t, prefix) {
        out.push(';');
        out.push(' ');
        append_chars(out, &t);
        proof {
            let a = seq![head] + kept_cookie_parts(done);
            assert(a.push(t@) =~= seq![head] + kept_cookie_parts(done).push(t@));
            lemma_join_push(a, cookie_sep(), t@);
            assert(final(out)@ =~= join(a, cookie_sep()) + cookie_sep() + t@);
        }
    }
}

/// The cookie with its language entry set to `lang`: `mi18nLang={lang}` comes
/// first, any earlier language entry and empty entries are dropped, and the
/// other entries follow trimmed, separated by `"; "`.
pub fn cookie_with_lang(cookie: &str, lang: &str) -> (r: String)
    ensures
        r@ == spec_cookie_with_lang(cookie@, lang@),
{
    let c = chars_of(cookie);
    let prefix = chars_of("mi18nLang=");
    proof {
        reveal_strlit("mi18nLang=");
        assert(prefix@ =~= lang_cookie_prefix());
    }
    let mut out: Vec<char> = Vec::new();
    append_chars(&mut out, &prefix);
    append_str(&mut out, lang);
    let ghost head = lang_cookie_prefix() + lang@;
    assert(out@ =~= head);
    let n = c.len();
    let mut start: usize = 0;
    let mut i: usize = 0;
    let ghost mut done: Seq<Seq<char>> = Seq::empty();
    assert(c@.subrange(0, 0) =~= Seq::<char>::empty());
    assert(seq![head] + kept_cookie_parts(done) =~= seq![head]);
    while i < n
        invariant
            n == c.len(),
            start <= i <= n,
            prefix@ == lang_cookie_prefix(),
            split_on(c@.subrange(0, i as int), ';') == done.push(c@.subrange(start as int, i as int)),
            out@ == join(seq![head] + kept_cookie_parts(done), cookie_sep()),
        decreases n - i,
    {
        proof {
            lemma_split_step(c@, i as int, ';', done, start as int);
        }
        if c[i] == ';' {
            add_cookie_piece(&mut out, &c, &prefix, start, i, Ghost(head), Ghost(done));
            proof {
                done = done.push(c@.subrange(start as int, i as int));
            }
            start = i + 1;
        }
        i = i + 1;
    }
    add_cookie_piece(&mut out, &c, &prefix, start, n, Ghost(head), Ghost(done));
    proof {
        assert(c@.subrange(0, n as int) =~= c@);
    }
    string_of(&out)
}


/// The pieces that splitting a `"; "`-joined list on `;` gives back: the first
/// part, then every later part behind one space.
pub open spec fn spaced_split(q: Seq<Seq<char>>) -> Seq<Seq<char>>
    decreases q.len(),
{
    if q.len() <= 1 {
        q
    } else {
        spaced_split(q.drop_last()).push(seq![' '] + q.last())
    }
}

proof fn lemma_split_of_join(q: Seq<Seq<char>>)
    requires
        q.len() >= 1,
        forall|k: int| 0 <= k < q.len() ==> free_of(#[trigger] q[k], ';'),
    ensures
        split_on(join(q, cookie_sep()), ';') == spaced_split(q),
    decreases q.len(),
{
    if q.len() == 1 {
        lemma_split_append_free(Seq::empty(), q[0], ';');
        assert(Seq::<char>::empty() + q[0] =~= q[0]);
        assert(split_on(Seq::<char>::empty(), ';') =~= seq![Seq::<char>::empty()]);
        assert(seq![Seq::<char>::empty()].update(0, Seq::<char>::empty() + q[0]) =~= q);
    } else {
        let q0 = q.drop_last();
        assert forall|k: int| 0 <= k < q0.len() implies free_of(#[trigger] q0[k], ';') by {
            assert(q0[k] == q[k]);
        }
        lemma_split_of_join(q0);
        let x = q.last();
        let j = join(q0, cookie_sep());
        assert(free_of(x, ';'));
        let t = seq![' '] + x;
        assert(free_of(t, ';')) by {
            assert forall|i: int| 0 <= i < t.len() implies t[i] != ';' by {
                if i > 0 {
                    assert(t[i] == x[i - 1]);
                }
            }
        }
        assert(join(q, cookie_sep()) =~= j.push(';') + t);
        lemma_split_append_free(j.push(';'), t, ';');
        lemma_split_push_sep(j, ';');
        let a = split_on(j, ';').push(Seq::<char>::empty());
        assert(a.last() + t =~= t);
        assert(a.update(a.len() - 1, t) =~= spaced_split(q0).push(t));
    }
}

/// Every kept entry is kept, free of `;` and trimmed at both ends.
proof fn lemma_kept_parts_shape(pieces: Seq<Seq<char>>)
    requires
        forall|k: int| 0 <= k < pieces.len() ==> free_of(#[trigger] pieces[k], ';'),
    ensures
        forall|k: int|
            0 <= k < kept_cookie_parts(pieces).len() ==> {
                let e = #[trigger] kept_cookie_parts(pieces)[k];
                &&& keep_cookie_part(e)
                &&& free_of(e, ';')
                &&& !is_white_space(e[0])
                &&& !is_white_space(e.last())
            },
    decreases pieces.len(),
{
    if pieces.len() > 0 {
        let p0 = pieces.drop_last();
        assert forall|k: int| 0 <= k < p0.len() implies free_of(#[trigger] p0[k], ';') by {
            assert(p0[k] == pieces[k]);
        }
        lemma_kept_parts_shape(p0);
        let t = trim(pieces.last());
        assert(free_of(pieces[pieces.len() - 1], ';'));
        lemma_trim_free(pieces.last(), ';');
        lemma_trim_ends(pieces.last());
        lemma_kept_push(p0, pieces.last());
        assert(p0.push(pieces.last()) =~= pieces);
        let init = kept_cookie_parts(p0);
        let all = kept_cookie_parts(pieces);
        assert forall|k: int| 0 <= k < all.len() implies {
            let e = #[trigger] all[k];
            &&& keep_cookie_part(e)
            &&& free_of(e, ';')
            &&& !is_white_space(e[0])
            &&& !is_white_space(e.last())
        } by {
            if k < init.len() {
                assert(all[k] == init[k]);
            } else {
                assert(all[k] == t);
            }
        }
    }
}

proof fn lemma_kept_of_spaced(head: Seq<char>, p: Seq<Seq<char>>)
    requires
        !keep_cookie_part(trim(head)),
        forall|k: int|
            0 <= k < p.len() ==> {
                let e = #[trigger] p[k];
                &&& keep_cookie_part(e)
                &&& !is_white_space(e[0])
                &&& !is_white_space(e.last())
            },
    ensures
        kept_cookie_parts(spaced_split(seq![head] + p)) == p,
    decreases p.len(),
{
    if p.len() == 0 {
        assert(seq![head] + p =~= seq![head]);
        assert(spaced_split(seq![head]) == seq![head]);
        lemma_kept_push(Seq::<Seq<char>>::empty(), head);
        assert(Seq::<Seq<char>>::empty().push(head) =~= seq![head]);
        assert(kept_cookie_parts(Seq::<Seq<char>>::empty()) =~= Seq::<Seq<char>>::empty());
    } else {
        let p0 = p.drop_last();
        assert forall|k: int| 0 <= k < p0.len() implies {
            let e = #[trigger] p0[k];
            &&& keep_cookie_part(e)
            &&& !is_white_space(e[0])
            &&& !is_white_space(e.last())
        } by {
            assert(p0[k] == p[k]);
        }
        lemma_kept_of_spaced(head, p0);
        let x = p.last();
        assert(keep_cookie_part(p[p.len() - 1]));
        let q = seq![head] + p;
        assert(q.drop_last() =~= seq![head] + p0);
        assert(q.last() == x);
        lemma_trim_spaced(x);
        let sp = spaced_split(seq![head] + p0);
        assert(spaced_split(q) == sp.push(seq![' '] + x));
        lemma_kept_push(sp, seq![' '] + x);
    }
}

/// Setting the language of a cookie that already had its language set gives
/// the same cookie as setting it once: the earlier language entry is
/// replaced and the other entries keep their order. The first language may
/// not hold `;`, which would split it into further entries.
pub proof fn law_cookie_lang_replaces(cookie: Seq<char>, first: Seq<char>, second: Seq<char>)
    requires
        free_of(first, ';'),
    ensures
        spec_cookie_with_lang(spec_cookie_with_lang(cookie, first), second) == spec_cookie_with_lang(
            cookie,
            second,
        ),
{
    let pieces = split_on(cookie, ';');
    lemma_split_pieces_free(cookie, ';');
    lemma_kept_parts_shape(pieces);
    let parts = kept_cookie_parts(pieces);
    let head = lang_cookie_prefix() + first;
    assert(free_of(head, ';')) by {
        assert forall|i: int| 0 <= i < head.len() implies head[i] != ';' by {
            if i >= 10 {
                assert(head[i] == first[i - 10]);
            }
        }
    }
    // the earlier language entry is not kept
    assert(!is_white_space(head[0]));
    lemma_trim_start_shape(head);
    lemma_trim_end_shape(head);
    assert(!is_white_space(head[9]));
    let th = trim(head);
    assert(th == trim_end(head));
    assert(th.len() >= 10);
    assert(th.subrange(0, 10) =~= head.subrange(0, 10));
    assert(head.subrange(0, 10) =~= lang_cookie_prefix());
    assert(!keep_cookie_part(th));
    let q = seq![head] + parts;
    assert forall|k: int| 0 <= k < q.len() implies free_of(#[trigger] q[k], ';') by {
        if k > 0 {
            assert(q[k] == parts[k - 1]);
        }
    }
    lemma_split_of_join(q);
    lemma_kept_of_spaced(head, parts);
}


/// The language a short alias stands for; any other code stands for itself.
pub open spec fn lang_alias(l: Seq<char>) -> Seq<char> {
    if l == "en"@ {
        "en-us"@
    } else if l == "us"@ {
        "en-us"@
    } else if l == "zh"@ {
        "zh-cn"@
    } else if l == "cn"@ {
        "zh-cn"@
    } else if l == "tw"@ {
        "zh-tw"@
    } else if l == "de"@ {
        "de-de"@
    } else if l == "es"@ {
        "es-es"@
    } else if l == "fr"@ {
        "fr-fr"@
    } else if l == "id"@ {
        "id-id"@
    } else if l == "it"@ {
        "it-it"@
    } else if l == "ja"@ {
        "ja-jp"@
    } else if l == "jp"@ {
        "ja-jp"@
    } else if l == "ko"@ {
        "ko-kr"@
    } else if l == "kr"@ {
        "ko-kr"@
    } else if l == "pt"@ {
        "pt-pt"@
    } else if l == "ru"@ {
        "ru-ru"@
    } else if l == "th"@ {
        "th-th"@
    } else if l == "tr"@ {
        "tr-tr"@
    } else if l == "vi"@ {
        "vi-vn"@
    } else {
        l
    }
}

/// Whether `l` is one of the languages HoYoLab answers in.
pub open spec fn is_supported_lang(l: Seq<char>) -> bool {
    ||| l == "en-us"@
    ||| l == "zh-cn"@
    ||| l == "zh-tw"@
    ||| l == "de-de"@
    ||| l == "es-es"@
    ||| l == "fr-fr"@
    ||| l == "id-id"@
    ||| l == "it-it"@
    ||| l == "ja-jp"@
    ||| l == "ko-kr"@
    ||| l == "pt-pt"@
    ||| l == "ru-ru"@
    ||| l == "th-th"@
    ||| l == "tr-tr"@
    ||| l == "vi-vn"@
}

/// The language a request asks for: absent means `en-us`; an alias is
/// replaced by its language; the result must be supported.
pub open spec fn spec_resolve_lang(lang: Option<Seq<char>>) -> Option<Seq<char>> {
    let l = match lang {
        Some(l) => l,
        None => "en-us"@,
    };
    if is_supported_lang(lang_alias(l)) {
        Some(lang_alias(l))
    } else {
        None
    }
}


fn alias_target<'a>(l: &'a str) -> (r: &'a str)
    ensures
        r@ == lang_alias(l@),
{
    if str_eq(l, "en") {
        "en-us"
    } else if str_eq(l, "us") {
        "en-us"
    } else if str_eq(l, "zh") {
        "zh-cn"
    } else if str_eq(l, "cn") {
        "zh-cn"
    } else if str_eq(l, "tw") {
        "zh-tw"
    } else if str_eq(l, "de") {
        "de-de"
    } else if str_eq(l, "es") {
        "es-es"
    } else if str_eq(l, "fr") {
        "fr-fr"
    } else if str_eq(l, "id") {
        "id-id"
    } else if str_eq(l, "it") {
        "it-it"
    } else if str_eq(l, "ja") {
        "ja-jp"
    } else if str_eq(l, "jp") {
        "ja-jp"
    } else if str_eq(l, "ko") {
        "ko-kr"
    } else if str_eq(l, "kr") {
        "ko-kr"
    } else if str_eq(l, "pt") {
        "pt-pt"
    } else if str_eq(l, "ru") {
        "ru-ru"
    } else if str_eq(l, "th") {
        "th-th"
    } else if str_eq(l, "tr") {
        "tr-tr"
    } else if str_eq(l, "vi") {
        "vi-vn"
    } else {
        l
    }
}

fn supported_lang(l: &str) -> (r: Option<&'static str>)
    ensures
        r is Some <==> is_supported_lang(l@),
        r is Some ==> r->0@ == l@,
{
    if str_eq(l, "en-us") {
        Some("en-us")
    } else if str_eq(l, "zh-cn") {
        Some("zh-cn")
    } else if str_eq(l, "zh-tw") {
        Some("zh-tw")
    } else if str_eq(l, "de-de") {
        Some("de-de")
    } else if str_eq(l, "es-es") {
        Some("es-es")
    } else if str_eq(l, "fr-fr") {
        Some("fr-fr")
    } else if str_eq(l, "id-id") {
        Some("id-id")
    } else if str_eq(l, "it-it") {
        Some("it-it")
    } else if str_eq(l, "ja-jp") {
        Some("ja-jp")
    } else if str_eq(l, "ko-kr") {
        Some("ko-kr")
    } else if str_eq(l, "pt-pt") {
        Some("pt-pt")
    } else if str_eq(l, "ru-ru") {
        Some("ru-ru")
    } else if str_eq(l, "th-th") {
        Some("th-th")
    } else if str_eq(l, "tr-tr") {
        Some("tr-tr")
    } else if str_eq(l, "vi-vn") {
        Some("vi-vn")
    } else {
        None
    }
}

/// The language a calendar request is answered in, or a `400` error with code
/// `1001` when the requested language is not supported.
pub fn resolve_lang(lang: Option<String>) -> (r: Result<&'static str, ApiError>)
    ensures
        r is Ok ==> spec_resolve_lang(opt_view(lang)) == Some(r->Ok_0@),
        r is Err ==> spec_resolve_lang(opt_view(lang)) is None,
        r is Err ==> r->Err_0.status_code == 400 && r->Err_0.status@ == "Bad Request"@
            && r->Err_0.error_code.0 == 1001
            && r->Err_0.error@ == "unsupported language"@,
{
    let l: &str = match &lang {
        Some(s) => s.as_str(),
        None => "en-us",
    };
    let full = alias_target(l);
    match supported_lang(full) {
        Some(f) => Ok(f),
        None => Err(ApiError::bad_request(ApiErrorCode::invalid_language(), "unsupported language")),
    }
}

/// A resolved language resolves to itself: answering in the language a
/// first request was answered in needs no further alias.
pub proof fn law_resolve_lang_idempotent(lang: Option<Seq<char>>)
    ensures
        spec_resolve_lang(lang) matches Some(f) ==> spec_resolve_lang(Some(f)) == Some(f),
{
    reveal_strlit("en-us");
    reveal_strlit("zh-cn");
    reveal_strlit("zh-tw");
    reveal_strlit("de-de");
    reveal_strlit("es-es");
    reveal_strlit("fr-fr");
    reveal_strlit("id-id");
    reveal_strlit("it-it");
    reveal_strlit("ja-jp");
    reveal_strlit("ko-kr");
    reveal_strlit("pt-pt");
    reveal_strlit("ru-ru");
    reveal_strlit("th-th");
    reveal_strlit("tr-tr");
    reveal_strlit("vi-vn");
    reveal_strlit("en");
    reveal_strlit("us");
    reveal_strlit("zh");
    reveal_strlit("cn");
    reveal_strlit("tw");
    reveal_strlit("de");
    reveal_strlit("es");
    reveal_strlit("fr");
    reveal_strlit("id");
    reveal_strlit("it");
    reveal_strlit("ja");
    reveal_strlit("jp");
    reveal_strlit("ko");
    reveal_strlit("kr");
    reveal_strlit("pt");
    reveal_strlit("ru");
    reveal_strlit("th");
    reveal_strlit("tr");
    reveal_strlit("vi");
    if let Some(f) = spec_resolve_lang(lang) {
        assert(is_supported_lang(f));
        assert(f.len() == 5);
        assert(lang_alias(f) == f);
    }
}

/// The language code `f` as HoYoLab writes it: a two-letter language, a
/// hyphen and a two-letter region.
pub open spec fn is_lang_code(f: Seq<char>) -> bool {
    f.len() == 5 && f[2] == '-'
}

/// A request is answered in the language it names: the answer is the code
/// asked for itself, or, for a two-letter alias, a code whose language or
/// region part is that alias (`de` gives `de-de`, `jp` gives `ja-jp`).
pub proof fn law_alias_names_its_language(l: Seq<char>)
    ensures
        spec_resolve_lang(Some(l)) matches Some(f) ==> is_lang_code(f) && (f == l || (l.len() == 2 && (l
            == f.take(2) || l == f.subrange(3, 5)))),
{
    reveal_strlit("en-us");
    reveal_strlit("zh-cn");
    reveal_strlit("zh-tw");
    reveal_strlit("de-de");
    reveal_strlit("es-es");
    reveal_strlit("fr-fr");
    reveal_strlit("id-id");
    reveal_strlit("it-it");
    reveal_strlit("ja-jp");
    reveal_strlit("ko-kr");
    reveal_strlit("pt-pt");
    reveal_strlit("ru-ru");
    reveal_strlit("th-th");
    reveal_strlit("tr-tr");
    reveal_strlit("vi-vn");
    reveal_strlit("en");
    reveal_strlit("us");
    reveal_strlit("zh");
    reveal_strlit("cn");
    reveal_strlit("tw");
    reveal_strlit("de");
    reveal_strlit("es");
    reveal_strlit("fr");
    reveal_strlit("id");
    reveal_strlit("it");
    reveal_strlit("ja");
    reveal_strlit("jp");
    reveal_strlit("ko");
    reveal_strlit("kr");
    reveal_strlit("pt");
    reveal_strlit("ru");
    reveal_strlit("th");
    reveal_strlit("tr");
    reveal_strlit("vi");
    if let Some(f) = spec_resolve_lang(Some(l)) {
        assert(is_supported_lang(f));
        if f != l {
            assert(l.len() == 2 && (l =~= f.take(2) || l =~= f.subrange(3, 5)));
        }
    }
}

/// Every supported code is answered in itself, and its two-letter language
/// part is an alias that resolves to a supported code in that same language.
pub proof fn law_language_part_resolves(f: Seq<char>)
    requires
        is_supported_lang(f),
    ensures
        spec_resolve_lang(Some(f)) == Some(f),
        spec_resolve_lang(Some(f.take(2))) matches Some(g) && g.take(2) == f.take(2),
{
    reveal_strlit("en-us");
    reveal_strlit("zh-cn");
    reveal_strlit("zh-tw");
    reveal_strlit("de-de");
    reveal_strlit("es-es");
    reveal_strlit("fr-fr");
    reveal_strlit("id-id");
    reveal_strlit("it-it");
    reveal_strlit("ja-jp");
    reveal_strlit("ko-kr");
    reveal_strlit("pt-pt");
    reveal_strlit("ru-ru");
    reveal_strlit("th-th");
    reveal_strlit("tr-tr");
    reveal_strlit("vi-vn");
    reveal_strlit("en");
    reveal_strlit("us");
    reveal_strlit("zh");
    reveal_strlit("cn");
    reveal_strlit("tw");
    reveal_strlit("de");
    reveal_strlit("es");
    reveal_strlit("fr");
    reveal_strlit("id");
    reveal_strlit("it");
    reveal_strlit("ja");
    reveal_strlit("jp");
    reveal_strlit("ko");
    reveal_strlit("kr");
    reveal_strlit("pt");
    reveal_strlit("ru");
    reveal_strlit("th");
    reveal_strlit("tr");
    reveal_strlit("vi");
    if f == "en-us"@ {
        assert(f.take(2) =~= "en"@);
        assert(lang_alias(f.take(2)) == "en-us"@);
        assert("en-us"@.take(2) =~= "en"@);
    }
    if f == "zh-cn"@ {
        assert(f.take(2) =~= "zh"@);
        assert("zh"@[0] != "en"@[0]);
        assert("zh"@[0] != "us"@[0]);
        assert(lang_alias(f.take(2)) == "zh-cn"@);
        assert("zh-cn"@.take(2) =~= "zh"@);
    }
    if f == "zh-tw"@ {
        assert(f.take(2) =~= "zh"@);
        assert("zh"@[0] != "en"@[0]);
        assert("zh"@[0] != "us"@[0]);
        assert(lang_alias(f.take(2)) == "zh-cn"@);
        assert("zh-cn"@.take(2) =~= "zh"@);
    }
    if f == "de-de"@ {
        assert(f.take(2) =~= "de"@);
        assert("de"@[0] != "en"@[0]);
        assert("de"@[0] != "us"@[0]);
        assert("de"@[0] != "zh"@[0]);
        assert("de"@[0] != "cn"@[0]);
        assert("de"@[0] != "tw"@[0]);
        assert(lang_alias(f.take(2)) == "de-de"@);
        assert("de-de"@.take(2) =~= "de"@);
    }
    if f == "es-es"@ {
        assert(f.take(2) =~= "es"@);
        assert("es"@[1] != "en"@[1]);
        assert("es"@[0] != "us"@[0]);
        assert("es"@[0] != "zh"@[0]);
        assert("es"@[0] != "cn"@[0]);
        assert("es"@[0] != "tw"@[0]);
        assert("es"@[0] != "de"@[0]);
        assert(lang_alias(f.take(2)) == "es-es"@);
        assert("es-es"@.take(2) =~= "es"@);
    }
    if f == "fr-fr"@ {
        assert(f.take(2) =~= "fr"@);
        assert("fr"@[0] != "en"@[0]);
        assert("fr"@[0] != "us"@[0]);
        assert("fr"@[0] != "zh"@[0]);
        assert("fr"@[0] != "cn"@[0]);
        assert("fr"@[0] != "tw"@[0]);
        assert("fr"@[0] != "de"@[0]);
        assert("fr"@[0] != "es"@[0]);
        assert(lang_alias(f.take(2)) == "fr-fr"@);
        assert("fr-fr"@.take(2) =~= "fr"@);
    }
    if f == "id-id"@ {
        assert(f.take(2) =~= "id"@);
        assert("id"@[0] != "en"@[0]);
        assert("id"@[0] != "us"@[0]);
        assert("id"@[0] != "zh"@[0]);
        assert("id"@[0] != "cn"@[0]);
        assert("id"@[0] != "tw"@[0]);
        assert("id"@[0] != "de"@[0]);
        assert("id"@[0] != "es"@[0]);
        assert("id"@[0] != "fr"@[0]);
        assert(lang_alias(f.take(2)) == "id-id"@);
        assert("id-id"@.take(2) =~= "id"@);
    }
    if f == "it-it"@ {
        assert(f.take(2) =~= "it"@);
        assert("it"@[0] != "en"@[0]);
        assert("it"@[0] != "us"@[0]);
        assert("it"@[0] != "zh"@[0]);
        assert("it"@[0] != "cn"@[0]);
        assert("it"@[0] != "tw"@[0]);
        assert("it"@[0] != "de"@[0]);
        assert("it"@[0] != "es"@[0]);
        assert("it"@[0] != "fr"@[0]);
        assert("it"@[1] != "id"@[1]);
        assert(lang_alias(f.take(2)) == "it-it"@);
        assert("it-it"@.take(2) =~= "it"@);
    }
    if f == "ja-jp"@ {
        assert(f.take(2) =~= "ja"@);
        assert("ja"@[0] != "en"@[0]);
        assert("ja"@[0] != "us"@[0]);
        assert("ja"@[0] != "zh"@[0]);
        assert("ja"@[0] != "cn"@[0]);
        assert("ja"@[0] != "tw"@[0]);
        assert("ja"@[0] != "de"@[0]);
        assert("ja"@[0] != "es"@[0]);
        assert("ja"@[0] != "fr"@[0]);
        assert("ja"@[0] != "id"@[0]);
        assert("ja"@[0] != "it"@[0]);
        assert(lang_alias(f.take(2)) == "ja-jp"@);
        assert("ja-jp"@.take(2) =~= "ja"@);
    }
    if f == "ko-kr"@ {
        assert(f.take(2) =~= "ko"@);
        assert("ko"@[0] != "en"@[0]);
        assert("ko"@[0] != "us"@[0]);
        assert("ko"@[0] != "zh"@[0]);
        assert("ko"@[0] != "cn"@[0]);
        assert("ko"@[0] != "tw"@[0]);
        assert("ko"@[0] != "de"@[0]);
        assert("ko"@[0] != "es"@[0]);
        assert("ko"@[0] != "fr"@[0]);
        assert("ko"@[0] != "id"@[0]);
        assert("ko"@[0] != "it"@[0]);
        assert("ko"@[0] != "ja"@[0]);
        assert("ko"@[0] != "jp"@[0]);
        assert(lang_alias(f.take(2)) == "ko-kr"@);
        assert("ko-kr"@.take(2) =~= "ko"@);
    }
    if f == "pt-pt"@ {
        assert(f.take(2) =~= "pt"@);
        assert("pt"@[0] != "en"@[0]);
        assert("pt"@[0] != "us"@[0]);
        assert("pt"@[0] != "zh"@[0]);
        assert("pt"@[0] != "cn"@[0]);
        assert("pt"@[0] != "tw"@[0]);
        assert("pt"@[0] != "de"@[0]);
        assert("pt"@[0] != "es"@[0]);
        assert("pt"@[0] != "fr"@[0]);
        assert("pt"@[0] != "id"@[0]);
        assert("pt"@[0] != "it"@[0]);
        assert("pt"@[0] != "ja"@[0]);
        assert("pt"@[0] != "jp"@[0]);
        assert("pt"@[0] != "ko"@[0]);
        assert("pt"@[0] != "kr"@[0]);
        assert(lang_alias(f.take(2)) == "pt-pt"@);
        assert("pt-pt"@.take(2) =~= "pt"@);
    }
    if f == "ru-ru"@ {
        assert(f.take(2) =~= "ru"@);
        assert("ru"@[0] != "en"@[0]);
        assert("ru"@[0] != "us"@[0]);
        assert("ru"@[0] != "zh"@[0]);
        assert("ru"@[0] != "cn"@[0]);
        assert("ru"@[0] != "tw"@[0]);
        assert("ru"@[0] != "de"@[0]);
        assert("ru"@[0] != "es"@[0]);
        assert("ru"@[0] != "fr"@[0]);
        assert("ru"@[0] != "id"@[0]);
        assert("ru"@[0] != "it"@[0]);
        assert("ru"@[0] != "ja"@[0]);
        assert("ru"@[0] != "jp"@[0]);
        assert("ru"@[0] != "ko"@[0]);
        assert("ru"@[0] != "kr"@[0]);
        assert("ru"@[0] != "pt"@[0]);
        assert(lang_alias(f.take(2)) == "ru-ru"@);
        assert("ru-ru"@.take(2) =~= "ru"@);
    }
    if f == "th-th"@ {
        assert(f.take(2) =~= "th"@);
        assert("th"@[0] != "en"@[0]);
        assert("th"@[0] != "us"@[0]);
        assert("th"@[0] != "zh"@[0]);
        assert("th"@[0] != "cn"@[0]);
        assert("th"@[1] != "tw"@[1]);
        assert("th"@[0] != "de"@[0]);
        assert("th"@[0] != "es"@[0]);
        assert("th"@[0] != "fr"@[0]);
        assert("th"@[0] != "id"@[0]);
        assert("th"@[0] != "it"@[0]);
        assert("th"@[0] != "ja"@[0]);
        assert("th"@[0] != "jp"@[0]);
        assert("th"@[0] != "ko"@[0]);
        assert("th"@[0] != "kr"@[0]);
        assert("th"@[0] != "pt"@[0]);
        assert("th"@[0] != "ru"@[0]);
        assert(lang_alias(f.take(2)) == "th-th"@);
        assert("th-th"@.take(2) =~= "th"@);
    }
    if f == "tr-tr"@ {
        assert(f.take(2) =~= "tr"@);
        assert("tr"@[0] != "en"@[0]);
        assert("tr"@[0] != "us"@[0]);
        assert("tr"@[0] != "zh"@[0]);
        assert("tr"@[0] != "cn"@[0]);
        assert("tr"@[1] != "tw"@[1]);
        assert("tr"@[0] != "de"@[0]);
        assert("tr"@[0] != "es"@[0]);
        assert("tr"@[0] != "fr"@[0]);
        assert("tr"@[0] != "id"@[0]);
        assert("tr"@[0] != "it"@[0]);
        assert("tr"@[0] != "ja"@[0]);
        assert("tr"@[0] != "jp"@[0]);
        assert("tr"@[0] != "ko"@[0]);
        assert("tr"@[0] != "kr"@[0]);
        assert("tr"@[0] != "pt"@[0]);
        assert("tr"@[0] != "ru"@[0]);
        assert("tr"@[1] != "th"@[1]);
        assert(lang_alias(f.take(2)) == "tr-tr"@);
        assert("tr-tr"@.take(2) =~= "tr"@);
    }
    if f == "vi-vn"@ {
        assert(f.take(2) =~= "vi"@);
        assert("vi"@[0] != "en"@[0]);
        assert("vi"@[0] != "us"@[0]);
        assert("vi"@[0] != "zh"@[0]);
        assert("vi"@[0] != "cn"@[0]);
        assert("vi"@[0] != "tw"@[0]);
        assert("vi"@[0] != "de"@[0]);
        assert("vi"@[0] != "es"@[0]);
        assert("vi"@[0] != "fr"@[0]);
        assert("vi"@[0] != "id"@[0]);
        assert("vi"@[0] != "it"@[0]);
        assert("vi"@[0] != "ja"@[0]);
        assert("vi"@[0] != "jp"@[0]);
        assert("vi"@[0] != "ko"@[0]);
        assert("vi"@[0] != "kr"@[0]);
        assert("vi"@[0] != "pt"@[0]);
        assert("vi"@[0] != "ru"@[0]);
        assert("vi"@[0] != "th"@[0]);
        assert("vi"@[0] != "tr"@[0]);
        assert(lang_alias(f.take(2)) == "vi-vn"@);
        assert("vi-vn"@.take(2) =~= "vi"@);
    }
}


/// Activity `(id, name)` pairs with the names as character sequences.
pub open spec fn pair_views(s: Seq<(u64, String)>) -> Seq<(u64, Seq<char>)> {
    Seq::new(s.len(), |i: int| (s[i].0, s[i].1@))
}

/// The ids of a list of `(id, name)` pairs, in order.
pub open spec fn ids_of(r: Seq<(u64, String)>) -> Seq<u64> {
    Seq::new(r.len(), |i: int| r[i].0)
}

/// Whether the ids rise strictly from first to last.
pub open spec fn strictly_increasing(ids: Seq<u64>) -> bool {
    forall|i: int, j: int| 0 <= i < j < ids.len() ==> ids[i] < ids[j]
}

/// Whether entry `e` names an eligible activity of `pairs`, with that activity's name.
pub open spec fn has_source(pairs: Seq<(u64, Seq<char>)>, eligible: Seq<u64>, e: (u64, String)) -> bool {
    eligible.contains(e.0) && exists|m: int| 0 <= m < pairs.len() && #[trigger] pairs[m] == (e.0, e.1@)
}

/// Whether some entry of `r` has id `id`.
pub open spec fn has_entry(r: Seq<(u64, String)>, id: u64) -> bool {
    exists|i: int| 0 <= i < r.len() && (#[trigger] r[i]).0 == id
}

/// What the canonical activity list is: one entry per eligible activity id,
/// in increasing id order, each carrying the name of an activity with that id.
pub open spec fn canonical_spec(
    pairs: Seq<(u64, Seq<char>)>,
    eligible: Seq<u64>,
    r: Seq<(u64, String)>,
) -> bool {
    &&& strictly_increasing(ids_of(r))
    &&& forall|i: int| 0 <= i < r.len() ==> has_source(pairs, eligible, #[trigger] r[i])
    &&& forall|m: int|
        0 <= m < pairs.len() && eligible.contains((#[trigger] pairs[m]).0) ==> has_entry(r, pairs[m].0)
}

proof fn lemma_source_extends(
    pre: Seq<(u64, Seq<char>)>,
    x: (u64, Seq<char>),
    eligible: Seq<u64>,
    e: (u64, String),
)
    requires
        has_source(pre, eligible, e),
    ensures
        has_source(pre.push(x), eligible, e),
{
    let m = choose|m: int| 0 <= m < pre.len() && #[trigger] pre[m] == (e.0, e.1@);
    assert(pre.push(x)[m] == pre[m]);
}

/// Whether `ids` holds `id`.
pub fn contains_id(ids: &[u64], id: u64) -> (b: bool)
    ensures
        b == ids@.contains(id),
{
    let mut i: usize = 0;
    while i < ids.len()
        invariant
            i <= ids@.len(),
            forall|j: int| 0 <= j < i ==> ids@[j] != id,
        decreases ids@.len() - i,
    {
        if ids[i] == id {
            assert(ids@[i as int] == id);
            return true;
        }
        i = i + 1;
    }
    false
}

proof fn lemma_canonical_skip(
    pre: Seq<(u64, Seq<char>)>,
    x: (u64, Seq<char>),
    eligible: Seq<u64>,
    r: Seq<(u64, String)>,
)
    requires
        canonical_spec(pre, eligible, r),
        !eligible.contains(x.0),
    ensures
        canonical_spec(pre.push(x), eligible, r),
{
    let post = pre.push(x);
    assert forall|m: int| 0 <= m < post.len() && eligible.contains((#[trigger] post[m]).0) implies has_entry(
        r,
        post[m].0,
    ) by {
        assert(post[m] == pre[m]);
    }
    assert forall|i: int| 0 <= i < r.len() implies has_source(post, eligible, #[trigger] r[i]) by {
        lemma_source_extends(pre, x, eligible, r[i]);
    }
}

proof fn lemma_canonical_present(
    pre: Seq<(u64, Seq<char>)>,
    x: (u64, Seq<char>),
    eligible: Seq<u64>,
    r: Seq<(u64, String)>,
    pos: int,
)
    requires
        canonical_spec(pre, eligible, r),
        0 <= pos < r.len(),
        r[pos].0 == x.0,
    ensures
        canonical_spec(pre.push(x), eligible, r),
{
    let post = pre.push(x);
    assert forall|m: int| 0 <= m < post.len() && eligible.contains((#[trigger] post[m]).0) implies has_entry(
        r,
        post[m].0,
    ) by {
        if m < pre.len() {
            assert(post[m] == pre[m]);
        } else {
            assert(r[pos].0 == post[m].0);
        }
    }
    assert forall|i: int| 0 <= i < r.len() implies has_source(post, eligible, #[trigger] r[i]) by {
        lemma_source_extends(pre, x, eligible, r[i]);
    }
}

proof fn lemma_canonical_insert(
    pre: Seq<(u64, Seq<char>)>,
    x: (u64, Seq<char>),
    eligible: Seq<u64>,
    old_r: Seq<(u64, String)>,
    e: (u64, String),
    pos: int,
)
    requires
        canonical_spec(pre, eligible, old_r),
        eligible.contains(x.0),
        e.0 == x.0,
        e.1@ == x.1,
        0 <= pos <= old_r.len(),
        forall|q: int| 0 <= q < pos ==> (#[trigger] old_r[q]).0 < x.0,
        pos < old_r.len() ==> old_r[pos].0 > x.0,
    ensures
        canonical_spec(pre.push(x), eligible, old_r.insert(pos, e)),
{
    let post = pre.push(x);
    let nr = old_r.insert(pos, e);
    let k = pre.len() as int;
    assert forall|i: int| 0 <= i < pos implies nr[i] == old_r[i] by {}
    assert forall|i: int| pos < i < nr.len() implies nr[i] == old_r[i - 1] by {}
    let oi = ids_of(old_r);
    let ni = ids_of(nr);
    assert forall|i: int, j: int| 0 <= i < j < ni.len() implies ni[i] < ni[j] by {
        if j < pos {
            assert(oi[i] < oi[j]);
        } else if j == pos {
            assert(nr[i] == old_r[i]);
        } else if i < pos {
            if pos < j - 1 {
                assert(oi[pos] < oi[j - 1]);
            }
        } else if i == pos {
            if pos < j - 1 {
                assert(oi[pos] < oi[j - 1]);
            }
        } else {
            assert(oi[i - 1] < oi[j - 1]);
        }
    }
    assert forall|i: int| 0 <= i < nr.len() implies has_source(post, eligible, #[trigger] nr[i]) by {
        if i == pos {
            assert(post[k] == (e.0, e.1@));
        } else {
            let o = if i < pos { i } else { i - 1 };
            assert(nr[i] == old_r[o]);
            lemma_source_extends(pre, x, eligible, old_r[o]);
        }
    }
    assert forall|m: int| 0 <= m < post.len() && eligible.contains((#[trigger] post[m]).0) implies has_entry(
        nr,
        post[m].0,
    ) by {
        if m < k {
            assert(post[m] == pre[m]);
            let i = choose|i: int| 0 <= i < old_r.len() && (#[trigger] old_r[i]).0 == pre[m].0;
            if i < pos {
                assert(nr[i] == old_r[i]);
            } else {
                assert(nr[i + 1] == old_r[i]);
            }
        } else {
            assert(nr[pos].0 == post[m].0);
        }
    }
}

/// The eligible activities, one per id, sorted by id; of several activities
/// sharing an id the first one's name is kept.
pub fn canonical_pairs(pairs: Vec<(u64, String)>, eligible: &[u64]) -> (r: Vec<(u64, String)>)
    ensures
        canonical_spec(pair_views(pairs@), eligible@, r@),
{
    let ghost all = pairs@;
    let ghost pv = pair_views(all);
    let mut r: Vec<(u64, String)> = Vec::new();
    proof {
        assert(pv.take(0) =~= Seq::<(u64, Seq<char>)>::empty());
    }
    for p in it: pairs.into_iter()
        invariant
            it.seq() == all,
            pv == pair_views(all),
            canonical_spec(pv.take(it.index() as int), eligible@, r@),
    {
        let ghost k = it.index() as int;
        let ghost old_r = r@;
        let ghost x = (p.0, p.1@);
        proof {
            assert(pv.take(k + 1) =~= pv.take(k).push(x));
        }
        let (id, name) = p;
        if contains_id(eligible, id) {
            let mut pos: usize = 0;
            while pos < r.len() && r[pos].0 < id
                invariant
                    r@ == old_r,
                    pos <= r.len(),
                    forall|q: int| 0 <= q < pos ==> (#[trigger] r@[q]).0 < id,
                decreases r.len() - pos,
            {
                pos = pos + 1;
            }
            if pos < r.len() && r[pos].0 == id {
                proof {
                    lemma_canonical_present(pv.take(k), x, eligible@, r@, pos as int);
                }
            } else {
                let ghost e = (id, name);
                proof {
                    if pos < old_r.len() {
                        assert(old_r[pos as int].0 > id);
                    }
                    lemma_canonical_insert(pv.take(k), x, eligible@, old_r, e, pos as int);
                }
                r.insert(pos, (id, name));
            }
        } else {
            proof {
                lemma_canonical_skip(pv.take(k), x, eligible@, r@);
            }
        }
    }
    proof {
        assert(pv.take(all.len() as int) =~= pv);
    }
    r
}


/// The decimal notation of each id.
pub open spec fn decimals(ids: Seq<u64>) -> Seq<Seq<char>> {
    Seq::new(ids.len(), |j: int| decimal(ids[j] as nat))
}

/// The cache key of a game's event images: the game's slug and the ids of
/// the activities whose images are looked up, in order, separated by commas.
pub open spec fn fandom_key(slug: Seq<char>, ids: Seq<u64>) -> Seq<char> {
    "/fandom/"@ + slug + "/event-images/"@ + join(decimals(ids), seq![','])
}

/// The cache key of the event images for `activities` of the game `slug`.
pub fn fandom_cache_key_for(slug: &str, activities: &[(u64, String)]) -> (r: String)
    ensures
        r@ == fandom_key(slug@, ids_of(activities@)),
{
    let mut out: Vec<char> = Vec::new();
    append_str(&mut out, "/fandom/");
    append_str(&mut out, slug);
    append_str(&mut out, "/event-images/");
    let ghost head = out@;
    let ghost ids = ids_of(activities@);
    let mut i: usize = 0;
    while i < activities.len()
        invariant
            i <= activities@.len(),
            ids == ids_of(activities@),
            head == "/fandom/"@ + slug@ + "/event-images/"@,
            out@ == head + join(decimals(ids.take(i as int)), seq![',']),
        decreases activities@.len() - i,
    {
        let ghost before = out@;
        if i > 0 {
            out.push(',');
        }
        push_decimal(&mut out, activities[i].0);
        proof {
            let d = decimals(ids.take(i as int));
            let d2 = decimals(ids.take(i + 1));
            assert(d2 =~= d.push(decimal(activities@[i as int].0 as nat)));
            if i > 0 {
                lemma_join_push(d, seq![','], decimal(activities@[i as int].0 as nat));
            } else {
                assert(d =~= Seq::<Seq<char>>::empty());
            }
            assert(out@ =~= head + join(d2, seq![',']));
        }
        i = i + 1;
    }
    proof {
        assert(ids.take(activities@.len() as int) =~= ids);
    }
    string_of(&out)
}

/// Whether `id` is the id of an eligible activity of `pairs`.
pub open spec fn has_canonical_id(pairs: Seq<(u64, Seq<char>)>, eligible: Seq<u64>, id: u64) -> bool {
    eligible.contains(id) && exists|m: int| 0 <= m < pairs.len() && (#[trigger] pairs[m]).0 == id
}

proof fn lemma_increasing_same_members(a: Seq<u64>, b: Seq<u64>)
    requires
        strictly_increasing(a),
        strictly_increasing(b),
        forall|x: u64| a.contains(x) <==> b.contains(x),
    ensures
        a == b,
    decreases a.len() + b.len(),
{
    if a.len() == 0 {
        if b.len() > 0 {
            assert(b.contains(b[0]));
        }
        assert(a =~= b);
    } else if b.len() == 0 {
        assert(a.contains(a[0]));
    } else {
        assert(a.contains(a[0]));
        assert(b.contains(b[0]));
        let j = choose|j: int| 0 <= j < b.len() && b[j] == a[0];
        let k = choose|k: int| 0 <= k < a.len() && a[k] == b[0];
        if j > 0 {
            assert(b[0] < b[j]);
        }
        if k > 0 {
            assert(a[0] < a[k]);
        }
        assert(a[0] == b[0]);
        let a1 = a.drop_first();
        let b1 = b.drop_first();
        assert forall|x: u64| a1.contains(x) implies b1.contains(x) by {
            let i = choose|i: int| 0 <= i < a1.len() && a1[i] == x;
            assert(a[i + 1] == x);
            assert(a[0] < a[i + 1]);
            assert(b.contains(x));
            let jj = choose|jj: int| 0 <= jj < b.len() && b[jj] == x;
            assert(jj != 0);
            assert(b1[jj - 1] == x);
        }
        assert forall|x: u64| b1.contains(x) implies a1.contains(x) by {
            let i = choose|i: int| 0 <= i < b1.len() && b1[i] == x;
            assert(b[i + 1] == x);
            assert(b[0] < b[i + 1]);
            assert(a.contains(x));
            let jj = choose|jj: int| 0 <= jj < a.len() && a[jj] == x;
            assert(jj != 0);
            assert(a1[jj - 1] == x);
        }
        lemma_increasing_same_members(a1, b1);
        assert(a =~= seq![a[0]] + a1);
        assert(b =~= seq![b[0]] + b1);
    }
}

proof fn lemma_canonical_members(pairs: Seq<(u64, Seq<char>)>, eligible: Seq<u64>, r: Seq<(u64, String)>)
    requires
        canonical_spec(pairs, eligible, r),
    ensures
        forall|id: u64| ids_of(r).contains(id) <==> has_canonical_id(pairs, eligible, id),
{
    assert forall|id: u64| ids_of(r).contains(id) implies has_canonical_id(pairs, eligible, id) by {
        let i = choose|i: int| 0 <= i < ids_of(r).len() && ids_of(r)[i] == id;
        assert(has_source(pairs, eligible, r[i]));
        let m = choose|m: int| 0 <= m < pairs.len() && #[trigger] pairs[m] == (r[i].0, r[i].1@);
        assert(pairs[m].0 == id);
    }
    assert forall|id: u64| has_canonical_id(pairs, eligible, id) implies ids_of(r).contains(id) by {
        let m = choose|m: int| 0 <= m < pairs.len() && (#[trigger] pairs[m]).0 == id;
        assert(has_entry(r, pairs[m].0));
        let i = choose|i: int| 0 <= i < r.len() && (#[trigger] r[i]).0 == id;
        assert(ids_of(r)[i] == id);
    }
}

/// The event-image cache key does not depend on the order of the activities:
/// two calendars with the same eligible activity ids give the same key, so
/// images fetched for one are found for the other.
pub proof fn law_fandom_key_order_independent(
    slug: Seq<char>,
    pairs1: Seq<(u64, Seq<char>)>,
    eligible1: Seq<u64>,
    r1: Seq<(u64, String)>,
    pairs2: Seq<(u64, Seq<char>)>,
    eligible2: Seq<u64>,
    r2: Seq<(u64, String)>,
)
    requires
        canonical_spec(pairs1, eligible1, r1),
        canonical_spec(pairs2, eligible2, r2),
        forall|id: u64| has_canonical_id(pairs1, eligible1, id) <==> has_canonical_id(pairs2, eligible2, id),
    ensures
        ids_of(r1) == ids_of(r2),
        fandom_key(slug, ids_of(r1)) == fandom_key(slug, ids_of(r2)),
{
    lemma_canonical_members(pairs1, eligible1, r1);
    lemma_canonical_members(pairs2, eligible2, r2);
    lemma_increasing_same_members(ids_of(r1), ids_of(r2));
}


/// Whether no two `(name, url)` entries share a name, as in a map from names
/// to urls.
pub open spec fn names_distinct(images: Seq<(String, String)>) -> bool {
    forall|i: int, j: int| 0 <= i < j < images.len() ==> (#[trigger] images[i]).0@ != (#[trigger] images[j]).0@
}

/// Whether no two `(name, url)` entries share a name.
pub fn distinct_names(images: &[(String, String)]) -> (b: bool)
    ensures
        b == names_distinct(images@),
{
    let mut j: usize = 0;
    while j < images.len()
        invariant
            j <= images@.len(),
            names_distinct(images@.take(j as int)),
        decreases images@.len() - j,
    {
        let mut i: usize = 0;
        while i < j
            invariant
                i <= j < images@.len(),
                forall|k: int| 0 <= k < i ==> (#[trigger] images@[k]).0@ != images@[j as int].0@,
            decreases j - i,
        {
            if str_eq(images[i].0.as_str(), images[j].0.as_str()) {
                proof {
                    assert(images@[i as int].0@ == images@[j as int].0@);
                }
                return false;
            }
            i = i + 1;
        }
        proof {
            let t = images@.take(j + 1);
            assert forall|a: int, b: int| 0 <= a < b < t.len() implies (#[trigger] t[a]).0@ != (#[trigger] t[b]).0@ by {
                if b < j {
                    assert(images@.take(j as int)[a] == t[a]);
                    assert(images@.take(j as int)[b] == t[b]);
                }
            }
        }
        j = j + 1;
    }
    proof {
        assert(images@.take(images@.len() as int) =~= images@);
    }
    true
}

/// The image url that a list of `(name, url)` entries gives a name: the first
/// entry with that name.
pub open spec fn lookup_image(images: Seq<(String, String)>, name: Seq<char>) -> Option<Seq<char>>
    decreases images.len(),
{
    if images.len() == 0 {
        None
    } else if images[0].0@ == name {
        Some(images[0].1@)
    } else {
        lookup_image(images.drop_first(), name)
    }
}

/// Where no two entries share a name, each entry's name looks up exactly that
/// entry's url: the list then behaves as the map from names to urls that it
/// was made from, whatever the order of its entries.
pub proof fn law_distinct_lookup(images: Seq<(String, String)>, k: int)
    requires
        names_distinct(images),
        0 <= k < images.len(),
    ensures
        lookup_image(images, images[k].0@) == Some(images[k].1@),
    decreases k,
{
    if k > 0 {
        assert(images[0].0@ != images[k].0@);
        let rest = images.drop_first();
        assert forall|i: int, j: int| 0 <= i < j < rest.len() implies (#[trigger] rest[i]).0@ != (#[trigger] rest[j]).0@ by {
            assert(rest[i] == images[i + 1]);
            assert(rest[j] == images[j + 1]);
        }
        assert(rest[k - 1] == images[k]);
        law_distinct_lookup(rest, k - 1);
    }
}

/// The image of each activity that has one, by activity id; for a repeated
/// id the last activity's image counts.
pub open spec fn image_map_spec(activities: Seq<(u64, String)>, images: Seq<(String, String)>) -> Map<
    u64,
    Seq<char>,
>
    decreases activities.len(),
{
    if activities.len() == 0 {
        Map::empty()
    } else {
        let m = image_map_spec(activities.drop_last(), images);
        match lookup_image(images, activities.last().1@) {
            Some(url) => m.insert(activities.last().0, url),
            None => m,
        }
    }
}

/// The image urls of a map from ids to urls, as character sequences.
pub open spec fn images_view(m: Map<u64, String>) -> Map<u64, Seq<char>> {
    m.map_values(|s: String| s@)
}

/// The image that `images` holds for an id, if any.
pub open spec fn image_at(images: Map<u64, Seq<char>>, id: u64) -> Option<Seq<char>> {
    if images.contains_key(id) {
        Some(images[id])
    } else {
        None
    }
}

/// Whether a map from ids to image urls holds exactly the entries of `spec`.
spec fn image_map_matches(m: Map<u64, String>, spec: Map<u64, Seq<char>>) -> bool {
    &&& m.dom() == spec.dom()
    &&& forall|k: u64| #[trigger] m.contains_key(k) ==> m[k]@ == spec[k]
}

proof fn lemma_images_view(m: Map<u64, String>, spec: Map<u64, Seq<char>>)
    requires
        image_map_matches(m, spec),
    ensures
        images_view(m) == spec,
{
    assert(images_view(m).dom() =~= spec.dom());
    assert(images_view(m) =~= spec);
}

/// The image a map from ids to urls holds for `id`: the map's own lookup,
/// read through its view.
pub fn image_of(image_map: &HashMap<u64, String>, id: u64) -> (r: Option<String>)
    ensures
        opt_view(r) == image_at(images_view(image_map@), id),
{
    broadcast use vstd::std_specs::hash::group_hash_axioms;

    match image_map.get(&id) {
        Some(url) => Some(url.clone()),
        None => None,
    }
}

proof fn lemma_image_map_ids(activities: Seq<(u64, String)>, images: Seq<(String, String)>, id: u64)
    requires
        forall|k: int| 0 <= k < activities.len() ==> activities[k].0 != id,
    ensures
        !image_map_spec(activities, images).contains_key(id),
    decreases activities.len(),
{
    if activities.len() > 0 {
        lemma_image_map_ids(activities.drop_last(), images, id);
    }
}

/// An event's image is found under the name of its canonical activity:
/// among canonical activities of distinct ids, the image an id gets is the
/// first image entry named after that id's activity, and an id that is not
/// among them gets none. This is what lets a calendar in any language show
/// the images that the wiki files under the English names.
pub proof fn law_image_by_canonical_name(activities: Seq<(u64, String)>, images: Seq<(String, String)>, id: u64)
    requires
        strictly_increasing(ids_of(activities)),
    ensures
        forall|k: int| 0 <= k < activities.len() && #[trigger] activities[k].0 == id
            ==> image_at(image_map_spec(activities, images), id) == lookup_image(images, activities[k].1@),
        (forall|k: int| 0 <= k < activities.len() ==> #[trigger] activities[k].0 != id)
            ==> image_at(image_map_spec(activities, images), id) is None,
    decreases activities.len(),
{
    if activities.len() == 0 {
        return;
    }
    let init = activities.drop_last();
    let last = activities.last();
    assert(strictly_increasing(ids_of(init))) by {
        assert forall|i: int, j: int| 0 <= i < j < ids_of(init).len() implies ids_of(init)[i] < ids_of(init)[j] by {
            assert(ids_of(init)[i] == ids_of(activities)[i]);
            assert(ids_of(init)[j] == ids_of(activities)[j]);
        }
    }
    law_image_by_canonical_name(init, images, id);
    if last.0 == id {
        assert forall|k: int| 0 <= k < init.len() implies init[k].0 != id by {
            assert(ids_of(activities)[k] < ids_of(activities)[activities.len() - 1]);
        }
        lemma_image_map_ids(init, images, id);
        assert forall|k: int| 0 <= k < activities.len() && #[trigger] activities[k].0 == id
            implies image_at(image_map_spec(activities, images), id) == lookup_image(images, activities[k].1@) by {
            if k < activities.len() - 1 {
                assert(init[k] == activities[k]);
            }
        }
    } else {
        assert forall|k: int| 0 <= k < activities.len() && #[trigger] activities[k].0 == id
            implies image_at(image_map_spec(activities, images), id) == lookup_image(images, activities[k].1@) by {
            assert(k < activities.len() - 1);
            assert(init[k] == activities[k]);
        }
        if forall|k: int| 0 <= k < activities.len() ==> #[trigger] activities[k].0 != id {
            assert forall|k: int| 0 <= k < init.len() implies #[trigger] init[k].0 != id by {
                assert(init[k] == activities[k]);
            }
        }
    }
}

/// The url of the first image entry named `name`.
pub fn find_image(images: &[(String, String)], name: &str) -> (r: Option<String>)
    ensures
        opt_view(r) == lookup_image(images@, name@),
{
    let mut i: usize = 0;
    assert(images@.subrange(0, images@.len() as int) =~= images@);
    while i < images.len()
        invariant
            i <= images@.len(),
            lookup_image(images@, name@) == lookup_image(images@.subrange(i as int, images@.len() as int), name@),
        decreases images@.len() - i,
    {
        let ghost rest = images@.subrange(i as int, images@.len() as int);
        assert(rest[0] == images@[i as int]);
        if str_eq(images[i].0.as_str(), name) {
            return Some(images[i].1.clone());
        }
        assert(rest.drop_first() =~= images@.subrange(i + 1, images@.len() as int));
        i = i + 1;
    }
    None
}

/// The event image of each activity, found by its canonical name and keyed by its id.
pub fn map_activity_images(activities: &[(u64, String)], fandom_images: &[(String, String)]) -> (m:
    HashMap<u64, String>)
    requires
        names_distinct(fandom_images@),
    ensures
        images_view(m@) == image_map_spec(activities@, fandom_images@),
{
    broadcast use vstd::std_specs::hash::group_hash_axioms;

    let mut m: HashMap<u64, String> = HashMap::new();
    let mut i: usize = 0;
    while i < activities.len()
        invariant
            i <= activities@.len(),
            image_map_matches(m@, image_map_spec(activities@.take(i as int), fandom_images@)),
        decreases activities@.len() - i,
    {
        let ghost before = m@;
        proof {
            assert(activities@.take(i + 1).drop_last() =~= activities@.take(i as int));
        }
        match find_image(fandom_images, activities[i].1.as_str()) {
            Some(url) => {
                m.insert(activities[i].0, url);
            },
            None => {},
        }
        proof {
            let sp = image_map_spec(activities@.take(i + 1), fandom_images@);
            assert(m@.dom() =~= sp.dom());
        }
        i = i + 1;
    }
    proof {
        assert(activities@.take(activities@.len() as int) =~= activities@);
        lemma_images_view(m@, image_map_spec(activities@, fandom_images@));
    }
    m
}

/// The key under which a game's calendar in language `lang` is cached.
pub open spec fn spec_calendar_cache_key(slug: Seq<char>, lang: Seq<char>) -> Seq<char> {
    "/mihoyo/"@ + slug + "/calendar/"@ + lang
}

/// The response-cache key of a game's calendar in language `lang`.
pub fn calendar_cache_key(game: Game, lang: &str) -> (r: String)
    ensures
        r@ == spec_calendar_cache_key(spec_slug(game), lang@),
{
    let mut v: Vec<char> = Vec::new();
    append_str(&mut v, "/mihoyo/");
    append_str(&mut v, game.slug());
    append_str(&mut v, "/calendar/");
    append_str(&mut v, lang);
    string_of(&v)
}

/// Whether a game's validator settings hold the cookie and uid that its
/// calendar is fetched with.
pub open spec fn has_calendar_credentials(c: Option<GameValidatorConfig>) -> bool {
    c matches Some(cfg) && cfg.cookie@.len() > 0 && cfg.uid@.len() > 0
}

/// What a game's calendar is fetched with.
pub struct CalendarPlan {
    pub uid: String,
    pub region: String,
    pub lang: String,
    /// The cookie of the request in the asked language.
    pub cookie: String,
    /// The cookie of a request in English, made for the activities' English
    /// names when the asked language is another.
    pub english_cookie: Option<String>,
}

/// Whether `p` is the plan of a calendar request in `lang` made with the
/// settings `cfg`.
pub open spec fn plan_of(cfg: GameValidatorConfig, lang: Seq<char>, p: CalendarPlan) -> bool {
    &&& p.uid@ == cfg.uid@
    &&& p.region@ == cfg.region@
    &&& p.lang@ == lang
    &&& p.cookie@ == spec_cookie_with_lang(cfg.cookie@, lang)
    &&& (p.english_cookie is None <==> lang == "en-us"@)
    &&& (p.english_cookie matches Some(c) ==> c@ == spec_cookie_with_lang(cfg.cookie@, "en-us"@))
}

/// How a game's calendar in `lang` is fetched, or a `500` error with code
/// `3000` when the game has no cookie or uid configured.
pub fn calendar_plan(validator: &ValidatorConfig, game: Game, lang: &str) -> (r: Result<CalendarPlan, ApiError>)
    ensures
        r is Err <==> !has_calendar_credentials(spec_game_config(*validator, game)),
        r is Err ==> r->Err_0.status_code == 500 && r->Err_0.status@ == "Internal Server Error"@
            && r->Err_0.error_code.0 == 3000
            && r->Err_0.error@ == spec_slug(game) + " calendar credentials not configured"@,
        r is Ok ==> plan_of(spec_game_config(*validator, game)->0, lang@, r->Ok_0),
{
    let configured = match validator.game_config(game) {
        Some(cfg) => if cfg.cookie.as_str().unicode_len() == 0 || cfg.uid.as_str().unicode_len() == 0 {
            None
        } else {
            Some(cfg)
        },
        None => None,
    };
    match configured {
        None => {
            let mut v: Vec<char> = Vec::new();
            append_str(&mut v, game.slug());
            append_str(&mut v, " calendar credentials not configured");
            let msg = string_of(&v);
            Err(ApiError::internal_server_error(ApiErrorCode::not_configured(), msg.as_str()))
        },
        Some(cfg) => {
            let cookie = cookie_with_lang(cfg.cookie.as_str(), lang);
            let english_cookie = if str_eq(lang, "en-us") {
                None
            } else {
                Some(cookie_with_lang(cfg.cookie.as_str(), "en-us"))
            };
            Ok(CalendarPlan {
                uid: cfg.uid.clone(),
                region: cfg.region.clone(),
                lang: lang.to_string(),
                cookie,
                english_cookie,
            })
        },
    }
}

/// The names of a list of `(id, name)` pairs, in order.
pub open spec fn names_of(r: Seq<(u64, String)>) -> Seq<Seq<char>> {
    Seq::new(r.len(), |i: int| r[i].1@)
}

/// The names of a list of `(id, name)` pairs, in order.
pub fn activity_names(canonical: &Vec<(u64, String)>) -> (names: Vec<String>)
    ensures
        names@.map_values(|n: String| n@) == names_of(canonical@),
{
    let mut names: Vec<String> = Vec::new();
    let mut i: usize = 0;
    while i < canonical.len()
        invariant
            i <= canonical@.len(),
            names@.len() == i,
            forall|j: int| 0 <= j < i ==> (#[trigger] names@[j])@ == canonical@[j].1@,
        decreases canonical@.len() - i,
    {
        names.push(canonical[i].1.clone());
        i = i + 1;
    }
    assert(names@.map_values(|n: String| n@) =~= names_of(canonical@));
    names
}

/// The title of a wiki file: `prefix`, the name, `suffix`.
pub open spec fn fandom_title(prefix: Seq<char>, suffix: Seq<char>, name: Seq<char>) -> Seq<char> {
    prefix + name + suffix
}

/// The `titles` parameter of a wiki image query for `names`: their titles
/// joined with `|`.
pub open spec fn spec_fandom_titles(prefix: Seq<char>, suffix: Seq<char>, names: Seq<String>) -> Seq<char> {
    join(Seq::new(names.len(), |i: int| fandom_title(prefix, suffix, names[i]@)), "|"@)
}

/// The `titles` parameter of a wiki image query for `names`.
pub fn fandom_titles(prefix: &str, suffix: &str, names: &[String]) -> (r: String)
    ensures
        r@ == spec_fandom_titles(prefix@, suffix@, names@),
{
    let ghost titles = Seq::new(names@.len(), |i: int| fandom_title(prefix@, suffix@, names@[i]@));
    let mut v: Vec<char> = Vec::new();
    let mut i: usize = 0;
    while i < names.len()
        invariant
            i <= names@.len(),
            titles == Seq::new(names@.len(), |i: int| fandom_title(prefix@, suffix@, names@[i]@)),
            v@ == join(titles.take(i as int), "|"@),
        decreases names@.len() - i,
    {
        let ghost before = v@;
        if i > 0 {
            append_str(&mut v, "|");
        }
        append_str(&mut v, prefix);
        append_str(&mut v, names[i].as_str());
        append_str(&mut v, suffix);
        proof {
            assert(titles.take(i + 1) =~= titles.take(i as int).push(titles[i as int]));
            if i > 0 {
                lemma_join_push(titles.take(i as int), "|"@, titles[i as int]);
            } else {
                assert(titles.take(1) =~= seq![titles[0]]);
            }
            assert(v@ =~= join(titles.take(i + 1), "|"@));
        }
        i = i + 1;
    }
    assert(titles.take(names@.len() as int) =~= titles);
    string_of(&v)
}

/// The name a wiki file title stands for: the title without `prefix` and
/// `suffix` when it has both, else the whole title.
pub open spec fn spec_image_name(prefix: Seq<char>, suffix: Seq<char>, title: Seq<char>) -> Seq<char> {
    if has_prefix(title, prefix) && has_suffix(title.skip(prefix.len() as int), suffix) {
        title.subrange(prefix.len() as int, title.len() - suffix.len())
    } else {
        title
    }
}

/// The name a wiki file title stands for.
pub fn fandom_image_name(prefix: &str, suffix: &str, title: &str) -> (r: String)
    ensures
        r@ == spec_image_name(prefix@, suffix@, title@),
{
    let t = chars_of(title);
    let p = chars_of(prefix);
    let s = chars_of(suffix);
    if starts_with(&t, &p) {
        let rest = slice_chars(&t, p.len(), t.len());
        assert(rest@ =~= t@.skip(p@.len() as int));
        if ends_with(&rest, &s) {
            let name = slice_chars(&t, p.len(), t.len() - s.len());
            return string_of(&name);
        }
    }
    string_of(&t)
}

/// The `(name, url)` image entries of a wiki answer whose pages are given
/// as their title and the url of their first image, if any: one entry per
/// page with an image, in order.
pub open spec fn spec_image_entries(
    prefix: Seq<char>,
    suffix: Seq<char>,
    pages: Seq<(String, Option<String>)>,
) -> Seq<(Seq<char>, Seq<char>)>
    decreases pages.len(),
{
    if pages.len() == 0 {
        Seq::empty()
    } else {
        let init = spec_image_entries(prefix, suffix, pages.drop_last());
        match pages.last().1 {
            Some(url) => init.push((spec_image_name(prefix, suffix, pages.last().0@), url@)),
            None => init,
        }
    }
}

/// The views of a list of `(name, url)` entries.
pub open spec fn entry_views(s: Seq<(String, String)>) -> Seq<(Seq<char>, Seq<char>)> {
    Seq::new(s.len(), |i: int| (s[i].0@, s[i].1@))
}

/// The image entries of a wiki answer's pages.
pub fn fandom_image_entries(prefix: &str, suffix: &str, pages: Vec<(String, Option<String>)>) -> (r: Vec<(String, String)>)
    ensures
        entry_views(r@) == spec_image_entries(prefix@, suffix@, pages@),
{
    let ghost all = pages@;
    let mut r: Vec<(String, String)> = Vec::new();
    for page in it: pages.into_iter()
        invariant
            it.seq() == all,
            entry_views(r@) == spec_image_entries(prefix@, suffix@, all.take(it.index() as int)),
    {
        proof {
            assert(all.take(it.index() + 1).drop_last() =~= all.take(it.index() as int));
        }
        let (title, url) = page;
        let ghost before = r@;
        match url {
            Some(u) => {
                let name = fandom_image_name(prefix, suffix, title.as_str());
                r.push((name, u));
                assert(entry_views(r@) =~= entry_views(before).push((r@.last().0@, r@.last().1@)));
            },
            None => {},
        }
    }
    proof {
        assert(all.take(all.len() as int) =~= all);
    }
    r
}

} // verus!
