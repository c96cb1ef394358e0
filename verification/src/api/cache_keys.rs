//! The keys under which the answers of the remote service are cached, how
//! long an answer is served, and which answers a change makes stale.

use crate::cache::like::{lemma_like_prefix, like};
use crate::cache::web_cache::{not_like, WebCache};
use crate::text::{decimal, decimal_string, join_with, joined, texts};
use vstd::prelude::*;

verus! {

/// How long a listing or a comic is served from the cache, in seconds.
pub const QUERY_TTL: u64 = 60 * 60 * 2;

/// How long the tags are served from the cache, in seconds.
pub const TAGS_TTL: u64 = 60 * 60 * 15;

/// The sign between the parts of a cache key.
pub open spec fn key_separator() -> Seq<char> {
    seq!['$']
}

/// The cache key made of the given parts: the name of the query first, then
/// what it was asked with.
pub open spec fn cache_key_of(parts: Seq<Seq<char>>) -> Seq<char> {
    joined(parts, key_separator())
}

/// How `{:?}` writes a text that may be missing.
pub uninterp spec fn debug_text(value: Option<Seq<char>>) -> Seq<char>;

/// The text of a string that may be missing.
pub open spec fn option_text(value: Option<String>) -> Option<Seq<char>> {
    match value {
        Some(s) => Some(s@),
        None => None,
    }
}

/// Calls `format!` with `{:?}` on a text that may be missing. What it
/// writes is a function of the text alone.
#[verifier::external_body]
fn debug_option(value: &Option<String>) -> (text: String)
    ensures
        text@ == debug_text(option_text(*value)),
{
    format!("{:?}", value)
}

/// Joins the parts of a cache key.
fn key_from(parts: Vec<&str>) -> (key: String)
    ensures
        key@ == cache_key_of(texts(parts@)),
{
    proof {
        reveal_strlit("$");
        assert("$"@ =~= key_separator());
    }
    join_with(parts, "$")
}

/// The key of a ranking.
pub fn rank_cache_key(date_type: &str, offset: i64, limit: i64) -> (key: String)
    ensures
        key@ == cache_key_of(
            seq!["COMIC_RANK"@, date_type@, decimal(offset as int), decimal(limit as int)],
        ),
{
    let offset = decimal_string(offset);
    let limit = decimal_string(limit);
    let parts = vec!["COMIC_RANK", date_type, offset.as_str(), limit.as_str()];
    assert(texts(parts@) =~= seq!["COMIC_RANK"@, date_type@, offset@, limit@]);
    key_from(parts)
}

/// The key of the recommendations.
pub fn recommends_cache_key(offset: i64, limit: i64) -> (key: String)
    ensures
        key@ == cache_key_of(
            seq!["COMIC_RECOMMENDS"@, decimal(offset as int), decimal(limit as int)],
        ),
{
    let offset = decimal_string(offset);
    let limit = decimal_string(limit);
    let parts = vec!["COMIC_RECOMMENDS", offset.as_str(), limit.as_str()];
    assert(texts(parts@) =~= seq!["COMIC_RECOMMENDS"@, offset@, limit@]);
    key_from(parts)
}

/// The key of a comic.
pub fn comic_cache_key(path_word: &str) -> (key: String)
    ensures
        key@ == cache_key_of(seq!["COMIC"@, path_word@]),
{
    let parts = vec!["COMIC", path_word];
    assert(texts(parts@) =~= seq!["COMIC"@, path_word@]);
    key_from(parts)
}

/// The key of a listing of the chapters of a group.
pub fn comic_chapters_cache_key(
    comic_path_word: &str,
    group_path_word: &str,
    limit: i64,
    offset: i64,
) -> (key: String)
    ensures
        key@ == cache_key_of(
            seq![
                "COMIC_CHAPTERS"@,
                comic_path_word@,
                group_path_word@,
                decimal(limit as int),
                decimal(offset as int),
            ],
        ),
{
    let limit = decimal_string(limit);
    let offset = decimal_string(offset);
    let parts = vec![
        "COMIC_CHAPTERS",
        comic_path_word,
        group_path_word,
        limit.as_str(),
        offset.as_str(),
    ];
    assert(texts(parts@) =~= seq![
        "COMIC_CHAPTERS"@,
        comic_path_word@,
        group_path_word@,
        limit@,
        offset@,
    ]);
    key_from(parts)
}

/// The key of what the account has to do with a comic.
pub fn comic_query_cache_key(path_word: &str) -> (key: String)
    ensures
        key@ == cache_key_of(seq!["COMIC_QUERY"@, path_word@]),
{
    let parts = vec!["COMIC_QUERY", path_word];
    assert(texts(parts@) =~= seq!["COMIC_QUERY"@, path_word@]);
    key_from(parts)
}

/// The key of the contents of a chapter.
pub fn comic_chapter_data_cache_key(comic_path_word: &str, chapter_uuid: &str) -> (key: String)
    ensures
        key@ == cache_key_of(seq!["COMIC_CHAPTER_DATA"@, comic_path_word@, chapter_uuid@]),
{
    let parts = vec!["COMIC_CHAPTER_DATA", comic_path_word, chapter_uuid];
    assert(texts(parts@) =~= seq!["COMIC_CHAPTER_DATA"@, comic_path_word@, chapter_uuid@]);
    key_from(parts)
}

/// The key of the tags.
pub fn tags_cache_key() -> (key: String)
    ensures
        key@ == cache_key_of(seq!["COMIC_TAGS"@]),
{
    let parts = vec!["COMIC_TAGS"];
    assert(texts(parts@) =~= seq!["COMIC_TAGS"@]);
    key_from(parts)
}

/// The key of a listing by ordering, top and theme, from the three as they
/// are written. The limit comes before the offset.
pub fn explorer_cache_key_of(
    ordering: &str,
    top: &str,
    theme: &str,
    offset: i64,
    limit: i64,
) -> (key: String)
    ensures
        key@ == cache_key_of(
            seq![
                "COMIC_EXPLORER"@,
                ordering@,
                top@,
                theme@,
                decimal(limit as int),
                decimal(offset as int),
            ],
        ),
{
    let limit = decimal_string(limit);
    let offset = decimal_string(offset);
    let parts = vec!["COMIC_EXPLORER", ordering, top, theme, limit.as_str(), offset.as_str()];
    assert(texts(parts@) =~= seq![
        "COMIC_EXPLORER"@,
        ordering@,
        top@,
        theme@,
        limit@,
        offset@,
    ]);
    key_from(parts)
}

/// The key of a listing by ordering, top and theme. Each of the three is
/// written as `{:?}` writes it, and the limit comes before the offset.
pub fn explorer_cache_key(
    ordering: &Option<String>,
    top: &Option<String>,
    theme: &Option<String>,
    offset: i64,
    limit: i64,
) -> (key: String)
    ensures
        key@ == cache_key_of(
            seq![
                "COMIC_EXPLORER"@,
                debug_text(option_text(*ordering)),
                debug_text(option_text(*top)),
                debug_text(option_text(*theme)),
                decimal(limit as int),
                decimal(offset as int),
            ],
        ),
{
    let ordering = debug_option(ordering);
    let top = debug_option(top);
    let theme = debug_option(theme);
    explorer_cache_key_of(ordering.as_str(), top.as_str(), theme.as_str(), offset, limit)
}

/// The key of a search. The limit comes before the offset.
pub fn comic_search_cache_key(q_type: &str, q: &str, offset: i64, limit: i64) -> (key: String)
    ensures
        key@ == cache_key_of(
            seq!["COMIC_SEARCH"@, q_type@, q@, decimal(limit as int), decimal(offset as int)],
        ),
{
    let limit = decimal_string(limit);
    let offset = decimal_string(offset);
    let parts = vec!["COMIC_SEARCH", q_type, q, limit.as_str(), offset.as_str()];
    assert(texts(parts@) =~= seq!["COMIC_SEARCH"@, q_type@, q@, limit@, offset@]);
    key_from(parts)
}

/// The key of a listing of the account's collection. It ends with the
/// separator.
pub fn collect_from_account_cache_key(
    free_type: i64,
    ordering: &str,
    offset: i64,
    limit: i64,
) -> (key: String)
    ensures
        key@ == cache_key_of(
            seq![
                "COMIC_COLLECT"@,
                decimal(free_type as int),
                ordering@,
                decimal(offset as int),
                decimal(limit as int),
                Seq::<char>::empty(),
            ],
        ),
{
    proof {
        reveal_strlit("");
        assert(""@ =~= Seq::<char>::empty());
    }
    let free_type = decimal_string(free_type);
    let offset = decimal_string(offset);
    let limit = decimal_string(limit);
    let parts = vec![
        "COMIC_COLLECT",
        free_type.as_str(),
        ordering,
        offset.as_str(),
        limit.as_str(),
        "",
    ];
    assert(texts(parts@) =~= seq![
        "COMIC_COLLECT"@,
        free_type@,
        ordering@,
        offset@,
        limit@,
        Seq::<char>::empty(),
    ]);
    key_from(parts)
}

/// The text before the wildcard of the pattern that a login makes stale.
pub open spec fn query_prefix() -> Seq<char> {
    "COMIC_QUERY$"@
}

/// After a login nothing that the service said of the account and a comic
/// holds any more: every response whose key begins with `COMIC_QUERY$` is
/// dropped.
pub fn invalidate_after_login(web: &mut WebCache)
    requires
        old(web).wf(),
    ensures
        final(web).wf(),
        final(web).rows@ == old(web).rows@.filter(not_like("COMIC_QUERY$%"@)),
{
    web.clean_web_cache_by_like("COMIC_QUERY$%");
}

/// Every key that begins with `COMIC_QUERY$` matches the pattern of a
/// login.
pub proof fn lemma_login_pattern(key: Seq<char>)
    requires
        query_prefix().len() <= key.len(),
        key.take(query_prefix().len() as int) == query_prefix(),
    ensures
        like("COMIC_QUERY$%"@, key),
{
    reveal_strlit("COMIC_QUERY$%");
    reveal_strlit("COMIC_QUERY$");
    assert("COMIC_QUERY$%"@ =~= query_prefix().push('%'));
    lemma_like_prefix(query_prefix(), key);
    assert forall|i: int| 0 <= i < query_prefix().len() implies query_prefix()[i] == key[i] by {
        assert(key.take(query_prefix().len() as int)[i] == key[i]);
    }
}

/// After a comic was added to the account's collection, or taken from it,
/// the listings of the collection are stale, and so is what the service said
/// of the account and the comic: every response whose key matches
/// `COMIC_COLLECT%` is dropped, and every one whose key matches the key of
/// the comic's query, read as a pattern.
pub fn invalidate_after_collect(web: &mut WebCache, comic_path_word: &str)
    requires
        old(web).wf(),
    ensures
        final(web).wf(),
        final(web).rows@ == old(web).rows@.filter(not_like("COMIC_COLLECT%"@)).filter(
            not_like(cache_key_of(seq!["COMIC_QUERY"@, comic_path_word@])),
        ),
{
    web.clean_web_cache_by_like("COMIC_COLLECT%");
    let pattern = comic_query_cache_key(comic_path_word);
    web.clean_web_cache_by_like(pattern.as_str());
}

} // verus!
