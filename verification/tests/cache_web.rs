use copi_rust::api::cache_keys::{
    collect_from_account_cache_key, comic_cache_key, comic_chapter_data_cache_key,
    comic_chapters_cache_key, comic_query_cache_key, comic_search_cache_key, explorer_cache_key,
    explorer_cache_key_of,
    invalidate_after_collect, invalidate_after_login, rank_cache_key, recommends_cache_key,
    tags_cache_key, QUERY_TTL, TAGS_TTL,
};
use copi_rust::cache::like::like_match;
use copi_rust::cache::web_cache::{WebCache, WebCacheRow};
use std::cell::Cell;

fn keys(cache: &WebCache) -> Vec<String> {
    cache.rows.iter().map(|r| r.cache_key.clone()).collect()
}

#[test]
fn a_fresh_answer_is_served_and_a_stale_one_is_fetched_again() {
    let mut cache = WebCache::new();
    let calls = Cell::new(0);
    let ttl = 100;
    let first = cache.cache_first("k".to_string(), ttl, 1_000, || -> Result<String, String> {
        calls.set(calls.get() + 1);
        Ok("one".to_string())
    });
    assert_eq!(first, Ok("one".to_string()));
    assert_eq!(calls.get(), 1);
    for now in [1_000, 1_001, 1_050, 1_099] {
        let again = cache.cache_first("k".to_string(), ttl, now, || -> Result<String, String> {
            calls.set(calls.get() + 1);
            Ok("two".to_string())
        });
        assert_eq!(again, Ok("one".to_string()));
    }
    assert_eq!(calls.get(), 1);
    let late = cache.cache_first("k".to_string(), ttl, 1_100, || -> Result<String, String> {
        calls.set(calls.get() + 1);
        Ok("three".to_string())
    });
    assert_eq!(late, Ok("three".to_string()));
    assert_eq!(calls.get(), 2);
    assert_eq!(cache.rows.len(), 1);
    assert_eq!(cache.rows[0].cache_time, 1_100);
    assert_eq!(cache.load_fresh(&"k".to_string(), ttl, 1_199), Some("three".to_string()));
    assert_eq!(cache.load_fresh(&"k".to_string(), ttl, 1_200), None);
}

#[test]
fn a_failed_fetch_is_handed_on_and_nothing_is_cached() {
    let mut cache = WebCache::new();
    cache.save("k".to_string(), "old".to_string(), 0);
    let result = cache.cache_first("k".to_string(), 10, 500, || -> Result<String, String> {
        Err("down".to_string())
    });
    assert_eq!(result, Err("down".to_string()));
    assert_eq!(cache.rows.len(), 1);
    assert_eq!(cache.rows[0].cache_content, "old");
    assert_eq!(cache.rows[0].cache_time, 0);
    let other = cache.cache_first("other".to_string(), 10, 500, || -> Result<String, String> {
        Err("down".to_string())
    });
    assert_eq!(other, Err("down".to_string()));
    assert_eq!(cache.rows.len(), 1);
}

#[test]
fn freshness_at_the_ends_of_the_range_of_times() {
    let mut cache = WebCache::new();
    cache.save("min".to_string(), "a".to_string(), i64::MIN);
    cache.save("max".to_string(), "b".to_string(), i64::MAX);
    assert_eq!(cache.load_fresh(&"min".to_string(), u64::MAX, i64::MAX), None);
    assert_eq!(cache.load_fresh(&"min".to_string(), u64::MAX, i64::MAX - 1), Some("a".to_string()));
    assert_eq!(cache.load_fresh(&"max".to_string(), 0, i64::MIN), Some("b".to_string()));
    assert_eq!(cache.load_fresh(&"max".to_string(), 0, i64::MAX), None);
    assert_eq!(cache.load_fresh(&"max".to_string(), 1, i64::MAX), Some("b".to_string()));
    assert_eq!(cache.load_fresh(&"none".to_string(), 1, 0), None);
}

#[test]
fn saving_replaces_what_is_under_the_key() {
    let mut cache = WebCache::new();
    cache.save("a".to_string(), "1".to_string(), 10);
    cache.save("b".to_string(), "2".to_string(), 20);
    cache.save("a".to_string(), "3".to_string(), 30);
    assert_eq!(keys(&cache), vec!["a".to_string(), "b".to_string()]);
    assert_eq!(cache.rows[0].cache_content, "3");
    assert_eq!(cache.rows[0].cache_time, 30);
    assert_eq!(cache.find(&"b".to_string()), Some(1));
    assert_eq!(cache.find(&"c".to_string()), None);
}

#[test]
fn cleaning_by_time_drops_what_is_older_than_the_cutoff() {
    let mut cache = WebCache::new();
    cache.save("a".to_string(), "1".to_string(), 99);
    cache.save("b".to_string(), "2".to_string(), 100);
    cache.save("c".to_string(), "3".to_string(), 5);
    cache.save("d".to_string(), "4".to_string(), 101);
    cache.clean_web_cache_by_time(100);
    assert_eq!(keys(&cache), vec!["b".to_string(), "d".to_string()]);
    assert_eq!(cache.rows[0].cache_content, "2");
    assert_eq!(cache.rows[1].cache_time, 101);
    cache.clean_web_cache_by_time(i64::MIN);
    assert_eq!(cache.rows.len(), 2);
    cache.clean_web_cache_by_time(i64::MAX);
    assert!(cache.rows.is_empty());
}

#[test]
fn patterns() {
    assert!(like_match("", ""));
    assert!(!like_match("", "a"));
    assert!(like_match("%", ""));
    assert!(like_match("%", "anything"));
    assert!(like_match("abc", "abc"));
    assert!(!like_match("abc", "abd"));
    assert!(!like_match("abc", "ab"));
    assert!(!like_match("abc", "abcd"));
    assert!(like_match("a_c", "abc"));
    assert!(like_match("a_c", "a_c"));
    assert!(!like_match("a_c", "ac"));
    assert!(like_match("a%", "a"));
    assert!(like_match("a%", "abc"));
    assert!(!like_match("a%", "ba"));
    assert!(like_match("%c", "abc"));
    assert!(!like_match("%c", "abcd"));
    assert!(like_match("a%c%e", "abcde"));
    assert!(like_match("a%c%e", "ace"));
    assert!(!like_match("a%c%e", "abde"));
    assert!(like_match("%%", "x"));
    assert!(like_match("_%", "x"));
    assert!(!like_match("_%", ""));
    assert!(like_match("COMIC_QUERY$%", "COMIC_QUERY$abc"));
    assert!(like_match("COMIC_QUERY$%", "COMIC_QUERY$"));
    assert!(like_match("COMIC_QUERY$%", "COMICxQUERY$abc"));
    assert!(!like_match("COMIC_QUERY$%", "COMIC_QUERY"));
    assert!(!like_match("COMIC_QUERY$%", "COMIC$abc"));
    assert!(like_match("é%", "état"));
    assert!(!like_match("A", "a"));
}

#[test]
fn a_pattern_with_many_wildcards_is_matched_in_time() {
    let text = "a".repeat(2_000);
    let pattern = format!("{}b", "%a".repeat(40));
    assert!(!like_match(&pattern, &text));
    assert!(like_match(&pattern, &format!("{}b", text)));
    assert!(like_match(&"_".repeat(2_000), &text));
    assert!(!like_match(&"_".repeat(1_999), &text));
}

#[test]
fn a_login_makes_what_was_said_of_the_account_stale() {
    let mut cache = WebCache::new();
    cache.save(comic_query_cache_key("one"), "1".to_string(), 1);
    cache.save(comic_cache_key("one"), "2".to_string(), 2);
    cache.save(comic_query_cache_key("two"), "3".to_string(), 3);
    cache.save(tags_cache_key(), "4".to_string(), 4);
    invalidate_after_login(&mut cache);
    assert_eq!(keys(&cache), vec!["COMIC$one".to_string(), "COMIC_TAGS".to_string()]);
}

#[test]
fn a_change_of_the_collection_makes_its_listings_stale() {
    let mut cache = WebCache::new();
    cache.save(collect_from_account_cache_key(1, "-datetime_modifier", 0, 20), "1".to_string(), 1);
    cache.save(comic_query_cache_key("one"), "2".to_string(), 2);
    cache.save(comic_query_cache_key("two"), "3".to_string(), 3);
    cache.save(comic_cache_key("one"), "4".to_string(), 4);
    invalidate_after_collect(&mut cache, "one");
    assert_eq!(keys(&cache), vec!["COMIC_QUERY$two".to_string(), "COMIC$one".to_string()]);
}

#[test]
fn cache_keys_are_written_as_they_always_were() {
    assert_eq!(rank_cache_key("day", 0, 20), "COMIC_RANK$day$0$20");
    assert_eq!(rank_cache_key("", -5, i64::MIN), "COMIC_RANK$$-5$-9223372036854775808");
    assert_eq!(recommends_cache_key(40, i64::MAX), "COMIC_RECOMMENDS$40$9223372036854775807");
    assert_eq!(comic_cache_key("abc"), "COMIC$abc");
    assert_eq!(comic_chapters_cache_key("abc", "default", 100, 7), "COMIC_CHAPTERS$abc$default$100$7");
    assert_eq!(comic_query_cache_key("abc"), "COMIC_QUERY$abc");
    assert_eq!(comic_chapter_data_cache_key("abc", "u-1"), "COMIC_CHAPTER_DATA$abc$u-1");
    assert_eq!(tags_cache_key(), "COMIC_TAGS");
    assert_eq!(
        explorer_cache_key(&Some("-popular".to_string()), &None, &Some("a\"b".to_string()), 3, 21),
        "COMIC_EXPLORER$Some(\"-popular\")$None$Some(\"a\\\"b\")$21$3"
    );
    assert_eq!(explorer_cache_key_of("a", "", "c", 3, 21), "COMIC_EXPLORER$a$$c$21$3");
    assert_eq!(comic_search_cache_key("name", "one piece", 3, 21), "COMIC_SEARCH$name$one piece$21$3");
    assert_eq!(collect_from_account_cache_key(1, "-x", 0, 20), "COMIC_COLLECT$1$-x$0$20$");
    assert_eq!(QUERY_TTL, 7200);
    assert_eq!(TAGS_TTL, 54000);
}

#[test]
fn a_cache_is_taken_up_again_with_one_record_for_each_key() {
    let rows = vec![
        WebCacheRow { cache_key: "a".to_string(), cache_content: "1".to_string(), cache_time: 1 },
        WebCacheRow { cache_key: "b".to_string(), cache_content: "2".to_string(), cache_time: 2 },
        WebCacheRow { cache_key: "a".to_string(), cache_content: "3".to_string(), cache_time: 3 },
    ];
    let cache = WebCache::restore(rows.clone());
    assert_eq!(cache.rows, vec![rows[0].clone(), rows[1].clone()]);
    assert!(WebCache::restore(Vec::new()).rows.is_empty());
}
