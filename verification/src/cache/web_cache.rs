//! Responses of the remote service, kept under a key with the time at which
//! they were written.

use vstd::prelude::*;

verus! {

/// One cached response.
#[derive(Clone, Debug, PartialEq)]
pub struct WebCacheRow {
    pub cache_key: String,
    /// The serialized response.
    pub cache_content: String,
    /// When the response was written.
    pub cache_time: i64,
}

/// The cached responses. No key occurs twice.
#[derive(Clone, Debug, PartialEq)]
pub struct WebCache {
    pub rows: Vec<WebCacheRow>,
}

/// The place of `key` in the table is `i`.
pub open spec fn row_at(rows: Seq<WebCacheRow>, key: Seq<char>, i: int) -> bool {
    0 <= i < rows.len() && rows[i].cache_key@ == key
}

/// The table holds a response under `key`.
pub open spec fn has_key(rows: Seq<WebCacheRow>, key: Seq<char>) -> bool {
    exists|i: int| row_at(rows, key, i)
}

/// No key occurs twice.
pub open spec fn distinct_keys(rows: Seq<WebCacheRow>) -> bool {
    forall|i: int, j: int|
        0 <= i < j < rows.len() ==> (#[trigger] rows[i]).cache_key@ != (
        #[trigger] rows[j]).cache_key@
}

/// A response written at `written` can still be served at `now` under a time
/// to live of `ttl`.
pub open spec fn is_fresh(written: i64, ttl: u64, now: i64) -> bool {
    now - written < ttl
}

/// The cached response that may be served for `key` at `now`: the one under
/// the key, if it is fresh.
pub open spec fn fresh_content(
    rows: Seq<WebCacheRow>,
    key: Seq<char>,
    ttl: u64,
    now: i64,
) -> Option<String> {
    if exists|i: int| row_at(rows, key, i) && is_fresh(rows[i].cache_time, ttl, now) {
        let i = choose|i: int| row_at(rows, key, i) && is_fresh(rows[i].cache_time, ttl, now);
        Some(rows[i].cache_content)
    } else {
        None
    }
}

/// The table once `content` was written under `key` at `now`: the response
/// under the key is replaced, or a new one is added at the end.
pub open spec fn saved(
    pre: Seq<WebCacheRow>,
    key: String,
    content: String,
    now: i64,
    post: Seq<WebCacheRow>,
) -> bool {
    if has_key(pre, key@) {
        exists|i: int|
            #[trigger] row_at(pre, key@, i) && post == pre.update(
                i,
                WebCacheRow { cache_content: content, cache_time: now, ..pre[i] },
            )
    } else {
        post == pre.push(WebCacheRow { cache_key: key, cache_content: content, cache_time: now })
    }
}

/// The responses written at `cutoff` or later.
pub open spec fn not_older_than(cutoff: i64) -> spec_fn(WebCacheRow) -> bool {
    |row: WebCacheRow| row.cache_time >= cutoff
}

/// The responses whose key does not match the pattern.
pub open spec fn not_like(pattern: Seq<char>) -> spec_fn(WebCacheRow) -> bool {
    |row: WebCacheRow| !crate::cache::like::like(pattern, row.cache_key@)
}

/// A filter leaves no key twice where none was twice, and leaves only what
/// was there.
pub proof fn lemma_filter_keeps_keys_distinct(
    rows: Seq<WebCacheRow>,
    keep: spec_fn(WebCacheRow) -> bool,
)
    requires
        distinct_keys(rows),
    ensures
        distinct_keys(rows.filter(keep)),
        forall|i: int|
            0 <= i < rows.filter(keep).len() ==> rows.contains(#[trigger] rows.filter(keep)[i]),
    decreases rows.len(),
{
    reveal(Seq::filter);
    if rows.len() > 0 {
        let head = rows.drop_last();
        let last = rows.last();
        assert forall|i: int, j: int| 0 <= i < j < head.len() implies (
        #[trigger] head[i]).cache_key@ != (#[trigger] head[j]).cache_key@ by {
            assert(head[i] == rows[i] && head[j] == rows[j]);
        }
        lemma_filter_keeps_keys_distinct(head, keep);
        let left = head.filter(keep);
        assert forall|i: int| 0 <= i < left.len() implies rows.contains(#[trigger] left[i])
            && left[i].cache_key@ != last.cache_key@ by {
            assert(head.contains(left[i]));
            let j = choose|j: int| 0 <= j < head.len() && head[j] == left[i];
            assert(rows[j] == left[i]);
            assert(rows[rows.len() - 1] == last);
        }
        if keep(last) {
            assert(rows[rows.len() - 1] == last);
            assert(rows.filter(keep) =~= left.push(last));
        }
    }
}

impl WebCache {
    /// No key occurs twice.
    pub open spec fn wf(&self) -> bool {
        distinct_keys(self.rows@)
    }

    /// A cache that holds nothing.
    pub fn new() -> (cache: WebCache)
        ensures
            cache.wf(),
            cache.rows@.len() == 0,
    {
        WebCache { rows: Vec::new() }
    }

    /// The place of the response under `key`.
    pub fn find(&self, key: &String) -> (found: Option<usize>)
        ensures
            match found {
                Some(i) => row_at(self.rows@, key@, i as int) && forall|j: int|
                    0 <= j < i ==> !row_at(self.rows@, key@, j),
                None => !has_key(self.rows@, key@),
            },
    {
        let mut i: usize = 0;
        while i < self.rows.len()
            invariant
                i <= self.rows@.len(),
                forall|j: int| 0 <= j < i ==> !row_at(self.rows@, key@, j),
            decreases self.rows@.len() - i,
        {
            if self.rows[i].cache_key == *key {
                return Some(i);
            }
            i += 1;
        }
        None
    }

    /// The cached response for `key`, if there is one and it is fresh: written
    /// less than `ttl` before `now`.
    pub fn load_fresh(&self, key: &String, ttl: u64, now: i64) -> (content: Option<String>)
        requires
            self.wf(),
        ensures
            content == fresh_content(self.rows@, key@, ttl, now),
    {
        match self.find(key) {
            Some(i) => {
                proof {
                    assert forall|j: int| row_at(self.rows@, key@, j) implies j == i by {
                        if j != i {
                            assert(self.rows@[j].cache_key@ == self.rows@[i as int].cache_key@);
                        }
                    }
                }
                if (now as i128) - (self.rows[i].cache_time as i128) < (ttl as i128) {
                    Some(self.rows[i].cache_content.clone())
                } else {
                    None
                }
            },
            None => None,
        }
    }

    /// Writes `content` under `key` with the time `now`, in place of what was
    /// there under the key.
    pub fn save(&mut self, key: String, content: String, now: i64)
        requires
            old(self).wf(),
        ensures
            final(self).wf(),
            saved(old(self).rows@, key, content, now, final(self).rows@),
    {
        match self.find(&key) {
            Some(i) => {
                self.rows[i].cache_content = content;
                self.rows[i].cache_time = now;
                proof {
                    assert(row_at(old(self).rows@, key@, i as int));
                    assert(self.rows@ =~= old(self).rows@.update(
                        i as int,
                        WebCacheRow {
                            cache_content: content,
                            cache_time: now,
                            ..old(self).rows@[i as int]
                        },
                    ));
                    assert forall|a: int, b: int| 0 <= a < b < self.rows@.len() implies (
                    #[trigger] self.rows@[a]).cache_key@ != (
                    #[trigger] self.rows@[b]).cache_key@ by {
                        assert(old(self).rows@[a].cache_key@ != old(self).rows@[b].cache_key@);
                    }
                }
            },
            None => {
                self.rows.push(
                    WebCacheRow { cache_key: key, cache_content: content, cache_time: now },
                );
                proof {
                    assert forall|a: int, b: int| 0 <= a < b < self.rows@.len() implies (
                    #[trigger] self.rows@[a]).cache_key@ != (
                    #[trigger] self.rows@[b]).cache_key@ by {
                        if b == self.rows@.len() - 1 {
                            assert(!row_at(old(self).rows@, key@, a));
                        } else {
                            assert(old(self).rows@[a].cache_key@ != old(self).rows@[b].cache_key@);
                        }
                    }
                }
            },
        }
    }

    /// Returns the cached response for `key` if it is fresh. Otherwise runs
    /// `fetch`; what it brings is written under the key with the time `now`
    /// and returned, and a failure is handed on with the cache untouched.
    pub fn cache_first<E, F: FnOnce() -> Result<String, E>>(
        &mut self,
        key: String,
        ttl: u64,
        now: i64,
        fetch: F,
    ) -> (result: Result<String, E>)
        requires
            old(self).wf(),
            fetch.requires(()),
        ensures
            final(self).wf(),
            match fresh_content(old(self).rows@, key@, ttl, now) {
                Some(content) => result == Ok::<String, E>(content) && final(self).rows@ == old(
                    self,
                ).rows@,
                None => fetch.ensures((), result) && match result {
                    Ok(content) => saved(old(self).rows@, key, content, now, final(self).rows@),
                    Err(_) => final(self).rows@ == old(self).rows@,
                },
            },
    {
        match self.load_fresh(&key, ttl, now) {
            Some(content) => Ok(content),
            None => {
                match fetch() {
                    Ok(content) => {
                        self.save(key, content.clone(), now);
                        Ok(content)
                    },
                    Err(e) => Err(e),
                }
            },
        }
    }

    /// Drops every response that was written before `cutoff`.
    pub fn clean_web_cache_by_time(&mut self, cutoff: i64)
        requires
            old(self).wf(),
        ensures
            final(self).wf(),
            final(self).rows@ == old(self).rows@.filter(not_older_than(cutoff)),
    {
        let ghost pre = self.rows@;
        let mut rows: Vec<WebCacheRow> = Vec::new();
        core::mem::swap(&mut rows, &mut self.rows);
        for row in it: rows
            invariant
                it.seq() == pre,
                self.rows@ == pre.take(it.index() as int).filter(not_older_than(cutoff)),
        {
            proof {
                reveal(Seq::filter);
                assert(pre.take(it.index() + 1).drop_last() =~= pre.take(it.index() as int));
            }
            if row.cache_time >= cutoff {
                self.rows.push(row);
            }
        }
        proof {
            assert(pre.take(pre.len() as int) =~= pre);
            lemma_filter_keeps_keys_distinct(pre, not_older_than(cutoff));
        }
    }

    /// Drops every response whose key matches the pattern, in which `%`
    /// stands for any run of characters and `_` for any one character.
    pub fn clean_web_cache_by_like(&mut self, pattern: &str)
        requires
            old(self).wf(),
        ensures
            final(self).wf(),
            final(self).rows@ == old(self).rows@.filter(not_like(pattern@)),
    {
        let ghost pre = self.rows@;
        let mut rows: Vec<WebCacheRow> = Vec::new();
        core::mem::swap(&mut rows, &mut self.rows);
        for row in it: rows
            invariant
                it.seq() == pre,
                self.rows@ == pre.take(it.index() as int).filter(not_like(pattern@)),
        {
            proof {
                reveal(Seq::filter);
                assert(pre.take(it.index() + 1).drop_last() =~= pre.take(it.index() as int));
            }
            if !crate::cache::like::like_match(pattern, row.cache_key.as_str()) {
                self.rows.push(row);
            }
        }
        proof {
            assert(pre.take(pre.len() as int) =~= pre);
            lemma_filter_keeps_keys_distinct(pre, not_like(pattern@));
        }
    }
}

/// Once a response was written under a key at `written`, it is
/// served for that key at every time less than `ttl` later, and at no time
/// from `ttl` on, which is when the remote service is asked again.
pub proof fn lemma_saved_is_served_until_ttl(
    pre: Seq<WebCacheRow>,
    key: String,
    content: String,
    written: i64,
    post: Seq<WebCacheRow>,
    ttl: u64,
    now: i64,
)
    requires
        distinct_keys(pre),
        distinct_keys(post),
        saved(pre, key, content, written, post),
    ensures
        now - written < ttl ==> fresh_content(post, key@, ttl, now) == Some(content),
        now - written >= ttl ==> fresh_content(post, key@, ttl, now) == None::<String>,
{
    let at = if has_key(pre, key@) {
        choose|i: int|
            #[trigger] row_at(pre, key@, i) && post == pre.update(
                i,
                WebCacheRow { cache_content: content, cache_time: written, ..pre[i] },
            )
    } else {
        pre.len() as int
    };
    assert(row_at(post, key@, at));
    assert(post[at].cache_content == content && post[at].cache_time == written);
    assert forall|j: int| row_at(post, key@, j) implies j == at by {
        if j != at {
            assert(post[j].cache_key@ == post[at].cache_key@);
        }
    }
}

} // verus!
