//! Taking the caches up again from the records that were written before the
//! application stopped.

use crate::cache::image_cache::{image_at, ImageCache, ImageCacheRow};
use crate::cache::web_cache::{row_at, WebCache, WebCacheRow};
use crate::digest::{file_name_of, local_file_name};
use crate::table::{lemma_merge_step, lemma_merged_distinct, merged, new_positions};
use crate::table::kept_places;
use vstd::prelude::*;

verus! {

/// The keys of the cached responses, in the order of the table.
pub open spec fn web_keys(rows: Seq<WebCacheRow>) -> Seq<Seq<char>> {
    Seq::new(rows.len(), |i: int| rows[i].cache_key@)
}

/// The keys of the cached images, in the order of the table.
pub open spec fn image_keys(rows: Seq<ImageCacheRow>) -> Seq<Seq<char>> {
    Seq::new(rows.len(), |i: int| rows[i].cache_key@)
}

/// The images whose file is named after their URL.
pub open spec fn named_after_url() -> spec_fn(ImageCacheRow) -> bool {
    |row: ImageCacheRow| row.local_path@ == file_name_of(row.url@)
}

impl WebCache {
    /// Takes the cache up again from the records that were written. Of the
    /// records with one key the first is kept.
    pub fn restore(rows: Vec<WebCacheRow>) -> (cache: WebCache)
        ensures
            cache.wf(),
            cache.rows@.len() == kept_places(web_keys(rows@)).len(),
            forall|j: int|
                0 <= j < cache.rows@.len() ==> cache.rows@[j] == rows@[#[trigger] kept_places(
                    web_keys(rows@),
                )[j]],
    {
        let mut cache = WebCache::new();
        let ghost none = Seq::<Seq<char>>::empty();
        let ghost all = rows@;
        assert(web_keys(cache.rows@) =~= merged(none, web_keys(all).take(0)));
        for row in it: rows
            invariant
                it.seq() == all,
                none == Seq::<Seq<char>>::empty(),
                web_keys(cache.rows@) == merged(none, web_keys(all).take(it.index() as int)),
                cache.rows@.len() == new_positions(
                    none,
                    web_keys(all).take(it.index() as int),
                ).len(),
                forall|j: int|
                    0 <= j < cache.rows@.len() ==> cache.rows@[j] == all[#[trigger] new_positions(
                        none,
                        web_keys(all).take(it.index() as int),
                    )[j]],
        {
            let ghost n = it.index() as int;
            let ghost before = cache.rows@;
            proof {
                lemma_merge_step(none, web_keys(all), n, web_keys(before));
            }
            let found = cache.find(&row.cache_key);
            proof {
                match found {
                    Some(i) => {
                        assert(web_keys(before)[i as int] == web_keys(all)[n]);
                    },
                    None => {
                        if web_keys(before).contains(web_keys(all)[n]) {
                            let i = choose|i: int|
                                0 <= i < web_keys(before).len() && web_keys(before)[i] == web_keys(
                                    all,
                                )[n];
                            assert(row_at(before, row.cache_key@, i));
                        }
                    },
                }
            }
            if found.is_none() {
                cache.rows.push(row);
                assert(web_keys(cache.rows@) =~= web_keys(before).push(web_keys(all)[n]));
            }
        }
        proof {
            assert(web_keys(all).take(all.len() as int) =~= web_keys(all));
            lemma_merged_distinct(none, web_keys(all));
            assert forall|a: int, b: int| 0 <= a < b < cache.rows@.len() implies (
            #[trigger] cache.rows@[a]).cache_key@ != (#[trigger] cache.rows@[b]).cache_key@ by {
                assert(web_keys(cache.rows@)[a] != web_keys(cache.rows@)[b]);
            }
        }
        cache
    }
}

impl ImageCache {
    /// Takes the cache up again from the records that were written. A record
    /// whose file is not named after its URL is left out, and of the others
    /// with one key the first is kept.
    pub fn restore(rows: Vec<ImageCacheRow>) -> (cache: ImageCache)
        ensures
            cache.wf(),
            cache.rows@.len() == kept_places(image_keys(rows@.filter(named_after_url()))).len(),
            forall|j: int|
                0 <= j < cache.rows@.len() ==> cache.rows@[j] == rows@.filter(
                    named_after_url(),
                )[#[trigger] kept_places(image_keys(rows@.filter(named_after_url())))[j]],
    {
        let ghost given = rows@;
        let mut good: Vec<ImageCacheRow> = Vec::new();
        proof {
            reveal(Seq::filter);
            assert(given.take(0).filter(named_after_url()) =~= good@);
        }
        for row in it: rows
            invariant
                it.seq() == given,
                good@ == given.take(it.index() as int).filter(named_after_url()),
        {
            proof {
                reveal(Seq::filter);
                assert(given.take(it.index() + 1).drop_last() =~= given.take(it.index() as int));
            }
            let name = local_file_name(row.url.as_str());
            if row.local_path == name {
                good.push(row);
            }
        }
        assert(given.take(given.len() as int) =~= given);
        let mut cache = ImageCache::new();
        let ghost none = Seq::<Seq<char>>::empty();
        let ghost all = good@;
        proof {
            all.filter_lemma(named_after_url());
            given.filter_lemma(named_after_url());
        }
        assert(image_keys(cache.rows@) =~= merged(none, image_keys(all).take(0)));
        for row in it: good
            invariant
                it.seq() == all,
                none == Seq::<Seq<char>>::empty(),
                forall|i: int|
                    0 <= i < all.len() ==> (#[trigger] all[i]).local_path@ == file_name_of(
                        all[i].url@,
                    ),
                forall|i: int|
                    0 <= i < cache.rows@.len() ==> (
                    #[trigger] cache.rows@[i]).local_path@ == file_name_of(cache.rows@[i].url@),
                image_keys(cache.rows@) == merged(none, image_keys(all).take(it.index() as int)),
                cache.rows@.len() == new_positions(
                    none,
                    image_keys(all).take(it.index() as int),
                ).len(),
                forall|j: int|
                    0 <= j < cache.rows@.len() ==> cache.rows@[j] == all[#[trigger] new_positions(
                        none,
                        image_keys(all).take(it.index() as int),
                    )[j]],
        {
            let ghost n = it.index() as int;
            let ghost before = cache.rows@;
            proof {
                lemma_merge_step(none, image_keys(all), n, image_keys(before));
                assert(all[n].local_path@ == file_name_of(all[n].url@));
            }
            let found = cache.find(&row.cache_key);
            proof {
                match found {
                    Some(i) => {
                        assert(image_keys(before)[i as int] == image_keys(all)[n]);
                    },
                    None => {
                        if image_keys(before).contains(image_keys(all)[n]) {
                            let i = choose|i: int|
                                0 <= i < image_keys(before).len() && image_keys(before)[i]
                                    == image_keys(all)[n];
                            assert(image_at(before, row.cache_key@, i));
                        }
                    },
                }
            }
            if found.is_none() {
                cache.rows.push(row);
                assert(image_keys(cache.rows@) =~= image_keys(before).push(image_keys(all)[n]));
            }
        }
        proof {
            assert(image_keys(all).take(all.len() as int) =~= image_keys(all));
            lemma_merged_distinct(none, image_keys(all));
            assert forall|a: int, b: int| 0 <= a < b < cache.rows@.len() implies (
            #[trigger] cache.rows@[a]).cache_key@ != (#[trigger] cache.rows@[b]).cache_key@ by {
                assert(image_keys(cache.rows@)[a] != image_keys(cache.rows@)[b]);
            }
        }
        cache
    }
}

} // verus!
