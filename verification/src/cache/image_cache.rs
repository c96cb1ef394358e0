//! Images kept locally under a cache key. The file of an image is named
//! after its URL, so that two keys for one URL share one file.

use crate::digest::{file_name_of, local_file_name};
use vstd::prelude::*;

verus! {

/// One cached image.
#[derive(Default, Debug, Clone, PartialEq)]
pub struct ImageCacheRow {
    pub cache_key: String,
    pub url: String,
    pub useful: String,
    pub extends_field_first: Option<String>,
    pub extends_field_second: Option<String>,
    pub extends_field_third: Option<String>,
    /// The name of the image's file in the directory of the cached images.
    pub local_path: String,
    /// When the image was last asked for.
    pub cache_time: i64,
    pub image_format: String,
    pub image_width: u32,
    pub image_height: u32,
}

/// The cached images. No key occurs twice, and every file is named after
/// its URL.
#[derive(Default, Debug, Clone, PartialEq)]
pub struct ImageCache {
    pub rows: Vec<ImageCacheRow>,
}

/// The image under `key` is at place `i`.
pub open spec fn image_at(rows: Seq<ImageCacheRow>, key: Seq<char>, i: int) -> bool {
    0 <= i < rows.len() && rows[i].cache_key@ == key
}

/// The table holds an image under `key`.
pub open spec fn has_image(rows: Seq<ImageCacheRow>, key: Seq<char>) -> bool {
    exists|i: int| image_at(rows, key, i)
}

/// No key occurs twice.
pub open spec fn distinct_image_keys(rows: Seq<ImageCacheRow>) -> bool {
    forall|i: int, j: int|
        0 <= i < j < rows.len() ==> (#[trigger] rows[i]).cache_key@ != (
        #[trigger] rows[j]).cache_key@
}

/// The images that were asked for at `cutoff` or later.
pub open spec fn image_not_older_than(cutoff: i64) -> spec_fn(ImageCacheRow) -> bool {
    |row: ImageCacheRow| row.cache_time >= cutoff
}

/// The images that were last asked for before `cutoff`.
pub open spec fn image_older_than(cutoff: i64) -> spec_fn(ImageCacheRow) -> bool {
    |row: ImageCacheRow| row.cache_time < cutoff
}

/// The images under another key than `key`.
pub open spec fn image_key_is_not(key: Seq<char>) -> spec_fn(ImageCacheRow) -> bool {
    |row: ImageCacheRow| row.cache_key@ != key
}

/// The image as it is once it was asked for at `now`.
pub open spec fn touched(row: ImageCacheRow, now: i64) -> ImageCacheRow {
    ImageCacheRow { cache_time: now, ..row }
}

/// The file names of a list of images, in the order of the list.
pub open spec fn local_paths(rows: Seq<ImageCacheRow>) -> Seq<Seq<char>> {
    Seq::new(rows.len(), |i: int| rows[i].local_path@)
}

/// The texts of a list of strings, in the order of the list.
pub open spec fn views(list: Seq<String>) -> Seq<Seq<char>> {
    Seq::new(list.len(), |i: int| list[i]@)
}

/// A filter leaves no key twice where none was twice, and leaves only what
/// was there.
pub proof fn lemma_filter_keeps_images_distinct(
    rows: Seq<ImageCacheRow>,
    keep: spec_fn(ImageCacheRow) -> bool,
)
    requires
        distinct_image_keys(rows),
    ensures
        distinct_image_keys(rows.filter(keep)),
        forall|i: int|
            0 <= i < rows.filter(keep).len() ==> rows.contains(#[trigger] rows.filter(keep)[i]),
    decreases rows.len(),
{
    reveal(Seq::filter);
    if rows.len() > 0 {
        let head = rows.drop_last();
        let last = rows.last();
        assert forall|i: int, j: int| 0 <= i < j < head.len() implies (
        #[trigger] head[i]).cache_key@ != (#[trigger] head[j]).cache_key@ by {
            assert(head[i] == rows[i] && head[j] == rows[j]);
        }
        lemma_filter_keeps_images_distinct(head, keep);
        let left = head.filter(keep);
        assert forall|i: int| 0 <= i < left.len() implies rows.contains(#[trigger] left[i])
            && left[i].cache_key@ != last.cache_key@ by {
            assert(head.contains(left[i]));
            let j = choose|j: int| 0 <= j < head.len() && head[j] == left[i];
            assert(rows[j] == left[i]);
            assert(rows[rows.len() - 1] == last);
        }
        if keep(last) {
            assert(rows[rows.len() - 1] == last);
            assert(rows.filter(keep) =~= left.push(last));
        }
    }
}

impl ImageCache {
    /// No key occurs twice, and every file is named after its URL.
    pub open spec fn wf(&self) -> bool {
        &&& distinct_image_keys(self.rows@)
        &&& forall|i: int|
            0 <= i < self.rows@.len() ==> (#[trigger] self.rows@[i]).local_path@ == file_name_of(
                self.rows@[i].url@,
            )
    }

    /// A cache that holds nothing.
    pub fn new() -> (cache: ImageCache)
        ensures
            cache.wf(),
            cache.rows@.len() == 0,
    {
        ImageCache { rows: Vec::new() }
    }

    /// The place of the image under `cache_key`.
    pub fn find(&self, cache_key: &String) -> (found: Option<usize>)
        ensures
            match found {
                Some(i) => image_at(self.rows@, cache_key@, i as int) && forall|j: int|
                    0 <= j < i ==> !image_at(self.rows@, cache_key@, j),
                None => !has_image(self.rows@, cache_key@),
            },
    {
        let mut i: usize = 0;
        while i < self.rows.len()
            invariant
                i <= self.rows@.len(),
                forall|j: int| 0 <= j < i ==> !image_at(self.rows@, cache_key@, j),
            decreases self.rows@.len() - i,
        {
            if self.rows[i].cache_key == *cache_key {
                return Some(i);
            }
            i += 1;
        }
        None
    }

    /// The image under `cache_key`, if there is one.
    pub fn load_image_by_cache_key(&self, cache_key: &String) -> (found: Option<&ImageCacheRow>)
        ensures
            match found {
                Some(row) => exists|i: int|
                    {
                        &&& #[trigger] image_at(self.rows@, cache_key@, i)
                        &&& *row == self.rows@[i]
                        &&& forall|j: int| 0 <= j < i ==> !image_at(self.rows@, cache_key@, j)
                    },
                None => !has_image(self.rows@, cache_key@),
            },
    {
        match self.find(cache_key) {
            Some(i) => {
                assert(image_at(self.rows@, cache_key@, i as int));
                Some(&self.rows[i])
            },
            None => None,
        }
    }

    /// Notes that the image under `cache_key` was asked for at `now`. Nothing
    /// changes where there is no such image.
    pub fn update_cache_time(&mut self, cache_key: &String, now: i64)
        requires
            old(self).wf(),
        ensures
            final(self).wf(),
            final(self).rows@.len() == old(self).rows@.len(),
            forall|i: int|
                0 <= i < old(self).rows@.len() ==> #[trigger] final(self).rows@[i] == if old(
                    self,
                ).rows@[i].cache_key@ == cache_key@ {
                    touched(old(self).rows@[i], now)
                } else {
                    old(self).rows@[i]
                },
    {
        match self.find(cache_key) {
            Some(i) => {
                self.rows[i].cache_time = now;
                proof {
                    assert forall|j: int| 0 <= j < old(self).rows@.len() && j != i implies old(
                        self,
                    ).rows@[j].cache_key@ != cache_key@ by {
                        if j < i {
                            assert(old(self).rows@[j].cache_key@ != old(
                                self,
                            ).rows@[i as int].cache_key@);
                        } else {
                            assert(old(self).rows@[i as int].cache_key@ != old(
                                self,
                            ).rows@[j].cache_key@);
                        }
                    }
                    assert forall|a: int, b: int| 0 <= a < b < self.rows@.len() implies (
                    #[trigger] self.rows@[a]).cache_key@ != (
                    #[trigger] self.rows@[b]).cache_key@ by {
                        assert(old(self).rows@[a].cache_key@ != old(self).rows@[b].cache_key@);
                    }
                    assert forall|j: int| 0 <= j < self.rows@.len() implies (
                    #[trigger] self.rows@[j]).local_path@ == file_name_of(self.rows@[j].url@) by {
                        assert(old(self).rows@[j].local_path@ == file_name_of(
                            old(self).rows@[j].url@,
                        ));
                    }
                }
            },
            None => {
                assert forall|j: int| 0 <= j < old(self).rows@.len() implies old(
                    self,
                ).rows@[j].cache_key@ != cache_key@ by {
                    assert(!image_at(old(self).rows@, cache_key@, j));
                }
            },
        }
    }

    /// Records an image. Says whether it was recorded: it is not where the
    /// cache holds an image under the same key, or where the file of the
    /// image is not named after its URL, and then nothing changes.
    pub fn insert(&mut self, model: ImageCacheRow) -> (inserted: bool)
        requires
            old(self).wf(),
        ensures
            final(self).wf(),
            inserted == (!has_image(old(self).rows@, model.cache_key@) && model.local_path@
                == file_name_of(model.url@)),
            final(self).rows@ == if inserted {
                old(self).rows@.push(model)
            } else {
                old(self).rows@
            },
    {
        if self.find(&model.cache_key).is_some() {
            return false;
        }
        let name = local_file_name(model.url.as_str());
        if !(model.local_path == name) {
            return false;
        }
        self.rows.push(model);
        proof {
            assert forall|a: int, b: int| 0 <= a < b < self.rows@.len() implies (
            #[trigger] self.rows@[a]).cache_key@ != (#[trigger] self.rows@[b]).cache_key@ by {
                if b == self.rows@.len() - 1 {
                    assert(!image_at(old(self).rows@, model.cache_key@, a));
                } else {
                    assert(old(self).rows@[a].cache_key@ != old(self).rows@[b].cache_key@);
                }
            }
            assert forall|j: int| 0 <= j < self.rows@.len() implies (
            #[trigger] self.rows@[j]).local_path@ == file_name_of(self.rows@[j].url@) by {
                if j < old(self).rows@.len() {
                    assert(old(self).rows@[j].local_path@ == file_name_of(
                        old(self).rows@[j].url@,
                    ));
                }
            }
        }
        true
    }

    /// Drops the image under `cache_key`, if there is one.
    pub fn delete_by_cache_key(&mut self, cache_key: &String)
        requires
            old(self).wf(),
        ensures
            final(self).wf(),
            final(self).rows@ == old(self).rows@.filter(image_key_is_not(cache_key@)),
    {
        let ghost pre = self.rows@;
        let mut rows: Vec<ImageCacheRow> = Vec::new();
        core::mem::swap(&mut rows, &mut self.rows);
        for row in it: rows
            invariant
                it.seq() == pre,
                self.rows@ == pre.take(it.index() as int).filter(image_key_is_not(cache_key@)),
        {
            proof {
                reveal(Seq::filter);
                assert(pre.take(it.index() + 1).drop_last() =~= pre.take(it.index() as int));
            }
            if !(row.cache_key == *cache_key) {
                self.rows.push(row);
            }
        }
        proof {
            assert(pre.take(pre.len() as int) =~= pre);
            lemma_filter_keeps_images_distinct(pre, image_key_is_not(cache_key@));
        }
    }
}

} // verus!
