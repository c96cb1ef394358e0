//! Dropping what the caches hold for too long: the old images in bounded
//! batches, with the files that nothing needs any more, and the old
//! responses.

use crate::cache::image_cache::{
    distinct_image_keys, image_key_is_not, image_not_older_than, image_older_than,
    lemma_filter_keeps_images_distinct, local_paths, views, ImageCache, ImageCacheRow,
};
use crate::cache::web_cache::{not_older_than, WebCache};
use vstd::prelude::*;

verus! {

/// How many images are dropped at a time.
pub const CLEAN_BATCH: usize = 100;

/// Some image that was asked for at `cutoff` or later lies in the file
/// `local_path`.
pub open spec fn file_in_use(rows: Seq<ImageCacheRow>, cutoff: i64, local_path: Seq<char>) -> bool {
    exists|i: int|
        0 <= i < rows.len() && (#[trigger] rows[i]).cache_time >= cutoff && rows[i].local_path@
            == local_path
}

/// The images whose file no image needs that was asked for at `cutoff` or
/// later.
pub open spec fn file_is_stale(rows: Seq<ImageCacheRow>, cutoff: i64) -> spec_fn(
    ImageCacheRow,
) -> bool {
    |row: ImageCacheRow| !file_in_use(rows, cutoff, row.local_path@)
}

/// The files that can go once the images older than `cutoff` are dropped: the
/// files of those images, in the order of the table, but for the files in
/// which an image lies that stays.
pub open spec fn stale_files(rows: Seq<ImageCacheRow>, cutoff: i64) -> Seq<Seq<char>> {
    local_paths(rows.filter(image_older_than(cutoff)).filter(file_is_stale(rows, cutoff)))
}

/// The time before which the caches are cleaned: `older_than` before `now`,
/// and the earliest or the latest time where that is out of range.
pub open spec fn cutoff_of(now: i64, older_than: i64) -> i64 {
    if now - older_than < i64::MIN {
        i64::MIN
    } else if now - older_than > i64::MAX {
        i64::MAX
    } else {
        (now - older_than) as i64
    }
}

/// The time before which the caches are cleaned when everything is to go
/// that is older than `older_than` at `now`.
pub fn cache_cutoff(now: i64, older_than: i64) -> (cutoff: i64)
    ensures
        cutoff == cutoff_of(now, older_than),
{
    let wide: i128 = now as i128 - older_than as i128;
    if wide < i64::MIN as i128 {
        i64::MIN
    } else if wide > i64::MAX as i128 {
        i64::MAX
    } else {
        wide as i64
    }
}

/// Filtering twice gives the same whichever filter comes first.
pub proof fn lemma_filters_commute<T>(s: Seq<T>, p: spec_fn(T) -> bool, q: spec_fn(T) -> bool)
    ensures
        s.filter(p).filter(q) == s.filter(q).filter(p),
    decreases s.len(),
{
    reveal(Seq::filter);
    if s.len() > 0 {
        let d = s.drop_last();
        let last = s.last();
        lemma_filters_commute(d, p, q);
        if p(last) {
            assert(d.filter(p).push(last).drop_last() =~= d.filter(p));
        }
        if q(last) {
            assert(d.filter(q).push(last).drop_last() =~= d.filter(q));
        }
    } else {
        assert(s.filter(p) =~= s);
        assert(s.filter(q) =~= s);
    }
}

/// A filter that every item passes leaves the sequence as it is.
pub proof fn lemma_filter_all<T>(s: Seq<T>, p: spec_fn(T) -> bool)
    requires
        forall|i: int| 0 <= i < s.len() ==> p(#[trigger] s[i]),
    ensures
        s.filter(p) == s,
    decreases s.len(),
{
    reveal(Seq::filter);
    if s.len() > 0 {
        let d = s.drop_last();
        assert forall|i: int| 0 <= i < d.len() implies p(#[trigger] d[i]) by {
            assert(d[i] == s[i]);
        }
        lemma_filter_all(d, p);
        assert(p(s[s.len() - 1]));
        assert(d.push(s.last()) =~= s);
    } else {
        assert(s.filter(p) =~= s);
    }
}

/// In a table without a repeated key, dropping the key of the first image
/// drops the first image and nothing else.
pub proof fn lemma_drop_first_key(t: Seq<ImageCacheRow>)
    requires
        distinct_image_keys(t),
        t.len() > 0,
    ensures
        t.filter(image_key_is_not(t[0].cache_key@)) == t.skip(1),
    decreases t.len(),
{
    reveal(Seq::filter);
    let keep = image_key_is_not(t[0].cache_key@);
    let d = t.drop_last();
    if t.len() == 1 {
        assert(d.filter(keep) =~= Seq::<ImageCacheRow>::empty());
        assert(t.skip(1) =~= Seq::<ImageCacheRow>::empty());
    } else {
        assert forall|i: int, j: int| 0 <= i < j < d.len() implies (#[trigger] d[i]).cache_key@ != (
        #[trigger] d[j]).cache_key@ by {
            assert(d[i] == t[i] && d[j] == t[j]);
        }
        lemma_drop_first_key(d);
        assert(d[0] == t[0]);
        assert(t[0].cache_key@ != t[t.len() - 1].cache_key@);
        assert(d.skip(1).push(t.last()) =~= t.skip(1));
    }
}

/// Dropping the first of the old images by its key takes it from the old
/// ones and leaves the others as they are.
pub proof fn lemma_drop_oldest(rows: Seq<ImageCacheRow>, cutoff: i64)
    requires
        distinct_image_keys(rows),
        rows.filter(image_older_than(cutoff)).len() > 0,
    ensures
        rows.filter(image_key_is_not(rows.filter(image_older_than(cutoff))[0].cache_key@)).filter(
            image_older_than(cutoff),
        ) == rows.filter(image_older_than(cutoff)).skip(1),
        rows.filter(image_key_is_not(rows.filter(image_older_than(cutoff))[0].cache_key@)).filter(
            image_not_older_than(cutoff),
        ) == rows.filter(image_not_older_than(cutoff)),
{
    let older = image_older_than(cutoff);
    let newer = image_not_older_than(cutoff);
    let old_rows = rows.filter(older);
    let key = old_rows[0].cache_key@;
    let keep = image_key_is_not(key);
    lemma_filter_keeps_images_distinct(rows, older);
    lemma_filters_commute(rows, keep, older);
    lemma_drop_first_key(old_rows);
    lemma_filters_commute(rows, keep, newer);
    let new_rows = rows.filter(newer);
    lemma_filter_keeps_images_distinct(rows, newer);
    rows.filter_lemma(older);
    rows.filter_lemma(newer);
    assert forall|i: int| 0 <= i < new_rows.len() implies keep(#[trigger] new_rows[i]) by {
        if new_rows[i].cache_key@ == key {
            assert(rows.contains(new_rows[i]));
            assert(rows.contains(old_rows[0]));
            let a = choose|a: int| 0 <= a < rows.len() && rows[a] == new_rows[i];
            let b = choose|b: int| 0 <= b < rows.len() && rows[b] == old_rows[0];
            if a < b {
                assert(rows[a].cache_key@ != rows[b].cache_key@);
            } else if b < a {
                assert(rows[b].cache_key@ != rows[a].cache_key@);
            }
            assert(newer(new_rows[i]));
            assert(older(old_rows[0]));
        }
    }
    lemma_filter_all(new_rows, keep);
}

impl ImageCacheRow {
    /// A copy of the record.
    pub fn duplicate(&self) -> (copy: ImageCacheRow)
        ensures
            copy == *self,
    {
        ImageCacheRow {
            cache_key: self.cache_key.clone(),
            url: self.url.clone(),
            useful: self.useful.clone(),
            extends_field_first: match &self.extends_field_first {
                Some(s) => Some(s.clone()),
                None => None,
            },
            extends_field_second: match &self.extends_field_second {
                Some(s) => Some(s.clone()),
                None => None,
            },
            extends_field_third: match &self.extends_field_third {
                Some(s) => Some(s.clone()),
                None => None,
            },
            local_path: self.local_path.clone(),
            cache_time: self.cache_time,
            image_format: self.image_format.clone(),
            image_width: self.image_width,
            image_height: self.image_height,
        }
    }
}

impl ImageCache {
    /// Up to a hundred of the images that were last asked for before
    /// `cutoff`: the first of them in the order of the table.
    pub fn take_100_cache(&self, cutoff: i64) -> (batch: Vec<ImageCacheRow>)
        ensures
            batch@.len() <= CLEAN_BATCH,
            batch@.len() <= self.rows@.filter(image_older_than(cutoff)).len(),
            batch@ == self.rows@.filter(image_older_than(cutoff)).take(batch@.len() as int),
            batch@.len() < CLEAN_BATCH ==> batch@ == self.rows@.filter(image_older_than(cutoff)),
    {
        let ghost older = image_older_than(cutoff);
        let mut batch: Vec<ImageCacheRow> = Vec::new();
        let mut i: usize = 0;
        assert(self.rows@.take(0).filter(older) =~= Seq::<ImageCacheRow>::empty()) by {
            reveal(Seq::filter);
        }
        while i < self.rows.len() && batch.len() < CLEAN_BATCH
            invariant
                i <= self.rows@.len(),
                older == image_older_than(cutoff),
                batch@.len() <= CLEAN_BATCH,
                batch@ == self.rows@.take(i as int).filter(older),
            decreases self.rows@.len() - i,
        {
            proof {
                reveal(Seq::filter);
                assert(self.rows@.take(i + 1).drop_last() =~= self.rows@.take(i as int));
            }
            if self.rows[i].cache_time < cutoff {
                batch.push(self.rows[i].duplicate());
            }
            i += 1;
        }
        proof {
            let head = self.rows@.take(i as int);
            let tail = self.rows@.skip(i as int);
            assert(head + tail =~= self.rows@);
            Seq::filter_distributes_over_add(head, tail, older);
            assert(self.rows@.filter(older).take(batch@.len() as int) =~= batch@);
            if batch@.len() < CLEAN_BATCH {
                assert(head =~= self.rows@);
            }
        }
        batch
    }

    /// Whether an image that was asked for at `cutoff` or later lies in the
    /// file `local_path`.
    pub fn file_is_needed(&self, cutoff: i64, local_path: &String) -> (needed: bool)
        ensures
            needed == file_in_use(self.rows@, cutoff, local_path@),
    {
        let mut i: usize = 0;
        while i < self.rows.len()
            invariant
                i <= self.rows@.len(),
                forall|j: int|
                    0 <= j < i ==> !((#[trigger] self.rows@[j]).cache_time >= cutoff
                        && self.rows@[j].local_path@ == local_path@),
            decreases self.rows@.len() - i,
        {
            if self.rows[i].cache_time >= cutoff && self.rows[i].local_path == *local_path {
                return true;
            }
            i += 1;
        }
        false
    }

    /// Drops every image that was last asked for before `cutoff`, a hundred
    /// at a time, and leaves every other image as it is. Returns the names of
    /// the files that can be removed: those of the images dropped, in the
    /// order of the table, but for a file in which an image lies that stays.
    pub fn clean_image(&mut self, cutoff: i64) -> (files: Vec<String>)
        requires
            old(self).wf(),
        ensures
            final(self).wf(),
            final(self).rows@ == old(self).rows@.filter(image_not_older_than(cutoff)),
            views(files@) == stale_files(old(self).rows@, cutoff),
    {
        let ghost pre = self.rows@;
        let ghost older = image_older_than(cutoff);
        let ghost newer = image_not_older_than(cutoff);
        let ghost stale = file_is_stale(pre, cutoff);
        let ghost gone = pre.filter(older);
        let ghost mut done: int = 0;
        let mut files: Vec<String> = Vec::new();
        proof {
            reveal(Seq::filter);
            assert(gone.skip(0) =~= gone);
            assert(gone.take(0).filter(stale) =~= Seq::<ImageCacheRow>::empty());
            assert(views(files@) =~= local_paths(gone.take(0).filter(stale)));
        }
        loop
            invariant
                self.wf(),
                older == image_older_than(cutoff),
                newer == image_not_older_than(cutoff),
                stale == file_is_stale(pre, cutoff),
                gone == pre.filter(older),
                0 <= done <= gone.len(),
                self.rows@.filter(newer) == pre.filter(newer),
                self.rows@.filter(older) == gone.skip(done),
                views(files@) == local_paths(gone.take(done).filter(stale)),
            ensures
                self.wf(),
                self.rows@ == pre.filter(newer),
                views(files@) == local_paths(gone.filter(stale)),
            decreases gone.len() - done,
        {
            let batch = self.take_100_cache(cutoff);
            if batch.len() == 0 {
                proof {
                    assert(gone.skip(done).len() == 0);
                    assert(gone.take(done) =~= gone);
                    self.rows@.filter_lemma(older);
                    assert forall|i: int| 0 <= i < self.rows@.len() implies newer(
                        #[trigger] self.rows@[i],
                    ) by {
                        if older(self.rows@[i]) {
                            assert(self.rows@.filter(older).contains(self.rows@[i]));
                        }
                    }
                    lemma_filter_all(self.rows@, newer);
                }
                break;
            }
            let ghost start = done;
            let ghost taken = batch@;
            for row in it: batch
                invariant
                    it.seq() == taken,
                    self.wf(),
                    older == image_older_than(cutoff),
                    newer == image_not_older_than(cutoff),
                    stale == file_is_stale(pre, cutoff),
                    gone == pre.filter(older),
                    0 <= start,
                    start + taken.len() <= gone.len(),
                    taken == gone.skip(start).take(taken.len() as int),
                    done == start + it.index(),
                    self.rows@.filter(newer) == pre.filter(newer),
                    self.rows@.filter(older) == gone.skip(done),
                    views(files@) == local_paths(gone.take(done).filter(stale)),
            {
                let ghost before = self.rows@;
                let ghost listed = files@;
                proof {
                    assert(row == gone[done]) by {
                        assert(taken[it.index() as int] == gone.skip(start)[it.index() as int]);
                    }
                    assert(before.filter(older)[0] == gone[done]);
                    lemma_drop_oldest(before, cutoff);
                    assert(gone.skip(done).skip(1) =~= gone.skip(done + 1));
                }
                self.delete_by_cache_key(&row.cache_key);
                let needed = self.file_is_needed(cutoff, &row.local_path);
                proof {
                    lemma_same_files_in_use(self.rows@, pre, cutoff, row.local_path@);
                    reveal(Seq::filter);
                    assert(gone.take(done + 1).drop_last() =~= gone.take(done));
                    assert(gone.take(done + 1).last() == row);
                    assert(stale(row) == !needed);
                }
                if !needed {
                    files.push(row.local_path);
                    proof {
                        assert(views(files@) =~= views(listed).push(row.local_path@));
                        assert(local_paths(gone.take(done).filter(stale).push(row)) =~= local_paths(
                            gone.take(done).filter(stale),
                        ).push(row.local_path@));
                    }
                }
                proof {
                    done = done + 1;
                }
            }
        }
        files
    }
}

/// Two tables that hold the same images from `cutoff` on need the same files.
pub proof fn lemma_same_files_in_use(
    a: Seq<ImageCacheRow>,
    b: Seq<ImageCacheRow>,
    cutoff: i64,
    local_path: Seq<char>,
)
    requires
        a.filter(image_not_older_than(cutoff)) == b.filter(image_not_older_than(cutoff)),
    ensures
        file_in_use(a, cutoff, local_path) == file_in_use(b, cutoff, local_path),
{
    let newer = image_not_older_than(cutoff);
    a.filter_lemma(newer);
    b.filter_lemma(newer);
    if file_in_use(a, cutoff, local_path) {
        let i = choose|i: int|
            0 <= i < a.len() && (#[trigger] a[i]).cache_time >= cutoff && a[i].local_path@
                == local_path;
        assert(newer(a[i]));
        assert(a.filter(newer).contains(a[i]));
        b.lemma_filter_contains_rev(newer, a[i]);
        let j = choose|j: int| 0 <= j < b.len() && b[j] == a[i];
        assert(b[j].cache_time >= cutoff);
    }
    if file_in_use(b, cutoff, local_path) {
        let i = choose|i: int|
            0 <= i < b.len() && (#[trigger] b[i]).cache_time >= cutoff && b[i].local_path@
                == local_path;
        assert(newer(b[i]));
        assert(b.filter(newer).contains(b[i]));
        a.lemma_filter_contains_rev(newer, b[i]);
        let j = choose|j: int| 0 <= j < a.len() && a[j] == b[i];
        assert(a[j].cache_time >= cutoff);
    }
}

/// Drops from both caches what is older than `cutoff`: the responses that
/// were written before it and the images that were last asked for before it.
/// Returns the names of the image files that can be removed.
pub fn clean_cache(web: &mut WebCache, images: &mut ImageCache, cutoff: i64) -> (files: Vec<String>)
    requires
        old(web).wf(),
        old(images).wf(),
    ensures
        final(web).wf(),
        final(images).wf(),
        final(web).rows@ == old(web).rows@.filter(not_older_than(cutoff)),
        final(images).rows@ == old(images).rows@.filter(image_not_older_than(cutoff)),
        views(files@) == stale_files(old(images).rows@, cutoff),
{
    web.clean_web_cache_by_time(cutoff);
    images.clean_image(cutoff)
}

/// What a cleaning leaves is exactly what was there and passes the
/// filter: every record that is not older than the cutoff stays as it was,
/// and no record stays that is older.
pub proof fn lemma_cleaning_is_exact<T>(rows: Seq<T>, keep: spec_fn(T) -> bool, row: T)
    ensures
        rows.filter(keep).contains(row) <==> rows.contains(row) && keep(row),
{
    rows.filter_lemma(keep);
    if rows.filter(keep).contains(row) {
        rows.lemma_filter_contains_rev(keep, row);
    }
    if rows.contains(row) && keep(row) {
        let i = choose|i: int| 0 <= i < rows.len() && rows[i] == row;
        assert(rows.filter(keep).contains(rows[i]));
    }
}

/// Every file that a cleaning names for removal is the file of an
/// image that was dropped, and no image that stays lies in it.
pub proof fn lemma_removed_files_are_not_needed(rows: Seq<ImageCacheRow>, cutoff: i64, k: int)
    requires
        0 <= k < stale_files(rows, cutoff).len(),
    ensures
        exists|i: int|
            0 <= i < rows.len() && (#[trigger] rows[i]).cache_time < cutoff && rows[i].local_path@
                == stale_files(rows, cutoff)[k],
        !file_in_use(
            rows.filter(image_not_older_than(cutoff)),
            cutoff,
            stale_files(rows, cutoff)[k],
        ),
{
    let older = image_older_than(cutoff);
    let stale = file_is_stale(rows, cutoff);
    let dropped = rows.filter(older);
    let listed = dropped.filter(stale);
    dropped.filter_lemma(stale);
    rows.filter_lemma(older);
    let row = listed[k];
    assert(stale(row));
    dropped.lemma_filter_contains_rev(stale, row);
    rows.lemma_filter_contains_rev(older, row);
    let i = choose|i: int| 0 <= i < rows.len() && rows[i] == row;
    assert(older(rows[i]));
    let newer = image_not_older_than(cutoff);
    rows.filter_lemma(newer);
    assert forall|x: int| 0 <= x < rows.filter(newer).len() implies newer(
        #[trigger] rows.filter(newer)[x],
    ) by {}
    lemma_filter_all(rows.filter(newer), newer);
    lemma_same_files_in_use(rows.filter(newer), rows, cutoff, row.local_path@);
}

} // verus!
