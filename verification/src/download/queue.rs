//! Task ingestion: queueing a comic, removing one, and queueing failed
//! fetches again.

use crate::count::{
    count, lemma_count_equal, lemma_count_filter, lemma_count_same, lemma_count_tail,
    lemma_count_zero,
};
use crate::table::{
    distinct, lemma_filter_keeps_distinct, lemma_merge_step, lemma_merged_distinct,
    lemma_new_positions_are_new, merged, new_positions,
};
use crate::download::rows::{
    DownloadComic, DownloadComicChapter, DownloadComicGroup, DownloadComicPage,
};
use crate::download::store::{
    chapter_aggregate, chapter_in_step, chapter_keys, comic_aggregate, comic_in_step, comic_keys,
    group_keys, page_done_in, page_done_of, page_in, page_keys, page_of, page_open_in,
    page_open_of, TaskStore,
};
use crate::download::work::{chapters_same_but_progress, comics_same_but_progress};
use crate::status::{AggregateStatus, DownloadStatus};
use crate::udto::{
    UiQueryDownloadComic, UiQueryDownloadComicChapter, UiQueryDownloadComicGroup,
    UiQueryDownloadComicPage,
};
use vstd::prelude::*;

verus! {

/// The page as it is once failed fetches were queued again.
pub open spec fn page_requeued(p: DownloadComicPage) -> DownloadComicPage {
    if p.download_status == DownloadStatus::Fail {
        DownloadComicPage { download_status: DownloadStatus::Waiting, ..p }
    } else {
        p
    }
}

/// The comic as it is once failed fetches were queued again: its cover
/// waits if it had failed, and while any page is missing the comic is in
/// progress.
pub open spec fn comic_requeued(c: DownloadComic) -> DownloadComic {
    DownloadComic {
        cover_download_status: if c.cover_download_status == DownloadStatus::Fail {
            DownloadStatus::Waiting
        } else {
            c.cover_download_status
        },
        download_status: if c.download_status == AggregateStatus::Complete {
            AggregateStatus::Complete
        } else {
            AggregateStatus::InProgress
        },
        ..c
    }
}

/// The chapter as it is once failed fetches were queued again.
pub open spec fn chapter_requeued(c: DownloadComicChapter) -> DownloadComicChapter {
    DownloadComicChapter {
        download_status: if c.download_status == AggregateStatus::Complete {
            AggregateStatus::Complete
        } else {
            AggregateStatus::InProgress
        },
        ..c
    }
}

/// What queueing the failed fetches again does: every failed page and cover
/// waits, everything else is as it was, and the aggregates follow.
pub open spec fn reset_rel(pre: TaskStore, post: TaskStore) -> bool {
    &&& post.pause == pre.pause
    &&& post.groups@ == pre.groups@
    &&& post.pages@ == pre.pages@.map_values(|p: DownloadComicPage| page_requeued(p))
    &&& post.comics@ == pre.comics@.map_values(|c: DownloadComic| comic_requeued(c))
    &&& post.chapters@ == pre.chapters@.map_values(|c: DownloadComicChapter| chapter_requeued(c))
}

/// Once the failed pages wait again, a comic has the pages and the fetched
/// pages it had, and it is complete if it was, else in progress.
pub proof fn lemma_requeued_comic(pre: Seq<DownloadComicPage>, comic: Seq<char>)
    ensures
        count(pre.map_values(|p: DownloadComicPage| page_requeued(p)), page_of(comic)) == count(
            pre,
            page_of(comic),
        ),
        count(pre.map_values(|p: DownloadComicPage| page_requeued(p)), page_done_of(comic))
            == count(pre, page_done_of(comic)),
        comic_aggregate(pre.map_values(|p: DownloadComicPage| page_requeued(p)), comic) == if count(
            pre,
            page_done_of(comic),
        ) == count(pre, page_of(comic)) {
            AggregateStatus::Complete
        } else {
            AggregateStatus::InProgress
        },
{
    let post = pre.map_values(|p: DownloadComicPage| page_requeued(p));
    lemma_count_same(pre, post, page_of(comic), page_of(comic));
    lemma_count_same(pre, post, page_done_of(comic), page_done_of(comic));
    lemma_count_zero(post, page_open_of(comic));
    lemma_count_equal(post, page_done_of(comic), page_of(comic));
    if count(post, page_open_of(comic)) == 0 {
        assert forall|i: int|
            0 <= i < post.len() && page_of(comic)(#[trigger] post[i]) implies page_done_of(comic)(
            post[i],
        ) by {
            assert(!page_open_of(comic)(post[i]));
        }
    }
}

/// Once the failed pages wait again, a chapter is complete if it was, else in
/// progress.
pub proof fn lemma_requeued_chapter(
    pre: Seq<DownloadComicPage>,
    comic: Seq<char>,
    chapter: Seq<char>,
)
    ensures
        chapter_aggregate(pre.map_values(|p: DownloadComicPage| page_requeued(p)), comic, chapter)
            == if chapter_aggregate(pre, comic, chapter) == AggregateStatus::Complete {
            AggregateStatus::Complete
        } else {
            AggregateStatus::InProgress
        },
{
    let post = pre.map_values(|p: DownloadComicPage| page_requeued(p));
    lemma_count_same(pre, post, page_in(comic, chapter), page_in(comic, chapter));
    lemma_count_same(pre, post, page_done_in(comic, chapter), page_done_in(comic, chapter));
    lemma_count_zero(post, page_open_in(comic, chapter));
    lemma_count_equal(post, page_done_in(comic, chapter), page_in(comic, chapter));
    if count(post, page_open_in(comic, chapter)) == 0 {
        assert forall|i: int|
            0 <= i < post.len() && page_in(comic, chapter)(#[trigger] post[i]) implies page_done_in(
            comic,
            chapter,
        )(post[i]) by {
            assert(!page_open_in(comic, chapter)(post[i]));
        }
    }
}

/// A comic as it is handed in for download: its metadata with its groups and
/// chapters, the cache key of its cover, and the pages of its chapters.
#[derive(Default, Debug, Clone, PartialEq)]
pub struct ComicSnapshot {
    pub comic: UiQueryDownloadComic,
    pub cover_cache_key: String,
    pub pages: Vec<UiQueryDownloadComicPage>,
}

/// The record of a comic that was just queued: the metadata of the
/// snapshot, a cover that waits, and no page yet. `blank` stands for the
/// format, which is not known yet.
pub open spec fn fresh_comic(
    d: UiQueryDownloadComic,
    cover_cache_key: String,
    blank: String,
) -> DownloadComic {
    DownloadComic {
        path_word: d.path_word,
        alias: d.alias,
        author: d.author,
        b_404: d.b_404,
        b_hidden: d.b_hidden,
        ban: d.ban,
        brief: d.brief,
        close_comment: d.close_comment,
        close_roast: d.close_roast,
        cover: d.cover,
        datetime_updated: d.datetime_updated,
        females: d.females,
        free_type: d.free_type,
        img_type: d.img_type,
        males: d.males,
        name: d.name,
        popular: d.popular,
        reclass: d.reclass,
        region: d.region,
        restrict: d.restrict1,
        seo_baidu: d.seo_baidu,
        status: d.status,
        theme: d.theme,
        uuid: d.uuid,
        cover_cache_key,
        cover_download_status: DownloadStatus::Waiting,
        cover_format: blank,
        cover_width: 0,
        cover_height: 0,
        image_count: 0,
        image_count_success: 0,
        download_status: AggregateStatus::Complete,
    }
}

/// The record of a group that was just queued under `comic`.
pub open spec fn fresh_group(comic: String, g: UiQueryDownloadComicGroup) -> DownloadComicGroup {
    DownloadComicGroup {
        comic_path_word: comic,
        group_path_word: g.group_path_word,
        count: g.count,
        name: g.name,
        group_rank: g.group_rank,
    }
}

/// The record of a chapter that was just queued under `comic`.
pub open spec fn fresh_chapter(
    comic: String,
    c: UiQueryDownloadComicChapter,
) -> DownloadComicChapter {
    DownloadComicChapter {
        comic_path_word: comic,
        uuid: c.uuid,
        comic_id: c.comic_id,
        count: c.count,
        datetime_created: c.datetime_created,
        group_path_word: c.group_path_word,
        img_type: c.img_type,
        index: c.index,
        is_long: c.is_long,
        name: c.name,
        news: c.news,
        next: c.next,
        ordered: c.ordered,
        prev: c.prev,
        size: c.size,
        type_field: c.type_field,
        download_status: AggregateStatus::Complete,
    }
}

/// The record of a page that was just queued under `comic`: it waits, and
/// nothing is known of the image yet. `blank` stands for the format.
pub open spec fn fresh_page(
    comic: String,
    p: UiQueryDownloadComicPage,
    blank: String,
) -> DownloadComicPage {
    DownloadComicPage {
        comic_path_word: comic,
        chapter_uuid: p.chapter_uuid,
        image_index: p.image_index,
        url: p.url,
        cache_key: p.cache_key,
        download_status: DownloadStatus::Waiting,
        width: 0,
        height: 0,
        format: blank,
    }
}

/// The keys under which the groups of a snapshot are recorded.
pub open spec fn incoming_group_keys(
    comic: Seq<char>,
    groups: Seq<UiQueryDownloadComicGroup>,
) -> Seq<(Seq<char>, Seq<char>)> {
    Seq::new(groups.len(), |i: int| (comic, groups[i].group_path_word@))
}

/// The keys under which the chapters of a snapshot are recorded.
pub open spec fn incoming_chapter_keys(
    chapters: Seq<UiQueryDownloadComicChapter>,
) -> Seq<Seq<char>> {
    Seq::new(chapters.len(), |i: int| chapters[i].uuid@)
}

/// The keys under which the pages of a snapshot are recorded.
pub open spec fn incoming_page_keys(pages: Seq<UiQueryDownloadComicPage>) -> Seq<(Seq<char>, i32)> {
    Seq::new(pages.len(), |i: int| (pages[i].chapter_uuid@, pages[i].image_index))
}

/// The comic's record is added at the end if the table has none for it;
/// records that are there keep everything but their derived fields.
pub open spec fn comic_appended(
    pre: Seq<DownloadComic>,
    d: UiQueryDownloadComic,
    cover_cache_key: String,
    post: Seq<DownloadComic>,
) -> bool {
    if comic_keys(pre).contains(d.path_word@) {
        comics_same_but_progress(pre, post)
    } else {
        &&& post.len() == pre.len() + 1
        &&& forall|i: int| 0 <= i < pre.len() ==> post[i] == pre[i]
        &&& post.last().cover_format@ == Seq::<char>::empty()
        &&& fresh_comic(d, cover_cache_key, post.last().cover_format).same_but_progress(post.last())
    }
}

/// The groups of the snapshot whose keys are new are added at the end, in
/// their order; the records that were there stay.
pub open spec fn groups_appended(
    pre: Seq<DownloadComicGroup>,
    comic: String,
    incoming: Seq<UiQueryDownloadComicGroup>,
    post: Seq<DownloadComicGroup>,
) -> bool {
    let places = new_positions(group_keys(pre), incoming_group_keys(comic@, incoming));
    &&& post.len() == pre.len() + places.len()
    &&& forall|i: int| 0 <= i < pre.len() ==> post[i] == pre[i]
    &&& forall|j: int|
        0 <= j < places.len() ==> post[pre.len() + j] == fresh_group(
            comic,
            incoming[#[trigger] places[j]],
        )
}

/// The chapters of the snapshot whose keys are new are added at the end, in
/// their order; the records that were there keep everything but their
/// derived field.
pub open spec fn chapters_appended(
    pre: Seq<DownloadComicChapter>,
    comic: String,
    incoming: Seq<UiQueryDownloadComicChapter>,
    post: Seq<DownloadComicChapter>,
) -> bool {
    let places = new_positions(chapter_keys(pre), incoming_chapter_keys(incoming));
    &&& post.len() == pre.len() + places.len()
    &&& forall|i: int| 0 <= i < pre.len() ==> (#[trigger] pre[i]).same_but_progress(post[i])
    &&& forall|j: int|
        0 <= j < places.len() ==> fresh_chapter(
            comic,
            incoming[#[trigger] places[j]],
        ).same_but_progress(post[pre.len() + j])
}

/// The pages of the snapshot whose keys are new are added at the end, in
/// their order, as pages that wait; the records that were there stay.
pub open spec fn pages_appended(
    pre: Seq<DownloadComicPage>,
    comic: String,
    incoming: Seq<UiQueryDownloadComicPage>,
    post: Seq<DownloadComicPage>,
) -> bool {
    let places = new_positions(page_keys(pre), incoming_page_keys(incoming));
    &&& post.len() == pre.len() + places.len()
    &&& forall|i: int| 0 <= i < pre.len() ==> post[i] == pre[i]
    &&& forall|j: int|
        0 <= j < places.len() ==> {
            &&& post[pre.len() + j].format@ == Seq::<char>::empty()
            &&& post[pre.len() + j] == fresh_page(
                comic,
                incoming[#[trigger] places[j]],
                post[pre.len() + j].format,
            )
        }
}

/// What queueing a comic does. Every record of the snapshot whose key the
/// store does not hold yet is added under the comic's path word; a key that
/// is there keeps its record, with its progress. The derived fields follow
/// (a well-formed store has them from its pages).
pub open spec fn append_rel(pre: TaskStore, snapshot: ComicSnapshot, post: TaskStore) -> bool {
    let comic = snapshot.comic.path_word;
    &&& post.pause == pre.pause
    &&& comic_appended(pre.comics@, snapshot.comic, snapshot.cover_cache_key, post.comics@)
    &&& groups_appended(pre.groups@, comic, snapshot.comic.groups@, post.groups@)
    &&& chapters_appended(pre.chapters@, comic, snapshot.comic.chapters@, post.chapters@)
    &&& pages_appended(pre.pages@, comic, snapshot.pages@, post.pages@)
}

/// The comics but the one with this path word.
pub open spec fn comic_is_not(path_word: Seq<char>) -> spec_fn(DownloadComic) -> bool {
    |c: DownloadComic| c.path_word@ != path_word
}

/// The groups that do not belong to the comic.
pub open spec fn group_is_not_of(path_word: Seq<char>) -> spec_fn(DownloadComicGroup) -> bool {
    |g: DownloadComicGroup| g.comic_path_word@ != path_word
}

/// The chapters that do not belong to the comic.
pub open spec fn chapter_is_not_of(path_word: Seq<char>) -> spec_fn(DownloadComicChapter) -> bool {
    |c: DownloadComicChapter| c.comic_path_word@ != path_word
}

/// The pages that do not belong to the comic.
pub open spec fn page_is_not_of(path_word: Seq<char>) -> spec_fn(DownloadComicPage) -> bool {
    |p: DownloadComicPage| p.comic_path_word@ != path_word
}

/// What removing a comic does: its record and every group, chapter and page
/// under it are gone, and every other record is as it was, in its place.
pub open spec fn delete_rel(pre: TaskStore, path_word: Seq<char>, post: TaskStore) -> bool {
    &&& post.pause == pre.pause
    &&& post.comics@ == pre.comics@.filter(comic_is_not(path_word))
    &&& post.groups@ == pre.groups@.filter(group_is_not_of(path_word))
    &&& post.chapters@ == pre.chapters@.filter(chapter_is_not_of(path_word))
    &&& post.pages@ == pre.pages@.filter(page_is_not_of(path_word))
}

impl TaskStore {
    /// Queues every failed fetch again: each page and each cover that failed
    /// waits, so that the loop takes it up the next time it is asked. Pages
    /// that were fetched are not touched.
    pub fn reset_fail_downloads(&mut self)
        requires
            old(self).wf(),
        ensures
            final(self).wf(),
            reset_rel(*old(self), *final(self)),
    {
        let ghost pre = *self;
        let ghost target = pre.pages@.map_values(|p: DownloadComicPage| page_requeued(p));
        let mut k: usize = 0;
        while k < self.pages.len()
            invariant
                k <= self.pages@.len(),
                self.pages@.len() == pre.pages@.len(),
                self.comics == pre.comics,
                self.groups == pre.groups,
                self.chapters == pre.chapters,
                self.pause == pre.pause,
                forall|j: int| 0 <= j < k ==> self.pages@[j] == page_requeued(pre.pages@[j]),
                forall|j: int| k <= j < self.pages@.len() ==> self.pages@[j] == pre.pages@[j],
            decreases self.pages@.len() - k,
        {
            match self.pages[k].download_status {
                DownloadStatus::Fail => {
                    self.pages[k].download_status = DownloadStatus::Waiting;
                },
                _ => {},
            }
            k += 1;
        }
        assert(self.pages@ =~= target);
        let mut i: usize = 0;
        while i < self.comics.len()
            invariant
                i <= self.comics@.len(),
                self.comics@.len() == pre.comics@.len(),
                self.pages@ == target,
                self.groups == pre.groups,
                self.chapters == pre.chapters,
                self.pause == pre.pause,
                forall|j: int| 0 <= j < i ==> self.comics@[j] == comic_requeued(pre.comics@[j]),
                forall|j: int| i <= j < self.comics@.len() ==> self.comics@[j] == pre.comics@[j],
            decreases self.comics@.len() - i,
        {
            match self.comics[i].cover_download_status {
                DownloadStatus::Fail => {
                    self.comics[i].cover_download_status = DownloadStatus::Waiting;
                },
                _ => {},
            }
            match self.comics[i].download_status {
                AggregateStatus::Complete => {},
                _ => {
                    self.comics[i].download_status = AggregateStatus::InProgress;
                },
            }
            i += 1;
        }
        let mut u: usize = 0;
        while u < self.chapters.len()
            invariant
                u <= self.chapters@.len(),
                self.chapters@.len() == pre.chapters@.len(),
                self.pages@ == target,
                self.groups == pre.groups,
                self.comics@ =~= pre.comics@.map_values(|c: DownloadComic| comic_requeued(c)),
                self.pause == pre.pause,
                forall|j: int|
                    0 <= j < u ==> self.chapters@[j] == chapter_requeued(pre.chapters@[j]),
                forall|j: int|
                    u <= j < self.chapters@.len() ==> self.chapters@[j] == pre.chapters@[j],
            decreases self.chapters@.len() - u,
        {
            match self.chapters[u].download_status {
                AggregateStatus::Complete => {},
                _ => {
                    self.chapters[u].download_status = AggregateStatus::InProgress;
                },
            }
            u += 1;
        }
        proof {
            assert(self.chapters@ =~= pre.chapters@.map_values(
                |c: DownloadComicChapter| chapter_requeued(c),
            ));
            assert(comic_keys(self.comics@) =~= comic_keys(pre.comics@));
            assert(chapter_keys(self.chapters@) =~= chapter_keys(pre.chapters@));
            assert(page_keys(self.pages@) =~= page_keys(pre.pages@));
            assert forall|j: int| 0 <= j < self.comics@.len() implies comic_in_step(
                #[trigger] self.comics@[j],
                self.pages@,
            ) by {
                assert(comic_in_step(pre.comics@[j], pre.pages@));
                lemma_requeued_comic(pre.pages@, pre.comics@[j].path_word@);
            }
            assert forall|j: int| 0 <= j < self.chapters@.len() implies chapter_in_step(
                #[trigger] self.chapters@[j],
                self.pages@,
            ) by {
                assert(chapter_in_step(pre.chapters@[j], pre.pages@));
                lemma_requeued_chapter(
                    pre.pages@,
                    pre.chapters@[j].comic_path_word@,
                    pre.chapters@[j].uuid@,
                );
            }
        }
    }

    /// Removes a comic with every group, chapter and page under it. Every
    /// other record stays as it is. A fetch that is under way for the comic
    /// finds its record gone when it ends, and its outcome is dropped.
    pub fn delete_download_comic(&mut self, comic_path_word: &String)
        requires
            old(self).wf(),
        ensures
            final(self).wf(),
            delete_rel(*old(self), comic_path_word@, *final(self)),
    {
        let ghost pre = *self;
        let ghost path = comic_path_word@;
        let mut comics: Vec<DownloadComic> = Vec::new();
        core::mem::swap(&mut comics, &mut self.comics);
        for row in it: comics
            invariant
                it.seq() == pre.comics@,
                path == comic_path_word@,
                self.comics@ == pre.comics@.take(it.index() as int).filter(comic_is_not(path)),
                self.groups == pre.groups,
                self.chapters == pre.chapters,
                self.pages == pre.pages,
                self.pause == pre.pause,
        {
            proof {
                reveal(Seq::filter);
                assert(pre.comics@.take(it.index() + 1).drop_last() =~= pre.comics@.take(
                    it.index() as int,
                ));
            }
            if !(row.path_word == *comic_path_word) {
                self.comics.push(row);
            }
        }
        assert(pre.comics@.take(pre.comics@.len() as int) =~= pre.comics@);
        let mut groups: Vec<DownloadComicGroup> = Vec::new();
        core::mem::swap(&mut groups, &mut self.groups);
        for row in it: groups
            invariant
                it.seq() == pre.groups@,
                path == comic_path_word@,
                self.groups@ == pre.groups@.take(it.index() as int).filter(group_is_not_of(path)),
                self.comics@ == pre.comics@.filter(comic_is_not(path)),
                self.chapters == pre.chapters,
                self.pages == pre.pages,
                self.pause == pre.pause,
        {
            proof {
                reveal(Seq::filter);
                assert(pre.groups@.take(it.index() + 1).drop_last() =~= pre.groups@.take(
                    it.index() as int,
                ));
            }
            if !(row.comic_path_word == *comic_path_word) {
                self.groups.push(row);
            }
        }
        assert(pre.groups@.take(pre.groups@.len() as int) =~= pre.groups@);
        let mut chapters: Vec<DownloadComicChapter> = Vec::new();
        core::mem::swap(&mut chapters, &mut self.chapters);
        for row in it: chapters
            invariant
                it.seq() == pre.chapters@,
                path == comic_path_word@,
                self.chapters@ == pre.chapters@.take(it.index() as int).filter(
                    chapter_is_not_of(path),
                ),
                self.comics@ == pre.comics@.filter(comic_is_not(path)),
                self.groups@ == pre.groups@.filter(group_is_not_of(path)),
                self.pages == pre.pages,
                self.pause == pre.pause,
        {
            proof {
                reveal(Seq::filter);
                assert(pre.chapters@.take(it.index() + 1).drop_last() =~= pre.chapters@.take(
                    it.index() as int,
                ));
            }
            if !(row.comic_path_word == *comic_path_word) {
                self.chapters.push(row);
            }
        }
        assert(pre.chapters@.take(pre.chapters@.len() as int) =~= pre.chapters@);
        let mut pages: Vec<DownloadComicPage> = Vec::new();
        core::mem::swap(&mut pages, &mut self.pages);
        for row in it: pages
            invariant
                it.seq() == pre.pages@,
                path == comic_path_word@,
                self.pages@ == pre.pages@.take(it.index() as int).filter(page_is_not_of(path)),
                self.comics@ == pre.comics@.filter(comic_is_not(path)),
                self.groups@ == pre.groups@.filter(group_is_not_of(path)),
                self.chapters@ == pre.chapters@.filter(chapter_is_not_of(path)),
                self.pause == pre.pause,
        {
            proof {
                reveal(Seq::filter);
                assert(pre.pages@.take(it.index() + 1).drop_last() =~= pre.pages@.take(
                    it.index() as int,
                ));
            }
            if !(row.comic_path_word == *comic_path_word) {
                self.pages.push(row);
            }
        }
        assert(pre.pages@.take(pre.pages@.len() as int) =~= pre.pages@);
        proof {
            lemma_filter_keeps_distinct(
                pre.comics@,
                comic_is_not(path),
                |c: DownloadComic| crate::download::store::comic_key(c),
            );
            lemma_filter_keeps_distinct(
                pre.groups@,
                group_is_not_of(path),
                |g: DownloadComicGroup| crate::download::store::group_key(g),
            );
            lemma_filter_keeps_distinct(
                pre.chapters@,
                chapter_is_not_of(path),
                |c: DownloadComicChapter| crate::download::store::chapter_key(c),
            );
            lemma_filter_keeps_distinct(
                pre.pages@,
                page_is_not_of(path),
                |p: DownloadComicPage| crate::download::store::page_key(p),
            );
            pre.pages@.lemma_filter_len(page_is_not_of(path));
            assert forall|j: int| 0 <= j < self.comics@.len() implies comic_in_step(
                #[trigger] self.comics@[j],
                self.pages@,
            ) by {
                let row = self.comics@[j];
                assert(pre.comics@.contains(row));
                let i = choose|i: int| 0 <= i < pre.comics@.len() && pre.comics@[i] == row;
                assert(comic_in_step(pre.comics@[i], pre.pages@));
                lemma_count_filter(pre.pages@, page_is_not_of(path), page_of(row.path_word@));
                lemma_count_filter(pre.pages@, page_is_not_of(path), page_done_of(row.path_word@));
                lemma_count_filter(pre.pages@, page_is_not_of(path), page_open_of(row.path_word@));
            }
            assert forall|j: int| 0 <= j < self.chapters@.len() implies chapter_in_step(
                #[trigger] self.chapters@[j],
                self.pages@,
            ) by {
                let row = self.chapters@[j];
                assert(pre.chapters@.contains(row));
                let i = choose|i: int| 0 <= i < pre.chapters@.len() && pre.chapters@[i] == row;
                assert(chapter_in_step(pre.chapters@[i], pre.pages@));
                let comic = row.comic_path_word@;
                lemma_count_filter(pre.pages@, page_is_not_of(path), page_in(comic, row.uuid@));
                lemma_count_filter(
                    pre.pages@,
                    page_is_not_of(path),
                    page_done_in(comic, row.uuid@),
                );
                lemma_count_filter(
                    pre.pages@,
                    page_is_not_of(path),
                    page_open_in(comic, row.uuid@),
                );
            }
        }
    }
    /// Adds the groups of a snapshot whose keys are new.
    fn append_groups(&mut self, comic: &String, groups: Vec<UiQueryDownloadComicGroup>)
        ensures
            groups_appended(old(self).groups@, *comic, groups@, final(self).groups@),
            distinct(group_keys(old(self).groups@)) ==> distinct(group_keys(final(self).groups@)),
            final(self).comics == old(self).comics,
            final(self).chapters == old(self).chapters,
            final(self).pages == old(self).pages,
            final(self).pause == old(self).pause,
    {
        let ghost pre = self.groups@;
        let ghost all = groups@;
        let ghost inc = incoming_group_keys(comic@, all);
        assert(group_keys(pre) =~= merged(group_keys(pre), inc.take(0)));
        for g in it: groups
            invariant
                it.seq() == all,
                inc == incoming_group_keys(comic@, all),
                self.comics == old(self).comics,
                self.chapters == old(self).chapters,
                self.pages == old(self).pages,
                self.pause == old(self).pause,
                group_keys(self.groups@) == merged(group_keys(pre), inc.take(it.index() as int)),
                self.groups@.len() == pre.len() + new_positions(
                    group_keys(pre),
                    inc.take(it.index() as int),
                ).len(),
                forall|i: int| 0 <= i < pre.len() ==> self.groups@[i] == pre[i],
                forall|j: int|
                    0 <= j < new_positions(group_keys(pre), inc.take(it.index() as int)).len()
                        ==> self.groups@[pre.len() + j] == fresh_group(
                        *comic,
                        all[#[trigger] new_positions(
                            group_keys(pre),
                            inc.take(it.index() as int),
                        )[j]],
                    ),
        {
            let ghost n = it.index() as int;
            let ghost before = self.groups@;
            proof {
                lemma_merge_step(group_keys(pre), inc, n, group_keys(before));
            }
            let found = self.find_group(comic, &g.group_path_word);
            proof {
                if let Some(i) = found {
                    assert(group_keys(before)[i as int] == inc[n]);
                }
            }
            if found.is_none() {
                self.groups.push(
                    DownloadComicGroup {
                        comic_path_word: comic.clone(),
                        group_path_word: g.group_path_word,
                        count: g.count,
                        name: g.name,
                        group_rank: g.group_rank,
                    },
                );
                assert(group_keys(self.groups@) =~= group_keys(before).push(inc[n]));
            }
        }
        proof {
            assert(inc.take(all.len() as int) =~= inc);
            if distinct(group_keys(pre)) {
                lemma_merged_distinct(group_keys(pre), inc);
            }
        }
    }

    /// Adds the chapters of a snapshot whose keys are new.
    fn append_chapters(&mut self, comic: &String, chapters: Vec<UiQueryDownloadComicChapter>)
        ensures
            final(self).chapters@.len() == old(self).chapters@.len() + new_positions(
                chapter_keys(old(self).chapters@),
                incoming_chapter_keys(chapters@),
            ).len(),
            forall|i: int|
                0 <= i < old(self).chapters@.len() ==> final(self).chapters@[i] == old(
                    self,
                ).chapters@[i],
            forall|j: int|
                0 <= j < new_positions(
                    chapter_keys(old(self).chapters@),
                    incoming_chapter_keys(chapters@),
                ).len() ==> final(self).chapters@[old(self).chapters@.len() + j] == fresh_chapter(
                    *comic,
                    chapters@[#[trigger] new_positions(
                        chapter_keys(old(self).chapters@),
                        incoming_chapter_keys(chapters@),
                    )[j]],
                ),
            distinct(chapter_keys(old(self).chapters@)) ==> distinct(
                chapter_keys(final(self).chapters@),
            ),
            final(self).comics == old(self).comics,
            final(self).groups == old(self).groups,
            final(self).pages == old(self).pages,
            final(self).pause == old(self).pause,
    {
        let ghost pre = self.chapters@;
        let ghost all = chapters@;
        let ghost inc = incoming_chapter_keys(all);
        assert(chapter_keys(pre) =~= merged(chapter_keys(pre), inc.take(0)));
        for c in it: chapters
            invariant
                it.seq() == all,
                inc == incoming_chapter_keys(all),
                self.comics == old(self).comics,
                self.groups == old(self).groups,
                self.pages == old(self).pages,
                self.pause == old(self).pause,
                chapter_keys(self.chapters@) == merged(
                    chapter_keys(pre),
                    inc.take(it.index() as int),
                ),
                self.chapters@.len() == pre.len() + new_positions(
                    chapter_keys(pre),
                    inc.take(it.index() as int),
                ).len(),
                forall|i: int| 0 <= i < pre.len() ==> self.chapters@[i] == pre[i],
                forall|j: int|
                    0 <= j < new_positions(chapter_keys(pre), inc.take(it.index() as int)).len()
                        ==> self.chapters@[pre.len() + j] == fresh_chapter(
                        *comic,
                        all[#[trigger] new_positions(
                            chapter_keys(pre),
                            inc.take(it.index() as int),
                        )[j]],
                    ),
        {
            let ghost n = it.index() as int;
            let ghost before = self.chapters@;
            proof {
                lemma_merge_step(chapter_keys(pre), inc, n, chapter_keys(before));
            }
            let found = self.find_chapter(&c.uuid);
            proof {
                if let Some(i) = found {
                    assert(chapter_keys(before)[i as int] == inc[n]);
                }
            }
            if found.is_none() {
                self.chapters.push(
                    DownloadComicChapter {
                        comic_path_word: comic.clone(),
                        uuid: c.uuid,
                        comic_id: c.comic_id,
                        count: c.count,
                        datetime_created: c.datetime_created,
                        group_path_word: c.group_path_word,
                        img_type: c.img_type,
                        index: c.index,
                        is_long: c.is_long,
                        name: c.name,
                        news: c.news,
                        next: c.next,
                        ordered: c.ordered,
                        prev: c.prev,
                        size: c.size,
                        type_field: c.type_field,
                        download_status: AggregateStatus::Complete,
                    },
                );
                assert(chapter_keys(self.chapters@) =~= chapter_keys(before).push(inc[n]));
            }
        }
        proof {
            assert(inc.take(all.len() as int) =~= inc);
            if distinct(chapter_keys(pre)) {
                lemma_merged_distinct(chapter_keys(pre), inc);
            }
        }
    }

    /// Adds the pages of a snapshot whose keys are new, as pages that wait.
    fn append_pages(&mut self, comic: &String, pages: Vec<UiQueryDownloadComicPage>)
        requires
            old(self).pages@.len() + pages@.len() <= i64::MAX,
        ensures
            pages_appended(old(self).pages@, *comic, pages@, final(self).pages@),
            final(self).pages@.len() <= i64::MAX,
            distinct(page_keys(old(self).pages@)) ==> distinct(page_keys(final(self).pages@)),
            final(self).comics == old(self).comics,
            final(self).groups == old(self).groups,
            final(self).chapters == old(self).chapters,
            final(self).pause == old(self).pause,
    {
        let ghost pre = self.pages@;
        let ghost all = pages@;
        let ghost inc = incoming_page_keys(all);
        assert(page_keys(pre) =~= merged(page_keys(pre), inc.take(0)));
        for p in it: pages
            invariant
                it.seq() == all,
                inc == incoming_page_keys(all),
                self.comics == old(self).comics,
                self.groups == old(self).groups,
                self.chapters == old(self).chapters,
                self.pause == old(self).pause,
                page_keys(self.pages@) == merged(page_keys(pre), inc.take(it.index() as int)),
                self.pages@.len() == pre.len() + new_positions(
                    page_keys(pre),
                    inc.take(it.index() as int),
                ).len(),
                forall|i: int| 0 <= i < pre.len() ==> self.pages@[i] == pre[i],
                forall|j: int|
                    0 <= j < new_positions(page_keys(pre), inc.take(it.index() as int)).len() ==> {
                        &&& self.pages@[pre.len() + j].format@ == Seq::<char>::empty()
                        &&& self.pages@[pre.len() + j] == fresh_page(
                            *comic,
                            all[#[trigger] new_positions(
                                page_keys(pre),
                                inc.take(it.index() as int),
                            )[j]],
                            self.pages@[pre.len() + j].format,
                        )
                    },
        {
            let ghost n = it.index() as int;
            let ghost before = self.pages@;
            proof {
                lemma_merge_step(page_keys(pre), inc, n, page_keys(before));
            }
            let found = self.find_page(&p.chapter_uuid, p.image_index);
            proof {
                if let Some(i) = found {
                    assert(page_keys(before)[i as int] == inc[n]);
                }
            }
            if found.is_none() {
                self.pages.push(
                    DownloadComicPage {
                        comic_path_word: comic.clone(),
                        chapter_uuid: p.chapter_uuid,
                        image_index: p.image_index,
                        url: p.url,
                        cache_key: p.cache_key,
                        download_status: DownloadStatus::Waiting,
                        width: 0,
                        height: 0,
                        format: String::new(),
                    },
                );
                assert(page_keys(self.pages@) =~= page_keys(before).push(inc[n]));
            }
        }
        proof {
            assert(inc.take(all.len() as int) =~= inc);
            lemma_new_positions_are_new(page_keys(pre), inc);
            if distinct(page_keys(pre)) {
                lemma_merged_distinct(page_keys(pre), inc);
            }
        }
    }

    /// Brings the derived field of every chapter of one comic in step with
    /// the pages.
    fn refresh_chapters_of(&mut self, comic: &String)
        ensures
            chapters_same_but_progress(old(self).chapters@, final(self).chapters@),
            forall|j: int|
                0 <= j < final(self).chapters@.len() ==> if old(self).chapters@[j].comic_path_word@
                    == comic@ {
                    chapter_in_step(#[trigger] final(self).chapters@[j], final(self).pages@)
                } else {
                    final(self).chapters@[j] == old(self).chapters@[j]
                },
            final(self).comics == old(self).comics,
            final(self).groups == old(self).groups,
            final(self).pages == old(self).pages,
            final(self).pause == old(self).pause,
    {
        let mut u: usize = 0;
        while u < self.chapters.len()
            invariant
                u <= self.chapters@.len(),
                chapters_same_but_progress(old(self).chapters@, self.chapters@),
                forall|j: int|
                    0 <= j < u ==> if old(self).chapters@[j].comic_path_word@ == comic@ {
                        chapter_in_step(#[trigger] self.chapters@[j], self.pages@)
                    } else {
                        self.chapters@[j] == old(self).chapters@[j]
                    },
                forall|j: int|
                    u <= j < self.chapters@.len() ==> self.chapters@[j] == old(self).chapters@[j],
                self.comics == old(self).comics,
                self.groups == old(self).groups,
                self.pages == old(self).pages,
                self.pause == old(self).pause,
            decreases self.chapters@.len() - u,
        {
            if self.chapters[u].comic_path_word == *comic {
                self.refresh_chapter(u);
            }
            u += 1;
        }
    }

    /// Queues a comic for download. Every group, chapter and page of the
    /// snapshot that the store does not hold yet is recorded under the
    /// comic's path word, the pages as waiting; the comic's own record is
    /// added if there is none. What is recorded already stays as it is, so
    /// that queueing a comic again adds nothing and undoes no progress. No
    /// fetch is made here.
    pub fn append_download(&mut self, snapshot: ComicSnapshot)
        requires
            old(self).wf(),
            old(self).pages@.len() + snapshot.pages@.len() <= i64::MAX,
        ensures
            final(self).wf(),
            append_rel(*old(self), snapshot, *final(self)),
    {
        let ghost pre = *self;
        let ComicSnapshot { comic: d, cover_cache_key, pages } = snapshot;
        let UiQueryDownloadComic {
            path_word,
            alias,
            author,
            b_404,
            b_hidden,
            ban,
            brief,
            close_comment,
            close_roast,
            cover,
            datetime_updated,
            females,
            free_type,
            img_type,
            males,
            name,
            popular,
            reclass,
            region,
            restrict1,
            seo_baidu,
            status,
            theme,
            uuid,
            groups,
            chapters,
        } = d;
        let path = path_word.clone();
        let found = self.find_comic(&path);
        let at = match found {
            Some(at) => at,
            None => {
                self.comics.push(
                    DownloadComic {
                        path_word,
                        alias,
                        author,
                        b_404,
                        b_hidden,
                        ban,
                        brief,
                        close_comment,
                        close_roast,
                        cover,
                        datetime_updated,
                        females,
                        free_type,
                        img_type,
                        males,
                        name,
                        popular,
                        reclass,
                        region,
                        restrict: restrict1,
                        seo_baidu,
                        status,
                        theme,
                        uuid,
                        cover_cache_key,
                        cover_download_status: DownloadStatus::Waiting,
                        cover_format: String::new(),
                        cover_width: 0,
                        cover_height: 0,
                        image_count: 0,
                        image_count_success: 0,
                        download_status: AggregateStatus::Complete,
                    },
                );
                self.comics.len() - 1
            },
        };
        let ghost mid = self.comics@;
        proof {
            if found is None {
                assert(comic_keys(mid) =~= comic_keys(pre.comics@).push(path@));
                assert(distinct(comic_keys(mid)));
            }
        }
        self.append_groups(&path, groups);
        self.append_chapters(&path, chapters);
        let ghost grown = self.chapters@;
        self.append_pages(&path, pages);
        self.refresh_comic(at);
        self.refresh_chapters_of(&path);
        proof {
            let before = pre.pages@;
            let after = self.pages@;
            let n = before.len() as int;
            assert(after.take(n) =~= before);
            lemma_new_positions_are_new(page_keys(before), incoming_page_keys(snapshot.pages@));
            assert forall|i: int| n <= i < after.len() implies (
            #[trigger] after[i]).comic_path_word@ == path@ by {
                let places = new_positions(page_keys(before), incoming_page_keys(snapshot.pages@));
                let j = i - n;
                assert(after[n + j] == fresh_page(
                    path,
                    snapshot.pages@[places[j]],
                    after[n + j].format,
                ));
            }
            assert(comic_keys(self.comics@) =~= comic_keys(mid));
            assert(chapter_keys(self.chapters@) =~= chapter_keys(grown));
            assert forall|j: int| 0 <= j < self.comics@.len() implies comic_in_step(
                #[trigger] self.comics@[j],
                after,
            ) by {
                if j != at {
                    let other = self.comics@[j].path_word@;
                    assert(comic_keys(mid)[j] != comic_keys(mid)[at as int]);
                    assert(self.comics@[j] == pre.comics@[j]);
                    assert(comic_in_step(pre.comics@[j], before));
                    lemma_count_tail(after, n, page_of(other));
                    lemma_count_tail(after, n, page_done_of(other));
                    lemma_count_tail(after, n, page_open_of(other));
                }
            }
            lemma_new_positions_are_new(
                chapter_keys(pre.chapters@),
                incoming_chapter_keys(snapshot.comic.chapters@),
            );
            assert forall|j: int| 0 <= j < self.chapters@.len() implies chapter_in_step(
                #[trigger] self.chapters@[j],
                after,
            ) by {
                if grown[j].comic_path_word@ != path@ {
                    let other = self.chapters@[j].comic_path_word@;
                    let chapter = self.chapters@[j].uuid@;
                    assert(self.chapters@[j] == grown[j]);
                    if j >= pre.chapters@.len() {
                        let places = new_positions(
                            chapter_keys(pre.chapters@),
                            incoming_chapter_keys(snapshot.comic.chapters@),
                        );
                        let jj = j - pre.chapters@.len();
                        assert(grown[pre.chapters@.len() + jj] == fresh_chapter(
                            path,
                            snapshot.comic.chapters@[places[jj]],
                        ));
                    }
                    assert(grown[j] == pre.chapters@[j]);
                    assert(chapter_in_step(pre.chapters@[j], before));
                    lemma_count_tail(after, n, page_in(other, chapter));
                    lemma_count_tail(after, n, page_done_in(other, chapter));
                    lemma_count_tail(after, n, page_open_in(other, chapter));
                }
            }
            assert(chapters_appended(
                pre.chapters@,
                snapshot.comic.path_word,
                snapshot.comic.chapters@,
                self.chapters@,
            )) by {
                let places = new_positions(
                    chapter_keys(pre.chapters@),
                    incoming_chapter_keys(snapshot.comic.chapters@),
                );
                assert forall|j: int| 0 <= j < places.len() implies fresh_chapter(
                    snapshot.comic.path_word,
                    snapshot.comic.chapters@[#[trigger] places[j]],
                ).same_but_progress(self.chapters@[pre.chapters@.len() + j]) by {
                    assert(grown[pre.chapters@.len() + j] == fresh_chapter(
                        path,
                        snapshot.comic.chapters@[places[j]],
                    ));
                    assert(grown[pre.chapters@.len() + j].same_but_progress(
                        self.chapters@[pre.chapters@.len() + j],
                    ));
                }
                assert forall|i: int| 0 <= i < pre.chapters@.len() implies (
                #[trigger] pre.chapters@[i]).same_but_progress(self.chapters@[i]) by {
                    assert(grown[i] == pre.chapters@[i]);
                    assert(grown[i].same_but_progress(self.chapters@[i]));
                }
            }
            assert(comic_appended(
                pre.comics@,
                snapshot.comic,
                snapshot.cover_cache_key,
                self.comics@,
            )) by {
                if found is None {
                    assert(self.comics@.last() == self.comics@[at as int]);
                    assert(mid[at as int].same_but_progress(self.comics@[at as int]));
                } else {
                    assert(comic_keys(pre.comics@)[at as int] == path@);
                    assert(mid == pre.comics@);
                }
            }
        }
    }
}

} // verus!
