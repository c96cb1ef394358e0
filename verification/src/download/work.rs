//! The decisions of the download loop: which fetch comes next, and what its
//! outcome does to the store. The loop itself, with its fetches and its
//! waiting, runs outside and reports back here.

use crate::count::{count, lemma_count_equal, lemma_count_same, lemma_count_zero};
use crate::download::rows::{DownloadComic, DownloadComicPage, ImageMeta};
use crate::download::store::{
    chapter_aggregate, chapter_in_step, chapter_keys, comic_aggregate, comic_in_step, comic_keys,
    page_done_in, page_done_of, page_in, page_key, page_keys, page_of, page_open_in,
    page_open_of, TaskStore,
};
use crate::status::{AggregateStatus, DownloadStatus};
use vstd::prelude::*;

verus! {

/// The record that a fetch is for.
#[derive(Clone, Debug, PartialEq)]
pub enum TaskTarget {
    /// The cover of the comic.
    Cover,
    /// One page of the comic.
    Page { chapter_uuid: String, image_index: i32 },
}

/// One fetch that the loop is to make.
#[derive(Clone, Debug, PartialEq)]
pub struct DownloadTask {
    pub comic_path_word: String,
    pub target: TaskTarget,
    pub url: String,
    pub cache_key: String,
}

/// What the loop is to do next.
#[derive(Clone, Debug, PartialEq)]
pub enum LoopAction {
    /// Downloading is paused: wait a while and ask again.
    Sleep,
    /// Nothing waits to be fetched: wait a while and ask again.
    Idle,
    /// Make this fetch and report how it ended.
    Fetch(DownloadTask),
}

/// The page at place `k` belongs to `comic` and waits to be fetched.
pub open spec fn page_waits(pages: Seq<DownloadComicPage>, comic: Seq<char>, k: int) -> bool {
    &&& 0 <= k < pages.len()
    &&& pages[k].comic_path_word@ == comic
    &&& pages[k].download_status == DownloadStatus::Waiting
}

/// The comic at place `i` has a cover or a page that waits to be fetched.
pub open spec fn comic_outstanding(store: TaskStore, i: int) -> bool {
    &&& 0 <= i < store.comics@.len()
    &&& (store.comics@[i].cover_download_status == DownloadStatus::Waiting || exists|k: int|
        page_waits(store.pages@, store.comics@[i].path_word@, k))
}

/// The comic at place `i` is the one to work on: the first in the order of
/// queueing that has anything waiting.
pub open spec fn is_next_comic(store: TaskStore, i: int) -> bool {
    &&& comic_outstanding(store, i)
    &&& forall|j: int| 0 <= j < i ==> !comic_outstanding(store, j)
}

/// The page at place `f` is the first of `comic`, in the order of queueing,
/// that waits.
pub open spec fn is_first_waiting(pages: Seq<DownloadComicPage>, comic: Seq<char>, f: int) -> bool {
    &&& page_waits(pages, comic, f)
    &&& forall|g: int| 0 <= g < f ==> !page_waits(pages, comic, g)
}

/// The page at place `k` is the one to fetch next for `comic`: it lies in the
/// chapter of the comic's first waiting page, and no waiting page of that
/// chapter has a smaller index.
pub open spec fn is_next_page(pages: Seq<DownloadComicPage>, comic: Seq<char>, k: int) -> bool {
    &&& page_waits(pages, comic, k)
    &&& exists|f: int|
        is_first_waiting(pages, comic, f) && pages[f].chapter_uuid@ == pages[k].chapter_uuid@
    &&& forall|q: int|
        page_waits(pages, comic, q) && pages[q].chapter_uuid@ == pages[k].chapter_uuid@
            ==> pages[k].image_index <= pages[q].image_index
}

/// The task names the page at place `k`, and that page went from waiting to
/// downloading while every other page stayed as it was.
pub open spec fn page_taken(
    pre: Seq<DownloadComicPage>,
    k: int,
    task: DownloadTask,
    post: Seq<DownloadComicPage>,
) -> bool {
    &&& 0 <= k < pre.len()
    &&& task.target matches TaskTarget::Page { chapter_uuid, image_index }
    &&& chapter_uuid@ == pre[k].chapter_uuid@
    &&& image_index == pre[k].image_index
    &&& task.url@ == pre[k].url@
    &&& task.cache_key@ == pre[k].cache_key@
    &&& post == pre.update(
        k,
        DownloadComicPage { download_status: DownloadStatus::Downloading, ..pre[k] },
    )
}

/// The task names the cover of the comic at place `i`, and that cover went
/// from waiting to downloading while every other comic stayed as it was.
pub open spec fn cover_taken(
    pre: Seq<DownloadComic>,
    i: int,
    task: DownloadTask,
    post: Seq<DownloadComic>,
) -> bool {
    &&& 0 <= i < pre.len()
    &&& task.target is Cover
    &&& pre[i].cover_download_status == DownloadStatus::Waiting
    &&& task.url@ == pre[i].cover@
    &&& task.cache_key@ == pre[i].cover_cache_key@
    &&& post == pre.update(
        i,
        DownloadComic { cover_download_status: DownloadStatus::Downloading, ..pre[i] },
    )
}

/// What one turn of the loop does. Paused, it does nothing. Otherwise it
/// takes the cover of the next comic, if that waits, or else the comic's next
/// page, and marks it as downloading.
pub open spec fn poll_rel(pre: TaskStore, action: LoopAction, post: TaskStore) -> bool {
    &&& post.pause == pre.pause
    &&& post.groups@ == pre.groups@
    &&& post.chapters@ == pre.chapters@
    &&& match action {
        LoopAction::Sleep => pre.pause && post.comics@ == pre.comics@ && post.pages@
            == pre.pages@,
        LoopAction::Idle => {
            &&& !pre.pause
            &&& post.comics@ == pre.comics@
            &&& post.pages@ == pre.pages@
            &&& forall|i: int| !comic_outstanding(pre, i)
        },
        LoopAction::Fetch(task) => {
            &&& !pre.pause
            &&& exists|i: int|
                {
                    &&& #[trigger] is_next_comic(pre, i)
                    &&& task.comic_path_word@ == pre.comics@[i].path_word@
                    &&& if pre.comics@[i].cover_download_status == DownloadStatus::Waiting {
                        post.pages@ == pre.pages@ && cover_taken(pre.comics@, i, task, post.comics@)
                    } else {
                        post.comics@ == pre.comics@ && exists|k: int|
                            #[trigger] is_next_page(pre.pages@, pre.comics@[i].path_word@, k)
                                && page_taken(pre.pages@, k, task, post.pages@)
                    }
                }
        },
    }
}

/// The page as it is once its fetch has ended: fetched, with what decoding
/// found, or failed.
pub open spec fn page_settled(
    pre: DownloadComicPage,
    outcome: Option<ImageMeta>,
) -> DownloadComicPage {
    match outcome {
        Some(meta) => DownloadComicPage {
            download_status: DownloadStatus::Success,
            width: meta.width,
            height: meta.height,
            format: meta.format,
            ..pre
        },
        None => DownloadComicPage { download_status: DownloadStatus::Fail, ..pre },
    }
}

/// The comic as it is once the fetch of its cover has ended.
pub open spec fn cover_settled(pre: DownloadComic, outcome: Option<ImageMeta>) -> DownloadComic {
    match outcome {
        Some(meta) => DownloadComic {
            cover_download_status: DownloadStatus::Success,
            cover_width: meta.width,
            cover_height: meta.height,
            cover_format: meta.format,
            ..pre
        },
        None => DownloadComic { cover_download_status: DownloadStatus::Fail, ..pre },
    }
}

/// The page at place `k` is the one the task names, and it is being fetched.
pub open spec fn page_in_flight(pages: Seq<DownloadComicPage>, task: DownloadTask, k: int) -> bool {
    &&& 0 <= k < pages.len()
    &&& task.target matches TaskTarget::Page { chapter_uuid, image_index }
    &&& page_key(pages[k]) == (chapter_uuid@, image_index)
    &&& pages[k].comic_path_word@ == task.comic_path_word@
    &&& pages[k].download_status == DownloadStatus::Downloading
}

/// The comic at place `i` is the one the task names, and its cover is being
/// fetched.
pub open spec fn cover_in_flight(comics: Seq<DownloadComic>, task: DownloadTask, i: int) -> bool {
    &&& 0 <= i < comics.len()
    &&& task.target is Cover
    &&& comics[i].path_word@ == task.comic_path_word@
    &&& comics[i].cover_download_status == DownloadStatus::Downloading
}

/// Two tables of comics that differ in derived fields at most.
pub open spec fn comics_same_but_progress(
    pre: Seq<DownloadComic>,
    post: Seq<DownloadComic>,
) -> bool {
    &&& pre.len() == post.len()
    &&& forall|j: int| 0 <= j < pre.len() ==> (#[trigger] pre[j]).same_but_progress(post[j])
}

/// Two tables of chapters that differ in derived fields at most.
pub open spec fn chapters_same_but_progress(
    pre: Seq<crate::download::rows::DownloadComicChapter>,
    post: Seq<crate::download::rows::DownloadComicChapter>,
) -> bool {
    &&& pre.len() == post.len()
    &&& forall|j: int| 0 <= j < pre.len() ==> (#[trigger] pre[j]).same_but_progress(post[j])
}

/// What the end of a fetch does. Where the record that the task names is
/// still there and still being fetched, it takes the outcome, and the derived
/// fields follow (a well-formed store has them from its pages). Where it is
/// gone or no longer being fetched, the outcome is dropped and nothing
/// changes.
pub open spec fn finish_rel(
    pre: TaskStore,
    task: DownloadTask,
    outcome: Option<ImageMeta>,
    applied: bool,
    post: TaskStore,
) -> bool {
    &&& post.pause == pre.pause
    &&& post.groups@ == pre.groups@
    &&& applied == ((exists|k: int| page_in_flight(pre.pages@, task, k)) || (exists|i: int|
        cover_in_flight(pre.comics@, task, i)))
    &&& forall|k: int| #[trigger]
        page_in_flight(pre.pages@, task, k) ==> {
            &&& post.pages@ == pre.pages@.update(k, page_settled(pre.pages@[k], outcome))
            &&& comics_same_but_progress(pre.comics@, post.comics@)
            &&& chapters_same_but_progress(pre.chapters@, post.chapters@)
        }
    &&& forall|i: int| #[trigger]
        cover_in_flight(pre.comics@, task, i) ==> {
            &&& post.comics@ == pre.comics@.update(i, cover_settled(pre.comics@[i], outcome))
            &&& post.pages@ == pre.pages@
            &&& post.chapters@ == pre.chapters@
        }
    &&& !applied ==> {
        &&& post.comics@ == pre.comics@
        &&& post.pages@ == pre.pages@
        &&& post.chapters@ == pre.chapters@
    }
}

/// Place by place, the pages of `comic` are the same pages and stand alike:
/// fetched or not, ended or not.
pub open spec fn comic_stands_alike(
    pre: Seq<DownloadComicPage>,
    post: Seq<DownloadComicPage>,
    comic: Seq<char>,
) -> bool {
    &&& pre.len() == post.len()
    &&& forall|i: int|
        0 <= i < pre.len() ==> {
            &&& (#[trigger] pre[i]).comic_path_word@ == post[i].comic_path_word@
            &&& pre[i].chapter_uuid@ == post[i].chapter_uuid@
            &&& pre[i].comic_path_word@ == comic ==> {
                &&& (pre[i].download_status == DownloadStatus::Success) == (post[i].download_status
                    == DownloadStatus::Success)
                &&& pre[i].download_status.spec_is_terminal()
                    == post[i].download_status.spec_is_terminal()
            }
        }
}

/// Place by place, the pages of one chapter of `comic` are the same pages and
/// stand alike.
pub open spec fn chapter_stands_alike(
    pre: Seq<DownloadComicPage>,
    post: Seq<DownloadComicPage>,
    comic: Seq<char>,
    chapter: Seq<char>,
) -> bool {
    &&& pre.len() == post.len()
    &&& forall|i: int|
        0 <= i < pre.len() ==> {
            &&& (#[trigger] pre[i]).comic_path_word@ == post[i].comic_path_word@
            &&& pre[i].chapter_uuid@ == post[i].chapter_uuid@
            &&& (pre[i].comic_path_word@ == comic && pre[i].chapter_uuid@ == chapter) ==> {
                &&& (pre[i].download_status == DownloadStatus::Success) == (post[i].download_status
                    == DownloadStatus::Success)
                &&& pre[i].download_status.spec_is_terminal()
                    == post[i].download_status.spec_is_terminal()
            }
        }
}

/// A comic whose pages stand as before has the counts and the aggregate it
/// had.
pub proof fn lemma_comic_counts_keep(
    pre: Seq<DownloadComicPage>,
    post: Seq<DownloadComicPage>,
    comic: Seq<char>,
)
    requires
        comic_stands_alike(pre, post, comic),
    ensures
        count(pre, page_of(comic)) == count(post, page_of(comic)),
        count(pre, page_done_of(comic)) == count(post, page_done_of(comic)),
        count(pre, page_open_of(comic)) == count(post, page_open_of(comic)),
        comic_aggregate(pre, comic) == comic_aggregate(post, comic),
{
    lemma_count_same(pre, post, page_of(comic), page_of(comic));
    lemma_count_same(pre, post, page_done_of(comic), page_done_of(comic));
    lemma_count_same(pre, post, page_open_of(comic), page_open_of(comic));
}

/// A chapter whose pages stand as before has the aggregate it had.
pub proof fn lemma_chapter_counts_keep(
    pre: Seq<DownloadComicPage>,
    post: Seq<DownloadComicPage>,
    comic: Seq<char>,
    chapter: Seq<char>,
)
    requires
        chapter_stands_alike(pre, post, comic, chapter),
    ensures
        chapter_aggregate(pre, comic, chapter) == chapter_aggregate(post, comic, chapter),
{
    lemma_count_same(pre, post, page_in(comic, chapter), page_in(comic, chapter));
    lemma_count_same(pre, post, page_done_in(comic, chapter), page_done_in(comic, chapter));
    lemma_count_same(pre, post, page_open_in(comic, chapter), page_open_in(comic, chapter));
}

/// A comic whose aggregate is not in progress has no page that waits.
pub proof fn lemma_settled_comic_has_none_waiting(
    pages: Seq<DownloadComicPage>,
    comic: Seq<char>,
)
    requires
        comic_aggregate(pages, comic) != AggregateStatus::InProgress,
    ensures
        forall|k: int| !page_waits(pages, comic, k),
{
    lemma_count_equal(pages, page_done_of(comic), page_of(comic));
    lemma_count_zero(pages, page_open_of(comic));
    assert forall|k: int| !page_waits(pages, comic, k) by {
        if page_waits(pages, comic, k) {
            assert(page_of(comic)(pages[k]));
            assert(page_open_of(comic)(pages[k]));
            assert(!page_done_of(comic)(pages[k]));
        }
    }
}

impl TaskStore {
    /// The first page of the comic, in the order of queueing, that waits.
    pub fn first_waiting_page(&self, comic_path_word: &String) -> (found: Option<usize>)
        ensures
            match found {
                Some(f) => is_first_waiting(self.pages@, comic_path_word@, f as int),
                None => forall|k: int| !page_waits(self.pages@, comic_path_word@, k),
            },
    {
        let mut k: usize = 0;
        while k < self.pages.len()
            invariant
                k <= self.pages@.len(),
                forall|g: int| 0 <= g < k ==> !page_waits(self.pages@, comic_path_word@, g),
            decreases self.pages@.len() - k,
        {
            match self.pages[k].download_status {
                DownloadStatus::Waiting => {
                    if self.pages[k].comic_path_word == *comic_path_word {
                        return Some(k);
                    }
                },
                _ => {},
            }
            k += 1;
        }
        None
    }

    /// The waiting page of the comic with the smallest index in the chapter
    /// of the page at place `f`.
    pub fn earliest_in_chapter(&self, comic_path_word: &String, f: usize) -> (best: usize)
        requires
            page_waits(self.pages@, comic_path_word@, f as int),
        ensures
            page_waits(self.pages@, comic_path_word@, best as int),
            self.pages@[best as int].chapter_uuid@ == self.pages@[f as int].chapter_uuid@,
            forall|q: int|
                page_waits(self.pages@, comic_path_word@, q) && self.pages@[q].chapter_uuid@
                    == self.pages@[f as int].chapter_uuid@ ==> self.pages@[best as int].image_index
                    <= self.pages@[q].image_index,
    {
        let mut best: usize = f;
        let mut k: usize = 0;
        while k < self.pages.len()
            invariant
                k <= self.pages@.len(),
                page_waits(self.pages@, comic_path_word@, f as int),
                page_waits(self.pages@, comic_path_word@, best as int),
                self.pages@[best as int].chapter_uuid@ == self.pages@[f as int].chapter_uuid@,
                forall|q: int|
                    0 <= q < k && page_waits(self.pages@, comic_path_word@, q)
                        && self.pages@[q].chapter_uuid@ == self.pages@[f as int].chapter_uuid@
                        ==> self.pages@[best as int].image_index <= self.pages@[q].image_index,
            decreases self.pages@.len() - k,
        {
            match self.pages[k].download_status {
                DownloadStatus::Waiting => {
                    if self.pages[k].image_index < self.pages[best].image_index
                        && self.pages[k].comic_path_word == *comic_path_word
                        && self.pages[k].chapter_uuid == self.pages[f].chapter_uuid {
                        best = k;
                    }
                },
                _ => {},
            }
            k += 1;
        }
        best
    }

    /// One turn of the download loop. Paused, the store is left alone and the
    /// loop is told to sleep. Otherwise the first comic that has anything
    /// waiting is taken: its cover if that waits, else the page of smallest
    /// index in the chapter of its first waiting page. What is taken is marked
    /// as downloading and handed out to be fetched. With nothing waiting the
    /// loop is told to idle.
    pub fn poll(&mut self) -> (action: LoopAction)
        requires
            old(self).wf(),
        ensures
            final(self).wf(),
            poll_rel(*old(self), action, *final(self)),
    {
        if self.pause {
            return LoopAction::Sleep;
        }
        let mut i: usize = 0;
        while i < self.comics.len()
            invariant
                *self == *old(self),
                self.wf(),
                !self.pause,
                i <= self.comics@.len(),
                forall|j: int| 0 <= j < i ==> !comic_outstanding(*self, j),
            decreases self.comics@.len() - i,
        {
            match self.comics[i].cover_download_status {
                DownloadStatus::Waiting => {
                    assert(is_next_comic(*self, i as int));
                    let task = DownloadTask {
                        comic_path_word: self.comics[i].path_word.clone(),
                        target: TaskTarget::Cover,
                        url: self.comics[i].cover.clone(),
                        cache_key: self.comics[i].cover_cache_key.clone(),
                    };
                    self.comics[i].cover_download_status = DownloadStatus::Downloading;
                    proof {
                        assert(comic_keys(self.comics@) =~= comic_keys(old(self).comics@));
                        assert(cover_taken(old(self).comics@, i as int, task, self.comics@));
                    }
                    return LoopAction::Fetch(task);
                },
                _ => {},
            }
            let found = match self.comics[i].download_status {
                AggregateStatus::InProgress => self.first_waiting_page(&self.comics[i].path_word),
                _ => {
                    proof {
                        lemma_settled_comic_has_none_waiting(
                            self.pages@,
                            self.comics@[i as int].path_word@,
                        );
                    }
                    None
                },
            };
            if let Some(f) = found {
                let k = self.earliest_in_chapter(&self.comics[i].path_word, f);
                let ghost comic = self.comics@[i as int].path_word@;
                assert(is_next_comic(*self, i as int));
                assert(is_next_page(self.pages@, comic, k as int)) by {
                    assert(is_first_waiting(self.pages@, comic, f as int));
                }
                let task = DownloadTask {
                    comic_path_word: self.comics[i].path_word.clone(),
                    target: TaskTarget::Page {
                        chapter_uuid: self.pages[k].chapter_uuid.clone(),
                        image_index: self.pages[k].image_index,
                    },
                    url: self.pages[k].url.clone(),
                    cache_key: self.pages[k].cache_key.clone(),
                };
                self.pages[k].download_status = DownloadStatus::Downloading;
                proof {
                    let pre = old(self).pages@;
                    let post = self.pages@;
                    assert(page_keys(post) =~= page_keys(pre));
                    assert(page_taken(pre, k as int, task, post));
                    assert forall|j: int| 0 <= j < self.comics@.len() implies comic_in_step(
                        #[trigger] self.comics@[j],
                        post,
                    ) by {
                        lemma_comic_counts_keep(pre, post, self.comics@[j].path_word@);
                    }
                    assert forall|j: int| 0 <= j < self.chapters@.len() implies chapter_in_step(
                        #[trigger] self.chapters@[j],
                        post,
                    ) by {
                        lemma_chapter_counts_keep(
                            pre,
                            post,
                            self.chapters@[j].comic_path_word@,
                            self.chapters@[j].uuid@,
                        );
                    }
                }
                return LoopAction::Fetch(task);
            }
            i += 1;
        }
        LoopAction::Idle
    }
    /// Records how a fetch ended: `Some` with what decoding found, or `None`
    /// for a fetch that failed. A page or cover that is still being fetched
    /// becomes fetched or failed, and the counters and aggregates of its comic
    /// and chapter follow. If the record was deleted in the meantime, or is no
    /// longer being fetched, the outcome is dropped. Says whether the outcome
    /// was recorded.
    pub fn finish_task(&mut self, task: &DownloadTask, outcome: Option<ImageMeta>) -> (applied:
        bool)
        requires
            old(self).wf(),
        ensures
            final(self).wf(),
            finish_rel(*old(self), *task, outcome, applied, *final(self)),
    {
        match &task.target {
            TaskTarget::Cover => {
                let found = self.find_comic(&task.comic_path_word);
                let i = match found {
                    Some(i) => i,
                    None => {
                        assert forall|j: int| !cover_in_flight(self.comics@, *task, j) by {
                            if cover_in_flight(self.comics@, *task, j) {
                                assert(comic_keys(self.comics@)[j] == task.comic_path_word@);
                            }
                        }
                        return false;
                    },
                };
                proof {
                    assert forall|j: int| cover_in_flight(self.comics@, *task, j) implies j
                        == i by {
                        assert(comic_keys(self.comics@)[j] == comic_keys(self.comics@)[i as int]);
                    }
                }
                match self.comics[i].cover_download_status {
                    DownloadStatus::Downloading => {},
                    _ => {
                        return false;
                    },
                }
                assert(cover_in_flight(self.comics@, *task, i as int));
                match outcome {
                    Some(meta) => {
                        self.comics[i].cover_download_status = DownloadStatus::Success;
                        self.comics[i].cover_width = meta.width;
                        self.comics[i].cover_height = meta.height;
                        self.comics[i].cover_format = meta.format;
                    },
                    None => {
                        self.comics[i].cover_download_status = DownloadStatus::Fail;
                    },
                }
                proof {
                    assert(comic_keys(self.comics@) =~= comic_keys(old(self).comics@));
                    assert(self.comics@ =~= old(self).comics@.update(
                        i as int,
                        cover_settled(old(self).comics@[i as int], outcome),
                    ));
                }
                true
            },
            TaskTarget::Page { chapter_uuid, image_index } => {
                let found = self.find_page(chapter_uuid, *image_index);
                let k = match found {
                    Some(k) => k,
                    None => {
                        assert forall|j: int| !page_in_flight(self.pages@, *task, j) by {
                            if page_in_flight(self.pages@, *task, j) {
                                assert(page_keys(self.pages@)[j] == (chapter_uuid@, *image_index));
                            }
                        }
                        return false;
                    },
                };
                proof {
                    assert forall|j: int| page_in_flight(self.pages@, *task, j) implies j == k by {
                        assert(page_keys(self.pages@)[j] == page_keys(self.pages@)[k as int]);
                    }
                }
                match self.pages[k].download_status {
                    DownloadStatus::Downloading => {},
                    _ => {
                        return false;
                    },
                }
                if !(self.pages[k].comic_path_word == task.comic_path_word) {
                    return false;
                }
                assert(page_in_flight(self.pages@, *task, k as int));
                match outcome {
                    Some(meta) => {
                        self.pages[k].download_status = DownloadStatus::Success;
                        self.pages[k].width = meta.width;
                        self.pages[k].height = meta.height;
                        self.pages[k].format = meta.format;
                    },
                    None => {
                        self.pages[k].download_status = DownloadStatus::Fail;
                    },
                }
                let ghost pre = old(self).pages@;
                let ghost post = self.pages@;
                proof {
                    assert(post =~= pre.update(k as int, page_settled(pre[k as int], outcome)));
                    assert(page_keys(post) =~= page_keys(pre));
                }
                let comic_at = self.find_comic(&task.comic_path_word);
                if let Some(ci) = comic_at {
                    self.refresh_comic(ci);
                }
                let chapter_at = self.find_chapter(chapter_uuid);
                if let Some(ui) = chapter_at {
                    self.refresh_chapter(ui);
                }
                let ghost ci: int = match comic_at {
                    Some(ci) => ci as int,
                    None => -1,
                };
                let ghost ui: int = match chapter_at {
                    Some(ui) => ui as int,
                    None => -1,
                };
                proof {
                    assert(self.pages@ == post);
                    assert(comic_keys(self.comics@) =~= comic_keys(old(self).comics@));
                    assert(chapter_keys(self.chapters@) =~= chapter_keys(old(self).chapters@));
                    assert forall|j: int| 0 <= j < self.comics@.len() implies comic_in_step(
                        #[trigger] self.comics@[j],
                        post,
                    ) by {
                        if j != ci {
                            assert(self.comics@[j] == old(self).comics@[j]);
                            assert(comic_keys(old(self).comics@)[j] == self.comics@[j].path_word@);
                            if ci >= 0 {
                                assert(comic_keys(old(self).comics@)[ci] == task.comic_path_word@);
                            }
                            assert(self.comics@[j].path_word@ != task.comic_path_word@);
                            lemma_comic_counts_keep(pre, post, self.comics@[j].path_word@);
                        }
                    }
                    assert forall|j: int| 0 <= j < self.chapters@.len() implies chapter_in_step(
                        #[trigger] self.chapters@[j],
                        post,
                    ) by {
                        if j != ui {
                            assert(self.chapters@[j] == old(self).chapters@[j]);
                            assert(chapter_keys(old(self).chapters@)[j] == self.chapters@[j].uuid@);
                            if ui >= 0 {
                                assert(chapter_keys(old(self).chapters@)[ui] == chapter_uuid@);
                            }
                            assert(self.chapters@[j].uuid@ != chapter_uuid@);
                            lemma_chapter_counts_keep(
                                pre,
                                post,
                                self.chapters@[j].comic_path_word@,
                                self.chapters@[j].uuid@,
                            );
                        }
                    }
                }
                true
            },
        }
    }
}

} // verus!
