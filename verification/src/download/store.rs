//! The task store: what is queued for download and how far it has come.

use crate::count::{count, lemma_count_push};
use crate::download::rows::{
    DownloadComic, DownloadComicChapter, DownloadComicGroup, DownloadComicPage,
};
use crate::status::{AggregateStatus, DownloadStatus};
use crate::table::{distinct, keys};
use vstd::prelude::*;

verus! {

/// The four tables of the download manager and its pause flag. The order of
/// the records in a table is the order in which they were queued.
#[derive(Clone, Debug, PartialEq)]
pub struct TaskStore {
    pub comics: Vec<DownloadComic>,
    pub groups: Vec<DownloadComicGroup>,
    pub chapters: Vec<DownloadComicChapter>,
    pub pages: Vec<DownloadComicPage>,
    pub pause: bool,
}

/// The pages of one comic.
pub open spec fn page_of(comic: Seq<char>) -> spec_fn(DownloadComicPage) -> bool {
    |p: DownloadComicPage| p.comic_path_word@ == comic
}

/// The pages of one comic that were fetched.
pub open spec fn page_done_of(comic: Seq<char>) -> spec_fn(DownloadComicPage) -> bool {
    |p: DownloadComicPage|
        p.comic_path_word@ == comic && p.download_status == DownloadStatus::Success
}

/// The pages of one comic that wait or are being fetched.
pub open spec fn page_open_of(comic: Seq<char>) -> spec_fn(DownloadComicPage) -> bool {
    |p: DownloadComicPage|
        p.comic_path_word@ == comic && !p.download_status.spec_is_terminal()
}

/// The pages of one chapter of a comic.
pub open spec fn page_in(comic: Seq<char>, chapter: Seq<char>) -> spec_fn(
    DownloadComicPage,
) -> bool {
    |p: DownloadComicPage| p.comic_path_word@ == comic && p.chapter_uuid@ == chapter
}

/// The pages of one chapter of a comic that were fetched.
pub open spec fn page_done_in(comic: Seq<char>, chapter: Seq<char>) -> spec_fn(
    DownloadComicPage,
) -> bool {
    |p: DownloadComicPage|
        p.comic_path_word@ == comic && p.chapter_uuid@ == chapter && p.download_status
            == DownloadStatus::Success
}

/// The pages of one chapter of a comic that wait or are being fetched.
pub open spec fn page_open_in(comic: Seq<char>, chapter: Seq<char>) -> spec_fn(
    DownloadComicPage,
) -> bool {
    |p: DownloadComicPage|
        p.comic_path_word@ == comic && p.chapter_uuid@ == chapter
            && !p.download_status.spec_is_terminal()
}

/// The aggregate state of a comic, from the pages recorded under it.
pub open spec fn comic_aggregate(
    pages: Seq<DownloadComicPage>,
    comic: Seq<char>,
) -> AggregateStatus {
    AggregateStatus::spec_of_counts(
        count(pages, page_of(comic)),
        count(pages, page_done_of(comic)),
        count(pages, page_open_of(comic)),
    )
}

/// The aggregate state of a chapter, from the pages recorded under it.
pub open spec fn chapter_aggregate(
    pages: Seq<DownloadComicPage>,
    comic: Seq<char>,
    chapter: Seq<char>,
) -> AggregateStatus {
    AggregateStatus::spec_of_counts(
        count(pages, page_in(comic, chapter)),
        count(pages, page_done_in(comic, chapter)),
        count(pages, page_open_in(comic, chapter)),
    )
}

/// The key of a group: its comic and its own path word.
pub open spec fn group_key(g: DownloadComicGroup) -> (Seq<char>, Seq<char>) {
    (g.comic_path_word@, g.group_path_word@)
}

/// The key of a page: its chapter and its place in it.
pub open spec fn page_key(p: DownloadComicPage) -> (Seq<char>, i32) {
    (p.chapter_uuid@, p.image_index)
}

/// The key of a comic: its path word.
pub open spec fn comic_key(c: DownloadComic) -> Seq<char> {
    c.path_word@
}

/// The key of a chapter: its uuid.
pub open spec fn chapter_key(c: DownloadComicChapter) -> Seq<char> {
    c.uuid@
}

/// The keys of the comics, in the order of the table.
pub open spec fn comic_keys(comics: Seq<DownloadComic>) -> Seq<Seq<char>> {
    keys(comics, |c: DownloadComic| comic_key(c))
}

/// The keys of the groups, in the order of the table.
pub open spec fn group_keys(groups: Seq<DownloadComicGroup>) -> Seq<(Seq<char>, Seq<char>)> {
    keys(groups, |g: DownloadComicGroup| group_key(g))
}

/// The keys of the chapters, in the order of the table.
pub open spec fn chapter_keys(chapters: Seq<DownloadComicChapter>) -> Seq<Seq<char>> {
    keys(chapters, |c: DownloadComicChapter| chapter_key(c))
}

/// The keys of the pages, in the order of the table.
pub open spec fn page_keys(pages: Seq<DownloadComicPage>) -> Seq<(Seq<char>, i32)> {
    keys(pages, |p: DownloadComicPage| page_key(p))
}

/// The derived fields of a comic's record say what its pages say.
pub open spec fn comic_in_step(c: DownloadComic, pages: Seq<DownloadComicPage>) -> bool {
    &&& c.image_count == count(pages, page_of(c.path_word@))
    &&& c.image_count_success == count(pages, page_done_of(c.path_word@))
    &&& c.download_status == comic_aggregate(pages, c.path_word@)
}

/// The derived field of a chapter's record says what its pages say.
pub open spec fn chapter_in_step(c: DownloadComicChapter, pages: Seq<DownloadComicPage>) -> bool {
    c.download_status == chapter_aggregate(pages, c.comic_path_word@, c.uuid@)
}

impl TaskStore {
    /// Every record has its own key, the page table fits the counters, and
    /// every derived field says what the pages say.
    pub open spec fn wf(&self) -> bool {
        &&& self.pages@.len() <= i64::MAX
        &&& distinct(comic_keys(self.comics@))
        &&& distinct(group_keys(self.groups@))
        &&& distinct(chapter_keys(self.chapters@))
        &&& distinct(page_keys(self.pages@))
        &&& forall|i: int|
            0 <= i < self.comics@.len() ==> comic_in_step(#[trigger] self.comics@[i], self.pages@)
        &&& forall|i: int|
            0 <= i < self.chapters@.len() ==> chapter_in_step(
                #[trigger] self.chapters@[i],
                self.pages@,
            )
    }

    /// A store with nothing queued, not paused.
    pub fn new() -> (store: TaskStore)
        ensures
            store.wf(),
            store.comics@.len() == 0,
            store.groups@.len() == 0,
            store.chapters@.len() == 0,
            store.pages@.len() == 0,
            !store.pause,
    {
        TaskStore {
            comics: Vec::new(),
            groups: Vec::new(),
            chapters: Vec::new(),
            pages: Vec::new(),
            pause: false,
        }
    }

    /// Whether the loop is held back from starting new fetches.
    pub fn download_is_pause(&self) -> (paused: bool)
        ensures
            paused == self.pause,
    {
        self.pause
    }

    /// Holds the loop back from starting new fetches, or lets it go on. No
    /// record changes: a fetch that is under way ends as it would have.
    pub fn download_set_pause(&mut self, pause: bool)
        ensures
            final(self).pause == pause,
            final(self).comics == old(self).comics,
            final(self).groups == old(self).groups,
            final(self).chapters == old(self).chapters,
            final(self).pages == old(self).pages,
    {
        self.pause = pause;
    }

    /// The place of the comic with this path word.
    pub fn find_comic(&self, path_word: &String) -> (found: Option<usize>)
        ensures
            match found {
                Some(i) => i < self.comics@.len() && self.comics@[i as int].path_word@
                    == path_word@ && forall|j: int|
                    0 <= j < i ==> self.comics@[j].path_word@ != path_word@,
                None => !comic_keys(self.comics@).contains(path_word@),
            },
    {
        let mut i: usize = 0;
        while i < self.comics.len()
            invariant
                i <= self.comics@.len(),
                forall|j: int| 0 <= j < i ==> self.comics@[j].path_word@ != path_word@,
            decreases self.comics@.len() - i,
        {
            if self.comics[i].path_word == *path_word {
                return Some(i);
            }
            i += 1;
        }
        assert(!comic_keys(self.comics@).contains(path_word@)) by {
            if comic_keys(self.comics@).contains(path_word@) {
                let j = choose|j: int|
                    0 <= j < comic_keys(self.comics@).len() && comic_keys(self.comics@)[j]
                        == path_word@;
                assert(self.comics@[j].path_word@ == path_word@);
            }
        }
        None
    }

    /// The place of the group with this key.
    pub fn find_group(&self, comic_path_word: &String, group_path_word: &String) -> (found: Option<
        usize,
    >)
        ensures
            match found {
                Some(i) => i < self.groups@.len() && group_key(self.groups@[i as int]) == (
                    comic_path_word@,
                    group_path_word@,
                ) && forall|j: int|
                    0 <= j < i ==> group_key(self.groups@[j]) != (
                        comic_path_word@,
                        group_path_word@,
                    ),
                None => !group_keys(self.groups@).contains((comic_path_word@, group_path_word@)),
            },
    {
        let mut i: usize = 0;
        while i < self.groups.len()
            invariant
                i <= self.groups@.len(),
                forall|j: int|
                    0 <= j < i ==> group_key(self.groups@[j]) != (
                        comic_path_word@,
                        group_path_word@,
                    ),
            decreases self.groups@.len() - i,
        {
            if self.groups[i].comic_path_word == *comic_path_word && self.groups[i].group_path_word
                == *group_path_word {
                return Some(i);
            }
            i += 1;
        }
        assert(!group_keys(self.groups@).contains((comic_path_word@, group_path_word@))) by {
            let key = (comic_path_word@, group_path_word@);
            if group_keys(self.groups@).contains(key) {
                let j = choose|j: int|
                    0 <= j < group_keys(self.groups@).len() && group_keys(self.groups@)[j] == key;
                assert(group_key(self.groups@[j]) == key);
            }
        }
        None
    }

    /// The place of the chapter with this uuid.
    pub fn find_chapter(&self, uuid: &String) -> (found: Option<usize>)
        ensures
            match found {
                Some(i) => i < self.chapters@.len() && self.chapters@[i as int].uuid@ == uuid@
                    && forall|j: int| 0 <= j < i ==> self.chapters@[j].uuid@ != uuid@,
                None => !chapter_keys(self.chapters@).contains(uuid@),
            },
    {
        let mut i: usize = 0;
        while i < self.chapters.len()
            invariant
                i <= self.chapters@.len(),
                forall|j: int| 0 <= j < i ==> self.chapters@[j].uuid@ != uuid@,
            decreases self.chapters@.len() - i,
        {
            if self.chapters[i].uuid == *uuid {
                return Some(i);
            }
            i += 1;
        }
        assert(!chapter_keys(self.chapters@).contains(uuid@)) by {
            if chapter_keys(self.chapters@).contains(uuid@) {
                let j = choose|j: int|
                    0 <= j < chapter_keys(self.chapters@).len() && chapter_keys(
                        self.chapters@,
                    )[j] == uuid@;
                assert(self.chapters@[j].uuid@ == uuid@);
            }
        }
        None
    }

    /// The place of the page with this key.
    pub fn find_page(&self, chapter_uuid: &String, image_index: i32) -> (found: Option<usize>)
        ensures
            match found {
                Some(i) => i < self.pages@.len() && page_key(self.pages@[i as int]) == (
                    chapter_uuid@,
                    image_index,
                ) && forall|j: int|
                    0 <= j < i ==> page_key(self.pages@[j]) != (chapter_uuid@, image_index),
                None => !page_keys(self.pages@).contains((chapter_uuid@, image_index)),
            },
    {
        let mut i: usize = 0;
        while i < self.pages.len()
            invariant
                i <= self.pages@.len(),
                forall|j: int|
                    0 <= j < i ==> page_key(self.pages@[j]) != (chapter_uuid@, image_index),
            decreases self.pages@.len() - i,
        {
            if self.pages[i].image_index == image_index && self.pages[i].chapter_uuid
                == *chapter_uuid {
                return Some(i);
            }
            i += 1;
        }
        assert(!page_keys(self.pages@).contains((chapter_uuid@, image_index))) by {
            let key = (chapter_uuid@, image_index);
            if page_keys(self.pages@).contains(key) {
                let j = choose|j: int|
                    0 <= j < page_keys(self.pages@).len() && page_keys(self.pages@)[j] == key;
                assert(page_key(self.pages@[j]) == key);
            }
        }
        None
    }

    /// Brings the derived fields of one comic's record in step with the pages.
    pub fn refresh_comic(&mut self, i: usize)
        requires
            i < old(self).comics@.len(),
            old(self).pages@.len() <= i64::MAX,
        ensures
            final(self).pages == old(self).pages,
            final(self).groups == old(self).groups,
            final(self).chapters == old(self).chapters,
            final(self).pause == old(self).pause,
            final(self).comics@.len() == old(self).comics@.len(),
            forall|j: int|
                0 <= j < old(self).comics@.len() && j != i ==> final(self).comics@[j] == old(
                    self,
                ).comics@[j],
            old(self).comics@[i as int].same_but_progress(final(self).comics@[i as int]),
            comic_in_step(final(self).comics@[i as int], final(self).pages@),
    {
        let mut total: usize = 0;
        let mut done: usize = 0;
        let mut open: usize = 0;
        let mut k: usize = 0;
        let ghost comic = self.comics@[i as int].path_word@;
        while k < self.pages.len()
            invariant
                i < self.comics@.len(),
                comic == self.comics@[i as int].path_word@,
                k <= self.pages@.len(),
                total == count(self.pages@.take(k as int), page_of(comic)),
                done == count(self.pages@.take(k as int), page_done_of(comic)),
                open == count(self.pages@.take(k as int), page_open_of(comic)),
                total <= k,
                done <= k,
                open <= k,
            decreases self.pages@.len() - k,
        {
            proof {
                let head = self.pages@.take(k as int);
                let page = self.pages@[k as int];
                assert(self.pages@.take(k + 1) =~= head.push(page));
                lemma_count_push(head, page, page_of(comic));
                lemma_count_push(head, page, page_done_of(comic));
                lemma_count_push(head, page, page_open_of(comic));
            }
            if self.pages[k].comic_path_word == self.comics[i].path_word {
                total += 1;
                match self.pages[k].download_status {
                    DownloadStatus::Success => {
                        done += 1;
                    },
                    DownloadStatus::Fail => {},
                    _ => {
                        open += 1;
                    },
                }
            }
            k += 1;
        }
        assert(self.pages@.take(k as int) =~= self.pages@);
        self.comics[i].image_count = total as i64;
        self.comics[i].image_count_success = done as i64;
        self.comics[i].download_status = AggregateStatus::of_counts(total, done, open);
    }

    /// Brings the derived field of one chapter's record in step with the pages.
    pub fn refresh_chapter(&mut self, i: usize)
        requires
            i < old(self).chapters@.len(),
        ensures
            final(self).pages == old(self).pages,
            final(self).groups == old(self).groups,
            final(self).comics == old(self).comics,
            final(self).pause == old(self).pause,
            final(self).chapters@.len() == old(self).chapters@.len(),
            forall|j: int|
                0 <= j < old(self).chapters@.len() && j != i ==> final(self).chapters@[j] == old(
                    self,
                ).chapters@[j],
            old(self).chapters@[i as int].same_but_progress(final(self).chapters@[i as int]),
            chapter_in_step(final(self).chapters@[i as int], final(self).pages@),
    {
        let mut total: usize = 0;
        let mut done: usize = 0;
        let mut open: usize = 0;
        let mut k: usize = 0;
        let ghost chapter = self.chapters@[i as int].uuid@;
        let ghost comic = self.chapters@[i as int].comic_path_word@;
        while k < self.pages.len()
            invariant
                i < self.chapters@.len(),
                chapter == self.chapters@[i as int].uuid@,
                comic == self.chapters@[i as int].comic_path_word@,
                k <= self.pages@.len(),
                total == count(self.pages@.take(k as int), page_in(comic, chapter)),
                done == count(self.pages@.take(k as int), page_done_in(comic, chapter)),
                open == count(self.pages@.take(k as int), page_open_in(comic, chapter)),
                total <= k,
                done <= k,
                open <= k,
            decreases self.pages@.len() - k,
        {
            proof {
                let head = self.pages@.take(k as int);
                let page = self.pages@[k as int];
                assert(self.pages@.take(k + 1) =~= head.push(page));
                lemma_count_push(head, page, page_in(comic, chapter));
                lemma_count_push(head, page, page_done_in(comic, chapter));
                lemma_count_push(head, page, page_open_in(comic, chapter));
            }
            if self.pages[k].chapter_uuid == self.chapters[i].uuid && self.pages[k].comic_path_word
                == self.chapters[i].comic_path_word {
                total += 1;
                match self.pages[k].download_status {
                    DownloadStatus::Success => {
                        done += 1;
                    },
                    DownloadStatus::Fail => {},
                    _ => {
                        open += 1;
                    },
                }
            }
            k += 1;
        }
        assert(self.pages@.take(k as int) =~= self.pages@);
        self.chapters[i].download_status = AggregateStatus::of_counts(total, done, open);
    }
}

} // verus!
