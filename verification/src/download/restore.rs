//! Taking the task store up again from the records that were written before
//! the application stopped.

use crate::table::{
    distinct, kept_places, lemma_merge_step, lemma_merged_distinct, merged, new_positions,
};
use crate::download::rows::{
    DownloadComic, DownloadComicChapter, DownloadComicGroup, DownloadComicPage,
};
use crate::download::store::{
    chapter_in_step, chapter_keys, comic_in_step, comic_keys, group_keys, page_keys, TaskStore,
};
use crate::status::DownloadStatus;
use vstd::prelude::*;

verus! {

/// A state as it is taken up again: a fetch that was under way when the
/// application stopped was lost with it, and waits again.
pub open spec fn status_resumed(status: DownloadStatus) -> DownloadStatus {
    if status == DownloadStatus::Downloading {
        DownloadStatus::Waiting
    } else {
        status
    }
}

/// A page as it is taken up again.
pub open spec fn page_resumed(p: DownloadComicPage) -> DownloadComicPage {
    DownloadComicPage { download_status: status_resumed(p.download_status), ..p }
}

/// A comic as it is taken up again, but for its derived fields.
pub open spec fn comic_resumed(c: DownloadComic) -> DownloadComic {
    DownloadComic { cover_download_status: status_resumed(c.cover_download_status), ..c }
}

/// What taking the store up again does. Of the records with one key the
/// first is kept, in the order given. Pages and covers whose fetch was under
/// way wait again. The derived fields follow (a well-formed store has them
/// from its pages).
pub open spec fn restore_rel(
    comics: Seq<DownloadComic>,
    groups: Seq<DownloadComicGroup>,
    chapters: Seq<DownloadComicChapter>,
    pages: Seq<DownloadComicPage>,
    pause: bool,
    store: TaskStore,
) -> bool {
    &&& store.pause == pause
    &&& store.comics@.len() == kept_places(comic_keys(comics)).len()
    &&& forall|j: int|
        0 <= j < store.comics@.len() ==> comic_resumed(
            comics[#[trigger] kept_places(comic_keys(comics))[j]],
        ).same_but_progress(store.comics@[j])
    &&& store.groups@.len() == kept_places(group_keys(groups)).len()
    &&& forall|j: int|
        0 <= j < store.groups@.len() ==> store.groups@[j] == groups[#[trigger] kept_places(
            group_keys(groups),
        )[j]]
    &&& store.chapters@.len() == kept_places(chapter_keys(chapters)).len()
    &&& forall|j: int|
        0 <= j < store.chapters@.len() ==> chapters[#[trigger] kept_places(
            chapter_keys(chapters),
        )[j]].same_but_progress(store.chapters@[j])
    &&& store.pages@.len() == kept_places(page_keys(pages)).len()
    &&& forall|j: int|
        0 <= j < store.pages@.len() ==> store.pages@[j] == page_resumed(
            pages[#[trigger] kept_places(page_keys(pages))[j]],
        )
}

/// A state as it is taken up again.
fn resumed(status: DownloadStatus) -> (r: DownloadStatus)
    ensures
        r == status_resumed(status),
{
    match status {
        DownloadStatus::Downloading => DownloadStatus::Waiting,
        other => other,
    }
}

impl TaskStore {
    /// Takes the store up again from the records that were written before
    /// the application stopped. Of the records with one key the first is
    /// kept. A page or cover whose fetch was under way waits again, and every
    /// counter and aggregate is derived anew from the pages.
    pub fn restore(
        comics: Vec<DownloadComic>,
        groups: Vec<DownloadComicGroup>,
        chapters: Vec<DownloadComicChapter>,
        pages: Vec<DownloadComicPage>,
        pause: bool,
    ) -> (store: TaskStore)
        requires
            pages@.len() <= i64::MAX,
        ensures
            store.wf(),
            restore_rel(comics@, groups@, chapters@, pages@, pause, store),
    {
        let mut store = TaskStore::new();
        store.pause = pause;
        let ghost none_c = Seq::<Seq<char>>::empty();
        let ghost none_g = Seq::<(Seq<char>, Seq<char>)>::empty();
        let ghost none_p = Seq::<(Seq<char>, i32)>::empty();
        let ghost all_comics = comics@;
        let ghost all_groups = groups@;
        let ghost all_chapters = chapters@;
        let ghost all_pages = pages@;
        assert(comic_keys(store.comics@) =~= merged(none_c, comic_keys(all_comics).take(0)));
        for row in it: comics
            invariant
                it.seq() == all_comics,
                none_c == Seq::<Seq<char>>::empty(),
                store.pause == pause,
                store.groups@.len() == 0,
                store.chapters@.len() == 0,
                store.pages@.len() == 0,
                comic_keys(store.comics@) == merged(
                    none_c,
                    comic_keys(all_comics).take(it.index() as int),
                ),
                store.comics@.len() == new_positions(
                    none_c,
                    comic_keys(all_comics).take(it.index() as int),
                ).len(),
                forall|j: int|
                    0 <= j < store.comics@.len() ==> store.comics@[j] == comic_resumed(
                        all_comics[#[trigger] new_positions(
                            none_c,
                            comic_keys(all_comics).take(it.index() as int),
                        )[j]],
                    ),
        {
            let ghost n = it.index() as int;
            let ghost before = store.comics@;
            proof {
                lemma_merge_step(none_c, comic_keys(all_comics), n, comic_keys(before));
            }
            let found = store.find_comic(&row.path_word);
            proof {
                if let Some(i) = found {
                    assert(comic_keys(before)[i as int] == comic_keys(all_comics)[n]);
                }
            }
            if found.is_none() {
                let mut row = row;
                row.cover_download_status = resumed(row.cover_download_status);
                store.comics.push(row);
                assert(comic_keys(store.comics@) =~= comic_keys(before).push(
                    comic_keys(all_comics)[n],
                ));
            }
        }
        assert(comic_keys(all_comics).take(all_comics.len() as int) =~= comic_keys(all_comics));
        assert(group_keys(store.groups@) =~= merged(none_g, group_keys(all_groups).take(0)));
        for row in it: groups
            invariant
                it.seq() == all_groups,
                none_g == Seq::<(Seq<char>, Seq<char>)>::empty(),
                store.pause == pause,
                store.comics@.len() == kept_places(comic_keys(all_comics)).len(),
                comic_keys(store.comics@) == merged(none_c, comic_keys(all_comics)),
                forall|j: int|
                    0 <= j < store.comics@.len() ==> store.comics@[j] == comic_resumed(
                        all_comics[#[trigger] kept_places(comic_keys(all_comics))[j]],
                    ),
                store.chapters@.len() == 0,
                store.pages@.len() == 0,
                group_keys(store.groups@) == merged(
                    none_g,
                    group_keys(all_groups).take(it.index() as int),
                ),
                store.groups@.len() == new_positions(
                    none_g,
                    group_keys(all_groups).take(it.index() as int),
                ).len(),
                forall|j: int|
                    0 <= j < store.groups@.len() ==> store.groups@[j]
                        == all_groups[#[trigger] new_positions(
                        none_g,
                        group_keys(all_groups).take(it.index() as int),
                    )[j]],
        {
            let ghost n = it.index() as int;
            let ghost before = store.groups@;
            proof {
                lemma_merge_step(none_g, group_keys(all_groups), n, group_keys(before));
            }
            let found = store.find_group(&row.comic_path_word, &row.group_path_word);
            proof {
                if let Some(i) = found {
                    assert(group_keys(before)[i as int] == group_keys(all_groups)[n]);
                }
            }
            if found.is_none() {
                store.groups.push(row);
                assert(group_keys(store.groups@) =~= group_keys(before).push(
                    group_keys(all_groups)[n],
                ));
            }
        }
        assert(group_keys(all_groups).take(all_groups.len() as int) =~= group_keys(all_groups));
        assert(chapter_keys(store.chapters@) =~= merged(
            none_c,
            chapter_keys(all_chapters).take(0),
        ));
        for row in it: chapters
            invariant
                it.seq() == all_chapters,
                none_c == Seq::<Seq<char>>::empty(),
                store.pause == pause,
                store.comics@.len() == kept_places(comic_keys(all_comics)).len(),
                comic_keys(store.comics@) == merged(none_c, comic_keys(all_comics)),
                forall|j: int|
                    0 <= j < store.comics@.len() ==> store.comics@[j] == comic_resumed(
                        all_comics[#[trigger] kept_places(comic_keys(all_comics))[j]],
                    ),
                store.groups@.len() == kept_places(group_keys(all_groups)).len(),
                group_keys(store.groups@) == merged(none_g, group_keys(all_groups)),
                forall|j: int|
                    0 <= j < store.groups@.len() ==> store.groups@[j]
                        == all_groups[#[trigger] kept_places(group_keys(all_groups))[j]],
                store.pages@.len() == 0,
                chapter_keys(store.chapters@) == merged(
                    none_c,
                    chapter_keys(all_chapters).take(it.index() as int),
                ),
                store.chapters@.len() == new_positions(
                    none_c,
                    chapter_keys(all_chapters).take(it.index() as int),
                ).len(),
                forall|j: int|
                    0 <= j < store.chapters@.len() ==> store.chapters@[j]
                        == all_chapters[#[trigger] new_positions(
                        none_c,
                        chapter_keys(all_chapters).take(it.index() as int),
                    )[j]],
        {
            let ghost n = it.index() as int;
            let ghost before = store.chapters@;
            proof {
                lemma_merge_step(none_c, chapter_keys(all_chapters), n, chapter_keys(before));
            }
            let found = store.find_chapter(&row.uuid);
            proof {
                if let Some(i) = found {
                    assert(chapter_keys(before)[i as int] == chapter_keys(all_chapters)[n]);
                }
            }
            if found.is_none() {
                store.chapters.push(row);
                assert(chapter_keys(store.chapters@) =~= chapter_keys(before).push(
                    chapter_keys(all_chapters)[n],
                ));
            }
        }
        assert(chapter_keys(all_chapters).take(all_chapters.len() as int) =~= chapter_keys(
            all_chapters,
        ));
        assert(page_keys(store.pages@) =~= merged(none_p, page_keys(all_pages).take(0)));
        for row in it: pages
            invariant
                it.seq() == all_pages,
                all_pages.len() <= i64::MAX,
                none_p == Seq::<(Seq<char>, i32)>::empty(),
                store.pause == pause,
                store.comics@.len() == kept_places(comic_keys(all_comics)).len(),
                comic_keys(store.comics@) == merged(none_c, comic_keys(all_comics)),
                forall|j: int|
                    0 <= j < store.comics@.len() ==> store.comics@[j] == comic_resumed(
                        all_comics[#[trigger] kept_places(comic_keys(all_comics))[j]],
                    ),
                store.groups@.len() == kept_places(group_keys(all_groups)).len(),
                group_keys(store.groups@) == merged(none_g, group_keys(all_groups)),
                forall|j: int|
                    0 <= j < store.groups@.len() ==> store.groups@[j]
                        == all_groups[#[trigger] kept_places(group_keys(all_groups))[j]],
                store.chapters@.len() == kept_places(chapter_keys(all_chapters)).len(),
                chapter_keys(store.chapters@) == merged(none_c, chapter_keys(all_chapters)),
                forall|j: int|
                    0 <= j < store.chapters@.len() ==> store.chapters@[j]
                        == all_chapters[#[trigger] kept_places(chapter_keys(all_chapters))[j]],
                page_keys(store.pages@) == merged(
                    none_p,
                    page_keys(all_pages).take(it.index() as int),
                ),
                store.pages@.len() <= it.index(),
                store.pages@.len() == new_positions(
                    none_p,
                    page_keys(all_pages).take(it.index() as int),
                ).len(),
                forall|j: int|
                    0 <= j < store.pages@.len() ==> store.pages@[j] == page_resumed(
                        all_pages[#[trigger] new_positions(
                            none_p,
                            page_keys(all_pages).take(it.index() as int),
                        )[j]],
                    ),
        {
            let ghost n = it.index() as int;
            let ghost before = store.pages@;
            proof {
                lemma_merge_step(none_p, page_keys(all_pages), n, page_keys(before));
            }
            let found = store.find_page(&row.chapter_uuid, row.image_index);
            proof {
                if let Some(i) = found {
                    assert(page_keys(before)[i as int] == page_keys(all_pages)[n]);
                }
            }
            if found.is_none() {
                let mut row = row;
                row.download_status = resumed(row.download_status);
                store.pages.push(row);
                assert(page_keys(store.pages@) =~= page_keys(before).push(page_keys(all_pages)[n]));
            }
        }
        proof {
            assert(page_keys(all_pages).take(all_pages.len() as int) =~= page_keys(all_pages));
            lemma_merged_distinct(none_c, comic_keys(all_comics));
            lemma_merged_distinct(none_g, group_keys(all_groups));
            lemma_merged_distinct(none_c, chapter_keys(all_chapters));
            lemma_merged_distinct(none_p, page_keys(all_pages));
        }
        let ghost kept_comics = store.comics@;
        let ghost kept_chapters = store.chapters@;
        let mut i: usize = 0;
        while i < store.comics.len()
            invariant
                i <= store.comics@.len(),
                store.pause == pause,
                store.pages@.len() <= i64::MAX,
                store.comics@.len() == kept_comics.len(),
                comic_keys(store.comics@) == comic_keys(kept_comics),
                forall|j: int|
                    0 <= j < kept_comics.len() ==> (#[trigger] kept_comics[j]).same_but_progress(
                        store.comics@[j],
                    ),
                forall|j: int|
                    0 <= j < i ==> comic_in_step(#[trigger] store.comics@[j], store.pages@),
                store.groups@.len() == kept_places(group_keys(all_groups)).len(),
                distinct(group_keys(store.groups@)),
                forall|j: int|
                    0 <= j < store.groups@.len() ==> store.groups@[j]
                        == all_groups[#[trigger] kept_places(group_keys(all_groups))[j]],
                store.chapters@ == kept_chapters,
                store.pages@.len() == kept_places(page_keys(all_pages)).len(),
                distinct(page_keys(store.pages@)),
                forall|j: int|
                    0 <= j < store.pages@.len() ==> store.pages@[j] == page_resumed(
                        all_pages[#[trigger] kept_places(page_keys(all_pages))[j]],
                    ),
            decreases store.comics@.len() - i,
        {
            let ghost before = store.comics@;
            store.refresh_comic(i);
            assert(comic_keys(store.comics@) =~= comic_keys(before));
            i += 1;
        }
        let mut u: usize = 0;
        while u < store.chapters.len()
            invariant
                u <= store.chapters@.len(),
                store.pause == pause,
                store.pages@.len() <= i64::MAX,
                store.comics@.len() == kept_comics.len(),
                distinct(comic_keys(store.comics@)),
                forall|j: int|
                    0 <= j < kept_comics.len() ==> (#[trigger] kept_comics[j]).same_but_progress(
                        store.comics@[j],
                    ),
                forall|j: int|
                    0 <= j < store.comics@.len() ==> comic_in_step(
                        #[trigger] store.comics@[j],
                        store.pages@,
                    ),
                store.groups@.len() == kept_places(group_keys(all_groups)).len(),
                distinct(group_keys(store.groups@)),
                forall|j: int|
                    0 <= j < store.groups@.len() ==> store.groups@[j]
                        == all_groups[#[trigger] kept_places(group_keys(all_groups))[j]],
                store.chapters@.len() == kept_chapters.len(),
                chapter_keys(store.chapters@) == chapter_keys(kept_chapters),
                forall|j: int|
                    0 <= j < kept_chapters.len() ==> (
                    #[trigger] kept_chapters[j]).same_but_progress(store.chapters@[j]),
                forall|j: int|
                    0 <= j < u ==> chapter_in_step(#[trigger] store.chapters@[j], store.pages@),
                store.pages@.len() == kept_places(page_keys(all_pages)).len(),
                distinct(page_keys(store.pages@)),
                forall|j: int|
                    0 <= j < store.pages@.len() ==> store.pages@[j] == page_resumed(
                        all_pages[#[trigger] kept_places(page_keys(all_pages))[j]],
                    ),
            decreases store.chapters@.len() - u,
        {
            let ghost before = store.chapters@;
            store.refresh_chapter(u);
            assert(chapter_keys(store.chapters@) =~= chapter_keys(before));
            u += 1;
        }
        store
    }
}

} // verus!
