//! Reading the task store: what was downloaded under a cache key, and the
//! listings that are shown.

use crate::download::rows::{
    DownloadComic, DownloadComicChapter, DownloadComicGroup, DownloadComicPage,
};
use crate::download::store::TaskStore;
use crate::status::DownloadStatus;
use crate::udto::{
    copy_option, UiDownloadComic, UiDownloadComicChapter, UiDownloadComicGroup,
    UiDownloadComicPage,
};
use vstd::prelude::*;
use vstd::std_specs::convert::FromSpec;

verus! {

/// The comic at place `i` has a downloaded cover under `cache_key`.
pub open spec fn cover_is_there(comics: Seq<DownloadComic>, cache_key: Seq<char>, i: int) -> bool {
    &&& 0 <= i < comics.len()
    &&& comics[i].cover_cache_key@ == cache_key
    &&& comics[i].cover_download_status == DownloadStatus::Success
}

/// The page at place `i` was downloaded under `cache_key`.
pub open spec fn page_is_there(
    pages: Seq<DownloadComicPage>,
    cache_key: Seq<char>,
    i: int,
) -> bool {
    &&& 0 <= i < pages.len()
    &&& pages[i].cache_key@ == cache_key
    &&& pages[i].download_status == DownloadStatus::Success
}

/// The groups of one comic.
pub open spec fn group_of(comic: Seq<char>) -> spec_fn(DownloadComicGroup) -> bool {
    |g: DownloadComicGroup| g.comic_path_word@ == comic
}

/// The chapters of one comic.
pub open spec fn chapter_of(comic: Seq<char>) -> spec_fn(DownloadComicChapter) -> bool {
    |c: DownloadComicChapter| c.comic_path_word@ == comic
}

/// The pages of one chapter of a comic.
pub open spec fn page_of_chapter(comic: Seq<char>, chapter: Seq<char>) -> spec_fn(
    DownloadComicPage,
) -> bool {
    |p: DownloadComicPage| p.comic_path_word@ == comic && p.chapter_uuid@ == chapter
}

impl DownloadComic {
    /// A copy of the record.
    pub fn duplicate(&self) -> (copy: DownloadComic)
        ensures
            copy == *self,
    {
        DownloadComic {
            path_word: self.path_word.clone(),
            alias: copy_option(&self.alias),
            author: self.author.clone(),
            b_404: self.b_404,
            b_hidden: self.b_hidden,
            ban: self.ban,
            brief: self.brief.clone(),
            close_comment: self.close_comment,
            close_roast: self.close_roast,
            cover: self.cover.clone(),
            datetime_updated: self.datetime_updated.clone(),
            females: self.females.clone(),
            free_type: self.free_type.clone(),
            img_type: self.img_type,
            males: self.males.clone(),
            name: self.name.clone(),
            popular: self.popular,
            reclass: self.reclass.clone(),
            region: self.region.clone(),
            restrict: self.restrict.clone(),
            seo_baidu: self.seo_baidu.clone(),
            status: self.status.clone(),
            theme: self.theme.clone(),
            uuid: self.uuid.clone(),
            cover_cache_key: self.cover_cache_key.clone(),
            cover_download_status: self.cover_download_status,
            cover_format: self.cover_format.clone(),
            cover_width: self.cover_width,
            cover_height: self.cover_height,
            image_count: self.image_count,
            image_count_success: self.image_count_success,
            download_status: self.download_status,
        }
    }
}

impl DownloadComicGroup {
    /// A copy of the record.
    pub fn duplicate(&self) -> (copy: DownloadComicGroup)
        ensures
            copy == *self,
    {
        DownloadComicGroup {
            comic_path_word: self.comic_path_word.clone(),
            group_path_word: self.group_path_word.clone(),
            count: self.count,
            name: self.name.clone(),
            group_rank: self.group_rank,
        }
    }
}

impl DownloadComicChapter {
    /// A copy of the record.
    pub fn duplicate(&self) -> (copy: DownloadComicChapter)
        ensures
            copy == *self,
    {
        DownloadComicChapter {
            comic_path_word: self.comic_path_word.clone(),
            uuid: self.uuid.clone(),
            comic_id: self.comic_id.clone(),
            count: self.count,
            datetime_created: self.datetime_created.clone(),
            group_path_word: self.group_path_word.clone(),
            img_type: self.img_type,
            index: self.index,
            is_long: self.is_long,
            name: self.name.clone(),
            news: self.news.clone(),
            next: copy_option(&self.next),
            ordered: self.ordered,
            prev: copy_option(&self.prev),
            size: self.size,
            type_field: self.type_field,
            download_status: self.download_status,
        }
    }
}

impl DownloadComicPage {
    /// A copy of the record.
    pub fn duplicate(&self) -> (copy: DownloadComicPage)
        ensures
            copy == *self,
    {
        DownloadComicPage {
            comic_path_word: self.comic_path_word.clone(),
            chapter_uuid: self.chapter_uuid.clone(),
            image_index: self.image_index,
            url: self.url.clone(),
            cache_key: self.cache_key.clone(),
            download_status: self.download_status,
            width: self.width,
            height: self.height,
            format: self.format.clone(),
        }
    }
}

impl TaskStore {
    /// The first comic whose cover was downloaded under `cache_key`.
    pub fn has_download_cover(&self, cache_key: &String) -> (found: Option<&DownloadComic>)
        ensures
            match found {
                Some(model) => exists|i: int|
                    {
                        &&& #[trigger] cover_is_there(self.comics@, cache_key@, i)
                        &&& *model == self.comics@[i]
                        &&& forall|j: int|
                            0 <= j < i ==> !cover_is_there(self.comics@, cache_key@, j)
                    },
                None => forall|i: int| !cover_is_there(self.comics@, cache_key@, i),
            },
    {
        let mut i: usize = 0;
        while i < self.comics.len()
            invariant
                i <= self.comics@.len(),
                forall|j: int| 0 <= j < i ==> !cover_is_there(self.comics@, cache_key@, j),
            decreases self.comics@.len() - i,
        {
            match self.comics[i].cover_download_status {
                DownloadStatus::Success => {
                    if self.comics[i].cover_cache_key == *cache_key {
                        assert(cover_is_there(self.comics@, cache_key@, i as int));
                        return Some(&self.comics[i]);
                    }
                },
                _ => {},
            }
            i += 1;
        }
        None
    }

    /// The first page that was downloaded under `cache_key`.
    pub fn has_download_pic(&self, cache_key: &String) -> (found: Option<&DownloadComicPage>)
        ensures
            match found {
                Some(model) => exists|i: int|
                    {
                        &&& #[trigger] page_is_there(self.pages@, cache_key@, i)
                        &&& *model == self.pages@[i]
                        &&& forall|j: int| 0 <= j < i ==> !page_is_there(self.pages@, cache_key@, j)
                    },
                None => forall|i: int| !page_is_there(self.pages@, cache_key@, i),
            },
    {
        let mut i: usize = 0;
        while i < self.pages.len()
            invariant
                i <= self.pages@.len(),
                forall|j: int| 0 <= j < i ==> !page_is_there(self.pages@, cache_key@, j),
            decreases self.pages@.len() - i,
        {
            match self.pages[i].download_status {
                DownloadStatus::Success => {
                    if self.pages[i].cache_key == *cache_key {
                        assert(page_is_there(self.pages@, cache_key@, i as int));
                        return Some(&self.pages[i]);
                    }
                },
                _ => {},
            }
            i += 1;
        }
        None
    }

    /// Every queued comic, as it is shown, in the order of queueing.
    pub fn download_comics(&self) -> (list: Vec<UiDownloadComic>)
        ensures
            list@ == self.comics@.map_values(
                |c: DownloadComic| <UiDownloadComic as FromSpec<DownloadComic>>::from_spec(c),
            ),
    {
        let mut list: Vec<UiDownloadComic> = Vec::new();
        let mut i: usize = 0;
        while i < self.comics.len()
            invariant
                i <= self.comics@.len(),
                list@ == self.comics@.take(i as int).map_values(
                    |c: DownloadComic| <UiDownloadComic as FromSpec<DownloadComic>>::from_spec(c),
                ),
            decreases self.comics@.len() - i,
        {
            list.push(UiDownloadComic::from(self.comics[i].duplicate()));
            proof {
                let f = |c: DownloadComic|
                    <UiDownloadComic as FromSpec<DownloadComic>>::from_spec(c);
                assert(self.comics@.take(i + 1).map_values(f) =~= self.comics@.take(
                    i as int,
                ).map_values(f).push(f(self.comics@[i as int])));
            }
            i += 1;
        }
        assert(self.comics@.take(i as int) =~= self.comics@);
        list
    }

    /// The groups of a comic, as they are shown, in the order of queueing.
    pub fn download_comic_groups(&self, comic_path_word: &String) -> (list: Vec<
        UiDownloadComicGroup,
    >)
        ensures
            list@ == self.groups@.filter(group_of(comic_path_word@)).map_values(
                |g: DownloadComicGroup|
                    <UiDownloadComicGroup as FromSpec<DownloadComicGroup>>::from_spec(g),
            ),
    {
        let ghost keep = group_of(comic_path_word@);
        let ghost f = |g: DownloadComicGroup|
            <UiDownloadComicGroup as FromSpec<DownloadComicGroup>>::from_spec(g);
        let mut list: Vec<UiDownloadComicGroup> = Vec::new();
        let mut i: usize = 0;
        proof {
            reveal(Seq::filter);
            assert(self.groups@.take(0).filter(keep).map_values(f) =~= list@);
        }
        while i < self.groups.len()
            invariant
                i <= self.groups@.len(),
                keep == group_of(comic_path_word@),
                f == |g: DownloadComicGroup|
                    <UiDownloadComicGroup as FromSpec<DownloadComicGroup>>::from_spec(g),
                list@ == self.groups@.take(i as int).filter(keep).map_values(f),
            decreases self.groups@.len() - i,
        {
            proof {
                reveal(Seq::filter);
                assert(self.groups@.take(i + 1).drop_last() =~= self.groups@.take(i as int));
            }
            if self.groups[i].comic_path_word == *comic_path_word {
                list.push(UiDownloadComicGroup::from(self.groups[i].duplicate()));
                proof {
                    let shown = self.groups@.take(i as int).filter(keep);
                    assert(shown.push(self.groups@[i as int]).map_values(f) =~= shown.map_values(
                        f,
                    ).push(f(self.groups@[i as int])));
                }
            }
            i += 1;
        }
        assert(self.groups@.take(i as int) =~= self.groups@);
        list
    }

    /// The chapters of a comic, as they are shown, in the order of queueing.
    pub fn download_comic_chapters(&self, comic_path_word: &String) -> (list: Vec<
        UiDownloadComicChapter,
    >)
        ensures
            list@ == self.chapters@.filter(chapter_of(comic_path_word@)).map_values(
                |c: DownloadComicChapter|
                    <UiDownloadComicChapter as FromSpec<DownloadComicChapter>>::from_spec(c),
            ),
    {
        let ghost keep = chapter_of(comic_path_word@);
        let ghost f = |c: DownloadComicChapter|
            <UiDownloadComicChapter as FromSpec<DownloadComicChapter>>::from_spec(c);
        let mut list: Vec<UiDownloadComicChapter> = Vec::new();
        let mut i: usize = 0;
        proof {
            reveal(Seq::filter);
            assert(self.chapters@.take(0).filter(keep).map_values(f) =~= list@);
        }
        while i < self.chapters.len()
            invariant
                i <= self.chapters@.len(),
                keep == chapter_of(comic_path_word@),
                f == |c: DownloadComicChapter|
                    <UiDownloadComicChapter as FromSpec<DownloadComicChapter>>::from_spec(c),
                list@ == self.chapters@.take(i as int).filter(keep).map_values(f),
            decreases self.chapters@.len() - i,
        {
            proof {
                reveal(Seq::filter);
                assert(self.chapters@.take(i + 1).drop_last() =~= self.chapters@.take(i as int));
            }
            if self.chapters[i].comic_path_word == *comic_path_word {
                list.push(UiDownloadComicChapter::from(self.chapters[i].duplicate()));
                proof {
                    let shown = self.chapters@.take(i as int).filter(keep);
                    assert(shown.push(self.chapters@[i as int]).map_values(f) =~= shown.map_values(
                        f,
                    ).push(f(self.chapters@[i as int])));
                }
            }
            i += 1;
        }
        assert(self.chapters@.take(i as int) =~= self.chapters@);
        list
    }

    /// The pages of one chapter of a comic, as they are shown, in the order
    /// of queueing.
    pub fn download_comic_pages(
        &self,
        comic_path_word: &String,
        chapter_uuid: &String,
    ) -> (list: Vec<UiDownloadComicPage>)
        ensures
            list@ == self.pages@.filter(
                page_of_chapter(comic_path_word@, chapter_uuid@),
            ).map_values(
                |p: DownloadComicPage|
                    <UiDownloadComicPage as FromSpec<DownloadComicPage>>::from_spec(p),
            ),
    {
        let ghost keep = page_of_chapter(comic_path_word@, chapter_uuid@);
        let ghost f = |p: DownloadComicPage|
            <UiDownloadComicPage as FromSpec<DownloadComicPage>>::from_spec(p);
        let mut list: Vec<UiDownloadComicPage> = Vec::new();
        let mut i: usize = 0;
        proof {
            reveal(Seq::filter);
            assert(self.pages@.take(0).filter(keep).map_values(f) =~= list@);
        }
        while i < self.pages.len()
            invariant
                i <= self.pages@.len(),
                keep == page_of_chapter(comic_path_word@, chapter_uuid@),
                f == |p: DownloadComicPage|
                    <UiDownloadComicPage as FromSpec<DownloadComicPage>>::from_spec(p),
                list@ == self.pages@.take(i as int).filter(keep).map_values(f),
            decreases self.pages@.len() - i,
        {
            proof {
                reveal(Seq::filter);
                assert(self.pages@.take(i + 1).drop_last() =~= self.pages@.take(i as int));
            }
            if self.pages[i].comic_path_word == *comic_path_word && self.pages[i].chapter_uuid
                == *chapter_uuid {
                list.push(UiDownloadComicPage::from(self.pages[i].duplicate()));
                proof {
                    let shown = self.pages@.take(i as int).filter(keep);
                    assert(shown.push(self.pages@[i as int]).map_values(f) =~= shown.map_values(
                        f,
                    ).push(f(self.pages@[i as int])));
                }
            }
            i += 1;
        }
        assert(self.pages@.take(i as int) =~= self.pages@);
        list
    }

    /// The uuids of the chapters of a comic that are queued, in the order of
    /// queueing.
    pub fn in_download_chapter_uuid(&self, comic_path_word: &String) -> (list: Vec<String>)
        ensures
            list@.len() == self.chapters@.filter(chapter_of(comic_path_word@)).len(),
            forall|i: int|
                0 <= i < list@.len() ==> (#[trigger] list@[i]) == self.chapters@.filter(
                    chapter_of(comic_path_word@),
                )[i].uuid,
    {
        let ghost keep = chapter_of(comic_path_word@);
        let mut list: Vec<String> = Vec::new();
        let mut i: usize = 0;
        proof {
            reveal(Seq::filter);
            assert(self.chapters@.take(0).filter(keep).len() == 0);
        }
        while i < self.chapters.len()
            invariant
                i <= self.chapters@.len(),
                keep == chapter_of(comic_path_word@),
                list@.len() == self.chapters@.take(i as int).filter(keep).len(),
                forall|j: int|
                    0 <= j < list@.len() ==> (#[trigger] list@[j]) == self.chapters@.take(
                        i as int,
                    ).filter(keep)[j].uuid,
            decreases self.chapters@.len() - i,
        {
            proof {
                reveal(Seq::filter);
                assert(self.chapters@.take(i + 1).drop_last() =~= self.chapters@.take(i as int));
            }
            if self.chapters[i].comic_path_word == *comic_path_word {
                list.push(self.chapters[i].uuid.clone());
            }
            i += 1;
        }
        assert(self.chapters@.take(i as int) =~= self.chapters@);
        list
    }
}

} // verus!
