//! What is there locally under a cache key. Whatever keeps images under
//! cache keys can be asked for one: the image cache, the downloaded covers
//! and the downloaded pages are, in this order.

use crate::cache::image_cache::{has_image, image_at, ImageCache};
use crate::download::lookup::{cover_is_there, page_is_there};
use crate::download::store::TaskStore;
use crate::paths::AppDirs;
use crate::udto::UiCacheImage;
use vstd::prelude::*;

verus! {

/// Something that keeps images under cache keys.
pub trait LocalImages {
    /// An image is kept under the key.
    spec fn has(&self, cache_key: Seq<char>) -> bool;

    /// `ui` shows the image that is kept under the key.
    spec fn shows(&self, dirs: AppDirs, cache_key: Seq<char>, ui: UiCacheImage) -> bool;

    /// The image that is kept under the key, if there is one.
    fn local_image(&self, dirs: &AppDirs, cache_key: &String) -> (found: Option<UiCacheImage>)
        ensures
            match found {
                Some(ui) => self.has(cache_key@) && self.shows(*dirs, cache_key@, ui),
                None => !self.has(cache_key@),
            },
    ;
}

/// The covers that were downloaded.
pub struct DownloadedCovers<'a> {
    pub store: &'a TaskStore,
}

/// The pages that were downloaded.
pub struct DownloadedPages<'a> {
    pub store: &'a TaskStore,
}

/// The first comic, in the order of queueing, whose cover was downloaded
/// under `cache_key` is at place `i`.
pub open spec fn is_first_cover(store: TaskStore, cache_key: Seq<char>, i: int) -> bool {
    &&& cover_is_there(store.comics@, cache_key, i)
    &&& forall|j: int| 0 <= j < i ==> !cover_is_there(store.comics@, cache_key, j)
}

/// The first page, in the order of queueing, that was downloaded under
/// `cache_key` is at place `i`.
pub open spec fn is_first_page(store: TaskStore, cache_key: Seq<char>, i: int) -> bool {
    &&& page_is_there(store.pages@, cache_key, i)
    &&& forall|j: int| 0 <= j < i ==> !page_is_there(store.pages@, cache_key, j)
}

impl LocalImages for ImageCache {
    open spec fn has(&self, cache_key: Seq<char>) -> bool {
        has_image(self.rows@, cache_key)
    }

    /// The first image under the key, with the path of its file in the
    /// directory of the cached images.
    open spec fn shows(&self, dirs: AppDirs, cache_key: Seq<char>, ui: UiCacheImage) -> bool {
        exists|i: int|
            {
                &&& #[trigger] image_at(self.rows@, cache_key, i)
                &&& forall|j: int| 0 <= j < i ==> !image_at(self.rows@, cache_key, j)
                &&& UiCacheImage::converts_image_cache(dirs, self.rows@[i], ui)
            }
    }

    fn local_image(&self, dirs: &AppDirs, cache_key: &String) -> (found: Option<UiCacheImage>) {
        match self.load_image_by_cache_key(cache_key) {
            Some(model) => Some(UiCacheImage::from((dirs, model))),
            None => None,
        }
    }
}

impl<'a> LocalImages for DownloadedCovers<'a> {
    open spec fn has(&self, cache_key: Seq<char>) -> bool {
        exists|i: int| cover_is_there(self.store.comics@, cache_key, i)
    }

    /// The first cover that was downloaded under the key, with the path of
    /// its file.
    open spec fn shows(&self, dirs: AppDirs, cache_key: Seq<char>, ui: UiCacheImage) -> bool {
        exists|i: int|
            #[trigger] is_first_cover(*self.store, cache_key, i)
                && UiCacheImage::converts_download_cover(dirs, self.store.comics@[i], ui)
    }

    fn local_image(&self, dirs: &AppDirs, cache_key: &String) -> (found: Option<UiCacheImage>) {
        match self.store.has_download_cover(cache_key) {
            Some(model) => {
                let ui = UiCacheImage::from((dirs, model));
                proof {
                    let i = choose|i: int|
                        {
                            &&& #[trigger] cover_is_there(self.store.comics@, cache_key@, i)
                            &&& *model == self.store.comics@[i]
                            &&& forall|j: int|
                                0 <= j < i ==> !cover_is_there(self.store.comics@, cache_key@, j)
                        };
                    assert(is_first_cover(*self.store, cache_key@, i));
                }
                Some(ui)
            },
            None => None,
        }
    }
}

impl<'a> LocalImages for DownloadedPages<'a> {
    open spec fn has(&self, cache_key: Seq<char>) -> bool {
        exists|i: int| page_is_there(self.store.pages@, cache_key, i)
    }

    /// The first page that was downloaded under the key, with the path of its
    /// file.
    open spec fn shows(&self, dirs: AppDirs, cache_key: Seq<char>, ui: UiCacheImage) -> bool {
        exists|i: int|
            #[trigger] is_first_page(*self.store, cache_key, i)
                && UiCacheImage::converts_download_page(dirs, self.store.pages@[i], ui)
    }

    fn local_image(&self, dirs: &AppDirs, cache_key: &String) -> (found: Option<UiCacheImage>) {
        match self.store.has_download_pic(cache_key) {
            Some(model) => {
                let ui = UiCacheImage::from((dirs, model));
                proof {
                    let i = choose|i: int|
                        {
                            &&& #[trigger] page_is_there(self.store.pages@, cache_key@, i)
                            &&& *model == self.store.pages@[i]
                            &&& forall|j: int|
                                0 <= j < i ==> !page_is_there(self.store.pages@, cache_key@, j)
                        };
                    assert(is_first_page(*self.store, cache_key@, i));
                }
                Some(ui)
            },
            None => None,
        }
    }
}

/// `found` is what the first of three keepers that has the key shows for it,
/// and nothing where none of them has the key.
pub open spec fn first_shows<A: LocalImages, B: LocalImages, C: LocalImages>(
    first: A,
    second: B,
    third: C,
    dirs: AppDirs,
    cache_key: Seq<char>,
    found: Option<UiCacheImage>,
) -> bool {
    if first.has(cache_key) {
        found matches Some(ui) && first.shows(dirs, cache_key, ui)
    } else if second.has(cache_key) {
        found matches Some(ui) && second.shows(dirs, cache_key, ui)
    } else if third.has(cache_key) {
        found matches Some(ui) && third.shows(dirs, cache_key, ui)
    } else {
        found is None
    }
}

/// Asks three keepers for the image under a key, in their order, and takes
/// what the first of them has.
pub fn first_local_image<A: LocalImages, B: LocalImages, C: LocalImages>(
    first: &A,
    second: &B,
    third: &C,
    dirs: &AppDirs,
    cache_key: &String,
) -> (found: Option<UiCacheImage>)
    ensures
        first_shows(*first, *second, *third, *dirs, cache_key@, found),
{
    if let Some(ui) = first.local_image(dirs, cache_key) {
        return Some(ui);
    }
    if let Some(ui) = second.local_image(dirs, cache_key) {
        return Some(ui);
    }
    third.local_image(dirs, cache_key)
}

/// `found` is the image that is there locally under `cache_key`: the one of
/// the image cache, else the first downloaded cover, else the first
/// downloaded page, and none where none of the three has the key.
pub open spec fn is_local_image(
    images: ImageCache,
    store: TaskStore,
    dirs: AppDirs,
    cache_key: Seq<char>,
    found: Option<UiCacheImage>,
) -> bool {
    if has_image(images.rows@, cache_key) {
        &&& found matches Some(ui)
        &&& exists|i: int|
            #[trigger] image_at(images.rows@, cache_key, i) && UiCacheImage::converts_image_cache(
                dirs,
                images.rows@[i],
                ui,
            )
    } else if exists|i: int| cover_is_there(store.comics@, cache_key, i) {
        &&& found matches Some(ui)
        &&& exists|i: int|
            #[trigger] is_first_cover(store, cache_key, i) && UiCacheImage::converts_download_cover(
                dirs,
                store.comics@[i],
                ui,
            )
    } else if exists|i: int| page_is_there(store.pages@, cache_key, i) {
        &&& found matches Some(ui)
        &&& exists|i: int|
            #[trigger] is_first_page(store, cache_key, i) && UiCacheImage::converts_download_page(
                dirs,
                store.pages@[i],
                ui,
            )
    } else {
        found is None
    }
}

/// Looks for an image under `cache_key` in what is there locally: first in
/// the image cache, then among the downloaded covers, then among the
/// downloaded pages.
pub fn find_local_image(
    images: &ImageCache,
    store: &TaskStore,
    dirs: &AppDirs,
    cache_key: &String,
) -> (found: Option<UiCacheImage>)
    ensures
        is_local_image(*images, *store, *dirs, cache_key@, found),
{
    let covers = DownloadedCovers { store };
    let pages = DownloadedPages { store };
    let found = first_local_image(images, &covers, &pages, dirs, cache_key);
    proof {
        assert(*covers.store == *store);
        assert(*pages.store == *store);
        if images.has(cache_key@) {
            let ui = found->Some_0;
            let i = choose|i: int|
                {
                    &&& #[trigger] image_at(images.rows@, cache_key@, i)
                    &&& forall|j: int| 0 <= j < i ==> !image_at(images.rows@, cache_key@, j)
                    &&& UiCacheImage::converts_image_cache(*dirs, images.rows@[i], ui)
                };
            assert(image_at(images.rows@, cache_key@, i));
        } else if covers.has(cache_key@) {
            let ui = found->Some_0;
            let i = choose|i: int|
                #[trigger] is_first_cover(*covers.store, cache_key@, i)
                    && UiCacheImage::converts_download_cover(*dirs, covers.store.comics@[i], ui);
            assert(is_first_cover(*store, cache_key@, i));
        } else if pages.has(cache_key@) {
            let ui = found->Some_0;
            let i = choose|i: int|
                #[trigger] is_first_page(*pages.store, cache_key@, i)
                    && UiCacheImage::converts_download_page(*dirs, pages.store.pages@[i], ui);
            assert(is_first_page(*store, cache_key@, i));
        }
    }
    found
}

} // verus!
