//! The records that are exchanged with the user interface, and how the
//! records of the remote service and of the stores are turned into them.

use crate::copy_client::{
    Author, Browse, ChapterAndContents, ChapterComicInfo, ChapterData, ChapterImage, ClassifyItem,
    CollectedComic, Comic, ComicChapter, ComicData, ComicInExplore, ComicInList, ComicInSearch,
    ComicQuery, Group, LastChapter, MemberInfo, Page, RankItem, RecommendItem, RegisterResult,
    SexualOrientation, Tag, Tags, Theme,
};
use crate::download::rows::{
    DownloadComic, DownloadComicChapter, DownloadComicGroup, DownloadComicPage,
};
use crate::cache::image_cache::ImageCacheRow;
use crate::paths::{get_cache_path, get_cover_path, get_image_path, AppDirs};
use crate::text::{decimal, joined, path_separator};
use crate::view_log::ComicViewLog;
use vstd::prelude::*;
use vstd::std_specs::convert::{FromSpec, FromSpecImpl};

verus! {

/// How far a comic was read.
#[derive(Default, Debug, Clone, PartialEq)]
pub struct UiViewLog {
    pub comic_path_word: String,
    pub comic_name: String,
    pub comic_authors: String,
    pub comic_cover: String,
    pub chapter_uuid: String,
    pub chapter_name: String,
    pub chapter_ordered: i64,
    pub chapter_size: i64,
    pub chapter_count: i64,
    pub page_rank: i32,
    pub view_time: i64,
}

/// One page of a ranking.
#[derive(Default, Debug, Clone, PartialEq)]
pub struct UiPageRankItem {
    pub list: Vec<UiRankItem>,
    pub total: i64,
    pub limit: i64,
    pub offset: i64,
}

/// A comic with its place in a ranking.
#[derive(Default, Debug, Clone, PartialEq)]
pub struct UiRankItem {
    pub comic: UiComicInList,
    pub date_type: i64,
    pub popular: i64,
    pub rise_num: i64,
    pub rise_sort: i64,
    pub sort: i64,
    pub sort_last: i64,
}

/// A comic as a listing shows it.
#[derive(Default, Debug, Clone, PartialEq)]
pub struct UiComicInList {
    pub author: Vec<Author>,
    pub cover: String,
    pub img_type: i64,
    pub name: String,
    pub path_word: String,
    pub popular: i64,
    pub females: Vec<SexualOrientation>,
    pub males: Vec<SexualOrientation>,
}

/// A comic with its groups.
#[derive(Default, Debug, Clone, PartialEq)]
pub struct UiComicData {
    pub comic: UiComic,
    pub groups: Vec<Group>,
    pub is_lock: bool,
    pub is_login: bool,
    pub is_mobile_bind: bool,
    pub is_vip: bool,
    pub popular: i64,
}

/// A comic with all that the service says of it.
#[derive(Default, Debug, Clone, PartialEq)]
pub struct UiComic {
    pub alias: Option<String>,
    pub author: Vec<Author>,
    pub b_404: bool,
    pub b_hidden: bool,
    pub ban: i64,
    pub brief: String,
    pub close_comment: bool,
    pub close_roast: bool,
    pub cover: String,
    pub datetime_updated: String,
    pub free_type: ClassifyItem,
    pub img_type: i64,
    pub last_chapter: LastChapter,
    pub name: String,
    pub path_word: String,
    pub popular: i64,
    pub reclass: ClassifyItem,
    pub region: ClassifyItem,
    pub restrict: ClassifyItem,
    pub seo_baidu: String,
    pub status: ClassifyItem,
    pub theme: Vec<Tag>,
    pub uuid: String,
    pub females: Vec<SexualOrientation>,
    pub males: Vec<SexualOrientation>,
}

/// An image that is there locally, with the path of its file.
#[derive(Default, Debug, Clone, PartialEq)]
pub struct UiCacheImage {
    pub abs_path: String,
    pub cache_key: String,
    pub cache_time: i64,
    pub url: String,
    pub useful: String,
    pub extends_field_first: Option<String>,
    pub extends_field_second: Option<String>,
    pub extends_field_third: Option<String>,
    pub local_path: String,
    pub image_format: String,
    pub image_width: u32,
    pub image_height: u32,
}

/// One page of the chapters of a group.
#[derive(Default, Debug, Clone, PartialEq)]
pub struct UiPageComicChapter {
    pub list: Vec<UiComicChapter>,
    pub total: i64,
    pub limit: i64,
    pub offset: i64,
}

/// A chapter as the listing of a group shows it.
#[derive(Default, Debug, Clone, PartialEq)]
pub struct UiComicChapter {
    pub comic_id: String,
    pub comic_path_word: String,
    pub count: i64,
    pub datetime_created: String,
    pub group_path_word: String,
    pub img_type: i64,
    pub index: i64,
    pub name: String,
    pub news: String,
    pub next: Option<String>,
    pub ordered: i64,
    pub prev: Option<String>,
    pub size: i64,
    pub type_field: i64,
    pub uuid: String,
}

/// What the account has to do with a comic.
#[derive(Default, Debug, Clone, PartialEq)]
pub struct UiComicQuery {
    pub browse: Option<Browse>,
    pub collect: Option<i64>,
    pub is_lock: bool,
    pub is_login: bool,
    pub is_mobile_bind: bool,
    pub is_vip: bool,
}

/// A chapter with its images and its comic.
#[derive(Default, Debug, Clone, PartialEq)]
pub struct UiChapterData {
    pub chapter: UiChapterAndContents,
    pub comic: ChapterComicInfo,
    pub is_lock: bool,
    pub is_login: bool,
    pub is_mobile_bind: bool,
    pub is_vip: bool,
    pub show_app: bool,
}

/// A chapter with its images.
#[derive(Default, Debug, Clone, PartialEq)]
pub struct UiChapterAndContents {
    pub comic_id: String,
    pub comic_path_word: String,
    pub contents: Vec<ChapterImage>,
    pub count: i64,
    pub datetime_created: String,
    pub group_path_word: String,
    pub img_type: i64,
    pub index: i64,
    pub is_long: bool,
    pub name: String,
    pub news: String,
    pub next: Option<String>,
    pub ordered: i64,
    pub prev: Option<String>,
    pub size: i64,
    pub type_field: i64,
    pub uuid: String,
    pub words: Vec<i64>,
}

/// One page of a listing of comics.
#[derive(Default, Debug, Clone, PartialEq)]
pub struct UiPageUiComicInList {
    pub list: Vec<UiComicInList>,
    pub total: i64,
    pub limit: i64,
    pub offset: i64,
}

/// What comics can be listed by.
#[derive(Default, Debug, Clone, PartialEq)]
pub struct UiTags {
    pub ordering: Vec<Tag>,
    pub theme: Vec<UiTheme>,
    pub top: Vec<Tag>,
}

/// A theme with the number of its comics.
#[derive(Default, Debug, Clone, PartialEq)]
pub struct UiTheme {
    pub count: i64,
    pub initials: i64,
    pub name: String,
    pub path_word: String,
}

/// One page of the listing by theme.
#[derive(Default, Debug, Clone, PartialEq)]
pub struct UiPageComicInExplore {
    pub list: Vec<UiComicInExplore>,
    pub total: i64,
    pub limit: i64,
    pub offset: i64,
}

/// A comic as the listing by theme shows it.
#[derive(Default, Debug, Clone, PartialEq)]
pub struct UiComicInExplore {
    pub name: String,
    pub path_word: String,
    pub free_type: ClassifyItem,
    pub author: Vec<Author>,
    pub cover: String,
    pub popular: i64,
    pub datetime_updated: Option<String>,
    pub females: Vec<SexualOrientation>,
    pub males: Vec<SexualOrientation>,
}

/// One page of the listing of what was read.
#[derive(Default, Debug, Clone, PartialEq)]
pub struct UiPageUiViewLog {
    pub list: Vec<UiViewLog>,
    pub total: i64,
    pub limit: i64,
    pub offset: i64,
}

/// A comic to be queued for download, with its groups and chapters.
#[derive(Default, Debug, Clone, PartialEq)]
pub struct UiQueryDownloadComic {
    pub path_word: String,
    pub alias: Option<String>,
    pub author: String,
    pub b_404: bool,
    pub b_hidden: bool,
    pub ban: i64,
    pub brief: String,
    pub close_comment: bool,
    pub close_roast: bool,
    pub cover: String,
    pub datetime_updated: String,
    pub females: String,
    pub free_type: String,
    pub img_type: i64,
    pub males: String,
    pub name: String,
    pub popular: i64,
    pub reclass: String,
    pub region: String,
    pub restrict1: String,
    pub seo_baidu: String,
    pub status: String,
    pub theme: String,
    pub uuid: String,
    pub groups: Vec<UiQueryDownloadComicGroup>,
    pub chapters: Vec<UiQueryDownloadComicChapter>,
}

/// A group of a comic that is to be queued.
#[derive(Default, Debug, Clone, PartialEq)]
pub struct UiQueryDownloadComicGroup {
    pub comic_path_word: String,
    pub group_path_word: String,
    pub count: i64,
    pub name: String,
    pub group_rank: i64,
}

/// A chapter of a comic that is to be queued.
#[derive(Default, Debug, Clone, PartialEq)]
pub struct UiQueryDownloadComicChapter {
    pub comic_path_word: String,
    pub uuid: String,
    pub comic_id: String,
    pub count: i64,
    pub datetime_created: String,
    pub group_path_word: String,
    pub img_type: i64,
    pub index: i64,
    pub is_long: bool,
    pub name: String,
    pub news: String,
    pub next: Option<String>,
    pub ordered: i64,
    pub prev: Option<String>,
    pub size: i64,
    pub type_field: i64,
}

/// One image of a chapter that is to be queued.
#[derive(Default, Debug, Clone, PartialEq)]
pub struct UiQueryDownloadComicPage {
    pub chapter_uuid: String,
    pub image_index: i32,
    pub url: String,
    pub cache_key: String,
}

/// A queued comic with its progress.
#[derive(Default, Debug, Clone, PartialEq)]
pub struct UiDownloadComic {
    pub path_word: String,
    pub alias: Option<String>,
    pub author: String,
    pub b_404: bool,
    pub b_hidden: bool,
    pub ban: i64,
    pub brief: String,
    pub close_comment: bool,
    pub close_roast: bool,
    pub cover: String,
    pub datetime_updated: String,
    pub females: String,
    pub free_type: String,
    pub img_type: i64,
    pub males: String,
    pub name: String,
    pub popular: i64,
    pub reclass: String,
    pub region: String,
    pub restrict: String,
    pub seo_baidu: String,
    pub status: String,
    pub theme: String,
    pub uuid: String,
    pub cover_cache_key: String,
    pub cover_download_status: i64,
    pub cover_format: String,
    pub cover_width: u32,
    pub cover_height: u32,
    pub image_count: i64,
    pub image_count_success: i64,
    pub download_status: i64,
}

/// The state of the login: 0 for none, 1 for logged in, 2 for a failed
/// attempt.
#[derive(Default, Debug, Clone, PartialEq)]
pub struct UiLoginState {
    pub state: i64,
    pub message: String,
    pub member: Option<MemberInfo>,
}

/// The outcome of a registration: 1 for done, 2 for failed.
#[derive(Default, Debug, Clone, PartialEq)]
pub struct UiRegisterResult {
    pub state: i64,
    pub message: String,
    pub member: Option<RegisterResult>,
}

/// A comic that is collected on this device.
#[derive(Default, Debug, Clone, PartialEq)]
pub struct UiLocalCollect {
    pub path_word: String,
    pub alias: Option<String>,
    pub author: String,
    pub b_404: bool,
    pub b_hidden: bool,
    pub ban: i64,
    pub brief: String,
    pub close_comment: bool,
    pub close_roast: bool,
    pub cover: String,
    pub datetime_updated: String,
    pub females: String,
    pub free_type: String,
    pub img_type: i64,
    pub males: String,
    pub name: String,
    pub popular: i64,
    pub reclass: String,
    pub region: String,
    pub restrict: String,
    pub seo_baidu: String,
    pub status: String,
    pub theme: String,
    pub uuid: String,
    pub append_time: i64,
}

/// A queued group.
#[derive(Default, Debug, Clone, PartialEq)]
pub struct UiDownloadComicGroup {
    pub comic_path_word: String,
    pub group_path_word: String,
    pub count: i64,
    pub name: String,
    pub group_rank: i64,
}

/// A queued chapter with its progress.
#[derive(Default, Debug, Clone, PartialEq)]
pub struct UiDownloadComicChapter {
    pub comic_path_word: String,
    pub uuid: String,
    pub comic_id: String,
    pub count: i64,
    pub datetime_created: String,
    pub group_path_word: String,
    pub img_type: i64,
    pub index: i64,
    pub is_long: bool,
    pub name: String,
    pub news: String,
    pub next: Option<String>,
    pub ordered: i64,
    pub prev: Option<String>,
    pub size: i64,
    pub type_field: i64,
    pub download_status: i64,
}

/// A queued page with its progress.
#[derive(Default, Debug, Clone, PartialEq)]
pub struct UiDownloadComicPage {
    pub comic_path_word: String,
    pub chapter_uuid: String,
    pub image_index: i32,
    pub url: String,
    pub cache_key: String,
    pub download_status: i64,
    pub width: u32,
    pub height: u32,
    pub format: String,
}

/// One page of the account's collection.
#[derive(Default, Debug, Clone, PartialEq)]
pub struct UiPageCollectedComic {
    pub list: Vec<CollectedComic>,
    pub total: i64,
    pub limit: i64,
    pub offset: i64,
}

/// Every item of a list, converted, in the order of the list.
pub fn convert_all<S, T: From<S>>(list: Vec<S>) -> (converted: Vec<T>)
    ensures
        converted@.len() == list@.len(),
        forall|i: int|
            0 <= i < list@.len() ==> call_ensures(T::from, (list@[i],), #[trigger] converted@[i]),
{
    let ghost all = list@;
    let mut converted: Vec<T> = Vec::new();
    for item in it: list
        invariant
            it.seq() == all,
            converted@.len() == it.index(),
            forall|i: int|
                0 <= i < it.index() ==> call_ensures(T::from, (all[i],), #[trigger] converted@[i]),
    {
        converted.push(T::from(item));
    }
    converted
}

/// The second part of every pair of a list, in the order of the list.
pub fn seconds_of<K, V>(pairs: Vec<(K, V)>) -> (seconds: Vec<V>)
    ensures
        seconds@.len() == pairs@.len(),
        forall|i: int| 0 <= i < pairs@.len() ==> #[trigger] seconds@[i] == pairs@[i].1,
{
    let ghost all = pairs@;
    let mut seconds: Vec<V> = Vec::new();
    for pair in it: pairs
        invariant
            it.seq() == all,
            seconds@.len() == it.index(),
            forall|i: int| 0 <= i < it.index() ==> #[trigger] seconds@[i] == all[i].1,
    {
        seconds.push(pair.1);
    }
    seconds
}

impl FromSpecImpl<ComicViewLog> for UiViewLog {
    open spec fn obeys_from_spec() -> bool {
        true
    }

    open spec fn from_spec(model: ComicViewLog) -> UiViewLog {
        UiViewLog {
            comic_path_word: model.comic_path_word,
            comic_name: model.comic_name,
            comic_authors: model.comic_authors,
            comic_cover: model.comic_cover,
            chapter_uuid: model.chapter_uuid,
            chapter_name: model.chapter_name,
            chapter_ordered: model.chapter_ordered,
            chapter_size: model.chapter_size,
            chapter_count: model.chapter_count,
            page_rank: model.page_rank,
            view_time: model.view_time,
        }
    }
}

impl From<ComicViewLog> for UiViewLog {
    fn from(model: ComicViewLog) -> (ui: UiViewLog) {
        UiViewLog {
            comic_path_word: model.comic_path_word,
            comic_name: model.comic_name,
            comic_authors: model.comic_authors,
            comic_cover: model.comic_cover,
            chapter_uuid: model.chapter_uuid,
            chapter_name: model.chapter_name,
            chapter_ordered: model.chapter_ordered,
            chapter_size: model.chapter_size,
            chapter_count: model.chapter_count,
            page_rank: model.page_rank,
            view_time: model.view_time,
        }
    }
}

impl FromSpecImpl<RankItem> for UiRankItem {
    open spec fn obeys_from_spec() -> bool {
        true
    }

    open spec fn from_spec(item: RankItem) -> UiRankItem {
        UiRankItem {
            comic: <UiComicInList as FromSpec<
                ComicInList,
            >>::from_spec(item.comic),
            date_type: item.date_type,
            popular: item.popular,
            rise_num: item.rise_num,
            rise_sort: item.rise_sort,
            sort: item.sort,
            sort_last: item.sort_last,
        }
    }
}

impl From<RankItem> for UiRankItem {
    fn from(item: RankItem) -> (ui: UiRankItem) {
        UiRankItem {
            comic: UiComicInList::from(item.comic),
            date_type: item.date_type,
            popular: item.popular,
            rise_num: item.rise_num,
            rise_sort: item.rise_sort,
            sort: item.sort,
            sort_last: item.sort_last,
        }
    }
}

impl UiPageRankItem {
    /// `ui` is what `page` is turned into.
    pub open spec fn converts_page_rank_item(
        page: Page<RankItem>,
        ui: UiPageRankItem,
    ) -> bool {
        &&& ui.list@.len() == page.list@.len()
        &&& forall|i: int|
            0 <= i < page.list@.len() ==> #[trigger] ui.list@[i] == <UiRankItem as FromSpec<
                RankItem,
            >>::from_spec(page.list@[i])
        &&& ui.total == page.total
        &&& ui.limit == page.limit
        &&& ui.offset == page.offset
    }
}

impl FromSpecImpl<Page<RankItem>> for UiPageRankItem {
    open spec fn obeys_from_spec() -> bool {
        false
    }

    open spec fn from_spec(page: Page<RankItem>) -> UiPageRankItem {
        choose|ui: UiPageRankItem|
            UiPageRankItem::converts_page_rank_item(page, ui)
    }
}

impl From<Page<RankItem>> for UiPageRankItem {
    fn from(page: Page<RankItem>) -> (ui: UiPageRankItem)
        ensures
            UiPageRankItem::converts_page_rank_item(page, ui),
    {
        let list: Vec<UiRankItem> = convert_all(page.list);
        UiPageRankItem {
            list,
            total: page.total,
            limit: page.limit,
            offset: page.offset,
        }
    }
}

impl FromSpecImpl<ComicInList> for UiComicInList {
    open spec fn obeys_from_spec() -> bool {
        true
    }

    open spec fn from_spec(comic: ComicInList) -> UiComicInList {
        UiComicInList {
            author: comic.author,
            cover: comic.cover,
            img_type: comic.img_type,
            name: comic.name,
            path_word: comic.path_word,
            popular: comic.popular,
            females: comic.females,
            males: comic.males,
        }
    }
}

impl From<ComicInList> for UiComicInList {
    fn from(comic: ComicInList) -> (ui: UiComicInList) {
        UiComicInList {
            author: comic.author,
            cover: comic.cover,
            img_type: comic.img_type,
            name: comic.name,
            path_word: comic.path_word,
            popular: comic.popular,
            females: comic.females,
            males: comic.males,
        }
    }
}

impl UiComicInList {
    /// `ui` is what `comic` is turned into.
    pub open spec fn converts_comic_in_search(
        comic: ComicInSearch,
        ui: UiComicInList,
    ) -> bool {
        &&& ui.author == comic.author
        &&& ui.cover == comic.cover
        &&& ui.img_type == comic.img_type
        &&& ui.name == comic.name
        &&& ui.path_word == comic.path_word
        &&& ui.popular == comic.popular
        &&& ui.females@.len() == 0
        &&& ui.males@.len() == 0
    }
}

impl FromSpecImpl<ComicInSearch> for UiComicInList {
    open spec fn obeys_from_spec() -> bool {
        false
    }

    open spec fn from_spec(comic: ComicInSearch) -> UiComicInList {
        choose|ui: UiComicInList|
            UiComicInList::converts_comic_in_search(comic, ui)
    }
}

impl From<ComicInSearch> for UiComicInList {
    fn from(comic: ComicInSearch) -> (ui: UiComicInList)
        ensures
            UiComicInList::converts_comic_in_search(comic, ui),
    {
        UiComicInList {
            author: comic.author,
            cover: comic.cover,
            img_type: comic.img_type,
            name: comic.name,
            path_word: comic.path_word,
            popular: comic.popular,
            females: Vec::new(),
            males: Vec::new(),
        }
    }
}

impl FromSpecImpl<RecommendItem> for UiComicInList {
    open spec fn obeys_from_spec() -> bool {
        true
    }

    open spec fn from_spec(item: RecommendItem) -> UiComicInList {
        UiComicInList {
            author: item.comic.author,
            cover: item.comic.cover,
            img_type: item.comic.img_type,
            name: item.comic.name,
            path_word: item.comic.path_word,
            popular: item.comic.popular,
            females: item.comic.females,
            males: item.comic.males,
        }
    }
}

impl From<RecommendItem> for UiComicInList {
    fn from(item: RecommendItem) -> (ui: UiComicInList) {
        UiComicInList {
            author: item.comic.author,
            cover: item.comic.cover,
            img_type: item.comic.img_type,
            name: item.comic.name,
            path_word: item.comic.path_word,
            popular: item.comic.popular,
            females: item.comic.females,
            males: item.comic.males,
        }
    }
}

impl FromSpecImpl<Comic> for UiComic {
    open spec fn obeys_from_spec() -> bool {
        true
    }

    open spec fn from_spec(comic: Comic) -> UiComic {
        UiComic {
            alias: comic.alias,
            author: comic.author,
            b_404: comic.b_404,
            b_hidden: comic.b_hidden,
            ban: comic.ban,
            brief: comic.brief,
            close_comment: comic.close_comment,
            close_roast: comic.close_roast,
            cover: comic.cover,
            datetime_updated: comic.datetime_updated,
            free_type: comic.free_type,
            img_type: comic.img_type,
            last_chapter: comic.last_chapter,
            name: comic.name,
            path_word: comic.path_word,
            popular: comic.popular,
            reclass: comic.reclass,
            region: comic.region,
            restrict: comic.restrict,
            seo_baidu: comic.seo_baidu,
            status: comic.status,
            theme: comic.theme,
            uuid: comic.uuid,
            females: comic.females,
            males: comic.males,
        }
    }
}

impl From<Comic> for UiComic {
    fn from(comic: Comic) -> (ui: UiComic) {
        UiComic {
            alias: comic.alias,
            author: comic.author,
            b_404: comic.b_404,
            b_hidden: comic.b_hidden,
            ban: comic.ban,
            brief: comic.brief,
            close_comment: comic.close_comment,
            close_roast: comic.close_roast,
            cover: comic.cover,
            datetime_updated: comic.datetime_updated,
            free_type: comic.free_type,
            img_type: comic.img_type,
            last_chapter: comic.last_chapter,
            name: comic.name,
            path_word: comic.path_word,
            popular: comic.popular,
            reclass: comic.reclass,
            region: comic.region,
            restrict: comic.restrict,
            seo_baidu: comic.seo_baidu,
            status: comic.status,
            theme: comic.theme,
            uuid: comic.uuid,
            females: comic.females,
            males: comic.males,
        }
    }
}

impl UiComicData {
    /// `ui` is what `comic` is turned into.
    pub open spec fn converts_comic_data(
        comic: ComicData,
        ui: UiComicData,
    ) -> bool {
        &&& ui.comic == <UiComic as FromSpec<Comic>>::from_spec(comic.comic)
        &&& ui.groups@.len() == comic.groups@.len()
        &&& forall|i: int|
            0 <= i < comic.groups@.len() ==> #[trigger] ui.groups@[i] == comic.groups@[i].1
        &&& ui.is_lock == comic.is_lock
        &&& ui.is_login == comic.is_login
        &&& ui.is_mobile_bind == comic.is_mobile_bind
        &&& ui.is_vip == comic.is_vip
        &&& ui.popular == comic.popular
    }
}

impl FromSpecImpl<ComicData> for UiComicData {
    open spec fn obeys_from_spec() -> bool {
        false
    }

    open spec fn from_spec(comic: ComicData) -> UiComicData {
        choose|ui: UiComicData|
            UiComicData::converts_comic_data(comic, ui)
    }
}

impl From<ComicData> for UiComicData {
    fn from(comic: ComicData) -> (ui: UiComicData)
        ensures
            UiComicData::converts_comic_data(comic, ui),
    {
        let groups = seconds_of(comic.groups);
        UiComicData {
            comic: UiComic::from(comic.comic),
            groups,
            is_lock: comic.is_lock,
            is_login: comic.is_login,
            is_mobile_bind: comic.is_mobile_bind,
            is_vip: comic.is_vip,
            popular: comic.popular,
        }
    }
}

impl FromSpecImpl<ComicChapter> for UiComicChapter {
    open spec fn obeys_from_spec() -> bool {
        true
    }

    open spec fn from_spec(chapter: ComicChapter) -> UiComicChapter {
        UiComicChapter {
            comic_id: chapter.comic_id,
            comic_path_word: chapter.comic_path_word,
            count: chapter.count,
            datetime_created: chapter.datetime_created,
            group_path_word: chapter.group_path_word,
            img_type: chapter.img_type,
            index: chapter.index,
            name: chapter.name,
            news: chapter.news,
            next: chapter.next,
            ordered: chapter.ordered,
            prev: chapter.prev,
            size: chapter.size,
            type_field: chapter.type_field,
            uuid: chapter.uuid,
        }
    }
}

impl From<ComicChapter> for UiComicChapter {
    fn from(chapter: ComicChapter) -> (ui: UiComicChapter) {
        UiComicChapter {
            comic_id: chapter.comic_id,
            comic_path_word: chapter.comic_path_word,
            count: chapter.count,
            datetime_created: chapter.datetime_created,
            group_path_word: chapter.group_path_word,
            img_type: chapter.img_type,
            index: chapter.index,
            name: chapter.name,
            news: chapter.news,
            next: chapter.next,
            ordered: chapter.ordered,
            prev: chapter.prev,
            size: chapter.size,
            type_field: chapter.type_field,
            uuid: chapter.uuid,
        }
    }
}

impl UiPageComicChapter {
    /// `ui` is what `page` is turned into.
    pub open spec fn converts_page_comic_chapter(
        page: Page<ComicChapter>,
        ui: UiPageComicChapter,
    ) -> bool {
        &&& ui.list@.len() == page.list@.len()
        &&& forall|i: int|
            0 <= i < page.list@.len() ==> #[trigger] ui.list@[i] == <UiComicChapter as FromSpec<
                ComicChapter,
            >>::from_spec(page.list@[i])
        &&& ui.total == page.total
        &&& ui.limit == page.limit
        &&& ui.offset == page.offset
    }
}

impl FromSpecImpl<Page<ComicChapter>> for UiPageComicChapter {
    open spec fn obeys_from_spec() -> bool {
        false
    }

    open spec fn from_spec(page: Page<ComicChapter>) -> UiPageComicChapter {
        choose|ui: UiPageComicChapter|
            UiPageComicChapter::converts_page_comic_chapter(page, ui)
    }
}

impl From<Page<ComicChapter>> for UiPageComicChapter {
    fn from(page: Page<ComicChapter>) -> (ui: UiPageComicChapter)
        ensures
            UiPageComicChapter::converts_page_comic_chapter(page, ui),
    {
        let list: Vec<UiComicChapter> = convert_all(page.list);
        UiPageComicChapter {
            list,
            total: page.total,
            limit: page.limit,
            offset: page.offset,
        }
    }
}

impl FromSpecImpl<ComicQuery> for UiComicQuery {
    open spec fn obeys_from_spec() -> bool {
        true
    }

    open spec fn from_spec(query: ComicQuery) -> UiComicQuery {
        UiComicQuery {
            browse: query.browse,
            collect: query.collect,
            is_lock: query.is_lock,
            is_login: query.is_login,
            is_mobile_bind: query.is_mobile_bind,
            is_vip: query.is_vip,
        }
    }
}

impl From<ComicQuery> for UiComicQuery {
    fn from(query: ComicQuery) -> (ui: UiComicQuery) {
        UiComicQuery {
            browse: query.browse,
            collect: query.collect,
            is_lock: query.is_lock,
            is_login: query.is_login,
            is_mobile_bind: query.is_mobile_bind,
            is_vip: query.is_vip,
        }
    }
}

impl FromSpecImpl<ChapterAndContents> for UiChapterAndContents {
    open spec fn obeys_from_spec() -> bool {
        true
    }

    open spec fn from_spec(value: ChapterAndContents) -> UiChapterAndContents {
        UiChapterAndContents {
            comic_id: value.comic_id,
            comic_path_word: value.comic_path_word,
            contents: value.contents,
            count: value.count,
            datetime_created: value.datetime_created,
            group_path_word: value.group_path_word,
            img_type: value.img_type,
            index: value.index,
            is_long: value.is_long,
            name: value.name,
            news: value.news,
            next: value.next,
            ordered: value.ordered,
            prev: value.prev,
            size: value.size,
            type_field: value.type_field,
            uuid: value.uuid,
            words: value.words,
        }
    }
}

impl From<ChapterAndContents> for UiChapterAndContents {
    fn from(value: ChapterAndContents) -> (ui: UiChapterAndContents) {
        UiChapterAndContents {
            comic_id: value.comic_id,
            comic_path_word: value.comic_path_word,
            contents: value.contents,
            count: value.count,
            datetime_created: value.datetime_created,
            group_path_word: value.group_path_word,
            img_type: value.img_type,
            index: value.index,
            is_long: value.is_long,
            name: value.name,
            news: value.news,
            next: value.next,
            ordered: value.ordered,
            prev: value.prev,
            size: value.size,
            type_field: value.type_field,
            uuid: value.uuid,
            words: value.words,
        }
    }
}

impl FromSpecImpl<ChapterData> for UiChapterData {
    open spec fn obeys_from_spec() -> bool {
        true
    }

    open spec fn from_spec(value: ChapterData) -> UiChapterData {
        UiChapterData {
            chapter: <UiChapterAndContents as FromSpec<
                ChapterAndContents,
            >>::from_spec(value.chapter),
            comic: value.comic,
            is_lock: value.is_lock,
            is_login: value.is_login,
            is_mobile_bind: value.is_mobile_bind,
            is_vip: value.is_vip,
            show_app: value.show_app,
        }
    }
}

impl From<ChapterData> for UiChapterData {
    fn from(value: ChapterData) -> (ui: UiChapterData) {
        UiChapterData {
            chapter: UiChapterAndContents::from(value.chapter),
            comic: value.comic,
            is_lock: value.is_lock,
            is_login: value.is_login,
            is_mobile_bind: value.is_mobile_bind,
            is_vip: value.is_vip,
            show_app: value.show_app,
        }
    }
}

impl UiPageUiComicInList {
    /// `ui` is what `page` is turned into.
    pub open spec fn converts_page_recommend_item(
        page: Page<RecommendItem>,
        ui: UiPageUiComicInList,
    ) -> bool {
        &&& ui.list@.len() == page.list@.len()
        &&& forall|i: int|
            0 <= i < page.list@.len() ==> #[trigger] ui.list@[i] == <UiComicInList as FromSpec<
                RecommendItem,
            >>::from_spec(page.list@[i])
        &&& ui.total == page.total
        &&& ui.limit == page.limit
        &&& ui.offset == page.offset
    }
}

impl FromSpecImpl<Page<RecommendItem>> for UiPageUiComicInList {
    open spec fn obeys_from_spec() -> bool {
        false
    }

    open spec fn from_spec(page: Page<RecommendItem>) -> UiPageUiComicInList {
        choose|ui: UiPageUiComicInList|
            UiPageUiComicInList::converts_page_recommend_item(page, ui)
    }
}

impl From<Page<RecommendItem>> for UiPageUiComicInList {
    fn from(page: Page<RecommendItem>) -> (ui: UiPageUiComicInList)
        ensures
            UiPageUiComicInList::converts_page_recommend_item(page, ui),
    {
        let list: Vec<UiComicInList> = convert_all(page.list);
        UiPageUiComicInList {
            list,
            total: page.total,
            limit: page.limit,
            offset: page.offset,
        }
    }
}

impl UiPageUiComicInList {
    /// `ui` is what `page` is turned into.
    pub open spec fn converts_page_comic_in_search(
        page: Page<ComicInSearch>,
        ui: UiPageUiComicInList,
    ) -> bool {
        &&& ui.list@.len() == page.list@.len()
        &&& forall|i: int|
            0 <= i < page.list@.len() ==> UiComicInList::converts_comic_in_search(
                page.list@[i],
                #[trigger] ui.list@[i],
            )
        &&& ui.total == page.total
        &&& ui.limit == page.limit
        &&& ui.offset == page.offset
    }
}

impl FromSpecImpl<Page<ComicInSearch>> for UiPageUiComicInList {
    open spec fn obeys_from_spec() -> bool {
        false
    }

    open spec fn from_spec(page: Page<ComicInSearch>) -> UiPageUiComicInList {
        choose|ui: UiPageUiComicInList|
            UiPageUiComicInList::converts_page_comic_in_search(page, ui)
    }
}

impl From<Page<ComicInSearch>> for UiPageUiComicInList {
    fn from(page: Page<ComicInSearch>) -> (ui: UiPageUiComicInList)
        ensures
            UiPageUiComicInList::converts_page_comic_in_search(page, ui),
    {
        let list: Vec<UiComicInList> = convert_all(page.list);
        UiPageUiComicInList {
            list,
            total: page.total,
            limit: page.limit,
            offset: page.offset,
        }
    }
}

impl FromSpecImpl<Theme> for UiTheme {
    open spec fn obeys_from_spec() -> bool {
        true
    }

    open spec fn from_spec(theme: Theme) -> UiTheme {
        UiTheme {
            count: theme.count,
            initials: theme.initials,
            name: theme.name,
            path_word: theme.path_word,
        }
    }
}

impl From<Theme> for UiTheme {
    fn from(theme: Theme) -> (ui: UiTheme) {
        UiTheme {
            count: theme.count,
            initials: theme.initials,
            name: theme.name,
            path_word: theme.path_word,
        }
    }
}

impl UiTags {
    /// `ui` is what `tags` is turned into.
    pub open spec fn converts_tags(
        tags: Tags,
        ui: UiTags,
    ) -> bool {
        &&& ui.ordering == tags.ordering
        &&& ui.theme@.len() == tags.theme@.len()
        &&& forall|i: int|
            0 <= i < tags.theme@.len() ==> #[trigger] ui.theme@[i] == <UiTheme as FromSpec<
                Theme,
            >>::from_spec(tags.theme@[i])
        &&& ui.top == tags.top
    }
}

impl FromSpecImpl<Tags> for UiTags {
    open spec fn obeys_from_spec() -> bool {
        false
    }

    open spec fn from_spec(tags: Tags) -> UiTags {
        choose|ui: UiTags|
            UiTags::converts_tags(tags, ui)
    }
}

impl From<Tags> for UiTags {
    fn from(tags: Tags) -> (ui: UiTags)
        ensures
            UiTags::converts_tags(tags, ui),
    {
        let theme: Vec<UiTheme> = convert_all(tags.theme);
        UiTags {
            ordering: tags.ordering,
            theme,
            top: tags.top,
        }
    }
}

impl FromSpecImpl<ComicInExplore> for UiComicInExplore {
    open spec fn obeys_from_spec() -> bool {
        true
    }

    open spec fn from_spec(comic: ComicInExplore) -> UiComicInExplore {
        UiComicInExplore {
            name: comic.name,
            path_word: comic.path_word,
            free_type: comic.free_type,
            author: comic.author,
            cover: comic.cover,
            popular: comic.popular,
            datetime_updated: comic.datetime_updated,
            females: comic.females,
            males: comic.males,
        }
    }
}

impl From<ComicInExplore> for UiComicInExplore {
    fn from(comic: ComicInExplore) -> (ui: UiComicInExplore) {
        UiComicInExplore {
            name: comic.name,
            path_word: comic.path_word,
            free_type: comic.free_type,
            author: comic.author,
            cover: comic.cover,
            popular: comic.popular,
            datetime_updated: comic.datetime_updated,
            females: comic.females,
            males: comic.males,
        }
    }
}

impl UiPageComicInExplore {
    /// `ui` is what `page` is turned into.
    pub open spec fn converts_page_comic_in_explore(
        page: Page<ComicInExplore>,
        ui: UiPageComicInExplore,
    ) -> bool {
        &&& ui.list@.len() == page.list@.len()
        &&& forall|i: int|
            0 <= i < page.list@.len() ==> #[trigger] ui.list@[i] == <UiComicInExplore as FromSpec<
                ComicInExplore,
            >>::from_spec(page.list@[i])
        &&& ui.total == page.total
        &&& ui.limit == page.limit
        &&& ui.offset == page.offset
    }
}

impl FromSpecImpl<Page<ComicInExplore>> for UiPageComicInExplore {
    open spec fn obeys_from_spec() -> bool {
        false
    }

    open spec fn from_spec(page: Page<ComicInExplore>) -> UiPageComicInExplore {
        choose|ui: UiPageComicInExplore|
            UiPageComicInExplore::converts_page_comic_in_explore(page, ui)
    }
}

impl From<Page<ComicInExplore>> for UiPageComicInExplore {
    fn from(page: Page<ComicInExplore>) -> (ui: UiPageComicInExplore)
        ensures
            UiPageComicInExplore::converts_page_comic_in_explore(page, ui),
    {
        let list: Vec<UiComicInExplore> = convert_all(page.list);
        UiPageComicInExplore {
            list,
            total: page.total,
            limit: page.limit,
            offset: page.offset,
        }
    }
}

impl FromSpecImpl<DownloadComic> for UiDownloadComic {
    open spec fn obeys_from_spec() -> bool {
        true
    }

    open spec fn from_spec(model: DownloadComic) -> UiDownloadComic {
        UiDownloadComic {
            path_word: model.path_word,
            alias: model.alias,
            author: model.author,
            b_404: model.b_404,
            b_hidden: model.b_hidden,
            ban: model.ban,
            brief: model.brief,
            close_comment: model.close_comment,
            close_roast: model.close_roast,
            cover: model.cover,
            datetime_updated: model.datetime_updated,
            females: model.females,
            free_type: model.free_type,
            img_type: model.img_type,
            males: model.males,
            name: model.name,
            popular: model.popular,
            reclass: model.reclass,
            region: model.region,
            restrict: model.restrict,
            seo_baidu: model.seo_baidu,
            status: model.status,
            theme: model.theme,
            uuid: model.uuid,
            cover_cache_key: model.cover_cache_key,
            cover_download_status: model.cover_download_status.spec_code() as i64,
            cover_format: model.cover_format,
            cover_width: model.cover_width,
            cover_height: model.cover_height,
            image_count: model.image_count,
            image_count_success: model.image_count_success,
            download_status: model.download_status.spec_code() as i64,
        }
    }
}

impl From<DownloadComic> for UiDownloadComic {
    fn from(model: DownloadComic) -> (ui: UiDownloadComic) {
        UiDownloadComic {
            path_word: model.path_word,
            alias: model.alias,
            author: model.author,
            b_404: model.b_404,
            b_hidden: model.b_hidden,
            ban: model.ban,
            brief: model.brief,
            close_comment: model.close_comment,
            close_roast: model.close_roast,
            cover: model.cover,
            datetime_updated: model.datetime_updated,
            females: model.females,
            free_type: model.free_type,
            img_type: model.img_type,
            males: model.males,
            name: model.name,
            popular: model.popular,
            reclass: model.reclass,
            region: model.region,
            restrict: model.restrict,
            seo_baidu: model.seo_baidu,
            status: model.status,
            theme: model.theme,
            uuid: model.uuid,
            cover_cache_key: model.cover_cache_key,
            cover_download_status: model.cover_download_status.code(),
            cover_format: model.cover_format,
            cover_width: model.cover_width,
            cover_height: model.cover_height,
            image_count: model.image_count,
            image_count_success: model.image_count_success,
            download_status: model.download_status.code(),
        }
    }
}

impl FromSpecImpl<DownloadComicGroup> for UiDownloadComicGroup {
    open spec fn obeys_from_spec() -> bool {
        true
    }

    open spec fn from_spec(model: DownloadComicGroup) -> UiDownloadComicGroup {
        UiDownloadComicGroup {
            comic_path_word: model.comic_path_word,
            group_path_word: model.group_path_word,
            count: model.count,
            name: model.name,
            group_rank: model.group_rank,
        }
    }
}

impl From<DownloadComicGroup> for UiDownloadComicGroup {
    fn from(model: DownloadComicGroup) -> (ui: UiDownloadComicGroup) {
        UiDownloadComicGroup {
            comic_path_word: model.comic_path_word,
            group_path_word: model.group_path_word,
            count: model.count,
            name: model.name,
            group_rank: model.group_rank,
        }
    }
}

impl FromSpecImpl<DownloadComicChapter> for UiDownloadComicChapter {
    open spec fn obeys_from_spec() -> bool {
        true
    }

    open spec fn from_spec(model: DownloadComicChapter) -> UiDownloadComicChapter {
        UiDownloadComicChapter {
            comic_path_word: model.comic_path_word,
            uuid: model.uuid,
            comic_id: model.comic_id,
            count: model.count,
            datetime_created: model.datetime_created,
            group_path_word: model.group_path_word,
            img_type: model.img_type,
            index: model.index,
            is_long: model.is_long,
            name: model.name,
            news: model.news,
            next: model.next,
            ordered: model.ordered,
            prev: model.prev,
            size: model.size,
            type_field: model.type_field,
            download_status: model.download_status.spec_code() as i64,
        }
    }
}

impl From<DownloadComicChapter> for UiDownloadComicChapter {
    fn from(model: DownloadComicChapter) -> (ui: UiDownloadComicChapter) {
        UiDownloadComicChapter {
            comic_path_word: model.comic_path_word,
            uuid: model.uuid,
            comic_id: model.comic_id,
            count: model.count,
            datetime_created: model.datetime_created,
            group_path_word: model.group_path_word,
            img_type: model.img_type,
            index: model.index,
            is_long: model.is_long,
            name: model.name,
            news: model.news,
            next: model.next,
            ordered: model.ordered,
            prev: model.prev,
            size: model.size,
            type_field: model.type_field,
            download_status: model.download_status.code(),
        }
    }
}

impl FromSpecImpl<DownloadComicPage> for UiDownloadComicPage {
    open spec fn obeys_from_spec() -> bool {
        true
    }

    open spec fn from_spec(model: DownloadComicPage) -> UiDownloadComicPage {
        UiDownloadComicPage {
            comic_path_word: model.comic_path_word,
            chapter_uuid: model.chapter_uuid,
            image_index: model.image_index,
            url: model.url,
            cache_key: model.cache_key,
            download_status: model.download_status.spec_code() as i64,
            width: model.width,
            height: model.height,
            format: model.format,
        }
    }
}

impl From<DownloadComicPage> for UiDownloadComicPage {
    fn from(model: DownloadComicPage) -> (ui: UiDownloadComicPage) {
        UiDownloadComicPage {
            comic_path_word: model.comic_path_word,
            chapter_uuid: model.chapter_uuid,
            image_index: model.image_index,
            url: model.url,
            cache_key: model.cache_key,
            download_status: model.download_status.code(),
            width: model.width,
            height: model.height,
            format: model.format,
        }
    }
}

impl FromSpecImpl<Page<CollectedComic>> for UiPageCollectedComic {
    open spec fn obeys_from_spec() -> bool {
        true
    }

    open spec fn from_spec(page: Page<CollectedComic>) -> UiPageCollectedComic {
        UiPageCollectedComic {
            list: page.list,
            total: page.total,
            limit: page.limit,
            offset: page.offset,
        }
    }
}

impl From<Page<CollectedComic>> for UiPageCollectedComic {
    fn from(page: Page<CollectedComic>) -> (ui: UiPageCollectedComic) {
        UiPageCollectedComic {
            list: page.list,
            total: page.total,
            limit: page.limit,
            offset: page.offset,
        }
    }
}

impl UiCacheImage {
    /// `ui` is a cached image as it is shown: the record, with the path of
    /// its file in the directory of the cached images.
    pub open spec fn converts_image_cache(
        dirs: AppDirs,
        model: ImageCacheRow,
        ui: UiCacheImage,
    ) -> bool {
        &&& ui.abs_path@ == joined(seq![dirs.image_cache_dir@, model.local_path@], path_separator())
        &&& ui.cache_key == model.cache_key
        &&& ui.cache_time == model.cache_time
        &&& ui.url == model.url
        &&& ui.useful == model.useful
        &&& ui.extends_field_first == model.extends_field_first
        &&& ui.extends_field_second == model.extends_field_second
        &&& ui.extends_field_third == model.extends_field_third
        &&& ui.local_path == model.local_path
        &&& ui.image_format == model.image_format
        &&& ui.image_width == model.image_width
        &&& ui.image_height == model.image_height
    }

    /// `ui` is a downloaded page as it is shown in place of a cached image:
    /// what the page knows of the image, with the path of the page's file.
    pub open spec fn converts_download_page(
        dirs: AppDirs,
        model: DownloadComicPage,
        ui: UiCacheImage,
    ) -> bool {
        &&& ui.abs_path@ == joined(
            seq![
                dirs.download_dir@,
                model.comic_path_word@,
                model.chapter_uuid@,
                decimal(model.image_index as int),
            ],
            path_separator(),
        )
        &&& ui.cache_key == model.cache_key
        &&& ui.cache_time == 0
        &&& ui.url == model.url
        &&& ui.useful@ == Seq::<char>::empty()
        &&& ui.extends_field_first is None
        &&& ui.extends_field_second is None
        &&& ui.extends_field_third is None
        &&& ui.local_path@ == Seq::<char>::empty()
        &&& ui.image_format == model.format
        &&& ui.image_width == model.width
        &&& ui.image_height == model.height
    }

    /// `ui` is a downloaded cover as it is shown in place of a cached image:
    /// what the comic knows of its cover, with the path of the cover's file.
    pub open spec fn converts_download_cover(
        dirs: AppDirs,
        model: DownloadComic,
        ui: UiCacheImage,
    ) -> bool {
        &&& ui.abs_path@ == joined(
            seq![dirs.download_dir@, model.path_word@, "cover"@],
            path_separator(),
        )
        &&& ui.cache_key == model.cover_cache_key
        &&& ui.cache_time == 0
        &&& ui.url == model.cover
        &&& ui.useful@ == "COMIC_COVER"@
        &&& ui.extends_field_first is None
        &&& ui.extends_field_second is None
        &&& ui.extends_field_third is None
        &&& ui.local_path@ == "cover"@
        &&& ui.image_format == model.cover_format
        &&& ui.image_width == model.cover_width
        &&& ui.image_height == model.cover_height
    }
}

impl<'a> FromSpecImpl<(&'a AppDirs, &'a ImageCacheRow)> for UiCacheImage {
    open spec fn obeys_from_spec() -> bool {
        false
    }

    open spec fn from_spec(source: (&'a AppDirs, &'a ImageCacheRow)) -> UiCacheImage {
        choose|ui: UiCacheImage| UiCacheImage::converts_image_cache(*source.0, *source.1, ui)
    }
}

impl<'a> From<(&'a AppDirs, &'a ImageCacheRow)> for UiCacheImage {
    fn from(source: (&'a AppDirs, &'a ImageCacheRow)) -> (ui: UiCacheImage)
        ensures
            UiCacheImage::converts_image_cache(*source.0, *source.1, ui),
    {
        let (dirs, model) = source;
        UiCacheImage {
            abs_path: get_cache_path(dirs, model.local_path.as_str()),
            cache_key: model.cache_key.clone(),
            cache_time: model.cache_time,
            url: model.url.clone(),
            useful: model.useful.clone(),
            extends_field_first: copy_option(&model.extends_field_first),
            extends_field_second: copy_option(&model.extends_field_second),
            extends_field_third: copy_option(&model.extends_field_third),
            local_path: model.local_path.clone(),
            image_format: model.image_format.clone(),
            image_width: model.image_width,
            image_height: model.image_height,
        }
    }
}

impl<'a> FromSpecImpl<(&'a AppDirs, &'a DownloadComicPage)> for UiCacheImage {
    open spec fn obeys_from_spec() -> bool {
        false
    }

    open spec fn from_spec(source: (&'a AppDirs, &'a DownloadComicPage)) -> UiCacheImage {
        choose|ui: UiCacheImage| UiCacheImage::converts_download_page(*source.0, *source.1, ui)
    }
}

impl<'a> From<(&'a AppDirs, &'a DownloadComicPage)> for UiCacheImage {
    fn from(source: (&'a AppDirs, &'a DownloadComicPage)) -> (ui: UiCacheImage)
        ensures
            UiCacheImage::converts_download_page(*source.0, *source.1, ui),
    {
        let (dirs, model) = source;
        UiCacheImage {
            abs_path: get_image_path(dirs, model),
            cache_key: model.cache_key.clone(),
            cache_time: 0,
            url: model.url.clone(),
            useful: String::new(),
            extends_field_first: None,
            extends_field_second: None,
            extends_field_third: None,
            local_path: String::new(),
            image_format: model.format.clone(),
            image_width: model.width,
            image_height: model.height,
        }
    }
}

impl<'a> FromSpecImpl<(&'a AppDirs, &'a DownloadComic)> for UiCacheImage {
    open spec fn obeys_from_spec() -> bool {
        false
    }

    open spec fn from_spec(source: (&'a AppDirs, &'a DownloadComic)) -> UiCacheImage {
        choose|ui: UiCacheImage| UiCacheImage::converts_download_cover(*source.0, *source.1, ui)
    }
}

impl<'a> From<(&'a AppDirs, &'a DownloadComic)> for UiCacheImage {
    fn from(source: (&'a AppDirs, &'a DownloadComic)) -> (ui: UiCacheImage)
        ensures
            UiCacheImage::converts_download_cover(*source.0, *source.1, ui),
    {
        let (dirs, model) = source;
        UiCacheImage {
            abs_path: get_cover_path(dirs, model),
            cache_key: model.cover_cache_key.clone(),
            cache_time: 0,
            url: model.cover.clone(),
            useful: "COMIC_COVER".to_owned(),
            extends_field_first: None,
            extends_field_second: None,
            extends_field_third: None,
            local_path: "cover".to_owned(),
            image_format: model.cover_format.clone(),
            image_width: model.cover_width,
            image_height: model.cover_height,
        }
    }
}

/// A copy of a text that may be missing.
pub fn copy_option(text: &Option<String>) -> (copy: Option<String>)
    ensures
        copy == *text,
{
    match text {
        Some(s) => Some(s.clone()),
        None => None,
    }
}

} // verus!
