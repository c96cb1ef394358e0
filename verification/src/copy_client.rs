//! The records of the remote comic service, as its client hands them over.

use vstd::prelude::*;

verus! {

/// A name under which a comic's author is listed.
#[derive(Default, Debug, Clone, PartialEq)]
pub struct Author {
    pub name: String,
    pub alias: Option<String>,
    pub path_word: String,
}

/// A theme or an ordering that comics are listed by.
#[derive(Default, Debug, Clone, PartialEq)]
pub struct Tag {
    pub name: String,
    pub path_word: String,
}

/// An audience that a comic is meant for.
#[derive(Default, Debug, Clone, PartialEq)]
pub struct SexualOrientation {
    pub name: String,
    pub path_word: String,
    pub gender: i64,
}

/// A value of a classification with the text shown for it.
#[derive(Default, Debug, Clone, PartialEq)]
pub struct ClassifyItem {
    pub display: String,
    pub value: i64,
}

/// The newest chapter of a comic.
#[derive(Default, Debug, Clone, PartialEq)]
pub struct LastChapter {
    pub name: String,
    pub uuid: String,
}

/// A group of chapters of a comic.
#[derive(Default, Debug, Clone, PartialEq)]
pub struct Group {
    pub count: i64,
    pub name: String,
    pub path_word: String,
}

/// Where the reader left off in a comic.
#[derive(Default, Debug, Clone, PartialEq)]
pub struct Browse {
    pub chapter_id: String,
    pub chapter_name: String,
    pub chapter_uuid: String,
    pub comic_id: String,
    pub comic_uuid: String,
    pub path_word: String,
}

/// One image of a chapter.
#[derive(Default, Debug, Clone, PartialEq)]
pub struct ChapterImage {
    pub url: String,
}

/// The comic that a chapter belongs to.
#[derive(Default, Debug, Clone, PartialEq)]
pub struct ChapterComicInfo {
    pub name: String,
    pub path_word: String,
    pub restrict: ClassifyItem,
    pub uuid: String,
}

/// A theme with the number of its comics.
#[derive(Default, Debug, Clone, PartialEq)]
pub struct Theme {
    pub count: i64,
    pub initials: i64,
    pub name: String,
    pub path_word: String,
}

/// What comics can be listed by.
#[derive(Default, Debug, Clone, PartialEq)]
pub struct Tags {
    pub ordering: Vec<Tag>,
    pub theme: Vec<Theme>,
    pub top: Vec<Tag>,
}

/// A comic as a listing shows it.
#[derive(Default, Debug, Clone, PartialEq)]
pub struct ComicInList {
    pub author: Vec<Author>,
    pub cover: String,
    pub img_type: i64,
    pub name: String,
    pub path_word: String,
    pub popular: i64,
    pub females: Vec<SexualOrientation>,
    pub males: Vec<SexualOrientation>,
}

/// A comic as a search finds it.
#[derive(Default, Debug, Clone, PartialEq)]
pub struct ComicInSearch {
    pub alias: Option<String>,
    pub author: Vec<Author>,
    pub cover: String,
    pub img_type: i64,
    pub name: String,
    pub path_word: String,
    pub popular: i64,
}

/// A comic as the listing by theme shows it.
#[derive(Default, Debug, Clone, PartialEq)]
pub struct ComicInExplore {
    pub name: String,
    pub path_word: String,
    pub free_type: ClassifyItem,
    pub author: Vec<Author>,
    pub cover: String,
    pub popular: i64,
    pub datetime_updated: Option<String>,
    pub females: Vec<SexualOrientation>,
    pub males: Vec<SexualOrientation>,
}

/// A comic with its place in a ranking.
#[derive(Default, Debug, Clone, PartialEq)]
pub struct RankItem {
    pub comic: ComicInList,
    pub date_type: i64,
    pub popular: i64,
    pub rise_num: i64,
    pub rise_sort: i64,
    pub sort: i64,
    pub sort_last: i64,
}

/// A comic that is recommended.
#[derive(Default, Debug, Clone, PartialEq)]
pub struct RecommendItem {
    pub type_field: i64,
    pub comic: ComicInList,
}

/// A comic with all that the service says of it.
#[derive(Default, Debug, Clone, PartialEq)]
pub struct Comic {
    pub alias: Option<String>,
    pub author: Vec<Author>,
    pub b_404: bool,
    pub b_hidden: bool,
    pub ban: i64,
    pub brief: String,
    pub close_comment: bool,
    pub close_roast: bool,
    pub cover: String,
    pub datetime_updated: String,
    pub free_type: ClassifyItem,
    pub img_type: i64,
    pub last_chapter: LastChapter,
    pub name: String,
    pub path_word: String,
    pub popular: i64,
    pub reclass: ClassifyItem,
    pub region: ClassifyItem,
    pub restrict: ClassifyItem,
    pub seo_baidu: String,
    pub status: ClassifyItem,
    pub theme: Vec<Tag>,
    pub uuid: String,
    pub females: Vec<SexualOrientation>,
    pub males: Vec<SexualOrientation>,
}

/// A comic with its groups. The groups come as the entries of a map from
/// path word to group, in the order in which they were handed over.
#[derive(Default, Debug, Clone, PartialEq)]
pub struct ComicData {
    pub comic: Comic,
    pub groups: Vec<(String, Group)>,
    pub is_lock: bool,
    pub is_login: bool,
    pub is_mobile_bind: bool,
    pub is_vip: bool,
    pub popular: i64,
}

/// A chapter as the listing of a group shows it.
#[derive(Default, Debug, Clone, PartialEq)]
pub struct ComicChapter {
    pub comic_id: String,
    pub comic_path_word: String,
    pub count: i64,
    pub datetime_created: String,
    pub group_path_word: String,
    pub img_type: i64,
    pub index: i64,
    pub name: String,
    pub news: String,
    pub next: Option<String>,
    pub ordered: i64,
    pub prev: Option<String>,
    pub size: i64,
    pub type_field: i64,
    pub uuid: String,
}

/// What the account has to do with a comic.
#[derive(Default, Debug, Clone, PartialEq)]
pub struct ComicQuery {
    pub browse: Option<Browse>,
    pub collect: Option<i64>,
    pub is_lock: bool,
    pub is_login: bool,
    pub is_mobile_bind: bool,
    pub is_vip: bool,
}

/// A chapter with its images.
#[derive(Default, Debug, Clone, PartialEq)]
pub struct ChapterAndContents {
    pub comic_id: String,
    pub comic_path_word: String,
    pub contents: Vec<ChapterImage>,
    pub count: i64,
    pub datetime_created: String,
    pub group_path_word: String,
    pub img_type: i64,
    pub index: i64,
    pub is_long: bool,
    pub name: String,
    pub news: String,
    pub next: Option<String>,
    pub ordered: i64,
    pub prev: Option<String>,
    pub size: i64,
    pub type_field: i64,
    pub uuid: String,
    pub words: Vec<i64>,
}

/// A chapter with its images and its comic.
#[derive(Default, Debug, Clone, PartialEq)]
pub struct ChapterData {
    pub chapter: ChapterAndContents,
    pub comic: ChapterComicInfo,
    pub is_lock: bool,
    pub is_login: bool,
    pub is_mobile_bind: bool,
    pub is_vip: bool,
    pub show_app: bool,
}

/// The chapter of a collected comic that was read last.
#[derive(Default, Debug, Clone, PartialEq)]
pub struct LastBrowse {
    pub last_browse_id: String,
    pub last_browse_name: String,
}

/// A comic as the collection shows it.
#[derive(Default, Debug, Clone, PartialEq)]
pub struct CollectedComicInfo {
    pub uuid: String,
    pub b_display: bool,
    pub name: String,
    pub path_word: String,
    pub females: Vec<SexualOrientation>,
    pub males: Vec<SexualOrientation>,
    pub author: Vec<Author>,
    pub theme: Vec<Tag>,
    pub cover: String,
    pub status: i64,
    pub popular: i64,
    pub datetime_updated: Option<String>,
    pub last_chapter_id: String,
    pub last_chapter_name: String,
}

/// A comic in the collection of the account.
#[derive(Default, Debug, Clone, PartialEq)]
pub struct CollectedComic {
    pub uuid: i64,
    pub b_folder: bool,
    pub folder_id: Option<String>,
    pub last_browse: Option<LastBrowse>,
    pub comic: CollectedComicInfo,
}

/// The account as the remote service describes it.
#[derive(Default, Debug, Clone, PartialEq)]
pub struct MemberInfo {
    pub user_id: String,
    pub username: String,
    pub nickname: String,
    pub avatar: String,
    pub is_authenticated: bool,
    pub datetime_created: String,
    pub b_verify_email: bool,
    pub email: String,
    pub mobile: Option<String>,
    pub mobile_region: Option<String>,
    pub point: i64,
    pub comic_vip: i64,
    pub comic_vip_end: Option<String>,
    pub comic_vip_start: Option<String>,
    pub cartoon_vip: i64,
    pub cartoon_vip_end: Option<String>,
    pub cartoon_vip_start: Option<String>,
    pub ads_vip_end: Option<String>,
    pub close_report: bool,
    pub downloads: i64,
    pub vip_downloads: i64,
    pub reward_downloads: i64,
    pub invite_code: Option<String>,
    pub invited: Option<String>,
    pub b_sstv: bool,
    pub scy_answer: bool,
    pub day_downloads_refresh: String,
    pub day_downloads: i64,
}

/// What the remote service answers to a login: the account and its token.
#[derive(Default, Debug, Clone, PartialEq)]
pub struct LoginResult {
    pub token: String,
    pub user_id: String,
    pub username: String,
    pub nickname: String,
    pub avatar: String,
    pub is_authenticated: bool,
    pub datetime_created: String,
    pub b_verify_email: bool,
    pub email: String,
    pub mobile: Option<String>,
    pub mobile_region: Option<String>,
    pub point: i64,
    pub comic_vip: i64,
    pub comic_vip_end: Option<String>,
    pub comic_vip_start: Option<String>,
    pub cartoon_vip: i64,
    pub cartoon_vip_end: Option<String>,
    pub cartoon_vip_start: Option<String>,
    pub ads_vip_end: Option<String>,
    pub close_report: bool,
    pub downloads: i64,
    pub vip_downloads: i64,
    pub reward_downloads: i64,
    pub invite_code: Option<String>,
    pub invited: Option<String>,
    pub b_sstv: bool,
    pub scy_answer: bool,
}

/// What the remote service answers to a registration.
#[derive(Default, Debug, Clone, PartialEq)]
pub struct RegisterResult {
    pub user_id: Option<String>,
    pub username: String,
    pub nickname: String,
    pub avatar: Option<String>,
    pub datetime_created: Option<String>,
    pub invite_code: Option<String>,
}

/// One page of a listing of the remote service.
#[derive(Default, Debug, Clone, PartialEq)]
pub struct Page<T> {
    pub list: Vec<T>,
    pub total: i64,
    pub limit: i64,
    pub offset: i64,
}

/// Why a call of the remote service failed, with the text of the failure.
#[derive(Debug, Clone, PartialEq)]
pub enum ErrorInfo {
    /// The service could not be reached, or it answered with a failure status.
    Network(String),
    /// The service answered with a message of its own.
    Message(String),
    /// The answer could not be read.
    Convert(String),
    Other(String),
}

} // verus!
