//! The record of how far a comic was read, and how it is written and shown.

use crate::udto::{convert_all, UiPageUiViewLog, UiViewLog};
use vstd::prelude::*;
use vstd::std_specs::convert::FromSpec;

verus! {

/// How far a comic was read: the comic as it was shown, and the chapter and
/// page that were open last.
#[derive(Default, Debug, Clone, PartialEq)]
pub struct ComicViewLog {
    pub comic_path_word: String,
    pub comic_name: String,
    pub comic_authors: String,
    pub comic_cover: String,
    pub chapter_uuid: String,
    pub chapter_name: String,
    pub chapter_ordered: i64,
    pub chapter_size: i64,
    pub chapter_count: i64,
    pub page_rank: i32,
    pub view_time: i64,
}

/// What is written when a comic is opened: the comic as it is shown, with
/// nothing read yet. `comic_authors` is the list of authors, serialized.
pub fn view_comic_info(
    comic_path_word: String,
    comic_name: String,
    comic_authors: String,
    comic_cover: String,
) -> (model: ComicViewLog)
    ensures
        model.comic_path_word == comic_path_word,
        model.comic_name == comic_name,
        model.comic_authors == comic_authors,
        model.comic_cover == comic_cover,
        model.chapter_uuid@ == Seq::<char>::empty(),
        model.chapter_name@ == Seq::<char>::empty(),
        model.chapter_ordered == 0,
        model.chapter_size == 0,
        model.chapter_count == 0,
        model.page_rank == 0,
        model.view_time == 0,
{
    ComicViewLog {
        comic_path_word,
        comic_name,
        comic_authors,
        comic_cover,
        chapter_uuid: String::new(),
        chapter_name: String::new(),
        chapter_ordered: 0,
        chapter_size: 0,
        chapter_count: 0,
        page_rank: 0,
        view_time: 0,
    }
}

/// What is written when a page is turned: the chapter and the page that are
/// open, with nothing said of how the comic is shown.
pub fn view_chapter_page(
    comic_path_word: String,
    chapter_uuid: String,
    chapter_name: String,
    chapter_ordered: i64,
    chapter_size: i64,
    chapter_count: i64,
    page_rank: i32,
) -> (model: ComicViewLog)
    ensures
        model.comic_path_word == comic_path_word,
        model.comic_name@ == Seq::<char>::empty(),
        model.comic_authors@ == Seq::<char>::empty(),
        model.comic_cover@ == Seq::<char>::empty(),
        model.chapter_uuid == chapter_uuid,
        model.chapter_name == chapter_name,
        model.chapter_ordered == chapter_ordered,
        model.chapter_size == chapter_size,
        model.chapter_count == chapter_count,
        model.page_rank == page_rank,
        model.view_time == 0,
{
    ComicViewLog {
        comic_path_word,
        comic_name: String::new(),
        comic_authors: String::new(),
        comic_cover: String::new(),
        chapter_uuid,
        chapter_name,
        chapter_ordered,
        chapter_size,
        chapter_count,
        page_rank,
        view_time: 0,
    }
}

/// How far a comic was read, as it is shown, where anything is recorded.
pub fn find_comic_view_log(found: Option<ComicViewLog>) -> (shown: Option<UiViewLog>)
    ensures
        shown == match found {
            Some(model) => Some(<UiViewLog as FromSpec<ComicViewLog>>::from_spec(model)),
            None => None,
        },
{
    match found {
        Some(model) => Some(UiViewLog::from(model)),
        None => None,
    }
}

/// The number of records as a signed number: the same number where it fits,
/// and the one with the same bits where it does not.
pub open spec fn total_of(count: u64) -> i64 {
    if count <= i64::MAX {
        count as i64
    } else {
        (count - 0x1_0000_0000_0000_0000) as i64
    }
}

/// One page of the listing of what was read: `list` holds the records of
/// the page, and `count` is the number of all records.
pub fn list_comic_view_logs(count: u64, offset: i64, limit: i64, list: Vec<ComicViewLog>) -> (page:
    UiPageUiViewLog)
    ensures
        page.total == total_of(count),
        page.limit == limit,
        page.offset == offset,
        page.list@.len() == list@.len(),
        forall|i: int|
            0 <= i < list@.len() ==> #[trigger] page.list@[i] == <UiViewLog as FromSpec<
                ComicViewLog,
            >>::from_spec(list@[i]),
{
    let total: i64 = if count <= i64::MAX as u64 {
        count as i64
    } else {
        (count as i128 - 0x1_0000_0000_0000_0000i128) as i64
    };
    UiPageUiViewLog { total, limit, offset, list: convert_all(list) }
}

} // verus!
