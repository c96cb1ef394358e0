//! The records of the task store: one per comic, group, chapter and page that
//! was queued for download.

use crate::status::{AggregateStatus, DownloadStatus};
use vstd::prelude::*;

verus! {

/// A comic that the user chose to download, with the metadata captured when
/// it was queued. Identified by `path_word`.
#[derive(Clone, Debug, PartialEq)]
pub struct DownloadComic {
    pub path_word: String,
    pub alias: Option<String>,
    pub author: String,
    pub b_404: bool,
    pub b_hidden: bool,
    pub ban: i64,
    pub brief: String,
    pub close_comment: bool,
    pub close_roast: bool,
    pub cover: String,
    pub datetime_updated: String,
    pub females: String,
    pub free_type: String,
    pub img_type: i64,
    pub males: String,
    pub name: String,
    pub popular: i64,
    pub reclass: String,
    pub region: String,
    pub restrict: String,
    pub seo_baidu: String,
    pub status: String,
    pub theme: String,
    pub uuid: String,
    pub cover_cache_key: String,
    pub cover_download_status: DownloadStatus,
    pub cover_format: String,
    pub cover_width: u32,
    pub cover_height: u32,
    /// Number of pages recorded under the comic.
    pub image_count: i64,
    /// Number of those pages that were fetched.
    pub image_count_success: i64,
    /// Derived from the pages under the comic.
    pub download_status: AggregateStatus,
}

/// A group of chapters of a comic. Identified by the comic and `group_path_word`.
#[derive(Clone, Debug, PartialEq)]
pub struct DownloadComicGroup {
    pub comic_path_word: String,
    pub group_path_word: String,
    pub count: i64,
    pub name: String,
    pub group_rank: i64,
}

/// A chapter of a comic. Identified by `uuid`.
#[derive(Clone, Debug, PartialEq)]
pub struct DownloadComicChapter {
    pub comic_path_word: String,
    pub uuid: String,
    pub comic_id: String,
    pub count: i64,
    pub datetime_created: String,
    pub group_path_word: String,
    pub img_type: i64,
    pub index: i64,
    pub is_long: bool,
    pub name: String,
    pub news: String,
    pub next: Option<String>,
    pub ordered: i64,
    pub prev: Option<String>,
    pub size: i64,
    pub type_field: i64,
    /// Derived from the pages under the chapter.
    pub download_status: AggregateStatus,
}

/// One image of a chapter, the unit of network work. Identified by the
/// chapter and `image_index`.
#[derive(Clone, Debug, PartialEq)]
pub struct DownloadComicPage {
    pub comic_path_word: String,
    pub chapter_uuid: String,
    pub image_index: i32,
    pub url: String,
    pub cache_key: String,
    pub download_status: DownloadStatus,
    /// Known once the image was fetched, zero before.
    pub width: u32,
    /// Known once the image was fetched, zero before.
    pub height: u32,
    /// Known once the image was fetched, empty before.
    pub format: String,
}

/// What decoding an image tells about it.
#[derive(Clone, Debug, PartialEq)]
pub struct ImageMeta {
    pub format: String,
    pub width: u32,
    pub height: u32,
}

impl DownloadComic {
    /// The record with its derived fields set to the given values.
    pub open spec fn with_progress(
        self,
        image_count: i64,
        image_count_success: i64,
        download_status: AggregateStatus,
    ) -> DownloadComic {
        DownloadComic { image_count, image_count_success, download_status, ..self }
    }

    /// Two records that differ in their derived fields at most.
    pub open spec fn same_but_progress(self, other: DownloadComic) -> bool {
        other == self.with_progress(
            other.image_count,
            other.image_count_success,
            other.download_status,
        )
    }

    /// Two records that differ in the cover's download at most.
    pub open spec fn same_but_cover(self, other: DownloadComic) -> bool {
        other == (DownloadComic {
            cover_download_status: other.cover_download_status,
            cover_format: other.cover_format,
            cover_width: other.cover_width,
            cover_height: other.cover_height,
            ..self
        })
    }
}

impl DownloadComicChapter {
    /// Two records that differ in their derived field at most.
    pub open spec fn same_but_progress(self, other: DownloadComicChapter) -> bool {
        other == (DownloadComicChapter { download_status: other.download_status, ..self })
    }
}

impl DownloadComicPage {
    /// Two records that differ in the state of the download and in what it
    /// found at most.
    pub open spec fn same_but_download(self, other: DownloadComicPage) -> bool {
        other == (DownloadComicPage {
            download_status: other.download_status,
            width: other.width,
            height: other.height,
            format: other.format,
            ..self
        })
    }
}

} // verus!
