//! Where the bytes of a fetch come from: from an image that is there locally
//! under the same cache key, or from the remote service.

use crate::cache::image_cache::ImageCache;
use crate::download::store::TaskStore;
use crate::download::work::{DownloadTask, TaskTarget};
use crate::local_image::{find_local_image, is_local_image};
use crate::paths::AppDirs;
use crate::text::{decimal, decimal_string, join_paths, joined, path_separator, texts};
use crate::udto::UiCacheImage;
use vstd::prelude::*;

verus! {

/// How the bytes of a fetch are had, and the file they go to.
#[derive(Debug, Clone, PartialEq)]
pub enum FetchPlan {
    /// The image is there locally under the task's cache key: its file is
    /// copied, and what is known of it is taken over.
    Copy { from: UiCacheImage, to: String },
    /// The image is fetched from the task's URL.
    Download { to: String },
}

/// The file that a task's bytes go to: the cover's file, or the file of the
/// page under its chapter.
pub open spec fn target_path(dirs: AppDirs, task: DownloadTask) -> Seq<char> {
    match task.target {
        TaskTarget::Cover => joined(
            seq![dirs.download_dir@, task.comic_path_word@, "cover"@],
            path_separator(),
        ),
        TaskTarget::Page { chapter_uuid, image_index } => joined(
            seq![
                dirs.download_dir@,
                task.comic_path_word@,
                chapter_uuid@,
                decimal(image_index as int),
            ],
            path_separator(),
        ),
    }
}

/// The file that a task's bytes go to.
pub fn task_path(dirs: &AppDirs, task: &DownloadTask) -> (path: String)
    ensures
        path@ == target_path(*dirs, *task),
{
    match &task.target {
        TaskTarget::Cover => {
            let parts = vec![dirs.download_dir.as_str(), task.comic_path_word.as_str(), "cover"];
            assert(texts(parts@) =~= seq![dirs.download_dir@, task.comic_path_word@, "cover"@]);
            join_paths(parts)
        },
        TaskTarget::Page { chapter_uuid, image_index } => {
            let index = decimal_string(*image_index as i64);
            let parts = vec![
                dirs.download_dir.as_str(),
                task.comic_path_word.as_str(),
                chapter_uuid.as_str(),
                index.as_str(),
            ];
            assert(texts(parts@) =~= seq![
                dirs.download_dir@,
                task.comic_path_word@,
                chapter_uuid@,
                decimal(*image_index as int),
            ]);
            join_paths(parts)
        },
    }
}

/// How the bytes of a task are had: by a copy where an image is there
/// locally under the task's cache key, else from the remote service.
pub open spec fn plan_is(
    images: ImageCache,
    store: TaskStore,
    dirs: AppDirs,
    task: DownloadTask,
    plan: FetchPlan,
) -> bool {
    match plan {
        FetchPlan::Copy { from, to } => to@ == target_path(dirs, task) && is_local_image(
            images,
            store,
            dirs,
            task.cache_key@,
            Some(from),
        ),
        FetchPlan::Download { to } => to@ == target_path(dirs, task) && is_local_image(
            images,
            store,
            dirs,
            task.cache_key@,
            None,
        ),
    }
}

/// Decides how the bytes of a task are had. What is there locally under the
/// task's cache key is not fetched again: its file is copied.
pub fn plan_fetch(
    images: &ImageCache,
    store: &TaskStore,
    dirs: &AppDirs,
    task: &DownloadTask,
) -> (plan: FetchPlan)
    ensures
        plan_is(*images, *store, *dirs, *task, plan),
{
    let to = task_path(dirs, task);
    match find_local_image(images, store, dirs, &task.cache_key) {
        Some(from) => FetchPlan::Copy { from, to },
        None => FetchPlan::Download { to },
    }
}

} // verus!
