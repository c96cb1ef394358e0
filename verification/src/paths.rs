//! Where the application keeps its data: one root, and under it the database,
//! the cached images and the downloaded images.

use crate::download::rows::{DownloadComic, DownloadComicPage};
use crate::text::{decimal, decimal_string, join_paths, joined, path_separator};
use vstd::prelude::*;

verus! {

/// The directories of the application. They are fixed when the application
/// starts and only read after that.
#[derive(Clone, Debug, PartialEq)]
pub struct AppDirs {
    pub root: String,
    pub image_cache_dir: String,
    pub database_dir: String,
    pub download_dir: String,
}

/// The directory `name` directly under `root`.
pub open spec fn child_of(root: Seq<char>, name: Seq<char>) -> Seq<char> {
    joined(seq![root, name], path_separator())
}

impl AppDirs {
    /// The directories lie under the root, each under its fixed name.
    pub open spec fn wf(&self) -> bool {
        &&& self.image_cache_dir@ == child_of(self.root@, "image_cache"@)
        &&& self.database_dir@ == child_of(self.root@, "database"@)
        &&& self.download_dir@ == child_of(self.root@, "download"@)
    }

    /// The directories of an application whose data lies under `root`.
    pub fn new(root: &str) -> (dirs: AppDirs)
        ensures
            dirs.wf(),
            dirs.root@ == root@,
    {
        let image_cache_dir = join_paths(vec![root, "image_cache"]);
        let database_dir = join_paths(vec![root, "database"]);
        let download_dir = join_paths(vec![root, "download"]);
        proof {
            assert(crate::text::texts(seq![root, "image_cache"]) =~= seq![root@, "image_cache"@]);
            assert(crate::text::texts(seq![root, "database"]) =~= seq![root@, "database"@]);
            assert(crate::text::texts(seq![root, "download"]) =~= seq![root@, "download"@]);
        }
        AppDirs { root: root.to_owned(), image_cache_dir, database_dir, download_dir }
    }
}

/// The state that the whole application shares: the directories, once they
/// are fixed. They are fixed by the first call of `init_root` and never
/// change after that.
#[derive(Clone, Debug, PartialEq)]
pub struct AppState {
    pub dirs: Option<AppDirs>,
}

impl AppState {
    /// The directories, once fixed, lie under their root.
    pub open spec fn wf(&self) -> bool {
        match self.dirs {
            Some(dirs) => dirs.wf(),
            None => true,
        }
    }

    /// The state of an application that was not started yet.
    pub fn new() -> (state: AppState)
        ensures
            state.dirs is None,
            state.wf(),
    {
        AppState { dirs: None }
    }

    /// Fixes the directories under the root `path`, unless they are fixed
    /// already. Says whether this call fixed them: only then is the rest of
    /// the start to be done.
    pub fn init_root(&mut self, path: &str) -> (first: bool)
        requires
            old(self).wf(),
        ensures
            final(self).wf(),
            first == (old(self).dirs is None),
            !first ==> *final(self) == *old(self),
            first ==> final(self).dirs is Some && final(self).dirs->Some_0.root@ == path@,
    {
        if self.dirs.is_some() {
            return false;
        }
        self.dirs = Some(AppDirs::new(path));
        true
    }
}

/// The root of the application's data.
pub fn get_root(dirs: &AppDirs) -> (dir: &String)
    ensures
        dir == dirs.root,
{
    &dirs.root
}

/// The directory of the cached images.
pub fn get_image_cache_dir(dirs: &AppDirs) -> (dir: &String)
    ensures
        dir == dirs.image_cache_dir,
{
    &dirs.image_cache_dir
}

/// The directory of the databases.
pub fn get_database_dir(dirs: &AppDirs) -> (dir: &String)
    ensures
        dir == dirs.database_dir,
{
    &dirs.database_dir
}

/// The directory of the downloaded images.
pub fn get_download_dir(dirs: &AppDirs) -> (dir: &String)
    ensures
        dir == dirs.download_dir,
{
    &dirs.download_dir
}

/// The directory that holds everything downloaded for a comic.
pub fn get_comic_dir(dirs: &AppDirs, comic_path_word: &str) -> (path: String)
    ensures
        path@ == joined(seq![dirs.download_dir@, comic_path_word@], path_separator()),
{
    let parts = vec![dirs.download_dir.as_str(), comic_path_word];
    proof {
        assert(crate::text::texts(parts@) =~= seq![dirs.download_dir@, comic_path_word@]);
    }
    join_paths(parts)
}

/// The file of a comic's cover: `cover` in the comic's directory.
pub fn get_cover_path(dirs: &AppDirs, model: &DownloadComic) -> (path: String)
    ensures
        path@ == joined(
            seq![dirs.download_dir@, model.path_word@, "cover"@],
            path_separator(),
        ),
{
    let parts = vec![dirs.download_dir.as_str(), model.path_word.as_str(), "cover"];
    proof {
        assert(crate::text::texts(parts@) =~= seq![
            dirs.download_dir@,
            model.path_word@,
            "cover"@,
        ]);
    }
    join_paths(parts)
}

/// The file of a page: in the comic's directory, under the chapter, named by
/// the page's index.
pub fn get_image_path(dirs: &AppDirs, model: &DownloadComicPage) -> (path: String)
    ensures
        path@ == joined(
            seq![
                dirs.download_dir@,
                model.comic_path_word@,
                model.chapter_uuid@,
                decimal(model.image_index as int),
            ],
            path_separator(),
        ),
{
    let index = decimal_string(model.image_index as i64);
    let parts = vec![
        dirs.download_dir.as_str(),
        model.comic_path_word.as_str(),
        model.chapter_uuid.as_str(),
        index.as_str(),
    ];
    proof {
        assert(crate::text::texts(parts@) =~= seq![
            dirs.download_dir@,
            model.comic_path_word@,
            model.chapter_uuid@,
            decimal(model.image_index as int),
        ]);
    }
    join_paths(parts)
}

/// The file of a cached image: its local name in the directory of the cached
/// images.
pub fn get_cache_path(dirs: &AppDirs, local_path: &str) -> (path: String)
    ensures
        path@ == joined(seq![dirs.image_cache_dir@, local_path@], path_separator()),
{
    let parts = vec![dirs.image_cache_dir.as_str(), local_path];
    proof {
        assert(crate::text::texts(parts@) =~= seq![dirs.image_cache_dir@, local_path@]);
    }
    join_paths(parts)
}

} // verus!
