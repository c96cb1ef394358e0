use copi_rust::api::images::{
    cache_image_lookup, cache_image_record, cache_image_store, CacheImageError, CacheImagePlan,
    CacheImageRequest,
};
use copi_rust::cache::cleanup::{cache_cutoff, clean_cache, CLEAN_BATCH};
use copi_rust::cache::image_cache::{ImageCache, ImageCacheRow};
use copi_rust::cache::web_cache::WebCache;
use copi_rust::digest::local_file_name;
use copi_rust::download::queue::ComicSnapshot;
use copi_rust::download::rows::ImageMeta;
use copi_rust::download::source::{plan_fetch, task_path, FetchPlan};
use copi_rust::download::store::TaskStore;
use copi_rust::download::work::{DownloadTask, LoopAction, TaskTarget};
use copi_rust::image_probe::{first_extension, image_meta_of, probe_image};
use copi_rust::local_image::{
    find_local_image, first_local_image, DownloadedCovers, DownloadedPages, LocalImages,
};
use copi_rust::paths::{
    get_cache_path, get_comic_dir, get_cover_path, get_database_dir, get_download_dir,
    get_image_cache_dir, get_image_path, get_root, AppDirs, AppState,
};
use copi_rust::udto::{UiCacheImage, UiQueryDownloadComic, UiQueryDownloadComicPage};

fn png(width: u32, height: u32) -> Vec<u8> {
    let picture = image::DynamicImage::ImageRgb8(image::RgbImage::new(width, height));
    let mut bytes = Vec::new();
    picture
        .write_to(&mut std::io::Cursor::new(&mut bytes), image::ImageFormat::Png)
        .unwrap();
    bytes
}

fn jpeg(width: u32, height: u32) -> Vec<u8> {
    let picture = image::DynamicImage::ImageRgb8(image::RgbImage::new(width, height));
    let mut bytes = Vec::new();
    picture
        .write_to(&mut std::io::Cursor::new(&mut bytes), image::ImageFormat::Jpeg)
        .unwrap();
    bytes
}

fn request(key: &str, url: &str) -> CacheImageRequest {
    CacheImageRequest {
        cache_key: key.to_string(),
        url: url.to_string(),
        useful: "COMIC_COVER".to_string(),
        extends_field_first: Some("one".to_string()),
        extends_field_second: None,
        extends_field_third: None,
    }
}

fn row(key: &str, url: &str, time: i64) -> ImageCacheRow {
    ImageCacheRow {
        cache_key: key.to_string(),
        url: url.to_string(),
        useful: String::new(),
        extends_field_first: None,
        extends_field_second: None,
        extends_field_third: None,
        local_path: local_file_name(url),
        cache_time: time,
        image_format: "png".to_string(),
        image_width: 1,
        image_height: 1,
    }
}

fn store_with_one_page() -> TaskStore {
    let mut comic = UiQueryDownloadComic::default();
    comic.path_word = "c".to_string();
    comic.cover = "https://img.example/c/cover.jpg".to_string();
    let mut store = TaskStore::new();
    store.append_download(ComicSnapshot {
        comic,
        cover_cache_key: "c/cover".to_string(),
        pages: vec![UiQueryDownloadComicPage {
            chapter_uuid: "ch1".to_string(),
            image_index: 7,
            url: "https://img.example/c/ch1/7.jpg".to_string(),
            cache_key: "c/ch1/7".to_string(),
        }],
    });
    store
}

fn fetch(store: &mut TaskStore) -> DownloadTask {
    match store.poll() {
        LoopAction::Fetch(task) => task,
        other => panic!("expected a fetch, got {:?}", other),
    }
}

#[test]
fn file_names_are_the_hex_of_the_md5_of_the_url() {
    assert_eq!(local_file_name(""), "d41d8cd98f00b204e9800998ecf8427e");
    assert_eq!(local_file_name("abc"), "900150983cd24fb0d6963f7d28e17f72");
    assert_eq!(
        local_file_name("The quick brown fox jumps over the lazy dog"),
        "9e107d9d372bb6826bd81d3542a419d6"
    );
    assert_eq!(local_file_name("https://img.example/a.jpg").len(), 32);
    assert_ne!(local_file_name("https://img.example/a.jpg"), local_file_name("https://img.example/b.jpg"));
}

#[test]
fn directories_lie_under_the_root() {
    let dirs = AppDirs::new("/data/app");
    assert_eq!(get_root(&dirs), "/data/app");
    assert_eq!(get_image_cache_dir(&dirs), "/data/app/image_cache");
    assert_eq!(get_database_dir(&dirs), "/data/app/database");
    assert_eq!(get_download_dir(&dirs), "/data/app/download");
    assert_eq!(get_cache_path(&dirs, "abc"), "/data/app/image_cache/abc");
    assert_eq!(get_comic_dir(&dirs, "c"), "/data/app/download/c");
    let store = store_with_one_page();
    assert_eq!(get_cover_path(&dirs, &store.comics[0]), "/data/app/download/c/cover");
    assert_eq!(get_image_path(&dirs, &store.pages[0]), "/data/app/download/c/ch1/7");
}

#[test]
fn probing_finds_format_and_size() {
    let meta = probe_image(&png(3, 2)).unwrap();
    assert_eq!(meta, ImageMeta { format: "png".to_string(), width: 3, height: 2 });
    let meta = probe_image(&jpeg(5, 4)).unwrap();
    assert_eq!(meta, ImageMeta { format: "jpg".to_string(), width: 5, height: 4 });
    assert_eq!(probe_image(b"not an image"), None);
    assert_eq!(probe_image(b""), None);
    let mut cut = png(3, 2);
    cut.truncate(20);
    assert_eq!(probe_image(&cut), None);
    assert_eq!(first_extension(vec!["jpg".to_string(), "jpeg".to_string()]), "jpg");
    assert_eq!(first_extension(Vec::new()), "");
    assert_eq!(
        image_meta_of(vec!["jpg".to_string(), "jpeg".to_string()], Some((7, 9))),
        Some(ImageMeta { format: "jpg".to_string(), width: 7, height: 9 })
    );
    assert_eq!(
        image_meta_of(Vec::new(), Some((7, 9))),
        Some(ImageMeta { format: String::new(), width: 7, height: 9 })
    );
    assert_eq!(image_meta_of(vec!["png".to_string()], None), None);
}

#[test]
fn a_miss_is_fetched_and_then_served_from_the_cache() {
    let dirs = AppDirs::new("/data");
    let store = TaskStore::new();
    let mut images = ImageCache::new();
    let url = "https://img.example/a.png".to_string();
    let key = "key-a".to_string();
    let plan = cache_image_lookup(&mut images, &store, &dirs, &key, &url, 10);
    let name = local_file_name(&url);
    assert_eq!(
        plan,
        CacheImagePlan::Fetch {
            local_path: name.clone(),
            abs_path: format!("/data/image_cache/{}", name)
        }
    );
    assert!(images.rows.is_empty());

    let ui = cache_image_store(&mut images, &dirs, request("key-a", &url), &png(3, 2), 11).unwrap();
    assert_eq!(
        ui,
        UiCacheImage {
            abs_path: format!("/data/image_cache/{}", name),
            cache_key: "key-a".to_string(),
            cache_time: 11,
            url: url.clone(),
            useful: "COMIC_COVER".to_string(),
            extends_field_first: Some("one".to_string()),
            extends_field_second: None,
            extends_field_third: None,
            local_path: name.clone(),
            image_format: "png".to_string(),
            image_width: 3,
            image_height: 2,
        }
    );
    assert_eq!(images.rows.len(), 1);

    let plan = cache_image_lookup(&mut images, &store, &dirs, &key, &url, 50);
    assert_eq!(plan, CacheImagePlan::Ready(ui));
    assert_eq!(images.rows[0].cache_time, 50);
    assert_eq!(images.load_image_by_cache_key(&key).unwrap().cache_time, 50);
}

#[test]
fn two_keys_for_one_url_share_one_file() {
    let dirs = AppDirs::new("/data");
    let store = TaskStore::new();
    let mut images = ImageCache::new();
    let url = "https://img.example/a.png".to_string();
    let a = cache_image_store(&mut images, &dirs, request("key-a", &url), &png(3, 2), 1).unwrap();
    let plan = cache_image_lookup(&mut images, &store, &dirs, &"key-b".to_string(), &url, 2);
    match plan {
        CacheImagePlan::Fetch { local_path, abs_path } => {
            assert_eq!(local_path, a.local_path);
            assert_eq!(abs_path, a.abs_path);
        }
        other => panic!("expected a fetch, got {:?}", other),
    }
    let b = cache_image_store(&mut images, &dirs, request("key-b", &url), &png(3, 2), 3).unwrap();
    assert_eq!(a.abs_path, b.abs_path);
    assert_eq!(images.rows.len(), 2);
    assert_eq!(images.rows[0].local_path, images.rows[1].local_path);
}

#[test]
fn bytes_that_are_no_image_are_not_cached() {
    let dirs = AppDirs::new("/data");
    let mut images = ImageCache::new();
    let result = cache_image_store(&mut images, &dirs, request("k", "u"), b"nothing", 1);
    assert_eq!(result, Err(CacheImageError::Decode));
    assert!(images.rows.is_empty());
    let result = cache_image_record(&mut images, &dirs, request("k", "u"), None, 1);
    assert_eq!(result, Err(CacheImageError::Decode));
    let meta = ImageMeta { format: "gif".to_string(), width: 9, height: 8 };
    let ui = cache_image_record(&mut images, &dirs, request("k", "u"), Some(meta.clone()), 1).unwrap();
    assert_eq!(ui.image_format, "gif");
    assert_eq!(ui.image_width, 9);
    assert_eq!(ui.image_height, 8);
    let again = cache_image_record(&mut images, &dirs, request("k", "other"), Some(meta), 2);
    assert_eq!(again, Err(CacheImageError::DuplicateKey));
    assert_eq!(images.rows.len(), 1);
    assert_eq!(images.rows[0].url, "u");
}

#[test]
fn what_was_downloaded_serves_a_request_for_the_same_key() {
    let dirs = AppDirs::new("/data");
    let mut images = ImageCache::new();
    let mut store = store_with_one_page();
    let url = "https://elsewhere.example/x".to_string();
    let cover_key = "c/cover".to_string();
    let page_key = "c/ch1/7".to_string();
    assert!(matches!(
        cache_image_lookup(&mut images, &store, &dirs, &cover_key, &url, 1),
        CacheImagePlan::Fetch { .. }
    ));
    let cover = fetch(&mut store);
    assert!(store.finish_task(&cover, Some(ImageMeta { format: "webp".to_string(), width: 30, height: 40 })));
    let page = fetch(&mut store);
    assert!(matches!(
        cache_image_lookup(&mut images, &store, &dirs, &page_key, &url, 1),
        CacheImagePlan::Fetch { .. }
    ));
    assert!(store.finish_task(&page, Some(ImageMeta { format: "jpg".to_string(), width: 10, height: 20 })));

    let plan = cache_image_lookup(&mut images, &store, &dirs, &cover_key, &url, 2);
    assert_eq!(
        plan,
        CacheImagePlan::Ready(UiCacheImage {
            abs_path: "/data/download/c/cover".to_string(),
            cache_key: "c/cover".to_string(),
            cache_time: 0,
            url: "https://img.example/c/cover.jpg".to_string(),
            useful: "COMIC_COVER".to_string(),
            extends_field_first: None,
            extends_field_second: None,
            extends_field_third: None,
            local_path: "cover".to_string(),
            image_format: "webp".to_string(),
            image_width: 30,
            image_height: 40,
        })
    );
    let plan = cache_image_lookup(&mut images, &store, &dirs, &page_key, &url, 2);
    assert_eq!(
        plan,
        CacheImagePlan::Ready(UiCacheImage {
            abs_path: "/data/download/c/ch1/7".to_string(),
            cache_key: "c/ch1/7".to_string(),
            cache_time: 0,
            url: "https://img.example/c/ch1/7.jpg".to_string(),
            useful: String::new(),
            extends_field_first: None,
            extends_field_second: None,
            extends_field_third: None,
            local_path: String::new(),
            image_format: "jpg".to_string(),
            image_width: 10,
            image_height: 20,
        })
    );
    assert!(images.rows.is_empty());

    assert!(images.insert(row("c/cover", "https://img.example/c/cover.jpg", 5)));
    match cache_image_lookup(&mut images, &store, &dirs, &cover_key, &url, 9) {
        CacheImagePlan::Ready(ui) => {
            assert_eq!(ui.cache_time, 5);
            assert_eq!(ui.image_format, "png");
        }
        other => panic!("expected a hit, got {:?}", other),
    }
    assert_eq!(images.rows[0].cache_time, 9);
}

#[test]
fn a_download_copies_what_is_there_locally() {
    let dirs = AppDirs::new("/data");
    let mut images = ImageCache::new();
    let mut store = store_with_one_page();
    let cover = fetch(&mut store);
    assert_eq!(task_path(&dirs, &cover), "/data/download/c/cover");
    assert_eq!(
        plan_fetch(&images, &store, &dirs, &cover),
        FetchPlan::Download { to: "/data/download/c/cover".to_string() }
    );
    assert!(images.insert(row("c/cover", "https://img.example/c/cover.jpg", 5)));
    match plan_fetch(&images, &store, &dirs, &cover) {
        FetchPlan::Copy { from, to } => {
            assert_eq!(to, "/data/download/c/cover");
            assert_eq!(
                from.abs_path,
                format!("/data/image_cache/{}", local_file_name("https://img.example/c/cover.jpg"))
            );
            assert_eq!(from.image_format, "png");
        }
        other => panic!("expected a copy, got {:?}", other),
    }
    assert!(store.finish_task(&cover, None));
    let page = fetch(&mut store);
    assert_eq!(page.target, TaskTarget::Page { chapter_uuid: "ch1".to_string(), image_index: 7 });
    assert_eq!(
        plan_fetch(&images, &store, &dirs, &page),
        FetchPlan::Download { to: "/data/download/c/ch1/7".to_string() }
    );
}

#[test]
fn cleaning_drops_the_old_images_and_names_their_files() {
    let mut images = ImageCache::new();
    assert!(images.insert(row("a", "u-a", 10)));
    assert!(images.insert(row("b", "u-b", 100)));
    assert!(images.insert(row("c", "u-c", 99)));
    assert!(images.insert(row("d", "u-a", 100)));
    assert!(images.insert(row("e", "u-e", 101)));
    assert!(images.insert(row("f", "u-c", 5)));
    let mut web = WebCache::new();
    web.save("old".to_string(), "1".to_string(), 99);
    web.save("new".to_string(), "2".to_string(), 100);
    let files = clean_cache(&mut web, &mut images, 100);
    let left: Vec<&str> = images.rows.iter().map(|r| r.cache_key.as_str()).collect();
    assert_eq!(left, vec!["b", "d", "e"]);
    assert_eq!(images.rows[0], row("b", "u-b", 100));
    assert_eq!(files, vec![local_file_name("u-c"), local_file_name("u-c")]);
    assert_eq!(web.rows.len(), 1);
    assert_eq!(web.rows[0].cache_key, "new");
    assert!(clean_cache(&mut web, &mut images, 100).is_empty());
    assert_eq!(images.rows.len(), 3);
}

#[test]
fn cleaning_goes_through_more_than_one_batch() {
    let mut images = ImageCache::new();
    let total = 2 * CLEAN_BATCH + 37;
    for i in 0..total {
        let time = if i % 10 == 0 { 1_000 } else { i as i64 };
        assert!(images.insert(row(&format!("k{}", i), &format!("u{}", i), time)));
    }
    assert_eq!(images.take_100_cache(1_000).len(), CLEAN_BATCH);
    assert_eq!(images.take_100_cache(1_000)[99].cache_key, "k111");
    assert_eq!(images.take_100_cache(5).len(), 4);
    let files = images.clean_image(1_000);
    let kept = (total + 9) / 10;
    assert_eq!(images.rows.len(), kept);
    assert_eq!(files.len(), total - kept);
    assert!(images.rows.iter().all(|r| r.cache_time == 1_000));
    assert_eq!(images.rows[1].cache_key, "k10");
    assert_eq!(files[0], local_file_name("u1"));
    assert_eq!(files[files.len() - 1], local_file_name(&format!("u{}", total - 1)));
}

#[test]
fn the_cutoff_lies_the_given_age_before_now() {
    assert_eq!(cache_cutoff(1_000, 100), 900);
    assert_eq!(cache_cutoff(0, 0), 0);
    assert_eq!(cache_cutoff(5, -5), 10);
    assert_eq!(cache_cutoff(i64::MIN, 1), i64::MIN);
    assert_eq!(cache_cutoff(i64::MAX, -1), i64::MAX);
    assert_eq!(cache_cutoff(i64::MIN, i64::MIN), 0);
    assert_eq!(cache_cutoff(0, i64::MAX), i64::MIN + 1);
    assert_eq!(cache_cutoff(-1, i64::MAX), i64::MIN);
    assert_eq!(cache_cutoff(-2, i64::MAX), i64::MIN);
}

#[test]
fn image_cache_rows_by_key() {
    let mut images = ImageCache::new();
    assert!(images.insert(row("a", "u-a", 1)));
    assert!(!images.insert(row("a", "u-b", 2)));
    let mut misnamed = row("z", "u-z", 3);
    misnamed.local_path = "elsewhere".to_string();
    assert!(!images.insert(misnamed));
    assert_eq!(images.rows.len(), 1);
    assert_eq!(images.rows[0].url, "u-a");
    images.update_cache_time(&"missing".to_string(), 9);
    assert_eq!(images.rows[0].cache_time, 1);
    images.update_cache_time(&"a".to_string(), 9);
    assert_eq!(images.rows[0].cache_time, 9);
    assert_eq!(images.rows[0].duplicate(), images.rows[0]);
    assert!(images.file_is_needed(9, &local_file_name("u-a")));
    assert!(!images.file_is_needed(10, &local_file_name("u-a")));
    assert!(!images.file_is_needed(0, &"other".to_string()));
    images.delete_by_cache_key(&"b".to_string());
    assert_eq!(images.rows.len(), 1);
    images.delete_by_cache_key(&"a".to_string());
    assert!(images.rows.is_empty());
    assert_eq!(images.load_image_by_cache_key(&"a".to_string()), None);
}

#[test]
fn an_image_cache_is_taken_up_again() {
    let mut wrong = row("x", "u-x", 1);
    wrong.local_path = "somewhere".to_string();
    let rows = vec![row("a", "u-a", 1), wrong, row("b", "u-b", 2), row("a", "u-c", 3)];
    let cache = ImageCache::restore(rows.clone());
    assert_eq!(cache.rows, vec![rows[0].clone(), rows[2].clone()]);
}

#[test]
fn the_keepers_are_asked_in_their_order() {
    let dirs = AppDirs::new("/data");
    let mut store = store_with_one_page();
    let cover = fetch(&mut store);
    assert!(store.finish_task(&cover, Some(ImageMeta { format: "gif".to_string(), width: 1, height: 2 })));
    let images = ImageCache::new();
    let covers = DownloadedCovers { store: &store };
    let pages = DownloadedPages { store: &store };
    let key = "c/cover".to_string();
    assert_eq!(images.local_image(&dirs, &key), None);
    assert_eq!(pages.local_image(&dirs, &key), None);
    let from_cover = covers.local_image(&dirs, &key).unwrap();
    assert_eq!(from_cover.local_path, "cover");
    assert_eq!(first_local_image(&images, &covers, &pages, &dirs, &key), Some(from_cover.clone()));
    assert_eq!(first_local_image(&images, &pages, &images, &dirs, &key), None);
    assert_eq!(find_local_image(&images, &store, &dirs, &key), Some(from_cover));
    assert_eq!(find_local_image(&images, &store, &dirs, &"none".to_string()), None);
}

#[test]
fn the_directories_are_fixed_by_the_first_start() {
    let mut app = AppState::new();
    assert_eq!(app.dirs, None);
    assert!(app.init_root("/first"));
    assert_eq!(app.dirs, Some(AppDirs::new("/first")));
    assert!(!app.init_root("/second"));
    assert_eq!(get_download_dir(app.dirs.as_ref().unwrap()), "/first/download");
}
