use copi_rust::download::queue::ComicSnapshot;
use copi_rust::download::rows::{DownloadComicPage, ImageMeta};
use copi_rust::download::store::TaskStore;
use copi_rust::download::work::{DownloadTask, LoopAction, TaskTarget};
use copi_rust::status::{AggregateStatus, DownloadStatus};
use copi_rust::udto::{
    UiQueryDownloadComic, UiQueryDownloadComicChapter, UiQueryDownloadComicGroup,
    UiQueryDownloadComicPage,
};

fn page(chapter: &str, index: i32, path: &str) -> UiQueryDownloadComicPage {
    UiQueryDownloadComicPage {
        chapter_uuid: chapter.to_string(),
        image_index: index,
        url: format!("https://img.example/{}/{}/{}.jpg", path, chapter, index),
        cache_key: format!("{}/{}/{}", path, chapter, index),
    }
}

fn snapshot_of(path: &str, chapters: &[(&str, Vec<i32>)]) -> ComicSnapshot {
    let mut comic = UiQueryDownloadComic::default();
    comic.path_word = path.to_string();
    comic.name = format!("name of {}", path);
    comic.cover = format!("https://img.example/{}/cover.jpg", path);
    comic.restrict1 = "all".to_string();
    comic.groups = vec![UiQueryDownloadComicGroup {
        comic_path_word: path.to_string(),
        group_path_word: "default".to_string(),
        count: chapters.len() as i64,
        name: "Default".to_string(),
        group_rank: 0,
    }];
    let mut pages = Vec::new();
    for (uuid, indexes) in chapters {
        let mut ch = UiQueryDownloadComicChapter::default();
        ch.comic_path_word = path.to_string();
        ch.uuid = uuid.to_string();
        ch.group_path_word = "default".to_string();
        ch.size = indexes.len() as i64;
        comic.chapters.push(ch);
        for i in indexes {
            pages.push(page(uuid, *i, path));
        }
    }
    ComicSnapshot { comic, cover_cache_key: format!("{}/cover", path), pages }
}

fn snapshot(path: &str, chapter: &str, pages: i32) -> ComicSnapshot {
    snapshot_of(path, &[(chapter, (0..pages).collect())])
}

fn meta() -> ImageMeta {
    ImageMeta { format: "jpg".to_string(), width: 800, height: 1200 }
}

fn fetch(store: &mut TaskStore) -> DownloadTask {
    match store.poll() {
        LoopAction::Fetch(task) => task,
        other => panic!("expected a fetch, got {:?}", other),
    }
}

fn page_target(chapter: &str, index: i32) -> TaskTarget {
    TaskTarget::Page { chapter_uuid: chapter.to_string(), image_index: index }
}

fn statuses(store: &TaskStore) -> Vec<DownloadStatus> {
    store.pages.iter().map(|p| p.download_status).collect()
}

#[test]
fn end_to_end_one_failure_then_retry() {
    let mut store = TaskStore::new();
    store.append_download(snapshot("c", "ch1", 3));
    assert_eq!(store.comics.len(), 1);
    assert_eq!(store.groups.len(), 1);
    assert_eq!(store.chapters.len(), 1);
    assert_eq!(store.pages.len(), 3);
    assert_eq!(store.comics[0].image_count, 3);
    assert_eq!(store.comics[0].image_count_success, 0);
    assert_eq!(store.comics[0].download_status, AggregateStatus::InProgress);
    assert_eq!(store.comics[0].restrict, "all");

    let cover = fetch(&mut store);
    assert_eq!(cover.target, TaskTarget::Cover);
    assert_eq!(cover.url, "https://img.example/c/cover.jpg");
    assert_eq!(cover.cache_key, "c/cover");
    assert_eq!(store.comics[0].cover_download_status, DownloadStatus::Downloading);
    assert!(store.finish_task(&cover, Some(meta())));
    assert_eq!(store.comics[0].cover_download_status, DownloadStatus::Success);
    assert_eq!(store.comics[0].cover_format, "jpg");
    assert_eq!(store.comics[0].cover_width, 800);
    assert_eq!(store.comics[0].cover_height, 1200);

    for i in 0..3 {
        let task = fetch(&mut store);
        assert_eq!(task.target, page_target("ch1", i));
        assert_eq!(task.comic_path_word, "c");
        assert_eq!(task.url, format!("https://img.example/c/ch1/{}.jpg", i));
        assert_eq!(store.pages[i as usize].download_status, DownloadStatus::Downloading);
        let outcome = if i == 1 { None } else { Some(meta()) };
        assert!(store.finish_task(&task, outcome));
    }
    assert_eq!(store.poll(), LoopAction::Idle);
    assert_eq!(
        statuses(&store),
        vec![DownloadStatus::Success, DownloadStatus::Fail, DownloadStatus::Success]
    );
    assert_eq!(store.comics[0].image_count_success, 2);
    assert_eq!(store.comics[0].download_status, AggregateStatus::PartialWithFailures);
    assert_eq!(store.chapters[0].download_status, AggregateStatus::PartialWithFailures);

    store.reset_fail_downloads();
    assert_eq!(
        statuses(&store),
        vec![DownloadStatus::Success, DownloadStatus::Waiting, DownloadStatus::Success]
    );
    assert_eq!(store.comics[0].download_status, AggregateStatus::InProgress);
    assert_eq!(store.chapters[0].download_status, AggregateStatus::InProgress);
    assert_eq!(store.comics[0].image_count_success, 2);

    let task = fetch(&mut store);
    assert_eq!(task.target, page_target("ch1", 1));
    assert!(store.finish_task(&task, Some(meta())));
    assert_eq!(store.pages[1].download_status, DownloadStatus::Success);
    assert_eq!(store.pages[1].width, 800);
    assert_eq!(store.pages[1].height, 1200);
    assert_eq!(store.pages[1].format, "jpg");
    assert_eq!(store.comics[0].image_count_success, 3);
    assert_eq!(store.comics[0].download_status, AggregateStatus::Complete);
    assert_eq!(store.chapters[0].download_status, AggregateStatus::Complete);
    assert_eq!(store.poll(), LoopAction::Idle);
}

#[test]
fn queueing_twice_adds_nothing_and_keeps_progress() {
    let mut store = TaskStore::new();
    store.append_download(snapshot("c", "ch1", 3));
    let cover = fetch(&mut store);
    assert!(store.finish_task(&cover, Some(meta())));
    let first = fetch(&mut store);
    assert!(store.finish_task(&first, Some(meta())));
    let second = fetch(&mut store);
    assert_eq!(second.target, page_target("ch1", 1));
    let before = store.clone();

    store.append_download(snapshot("c", "ch1", 3));
    assert_eq!(store, before);
    assert_eq!(store.pages.len(), 3);
    assert_eq!(store.pages[0].download_status, DownloadStatus::Success);
    assert_eq!(store.pages[1].download_status, DownloadStatus::Downloading);
    assert_eq!(store.comics[0].image_count_success, 1);
    assert_eq!(store.comics[0].cover_download_status, DownloadStatus::Success);
}

#[test]
fn queueing_again_with_more_pages_adds_only_the_new_ones() {
    let mut store = TaskStore::new();
    store.append_download(snapshot("c", "ch1", 2));
    let cover = fetch(&mut store);
    assert!(store.finish_task(&cover, Some(meta())));
    let first = fetch(&mut store);
    assert!(store.finish_task(&first, Some(meta())));
    let second = fetch(&mut store);
    assert!(store.finish_task(&second, Some(meta())));
    assert_eq!(store.comics[0].download_status, AggregateStatus::Complete);

    store.append_download(snapshot_of("c", &[("ch1", vec![0, 1, 2]), ("ch2", vec![0])]));
    assert_eq!(store.comics.len(), 1);
    assert_eq!(store.groups.len(), 1);
    assert_eq!(store.chapters.len(), 2);
    assert_eq!(store.pages.len(), 4);
    assert_eq!(
        statuses(&store),
        vec![
            DownloadStatus::Success,
            DownloadStatus::Success,
            DownloadStatus::Waiting,
            DownloadStatus::Waiting
        ]
    );
    assert_eq!(store.pages[2].image_index, 2);
    assert_eq!(store.pages[3].chapter_uuid, "ch2");
    assert_eq!(store.comics[0].image_count, 4);
    assert_eq!(store.comics[0].image_count_success, 2);
    assert_eq!(store.comics[0].download_status, AggregateStatus::InProgress);
    assert_eq!(store.chapters[0].download_status, AggregateStatus::InProgress);
    assert_eq!(store.chapters[1].download_status, AggregateStatus::InProgress);
}

#[test]
fn a_snapshot_that_lists_a_page_twice_records_it_once() {
    let mut store = TaskStore::new();
    let mut snap = snapshot("c", "ch1", 2);
    let mut again = page("ch1", 0, "c");
    again.url = "https://other.example/0.jpg".to_string();
    snap.pages.push(again);
    store.append_download(snap);
    assert_eq!(store.pages.len(), 2);
    assert_eq!(store.pages[0].url, "https://img.example/c/ch1/0.jpg");
    assert_eq!(store.comics[0].image_count, 2);
}

#[test]
fn records_of_a_snapshot_are_filed_under_its_comic() {
    let mut store = TaskStore::new();
    let mut snap = snapshot("c", "ch1", 1);
    snap.comic.groups[0].comic_path_word = "other".to_string();
    snap.comic.chapters[0].comic_path_word = "other".to_string();
    store.append_download(snap);
    assert_eq!(store.groups[0].comic_path_word, "c");
    assert_eq!(store.chapters[0].comic_path_word, "c");
    assert_eq!(store.pages[0].comic_path_word, "c");
}

#[test]
fn a_comic_without_pages_is_complete() {
    let mut store = TaskStore::new();
    store.append_download(snapshot("c", "ch1", 0));
    assert_eq!(store.comics[0].image_count, 0);
    assert_eq!(store.comics[0].download_status, AggregateStatus::Complete);
    assert_eq!(store.chapters[0].download_status, AggregateStatus::Complete);
    let cover = fetch(&mut store);
    assert_eq!(cover.target, TaskTarget::Cover);
    assert!(store.finish_task(&cover, None));
    assert_eq!(store.comics[0].cover_download_status, DownloadStatus::Fail);
    assert_eq!(store.poll(), LoopAction::Idle);
}

#[test]
fn pause_holds_waiting_pages_and_unpause_lets_them_go() {
    let mut store = TaskStore::new();
    assert!(!store.download_is_pause());
    store.append_download(snapshot("c", "ch1", 2));
    store.download_set_pause(true);
    assert!(store.download_is_pause());
    let before = store.clone();
    assert_eq!(store.poll(), LoopAction::Sleep);
    assert_eq!(store.poll(), LoopAction::Sleep);
    assert_eq!(store, before);
    store.reset_fail_downloads();
    assert_eq!(statuses(&store), vec![DownloadStatus::Waiting, DownloadStatus::Waiting]);

    store.download_set_pause(false);
    assert!(!store.download_is_pause());
    let cover = fetch(&mut store);
    assert_eq!(cover.target, TaskTarget::Cover);
    let task = fetch(&mut store);
    assert_eq!(task.target, page_target("ch1", 0));
    assert_eq!(store.pages[0].download_status, DownloadStatus::Downloading);
}

#[test]
fn a_fetch_under_way_ends_while_paused() {
    let mut store = TaskStore::new();
    store.append_download(snapshot("c", "ch1", 2));
    let cover = fetch(&mut store);
    let task = fetch(&mut store);
    store.download_set_pause(true);
    assert!(store.finish_task(&cover, Some(meta())));
    assert!(store.finish_task(&task, Some(meta())));
    assert_eq!(store.pages[0].download_status, DownloadStatus::Success);
    assert_eq!(store.pages[1].download_status, DownloadStatus::Waiting);
    assert_eq!(store.poll(), LoopAction::Sleep);
    assert_eq!(store.pages[1].download_status, DownloadStatus::Waiting);
}

#[test]
fn comics_are_worked_off_in_the_order_of_queueing() {
    let mut store = TaskStore::new();
    store.append_download(snapshot("first", "a1", 1));
    store.append_download(snapshot("second", "b1", 1));
    let mut order = Vec::new();
    loop {
        match store.poll() {
            LoopAction::Fetch(task) => {
                order.push((task.comic_path_word.clone(), task.target.clone()));
                assert!(store.finish_task(&task, Some(meta())));
            }
            LoopAction::Idle => break,
            LoopAction::Sleep => panic!("not paused"),
        }
    }
    assert_eq!(
        order,
        vec![
            ("first".to_string(), TaskTarget::Cover),
            ("first".to_string(), page_target("a1", 0)),
            ("second".to_string(), TaskTarget::Cover),
            ("second".to_string(), page_target("b1", 0)),
        ]
    );
}

#[test]
fn pages_of_a_chapter_come_in_the_order_of_their_index() {
    let mut store = TaskStore::new();
    store.append_download(snapshot_of("c", &[("ch1", vec![2, 0, 1]), ("ch2", vec![1, 0])]));
    let cover = fetch(&mut store);
    assert!(store.finish_task(&cover, Some(meta())));
    let mut order = Vec::new();
    loop {
        match store.poll() {
            LoopAction::Fetch(task) => {
                order.push(task.target.clone());
                assert!(store.finish_task(&task, Some(meta())));
            }
            _ => break,
        }
    }
    assert_eq!(
        order,
        vec![
            page_target("ch1", 0),
            page_target("ch1", 1),
            page_target("ch1", 2),
            page_target("ch2", 0),
            page_target("ch2", 1),
        ]
    );
}

#[test]
fn one_failure_does_not_stop_the_others() {
    let mut store = TaskStore::new();
    store.append_download(snapshot("c", "ch1", 4));
    let mut fetched = 0;
    loop {
        match store.poll() {
            LoopAction::Fetch(task) => {
                fetched += 1;
                assert!(store.finish_task(&task, None));
            }
            _ => break,
        }
    }
    assert_eq!(fetched, 5);
    assert_eq!(store.comics[0].image_count_success, 0);
    assert_eq!(store.comics[0].download_status, AggregateStatus::PartialWithFailures);
    assert_eq!(store.comics[0].cover_download_status, DownloadStatus::Fail);
    store.reset_fail_downloads();
    assert_eq!(store.comics[0].cover_download_status, DownloadStatus::Waiting);
    assert_eq!(store.comics[0].download_status, AggregateStatus::InProgress);
    assert!(statuses(&store).iter().all(|s| *s == DownloadStatus::Waiting));
}

#[test]
fn reset_leaves_fetched_and_running_pages_alone() {
    let mut store = TaskStore::new();
    store.append_download(snapshot("c", "ch1", 3));
    let cover = fetch(&mut store);
    assert!(store.finish_task(&cover, Some(meta())));
    let a = fetch(&mut store);
    assert!(store.finish_task(&a, Some(meta())));
    let b = fetch(&mut store);
    assert!(store.finish_task(&b, None));
    let _c = fetch(&mut store);
    store.reset_fail_downloads();
    assert_eq!(
        statuses(&store),
        vec![DownloadStatus::Success, DownloadStatus::Waiting, DownloadStatus::Downloading]
    );
    assert_eq!(store.pages[0].width, 800);
    assert_eq!(store.comics[0].cover_download_status, DownloadStatus::Success);
}

#[test]
fn deleting_a_comic_removes_all_that_is_under_it() {
    let mut store = TaskStore::new();
    store.append_download(snapshot("a", "a1", 2));
    store.append_download(snapshot("b", "b1", 3));
    store.append_download(snapshot("c", "c1", 1));
    store.delete_download_comic(&"b".to_string());
    assert_eq!(store.comics.len(), 2);
    assert_eq!(store.comics[0].path_word, "a");
    assert_eq!(store.comics[1].path_word, "c");
    assert_eq!(store.groups.len(), 2);
    assert_eq!(store.chapters.len(), 2);
    assert_eq!(store.pages.len(), 3);
    assert!(store.pages.iter().all(|p| p.comic_path_word != "b"));
    assert_eq!(store.comics[0].image_count, 2);
    assert_eq!(store.comics[1].image_count, 1);
    store.delete_download_comic(&"missing".to_string());
    assert_eq!(store.comics.len(), 2);
}

#[test]
fn the_outcome_of_a_fetch_for_a_deleted_comic_is_dropped() {
    let mut store = TaskStore::new();
    store.append_download(snapshot("a", "a1", 1));
    store.append_download(snapshot("b", "b1", 1));
    let cover = fetch(&mut store);
    assert!(store.finish_task(&cover, Some(meta())));
    let task = fetch(&mut store);
    assert_eq!(task.comic_path_word, "a");
    store.delete_download_comic(&"a".to_string());
    let before = store.clone();
    assert!(!store.finish_task(&task, Some(meta())));
    assert!(!store.finish_task(&cover, Some(meta())));
    assert_eq!(store, before);

    store.append_download(snapshot("a", "a1", 1));
    let again = store.clone();
    assert!(!store.finish_task(&task, Some(meta())));
    assert_eq!(store, again);
    assert_eq!(store.pages[1].download_status, DownloadStatus::Waiting);
}

#[test]
fn an_outcome_is_recorded_once() {
    let mut store = TaskStore::new();
    store.append_download(snapshot("a", "a1", 1));
    let cover = fetch(&mut store);
    assert!(store.finish_task(&cover, Some(meta())));
    let task = fetch(&mut store);
    assert!(store.finish_task(&task, Some(meta())));
    assert!(!store.finish_task(&task, None));
    assert_eq!(store.pages[0].download_status, DownloadStatus::Success);
    assert_eq!(store.comics[0].image_count_success, 1);
}

#[test]
fn listings_show_the_records_of_a_comic() {
    let mut store = TaskStore::new();
    store.append_download(snapshot_of("a", &[("a1", vec![0, 1]), ("a2", vec![0])]));
    store.append_download(snapshot("b", "b1", 1));
    let comics = store.download_comics();
    assert_eq!(comics.len(), 2);
    assert_eq!(comics[0].path_word, "a");
    assert_eq!(comics[0].image_count, 3);
    assert_eq!(comics[0].download_status, 0);
    assert_eq!(comics[0].cover_download_status, 0);
    assert_eq!(comics[0].cover_cache_key, "a/cover");
    let groups = store.download_comic_groups(&"a".to_string());
    assert_eq!(groups.len(), 1);
    assert_eq!(groups[0].group_path_word, "default");
    let chapters = store.download_comic_chapters(&"a".to_string());
    assert_eq!(chapters.len(), 2);
    assert_eq!(chapters[1].uuid, "a2");
    let pages = store.download_comic_pages(&"a".to_string(), &"a1".to_string());
    assert_eq!(pages.len(), 2);
    assert_eq!(pages[1].image_index, 1);
    assert_eq!(pages[1].download_status, 0);
    assert_eq!(pages[1].cache_key, "a/a1/1");
    assert_eq!(
        store.in_download_chapter_uuid(&"a".to_string()),
        vec!["a1".to_string(), "a2".to_string()]
    );
    assert!(store.in_download_chapter_uuid(&"none".to_string()).is_empty());
    assert!(store.download_comic_pages(&"b".to_string(), &"a1".to_string()).is_empty());
}

#[test]
fn a_store_is_taken_up_again_after_a_restart() {
    let mut store = TaskStore::new();
    store.append_download(snapshot("a", "a1", 3));
    let cover = fetch(&mut store);
    assert!(store.finish_task(&cover, Some(meta())));
    let first = fetch(&mut store);
    assert!(store.finish_task(&first, Some(meta())));
    let _running = fetch(&mut store);
    store.download_set_pause(true);

    let mut pages: Vec<DownloadComicPage> = store.pages.clone();
    pages.push(store.pages[0].clone());
    let mut comics = store.comics.clone();
    comics[0].image_count = 77;
    comics[0].image_count_success = 55;
    comics[0].download_status = AggregateStatus::Complete;
    let restored =
        TaskStore::restore(comics, store.groups.clone(), store.chapters.clone(), pages, true);
    assert!(restored.download_is_pause());
    assert_eq!(restored.pages.len(), 3);
    assert_eq!(
        statuses(&restored),
        vec![DownloadStatus::Success, DownloadStatus::Waiting, DownloadStatus::Waiting]
    );
    assert_eq!(restored.comics[0].image_count, 3);
    assert_eq!(restored.comics[0].image_count_success, 1);
    assert_eq!(restored.comics[0].download_status, AggregateStatus::InProgress);
    assert_eq!(restored.comics[0].cover_download_status, DownloadStatus::Success);
    assert_eq!(restored.chapters[0].download_status, AggregateStatus::InProgress);
    assert_eq!(restored.groups, store.groups);
}

#[test]
fn status_codes() {
    assert_eq!(DownloadStatus::Waiting.code(), 0);
    assert_eq!(DownloadStatus::Downloading.code(), 1);
    assert_eq!(DownloadStatus::Success.code(), 2);
    assert_eq!(DownloadStatus::Fail.code(), 3);
    for code in 0..4 {
        assert_eq!(DownloadStatus::from_code(code).unwrap().code(), code);
    }
    assert_eq!(DownloadStatus::from_code(4), None);
    assert_eq!(DownloadStatus::from_code(-1), None);
    assert!(DownloadStatus::Success.is_terminal());
    assert!(DownloadStatus::Fail.is_terminal());
    assert!(!DownloadStatus::Waiting.is_terminal());
    assert!(!DownloadStatus::Downloading.is_terminal());
    assert_eq!(AggregateStatus::InProgress.code(), 0);
    assert_eq!(AggregateStatus::Complete.code(), 2);
    assert_eq!(AggregateStatus::PartialWithFailures.code(), 3);
    assert_eq!(AggregateStatus::from_code(2), Some(AggregateStatus::Complete));
    assert_eq!(AggregateStatus::from_code(1), None);
    assert_eq!(AggregateStatus::of_counts(3, 3, 0), AggregateStatus::Complete);
    assert_eq!(AggregateStatus::of_counts(0, 0, 0), AggregateStatus::Complete);
    assert_eq!(AggregateStatus::of_counts(3, 2, 0), AggregateStatus::PartialWithFailures);
    assert_eq!(AggregateStatus::of_counts(3, 2, 1), AggregateStatus::InProgress);
    assert_eq!(AggregateStatus::of_counts(3, 0, 3), AggregateStatus::InProgress);
}
