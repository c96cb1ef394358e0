//! What holds of the task store whatever is done with it.

use crate::count::lemma_count_equal;
use crate::download::queue::{
    append_rel, delete_rel, incoming_chapter_keys, incoming_group_keys, incoming_page_keys,
    page_is_not_of, page_requeued, reset_rel, ComicSnapshot,
};
use crate::download::rows::{DownloadComicPage, ImageMeta};
use crate::download::store::{
    chapter_keys, comic_in_step, comic_keys, group_keys, page_done_of, page_key, page_keys,
    page_of, TaskStore,
};
use crate::download::work::{
    comic_outstanding, cover_in_flight, finish_rel, is_next_comic, is_next_page, page_in_flight,
    page_taken, poll_rel, DownloadTask, LoopAction,
};
use crate::status::{AggregateStatus, DownloadStatus};
use crate::table::{
    lemma_filter_keeps_distinct, lemma_merge_again_adds_nothing, lemma_new_positions_are_new,
    merged, new_positions, picked,
};
use vstd::prelude::*;

verus! {

/// One thing was done to the store: a turn of the loop, the end of a fetch,
/// a comic queued or removed, the failed fetches queued again, or the pause
/// flag set.
pub open spec fn store_step(pre: TaskStore, post: TaskStore) -> bool {
    ||| exists|action: LoopAction| poll_rel(pre, action, post)
    ||| exists|task: DownloadTask, outcome: Option<ImageMeta>, applied: bool|
        finish_rel(pre, task, outcome, applied, post)
    ||| reset_rel(pre, post)
    ||| exists|snapshot: ComicSnapshot| append_rel(pre, snapshot, post)
    ||| exists|path_word: Seq<char>| delete_rel(pre, path_word, post)
    ||| (post.comics@ == pre.comics@ && post.groups@ == pre.groups@ && post.chapters@
        == pre.chapters@ && post.pages@ == pre.pages@)
}

/// Every page that is recorded before and after is in the state it was in, or
/// one step further.
pub open spec fn pages_move_forward(
    pre: Seq<DownloadComicPage>,
    post: Seq<DownloadComicPage>,
) -> bool {
    forall|i: int, j: int|
        0 <= i < pre.len() && 0 <= j < post.len() && page_key(#[trigger] pre[i]) == page_key(
            #[trigger] post[j],
        ) ==> pre[i].download_status.may_become(post[j].download_status)
}

/// Every page that waits before, and is recorded after, waits after.
pub open spec fn waiting_pages_wait(
    pre: Seq<DownloadComicPage>,
    post: Seq<DownloadComicPage>,
) -> bool {
    forall|i: int, j: int|
        0 <= i < pre.len() && 0 <= j < post.len() && page_key(#[trigger] pre[i]) == page_key(
            #[trigger] post[j],
        ) && pre[i].download_status == DownloadStatus::Waiting ==> post[j].download_status
            == DownloadStatus::Waiting
}

/// Queueing the same snapshot twice in a row records nothing the second
/// time: no record is added, and none changes.
pub proof fn lemma_append_is_idempotent(
    s0: TaskStore,
    snapshot: ComicSnapshot,
    s1: TaskStore,
    s2: TaskStore,
)
    requires
        s0.wf(),
        s1.wf(),
        s2.wf(),
        append_rel(s0, snapshot, s1),
        append_rel(s1, snapshot, s2),
    ensures
        s2.pages@ == s1.pages@,
        s2.groups@ == s1.groups@,
        s2.chapters@ == s1.chapters@,
        s2.comics@ == s1.comics@,
        s2.pause == s1.pause,
{
    let comic = snapshot.comic.path_word;
    let in_pages = incoming_page_keys(snapshot.pages@);
    let in_groups = incoming_group_keys(comic@, snapshot.comic.groups@);
    let in_chapters = incoming_chapter_keys(snapshot.comic.chapters@);
    assert(page_keys(s1.pages@) =~= merged(page_keys(s0.pages@), in_pages)) by {
        lemma_new_positions_are_new(page_keys(s0.pages@), in_pages);
    }
    assert(group_keys(s1.groups@) =~= merged(group_keys(s0.groups@), in_groups)) by {
        lemma_new_positions_are_new(group_keys(s0.groups@), in_groups);
    }
    assert(chapter_keys(s1.chapters@) =~= merged(chapter_keys(s0.chapters@), in_chapters)) by {
        lemma_new_positions_are_new(chapter_keys(s0.chapters@), in_chapters);
        let places = new_positions(chapter_keys(s0.chapters@), in_chapters);
        assert forall|i: int| 0 <= i < chapter_keys(s1.chapters@).len() implies chapter_keys(
            s1.chapters@,
        )[i] == merged(chapter_keys(s0.chapters@), in_chapters)[i] by {
            if i >= s0.chapters@.len() {
                let j = i - s0.chapters@.len();
                assert(picked(in_chapters, places)[j] == in_chapters[places[j]]);
            }
        }
    }
    assert forall|k: int| 0 <= k < in_pages.len() implies in_pages.contains(
        #[trigger] in_pages[k],
    ) by {}
    assert forall|k: int| 0 <= k < in_groups.len() implies in_groups.contains(
        #[trigger] in_groups[k],
    ) by {}
    assert forall|k: int| 0 <= k < in_chapters.len() implies in_chapters.contains(
        #[trigger] in_chapters[k],
    ) by {}
    lemma_merge_again_adds_nothing(page_keys(s0.pages@), in_pages, in_pages);
    lemma_merge_again_adds_nothing(group_keys(s0.groups@), in_groups, in_groups);
    lemma_merge_again_adds_nothing(chapter_keys(s0.chapters@), in_chapters, in_chapters);
    assert(s2.pages@ =~= s1.pages@);
    assert(s2.groups@ =~= s1.groups@);
    assert(s2.chapters@ =~= s1.chapters@);
    assert(comic_keys(s1.comics@).contains(comic@)) by {
        if comic_keys(s0.comics@).contains(comic@) {
            let i = choose|i: int|
                0 <= i < comic_keys(s0.comics@).len() && comic_keys(s0.comics@)[i] == comic@;
            assert(comic_keys(s1.comics@)[i] == comic@);
        } else {
            assert(comic_keys(s1.comics@)[s1.comics@.len() - 1] == comic@);
        }
    }
    assert forall|i: int| 0 <= i < s1.comics@.len() implies s2.comics@[i] == s1.comics@[i] by {
        assert(comic_in_step(s1.comics@[i], s1.pages@));
        assert(comic_in_step(s2.comics@[i], s2.pages@));
    }
    assert(s2.comics@ =~= s1.comics@);
}

/// Queueing a comic leaves every page that was recorded as it was: a page
/// that was fetched stays fetched.
pub proof fn lemma_append_keeps_progress(pre: TaskStore, snapshot: ComicSnapshot, post: TaskStore)
    requires
        append_rel(pre, snapshot, post),
    ensures
        pre.pages@.len() <= post.pages@.len(),
        forall|i: int| 0 <= i < pre.pages@.len() ==> post.pages@[i] == pre.pages@[i],
{
}

/// Whatever is done to the store, a page goes through
/// its states in order: from waiting to downloading, from there to fetched or
/// failed, and from failed back to waiting. It never skips a state and never
/// goes back otherwise.
pub proof fn lemma_pages_move_forward(pre: TaskStore, post: TaskStore)
    requires
        pre.wf(),
        store_step(pre, post),
    ensures
        pages_move_forward(pre.pages@, post.pages@),
{
    let a = pre.pages@;
    let b = post.pages@;
    assert forall|i: int, j: int|
        0 <= i < a.len() && 0 <= j < b.len() && page_key(#[trigger] a[i]) == page_key(
            #[trigger] b[j],
        ) implies a[i].download_status.may_become(b[j].download_status) by {
        lemma_same_key_same_place(pre, post, i, j);
    }
}

/// A page that was fetched stays fetched as long as it is recorded: nothing
/// that is done to the store turns it into a failed or a waiting one.
pub proof fn lemma_success_stays(pre: TaskStore, post: TaskStore, i: int, j: int)
    requires
        pre.wf(),
        store_step(pre, post),
        0 <= i < pre.pages@.len(),
        0 <= j < post.pages@.len(),
        page_key(pre.pages@[i]) == page_key(post.pages@[j]),
        pre.pages@[i].download_status == DownloadStatus::Success,
    ensures
        post.pages@[j].download_status == DownloadStatus::Success,
{
    lemma_pages_move_forward(pre, post);
}

/// The page with this key is recorded in the store.
pub open spec fn is_recorded(store: TaskStore, key: (Seq<char>, i32)) -> bool {
    exists|i: int| 0 <= i < store.pages@.len() && #[trigger] page_key(store.pages@[i]) == key
}

/// The page with this key is recorded in the store as fetched.
pub open spec fn is_fetched(store: TaskStore, key: (Seq<char>, i32)) -> bool {
    exists|i: int|
        0 <= i < store.pages@.len() && #[trigger] page_key(store.pages@[i]) == key
            && store.pages@[i].download_status == DownloadStatus::Success
}

/// Through any run of the store, a page that was fetched is fetched for as
/// long as it stays recorded: it fails or waits again only after it was
/// removed and queued anew.
pub proof fn lemma_fetched_through_a_run(run: Seq<TaskStore>, key: (Seq<char>, i32), a: int, b: int)
    requires
        0 <= a <= b < run.len(),
        forall|k: int| 0 <= k < run.len() ==> (#[trigger] run[k]).wf(),
        forall|k: int| 0 <= k < run.len() - 1 ==> store_step(#[trigger] run[k], run[k + 1]),
        forall|k: int| a <= k <= b ==> is_recorded(#[trigger] run[k], key),
        is_fetched(run[a], key),
    ensures
        is_fetched(run[b], key),
    decreases b - a,
{
    if a < b {
        lemma_fetched_through_a_run(run, key, a, b - 1);
        let pre = run[b - 1];
        let post = run[b];
        assert(store_step(pre, run[b - 1 + 1]));
        assert(is_recorded(post, key));
        let i = choose|i: int|
            0 <= i < pre.pages@.len() && #[trigger] page_key(pre.pages@[i]) == key
                && pre.pages@[i].download_status == DownloadStatus::Success;
        let j = choose|j: int|
            0 <= j < post.pages@.len() && #[trigger] page_key(post.pages@[j]) == key;
        lemma_success_stays(pre, post, i, j);
    }
}

/// While the store is paused nothing that is
/// done to it takes a page out of waiting.
pub proof fn lemma_paused_pages_wait(pre: TaskStore, post: TaskStore)
    requires
        pre.wf(),
        pre.pause,
        store_step(pre, post),
    ensures
        waiting_pages_wait(pre.pages@, post.pages@),
{
    let a = pre.pages@;
    let b = post.pages@;
    assert forall|i: int, j: int|
        0 <= i < a.len() && 0 <= j < b.len() && page_key(#[trigger] a[i]) == page_key(
            #[trigger] b[j],
        ) && a[i].download_status == DownloadStatus::Waiting implies b[j].download_status
        == DownloadStatus::Waiting by {
        lemma_same_key_same_place(pre, post, i, j);
    }
}

/// A turn of the loop on a store that is not
/// paused, in which a cover or a page of a recorded comic waits, hands out a
/// fetch.
pub proof fn lemma_unpaused_loop_resumes(
    pre: TaskStore,
    action: LoopAction,
    post: TaskStore,
    i: int,
)
    requires
        poll_rel(pre, action, post),
        !pre.pause,
        comic_outstanding(pre, i),
    ensures
        action is Fetch,
{
}

/// In a well-formed store a comic's counter of
/// fetched pages is the number of its pages that were fetched, and the comic
/// is complete exactly if every page recorded under it was fetched.
pub proof fn lemma_comic_complete_iff_all_fetched(store: TaskStore, i: int)
    requires
        store.wf(),
        0 <= i < store.comics@.len(),
    ensures
        store.comics@[i].image_count == crate::count::count(
            store.pages@,
            page_of(store.comics@[i].path_word@),
        ),
        store.comics@[i].image_count_success == crate::count::count(
            store.pages@,
            page_done_of(store.comics@[i].path_word@),
        ),
        0 <= store.comics@[i].image_count_success <= store.comics@[i].image_count,
        store.comics@[i].download_status == AggregateStatus::Complete <==> (forall|k: int|
            0 <= k < store.pages@.len() && (#[trigger] store.pages@[k]).comic_path_word@
                == store.comics@[i].path_word@ ==> store.pages@[k].download_status
                == DownloadStatus::Success),
{
    let comic = store.comics@[i].path_word@;
    let pages = store.pages@;
    assert(comic_in_step(store.comics@[i], pages));
    lemma_count_equal(pages, page_done_of(comic), page_of(comic));
    if store.comics@[i].download_status == AggregateStatus::Complete {
        assert forall|k: int|
            0 <= k < pages.len() && (#[trigger] pages[k]).comic_path_word@
                == comic implies pages[k].download_status == DownloadStatus::Success by {
            assert(page_of(comic)(pages[k]));
            assert(page_done_of(comic)(pages[k]));
        }
    } else {
        let k = choose|k: int|
            0 <= k < pages.len() && page_of(comic)(#[trigger] pages[k]) && !page_done_of(comic)(
                pages[k],
            );
        assert(pages[k].comic_path_word@ == comic);
    }
}

/// In a table without a repeated key, two places with one key are one place.
proof fn lemma_one_place_per_key(pages: Seq<DownloadComicPage>, i: int, j: int)
    requires
        crate::table::distinct(page_keys(pages)),
        0 <= i < pages.len(),
        0 <= j < pages.len(),
        page_key(pages[i]) == page_key(pages[j]),
    ensures
        i == j,
{
    assert(page_keys(pages)[i] == page_key(pages[i]));
    assert(page_keys(pages)[j] == page_key(pages[j]));
}

/// What one step does to a page that is recorded before and after: it is at
/// the place the step left it, one state further at most, and out of waiting
/// only by a turn of the loop that is not paused.
proof fn lemma_same_key_same_place(pre: TaskStore, post: TaskStore, i: int, j: int)
    requires
        pre.wf(),
        store_step(pre, post),
        0 <= i < pre.pages@.len(),
        0 <= j < post.pages@.len(),
        page_key(pre.pages@[i]) == page_key(post.pages@[j]),
    ensures
        pre.pages@[i].download_status.may_become(post.pages@[j].download_status),
        pre.pause && pre.pages@[i].download_status == DownloadStatus::Waiting
            ==> post.pages@[j].download_status == DownloadStatus::Waiting,
{
    let a = pre.pages@;
    let b = post.pages@;
    if exists|action: LoopAction| poll_rel(pre, action, post) {
        let action = choose|action: LoopAction| poll_rel(pre, action, post);
        match action {
            LoopAction::Fetch(task) => {
                let c = choose|c: int|
                    {
                        &&& #[trigger] is_next_comic(pre, c)
                        &&& task.comic_path_word@ == pre.comics@[c].path_word@
                        &&& if pre.comics@[c].cover_download_status == DownloadStatus::Waiting {
                            b == a && crate::download::work::cover_taken(
                                pre.comics@,
                                c,
                                task,
                                post.comics@,
                            )
                        } else {
                            post.comics@ == pre.comics@ && exists|k: int|
                                #[trigger] is_next_page(a, pre.comics@[c].path_word@, k)
                                    && page_taken(a, k, task, b)
                        }
                    };
                if pre.comics@[c].cover_download_status != DownloadStatus::Waiting {
                    let k = choose|k: int|
                        #[trigger] is_next_page(a, pre.comics@[c].path_word@, k) && page_taken(
                            a,
                            k,
                            task,
                            b,
                        );
                    lemma_one_place_per_key(a, i, j);
                } else {
                    lemma_one_place_per_key(a, i, j);
                }
            },
            _ => {
                lemma_one_place_per_key(a, i, j);
            },
        }
    } else if exists|task: DownloadTask, outcome: Option<ImageMeta>, applied: bool|
        finish_rel(pre, task, outcome, applied, post) {
        let (task, outcome, applied) = choose|
            task: DownloadTask,
            outcome: Option<ImageMeta>,
            applied: bool,
        | finish_rel(pre, task, outcome, applied, post);
        if exists|k: int| page_in_flight(a, task, k) {
            let k = choose|k: int| page_in_flight(a, task, k);
            lemma_one_place_per_key(a, i, j);
        } else if exists|c: int| cover_in_flight(pre.comics@, task, c) {
            let c = choose|c: int| cover_in_flight(pre.comics@, task, c);
            lemma_one_place_per_key(a, i, j);
        } else {
            lemma_one_place_per_key(a, i, j);
        }
    } else if reset_rel(pre, post) {
        assert(b[j] == page_requeued(a[j]));
        lemma_one_place_per_key(a, i, j);
    } else if exists|snapshot: ComicSnapshot| append_rel(pre, snapshot, post) {
        let snapshot = choose|snapshot: ComicSnapshot| append_rel(pre, snapshot, post);
        let incoming = incoming_page_keys(snapshot.pages@);
        let places = new_positions(page_keys(a), incoming);
        lemma_new_positions_are_new(page_keys(a), incoming);
        if j >= a.len() {
            let jj = j - a.len();
            assert(crate::table::is_new(page_keys(a), incoming, places[jj]));
            assert(page_key(b[a.len() + jj]) == incoming[places[jj]]);
            assert(page_keys(a)[i] == incoming[places[jj]]);
            assert(page_keys(a).contains(incoming[places[jj]]));
        } else {
            lemma_one_place_per_key(a, i, j);
        }
    } else if exists|path_word: Seq<char>| delete_rel(pre, path_word, post) {
        let path_word = choose|path_word: Seq<char>| delete_rel(pre, path_word, post);
        lemma_filter_keeps_distinct(
            a,
            page_is_not_of(path_word),
            |p: DownloadComicPage| page_key(p),
        );
        assert(a.contains(b[j]));
        let x = choose|x: int| 0 <= x < a.len() && a[x] == b[j];
        lemma_one_place_per_key(a, i, x);
    } else {
        lemma_one_place_per_key(a, i, j);
    }
}

} // verus!
