use copi_rust::api::login::{
    error_message, init_login_state, login, member_from_result, register, STATE_FAIL,
    STATE_NOT_SET, STATE_SUCCESS,
};
use copi_rust::api::startup::{
    api_replacement, api_url, desktop_root, non_empty, pause_from_property, pause_to_property, reset_api,
    reset_api_between, reveal_text, ApiReplacement, BadConstant, Platform, API_URL, OLD_API_URL,
};
use copi_rust::copy_client::{
    Author, ComicData, ComicInList, ComicInSearch, ErrorInfo, Group, LoginResult, MemberInfo, Page,
    RankItem, RecommendItem, RegisterResult, Tags, Theme,
};
use copi_rust::text::{decimal_string, join_paths, join_with};
use copi_rust::udto::{
    convert_all, seconds_of, UiComicData, UiComicInList, UiPageRankItem, UiPageUiComicInList,
    UiTags, UiTheme, UiViewLog,
};
use copi_rust::view_log::{
    find_comic_view_log, list_comic_view_logs, view_chapter_page, view_comic_info, ComicViewLog,
};

fn login_result() -> LoginResult {
    let mut result = LoginResult::default();
    result.token = "t-1".to_string();
    result.user_id = "u-1".to_string();
    result.username = "name".to_string();
    result.nickname = "nick".to_string();
    result.point = 12;
    result.mobile = Some("123".to_string());
    result.b_sstv = true;
    result
}

#[test]
fn the_account_of_a_login() {
    let member = member_from_result(login_result());
    let mut expected = MemberInfo::default();
    expected.user_id = "u-1".to_string();
    expected.username = "name".to_string();
    expected.nickname = "nick".to_string();
    expected.point = 12;
    expected.mobile = Some("123".to_string());
    expected.b_sstv = true;
    assert_eq!(member, expected);
    assert_eq!(member.day_downloads, 0);
    assert_eq!(member.day_downloads_refresh, "");
}

#[test]
fn a_login_that_went_through_keeps_the_token() {
    let outcome = login(Ok(login_result()));
    assert_eq!(outcome.token, Some("t-1".to_string()));
    assert_eq!(outcome.state.state, STATE_SUCCESS);
    assert_eq!(outcome.state.message, "");
    assert_eq!(outcome.state.member, Some(member_from_result(login_result())));
}

#[test]
fn a_login_that_failed_shows_why() {
    for error in [
        ErrorInfo::Network("timeout".to_string()),
        ErrorInfo::Message("wrong password".to_string()),
        ErrorInfo::Convert("bad json".to_string()),
        ErrorInfo::Other("other".to_string()),
    ] {
        let outcome = login(Err(error.clone()));
        assert_eq!(outcome.token, None);
        assert_eq!(outcome.state.state, STATE_FAIL);
        assert_eq!(outcome.state.message, error_message(error));
        assert_eq!(outcome.state.member, None);
    }
    assert_eq!(error_message(ErrorInfo::Message("wrong password".to_string())), "wrong password");
}

#[test]
fn the_stored_token_decides_the_first_state() {
    let none = init_login_state(None);
    assert_eq!(none.state.state, STATE_NOT_SET);
    assert_eq!(none.state.member, None);
    assert!(!none.clear_token);

    let mut member = MemberInfo::default();
    member.username = "name".to_string();
    let good = init_login_state(Some(Ok(member.clone())));
    assert_eq!(good.state.state, STATE_SUCCESS);
    assert_eq!(good.state.message, "");
    assert_eq!(good.state.member, Some(member));
    assert!(!good.clear_token);

    let expired = init_login_state(Some(Err(ErrorInfo::Message("expired".to_string()))));
    assert_eq!(expired.state.state, STATE_NOT_SET);
    assert_eq!(expired.state.message, "");
    assert_eq!(expired.state.member, None);
    assert!(expired.clear_token);

    for error in [
        ErrorInfo::Network("timeout".to_string()),
        ErrorInfo::Convert("bad json".to_string()),
        ErrorInfo::Other("other".to_string()),
    ] {
        let failed = init_login_state(Some(Err(error.clone())));
        assert_eq!(failed.state.state, STATE_FAIL);
        assert_eq!(failed.state.message, error_message(error));
        assert_eq!(failed.state.member, None);
        assert!(!failed.clear_token);
    }
}

#[test]
fn the_outcome_of_a_registration() {
    let mut data = RegisterResult::default();
    data.username = "new".to_string();
    let done = register(Ok(data.clone()));
    assert_eq!(done.state, STATE_SUCCESS);
    assert_eq!(done.message, "");
    assert_eq!(done.member, Some(data));
    let failed = register(Err(ErrorInfo::Message("taken".to_string())));
    assert_eq!(failed.state, STATE_FAIL);
    assert_eq!(failed.message, "taken");
    assert_eq!(failed.member, None);
}

#[test]
fn the_hosts_are_kept_as_base64() {
    assert_eq!(api_url(), Some("https://www.copy20.com".to_string()));
    assert_eq!(reveal_text(API_URL), Some("https://www.copy20.com".to_string()));
    assert_eq!(reveal_text(OLD_API_URL), Some("https://www.copy-manga.com".to_string()));
    assert_eq!(reveal_text("aGVsbG8="), Some("hello".to_string()));
    assert_eq!(reveal_text(""), Some(String::new()));
    assert_eq!(reveal_text("not base64!"), None);
    assert_eq!(reveal_text("/w=="), None);
}

#[test]
fn the_host_that_was_used_before_is_replaced_once() {
    let old = "https://www.copy-manga.com".to_string();
    let new = "https://www.copy20.com".to_string();
    let empty = String::new();
    assert_eq!(reset_api(&empty, &empty), Ok(None));
    assert_eq!(reset_api(&old, &empty), Ok(None));
    assert_eq!(
        reset_api(&empty, &old),
        Ok(Some(ApiReplacement { old_api: old.clone(), api: new.clone() }))
    );
    assert_eq!(
        reset_api(&"https://other.example".to_string(), &old),
        Ok(Some(ApiReplacement { old_api: old.clone(), api: new.clone() }))
    );
    assert_eq!(reset_api(&old, &old), Ok(None));
    assert_eq!(reset_api(&old, &new), Ok(None));
    assert_eq!(reset_api(&empty, &"https://own.example".to_string()), Ok(None));
}

#[test]
fn the_replacement_from_what_could_be_read() {
    let old = "old".to_string();
    let empty = String::new();
    let some = |text: &str| Some(text.to_string());
    assert_eq!(api_replacement(&empty, &empty, None, None), Ok(None));
    assert_eq!(api_replacement(&empty, &old, None, some("new")), Err(BadConstant));
    assert_eq!(api_replacement(&empty, &old, some("old"), None), Err(BadConstant));
    assert_eq!(api_replacement(&empty, &old, some("other"), None), Ok(None));
    assert_eq!(api_replacement(&old, &old, some("old"), some("new")), Ok(None));
    assert_eq!(
        api_replacement(&empty, &old, some("old"), some("new")),
        Ok(Some(ApiReplacement { old_api: old.clone(), api: "new".to_string() }))
    );
}

#[test]
fn hosts_that_cannot_be_read_are_reported() {
    let hello = "hello".to_string();
    let empty = String::new();
    assert_eq!(reset_api_between(&empty, &hello, "!", "aGVsbG8="), Err(BadConstant));
    assert_eq!(reset_api_between(&empty, &hello, "/w==", "aGVsbG8="), Err(BadConstant));
    assert_eq!(reset_api_between(&empty, &hello, "aGVsbG8=", "!"), Err(BadConstant));
    assert_eq!(reset_api_between(&empty, &empty, "!", "!"), Ok(None));
    assert_eq!(reset_api_between(&empty, &"other".to_string(), "aGVsbG8=", "!"), Ok(None));
    assert_eq!(
        reset_api_between(&empty, &hello, "aGVsbG8=", "d29ybGQ="),
        Ok(Some(ApiReplacement { old_api: hello.clone(), api: "world".to_string() }))
    );
}

#[test]
fn settings_as_they_are_kept() {
    assert_eq!(non_empty(String::new()), None);
    assert_eq!(non_empty("x".to_string()), Some("x".to_string()));
    assert!(pause_from_property("true"));
    assert!(!pause_from_property("false"));
    assert!(!pause_from_property(""));
    assert!(!pause_from_property("True"));
    assert_eq!(pause_to_property(true), "true");
    assert_eq!(pause_to_property(false), "false");
    assert!(pause_from_property(&pause_to_property(true)));
    assert!(!pause_from_property(&pause_to_property(false)));
}

#[test]
fn the_root_on_a_desktop() {
    assert_eq!(desktop_root(Platform::Linux, "/home/u"), "/home/u/.opensource/kobi");
    assert_eq!(
        desktop_root(Platform::MacOs, "/Users/u"),
        "/Users/u/Library/Application Support/opensource/kobi"
    );
    assert_eq!(desktop_root(Platform::Windows, "C:/app"), "C:/app/data");
}

#[test]
fn numbers_and_paths_as_text() {
    assert_eq!(decimal_string(0), "0");
    assert_eq!(decimal_string(7), "7");
    assert_eq!(decimal_string(10), "10");
    assert_eq!(decimal_string(-1), "-1");
    assert_eq!(decimal_string(1234567890), "1234567890");
    assert_eq!(decimal_string(i64::MAX), "9223372036854775807");
    assert_eq!(decimal_string(i64::MIN), "-9223372036854775808");
    assert_eq!(join_paths(vec![]), "");
    assert_eq!(join_paths(vec!["a"]), "a");
    assert_eq!(join_paths(vec!["a", "b", "c"]), "a/b/c");
    assert_eq!(join_paths(vec!["", "b"]), "/b");
    assert_eq!(join_paths(vec!["a/", "/b"]), "a///b");
    assert_eq!(join_with(vec!["a", "", "c"], "::"), "a::::c");
    assert_eq!(join_with(vec!["a", "b"], ""), "ab");
}

#[test]
fn view_logs() {
    let info = view_comic_info("c".to_string(), "Name".to_string(), "[]".to_string(), "cover".to_string());
    let mut expected = ComicViewLog::default();
    expected.comic_path_word = "c".to_string();
    expected.comic_name = "Name".to_string();
    expected.comic_authors = "[]".to_string();
    expected.comic_cover = "cover".to_string();
    assert_eq!(info, expected);

    let page = view_chapter_page("c".to_string(), "u".to_string(), "Ch".to_string(), 3, 20, 5, 7);
    let mut expected = ComicViewLog::default();
    expected.comic_path_word = "c".to_string();
    expected.chapter_uuid = "u".to_string();
    expected.chapter_name = "Ch".to_string();
    expected.chapter_ordered = 3;
    expected.chapter_size = 20;
    expected.chapter_count = 5;
    expected.page_rank = 7;
    assert_eq!(page, expected);

    assert_eq!(find_comic_view_log(None), None);
    let mut model = info.clone();
    model.view_time = 99;
    model.page_rank = 4;
    let shown = find_comic_view_log(Some(model.clone())).unwrap();
    assert_eq!(
        shown,
        UiViewLog {
            comic_path_word: "c".to_string(),
            comic_name: "Name".to_string(),
            comic_authors: "[]".to_string(),
            comic_cover: "cover".to_string(),
            chapter_uuid: String::new(),
            chapter_name: String::new(),
            chapter_ordered: 0,
            chapter_size: 0,
            chapter_count: 0,
            page_rank: 4,
            view_time: 99,
        }
    );
    let listing = list_comic_view_logs(41, 20, 10, vec![model.clone(), page.clone()]);
    assert_eq!(listing.total, 41);
    assert_eq!(listing.offset, 20);
    assert_eq!(listing.limit, 10);
    assert_eq!(listing.list.len(), 2);
    assert_eq!(listing.list[0], shown);
    assert_eq!(listing.list[1].chapter_uuid, "u");
    assert_eq!(list_comic_view_logs(u64::MAX, 0, 0, vec![]).total, -1);
    assert_eq!(list_comic_view_logs(1 << 63, 0, 0, vec![]).total, i64::MIN);
}

fn author(name: &str) -> Author {
    Author { name: name.to_string(), alias: None, path_word: name.to_lowercase() }
}

fn comic_in_list(name: &str) -> ComicInList {
    ComicInList {
        author: vec![author("A")],
        cover: "cover".to_string(),
        img_type: 1,
        name: name.to_string(),
        path_word: name.to_lowercase(),
        popular: 5,
        females: vec![],
        males: vec![],
    }
}

#[test]
fn records_of_the_service_as_they_are_shown() {
    let page = Page {
        list: vec![
            RankItem {
                comic: comic_in_list("One"),
                date_type: 1,
                popular: 2,
                rise_num: 3,
                rise_sort: 4,
                sort: 5,
                sort_last: 6,
            },
            RankItem { comic: comic_in_list("Two"), ..RankItem::default() },
        ],
        total: 50,
        limit: 2,
        offset: 4,
    };
    let shown = UiPageRankItem::from(page);
    assert_eq!(shown.total, 50);
    assert_eq!(shown.limit, 2);
    assert_eq!(shown.offset, 4);
    assert_eq!(shown.list.len(), 2);
    assert_eq!(shown.list[0].comic, UiComicInList::from(comic_in_list("One")));
    assert_eq!(shown.list[0].sort_last, 6);
    assert_eq!(shown.list[1].comic.name, "Two");

    let found = ComicInSearch {
        alias: Some("x".to_string()),
        author: vec![author("B")],
        cover: "c".to_string(),
        img_type: 2,
        name: "Found".to_string(),
        path_word: "found".to_string(),
        popular: 9,
    };
    let shown = UiPageUiComicInList::from(Page { list: vec![found], total: 1, limit: 20, offset: 0 });
    assert_eq!(shown.list[0].name, "Found");
    assert_eq!(shown.list[0].author, vec![author("B")]);
    assert!(shown.list[0].males.is_empty());
    assert!(shown.list[0].females.is_empty());

    let recommended = RecommendItem { type_field: 1, comic: comic_in_list("Rec") };
    assert_eq!(UiComicInList::from(recommended).path_word, "rec");

    let tags = Tags {
        ordering: vec![],
        theme: vec![Theme { count: 3, initials: 1, name: "T".to_string(), path_word: "t".to_string() }],
        top: vec![],
    };
    assert_eq!(
        UiTags::from(tags).theme,
        vec![UiTheme { count: 3, initials: 1, name: "T".to_string(), path_word: "t".to_string() }]
    );

    let mut data = ComicData::default();
    data.popular = 8;
    data.groups = vec![
        ("default".to_string(), Group { count: 3, name: "Default".to_string(), path_word: "default".to_string() }),
        ("extra".to_string(), Group { count: 1, name: "Extra".to_string(), path_word: "extra".to_string() }),
    ];
    let shown = UiComicData::from(data);
    assert_eq!(shown.popular, 8);
    assert_eq!(shown.groups.len(), 2);
    assert_eq!(shown.groups[1].name, "Extra");

    let numbers: Vec<i64> = convert_all(vec![1i32, 2, 3]);
    assert_eq!(numbers, vec![1i64, 2, 3]);
    assert_eq!(seconds_of(vec![(1, "a"), (2, "b")]), vec!["a", "b"]);
}
