//! What is decided when the application starts: the host of the remote
//! service, the directory of the data, and the pause flag.

use crate::text::{join_paths, joined, path_separator, texts};
use vstd::prelude::*;
use vstd::utf8::{decode_utf8, valid_utf8};

verus! {

/// The host of the remote service that was used before, as it is kept.
pub const OLD_API_URL: &'static str = "aHR0cHM6Ly93d3cuY29weS1tYW5nYS5jb20=";

/// The host of the remote service, as it is kept.
pub const API_URL: &'static str = "aHR0cHM6Ly93d3cuY29weTIwLmNvbQ==";

/// The bytes that the standard base64 alphabet with padding decodes a text
/// to, if the text is well formed.
pub uninterp spec fn base64_decoded(text: Seq<char>) -> Option<Seq<u8>>;

/// Calls `decode` of `base64::prelude::BASE64_STANDARD`. The bytes are a
/// function of the text alone, and there are none for a text that is not
/// base64.
#[verifier::external_body]
fn base64_decode(text: &str) -> (bytes: Option<Vec<u8>>)
    ensures
        match bytes {
            Some(b) => base64_decoded(text@) == Some(b@),
            None => base64_decoded(text@) is None,
        },
{
    base64::Engine::decode(&base64::prelude::BASE64_STANDARD, text).ok()
}

/// Calls `String::from_utf8`, which gives the text that the bytes encode, and
/// none for bytes that are not UTF-8.
#[verifier::external_body]
fn string_from_utf8(bytes: Vec<u8>) -> (text: Option<String>)
    ensures
        match text {
            Some(s) => valid_utf8(bytes@) && s@ == decode_utf8(bytes@),
            None => !valid_utf8(bytes@),
        },
{
    String::from_utf8(bytes).ok()
}

/// The text that is kept as `encoded`: its base64 decoded, read as UTF-8.
pub open spec fn revealed(encoded: Seq<char>) -> Option<Seq<char>> {
    match base64_decoded(encoded) {
        Some(bytes) => if valid_utf8(bytes) {
            Some(decode_utf8(bytes))
        } else {
            None
        },
        None => None,
    }
}

/// The text of a string that may be missing.
pub open spec fn text_of(value: Option<String>) -> Option<Seq<char>> {
    match value {
        Some(s) => Some(s@),
        None => None,
    }
}

/// Reads a text that is kept as base64. There is none where `encoded` is
/// not base64 or what it holds is not UTF-8.
pub fn reveal_text(encoded: &str) -> (text: Option<String>)
    ensures
        text_of(text) == revealed(encoded@),
{
    match base64_decode(encoded) {
        Some(bytes) => string_from_utf8(bytes),
        None => None,
    }
}

/// The host of the remote service.
pub fn api_url() -> (url: Option<String>)
    ensures
        text_of(url) == revealed(API_URL@),
{
    reveal_text(API_URL)
}

/// The hosts to keep from now on, where the host in use is to be replaced.
#[derive(Debug, Clone, PartialEq)]
pub struct ApiReplacement {
    /// The host that was in use, kept as the old one.
    pub old_api: String,
    /// The host to use.
    pub api: String,
}

/// A constant of the application could not be read.
#[derive(Clone, Copy, Debug, PartialEq, Eq, Structural)]
pub struct BadConstant;

/// Whether the host in use is to be replaced. It is where a host is set, it
/// is the one that was used before, and it was not replaced already: the
/// host kept as the old one is another.
pub open spec fn replaces(old_api: Seq<char>, api: Seq<char>, from: Seq<char>) -> bool {
    api.len() > 0 && from != old_api && from == api
}

/// What becomes of the hosts that are kept, where `from` is the host that
/// was used before and `to` the host to use, each as far as it could be
/// read. With no host set nothing changes. Else the host is replaced by the
/// one to use where `replaces` says so. It is a failure where the host that
/// was used before could not be read, or the host to use is needed and
/// could not be read.
pub open spec fn replacement_of(
    old_api: Seq<char>,
    api: Seq<char>,
    from: Option<Seq<char>>,
    to: Option<Seq<char>>,
    result: Result<Option<ApiReplacement>, BadConstant>,
) -> bool {
    if api.len() == 0 {
        result == Ok::<Option<ApiReplacement>, BadConstant>(None)
    } else {
        match (from, to) {
            (Some(from), Some(to)) => if replaces(old_api, api, from) {
                &&& result matches Ok(Some(replacement))
                &&& replacement.old_api@ == from
                &&& replacement.api@ == to
            } else {
                result == Ok::<Option<ApiReplacement>, BadConstant>(None)
            },
            (Some(from), None) => if replaces(old_api, api, from) {
                result is Err
            } else {
                result == Ok::<Option<ApiReplacement>, BadConstant>(None)
            },
            (None, _) => result is Err,
        }
    }
}

/// Decides whether the host that is kept is to be replaced, where `from` is
/// the host that was used before and `to` the host to use, each as far as
/// it could be read.
pub fn api_replacement(
    old_api: &String,
    api: &String,
    from: Option<String>,
    to: Option<String>,
) -> (result: Result<Option<ApiReplacement>, BadConstant>)
    ensures
        replacement_of(old_api@, api@, text_of(from), text_of(to), result),
{
    if api.as_str().is_empty() {
        return Ok(None);
    }
    let replace_from = match from {
        Some(text) => text,
        None => {
            return Err(BadConstant);
        },
    };
    if !(replace_from == *old_api) && replace_from == *api {
        match to {
            Some(replace_to) => Ok(Some(ApiReplacement { old_api: replace_from, api: replace_to })),
            None => Err(BadConstant),
        }
    } else {
        Ok(None)
    }
}

/// Decides whether the host that is kept is to be replaced, where
/// `encoded_from` keeps the host that was used before and `encoded_to` the
/// host to use, both as base64.
pub fn reset_api_between(
    old_api: &String,
    api: &String,
    encoded_from: &str,
    encoded_to: &str,
) -> (result: Result<Option<ApiReplacement>, BadConstant>)
    ensures
        replacement_of(old_api@, api@, revealed(encoded_from@), revealed(encoded_to@), result),
{
    api_replacement(old_api, api, reveal_text(encoded_from), reveal_text(encoded_to))
}

/// Decides whether the host of the remote service that is kept is to be
/// replaced: it is where it is the host that was used before.
pub fn reset_api(old_api: &String, api: &String) -> (result: Result<
    Option<ApiReplacement>,
    BadConstant,
>)
    ensures
        replacement_of(old_api@, api@, revealed(OLD_API_URL@), revealed(API_URL@), result),
{
    reset_api_between(old_api, api, OLD_API_URL, API_URL)
}

/// A setting that was made: an empty text stands for none.
pub fn non_empty(value: String) -> (set: Option<String>)
    ensures
        set == if value@.len() == 0 {
            None
        } else {
            Some(value)
        },
{
    if value.as_str().is_empty() {
        None
    } else {
        Some(value)
    }
}

/// Whether downloading is paused, from the setting as it is kept: it is
/// where the setting reads `true`.
pub fn pause_from_property(value: &str) -> (pause: bool)
    ensures
        pause == (value@ == "true"@),
{
    let wanted = "true".to_owned();
    let given = value.to_owned();
    given == wanted
}

/// The setting under which the pause flag is kept.
pub fn pause_to_property(pause: bool) -> (value: String)
    ensures
        value@ == if pause {
            "true"@
        } else {
            "false"@
        },
{
    if pause {
        "true".to_owned()
    } else {
        "false".to_owned()
    }
}

/// The kind of system that the application runs on.
#[derive(Clone, Copy, Debug, PartialEq, Eq, Structural)]
pub enum Platform {
    Linux,
    MacOs,
    Windows,
}

/// The directory of the application's data on a desktop. `base` is the home
/// directory of the user on Linux and macOS, and the directory of the
/// program on Windows.
pub open spec fn desktop_root_of(platform: Platform, base: Seq<char>) -> Seq<char> {
    match platform {
        Platform::Linux => joined(seq![base, ".opensource"@, "kobi"@], path_separator()),
        Platform::MacOs => joined(
            seq![base, "Library"@, "Application Support"@, "opensource"@, "kobi"@],
            path_separator(),
        ),
        Platform::Windows => joined(seq![base, "data"@], path_separator()),
    }
}

/// The directory of the application's data on a desktop.
pub fn desktop_root(platform: Platform, base: &str) -> (root: String)
    ensures
        root@ == desktop_root_of(platform, base@),
{
    match platform {
        Platform::Linux => {
            let parts = vec![base, ".opensource", "kobi"];
            assert(texts(parts@) =~= seq![base@, ".opensource"@, "kobi"@]);
            join_paths(parts)
        },
        Platform::MacOs => {
            let parts = vec![base, "Library", "Application Support", "opensource", "kobi"];
            assert(texts(parts@) =~= seq![
                base@,
                "Library"@,
                "Application Support"@,
                "opensource"@,
                "kobi"@,
            ]);
            join_paths(parts)
        },
        Platform::Windows => {
            let parts = vec![base, "data"];
            assert(texts(parts@) =~= seq![base@, "data"@]);
            join_paths(parts)
        },
    }
}

} // verus!
