//! What a login, a registration and the check of a stored token mean for
//! the state that is shown.

use crate::copy_client::{ErrorInfo, LoginResult, MemberInfo, RegisterResult};
use crate::udto::{UiLoginState, UiRegisterResult};
use vstd::prelude::*;

verus! {

/// Nobody is logged in.
pub const STATE_NOT_SET: i64 = 0;

/// The login, or the registration, went through.
pub const STATE_SUCCESS: i64 = 1;

/// The login, or the registration, failed.
pub const STATE_FAIL: i64 = 2;

/// The text of a failure.
pub open spec fn message_of(error: ErrorInfo) -> String {
    match error {
        ErrorInfo::Network(message) => message,
        ErrorInfo::Message(message) => message,
        ErrorInfo::Convert(message) => message,
        ErrorInfo::Other(message) => message,
    }
}

/// The text of a failure.
pub fn error_message(error: ErrorInfo) -> (message: String)
    ensures
        message == message_of(error),
{
    match error {
        ErrorInfo::Network(message) => message,
        ErrorInfo::Message(message) => message,
        ErrorInfo::Convert(message) => message,
        ErrorInfo::Other(message) => message,
    }
}

/// The account that a login answered with. The downloads of the day are not
/// part of the answer: they are left at nothing.
pub open spec fn member_of(result: LoginResult, blank: String) -> MemberInfo {
    MemberInfo {
        user_id: result.user_id,
        username: result.username,
        nickname: result.nickname,
        avatar: result.avatar,
        is_authenticated: result.is_authenticated,
        datetime_created: result.datetime_created,
        b_verify_email: result.b_verify_email,
        email: result.email,
        mobile: result.mobile,
        mobile_region: result.mobile_region,
        point: result.point,
        comic_vip: result.comic_vip,
        comic_vip_end: result.comic_vip_end,
        comic_vip_start: result.comic_vip_start,
        cartoon_vip: result.cartoon_vip,
        cartoon_vip_end: result.cartoon_vip_end,
        cartoon_vip_start: result.cartoon_vip_start,
        ads_vip_end: result.ads_vip_end,
        close_report: result.close_report,
        downloads: result.downloads,
        vip_downloads: result.vip_downloads,
        reward_downloads: result.reward_downloads,
        invite_code: result.invite_code,
        invited: result.invited,
        b_sstv: result.b_sstv,
        scy_answer: result.scy_answer,
        day_downloads_refresh: blank,
        day_downloads: 0,
    }
}

/// The account that a login answered with.
pub fn member_from_result(result: LoginResult) -> (member: MemberInfo)
    ensures
        member == member_of(result, member.day_downloads_refresh),
        member.day_downloads_refresh@ == Seq::<char>::empty(),
{
    MemberInfo {
        user_id: result.user_id,
        username: result.username,
        nickname: result.nickname,
        avatar: result.avatar,
        is_authenticated: result.is_authenticated,
        datetime_created: result.datetime_created,
        b_verify_email: result.b_verify_email,
        email: result.email,
        mobile: result.mobile,
        mobile_region: result.mobile_region,
        point: result.point,
        comic_vip: result.comic_vip,
        comic_vip_end: result.comic_vip_end,
        comic_vip_start: result.comic_vip_start,
        cartoon_vip: result.cartoon_vip,
        cartoon_vip_end: result.cartoon_vip_end,
        cartoon_vip_start: result.cartoon_vip_start,
        ads_vip_end: result.ads_vip_end,
        close_report: result.close_report,
        downloads: result.downloads,
        vip_downloads: result.vip_downloads,
        reward_downloads: result.reward_downloads,
        invite_code: result.invite_code,
        invited: result.invited,
        b_sstv: result.b_sstv,
        scy_answer: result.scy_answer,
        day_downloads_refresh: String::new(),
        day_downloads: 0,
    }
}

/// What is to be done once the stored token was looked at.
#[derive(Debug, Clone, PartialEq)]
pub struct TokenCheck {
    /// The state to show.
    pub state: UiLoginState,
    /// The stored token is of no use any more and is to be cleared.
    pub clear_token: bool,
}

/// The state with this number, no message and this account.
pub open spec fn state_is(ui: UiLoginState, state: i64, member: Option<MemberInfo>) -> bool {
    &&& ui.state == state
    &&& ui.message@ == Seq::<char>::empty()
    &&& ui.member == member
}

/// The state of a failure with this message.
pub open spec fn state_failed(ui: UiLoginState, message: String) -> bool {
    &&& ui.state == STATE_FAIL
    &&& ui.message == message
    &&& ui.member is None
}

/// What the check of the stored token means. `outcome` is `None` where no
/// token is stored, and else what the remote service said of the account
/// behind the token. Without a token nobody is logged in. With an account
/// the login stands. A message of the service itself means that the token
/// has run out: nobody is logged in, and the token is to be cleared. Any
/// other failure is shown as a failed login.
pub open spec fn token_check_of(
    outcome: Option<Result<MemberInfo, ErrorInfo>>,
    check: TokenCheck,
) -> bool {
    match outcome {
        None => state_is(check.state, STATE_NOT_SET, None) && !check.clear_token,
        Some(Ok(member)) => state_is(check.state, STATE_SUCCESS, Some(member))
            && !check.clear_token,
        Some(Err(ErrorInfo::Message(_))) => state_is(check.state, STATE_NOT_SET, None)
            && check.clear_token,
        Some(Err(error)) => state_failed(check.state, message_of(error)) && !check.clear_token,
    }
}

/// Decides the state of the login when the application starts, from what
/// the remote service said of the stored token.
pub fn init_login_state(outcome: Option<Result<MemberInfo, ErrorInfo>>) -> (check: TokenCheck)
    ensures
        token_check_of(outcome, check),
{
    match outcome {
        None => TokenCheck {
            state: UiLoginState { state: STATE_NOT_SET, message: String::new(), member: None },
            clear_token: false,
        },
        Some(Ok(member)) => TokenCheck {
            state: UiLoginState {
                state: STATE_SUCCESS,
                message: String::new(),
                member: Some(member),
            },
            clear_token: false,
        },
        Some(Err(ErrorInfo::Message(_))) => TokenCheck {
            state: UiLoginState { state: STATE_NOT_SET, message: String::new(), member: None },
            clear_token: true,
        },
        Some(Err(error)) => TokenCheck {
            state: UiLoginState {
                state: STATE_FAIL,
                message: error_message(error),
                member: None,
            },
            clear_token: false,
        },
    }
}

/// What is to be done once a login was tried.
#[derive(Debug, Clone, PartialEq)]
pub struct LoginOutcome {
    /// The state to show.
    pub state: UiLoginState,
    /// The token to keep, with the name and the password, where the login
    /// went through. What the service said of the account and the comics is
    /// stale then.
    pub token: Option<String>,
}

/// What a login means. Where it went through, the account is shown and the
/// token is kept; any failure is shown with its message.
pub open spec fn login_outcome_of(
    result: Result<LoginResult, ErrorInfo>,
    outcome: LoginOutcome,
) -> bool {
    match result {
        Ok(ok) => {
            &&& outcome.token == Some(ok.token)
            &&& outcome.state.state == STATE_SUCCESS
            &&& outcome.state.message@ == Seq::<char>::empty()
            &&& outcome.state.member matches Some(member)
            &&& member == member_of(ok, member.day_downloads_refresh)
            &&& member.day_downloads_refresh@ == Seq::<char>::empty()
        },
        Err(error) => outcome.token is None && state_failed(outcome.state, message_of(error)),
    }
}

/// Decides what a login means, from what the remote service answered.
pub fn login(result: Result<LoginResult, ErrorInfo>) -> (outcome: LoginOutcome)
    ensures
        login_outcome_of(result, outcome),
{
    match result {
        Ok(ok) => {
            let token = ok.token.clone();
            LoginOutcome {
                state: UiLoginState {
                    state: STATE_SUCCESS,
                    message: String::new(),
                    member: Some(member_from_result(ok)),
                },
                token: Some(token),
            }
        },
        Err(error) => LoginOutcome {
            state: UiLoginState {
                state: STATE_FAIL,
                message: error_message(error),
                member: None,
            },
            token: None,
        },
    }
}

/// What a registration means. Where it went through, the new account is
/// shown; any failure is shown with its message.
pub open spec fn register_outcome_of(
    result: Result<RegisterResult, ErrorInfo>,
    ui: UiRegisterResult,
) -> bool {
    match result {
        Ok(data) => ui.state == STATE_SUCCESS && ui.message@ == Seq::<char>::empty() && ui.member
            == Some(data),
        Err(error) => ui.state == STATE_FAIL && ui.message == message_of(error) && ui.member
            is None,
    }
}

/// Decides what a registration means, from what the remote service answered.
pub fn register(result: Result<RegisterResult, ErrorInfo>) -> (ui: UiRegisterResult)
    ensures
        register_outcome_of(result, ui),
{
    match result {
        Ok(data) => UiRegisterResult {
            state: STATE_SUCCESS,
            message: String::new(),
            member: Some(data),
        },
        Err(error) => UiRegisterResult {
            state: STATE_FAIL,
            message: error_message(error),
            member: None,
        },
    }
}

} // verus!
