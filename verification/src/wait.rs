//! Waiting for a QR login: the server is asked again and again how far it has come.
//!
//! A wait begins with [`begin_qr_wait`]. Each round asks [`poll_qr_login`] what to
//! do; where that is a question to the server, its answer goes to
//! [`on_status_reply`]. A confirmed login is written to disk before
//! [`finish_confirmed_login`] closes it.

use crate::account::{account_data, AccountData, AccountView};
use crate::bound_users::{
    bindings_after_login, persisted_users, users_after_login, BindingsData, WeChatQrBindMode,
};
use crate::config::{
    api_url, base_url_of, enabled_wechat_config, is_https, resolve_wechat_api_base_url, wechat_api_url,
    WeChatConfig,
};
use crate::errors::{LoginErrorView, WeChatQrLoginError};
use crate::login::{sessions_on_entry, WeChatQrLoginStatus};
use crate::outside::{is_rfc3339_utc, now_ms, percent_encoded, url_encode};
use crate::sessions::{redirected, ActiveQrLogin, QrSessions, SessionView};
use crate::text::{as_opt_str, blank, is_blank, opt_text, texts, trimmed};
use std::path::PathBuf;
use vstd::prelude::*;
use vstd::string::*;
use vstd::utf8::encode_utf8;

verus! {

/// How long the server may take to answer a question.
pub const QR_POLL_TIMEOUT_SECS: u64 = 35;

/// How long a question may take in all.
pub const QR_POLL_GUARD_SECS: u64 = QR_POLL_TIMEOUT_SECS + 5;

/// How long to rest before the next question.
pub const QR_POLL_DELAY_SECS: u64 = 1;

/// How long is waited where nothing else is said.
pub const QR_WAIT_DEFAULT_TIMEOUT_MS: u64 = 480_000;

/// How long is waited at least.
pub const QR_WAIT_MIN_TIMEOUT_MS: u64 = 1_000;

/// How a wait ended.
#[derive(Debug, Clone, PartialEq, Eq)]
pub struct WeChatQrLoginWait {
    pub state_dir: PathBuf,
    pub session_key: String,
    pub connected: bool,
    pub status: WeChatQrLoginStatus,
    pub bind_mode: WeChatQrBindMode,
    pub account_id: Option<String>,
    pub user_id: Option<String>,
    pub base_url: Option<String>,
    pub qrcode_url: Option<String>,
}

/// What a [`WeChatQrLoginWait`] holds.
pub struct LoginWaitView {
    pub state_dir: PathBuf,
    pub session_key: Seq<char>,
    pub connected: bool,
    pub status: WeChatQrLoginStatus,
    pub bind_mode: WeChatQrBindMode,
    pub account_id: Option<Seq<char>>,
    pub user_id: Option<Seq<char>>,
    pub base_url: Option<Seq<char>>,
    pub qrcode_url: Option<Seq<char>>,
}

impl View for WeChatQrLoginWait {
    type V = LoginWaitView;

    open spec fn view(&self) -> LoginWaitView {
        LoginWaitView {
            state_dir: self.state_dir,
            session_key: self.session_key@,
            connected: self.connected,
            status: self.status,
            bind_mode: self.bind_mode,
            account_id: opt_text(self.account_id),
            user_id: opt_text(self.user_id),
            base_url: opt_text(self.base_url),
            qrcode_url: opt_text(self.qrcode_url),
        }
    }
}

/// What is waited for, and for how long.
#[derive(Debug)]
pub struct QrLoginWaiter {
    pub session_key: String,
    pub bind_mode: WeChatQrBindMode,
    pub timeout_ms: u64,
    pub default_base_url: String,
}

/// What a [`QrLoginWaiter`] holds.
pub struct WaiterView {
    pub session_key: Seq<char>,
    pub bind_mode: WeChatQrBindMode,
    pub timeout_ms: u64,
    pub default_base_url: Seq<char>,
}

impl View for QrLoginWaiter {
    type V = WaiterView;

    open spec fn view(&self) -> WaiterView {
        WaiterView {
            session_key: self.session_key@,
            bind_mode: self.bind_mode,
            timeout_ms: self.timeout_ms,
            default_base_url: self.default_base_url@,
        }
    }
}

// ---- the beginning of a wait ----

/// How long is waited.
pub open spec fn wait_timeout(timeout_ms: Option<u64>) -> u64 {
    let wished = match timeout_ms {
        Some(timeout_ms) => timeout_ms,
        None => QR_WAIT_DEFAULT_TIMEOUT_MS,
    };
    if wished < QR_WAIT_MIN_TIMEOUT_MS {
        QR_WAIT_MIN_TIMEOUT_MS
    } else {
        wished
    }
}

/// How long is waited: as long as is wished, but not less than a second, and eight
/// minutes where nothing is wished.
pub fn effective_wait_timeout(timeout_ms: Option<u64>) -> (effective: u64)
    ensures
        effective == wait_timeout(timeout_ms),
{
    let wished: u64 = match timeout_ms {
        Some(timeout_ms) => timeout_ms,
        None => QR_WAIT_DEFAULT_TIMEOUT_MS,
    };
    if wished < QR_WAIT_MIN_TIMEOUT_MS {
        QR_WAIT_MIN_TIMEOUT_MS
    } else {
        wished
    }
}

/// The wait that follows from the configuration, or why there is none.
pub open spec fn wait_plan(
    config: Option<&WeChatConfig>,
    session_key: Seq<char>,
    bind_mode: WeChatQrBindMode,
    timeout_ms: Option<u64>,
) -> Result<WaiterView, LoginErrorView> {
    match config {
        None => Err(LoginErrorView::NotConfigured),
        Some(section) => {
            let base_url = base_url_of(opt_text(section.api_base_url));
            if !section.enabled {
                Err(LoginErrorView::Disabled)
            } else if !is_https(base_url) {
                Err(LoginErrorView::InsecureApiBaseUrl)
            } else {
                Ok(
                    WaiterView {
                        session_key,
                        bind_mode,
                        timeout_ms: wait_timeout(timeout_ms),
                        default_base_url: base_url,
                    },
                )
            }
        },
    }
}

/// The view of a result.
pub open spec fn waiter_result(result: Result<QrLoginWaiter, WeChatQrLoginError>) -> Result<
    WaiterView,
    LoginErrorView,
> {
    match result {
        Ok(waiter) => Ok(waiter@),
        Err(error) => Err(error@),
    }
}

/// Begins a wait at the time `now`. Sessions that have expired are taken away on
/// the way.
pub fn begin_qr_wait_at(
    config: Option<&WeChatConfig>,
    session_key: &str,
    bind_mode: WeChatQrBindMode,
    timeout_ms: Option<u64>,
    sessions: &mut QrSessions,
    now: u64,
) -> (result: Result<QrLoginWaiter, WeChatQrLoginError>)
    requires
        old(sessions).wf(),
    ensures
        final(sessions).wf(),
        final(sessions)@ == sessions_on_entry(config, old(sessions)@, now),
        waiter_result(result) == wait_plan(config, session_key@, bind_mode, timeout_ms),
{
    let section = match enabled_wechat_config(config) {
        Ok(section) => section,
        Err(error) => {
            return Err(error);
        },
    };
    sessions.purge_at(now);
    let default_base_url = match resolve_wechat_api_base_url(as_opt_str(&section.api_base_url)) {
        Ok(url) => url,
        Err(error) => {
            return Err(error);
        },
    };
    Ok(
        QrLoginWaiter {
            session_key: session_key.to_owned(),
            bind_mode,
            timeout_ms: effective_wait_timeout(timeout_ms),
            default_base_url,
        },
    )
}

/// Begins a wait, now.
pub fn begin_qr_wait(
    config: Option<&WeChatConfig>,
    session_key: &str,
    bind_mode: WeChatQrBindMode,
    timeout_ms: Option<u64>,
    sessions: &mut QrSessions,
) -> (result: Result<QrLoginWaiter, WeChatQrLoginError>)
    requires
        old(sessions).wf(),
    ensures
        final(sessions).wf(),
        exists|now: u64|
            final(sessions)@ == #[trigger] sessions_on_entry(config, old(sessions)@, now),
        waiter_result(result) == wait_plan(config, session_key@, bind_mode, timeout_ms),
{
    let now = now_ms();
    begin_qr_wait_at(config, session_key, bind_mode, timeout_ms, sessions, now)
}

// ---- one round ----

/// A question to the server for the state of a login.
#[derive(Debug)]
pub struct QrStatusRequest {
    pub session: ActiveQrLogin,
    pub url: String,
    pub timeout_secs: u64,
    pub guard_secs: u64,
}

/// What a round begins with.
#[derive(Debug)]
pub enum QrPollStep {
    /// The server is to be asked.
    Ask(QrStatusRequest),
    /// The wait is over.
    Finished(WeChatQrLoginWait),
}

/// What a [`QrPollStep`] holds.
pub enum PollStepView {
    Ask { session: SessionView, url: Seq<char>, timeout_secs: u64, guard_secs: u64 },
    Finished(LoginWaitView),
}

impl View for QrPollStep {
    type V = PollStepView;

    open spec fn view(&self) -> PollStepView {
        match self {
            QrPollStep::Ask(request) => PollStepView::Ask {
                session: request.session@,
                url: request.url@,
                timeout_secs: request.timeout_secs,
                guard_secs: request.guard_secs,
            },
            QrPollStep::Finished(wait) => PollStepView::Finished(wait@),
        }
    }
}

/// The address that the state of a login is asked for at.
pub open spec fn status_url(session: SessionView) -> Seq<char> {
    api_url(session.current_api_base_url, "get_qrcode_status"@) + "?qrcode="@
        + percent_encoded(encode_utf8(session.qrcode))
}

/// The end of a wait for a login that nobody confirmed.
pub open spec fn unconnected(
    waiter: WaiterView,
    session: SessionView,
    status: WeChatQrLoginStatus,
) -> LoginWaitView {
    LoginWaitView {
        state_dir: session.state_dir,
        session_key: waiter.session_key,
        connected: false,
        status,
        bind_mode: waiter.bind_mode,
        account_id: None,
        user_id: None,
        base_url: None,
        qrcode_url: Some(session.qrcode_url),
    }
}

fn not_connected(
    waiter: &QrLoginWaiter,
    session: ActiveQrLogin,
    status: WeChatQrLoginStatus,
) -> (wait: WeChatQrLoginWait)
    ensures
        wait@ == unconnected(waiter@, session@, status),
{
    WeChatQrLoginWait {
        state_dir: session.state_dir,
        session_key: waiter.session_key.clone(),
        connected: false,
        status,
        bind_mode: waiter.bind_mode,
        account_id: None,
        user_id: None,
        base_url: None,
        qrcode_url: Some(session.qrcode_url),
    }
}

/// What a round begins with at the time `now`, when the wait has taken `elapsed_ms`
/// so far: the sessions that are left, and what to do.
pub open spec fn poll(
    waiter: WaiterView,
    sessions: Map<Seq<char>, SessionView>,
    now: u64,
    elapsed_ms: u64,
) -> (Map<Seq<char>, SessionView>, Result<PollStepView, LoginErrorView>) {
    let key = waiter.session_key;
    if !sessions.contains_key(key) {
        (sessions, Err(LoginErrorView::SessionNotFound { session_key: key }))
    } else {
        let session = sessions[key];
        if session.expired(now) {
            (
                sessions.remove(key),
                Ok(
                    PollStepView::Finished(
                        unconnected(waiter, session, WeChatQrLoginStatus::Expired),
                    ),
                ),
            )
        } else if elapsed_ms >= waiter.timeout_ms {
            (
                sessions,
                Ok(
                    PollStepView::Finished(
                        unconnected(waiter, session, WeChatQrLoginStatus::TimedOut),
                    ),
                ),
            )
        } else {
            (
                sessions,
                Ok(
                    PollStepView::Ask {
                        session,
                        url: status_url(session),
                        timeout_secs: QR_POLL_TIMEOUT_SECS,
                        guard_secs: QR_POLL_GUARD_SECS,
                    },
                ),
            )
        }
    }
}

/// The view of a result.
pub open spec fn poll_result(result: Result<QrPollStep, WeChatQrLoginError>) -> Result<
    PollStepView,
    LoginErrorView,
> {
    match result {
        Ok(step) => Ok(step@),
        Err(error) => Err(error@),
    }
}

/// What a round begins with at the time `now`, when the wait has taken `elapsed_ms`
/// so far.
pub fn poll_qr_login_at(
    waiter: &QrLoginWaiter,
    sessions: &mut QrSessions,
    now: u64,
    elapsed_ms: u64,
) -> (result: Result<QrPollStep, WeChatQrLoginError>)
    requires
        old(sessions).wf(),
    ensures
        final(sessions).wf(),
        (final(sessions)@, poll_result(result)) == poll(waiter@, old(sessions)@, now, elapsed_ms),
{
    let session = match sessions.get(waiter.session_key.as_str()) {
        Some(session) => session.clone(),
        None => {
            return Err(
                WeChatQrLoginError::SessionNotFound { session_key: waiter.session_key.clone() },
            );
        },
    };
    if session.expired(now) {
        sessions.remove(waiter.session_key.as_str());
        return Ok(
            QrPollStep::Finished(not_connected(waiter, session, WeChatQrLoginStatus::Expired)),
        );
    }
    if elapsed_ms >= waiter.timeout_ms {
        return Ok(
            QrPollStep::Finished(not_connected(waiter, session, WeChatQrLoginStatus::TimedOut)),
        );
    }
    let mut url = wechat_api_url(session.current_api_base_url.as_str(), "get_qrcode_status");
    url.append("?qrcode=");
    url.append(url_encode(session.qrcode.as_str()).as_str());
    Ok(
        QrPollStep::Ask(
            QrStatusRequest {
                session,
                url,
                timeout_secs: QR_POLL_TIMEOUT_SECS,
                guard_secs: QR_POLL_GUARD_SECS,
            },
        ),
    )
}

/// What a round begins with now, when the wait has taken `elapsed_ms` so far.
pub fn poll_qr_login(waiter: &QrLoginWaiter, sessions: &mut QrSessions, elapsed_ms: u64) -> (result:
    Result<QrPollStep, WeChatQrLoginError>)
    requires
        old(sessions).wf(),
    ensures
        final(sessions).wf(),
        exists|now: u64|
            (final(sessions)@, poll_result(result)) == #[trigger] poll(
                waiter@,
                old(sessions)@,
                now,
                elapsed_ms,
            ),
{
    let now = now_ms();
    poll_qr_login_at(waiter, sessions, now, elapsed_ms)
}

// ---- the answer ----

/// What the server says about a login.
#[derive(Debug)]
pub struct QrStatusResponse {
    pub status: String,
    pub bot_token: Option<String>,
    pub ilink_bot_id: Option<String>,
    pub ilink_user_id: Option<String>,
    pub baseurl: Option<String>,
    pub redirect_host: Option<String>,
}

/// What came of a question for the state of a login.
#[derive(Debug)]
pub enum QrStatusReply {
    /// No answer, or none in time.
    Unanswered,
    /// An answer with an error status.
    Rejected { status: String, body: String },
    /// An answer that is not what was asked for.
    Unreadable,
    /// The state of the login.
    Answered(QrStatusResponse),
}

/// A login that was confirmed, with what is to be written to disk.
#[derive(Debug)]
pub struct QrConfirmation {
    pub session: ActiveQrLogin,
    pub token: String,
    pub account_id: String,
    pub user_id: Option<String>,
    pub base_url: Option<String>,
}

/// What a [`QrConfirmation`] holds.
pub struct ConfirmationView {
    pub session: SessionView,
    pub token: Seq<char>,
    pub account_id: Seq<char>,
    pub user_id: Option<Seq<char>>,
    pub base_url: Option<Seq<char>>,
}

impl View for QrConfirmation {
    type V = ConfirmationView;

    open spec fn view(&self) -> ConfirmationView {
        ConfirmationView {
            session: self.session@,
            token: self.token@,
            account_id: self.account_id@,
            user_id: opt_text(self.user_id),
            base_url: opt_text(self.base_url),
        }
    }
}

/// What follows from an answer.
#[derive(Debug)]
pub enum QrReplyStep {
    /// The next round comes after a rest.
    AskAgain { delay_secs: u64 },
    /// The wait is over.
    Finished(WeChatQrLoginWait),
    /// The login was confirmed and is to be written to disk.
    Persist(QrConfirmation),
}

/// What a [`QrReplyStep`] holds.
pub enum ReplyStepView {
    AskAgain { delay_secs: u64 },
    Finished(LoginWaitView),
    Persist(ConfirmationView),
}

impl View for QrReplyStep {
    type V = ReplyStepView;

    open spec fn view(&self) -> ReplyStepView {
        match self {
            QrReplyStep::AskAgain { delay_secs } => ReplyStepView::AskAgain {
                delay_secs: *delay_secs,
            },
            QrReplyStep::Finished(wait) => ReplyStepView::Finished(wait@),
            QrReplyStep::Persist(confirmation) => ReplyStepView::Persist(confirmation@),
        }
    }
}

/// The state that the server's word for it stands for. No word at all stands for
/// a login that nobody has scanned yet; an unknown word stands for nothing.
pub open spec fn reported_status(word: Seq<char>) -> Option<WeChatQrLoginStatus> {
    if word == ""@ || word == "wait"@ {
        Some(WeChatQrLoginStatus::Wait)
    } else if word == "scaned"@ {
        Some(WeChatQrLoginStatus::Scaned)
    } else if word == "scaned_but_redirect"@ {
        Some(WeChatQrLoginStatus::ScanedButRedirect)
    } else if word == "expired"@ {
        Some(WeChatQrLoginStatus::Expired)
    } else if word == "confirmed"@ {
        Some(WeChatQrLoginStatus::Confirmed)
    } else {
        None
    }
}

/// The state that the server's word for it stands for.
pub fn parse_reported_status(word: &str) -> (status: Option<WeChatQrLoginStatus>)
    ensures
        status == reported_status(word@),
{
    if word.eq("") || word.eq("wait") {
        Some(WeChatQrLoginStatus::Wait)
    } else if word.eq("scaned") {
        Some(WeChatQrLoginStatus::Scaned)
    } else if word.eq("scaned_but_redirect") {
        Some(WeChatQrLoginStatus::ScanedButRedirect)
    } else if word.eq("expired") {
        Some(WeChatQrLoginStatus::Expired)
    } else if word.eq("confirmed") {
        Some(WeChatQrLoginStatus::Confirmed)
    } else {
        None
    }
}

/// A text that is there and not blank.
pub open spec fn given(value: Option<String>) -> Option<Seq<char>> {
    match value {
        Some(value) if !is_blank(value@) => Some(value@),
        _ => None,
    }
}

fn non_blank(value: Option<String>) -> (kept: Option<String>)
    ensures
        opt_text(kept) == given(value),
{
    match value {
        Some(value) => if blank(value.as_str()) {
            None
        } else {
            Some(value)
        },
        None => None,
    }
}

/// What a confirmed login brings with it, or what it lacks. Token and account are
/// taken as they are, the user without white space around it. Where no server is
/// named it is the configured one.
pub open spec fn confirmation(
    waiter: WaiterView,
    session: SessionView,
    response: QrStatusResponse,
) -> Result<ConfirmationView, LoginErrorView> {
    match (given(response.bot_token), given(response.ilink_bot_id)) {
        (None, _) => Err(LoginErrorView::MissingBotToken),
        (Some(_), None) => Err(LoginErrorView::MissingBotId),
        (Some(token), Some(account_id)) => Ok(
            ConfirmationView {
                session,
                token,
                account_id,
                user_id: match given(response.ilink_user_id) {
                    Some(user_id) => Some(trimmed(user_id)),
                    None => None,
                },
                base_url: match given(response.baseurl) {
                    Some(base_url) => Some(base_url),
                    None => Some(waiter.default_base_url),
                },
            },
        ),
    }
}

/// The view of a result.
pub open spec fn confirmation_result(result: Result<QrConfirmation, WeChatQrLoginError>) -> Result<
    ConfirmationView,
    LoginErrorView,
> {
    match result {
        Ok(confirmation) => Ok(confirmation@),
        Err(error) => Err(error@),
    }
}

/// What a confirmed login brings with it, or what it lacks.
pub fn read_confirmation(
    waiter: &QrLoginWaiter,
    session: ActiveQrLogin,
    response: QrStatusResponse,
) -> (result: Result<QrConfirmation, WeChatQrLoginError>)
    ensures
        confirmation_result(result) == confirmation(waiter@, session@, response),
{
    let token = match non_blank(response.bot_token) {
        Some(token) => token,
        None => {
            return Err(WeChatQrLoginError::MissingBotToken);
        },
    };
    let account_id = match non_blank(response.ilink_bot_id) {
        Some(account_id) => account_id,
        None => {
            return Err(WeChatQrLoginError::MissingBotId);
        },
    };
    let user_id = match non_blank(response.ilink_user_id) {
        Some(user_id) => Some(user_id.as_str().trim().to_owned()),
        None => None,
    };
    let base_url = match non_blank(response.baseurl) {
        Some(base_url) => Some(base_url),
        None => Some(waiter.default_base_url.clone()),
    };
    Ok(QrConfirmation { session, token, account_id, user_id, base_url })
}

/// What follows from an answer: the sessions that are left, and what to do.
/// `session` is the login as it was when the server was asked.
pub open spec fn reply(
    waiter: WaiterView,
    session: SessionView,
    answer: QrStatusReply,
    sessions: Map<Seq<char>, SessionView>,
) -> (Map<Seq<char>, SessionView>, Result<ReplyStepView, LoginErrorView>) {
    let again = Ok::<ReplyStepView, LoginErrorView>(
        ReplyStepView::AskAgain { delay_secs: QR_POLL_DELAY_SECS },
    );
    match answer {
        QrStatusReply::Unanswered => (sessions, again),
        QrStatusReply::Rejected { status, body } => (
            sessions,
            Err(LoginErrorView::WaitRejected { status: status@, body: body@ }),
        ),
        QrStatusReply::Unreadable => (sessions, Err(LoginErrorView::WaitResponseUnreadable)),
        QrStatusReply::Answered(response) => match reported_status(response.status@) {
            Some(WeChatQrLoginStatus::ScanedButRedirect) => match given(response.redirect_host) {
                Some(host) => (
                    redirected(sessions, waiter.session_key, "https://"@ + trimmed(host)),
                    again,
                ),
                None => (sessions, again),
            },
            Some(WeChatQrLoginStatus::Expired) => (
                sessions.remove(waiter.session_key),
                Ok(
                    ReplyStepView::Finished(
                        unconnected(waiter, session, WeChatQrLoginStatus::Expired),
                    ),
                ),
            ),
            Some(WeChatQrLoginStatus::Confirmed) => (
                sessions,
                match confirmation(waiter, session, response) {
                    Ok(confirmation) => Ok(ReplyStepView::Persist(confirmation)),
                    Err(error) => Err(error),
                },
            ),
            _ => (sessions, again),
        },
    }
}

/// The view of a result.
pub open spec fn reply_result(result: Result<QrReplyStep, WeChatQrLoginError>) -> Result<
    ReplyStepView,
    LoginErrorView,
> {
    match result {
        Ok(step) => Ok(step@),
        Err(error) => Err(error@),
    }
}

/// What follows from an answer. `session` is the login as it was when the server
/// was asked.
pub fn on_status_reply(
    waiter: &QrLoginWaiter,
    session: ActiveQrLogin,
    answer: QrStatusReply,
    sessions: &mut QrSessions,
) -> (result: Result<QrReplyStep, WeChatQrLoginError>)
    requires
        old(sessions).wf(),
    ensures
        final(sessions).wf(),
        (final(sessions)@, reply_result(result)) == reply(
            waiter@,
            session@,
            answer,
            old(sessions)@,
        ),
{
    let response = match answer {
        QrStatusReply::Unanswered => {
            return Ok(QrReplyStep::AskAgain { delay_secs: QR_POLL_DELAY_SECS });
        },
        QrStatusReply::Rejected { status, body } => {
            return Err(WeChatQrLoginError::WaitRejected { status, body });
        },
        QrStatusReply::Unreadable => {
            return Err(WeChatQrLoginError::WaitResponseUnreadable);
        },
        QrStatusReply::Answered(response) => response,
    };
    match parse_reported_status(response.status.as_str()) {
        Some(WeChatQrLoginStatus::ScanedButRedirect) => {
            if let Some(host) = non_blank(response.redirect_host) {
                let mut api_base_url = "https://".to_owned();
                api_base_url.append(host.as_str().trim());
                sessions.redirect(waiter.session_key.as_str(), api_base_url);
            }
            Ok(QrReplyStep::AskAgain { delay_secs: QR_POLL_DELAY_SECS })
        },
        Some(WeChatQrLoginStatus::Expired) => {
            sessions.remove(waiter.session_key.as_str());
            Ok(QrReplyStep::Finished(not_connected(waiter, session, WeChatQrLoginStatus::Expired)))
        },
        Some(WeChatQrLoginStatus::Confirmed) => match read_confirmation(waiter, session, response) {
            Ok(confirmation) => Ok(QrReplyStep::Persist(confirmation)),
            Err(error) => Err(error),
        },
        _ => Ok(QrReplyStep::AskAgain { delay_secs: QR_POLL_DELAY_SECS }),
    }
}

// ---- the end of a confirmed login ----

/// The account that a confirmed login leaves on disk.
pub fn confirmed_account(confirmation: &QrConfirmation) -> (account: AccountData)
    ensures
        account@ == (AccountView {
            token: Some(confirmation@.token),
            base_url: confirmation@.base_url,
            account_id: Some(confirmation@.account_id),
            user_id: confirmation@.user_id,
            saved_at: account@.saved_at,
        }),
        account@.saved_at matches Some(saved_at) && is_rfc3339_utc(saved_at),
{
    account_data(
        confirmation.token.as_str(),
        confirmation.account_id.as_str(),
        as_opt_str(&confirmation.base_url),
        as_opt_str(&confirmation.user_id),
    )
}

/// The bindings that a confirmed login leaves on disk, where it names a user.
/// `before` is what was kept until then.
pub fn confirmed_bindings(
    waiter: &QrLoginWaiter,
    confirmation: &QrConfirmation,
    before: Option<&BindingsData>,
) -> (bindings: Option<BindingsData>)
    ensures
        match (bindings, confirmation@.user_id) {
            (Some(bindings), Some(user_id)) => texts(bindings.bound_users@) == users_after_login(
                waiter@.bind_mode,
                persisted_users(before),
                user_id,
            ),
            (bindings, user_id) => bindings is None && user_id is None,
        },
{
    match &confirmation.user_id {
        Some(user_id) => Some(bindings_after_login(before, waiter.bind_mode, user_id.as_str())),
        None => None,
    }
}

/// The end of a wait for a login that was confirmed.
pub open spec fn connected(waiter: WaiterView, confirmation: ConfirmationView) -> LoginWaitView {
    LoginWaitView {
        state_dir: confirmation.session.state_dir,
        session_key: waiter.session_key,
        connected: true,
        status: WeChatQrLoginStatus::Confirmed,
        bind_mode: waiter.bind_mode,
        account_id: Some(confirmation.account_id),
        user_id: confirmation.user_id,
        base_url: confirmation.base_url,
        qrcode_url: Some(confirmation.session.qrcode_url),
    }
}

/// Closes a login that was confirmed and written to disk.
pub fn finish_confirmed_login(
    waiter: &QrLoginWaiter,
    confirmation: QrConfirmation,
    sessions: &mut QrSessions,
) -> (wait: WeChatQrLoginWait)
    requires
        old(sessions).wf(),
    ensures
        final(sessions).wf(),
        final(sessions)@ == old(sessions)@.remove(waiter@.session_key),
        wait@ == connected(waiter@, confirmation@),
{
    sessions.remove(waiter.session_key.as_str());
    WeChatQrLoginWait {
        state_dir: confirmation.session.state_dir,
        session_key: waiter.session_key.clone(),
        connected: true,
        status: WeChatQrLoginStatus::Confirmed,
        bind_mode: waiter.bind_mode,
        account_id: Some(confirmation.account_id),
        user_id: confirmation.user_id,
        base_url: confirmation.base_url,
        qrcode_url: Some(confirmation.session.qrcode_url),
    }
}

} // verus!
