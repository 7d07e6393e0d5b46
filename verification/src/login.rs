//! Starting a QR login: a code is asked for, and a session is opened for it.

use crate::config::{
    api_url, base_url_of, enabled_wechat_config, is_enabled, is_https, resolve_wechat_api_base_url,
    resolve_wechat_state_dir, state_dir_of, wechat_api_url, WeChatConfig,
};
use crate::errors::{LoginErrorView, WeChatQrLoginError};
use crate::outside::{is_random_uuid, now_ms, random_uuid};
use crate::sessions::{unexpired, ActiveQrLogin, QrSessions, SessionView};
use crate::text::{as_opt_str, blank, is_blank, opt_text};
use std::path::PathBuf;
use vstd::prelude::*;
use vstd::string::*;

verus! {

/// How long the server may take to hand out a code.
pub const API_TIMEOUT_SECS: u64 = 15;

/// How far a login has come.
#[derive(Debug, Clone, Copy, PartialEq, Eq, Structural)]
pub enum WeChatQrLoginStatus {
    Wait,
    Scaned,
    Confirmed,
    Expired,
    ScanedButRedirect,
    TimedOut,
}

/// A login that was started.
#[derive(Debug, Clone, PartialEq, Eq)]
pub struct WeChatQrLoginStart {
    pub state_dir: PathBuf,
    pub session_key: String,
    pub qrcode: String,
    pub qrcode_url: String,
    pub status: WeChatQrLoginStatus,
}

/// What a [`WeChatQrLoginStart`] holds.
pub struct LoginStartView {
    pub state_dir: PathBuf,
    pub session_key: Seq<char>,
    pub qrcode: Seq<char>,
    pub qrcode_url: Seq<char>,
    pub status: WeChatQrLoginStatus,
}

impl View for WeChatQrLoginStart {
    type V = LoginStartView;

    open spec fn view(&self) -> LoginStartView {
        LoginStartView {
            state_dir: self.state_dir,
            session_key: self.session_key@,
            qrcode: self.qrcode@,
            qrcode_url: self.qrcode_url@,
            status: self.status,
        }
    }
}

/// The request for a code.
#[derive(Debug)]
pub struct QrStartRequest {
    pub state_dir: PathBuf,
    pub api_base_url: String,
    pub url: String,
    pub timeout_secs: u64,
}

/// What a [`QrStartRequest`] holds.
pub struct StartRequestView {
    pub state_dir: PathBuf,
    pub api_base_url: Seq<char>,
    pub url: Seq<char>,
    pub timeout_secs: u64,
}

impl View for QrStartRequest {
    type V = StartRequestView;

    open spec fn view(&self) -> StartRequestView {
        StartRequestView {
            state_dir: self.state_dir,
            api_base_url: self.api_base_url@,
            url: self.url@,
            timeout_secs: self.timeout_secs,
        }
    }
}

/// The code that the server hands out, and where it can be seen as an image.
#[derive(Debug)]
pub struct QrCodeResponse {
    pub qrcode: String,
    pub qrcode_img_content: String,
}

/// What came of the request for a code.
#[derive(Debug)]
pub enum QrStartReply {
    /// No answer.
    Unanswered,
    /// An answer with an error status.
    Rejected { status: String, body: String },
    /// An answer that is not what was asked for.
    Unreadable,
    /// A code.
    Answered(QrCodeResponse),
}

/// Tells whether an answer of the server with this HTTP status holds what was asked
/// for. Any other status is an error.
pub fn is_accepted(status: u16) -> (answer: bool)
    ensures
        answer == (200 <= status < 300),
{
    200 <= status && status < 300
}

/// The address that a code is asked for at.
pub open spec fn start_url(base_url: Seq<char>) -> Seq<char> {
    api_url(base_url, "get_bot_qrcode"@) + "?bot_type=3"@
}

/// The request for a code that follows from the configuration, or why there is none.
pub open spec fn start_request(
    config: Option<&WeChatConfig>,
    data_dir: Option<&PathBuf>,
) -> Result<StartRequestView, LoginErrorView> {
    match config {
        None => Err(LoginErrorView::NotConfigured),
        Some(section) => {
            let base_url = base_url_of(opt_text(section.api_base_url));
            if !section.enabled {
                Err(LoginErrorView::Disabled)
            } else if !is_https(base_url) {
                Err(LoginErrorView::InsecureApiBaseUrl)
            } else {
                Ok(
                    StartRequestView {
                        state_dir: state_dir_of(opt_text(section.state_dir), data_dir),
                        api_base_url: base_url,
                        url: start_url(base_url),
                        timeout_secs: API_TIMEOUT_SECS,
                    },
                )
            }
        },
    }
}

/// What is known once the configuration was found to be switched on: the sessions
/// that have not expired. Otherwise nothing changes.
pub open spec fn sessions_on_entry(
    config: Option<&WeChatConfig>,
    sessions: Map<Seq<char>, SessionView>,
    now: u64,
) -> Map<Seq<char>, SessionView> {
    if is_enabled(config) {
        unexpired(sessions, now)
    } else {
        sessions
    }
}

/// The view of a result.
pub open spec fn request_result(result: Result<QrStartRequest, WeChatQrLoginError>) -> Result<
    StartRequestView,
    LoginErrorView,
> {
    match result {
        Ok(request) => Ok(request@),
        Err(error) => Err(error@),
    }
}

/// The request for a code, at the time `now`. Sessions that have expired are taken
/// away on the way. Where the channel is switched on, either a state directory is
/// configured or the data directory has to be known.
pub fn prepare_qr_login_at(
    config: Option<&WeChatConfig>,
    data_dir: Option<&PathBuf>,
    sessions: &mut QrSessions,
    now: u64,
) -> (result: Result<QrStartRequest, WeChatQrLoginError>)
    requires
        old(sessions).wf(),
        is_enabled(config) ==> config->0.state_dir is Some || data_dir is Some,
    ensures
        final(sessions).wf(),
        final(sessions)@ == sessions_on_entry(config, old(sessions)@, now),
        request_result(result) == start_request(config, data_dir),
{
    let section = match enabled_wechat_config(config) {
        Ok(section) => section,
        Err(error) => {
            return Err(error);
        },
    };
    sessions.purge_at(now);
    let state_dir = resolve_wechat_state_dir(as_opt_str(&section.state_dir), data_dir);
    let api_base_url = match resolve_wechat_api_base_url(as_opt_str(&section.api_base_url)) {
        Ok(url) => url,
        Err(error) => {
            return Err(error);
        },
    };
    let mut url = wechat_api_url(api_base_url.as_str(), "get_bot_qrcode");
    url.append("?bot_type=3");
    Ok(QrStartRequest { state_dir, api_base_url, url, timeout_secs: API_TIMEOUT_SECS })
}

/// The request for a code, now.
pub fn prepare_qr_login(
    config: Option<&WeChatConfig>,
    data_dir: Option<&PathBuf>,
    sessions: &mut QrSessions,
) -> (result: Result<QrStartRequest, WeChatQrLoginError>)
    requires
        old(sessions).wf(),
        is_enabled(config) ==> config->0.state_dir is Some || data_dir is Some,
    ensures
        final(sessions).wf(),
        exists|now: u64|
            final(sessions)@ == #[trigger] sessions_on_entry(config, old(sessions)@, now),
        request_result(result) == start_request(config, data_dir),
{
    let now = now_ms();
    prepare_qr_login_at(config, data_dir, sessions, now)
}

/// Why no session can be opened on a reply, if that is so.
pub open spec fn start_failure(reply: QrStartReply) -> Option<LoginErrorView> {
    match reply {
        QrStartReply::Unanswered => Some(LoginErrorView::StartRequestFailed),
        QrStartReply::Rejected { status, body } => Some(
            LoginErrorView::StartRejected { status: status@, body: body@ },
        ),
        QrStartReply::Unreadable => Some(LoginErrorView::StartResponseUnreadable),
        QrStartReply::Answered(code) => if is_blank(code.qrcode@) {
            Some(LoginErrorView::EmptyQrCode)
        } else {
            None
        },
    }
}

/// The code that came back, or why there is none.
pub fn read_start_reply(reply: QrStartReply) -> (result: Result<QrCodeResponse, WeChatQrLoginError>)
    ensures
        match result {
            Ok(code) => start_failure(reply) is None && reply == QrStartReply::Answered(code),
            Err(error) => start_failure(reply) == Some(error@),
        },
{
    match reply {
        QrStartReply::Unanswered => Err(WeChatQrLoginError::StartRequestFailed),
        QrStartReply::Rejected { status, body } => Err(
            WeChatQrLoginError::StartRejected { status, body },
        ),
        QrStartReply::Unreadable => Err(WeChatQrLoginError::StartResponseUnreadable),
        QrStartReply::Answered(code) => if blank(code.qrcode.as_str()) {
            Err(WeChatQrLoginError::EmptyQrCode)
        } else {
            Ok(code)
        },
    }
}

/// The session that is opened on a code.
pub open spec fn opened_session(
    request: StartRequestView,
    code: QrCodeResponse,
    now: u64,
) -> SessionView {
    SessionView {
        state_dir: request.state_dir,
        qrcode: code.qrcode@,
        qrcode_url: code.qrcode_img_content@,
        current_api_base_url: request.api_base_url,
        started_at_ms: now,
    }
}

/// What is handed out about the session that is opened on a code.
pub open spec fn opened_login(
    request: StartRequestView,
    code: QrCodeResponse,
    session_key: Seq<char>,
) -> LoginStartView {
    LoginStartView {
        state_dir: request.state_dir,
        session_key,
        qrcode: code.qrcode@,
        qrcode_url: code.qrcode_img_content@,
        status: WeChatQrLoginStatus::Wait,
    }
}

/// Opens the session `session_key` on a code, at the time `now`.
pub fn open_qr_session(
    request: QrStartRequest,
    code: QrCodeResponse,
    session_key: String,
    now: u64,
    sessions: &mut QrSessions,
) -> (start: WeChatQrLoginStart)
    requires
        old(sessions).wf(),
    ensures
        final(sessions).wf(),
        final(sessions)@ == old(sessions)@.insert(
            session_key@,
            opened_session(request@, code, now),
        ),
        start@ == opened_login(request@, code, session_key@),
{
    sessions.insert(
        session_key.clone(),
        ActiveQrLogin {
            state_dir: request.state_dir.clone(),
            qrcode: code.qrcode.clone(),
            qrcode_url: code.qrcode_img_content.clone(),
            current_api_base_url: request.api_base_url,
            started_at_ms: now,
        },
    );
    WeChatQrLoginStart {
        state_dir: request.state_dir,
        session_key,
        qrcode: code.qrcode,
        qrcode_url: code.qrcode_img_content,
        status: WeChatQrLoginStatus::Wait,
    }
}

/// Opens a session on what came of the request for a code, now and under a
/// random key. Where there is no code nothing changes.
pub fn finish_qr_login_start(
    request: QrStartRequest,
    reply: QrStartReply,
    sessions: &mut QrSessions,
) -> (result: Result<WeChatQrLoginStart, WeChatQrLoginError>)
    requires
        old(sessions).wf(),
    ensures
        final(sessions).wf(),
        match result {
            Ok(start) => {
                &&& start_failure(reply) is None
                &&& is_random_uuid(start.session_key@)
                &&& start@ == opened_login(request@, reply->Answered_0, start.session_key@)
                &&& exists|now: u64|
                    final(sessions)@ == old(sessions)@.insert(
                        start.session_key@,
                        #[trigger] opened_session(request@, reply->Answered_0, now),
                    )
            },
            Err(error) => start_failure(reply) == Some(error@) && final(sessions)@ == old(
                sessions,
            )@,
        },
{
    let code = match read_start_reply(reply) {
        Ok(code) => code,
        Err(error) => {
            return Err(error);
        },
    };
    let session_key = random_uuid();
    let now = now_ms();
    Ok(open_qr_session(request, code, session_key, now, sessions))
}

} // verus!
