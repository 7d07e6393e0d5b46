//! What the operations on a login are for: how the result of each follows from what
//! it is given, and how the results of two belong together.

use crate::account::AccountData;
use crate::bound_users::{load_persisted_bound_users, BindingsData, WeChatQrBindMode};
use crate::config::WeChatConfig;
use crate::errors::WeChatQrLoginError;
use crate::login::{
    finish_qr_login_start, is_accepted, open_qr_session, prepare_qr_login, prepare_qr_login_at,
    read_start_reply, sessions_on_entry, QrCodeResponse, QrStartReply, QrStartRequest,
    WeChatQrLoginStart, WeChatQrLoginStatus,
};
use crate::outcomes::{binds, lemma_binds};
use crate::outside::{is_random_uuid, is_rfc3339_utc, joined_path, path_of, percent_encoded};
use crate::sessions::{purge_expired_qr_sessions, ActiveQrLogin, QrSessions};
use crate::status::{load_wechat_binding_status, WeChatBindingStatus};
use crate::text::{lemma_without_trailing, trimmed, without_trailing};
use crate::wait::{
    begin_qr_wait, begin_qr_wait_at, confirmed_account, confirmed_bindings, effective_wait_timeout,
    finish_confirmed_login, on_status_reply, parse_reported_status, poll_qr_login,
    poll_qr_login_at, read_confirmation, QrConfirmation, QrLoginWaiter, QrPollStep, QrReplyStep,
    QrStatusReply, QrStatusRequest, QrStatusResponse, WeChatQrLoginWait,
};
use std::path::PathBuf;
use vstd::prelude::*;
use vstd::utf8::encode_utf8;

verus! {

// ---- the logins that are under way ----

/// True of two logins that agree in every part.
pub open spec fn same_login(one: &ActiveQrLogin, other: &ActiveQrLogin) -> bool {
    &&& one.state_dir == other.state_dir
    &&& one.qrcode@ == other.qrcode@
    &&& one.qrcode_url@ == other.qrcode_url@
    &&& one.current_api_base_url@ == other.current_api_base_url@
    &&& one.started_at_ms == other.started_at_ms
}

/// True where the same is found: nothing, or logins that agree in every part.
pub open spec fn same_finding(one: Option<&ActiveQrLogin>, other: Option<&ActiveQrLogin>) -> bool {
    match (one, other) {
        (Some(one), Some(other)) => same_login(one, other),
        (one, other) => one is None && other is None,
    }
}

/// True of what is found under a key before and after everything whose start lies
/// more than ten minutes back at the time `now` is taken away.
pub open spec fn only_old_ones_go(
    before: Option<&ActiveQrLogin>,
    after: Option<&ActiveQrLogin>,
    now: u64,
) -> bool {
    match before {
        Some(login) if now > login.started_at_ms + 600_000 => after is None,
        _ => same_finding(before, after),
    }
}

/// A login has expired as soon as more than ten minutes have passed since its start.
pub proof fn law_login_expires_after_ten_minutes(login: &ActiveQrLogin, now: u64, answer: bool)
    requires
        call_ensures(ActiveQrLogin::expired, (login, now), answer),
    ensures
        answer <==> now > login.started_at_ms + 600_000,
{
}

/// A copy of a login agrees with it in every part.
pub proof fn law_copy_of_a_login(login: &ActiveQrLogin, copy: ActiveQrLogin)
    requires
        call_ensures(ActiveQrLogin::clone, (login,), copy),
    ensures
        same_login(login, &copy),
{
}

/// Where nothing was started nothing is found.
pub proof fn law_nothing_is_found_at_first(
    sessions: QrSessions,
    key: &str,
    found: Option<&ActiveQrLogin>,
)
    requires
        call_ensures(QrSessions::new, (), sessions),
        call_ensures(QrSessions::get, (&sessions, key), found),
    ensures
        sessions.wf(),
        found is None,
{
}

/// A login is found under the key that it was put under; under other keys the same
/// is found as before.
pub proof fn law_login_is_found_where_it_was_put(
    sessions: &mut QrSessions,
    key: String,
    login: ActiveQrLogin,
    other: &str,
    before: Option<&ActiveQrLogin>,
    after: Option<&ActiveQrLogin>,
)
    requires
        old(sessions).wf(),
        call_ensures(QrSessions::insert, (sessions, key, login), ()),
        call_ensures(QrSessions::get, (&*old(sessions), other), before),
        call_ensures(QrSessions::get, (&*final(sessions), other), after),
    ensures
        final(sessions).wf(),
        same_finding(
            if other@ == key@ {
                Some(&login)
            } else {
                before
            },
            after,
        ),
{
}

/// A login that was taken away is not found; under other keys the same is found as
/// before.
pub proof fn law_login_that_was_taken_away_is_not_found(
    sessions: &mut QrSessions,
    key: &str,
    other: &str,
    before: Option<&ActiveQrLogin>,
    after: Option<&ActiveQrLogin>,
)
    requires
        old(sessions).wf(),
        call_ensures(QrSessions::remove, (sessions, key), ()),
        call_ensures(QrSessions::get, (&*old(sessions), other), before),
        call_ensures(QrSessions::get, (&*final(sessions), other), after),
    ensures
        final(sessions).wf(),
        if other@ == key@ {
            after is None
        } else {
            same_finding(before, after)
        },
{
}

/// A login that is sent elsewhere has another server and is otherwise as it was;
/// under other keys the same is found as before.
pub proof fn law_redirecting_changes_the_server_alone(
    sessions: &mut QrSessions,
    key: &str,
    api_base_url: String,
    other: &str,
    before: Option<&ActiveQrLogin>,
    after: Option<&ActiveQrLogin>,
)
    requires
        old(sessions).wf(),
        call_ensures(QrSessions::redirect, (sessions, key, api_base_url), ()),
        call_ensures(QrSessions::get, (&*old(sessions), other), before),
        call_ensures(QrSessions::get, (&*final(sessions), other), after),
    ensures
        final(sessions).wf(),
        match (before, after) {
            (Some(before), Some(after)) => {
                let moved = ActiveQrLogin {
                    current_api_base_url: if other@ == key@ {
                        api_base_url
                    } else {
                        before.current_api_base_url
                    },
                    ..*before
                };
                same_login(&moved, after)
            },
            (before, after) => before is None && after is None,
        },
{
}

/// A purge takes away the logins whose start lies more than ten minutes back, and
/// leaves all others as they are.
pub proof fn law_purge_takes_the_old_logins(
    sessions: &mut QrSessions,
    now: u64,
    key: &str,
    before: Option<&ActiveQrLogin>,
    after: Option<&ActiveQrLogin>,
)
    requires
        old(sessions).wf(),
        call_ensures(QrSessions::purge_at, (sessions, now), ()),
        call_ensures(QrSessions::get, (&*old(sessions), key), before),
        call_ensures(QrSessions::get, (&*final(sessions), key), after),
    ensures
        final(sessions).wf(),
        only_old_ones_go(before, after, now),
{
}

/// A purge by the clock changes no login that it leaves, and where it leaves one it
/// leaves all that were started at the same time or later.
pub proof fn law_purge_takes_the_oldest_first(
    sessions: &mut QrSessions,
    key: &str,
    before: Option<&ActiveQrLogin>,
    after: Option<&ActiveQrLogin>,
    other: &str,
    other_before: Option<&ActiveQrLogin>,
    other_after: Option<&ActiveQrLogin>,
)
    requires
        old(sessions).wf(),
        call_ensures(purge_expired_qr_sessions, (sessions,), ()),
        call_ensures(QrSessions::get, (&*old(sessions), key), before),
        call_ensures(QrSessions::get, (&*final(sessions), key), after),
        call_ensures(QrSessions::get, (&*old(sessions), other), other_before),
        call_ensures(QrSessions::get, (&*final(sessions), other), other_after),
    ensures
        after is Some ==> same_finding(before, after),
        after is Some && other_before is Some && after->0.started_at_ms
            <= other_before->0.started_at_ms ==> same_finding(other_before, other_after),
{
}

// ---- starting a login ----

/// The answers that hold what was asked for are those of the two hundreds.
pub proof fn law_accepted_statuses(status: u16, answer: bool)
    requires
        call_ensures(is_accepted, (status,), answer),
    ensures
        answer <==> status / 100 == 2,
{
}

/// The directory that a section and a data directory lead to: the one that is
/// configured, as it is written, or `wechat` in the data directory.
pub open spec fn leads_to(
    section: &WeChatConfig,
    data_dir: Option<&PathBuf>,
    directory: PathBuf,
) -> bool {
    match (section.state_dir, data_dir) {
        (Some(configured), _) => directory == path_of(configured@),
        (None, Some(data_dir)) => directory == joined_path(*data_dir, "wechat"@),
        (None, None) => true,
    }
}

/// True of the server that a section names: without white space around it and
/// without slashes at its end, or the public one where none is named.
pub open spec fn names_server(section: &WeChatConfig, server: Seq<char>) -> bool {
    match section.api_base_url {
        Some(url) => server == without_trailing(trimmed(url@), '/'),
        None => server == "https://ilinkai.weixin.qq.com"@,
    }
}

/// True where the server that a section names is reached by https.
pub open spec fn names_secure_server(section: &WeChatConfig) -> bool {
    section.api_base_url matches Some(url) ==> "https://"@.is_prefix_of(
        without_trailing(trimmed(url@), '/'),
    )
}

/// True of what follows from a section before anything else is looked at: `error`
/// where it is missing, switched off or names a server that is not reached by https,
/// and no error otherwise.
pub open spec fn refused_as(
    config: Option<&WeChatConfig>,
    error: Option<WeChatQrLoginError>,
) -> bool {
    match config {
        None => error matches Some(WeChatQrLoginError::NotConfigured),
        Some(section) => if !section.enabled {
            error matches Some(WeChatQrLoginError::Disabled)
        } else if !names_secure_server(section) {
            error matches Some(WeChatQrLoginError::InsecureApiBaseUrl)
        } else {
            error is None
        },
    }
}

proof fn lemma_public_server()
    ensures
        without_trailing(trimmed("https://ilinkai.weixin.qq.com"@), '/')
            == "https://ilinkai.weixin.qq.com"@,
        "https://"@.is_prefix_of("https://ilinkai.weixin.qq.com"@),
{
    reveal_strlit("https://ilinkai.weixin.qq.com");
    reveal_strlit("https://");
}

proof fn lemma_start_url(base: Seq<char>)
    requires
        without_trailing(base, '/') == base,
    ensures
        without_trailing(base, '/') + "/ilink/bot/"@ + "get_bot_qrcode"@ + "?bot_type=3"@ == base
            + "/ilink/bot/get_bot_qrcode?bot_type=3"@,
{
    reveal_strlit("/ilink/bot/");
    reveal_strlit("get_bot_qrcode");
    reveal_strlit("?bot_type=3");
    reveal_strlit("/ilink/bot/get_bot_qrcode?bot_type=3");
    assert("/ilink/bot/"@ + "get_bot_qrcode"@ + "?bot_type=3"@
        =~= "/ilink/bot/get_bot_qrcode?bot_type=3"@);
    assert(base + "/ilink/bot/"@ + "get_bot_qrcode"@ + "?bot_type=3"@ =~= base + ("/ilink/bot/"@
        + "get_bot_qrcode"@ + "?bot_type=3"@));
}

/// True of the request for a code that follows from a section: it goes to the
/// server that the section names, may take fifteen seconds, and is for the
/// directory that the section leads to.
pub open spec fn asks_for_a_code(
    section: &WeChatConfig,
    data_dir: Option<&PathBuf>,
    request: QrStartRequest,
) -> bool {
    &&& leads_to(section, data_dir, request.state_dir)
    &&& names_server(section, request.api_base_url@)
    &&& request.url@ == request.api_base_url@ + "/ilink/bot/get_bot_qrcode?bot_type=3"@
    &&& request.timeout_secs == 15
}

/// A code is asked for exactly where a section is there, is switched on and names a
/// server that is reached by https. Then the logins that are too old are forgotten;
/// they are forgotten too where the server is the only thing amiss.
pub proof fn law_request_for_a_code(
    config: Option<&WeChatConfig>,
    data_dir: Option<&PathBuf>,
    sessions: &mut QrSessions,
    now: u64,
    result: Result<QrStartRequest, WeChatQrLoginError>,
    key: &str,
    before: Option<&ActiveQrLogin>,
    after: Option<&ActiveQrLogin>,
)
    requires
        old(sessions).wf(),
        call_ensures(prepare_qr_login_at, (config, data_dir, sessions, now), result),
        call_ensures(QrSessions::get, (&*old(sessions), key), before),
        call_ensures(QrSessions::get, (&*final(sessions), key), after),
    ensures
        refused_as(config, result.err()),
        result matches Ok(request) ==> asks_for_a_code(config->0, data_dir, request),
        if config is Some && config->0.enabled {
            only_old_ones_go(before, after, now)
        } else {
            same_finding(before, after)
        },
{
    lemma_public_server();
    if let Ok(request) = result {
        let url = match config->0.api_base_url {
            Some(url) => url@,
            None => "https://ilinkai.weixin.qq.com"@,
        };
        lemma_without_trailing(trimmed(url), '/');
        lemma_start_url(request.api_base_url@);
    }
}

/// What is asked for does not hang on the clock.
pub proof fn law_request_for_a_code_now(
    config: Option<&WeChatConfig>,
    data_dir: Option<&PathBuf>,
    sessions: &mut QrSessions,
    result: Result<QrStartRequest, WeChatQrLoginError>,
    key: &str,
    before: Option<&ActiveQrLogin>,
    after: Option<&ActiveQrLogin>,
)
    requires
        old(sessions).wf(),
        call_ensures(prepare_qr_login, (config, data_dir, sessions), result),
        call_ensures(QrSessions::get, (&*old(sessions), key), before),
        call_ensures(QrSessions::get, (&*final(sessions), key), after),
    ensures
        refused_as(config, result.err()),
        result matches Ok(request) ==> asks_for_a_code(config->0, data_dir, request),
        exists|now: u64| #[trigger] only_old_ones_go(before, after, now),
        config is None || !config->0.enabled ==> same_finding(before, after),
{
    lemma_public_server();
    if let Ok(request) = result {
        let url = match config->0.api_base_url {
            Some(url) => url@,
            None => "https://ilinkai.weixin.qq.com"@,
        };
        lemma_without_trailing(trimmed(url), '/');
        lemma_start_url(request.api_base_url@);
    }
    if config is None || !config->0.enabled {
        assert(only_old_ones_go(before, after, 0));
    } else {
        let now = choose|now: u64|
            final(sessions)@ == #[trigger] sessions_on_entry(
                config,
                old(sessions)@,
                now,
            );
        assert(only_old_ones_go(before, after, now));
    }
}

/// A login is kept where the state of the channel is read: the request for its code
/// and the state that is shown name one directory.
pub proof fn law_login_is_kept_where_the_status_looks(
    config: Option<&WeChatConfig>,
    data_dir: Option<&PathBuf>,
    sessions: &mut QrSessions,
    now: u64,
    request: QrStartRequest,
    bindings: Option<&BindingsData>,
    account: Option<&AccountData>,
    status: WeChatBindingStatus,
)
    requires
        old(sessions).wf(),
        call_ensures(
            prepare_qr_login_at,
            (config, data_dir, sessions, now),
            Ok::<QrStartRequest, WeChatQrLoginError>(request),
        ),
        call_ensures(load_wechat_binding_status, (config, data_dir, bindings, account), status),
    ensures
        request.state_dir == status.state_dir,
        config matches Some(section) && leads_to(section, data_dir, status.state_dir),
{
}

/// A code is had from an answer that holds one which is more than white space, and
/// from nothing else. It is the one in the answer.
pub proof fn law_code_is_read(
    reply: QrStartReply,
    result: Result<QrCodeResponse, WeChatQrLoginError>,
)
    requires
        call_ensures(read_start_reply, (reply,), result),
    ensures
        match reply {
            QrStartReply::Unanswered => result matches Err(WeChatQrLoginError::StartRequestFailed),
            QrStartReply::Rejected { status, body } => result matches Err(
                WeChatQrLoginError::StartRejected { status: told, body: words },
            ) && told@ == status@ && words@ == body@,
            QrStartReply::Unreadable => result matches Err(
                WeChatQrLoginError::StartResponseUnreadable,
            ),
            QrStartReply::Answered(code) => if trimmed(code.qrcode@).len() == 0 {
                result matches Err(WeChatQrLoginError::EmptyQrCode)
            } else {
                result matches Ok(read) && read.qrcode@ == code.qrcode@
                    && read.qrcode_img_content@ == code.qrcode_img_content@
            },
        },
{
}

/// True of a login that was started on a code: what is handed out and what is found
/// under its key agree with the code, the request and one another.
pub open spec fn started_on(
    request: QrStartRequest,
    code: QrCodeResponse,
    start: WeChatQrLoginStart,
    login: &ActiveQrLogin,
) -> bool {
    &&& start.state_dir == request.state_dir
    &&& start.qrcode@ == code.qrcode@
    &&& start.qrcode_url@ == code.qrcode_img_content@
    &&& start.status is Wait
    &&& login.state_dir == request.state_dir
    &&& login.qrcode@ == code.qrcode@
    &&& login.qrcode_url@ == code.qrcode_img_content@
    &&& login.current_api_base_url@ == request.api_base_url@
}

/// A login that was opened is found under its key, with the code, the server and the
/// directory that it was opened with and the time of its start; under other keys the
/// same is found as before.
pub proof fn law_opened_login_is_found(
    request: QrStartRequest,
    code: QrCodeResponse,
    session_key: String,
    now: u64,
    sessions: &mut QrSessions,
    start: WeChatQrLoginStart,
    key: &str,
    before: Option<&ActiveQrLogin>,
    after: Option<&ActiveQrLogin>,
)
    requires
        old(sessions).wf(),
        call_ensures(open_qr_session, (request, code, session_key, now, sessions), start),
        call_ensures(QrSessions::get, (&*old(sessions), key), before),
        call_ensures(QrSessions::get, (&*final(sessions), key), after),
    ensures
        start.session_key@ == session_key@,
        if key@ == session_key@ {
            after matches Some(login) && started_on(request, code, start, login)
                && login.started_at_ms == now
        } else {
            same_finding(before, after)
        },
{
}

/// A login is started exactly where a code was handed out that is more than white
/// space. It is found under a new random key; under other keys the same is found as
/// before, and so it is everywhere where no login is started.
pub proof fn law_started_login_is_found(
    request: QrStartRequest,
    reply: QrStartReply,
    sessions: &mut QrSessions,
    result: Result<WeChatQrLoginStart, WeChatQrLoginError>,
    key: &str,
    before: Option<&ActiveQrLogin>,
    after: Option<&ActiveQrLogin>,
)
    requires
        old(sessions).wf(),
        call_ensures(finish_qr_login_start, (request, reply, sessions), result),
        call_ensures(QrSessions::get, (&*old(sessions), key), before),
        call_ensures(QrSessions::get, (&*final(sessions), key), after),
    ensures
        result is Ok <==> reply is Answered && trimmed(reply->Answered_0.qrcode@).len() > 0,
        match result {
            Ok(start) => is_random_uuid(start.session_key@) && if key@ == start.session_key@ {
                after matches Some(login) && started_on(request, reply->Answered_0, start, login)
            } else {
                same_finding(before, after)
            },
            Err(error) => {
                &&& same_finding(before, after)
                &&& match reply {
                    QrStartReply::Unanswered => error is StartRequestFailed,
                    QrStartReply::Rejected { status, body } => {
                        error matches WeChatQrLoginError::StartRejected { status: told, body: words }
                            && told@ == status@ && words@ == body@
                    },
                    QrStartReply::Unreadable => error is StartResponseUnreadable,
                    QrStartReply::Answered(_) => error is EmptyQrCode,
                }
            },
        },
{
}

// ---- waiting for a login ----

/// True of the time that a wait takes: eight minutes where nothing is wished, else
/// what is wished, but a second at least.
pub open spec fn lasts(timeout_ms: Option<u64>, effective: u64) -> bool {
    match timeout_ms {
        None => effective == 480_000,
        Some(wished) => effective >= wished && effective >= 1_000 && (effective == wished
            || effective == 1_000),
    }
}

/// How long is waited.
pub proof fn law_length_of_a_wait(timeout_ms: Option<u64>, effective: u64)
    requires
        call_ensures(effective_wait_timeout, (timeout_ms,), effective),
    ensures
        lasts(timeout_ms, effective),
{
}

/// True of a wait that was begun: for the login and in the mode that were named, for
/// as long as was wished, with the server that the section names.
pub open spec fn waits_for(
    section: &WeChatConfig,
    session_key: &str,
    bind_mode: WeChatQrBindMode,
    timeout_ms: Option<u64>,
    waiter: QrLoginWaiter,
) -> bool {
    &&& waiter.session_key@ == session_key@
    &&& waiter.bind_mode == bind_mode
    &&& lasts(timeout_ms, waiter.timeout_ms)
    &&& names_server(section, waiter.default_base_url@)
}

/// A wait begins exactly where a section is there, is switched on and names a server
/// that is reached by https. Then the logins that are too old are forgotten; they are
/// forgotten too where the server is the only thing amiss.
pub proof fn law_beginning_of_a_wait(
    config: Option<&WeChatConfig>,
    session_key: &str,
    bind_mode: WeChatQrBindMode,
    timeout_ms: Option<u64>,
    sessions: &mut QrSessions,
    now: u64,
    result: Result<QrLoginWaiter, WeChatQrLoginError>,
    key: &str,
    before: Option<&ActiveQrLogin>,
    after: Option<&ActiveQrLogin>,
)
    requires
        old(sessions).wf(),
        call_ensures(
            begin_qr_wait_at,
            (config, session_key, bind_mode, timeout_ms, sessions, now),
            result,
        ),
        call_ensures(QrSessions::get, (&*old(sessions), key), before),
        call_ensures(QrSessions::get, (&*final(sessions), key), after),
    ensures
        refused_as(config, result.err()),
        result matches Ok(waiter) ==> waits_for(
            config->0,
            session_key,
            bind_mode,
            timeout_ms,
            waiter,
        ),
        if config is Some && config->0.enabled {
            only_old_ones_go(before, after, now)
        } else {
            same_finding(before, after)
        },
{
    lemma_public_server();
}

/// What is waited for does not hang on the clock.
pub proof fn law_beginning_of_a_wait_now(
    config: Option<&WeChatConfig>,
    session_key: &str,
    bind_mode: WeChatQrBindMode,
    timeout_ms: Option<u64>,
    sessions: &mut QrSessions,
    result: Result<QrLoginWaiter, WeChatQrLoginError>,
    key: &str,
    before: Option<&ActiveQrLogin>,
    after: Option<&ActiveQrLogin>,
)
    requires
        old(sessions).wf(),
        call_ensures(
            begin_qr_wait,
            (config, session_key, bind_mode, timeout_ms, sessions),
            result,
        ),
        call_ensures(QrSessions::get, (&*old(sessions), key), before),
        call_ensures(QrSessions::get, (&*final(sessions), key), after),
    ensures
        refused_as(config, result.err()),
        result matches Ok(waiter) ==> waits_for(
            config->0,
            session_key,
            bind_mode,
            timeout_ms,
            waiter,
        ),
        exists|now: u64| #[trigger] only_old_ones_go(before, after, now),
        config is None || !config->0.enabled ==> same_finding(before, after),
{
    lemma_public_server();
    if config is None || !config->0.enabled {
        assert(only_old_ones_go(before, after, 0));
    } else {
        let now = choose|now: u64|
            final(sessions)@ == #[trigger] sessions_on_entry(config, old(sessions)@, now);
        assert(only_old_ones_go(before, after, now));
    }
}

/// True of the end of a wait that brought no account: it says which login was waited
/// for, and how, and nothing of an account.
pub open spec fn ended_without_account(
    waiter: &QrLoginWaiter,
    login: &ActiveQrLogin,
    wait: WeChatQrLoginWait,
) -> bool {
    &&& !wait.connected
    &&& wait.session_key@ == waiter.session_key@
    &&& wait.bind_mode == waiter.bind_mode
    &&& wait.state_dir == login.state_dir
    &&& wait.qrcode_url matches Some(url) && url@ == login.qrcode_url@
    &&& wait.account_id is None
    &&& wait.user_id is None
    &&& wait.base_url is None
}

/// True of a question about a login: it goes to the login's server and names the
/// login's code. The server may take 35 seconds, and the question 40 in all.
pub open spec fn asks_about(login: &ActiveQrLogin, request: QrStatusRequest) -> bool {
    &&& same_login(login, &request.session)
    &&& request.url@ == without_trailing(login.current_api_base_url@, '/')
        + "/ilink/bot/get_qrcode_status?qrcode="@ + percent_encoded(encode_utf8(login.qrcode@))
    &&& request.timeout_secs == 35
    &&& request.guard_secs == 40
}

proof fn lemma_status_url(base: Seq<char>, code: Seq<char>)
    ensures
        base + "/ilink/bot/"@ + "get_qrcode_status"@ + "?qrcode="@ + code == base
            + "/ilink/bot/get_qrcode_status?qrcode="@ + code,
{
    reveal_strlit("/ilink/bot/");
    reveal_strlit("get_qrcode_status");
    reveal_strlit("?qrcode=");
    reveal_strlit("/ilink/bot/get_qrcode_status?qrcode=");
    assert("/ilink/bot/"@ + "get_qrcode_status"@ + "?qrcode="@
        =~= "/ilink/bot/get_qrcode_status?qrcode="@);
    assert(base + "/ilink/bot/"@ + "get_qrcode_status"@ + "?qrcode="@ =~= base + ("/ilink/bot/"@
        + "get_qrcode_status"@ + "?qrcode="@));
}

/// A round fails where the login is not known. It ends the wait as expired, and the
/// login is forgotten, where more than ten minutes have passed since its start; else
/// it ends the wait as timed out where the time is up; else the server is asked. But
/// for a login that expires, the same is found under every key as before.
pub proof fn law_round_of_a_wait(
    waiter: &QrLoginWaiter,
    sessions: &mut QrSessions,
    now: u64,
    elapsed_ms: u64,
    result: Result<QrPollStep, WeChatQrLoginError>,
    own_key: &str,
    waited_for: Option<&ActiveQrLogin>,
    key: &str,
    before: Option<&ActiveQrLogin>,
    after: Option<&ActiveQrLogin>,
)
    requires
        old(sessions).wf(),
        call_ensures(poll_qr_login_at, (waiter, sessions, now, elapsed_ms), result),
        own_key@ == waiter.session_key@,
        call_ensures(QrSessions::get, (&*old(sessions), own_key), waited_for),
        call_ensures(QrSessions::get, (&*old(sessions), key), before),
        call_ensures(QrSessions::get, (&*final(sessions), key), after),
    ensures
        match waited_for {
            None => {
                &&& result matches Err(WeChatQrLoginError::SessionNotFound { session_key })
                &&& session_key@ == waiter.session_key@
                &&& same_finding(before, after)
            },
            Some(login) => if now > login.started_at_ms + 600_000 {
                &&& result matches Ok(QrPollStep::Finished(wait))
                &&& wait.status is Expired
                &&& ended_without_account(waiter, login, wait)
                &&& if key@ == waiter.session_key@ {
                    after is None
                } else {
                    same_finding(before, after)
                }
            } else if elapsed_ms >= waiter.timeout_ms {
                &&& result matches Ok(QrPollStep::Finished(wait))
                &&& wait.status is TimedOut
                &&& ended_without_account(waiter, login, wait)
                &&& same_finding(before, after)
            } else {
                &&& result matches Ok(QrPollStep::Ask(request))
                &&& asks_about(login, request)
                &&& same_finding(before, after)
            },
        },
{
    if let Some(login) = waited_for {
        lemma_status_url(
            without_trailing(login.current_api_base_url@, '/'),
            percent_encoded(encode_utf8(login.qrcode@)),
        );
    }
}

/// By the clock, too, a round fails exactly where the login is not known, asks about
/// it only while there is time, and changes nothing but to forget it once it has
/// expired.
pub proof fn law_round_of_a_wait_now(
    waiter: &QrLoginWaiter,
    sessions: &mut QrSessions,
    elapsed_ms: u64,
    result: Result<QrPollStep, WeChatQrLoginError>,
    own_key: &str,
    waited_for: Option<&ActiveQrLogin>,
    key: &str,
    before: Option<&ActiveQrLogin>,
    after: Option<&ActiveQrLogin>,
)
    requires
        old(sessions).wf(),
        call_ensures(poll_qr_login, (waiter, sessions, elapsed_ms), result),
        own_key@ == waiter.session_key@,
        call_ensures(QrSessions::get, (&*old(sessions), own_key), waited_for),
        call_ensures(QrSessions::get, (&*old(sessions), key), before),
        call_ensures(QrSessions::get, (&*final(sessions), key), after),
    ensures
        result is Err <==> waited_for is None,
        match result {
            Err(error) => {
                &&& error matches WeChatQrLoginError::SessionNotFound { session_key }
                &&& session_key@ == waiter.session_key@
                &&& same_finding(before, after)
            },
            Ok(QrPollStep::Ask(request)) => {
                &&& elapsed_ms < waiter.timeout_ms
                &&& asks_about(waited_for->0, request)
                &&& same_finding(before, after)
            },
            Ok(QrPollStep::Finished(wait)) => {
                &&& ended_without_account(waiter, waited_for->0, wait)
                &&& wait.status is Expired || wait.status is TimedOut
                &&& wait.status is TimedOut ==> elapsed_ms >= waiter.timeout_ms && same_finding(
                    before,
                    after,
                )
                &&& wait.status is Expired ==> if key@ == waiter.session_key@ {
                    after is None
                } else {
                    same_finding(before, after)
                }
            },
        },
{
    if let Some(login) = waited_for {
        lemma_status_url(
            without_trailing(login.current_api_base_url@, '/'),
            percent_encoded(encode_utf8(login.qrcode@)),
        );
    }
}

/// A login that was opened is asked about, at the server and with the code that it
/// was opened with, from its start until ten minutes later, for as long as the wait
/// was begun for: eight minutes where nothing else was wished. After ten minutes the
/// wait ends as expired.
pub proof fn law_opened_login_is_waited_for(
    request: QrStartRequest,
    code: QrCodeResponse,
    session_key: String,
    started: u64,
    opening: &mut QrSessions,
    start: WeChatQrLoginStart,
    config: Option<&WeChatConfig>,
    own_key: &str,
    bind_mode: WeChatQrBindMode,
    timeout_ms: Option<u64>,
    beginning: &mut QrSessions,
    begun: u64,
    waiter: QrLoginWaiter,
    polling: &mut QrSessions,
    now: u64,
    elapsed_ms: u64,
    result: Result<QrPollStep, WeChatQrLoginError>,
)
    requires
        old(opening).wf(),
        call_ensures(open_qr_session, (request, code, session_key, started, opening), start),
        *old(beginning) == *final(opening),
        own_key@ == start.session_key@,
        call_ensures(
            begin_qr_wait_at,
            (config, own_key, bind_mode, timeout_ms, beginning, begun),
            Ok::<QrLoginWaiter, WeChatQrLoginError>(waiter),
        ),
        begun <= started + 600_000,
        *old(polling) == *final(beginning),
        call_ensures(poll_qr_login_at, (&waiter, polling, now, elapsed_ms), result),
    ensures
        if now > started + 600_000 {
            &&& result matches Ok(QrPollStep::Finished(wait))
            &&& wait.status is Expired
        } else if match timeout_ms {
            None => elapsed_ms < 480_000,
            Some(wished) => elapsed_ms < wished || elapsed_ms < 1_000,
        } {
            &&& result matches Ok(QrPollStep::Ask(question))
            &&& question.session.qrcode@ == code.qrcode@
            &&& question.session.current_api_base_url@ == request.api_base_url@
            &&& question.session.state_dir == request.state_dir
            &&& question.session.started_at_ms == started
        } else {
            &&& result matches Ok(QrPollStep::Finished(wait))
            &&& wait.status is TimedOut
        },
{
}

/// The words of the server for the state of a login.
pub proof fn law_words_for_a_state(word: &str, status: Option<WeChatQrLoginStatus>)
    requires
        call_ensures(parse_reported_status, (word,), status),
    ensures
        status == Some(WeChatQrLoginStatus::Wait) <==> word@.len() == 0 || word@ == "wait"@,
        status == Some(WeChatQrLoginStatus::Scaned) <==> word@ == "scaned"@,
        status == Some(WeChatQrLoginStatus::ScanedButRedirect) <==> word@
            == "scaned_but_redirect"@,
        status == Some(WeChatQrLoginStatus::Expired) <==> word@ == "expired"@,
        status == Some(WeChatQrLoginStatus::Confirmed) <==> word@ == "confirmed"@,
        status != Some(WeChatQrLoginStatus::TimedOut),
{
    lemma_words_differ();
    assert(word@.len() == 0 ==> word@ =~= ""@);
}

proof fn lemma_words_differ()
    ensures
        ""@.len() == 0,
        "wait"@.len() == 4,
        "scaned"@.len() == 6,
        "scaned_but_redirect"@.len() == 19,
        "expired"@.len() == 7,
        "confirmed"@.len() == 9,
{
    reveal_strlit("");
    reveal_strlit("wait");
    reveal_strlit("scaned");
    reveal_strlit("scaned_but_redirect");
    reveal_strlit("expired");
    reveal_strlit("confirmed");
}

/// True of a text that is there and holds more than white space.
pub open spec fn is_named(value: Option<String>) -> bool {
    value matches Some(value) && trimmed(value@).len() > 0
}

/// True of what is kept of a confirmed login: the token and the account of the
/// answer as they are, the user without white space around it, and the server that
/// the answer names as it is, or the configured one where it names none.
pub open spec fn keeps_what_was_told(
    waiter: &QrLoginWaiter,
    login: &ActiveQrLogin,
    response: QrStatusResponse,
    confirmation: QrConfirmation,
) -> bool {
    &&& same_login(login, &confirmation.session)
    &&& response.bot_token matches Some(token) && confirmation.token@ == token@
    &&& response.ilink_bot_id matches Some(account) && confirmation.account_id@ == account@
    &&& confirmation.user_id is Some <==> is_named(response.ilink_user_id)
    &&& confirmation.user_id matches Some(user) ==> user@ == trimmed(response.ilink_user_id->0@)
    &&& confirmation.base_url matches Some(server) && server@ == if is_named(response.baseurl) {
        response.baseurl->0@
    } else {
        waiter.default_base_url@
    }
}

/// A confirmed login is read exactly where the answer names a token and an account;
/// a token that is missing comes to light first.
pub proof fn law_confirmation_is_read(
    waiter: &QrLoginWaiter,
    login: ActiveQrLogin,
    response: QrStatusResponse,
    result: Result<QrConfirmation, WeChatQrLoginError>,
)
    requires
        call_ensures(read_confirmation, (waiter, login, response), result),
    ensures
        if !is_named(response.bot_token) {
            result matches Err(WeChatQrLoginError::MissingBotToken)
        } else if !is_named(response.ilink_bot_id) {
            result matches Err(WeChatQrLoginError::MissingBotId)
        } else {
            result matches Ok(confirmation) && keeps_what_was_told(
                waiter,
                &login,
                response,
                confirmation,
            )
        },
{
}

/// What follows from an answer. No answer, a state that is not final and a word that
/// nobody knows lead to another round after a second. A login that the server calls
/// expired is forgotten and ends the wait; a confirmed one stays until it is written
/// to disk; one that is redirected has its server at the host that was named, by
/// https. Whatever fails leaves everything as it was.
pub proof fn law_answer_in_a_wait(
    waiter: &QrLoginWaiter,
    login: ActiveQrLogin,
    answer: QrStatusReply,
    sessions: &mut QrSessions,
    result: Result<QrReplyStep, WeChatQrLoginError>,
    key: &str,
    before: Option<&ActiveQrLogin>,
    after: Option<&ActiveQrLogin>,
)
    requires
        old(sessions).wf(),
        call_ensures(on_status_reply, (waiter, login, answer, sessions), result),
        call_ensures(QrSessions::get, (&*old(sessions), key), before),
        call_ensures(QrSessions::get, (&*final(sessions), key), after),
    ensures
        final(sessions).wf(),
        key@ != waiter.session_key@ ==> same_finding(before, after),
        match answer {
            QrStatusReply::Unanswered => {
                &&& result matches Ok(QrReplyStep::AskAgain { delay_secs: 1 })
                &&& same_finding(before, after)
            },
            QrStatusReply::Rejected { status, body } => {
                &&& result matches Err(
                    WeChatQrLoginError::WaitRejected { status: told, body: words },
                )
                &&& told@ == status@ && words@ == body@
                &&& same_finding(before, after)
            },
            QrStatusReply::Unreadable => {
                &&& result matches Err(WeChatQrLoginError::WaitResponseUnreadable)
                &&& same_finding(before, after)
            },
            QrStatusReply::Answered(response) => if response.status@ == "confirmed"@ {
                &&& same_finding(before, after)
                &&& if !is_named(response.bot_token) {
                    result matches Err(WeChatQrLoginError::MissingBotToken)
                } else if !is_named(response.ilink_bot_id) {
                    result matches Err(WeChatQrLoginError::MissingBotId)
                } else {
                    result matches Ok(QrReplyStep::Persist(confirmation)) && keeps_what_was_told(
                        waiter,
                        &login,
                        response,
                        confirmation,
                    )
                }
            } else if response.status@ == "expired"@ {
                &&& result matches Ok(QrReplyStep::Finished(wait))
                &&& wait.status is Expired
                &&& ended_without_account(waiter, &login, wait)
                &&& key@ == waiter.session_key@ ==> after is None
            } else if response.status@ == "scaned_but_redirect"@ && is_named(
                response.redirect_host,
            ) {
                &&& result matches Ok(QrReplyStep::AskAgain { delay_secs: 1 })
                &&& match (before, after) {
                    (Some(before), Some(after)) => {
                        &&& key@ == waiter.session_key@ ==> after.current_api_base_url@
                            == "https://"@ + trimmed(response.redirect_host->0@)
                        &&& after.state_dir == before.state_dir
                        &&& after.qrcode@ == before.qrcode@
                        &&& after.qrcode_url@ == before.qrcode_url@
                        &&& after.started_at_ms == before.started_at_ms
                    },
                    (before, after) => before is None && after is None,
                }
            } else {
                &&& result matches Ok(QrReplyStep::AskAgain { delay_secs: 1 })
                &&& same_finding(before, after)
            },
        },
{
    lemma_words_differ();
}

// ---- the end of a confirmed login ----

/// The account that a confirmed login leaves is the one that the server told of, and
/// so is the end of its wait. The login is forgotten, and no other.
pub proof fn law_confirmed_login_is_kept_as_told(
    waiter: &QrLoginWaiter,
    login: ActiveQrLogin,
    response: QrStatusResponse,
    confirmation: QrConfirmation,
    account: AccountData,
    sessions: &mut QrSessions,
    wait: WeChatQrLoginWait,
    key: &str,
    before: Option<&ActiveQrLogin>,
    after: Option<&ActiveQrLogin>,
)
    requires
        old(sessions).wf(),
        call_ensures(
            read_confirmation,
            (waiter, login, response),
            Ok::<QrConfirmation, WeChatQrLoginError>(confirmation),
        ),
        call_ensures(confirmed_account, (&confirmation,), account),
        call_ensures(finish_confirmed_login, (waiter, confirmation, sessions), wait),
        call_ensures(QrSessions::get, (&*old(sessions), key), before),
        call_ensures(QrSessions::get, (&*final(sessions), key), after),
    ensures
        account.token matches Some(token) && token@ == response.bot_token->0@,
        account.account_id matches Some(id) && id@ == response.ilink_bot_id->0@,
        account.user_id is Some <==> is_named(response.ilink_user_id),
        account.user_id matches Some(user) ==> user@ == trimmed(response.ilink_user_id->0@),
        account.base_url matches Some(server) && server@ == if is_named(response.baseurl) {
            response.baseurl->0@
        } else {
            waiter.default_base_url@
        },
        account.saved_at matches Some(saved_at) && is_rfc3339_utc(saved_at@),
        wait.connected,
        wait.status is Confirmed,
        wait.session_key@ == waiter.session_key@,
        wait.bind_mode == waiter.bind_mode,
        wait.state_dir == login.state_dir,
        wait.qrcode_url matches Some(url) && url@ == login.qrcode_url@,
        wait.account_id matches Some(id) && id@ == response.ilink_bot_id->0@,
        wait.user_id is Some <==> is_named(response.ilink_user_id),
        wait.user_id matches Some(user) ==> user@ == trimmed(response.ilink_user_id->0@),
        wait.base_url matches Some(server) && server@ == if is_named(response.baseurl) {
            response.baseurl->0@
        } else {
            waiter.default_base_url@
        },
        if key@ == waiter.session_key@ {
            after is None
        } else {
            same_finding(before, after)
        },
{
}

/// A confirmed login leaves bindings exactly where it names a user: in mode `Append`
/// those that were kept and the user after them, unless it is one of them, and in
/// mode `Replace` the user alone.
pub proof fn law_confirmed_login_binds_its_user(
    waiter: &QrLoginWaiter,
    confirmation: &QrConfirmation,
    before: Option<&BindingsData>,
    kept: Vec<String>,
    bindings: Option<BindingsData>,
)
    requires
        call_ensures(load_persisted_bound_users, (before,), kept),
        call_ensures(confirmed_bindings, (waiter, confirmation, before), bindings),
    ensures
        match (confirmation.user_id, bindings) {
            (Some(user), Some(bindings)) => binds(
                waiter.bind_mode,
                kept@,
                user@,
                bindings.bound_users@,
            ),
            (user, bindings) => user is None && bindings is None,
        },
{
    if let (Some(user), Some(bindings)) = (confirmation.user_id, bindings) {
        lemma_binds(waiter.bind_mode, kept@, user@, bindings.bound_users@);
    }
}

} // verus!
