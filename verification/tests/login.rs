use std::path::PathBuf;

use wechat_binding::account::AccountData;
use wechat_binding::bound_users::{BindingsData, WeChatQrBindMode};
use wechat_binding::config::WeChatConfig;
use wechat_binding::errors::WeChatQrLoginError;
use wechat_binding::login::{
    finish_qr_login_start, is_accepted, open_qr_session, prepare_qr_login, prepare_qr_login_at,
    QrCodeResponse, QrStartReply, WeChatQrLoginStart, WeChatQrLoginStatus,
};
use wechat_binding::outside::epoch_ms;
use wechat_binding::sessions::{purge_expired_qr_sessions, ActiveQrLogin, QrSessions};
use wechat_binding::status::{load_wechat_binding_status, WeChatBindingMode};
use wechat_binding::wait::{
    begin_qr_wait, begin_qr_wait_at, confirmed_account, confirmed_bindings, effective_wait_timeout,
    finish_confirmed_login, on_status_reply, parse_reported_status, poll_qr_login,
    poll_qr_login_at, QrLoginWaiter, QrPollStep, QrReplyStep, QrStatusReply, QrStatusRequest,
    QrStatusResponse, WeChatQrLoginWait,
};

const SERVER: &str = "https://127.0.0.1:8443";

fn section() -> WeChatConfig {
    WeChatConfig {
        enabled: true,
        allowed_users: Vec::new(),
        api_base_url: Some(SERVER.to_string()),
        cdn_base_url: None,
        state_dir: Some("wechat-state".to_string()),
    }
}

fn code(qrcode: &str, url: &str) -> QrStartReply {
    QrStartReply::Answered(QrCodeResponse {
        qrcode: qrcode.to_string(),
        qrcode_img_content: url.to_string(),
    })
}

fn response(status: &str) -> QrStatusResponse {
    QrStatusResponse {
        status: status.to_string(),
        bot_token: None,
        ilink_bot_id: None,
        ilink_user_id: None,
        baseurl: None,
        redirect_host: None,
    }
}

fn confirmed(token: &str, account: &str, user: &str) -> QrStatusResponse {
    QrStatusResponse {
        bot_token: Some(token.to_string()),
        ilink_bot_id: Some(account.to_string()),
        ilink_user_id: Some(user.to_string()),
        baseurl: Some(SERVER.to_string()),
        ..response("confirmed")
    }
}

fn start(sessions: &mut QrSessions, qrcode: &str, url: &str) -> WeChatQrLoginStart {
    let request = prepare_qr_login(Some(&section()), None, sessions).unwrap();
    finish_qr_login_start(request, code(qrcode, url), sessions).unwrap()
}

fn asked(step: QrPollStep) -> QrStatusRequest {
    match step {
        QrPollStep::Ask(request) => request,
        QrPollStep::Finished(wait) => panic!("the wait is over: {wait:?}"),
    }
}

fn ended(step: QrPollStep) -> WeChatQrLoginWait {
    match step {
        QrPollStep::Finished(wait) => wait,
        QrPollStep::Ask(request) => panic!("the wait goes on: {request:?}"),
    }
}

/// A session under `key` that was opened at `started`.
fn opened(sessions: &mut QrSessions, key: &str, qrcode: &str, started: u64) {
    let request = prepare_qr_login_at(Some(&section()), None, sessions, started).unwrap();
    let payload = QrCodeResponse {
        qrcode: qrcode.to_string(),
        qrcode_img_content: "https://example.com/qr.png".to_string(),
    };
    open_qr_session(request, payload, key.to_string(), started, sessions);
}

fn waiter(sessions: &mut QrSessions, key: &str, now: u64) -> QrLoginWaiter {
    begin_qr_wait_at(
        Some(&section()),
        key,
        WeChatQrBindMode::Append,
        Some(2_000),
        sessions,
        now,
    )
    .unwrap()
}

fn answer(
    waiter: &QrLoginWaiter,
    sessions: &mut QrSessions,
    now: u64,
    reply: QrStatusReply,
) -> Result<QrReplyStep, WeChatQrLoginError> {
    let request = asked(poll_qr_login_at(waiter, sessions, now, 0).unwrap());
    on_status_reply(waiter, request.session, reply, sessions)
}

/// Runs a login whose first question is answered with `response`, as far as what is
/// written to disk.
fn run_confirmed(
    response: QrStatusResponse,
    qrcode: &str,
    qrcode_url: &str,
    bind_mode: WeChatQrBindMode,
    before: &BindingsData,
) -> (WeChatQrLoginWait, BindingsData, AccountData) {
    let mut sessions = QrSessions::new();
    let start = start(&mut sessions, qrcode, qrcode_url);
    let waiter = begin_qr_wait(
        Some(&section()),
        &start.session_key,
        bind_mode,
        Some(2_000),
        &mut sessions,
    )
    .unwrap();
    let request = asked(poll_qr_login(&waiter, &mut sessions, 0).unwrap());
    let step = on_status_reply(
        &waiter,
        request.session,
        QrStatusReply::Answered(response),
        &mut sessions,
    )
    .unwrap();
    let confirmation = match step {
        QrReplyStep::Persist(confirmation) => confirmation,
        other => panic!("the login was not confirmed: {other:?}"),
    };
    let account = confirmed_account(&confirmation);
    let bindings = confirmed_bindings(&waiter, &confirmation, Some(before)).unwrap();
    let wait = finish_confirmed_login(&waiter, confirmation, &mut sessions);
    assert!(sessions.get(&start.session_key).is_none());
    (wait, bindings, account)
}

fn bindings(users: &[&str]) -> BindingsData {
    BindingsData {
        bound_users: users.iter().map(|user| user.to_string()).collect(),
    }
}

#[test]
fn qr_login_start_returns_qrcode_url() {
    let mut sessions = QrSessions::new();
    let request = prepare_qr_login(Some(&section()), None, &mut sessions).unwrap();
    assert_eq!(
        request.url,
        "https://127.0.0.1:8443/ilink/bot/get_bot_qrcode?bot_type=3"
    );
    assert_eq!(request.timeout_secs, 15);
    let result = finish_qr_login_start(
        request,
        code("qr-token-123", "https://example.com/qr.png"),
        &mut sessions,
    )
    .unwrap();

    assert_eq!(result.state_dir, PathBuf::from("wechat-state"));
    assert_eq!(result.status, WeChatQrLoginStatus::Wait);
    assert_eq!(result.qrcode, "qr-token-123");
    assert_eq!(result.qrcode_url, "https://example.com/qr.png");
    assert!(!result.session_key.is_empty());
}

#[test]
fn qr_login_wait_confirmed_appends_bound_user() {
    let (result, bindings, account) = run_confirmed(
        confirmed("bot-token-1", "bot-account-1", "new-user@im.wechat"),
        "qr-token-abc",
        "https://example.com/qr-abc.png",
        WeChatQrBindMode::Append,
        &bindings(&["old-user@im.wechat"]),
    );

    assert!(result.connected);
    assert_eq!(result.status, WeChatQrLoginStatus::Confirmed);
    assert_eq!(result.account_id.as_deref(), Some("bot-account-1"));
    assert_eq!(result.user_id.as_deref(), Some("new-user@im.wechat"));
    assert_eq!(result.qrcode_url.as_deref(), Some("https://example.com/qr-abc.png"));

    assert_eq!(
        bindings.bound_users,
        vec!["old-user@im.wechat".to_string(), "new-user@im.wechat".to_string()]
    );
    assert_eq!(account.token.as_deref(), Some("bot-token-1"));
    assert_eq!(account.account_id.as_deref(), Some("bot-account-1"));
}

#[test]
fn qr_login_wait_confirmed_replaces_dynamic_bound_users() {
    let (result, bindings, _account) = run_confirmed(
        confirmed("bot-token-2", "bot-account-2", "only-user@im.wechat"),
        "qr-token-replace",
        "https://example.com/qr-replace.png",
        WeChatQrBindMode::Replace,
        &bindings(&["old-user@im.wechat", "another-old@im.wechat"]),
    );

    assert!(result.connected);
    assert_eq!(result.status, WeChatQrLoginStatus::Confirmed);
    assert_eq!(result.qrcode_url.as_deref(), Some("https://example.com/qr-replace.png"));
    assert_eq!(bindings.bound_users, vec!["only-user@im.wechat".to_string()]);
}

#[test]
fn confirmed_login_is_shown() {
    let (_wait, bindings, account) = run_confirmed(
        confirmed("t", "a", " u "),
        "q",
        "https://example.com/qr.png",
        WeChatQrBindMode::Append,
        &bindings(&["v"]),
    );
    let status =
        load_wechat_binding_status(Some(&section()), None, Some(&bindings), Some(&account));
    assert!(status.bot_logged_in);
    assert_eq!(status.bound_users, vec!["v".to_string(), "u".to_string()]);
    assert_eq!(status.binding_mode, WeChatBindingMode::BoundUsers);
}

#[test]
fn confirmed_login_comes_after_the_users_shown_before() {
    let cases: [(WeChatQrBindMode, &[&str], &str, &[&str]); 6] = [
        (WeChatQrBindMode::Append, &[], "u", &["v", "w", "u"]),
        (WeChatQrBindMode::Append, &[], "v", &["v", "w"]),
        (WeChatQrBindMode::Append, &["c", "w"], "u", &["c", "w", "v", "u"]),
        (WeChatQrBindMode::Replace, &[], "u", &["u"]),
        (WeChatQrBindMode::Replace, &["c", "*"], "u", &["c", "u"]),
        (WeChatQrBindMode::Replace, &["u", "c"], "u", &["u", "c"]),
    ];
    for (mode, allowed, user, shown) in cases {
        let (_wait, bindings, account) = run_confirmed(
            confirmed("t", "a", user),
            "q",
            "https://example.com/qr.png",
            mode,
            &bindings(&["v", "w"]),
        );
        let mut config = section();
        config.allowed_users = allowed.iter().map(|user| user.to_string()).collect();
        let status =
            load_wechat_binding_status(Some(&config), None, Some(&bindings), Some(&account));
        assert_eq!(status.bound_users, shown);
    }
}

#[test]
fn session_keys_are_random_uuids() {
    let mut sessions = QrSessions::new();
    let first = start(&mut sessions, "q", "u").session_key;
    let second = start(&mut sessions, "q", "u").session_key;
    assert_ne!(first, second);
    for key in [&first, &second] {
        let parsed = uuid::Uuid::parse_str(key).unwrap();
        assert_eq!(parsed.get_version_num(), 4);
        assert_eq!(&parsed.to_string(), key);
        assert!(sessions.get(key).is_some());
    }
}

#[test]
fn saved_at_is_the_present_time() {
    let before = chrono::Utc::now();
    let (_wait, _bindings, account) = run_confirmed(
        confirmed("t", "a", "u"),
        "q",
        "https://example.com/qr.png",
        WeChatQrBindMode::Append,
        &bindings(&[]),
    );
    let written = account.saved_at.unwrap();
    assert!(written.ends_with("+00:00"));
    let saved_at = chrono::DateTime::parse_from_rfc3339(&written).unwrap();
    assert!(saved_at >= before && saved_at <= chrono::Utc::now());
}

#[test]
fn sessions_are_opened_at_the_present_time() {
    let now = || {
        std::time::SystemTime::UNIX_EPOCH
            .elapsed()
            .unwrap()
            .as_millis() as u64
    };
    let before = now();
    let mut sessions = QrSessions::new();
    let key = start(&mut sessions, "q", "u").session_key;
    let opened = sessions.get(&key).unwrap().started_at_ms;
    assert!(before <= opened && opened <= now());
}

#[test]
fn clock_readings_are_narrowed() {
    assert_eq!(epoch_ms(None), 0);
    assert_eq!(epoch_ms(Some(1_700_000_000_123)), 1_700_000_000_123);
    assert_eq!(epoch_ms(Some(u64::MAX as u128 + 5)), 4);
}

#[test]
fn start_fails_without_a_usable_configuration() {
    let mut sessions = QrSessions::new();
    opened(&mut sessions, "old", "q", 0);
    assert_eq!(
        prepare_qr_login_at(None, None, &mut sessions, 600_001).unwrap_err(),
        WeChatQrLoginError::NotConfigured
    );
    let mut off = section();
    off.enabled = false;
    assert_eq!(
        prepare_qr_login_at(Some(&off), None, &mut sessions, 600_001).unwrap_err(),
        WeChatQrLoginError::Disabled
    );
    assert!(sessions.get("old").is_some());
    let mut plain = section();
    plain.api_base_url = Some("http://127.0.0.1:8080".to_string());
    assert_eq!(
        prepare_qr_login_at(Some(&plain), None, &mut sessions, 600_001).unwrap_err(),
        WeChatQrLoginError::InsecureApiBaseUrl
    );
    assert!(sessions.get("old").is_none());
}

#[test]
fn start_fails_without_a_code() {
    let mut sessions = QrSessions::new();
    let cases = vec![
        (QrStartReply::Unanswered, WeChatQrLoginError::StartRequestFailed),
        (
            QrStartReply::Rejected {
                status: "503 Service Unavailable".to_string(),
                body: "later".to_string(),
            },
            WeChatQrLoginError::StartRejected {
                status: "503 Service Unavailable".to_string(),
                body: "later".to_string(),
            },
        ),
        (QrStartReply::Unreadable, WeChatQrLoginError::StartResponseUnreadable),
        (code(" \t", "u"), WeChatQrLoginError::EmptyQrCode),
    ];
    for (reply, error) in cases {
        let request = prepare_qr_login(Some(&section()), None, &mut sessions).unwrap();
        assert_eq!(
            finish_qr_login_start(request, reply, &mut sessions).unwrap_err(),
            error
        );
    }
}

#[test]
fn wait_fails_without_a_usable_configuration() {
    let mut sessions = QrSessions::new();
    let mode = WeChatQrBindMode::Append;
    assert_eq!(
        begin_qr_wait(None, "k", mode, None, &mut sessions).unwrap_err(),
        WeChatQrLoginError::NotConfigured
    );
    let mut off = section();
    off.enabled = false;
    assert_eq!(
        begin_qr_wait(Some(&off), "k", mode, None, &mut sessions).unwrap_err(),
        WeChatQrLoginError::Disabled
    );
    let mut plain = section();
    plain.api_base_url = Some("http://x".to_string());
    assert_eq!(
        begin_qr_wait(Some(&plain), "k", mode, None, &mut sessions).unwrap_err(),
        WeChatQrLoginError::InsecureApiBaseUrl
    );
}

#[test]
fn timeout_has_a_default_and_a_minimum() {
    assert_eq!(effective_wait_timeout(None), 480_000);
    assert_eq!(effective_wait_timeout(Some(0)), 1_000);
    assert_eq!(effective_wait_timeout(Some(999)), 1_000);
    assert_eq!(effective_wait_timeout(Some(1_001)), 1_001);
    assert_eq!(effective_wait_timeout(Some(u64::MAX)), u64::MAX);
}

#[test]
fn question_names_the_encoded_code() {
    let mut sessions = QrSessions::new();
    opened(&mut sessions, "k", "a b/\u{e9}&c=1~", 10);
    let waiter = waiter(&mut sessions, "k", 10);
    let request = asked(poll_qr_login_at(&waiter, &mut sessions, 10, 0).unwrap());
    assert_eq!(
        request.url,
        "https://127.0.0.1:8443/ilink/bot/get_qrcode_status?qrcode=a%20b%2F%C3%A9%26c%3D1~"
    );
    assert_eq!(request.timeout_secs, 35);
    assert_eq!(request.guard_secs, 40);
    assert_eq!(request.session.qrcode, "a b/\u{e9}&c=1~");
}

#[test]
fn unknown_session_is_not_found() {
    let mut sessions = QrSessions::new();
    let waiter = waiter(&mut sessions, "nobody", 0);
    assert_eq!(
        poll_qr_login(&waiter, &mut sessions, 0).unwrap_err(),
        WeChatQrLoginError::SessionNotFound {
            session_key: "nobody".to_string()
        }
    );
}

#[test]
fn old_session_expires_and_is_forgotten() {
    let mut sessions = QrSessions::new();
    opened(&mut sessions, "k", "q", 1_000);
    opened(&mut sessions, "other", "q", 500_000);
    let waiter = waiter(&mut sessions, "k", 1_000);
    asked(poll_qr_login_at(&waiter, &mut sessions, 601_000, 0).unwrap());
    let wait = ended(poll_qr_login_at(&waiter, &mut sessions, 601_001, 0).unwrap());
    assert!(!wait.connected);
    assert_eq!(wait.status, WeChatQrLoginStatus::Expired);
    assert_eq!(wait.session_key, "k");
    assert_eq!(wait.state_dir, PathBuf::from("wechat-state"));
    assert_eq!(wait.qrcode_url.as_deref(), Some("https://example.com/qr.png"));
    assert_eq!(wait.account_id, None);
    assert_eq!(wait.user_id, None);
    assert_eq!(wait.base_url, None);
    assert!(sessions.get("k").is_none());
    assert!(sessions.get("other").is_some());
    assert!(poll_qr_login_at(&waiter, &mut sessions, 601_001, 0).is_err());
}

#[test]
fn wait_times_out_and_can_be_resumed() {
    let mut sessions = QrSessions::new();
    opened(&mut sessions, "k", "q", 0);
    let waiter = waiter(&mut sessions, "k", 0);
    asked(poll_qr_login_at(&waiter, &mut sessions, 5, 1_999).unwrap());
    let wait = ended(poll_qr_login_at(&waiter, &mut sessions, 5, 2_000).unwrap());
    assert_eq!(wait.status, WeChatQrLoginStatus::TimedOut);
    assert!(!wait.connected);
    asked(poll_qr_login_at(&waiter, &mut sessions, 6, 0).unwrap());
}

#[test]
fn session_from_the_future_has_not_expired() {
    let mut sessions = QrSessions::new();
    opened(&mut sessions, "k", "q", u64::MAX);
    sessions.purge_at(0);
    assert!(sessions.get("k").is_some());
}

#[test]
fn purge_keeps_what_has_not_expired() {
    let mut sessions = QrSessions::new();
    for (index, started) in [0_u64, 1, 2, 3, 4].into_iter().enumerate() {
        sessions.insert(
            format!("k{index}"),
            ActiveQrLogin {
                state_dir: PathBuf::from("s"),
                qrcode: "q".to_string(),
                qrcode_url: "u".to_string(),
                current_api_base_url: SERVER.to_string(),
                started_at_ms: started,
            },
        );
    }
    sessions.purge_at(600_002);
    let left: Vec<bool> = (0..5)
        .map(|index| sessions.get(&format!("k{index}")).is_some())
        .collect();
    assert_eq!(left, vec![false, false, true, true, true]);
    purge_expired_qr_sessions(&mut sessions);
    assert!((0..5).all(|index| sessions.get(&format!("k{index}")).is_none()));
}

#[test]
fn insert_replaces_and_remove_removes() {
    let mut sessions = QrSessions::new();
    opened(&mut sessions, "k", "first", 0);
    opened(&mut sessions, "k", "second", 0);
    assert_eq!(sessions.get("k").unwrap().qrcode, "second");
    sessions.remove("missing");
    assert!(sessions.get("k").is_some());
    sessions.remove("k");
    assert!(sessions.get("k").is_none());
}

#[test]
fn words_for_the_state_of_a_login() {
    assert_eq!(parse_reported_status(""), Some(WeChatQrLoginStatus::Wait));
    assert_eq!(parse_reported_status("wait"), Some(WeChatQrLoginStatus::Wait));
    assert_eq!(parse_reported_status("scaned"), Some(WeChatQrLoginStatus::Scaned));
    assert_eq!(
        parse_reported_status("scaned_but_redirect"),
        Some(WeChatQrLoginStatus::ScanedButRedirect)
    );
    assert_eq!(parse_reported_status("expired"), Some(WeChatQrLoginStatus::Expired));
    assert_eq!(parse_reported_status("confirmed"), Some(WeChatQrLoginStatus::Confirmed));
    assert_eq!(parse_reported_status("Confirmed"), None);
    assert_eq!(parse_reported_status(" wait"), None);
}

#[test]
fn pending_states_are_asked_about_again() {
    let mut sessions = QrSessions::new();
    opened(&mut sessions, "k", "q", 0);
    let waiter = waiter(&mut sessions, "k", 0);
    for reply in [
        QrStatusReply::Unanswered,
        QrStatusReply::Answered(response("")),
        QrStatusReply::Answered(response("wait")),
        QrStatusReply::Answered(response("scaned")),
        QrStatusReply::Answered(response("scaned_but_redirect")),
        QrStatusReply::Answered(response("something else")),
    ] {
        let step = answer(&waiter, &mut sessions, 0, reply).unwrap();
        assert!(matches!(step, QrReplyStep::AskAgain { delay_secs: 1 }));
        assert_eq!(sessions.get("k").unwrap().current_api_base_url, SERVER);
    }
}

#[test]
fn redirection_is_followed() {
    let mut sessions = QrSessions::new();
    opened(&mut sessions, "k", "q", 0);
    opened(&mut sessions, "other", "q", 0);
    let waiter = waiter(&mut sessions, "k", 0);
    let mut redirect = response("scaned_but_redirect");
    redirect.redirect_host = Some("  \n".to_string());
    answer(&waiter, &mut sessions, 0, QrStatusReply::Answered(redirect)).unwrap();
    assert_eq!(sessions.get("k").unwrap().current_api_base_url, SERVER);

    let mut redirect = response("scaned_but_redirect");
    redirect.redirect_host = Some(" host.example/ ".to_string());
    answer(&waiter, &mut sessions, 0, QrStatusReply::Answered(redirect)).unwrap();
    assert_eq!(
        sessions.get("k").unwrap().current_api_base_url,
        "https://host.example/"
    );
    assert_eq!(sessions.get("other").unwrap().current_api_base_url, SERVER);
    let request = asked(poll_qr_login_at(&waiter, &mut sessions, 0, 0).unwrap());
    assert_eq!(
        request.url,
        "https://host.example/ilink/bot/get_qrcode_status?qrcode=q"
    );
}

#[test]
fn redirection_of_a_forgotten_session_opens_none() {
    let mut sessions = QrSessions::new();
    opened(&mut sessions, "k", "q", 0);
    let waiter = waiter(&mut sessions, "k", 0);
    let request = asked(poll_qr_login_at(&waiter, &mut sessions, 0, 0).unwrap());
    sessions.remove("k");
    let mut redirect = response("scaned_but_redirect");
    redirect.redirect_host = Some("host".to_string());
    on_status_reply(
        &waiter,
        request.session,
        QrStatusReply::Answered(redirect),
        &mut sessions,
    )
    .unwrap();
    assert!(sessions.get("k").is_none());
}

#[test]
fn expired_answer_ends_the_wait() {
    let mut sessions = QrSessions::new();
    opened(&mut sessions, "k", "q", 0);
    let waiter = waiter(&mut sessions, "k", 0);
    let step = answer(
        &waiter,
        &mut sessions,
        0,
        QrStatusReply::Answered(response("expired")),
    )
    .unwrap();
    match step {
        QrReplyStep::Finished(wait) => {
            assert_eq!(wait.status, WeChatQrLoginStatus::Expired);
            assert!(!wait.connected);
            assert_eq!(wait.bind_mode, WeChatQrBindMode::Append);
        }
        other => panic!("the wait goes on: {other:?}"),
    }
    assert!(sessions.get("k").is_none());
}

#[test]
fn bad_answers_fail_the_wait_and_keep_the_session() {
    let mut sessions = QrSessions::new();
    opened(&mut sessions, "k", "q", 0);
    let waiter = waiter(&mut sessions, "k", 0);
    let mut no_token = confirmed(" ", "a", "u");
    let mut no_account = confirmed("t", "a", "u");
    no_account.ilink_bot_id = None;
    let cases = vec![
        (
            QrStatusReply::Rejected {
                status: "404 Not Found".to_string(),
                body: "b".to_string(),
            },
            WeChatQrLoginError::WaitRejected {
                status: "404 Not Found".to_string(),
                body: "b".to_string(),
            },
        ),
        (QrStatusReply::Unreadable, WeChatQrLoginError::WaitResponseUnreadable),
        (
            QrStatusReply::Answered({
                no_token.ilink_bot_id = None;
                no_token
            }),
            WeChatQrLoginError::MissingBotToken,
        ),
        (
            QrStatusReply::Answered(no_account),
            WeChatQrLoginError::MissingBotId,
        ),
    ];
    for (reply, error) in cases {
        assert_eq!(answer(&waiter, &mut sessions, 0, reply).unwrap_err(), error);
        assert!(sessions.get("k").is_some());
    }
}

#[test]
fn confirmation_falls_back_to_the_configured_server_and_may_name_no_user() {
    let mut sessions = QrSessions::new();
    opened(&mut sessions, "k", "q", 0);
    let waiter = waiter(&mut sessions, "k", 0);
    let mut login = confirmed(" t ", " a ", " ");
    login.baseurl = Some("  ".to_string());
    let step = answer(&waiter, &mut sessions, 0, QrStatusReply::Answered(login)).unwrap();
    let confirmation = match step {
        QrReplyStep::Persist(confirmation) => confirmation,
        other => panic!("the login was not confirmed: {other:?}"),
    };
    assert!(sessions.get("k").is_some());
    assert_eq!(confirmation.token, " t ");
    assert_eq!(confirmation.account_id, " a ");
    assert_eq!(confirmation.user_id, None);
    assert_eq!(confirmation.base_url.as_deref(), Some(SERVER));
    assert!(confirmed_bindings(&waiter, &confirmation, None).is_none());
    let account = confirmed_account(&confirmation);
    assert_eq!(account.base_url.as_deref(), Some(SERVER));
    assert_eq!(account.user_id, None);
    let wait = finish_confirmed_login(&waiter, confirmation, &mut sessions);
    assert!(wait.connected);
    assert_eq!(wait.account_id.as_deref(), Some(" a "));
    assert_eq!(wait.user_id, None);
    assert_eq!(wait.base_url.as_deref(), Some(SERVER));
}

#[test]
fn purging_again_later_is_purging_later() {
    let mut twice = QrSessions::new();
    let mut once = QrSessions::new();
    for (key, started) in [("a", 0), ("b", 50), ("c", 100)] {
        opened(&mut twice, key, "q", started);
        opened(&mut once, key, "q", started);
    }
    twice.purge_at(600_010);
    twice.purge_at(600_060);
    once.purge_at(600_060);
    for key in ["a", "b", "c"] {
        assert_eq!(twice.get(key).is_some(), once.get(key).is_some());
        assert_eq!(once.get(key).is_some(), key == "c");
    }
}

#[test]
fn code_can_be_decoded_from_the_question() {
    let mut sessions = QrSessions::new();
    for qrcode in ["plain", "\u{4e8c}\u{7ef4}\u{7801} + %41", "~-_.", "a/b?c#d"] {
        opened(&mut sessions, "k", qrcode, 0);
        let waiter = waiter(&mut sessions, "k", 0);
        let request = asked(poll_qr_login_at(&waiter, &mut sessions, 0, 0).unwrap());
        let (_, value) = request.url.split_once("?qrcode=").unwrap();
        assert_eq!(urlencoding::decode(value).unwrap(), qrcode);
    }
}

#[test]
fn redirection_to_slashes_only_loses_the_host() {
    let mut sessions = QrSessions::new();
    opened(&mut sessions, "k", "q", 0);
    let waiter = waiter(&mut sessions, "k", 0);
    let mut redirect = response("scaned_but_redirect");
    redirect.redirect_host = Some("/".to_string());
    answer(&waiter, &mut sessions, 0, QrStatusReply::Answered(redirect)).unwrap();
    let request = asked(poll_qr_login_at(&waiter, &mut sessions, 0, 0).unwrap());
    assert_eq!(
        request.url,
        "https:/ilink/bot/get_qrcode_status?qrcode=q"
    );
}

#[test]
fn wait_through_several_rounds() {
    let mut sessions = QrSessions::new();
    opened(&mut sessions, "k", "q", 0);
    opened(&mut sessions, "other", "q", 0);
    let waiter = waiter(&mut sessions, "k", 0);
    for word in ["wait", "scaned", "scaned"] {
        let step = answer(
            &waiter,
            &mut sessions,
            0,
            QrStatusReply::Answered(response(word)),
        );
        assert!(matches!(step, Ok(QrReplyStep::AskAgain { .. })));
    }
    let step = answer(
        &waiter,
        &mut sessions,
        0,
        QrStatusReply::Answered(confirmed("t", "a", "u")),
    );
    let confirmation = match step.unwrap() {
        QrReplyStep::Persist(confirmation) => confirmation,
        other => panic!("the login was not confirmed: {other:?}"),
    };
    let wait = finish_confirmed_login(&waiter, confirmation, &mut sessions);
    assert_eq!(wait.status, WeChatQrLoginStatus::Confirmed);
    assert_eq!(wait.account_id.as_deref(), Some("a"));
    assert_eq!(wait.qrcode_url.as_deref(), Some("https://example.com/qr.png"));
    assert!(sessions.get("k").is_none());
    assert!(sessions.get("other").is_some());
}

#[test]
fn only_success_statuses_are_accepted() {
    for status in [200, 204, 299] {
        assert!(is_accepted(status));
    }
    for status in [0, 100, 199, 300, 304, 404, 500, u16::MAX] {
        assert!(!is_accepted(status));
    }
}

#[test]
fn ended_wait_carries_its_login() {
    for mode in [WeChatQrBindMode::Append, WeChatQrBindMode::Replace] {
        for (now, elapsed, status) in [
            (0, 2_000, WeChatQrLoginStatus::TimedOut),
            (600_001, 0, WeChatQrLoginStatus::Expired),
        ] {
            let mut sessions = QrSessions::new();
            opened(&mut sessions, "k", "q", 0);
            let waiter =
                begin_qr_wait_at(Some(&section()), "k", mode, Some(2_000), &mut sessions, 0)
                    .unwrap();
            let redirected = QrStatusResponse {
                redirect_host: Some("elsewhere.example.com".to_string()),
                ..response("scaned_but_redirect")
            };
            let step = answer(&waiter, &mut sessions, 0, QrStatusReply::Answered(redirected));
            assert!(matches!(step, Ok(QrReplyStep::AskAgain { .. })));
            let wait = ended(poll_qr_login_at(&waiter, &mut sessions, now, elapsed).unwrap());
            assert_eq!(wait.status, status);
            assert_eq!(wait.session_key, "k");
            assert_eq!(wait.bind_mode, mode);
            assert_eq!(wait.state_dir, PathBuf::from("wechat-state"));
            assert_eq!(wait.qrcode_url.as_deref(), Some("https://example.com/qr.png"));
        }
    }
}
