//! What holds of a login from its start to its end.

use crate::account::AccountData;
use crate::bound_users::{
    concrete_users, is_concrete, law_normalized_membership, law_normalizing_a_concatenation,
    law_normalizing_twice, lemma_concrete_users_push, lemma_no_concrete_users, persisted_entries,
    persisted_users, users_after_login, with_user, BindingsData, WeChatQrBindMode,
};
use crate::config::{
    api_url, base_url_of, is_enabled, is_https, law_endpoints_stand_under_base_url, WeChatConfig,
    DEFAULT_API_BASE_URL,
};
use crate::errors::LoginErrorView;
use crate::login::{
    opened_session, sessions_on_entry, start_request, QrCodeResponse, StartRequestView,
    WeChatQrLoginStatus,
};
use crate::outside::{is_unreserved, percent_encoded, percent_encoded_byte, upper_hex};
use crate::sessions::{unexpired, SessionView, QR_SESSION_TTL_MS};
use crate::status::{binding_status, law_finished_login_is_shown};
use crate::text::{
    is_blank, lemma_trimmed_idempotent, lemma_without_trailing, opt_text, texts, trimmed,
    without_trailing,
};
use crate::wait::{
    confirmation, connected, given, poll, reply, reported_status, status_url, unconnected,
    ConfirmationView, LoginWaitView, PollStepView, QrStatusReply, QrStatusResponse, ReplyStepView,
    WaiterView, QR_POLL_GUARD_SECS, QR_POLL_TIMEOUT_SECS,
};
use std::path::PathBuf;
use vstd::prelude::*;
use vstd::utf8::{encode_utf8, encode_utf8_decode_utf8};

verus! {

// ---- sessions ----

/// Taking away what has expired by one time and then what has expired by a later
/// one takes away what has expired by the later one.
pub proof fn law_purging_again(sessions: Map<Seq<char>, SessionView>, earlier: u64, later: u64)
    requires
        earlier <= later,
    ensures
        unexpired(unexpired(sessions, earlier), later) == unexpired(sessions, later),
{
    assert(unexpired(unexpired(sessions, earlier), later) =~= unexpired(sessions, later));
}

/// A purge takes away what has expired, keeps everything else, and changes nothing
/// of what it keeps.
pub proof fn law_purge_keeps_the_rest(
    sessions: Map<Seq<char>, SessionView>,
    now: u64,
    key: Seq<char>,
)
    ensures
        unexpired(sessions, now).contains_key(key) <==> sessions.contains_key(key)
            && !sessions[key].expired(now),
        unexpired(sessions, now).contains_key(key) ==> unexpired(sessions, now)[key]
            == sessions[key],
{
}

/// A login that was started is asked about, under its key and at its server, as
/// long as it has not expired and the wait is not over.
pub proof fn law_started_login_is_asked_about(
    config: Option<&WeChatConfig>,
    request: StartRequestView,
    code: QrCodeResponse,
    sessions: Map<Seq<char>, SessionView>,
    started: u64,
    waiter: WaiterView,
    begun: u64,
    now: u64,
    elapsed_ms: u64,
)
    requires
        is_enabled(config) ==> begun - started <= QR_SESSION_TTL_MS,
        now - started <= QR_SESSION_TTL_MS,
        elapsed_ms < waiter.timeout_ms,
    ensures
        ({
            let session = opened_session(request, code, started);
            let opened = sessions.insert(waiter.session_key, session);
            let known = sessions_on_entry(config, opened, begun);
            poll(waiter, known, now, elapsed_ms) == (
                known,
                Ok::<PollStepView, LoginErrorView>(
                    PollStepView::Ask {
                        session,
                        url: status_url(session),
                        timeout_secs: QR_POLL_TIMEOUT_SECS,
                        guard_secs: QR_POLL_GUARD_SECS,
                    },
                ),
            )
        }),
{
}

/// A login that is opened leaves those under other keys as they are.
pub proof fn law_opening_leaves_other_logins(
    sessions: Map<Seq<char>, SessionView>,
    session_key: Seq<char>,
    session: SessionView,
    key: Seq<char>,
)
    requires
        key != session_key,
    ensures
        sessions.insert(session_key, session).contains_key(key) == sessions.contains_key(key),
        sessions.contains_key(key) ==> sessions.insert(session_key, session)[key] == sessions[key],
{
}

/// Neither a round nor an answer touches the login under another key.
pub proof fn law_other_logins_are_left_alone(
    waiter: WaiterView,
    session: SessionView,
    answer: QrStatusReply,
    sessions: Map<Seq<char>, SessionView>,
    now: u64,
    elapsed_ms: u64,
    key: Seq<char>,
)
    requires
        key != waiter.session_key,
    ensures
        poll(waiter, sessions, now, elapsed_ms).0.contains_key(key) == sessions.contains_key(key),
        sessions.contains_key(key) ==> poll(waiter, sessions, now, elapsed_ms).0[key]
            == sessions[key],
        reply(waiter, session, answer, sessions).0.contains_key(key) == sessions.contains_key(key),
        sessions.contains_key(key) ==> reply(waiter, session, answer, sessions).0[key]
            == sessions[key],
{
}

/// An answer that fails the wait, and no answer at all, leave the sessions as they
/// are.
pub proof fn law_failed_answer_changes_nothing(
    waiter: WaiterView,
    session: SessionView,
    answer: QrStatusReply,
    sessions: Map<Seq<char>, SessionView>,
)
    requires
        answer is Unanswered || reply(waiter, session, answer, sessions).1 is Err,
    ensures
        reply(waiter, session, answer, sessions).0 == sessions,
{
}

// ---- how a wait ends ----

/// Once its time is up, a wait asks no more.
pub proof fn law_wait_ends(
    waiter: WaiterView,
    sessions: Map<Seq<char>, SessionView>,
    now: u64,
    elapsed_ms: u64,
)
    requires
        elapsed_ms >= waiter.timeout_ms,
    ensures
        !(poll(waiter, sessions, now, elapsed_ms).1 matches Ok(PollStepView::Ask { .. })),
{
}

/// A wait that ends at the beginning of a round ends without an account: the login
/// has expired and is forgotten, or the time is up and nothing is.
pub proof fn law_round_ends_unconnected(
    waiter: WaiterView,
    sessions: Map<Seq<char>, SessionView>,
    now: u64,
    elapsed_ms: u64,
    wait: LoginWaitView,
)
    requires
        poll(waiter, sessions, now, elapsed_ms).1 == Ok::<PollStepView, LoginErrorView>(
            PollStepView::Finished(wait),
        ),
    ensures
        ({
            let left = poll(waiter, sessions, now, elapsed_ms).0;
            &&& !wait.connected && wait.account_id is None && wait.user_id is None
            &&& wait.session_key == waiter.session_key
            &&& {
                ||| wait.status is Expired && left == sessions.remove(waiter.session_key)
                ||| wait.status is TimedOut && left == sessions
            }
        }),
{
}

/// A wait that ends on an answer ends without an account, and the login is
/// forgotten.
pub proof fn law_answer_ends_unconnected(
    waiter: WaiterView,
    session: SessionView,
    answer: QrStatusReply,
    sessions: Map<Seq<char>, SessionView>,
    wait: LoginWaitView,
)
    requires
        reply(waiter, session, answer, sessions).1 == Ok::<ReplyStepView, LoginErrorView>(
            ReplyStepView::Finished(wait),
        ),
    ensures
        wait == unconnected(waiter, session, WeChatQrLoginStatus::Expired),
        reply(waiter, session, answer, sessions).0 == sessions.remove(waiter.session_key),
{
}

/// An end is connected exactly where it is confirmed, and then it names an account
/// and a server.
pub proof fn law_connected_means_confirmed(
    waiter: WaiterView,
    session: SessionView,
    status: WeChatQrLoginStatus,
    response: QrStatusResponse,
)
    ensures
        !unconnected(waiter, session, status).connected,
        confirmation(waiter, session, response) matches Ok(confirmed) ==> {
            let end = connected(waiter, confirmed);
            &&& end.connected && end.status is Confirmed
            &&& end.account_id is Some && !is_blank(end.account_id->0)
            &&& end.base_url is Some
        },
{
}

/// A login that was closed cannot be waited for again.
pub proof fn law_closed_login_is_not_found(
    waiter: WaiterView,
    sessions: Map<Seq<char>, SessionView>,
    now: u64,
    elapsed_ms: u64,
)
    ensures
        poll(waiter, sessions.remove(waiter.session_key), now, elapsed_ms).1 == Err::<
            PollStepView,
            LoginErrorView,
        >(LoginErrorView::SessionNotFound { session_key: waiter.session_key }),
{
}

/// A wait whose time was up can be taken up again, as long as the login has not
/// expired.
pub proof fn law_timed_out_wait_can_be_resumed(
    waiter: WaiterView,
    sessions: Map<Seq<char>, SessionView>,
    now: u64,
    elapsed_ms: u64,
    wait: LoginWaitView,
    again: WaiterView,
    later: u64,
    elapsed_again_ms: u64,
)
    requires
        poll(waiter, sessions, now, elapsed_ms).1 == Ok::<PollStepView, LoginErrorView>(
            PollStepView::Finished(wait),
        ),
        wait.status is TimedOut,
        again.session_key == waiter.session_key,
        !sessions[waiter.session_key].expired(later),
        elapsed_again_ms < again.timeout_ms,
    ensures
        poll(again, poll(waiter, sessions, now, elapsed_ms).0, later, elapsed_again_ms).1 matches Ok(
            PollStepView::Ask { session, .. },
        ) && session == sessions[waiter.session_key],
{
}

/// After a redirection the next question goes to the host that was named, by https;
/// the rest of the login is as it was.
pub proof fn law_redirection_is_followed(
    waiter: WaiterView,
    session: SessionView,
    response: QrStatusResponse,
    sessions: Map<Seq<char>, SessionView>,
    now: u64,
    elapsed_ms: u64,
    host: Seq<char>,
)
    requires
        reported_status(response.status@) == Some(WeChatQrLoginStatus::ScanedButRedirect),
        given(response.redirect_host) == Some(host),
        sessions.contains_key(waiter.session_key),
        !sessions[waiter.session_key].expired(now),
        elapsed_ms < waiter.timeout_ms,
    ensures
        ({
            let after = reply(waiter, session, QrStatusReply::Answered(response), sessions).0;
            let moved = SessionView {
                current_api_base_url: "https://"@ + trimmed(host),
                ..sessions[waiter.session_key]
            };
            poll(waiter, after, now, elapsed_ms).1 == Ok::<PollStepView, LoginErrorView>(
                PollStepView::Ask {
                    session: moved,
                    url: status_url(moved),
                    timeout_secs: QR_POLL_TIMEOUT_SECS,
                    guard_secs: QR_POLL_GUARD_SECS,
                },
            )
        }),
{
}

// ---- a whole wait ----

/// One round of a wait: the time, how long the wait has taken, and what the server
/// answers if it is asked.
pub struct Round {
    pub now: u64,
    pub elapsed_ms: u64,
    pub answer: QrStatusReply,
}

/// How far a wait has come.
pub enum WaitProgress {
    /// The rounds are over and the wait is not.
    Pending,
    /// The wait has ended.
    Ended(LoginWaitView),
    /// The wait has failed.
    Failed(LoginErrorView),
}

/// What comes of a wait through `rounds`, where nobody else touches the sessions and
/// a confirmed login can be written to disk: the sessions that are left, and how far
/// it has come.
pub open spec fn wait_through(
    waiter: WaiterView,
    sessions: Map<Seq<char>, SessionView>,
    rounds: Seq<Round>,
) -> (Map<Seq<char>, SessionView>, WaitProgress)
    decreases rounds.len(),
{
    if rounds.len() == 0 {
        (sessions, WaitProgress::Pending)
    } else {
        let round = rounds.first();
        let (known, step) = poll(waiter, sessions, round.now, round.elapsed_ms);
        match step {
            Err(error) => (known, WaitProgress::Failed(error)),
            Ok(PollStepView::Finished(wait)) => (known, WaitProgress::Ended(wait)),
            Ok(PollStepView::Ask { session, .. }) => {
                let (left, next) = reply(waiter, session, round.answer, known);
                match next {
                    Err(error) => (left, WaitProgress::Failed(error)),
                    Ok(ReplyStepView::Finished(wait)) => (left, WaitProgress::Ended(wait)),
                    Ok(ReplyStepView::Persist(confirmed)) => (
                        left.remove(waiter.session_key),
                        WaitProgress::Ended(connected(waiter, confirmed)),
                    ),
                    Ok(ReplyStepView::AskAgain { .. }) => wait_through(
                        waiter,
                        left,
                        rounds.drop_first(),
                    ),
                }
            },
        }
    }
}

/// True of an answer that confirms a login of the account `account_id`.
pub open spec fn confirms(answer: QrStatusReply, account_id: Seq<char>) -> bool {
    &&& answer matches QrStatusReply::Answered(response)
    &&& reported_status(response.status@) == Some(WeChatQrLoginStatus::Confirmed)
    &&& given(response.bot_token) is Some
    &&& given(response.ilink_bot_id) == Some(account_id)
}

/// A wait touches no login but its own, however many rounds it takes.
pub proof fn law_wait_touches_only_its_login(
    waiter: WaiterView,
    sessions: Map<Seq<char>, SessionView>,
    rounds: Seq<Round>,
    key: Seq<char>,
)
    requires
        key != waiter.session_key,
    ensures
        wait_through(waiter, sessions, rounds).0.contains_key(key) == sessions.contains_key(key),
        sessions.contains_key(key) ==> wait_through(waiter, sessions, rounds).0[key]
            == sessions[key],
    decreases rounds.len(),
{
    if rounds.len() > 0 {
        let round = rounds.first();
        let (known, step) = poll(waiter, sessions, round.now, round.elapsed_ms);
        if let Ok(PollStepView::Ask { session, .. }) = step {
            let (left, next) = reply(waiter, session, round.answer, known);
            law_wait_touches_only_its_login(waiter, left, rounds.drop_first(), key);
        }
    }
}

/// A wait ends connected only on an answer that confirms the login, and then with
/// the account that the answer names.
pub proof fn law_wait_connects_only_when_confirmed(
    waiter: WaiterView,
    sessions: Map<Seq<char>, SessionView>,
    rounds: Seq<Round>,
    wait: LoginWaitView,
)
    requires
        wait_through(waiter, sessions, rounds).1 == WaitProgress::Ended(wait),
        wait.connected,
    ensures
        wait.status is Confirmed,
        wait.account_id matches Some(account_id) && exists|index: int|
            0 <= index < rounds.len() && confirms(#[trigger] rounds[index].answer, account_id),
    decreases rounds.len(),
{
    let round = rounds.first();
    let (known, step) = poll(waiter, sessions, round.now, round.elapsed_ms);
    if let Ok(PollStepView::Ask { session, .. }) = step {
        let (left, next) = reply(waiter, session, round.answer, known);
        if let Ok(ReplyStepView::AskAgain { .. }) = next {
            let rest = rounds.drop_first();
            law_wait_connects_only_when_confirmed(waiter, left, rest, wait);
            let index = choose|index: int|
                0 <= index < rest.len() && confirms(
                    #[trigger] rest[index].answer,
                    wait.account_id->0,
                );
            assert(rest[index] == rounds[index + 1]);
        } else {
            assert(confirms(rounds[0].answer, wait.account_id->0));
        }
    }
}

/// A wait that has ended without running out of time has forgotten its login; one
/// that has run out of time has kept it, and one that has failed has forgotten
/// nothing.
pub proof fn law_wait_forgets_what_it_closed(
    waiter: WaiterView,
    sessions: Map<Seq<char>, SessionView>,
    rounds: Seq<Round>,
)
    ensures
        ({
            let (left, progress) = wait_through(waiter, sessions, rounds);
            match progress {
                WaitProgress::Ended(wait) => left.contains_key(waiter.session_key)
                    == wait.status is TimedOut,
                _ => left.contains_key(waiter.session_key) == sessions.contains_key(
                    waiter.session_key,
                ),
            }
        }),
    decreases rounds.len(),
{
    if rounds.len() > 0 {
        let round = rounds.first();
        let (known, step) = poll(waiter, sessions, round.now, round.elapsed_ms);
        if let Ok(PollStepView::Ask { session, .. }) = step {
            let (left, next) = reply(waiter, session, round.answer, known);
            law_wait_forgets_what_it_closed(waiter, left, rounds.drop_first());
        }
    }
}

/// A wait that has ended carries the key and the mode it was begun with, and the
/// directory and the image address of its login.
pub proof fn law_ended_wait_carries_its_login(
    waiter: WaiterView,
    sessions: Map<Seq<char>, SessionView>,
    rounds: Seq<Round>,
    wait: LoginWaitView,
)
    requires
        wait_through(waiter, sessions, rounds).1 == WaitProgress::Ended(wait),
    ensures
        sessions.contains_key(waiter.session_key),
        wait.session_key == waiter.session_key,
        wait.bind_mode == waiter.bind_mode,
        wait.state_dir == sessions[waiter.session_key].state_dir,
        wait.qrcode_url == Some(sessions[waiter.session_key].qrcode_url),
    decreases rounds.len(),
{
    let round = rounds.first();
    let (known, step) = poll(waiter, sessions, round.now, round.elapsed_ms);
    if let Ok(PollStepView::Ask { session, .. }) = step {
        let (left, next) = reply(waiter, session, round.answer, known);
        if let Ok(ReplyStepView::AskAgain { .. }) = next {
            law_ended_wait_carries_its_login(waiter, left, rounds.drop_first(), wait);
        }
    }
}

/// A wait is over at the latest in the first round that begins once its time is up.
pub proof fn law_wait_is_over_in_time(
    waiter: WaiterView,
    sessions: Map<Seq<char>, SessionView>,
    rounds: Seq<Round>,
    index: int,
)
    requires
        0 <= index < rounds.len(),
        rounds[index].elapsed_ms >= waiter.timeout_ms,
    ensures
        !(wait_through(waiter, sessions, rounds).1 is Pending),
    decreases rounds.len(),
{
    let round = rounds.first();
    let (known, step) = poll(waiter, sessions, round.now, round.elapsed_ms);
    if let Ok(PollStepView::Ask { session, .. }) = step {
        let (left, next) = reply(waiter, session, round.answer, known);
        let rest = rounds.drop_first();
        assert(rest[index - 1] == rounds[index]);
        law_wait_is_over_in_time(waiter, left, rest, index - 1);
    }
}

// ---- what a confirmed login leaves behind ----

/// A login that was confirmed brings a token that is not blank, and where it names
/// a user, a name that is trimmed and not empty.
pub proof fn law_confirmation_is_usable(
    waiter: WaiterView,
    session: SessionView,
    answer: QrStatusReply,
    sessions: Map<Seq<char>, SessionView>,
    confirmed: ConfirmationView,
)
    requires
        reply(waiter, session, answer, sessions).1 == Ok::<ReplyStepView, LoginErrorView>(
            ReplyStepView::Persist(confirmed),
        ),
    ensures
        !is_blank(confirmed.token),
        !is_blank(confirmed.account_id),
        confirmed.user_id matches Some(user) ==> user.len() > 0 && trimmed(user) == user,
        reply(waiter, session, answer, sessions).0 == sessions,
{
    if let QrStatusReply::Answered(response) = answer {
        if let Some(user) = given(response.ilink_user_id) {
            lemma_trimmed_idempotent(user);
        }
    }
}

/// The users that are shown once a login of `user` is on disk. Those that were shown
/// before stay, or only those that are configured do.
proof fn lemma_users_shown_after_login(
    allowed: Seq<Seq<char>>,
    mode: WeChatQrBindMode,
    before: Seq<Seq<char>>,
    user: Seq<char>,
)
    requires
        is_concrete(user),
        trimmed(user) == user,
    ensures
        concrete_users(allowed + users_after_login(mode, concrete_users(before), user))
            == with_user(
            match mode {
                WeChatQrBindMode::Append => concrete_users(allowed + before),
                WeChatQrBindMode::Replace => concrete_users(allowed),
            },
            user,
        ),
{
    let persisted = concrete_users(before);
    match mode {
        WeChatQrBindMode::Append => {
            law_normalizing_a_concatenation(allowed, before);
            law_normalizing_a_concatenation(allowed, persisted);
            law_normalizing_twice(before);
            if persisted.contains(user) {
                let all = allowed + persisted;
                assert(trimmed(all[allowed.len() + persisted.index_of(user)]) == user);
                law_normalized_membership(all, user);
            } else {
                assert(allowed + persisted.push(user) =~= (allowed + persisted).push(user));
                lemma_concrete_users_push(allowed + persisted, user);
            }
        },
        WeChatQrBindMode::Replace => {
            assert(allowed + seq![user] =~= allowed.push(user));
            lemma_concrete_users_push(allowed, user);
        },
    }
}

/// A confirmed login shows: once its account and its bindings are on disk, the bot
/// is logged in and the user is among those that are bound. In mode `Append` the
/// user comes after all those that were shown before, unless it is one of them. In
/// mode `Replace` it comes after those that are configured, and is alone where none
/// are. The user's name is not the wildcard.
pub proof fn law_confirmed_login_is_shown(
    section: &WeChatConfig,
    data_dir: Option<&PathBuf>,
    waiter: WaiterView,
    session: SessionView,
    answer: QrStatusReply,
    sessions: Map<Seq<char>, SessionView>,
    confirmed: ConfirmationView,
    user: Seq<char>,
    before: Option<&BindingsData>,
    account_before: Option<&AccountData>,
    bindings: &BindingsData,
    account: &AccountData,
)
    requires
        section.enabled,
        reply(waiter, session, answer, sessions).1 == Ok::<ReplyStepView, LoginErrorView>(
            ReplyStepView::Persist(confirmed),
        ),
        confirmed.user_id == Some(user),
        user != "*"@,
        texts(bindings.bound_users@) == users_after_login(
            waiter.bind_mode,
            persisted_users(before),
            user,
        ),
        account@.token == Some(confirmed.token),
    ensures
        ({
            let allowed = texts(section.allowed_users@);
            let shown = binding_status(Some(section), data_dir, before, account_before).bound_users;
            let status = binding_status(Some(section), data_dir, Some(bindings), Some(account));
            &&& status.bot_logged_in
            &&& status.bound
            &&& status.bound_users.contains(user)
            &&& status.binding_mode is BoundUsers
            &&& match waiter.bind_mode {
                WeChatQrBindMode::Append => {
                    &&& status.bound_users == with_user(shown, user)
                    &&& shown.is_prefix_of(status.bound_users)
                },
                WeChatQrBindMode::Replace => {
                    &&& status.bound_users == with_user(concrete_users(allowed), user)
                    &&& allowed.len() == 0 ==> status.bound_users == seq![user]
                },
            }
        }),
{
    law_confirmation_is_usable(waiter, session, answer, sessions, confirmed);
    law_finished_login_is_shown(
        section,
        data_dir,
        waiter.bind_mode,
        persisted_users(before),
        user,
        bindings,
        account,
    );
    let allowed = texts(section.allowed_users@);
    lemma_users_shown_after_login(allowed, waiter.bind_mode, persisted_entries(before), user);
    lemma_no_concrete_users();
    assert(allowed.len() == 0 ==> allowed =~= Seq::empty());
}

// ---- https ----

/// True of a login whose server is asked by https.
pub open spec fn is_secure(session: SessionView) -> bool {
    is_https(without_trailing(session.current_api_base_url, '/'))
}

/// True where the server of every login is asked by https.
pub open spec fn all_secure(sessions: Map<Seq<char>, SessionView>) -> bool {
    forall|key: Seq<char>| #[trigger] sessions.contains_key(key) ==> is_secure(sessions[key])
}

/// True of a host that is more than slashes.
pub open spec fn names_a_host(host: Seq<char>) -> bool {
    without_trailing(trimmed(host), '/').len() > 0
}

/// True of an answer that sends a login that is known to a host that is slashes only.
pub open spec fn redirects_nowhere(
    waiter: WaiterView,
    answer: QrStatusReply,
    sessions: Map<Seq<char>, SessionView>,
) -> bool {
    &&& sessions.contains_key(waiter.session_key)
    &&& answer matches QrStatusReply::Answered(response)
    &&& reported_status(response.status@) == Some(WeChatQrLoginStatus::ScanedButRedirect)
    &&& given(response.redirect_host) matches Some(host)
    &&& !names_a_host(host)
}

proof fn lemma_without_trailing_after(front: Seq<char>, back: Seq<char>, c: char)
    requires
        without_trailing(back, c).len() > 0,
    ensures
        without_trailing(front + back, c) == front + without_trailing(back, c),
    decreases back.len(),
{
    if back.last() == c {
        lemma_without_trailing_after(front, back.drop_last(), c);
        assert((front + back).drop_last() =~= front + back.drop_last());
    }
}

/// The request for a code goes by https, and so do the questions about a login that
/// is opened on it.
pub proof fn law_start_is_secure(
    config: Option<&WeChatConfig>,
    data_dir: Option<&PathBuf>,
    request: StartRequestView,
    code: QrCodeResponse,
    now: u64,
)
    requires
        start_request(config, data_dir) == Ok::<StartRequestView, LoginErrorView>(request),
    ensures
        is_https(request.url),
        is_secure(opened_session(request, code, now)),
{
    let configured = opt_text(config->0.api_base_url);
    law_endpoints_stand_under_base_url(configured, "get_bot_qrcode"@);
    let url = match configured {
        Some(url) => url,
        None => DEFAULT_API_BASE_URL@,
    };
    lemma_without_trailing(trimmed(url), '/');
    assert(request.url =~= base_url_of(configured) + ("/ilink/bot/"@ + "get_bot_qrcode"@
        + "?bot_type=3"@));
}

/// Every question about a login whose server is asked by https goes by https.
pub proof fn law_questions_are_secure(session: SessionView)
    requires
        is_secure(session),
    ensures
        is_https(status_url(session)),
{
    let base = without_trailing(session.current_api_base_url, '/');
    assert(status_url(session) =~= base + ("/ilink/bot/"@ + "get_qrcode_status"@ + "?qrcode="@
        + percent_encoded(encode_utf8(session.qrcode))));
}

/// That every server is asked by https is kept by all that happens to the sessions:
/// a purge, a new login, a round, an answer and the end of a login. A redirection
/// has to name a host that is more than slashes.
pub proof fn law_security_is_kept(
    sessions: Map<Seq<char>, SessionView>,
    session: SessionView,
    asked: SessionView,
    key: Seq<char>,
    waiter: WaiterView,
    answer: QrStatusReply,
    now: u64,
    elapsed_ms: u64,
)
    requires
        all_secure(sessions),
        is_secure(session),
        !redirects_nowhere(waiter, answer, sessions),
    ensures
        all_secure(unexpired(sessions, now)),
        all_secure(sessions.insert(key, session)),
        all_secure(sessions.remove(key)),
        all_secure(poll(waiter, sessions, now, elapsed_ms).0),
        all_secure(reply(waiter, asked, answer, sessions).0),
{
    if let QrStatusReply::Answered(response) = answer {
        if let Some(host) = given(response.redirect_host) {
            if names_a_host(host) {
                lemma_without_trailing_after("https://"@, trimmed(host), '/');
            }
        }
    }
}

// ---- the code in the question ----

/// The value of a hexadecimal digit in upper case.
pub open spec fn hex_value(digit: char) -> int {
    if '0' <= digit <= '9' {
        digit as int - 48
    } else {
        digit as int - 55
    }
}

/// The bytes that a text of a URL stands for.
pub open spec fn percent_decoded(text: Seq<char>) -> Seq<u8>
    decreases text.len(),
{
    if text.len() == 0 {
        Seq::empty()
    } else if text[0] == '%' && text.len() >= 3 {
        seq![(hex_value(text[1]) * 16 + hex_value(text[2])) as u8] + percent_decoded(text.skip(3))
    } else {
        seq![text[0] as u8] + percent_decoded(text.skip(1))
    }
}

/// What was encoded can be decoded again.
pub proof fn law_percent_encoding_is_undone(bytes: Seq<u8>)
    ensures
        percent_decoded(percent_encoded(bytes)) == bytes,
    decreases bytes.len(),
{
    if bytes.len() > 0 {
        let byte = bytes.first();
        let rest = bytes.drop_first();
        law_percent_encoding_is_undone(rest);
        let written = percent_encoded_byte(byte);
        let text = percent_encoded(bytes);
        assert(text.skip(written.len() as int) =~= percent_encoded(rest));
        if is_unreserved(byte) {
            assert(text[0] == byte as char);
            assert(text[0] as u8 == byte);
        } else {
            assert(text[0] == '%');
            assert(text[1] == upper_hex(byte / 16));
            assert(text[2] == upper_hex(byte % 16));
            assert(hex_value(text[1]) == byte / 16);
            assert(hex_value(text[2]) == byte % 16);
        }
        assert(percent_decoded(text) =~= seq![byte] + rest);
        assert(seq![byte] + rest =~= bytes);
    }
}

/// The code stands in the question as one value: no character of it ends the value
/// or begins another.
pub proof fn law_code_is_one_value(bytes: Seq<u8>)
    ensures
        forall|index: int|
            0 <= index < percent_encoded(bytes).len() ==> {
                let c = #[trigger] percent_encoded(bytes)[index];
                c != '&' && c != '=' && c != '#' && c != '?' && c != '/' && c != '+' && c != ' '
            },
    decreases bytes.len(),
{
    if bytes.len() > 0 {
        law_code_is_one_value(bytes.drop_first());
        let written = percent_encoded_byte(bytes.first());
        let rest = percent_encoded(bytes.drop_first());
        assert forall|index: int| 0 <= index < percent_encoded(bytes).len() implies ({
            let c = #[trigger] percent_encoded(bytes)[index];
            c != '&' && c != '=' && c != '#' && c != '?' && c != '/' && c != '+' && c != ' '
        }) by {
            if index < written.len() {
                assert(percent_encoded(bytes)[index] == written[index]);
            } else {
                assert(percent_encoded(bytes)[index] == rest[index - written.len()]);
            }
        }
    }
}

/// At one server, questions about different codes are different questions.
pub proof fn law_question_names_the_code(first: SessionView, second: SessionView)
    requires
        first.current_api_base_url == second.current_api_base_url,
        status_url(first) == status_url(second),
    ensures
        first.qrcode == second.qrcode,
{
    let front = api_url(first.current_api_base_url, "get_qrcode_status"@) + "?qrcode="@;
    let one = percent_encoded(encode_utf8(first.qrcode));
    let other = percent_encoded(encode_utf8(second.qrcode));
    assert((front + one).skip(front.len() as int) =~= one);
    assert((front + other).skip(front.len() as int) =~= other);
    law_percent_encoding_is_undone(encode_utf8(first.qrcode));
    law_percent_encoding_is_undone(encode_utf8(second.qrcode));
    encode_utf8_decode_utf8(first.qrcode);
    encode_utf8_decode_utf8(second.qrcode);
}

} // verus!
