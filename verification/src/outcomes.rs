//! What the operations on the configuration, the users and the account are for: how
//! the result of each follows from what it is given, and how the results of two
//! belong together.

use crate::account::{account_data, account_data_at, has_persisted_bot_token, AccountData};
use crate::bound_users::{
    bindings_after_login, concrete_users, law_normalized_entries, law_normalized_membership,
    law_normalized_order, lemma_concrete_users_push, lemma_no_concrete_users,
    load_persisted_bound_users, normalized_concrete_users, persisted_entries, users_after_login,
    BindingsData, WeChatQrBindMode,
};
use crate::config::{
    enabled_wechat_config, resolve_wechat_api_base_url, resolve_wechat_state_dir, wechat_api_url,
    WeChatConfig,
};
use crate::errors::{WeChatApiError, WeChatQrLoginError};
use crate::followup::{plan_qr_login_followup, WeChatQrFollowup};
use crate::handler::{
    handler, install_handler, install_supervisor_senders, senders_for_followup, supervisor_senders,
    HandlerSlot, SupervisorSlot, WechatBindingHandler,
};
use crate::operations::{is_named, leads_to};
use crate::outside::{epoch_ms, is_rfc3339_utc, joined_path, path_of};
use crate::status::{
    law_status_lists_configured_and_persisted_users, load_wechat_binding_status,
    WeChatBindingStatus,
};
use crate::text::{texts, trimmed, without_trailing};
use crate::wait::WeChatQrLoginWait;
use std::path::PathBuf;
use std::sync::Arc;
use vstd::prelude::*;

verus! {

// ---- the configuration ----

/// A section is used exactly where it is there and switched on.
pub proof fn law_section_is_used(
    config: Option<&WeChatConfig>,
    result: Result<&WeChatConfig, WeChatQrLoginError>,
)
    requires
        call_ensures(enabled_wechat_config, (config,), result),
    ensures
        match result {
            Ok(section) => config == Some(section) && section.enabled,
            Err(error) => if config is None {
                error is NotConfigured
            } else {
                !config->0.enabled && error is Disabled
            },
        },
{
}

/// A directory that is configured is used as it is written; else it is `wechat` in
/// the data directory.
pub proof fn law_state_directory(
    state_dir: Option<&str>,
    data_dir: Option<&PathBuf>,
    directory: PathBuf,
)
    requires
        state_dir is Some || data_dir is Some,
        call_ensures(resolve_wechat_state_dir, (state_dir, data_dir), directory),
    ensures
        match state_dir {
            Some(configured) => directory == path_of(configured@),
            None => directory == joined_path(*data_dir->0, "wechat"@),
        },
{
}

/// A server is used exactly where its address, without white space around it and
/// slashes at its end, begins with `https://`. Where none is configured it is the
/// public one.
pub proof fn law_server(configured: Option<&str>, result: Result<String, WeChatQrLoginError>)
    requires
        call_ensures(resolve_wechat_api_base_url, (configured,), result),
    ensures
        match configured {
            Some(configured) => {
                let address = without_trailing(trimmed(configured@), '/');
                match result {
                    Ok(server) => "https://"@.is_prefix_of(address) && server@ == address,
                    Err(error) => !"https://"@.is_prefix_of(address) && error
                        is InsecureApiBaseUrl,
                }
            },
            None => result matches Ok(server) && server@ == "https://ilinkai.weixin.qq.com"@,
        },
{
}

/// The endpoints of the bot interface stand under the server's address.
pub proof fn law_endpoint(base_url: &str, endpoint: &str, url: String)
    requires
        call_ensures(wechat_api_url, (base_url, endpoint), url),
    ensures
        url@ == without_trailing(base_url@, '/') + "/ilink/bot/"@ + endpoint@,
{
}

// ---- the users ----

/// True where an entry of `list`, without white space around it, is `user`.
pub open spec fn names(list: Seq<String>, user: Seq<char>) -> bool {
    exists|index: int| 0 <= index < list.len() && trimmed((#[trigger] list[index])@) == user
}

/// True of a text that names one user: it is not empty and not the wildcard.
pub open spec fn is_one_user(user: Seq<char>) -> bool {
    user.len() > 0 && user != "*"@
}

/// True where no entry of `list` comes twice.
pub open spec fn is_free_of_repetition(list: Seq<String>) -> bool {
    forall|first: int, second: int|
        0 <= first < second < list.len() ==> (#[trigger] list[first])@ != (
        #[trigger] list[second])@
}

/// True where `user` is an entry of `list`.
pub open spec fn lists(list: Seq<String>, user: Seq<char>) -> bool {
    exists|index: int| 0 <= index < list.len() && (#[trigger] list[index])@ == user
}

/// True of the users that are bound after a login of `user`, where `kept` were bound
/// before it.
pub open spec fn binds(
    mode: WeChatQrBindMode,
    kept: Seq<String>,
    user: Seq<char>,
    bound: Seq<String>,
) -> bool {
    match mode {
        WeChatQrBindMode::Append => {
            let added: int = if lists(kept, user) {
                0
            } else {
                1
            };
            &&& bound.len() == kept.len() + added
            &&& forall|index: int|
                0 <= index < kept.len() ==> (#[trigger] bound[index])@ == kept[index]@
            &&& added == 1 ==> bound.last()@ == user
        },
        WeChatQrBindMode::Replace => bound.len() == 1 && bound[0]@ == user,
    }
}

pub(crate) proof fn lemma_lists(list: Seq<String>, user: Seq<char>)
    ensures
        texts(list).contains(user) <==> lists(list, user),
{
    if texts(list).contains(user) {
        let index = texts(list).index_of(user);
        assert(list[index]@ == user);
    }
    if lists(list, user) {
        let index = choose|index: int|
            0 <= index < list.len() && (#[trigger] list[index])@ == user;
        assert(texts(list)[index] == user);
    }
}

pub(crate) proof fn lemma_binds(
    mode: WeChatQrBindMode,
    kept: Seq<String>,
    user: Seq<char>,
    bound: Seq<String>,
)
    requires
        texts(bound) == users_after_login(mode, texts(kept), user),
    ensures
        binds(mode, kept, user, bound),
{
    lemma_lists(kept, user);
    assert(texts(bound).len() == bound.len());
    assert forall|index: int| 0 <= index < bound.len() implies (#[trigger] bound[index])@ == texts(
        bound,
    )[index] by {}
    assert forall|index: int| 0 <= index < kept.len() implies (#[trigger] kept[index])@ == texts(
        kept,
    )[index] by {}
}

proof fn lemma_names(list: Seq<String>, user: Seq<char>)
    ensures
        concrete_users(texts(list)).contains(user) <==> is_one_user(user) && names(list, user),
{
    law_normalized_membership(texts(list), user);
    if names(list, user) {
        let index = choose|index: int|
            0 <= index < list.len() && trimmed((#[trigger] list[index])@) == user;
        assert(trimmed(texts(list)[index]) == user);
    }
    if concrete_users(texts(list)).contains(user) {
        let index = choose|index: int|
            0 <= index < texts(list).len() && trimmed(#[trigger] texts(list)[index]) == user;
        assert(trimmed(list[index]@) == user);
    }
}

proof fn lemma_free_of_repetition(list: Seq<String>)
    requires
        texts(list).no_duplicates(),
    ensures
        is_free_of_repetition(list),
{
    assert forall|first: int, second: int| 0 <= first < second < list.len() implies (
    #[trigger] list[first])@ != (#[trigger] list[second])@ by {
        assert(texts(list)[first] != texts(list)[second]);
    }
}

/// Normalizing a list leaves the users that its entries name, without white space
/// around them, each once.
pub proof fn law_users_of_a_list(users: &[String], list: Vec<String>, user: Seq<char>)
    requires
        call_ensures(normalized_concrete_users, (users,), list),
    ensures
        lists(list@, user) <==> is_one_user(user) && names(users@, user),
        is_free_of_repetition(list@),
{
    lemma_lists(list@, user);
    lemma_names(users@, user);
    law_normalized_entries(texts(users@));
    lemma_free_of_repetition(list@);
}

/// Normalizing a list keeps the order in which users come first: where one user
/// stands before another, some entry that names it comes before every entry that
/// names the other.
pub proof fn law_order_of_a_list(users: &[String], list: Vec<String>, first: int, second: int)
    requires
        call_ensures(normalized_concrete_users, (users,), list),
        0 <= first < second < list@.len(),
    ensures
        exists|index: int|
            0 <= index < users@.len() && trimmed((#[trigger] users@[index])@) == list@[first]@
                && forall|earlier: int|
                0 <= earlier <= index ==> trimmed((#[trigger] users@[earlier])@)
                    != list@[second]@,
{
    let all = texts(users@);
    assert(texts(list@)[first] == list@[first]@);
    assert(texts(list@)[second] == list@[second]@);
    law_normalized_order(all, first, second);
    let index = choose|index: int|
        0 <= index < all.len() && trimmed(#[trigger] all[index]) == concrete_users(all)[first]
            && forall|earlier: int|
            0 <= earlier <= index ==> trimmed(#[trigger] all[earlier]) != concrete_users(
                all,
            )[second];
    assert(trimmed(users@[index]@) == list@[first]@);
    assert forall|earlier: int| 0 <= earlier <= index implies trimmed(
        (#[trigger] users@[earlier])@,
    ) != list@[second]@ by {
        assert(trimmed(all[earlier]) != concrete_users(all)[second]);
    }
}

/// The users that are kept on disk are those of the list in the file; where there is
/// no file there are none.
pub proof fn law_users_on_disk(
    bindings: Option<&BindingsData>,
    kept: Vec<String>,
    users: &[String],
    list: Vec<String>,
)
    requires
        call_ensures(load_persisted_bound_users, (bindings,), kept),
        bindings matches Some(bindings) ==> users@ == bindings.bound_users@,
        call_ensures(normalized_concrete_users, (users,), list),
    ensures
        bindings is None ==> kept@.len() == 0,
        bindings is Some ==> kept@.len() == list@.len() && forall|index: int|
            0 <= index < kept@.len() ==> (#[trigger] kept@[index])@ == list@[index]@,
{
    lemma_no_concrete_users();
    assert(texts(kept@).len() == kept@.len());
    assert(texts(list@).len() == list@.len());
    assert forall|index: int| 0 <= index < kept@.len() implies (#[trigger] kept@[index])@ == texts(
        kept@,
    )[index] by {}
    assert forall|index: int| 0 <= index < list@.len() implies (#[trigger] list@[index])@ == texts(
        list@,
    )[index] by {}
    if bindings is Some {
        assert(texts(kept@) == texts(list@));
        assert forall|index: int| 0 <= index < kept@.len() implies (#[trigger] kept@[index])@
            == list@[index]@ by {
            assert(texts(kept@)[index] == texts(list@)[index]);
        }
    }
}

/// A login in mode `Append` leaves those that were kept and its user after them,
/// unless it is one of them; one in mode `Replace` leaves its user alone.
pub proof fn law_login_binds_its_user(
    before: Option<&BindingsData>,
    mode: WeChatQrBindMode,
    user: &str,
    kept: Vec<String>,
    updated: BindingsData,
)
    requires
        call_ensures(load_persisted_bound_users, (before,), kept),
        call_ensures(bindings_after_login, (before, mode, user), updated),
    ensures
        binds(mode, kept@, user@, updated.bound_users@),
{
    lemma_binds(mode, kept@, user@, updated.bound_users@);
}

/// Where no mode is named the users that were bound stay.
pub proof fn law_mode_without_a_name(mode: WeChatQrBindMode)
    requires
        call_ensures(WeChatQrBindMode::default, (), mode),
    ensures
        mode == WeChatQrBindMode::Append,
{
}

// ---- the account ----

/// A bot is logged in exactly where an account is kept with a token that is more
/// than white space.
pub proof fn law_token_is_kept(account: Option<&AccountData>, answer: bool)
    requires
        call_ensures(has_persisted_bot_token, (account,), answer),
    ensures
        answer <==> account is Some && is_named(account->0.token),
{
}

/// True of an account that holds what it was made of.
pub open spec fn is_account_of(
    account: AccountData,
    token: &str,
    account_id: &str,
    base_url: Option<&str>,
    user_id: Option<&str>,
) -> bool {
    &&& account.token matches Some(kept) && kept@ == token@
    &&& account.account_id matches Some(kept) && kept@ == account_id@
    &&& account.base_url is Some <==> base_url is Some
    &&& account.base_url matches Some(kept) ==> kept@ == base_url->0@
    &&& account.user_id is Some <==> user_id is Some
    &&& account.user_id matches Some(kept) ==> kept@ == user_id->0@
}

/// An account holds what it was made of, and when.
pub proof fn law_account_holds_what_it_was_made_of(
    token: &str,
    account_id: &str,
    base_url: Option<&str>,
    user_id: Option<&str>,
    saved_at: String,
    account: AccountData,
    account_now: AccountData,
)
    requires
        call_ensures(account_data_at, (token, account_id, base_url, user_id, saved_at), account),
        call_ensures(account_data, (token, account_id, base_url, user_id), account_now),
    ensures
        is_account_of(account, token, account_id, base_url, user_id),
        account.saved_at matches Some(kept) && kept@ == saved_at@,
        is_account_of(account_now, token, account_id, base_url, user_id),
        account_now.saved_at matches Some(kept) && is_rfc3339_utc(kept@),
{
}

// ---- the state of the channel ----

/// A channel that is not configured or switched off shows nothing but where it would
/// be kept, whatever the files hold.
pub proof fn law_status_of_a_channel_that_is_off(
    config: Option<&WeChatConfig>,
    data_dir: Option<&PathBuf>,
    bindings: Option<&BindingsData>,
    account: Option<&AccountData>,
    status: WeChatBindingStatus,
)
    requires
        config is None || !config->0.enabled,
        call_ensures(load_wechat_binding_status, (config, data_dir, bindings, account), status),
    ensures
        !status.enabled && !status.bot_logged_in && !status.allow_all && !status.bound,
        status.bound_users@.len() == 0 && status.bound_user_count == 0,
        status.binding_mode is Disabled,
        match config {
            Some(section) => leads_to(section, data_dir, status.state_dir),
            None => data_dir matches Some(data_dir) ==> status.state_dir == joined_path(
                *data_dir,
                "wechat"@,
            ),
        },
{
    assert(texts(status.bound_users@).len() == status.bound_users@.len());
}

/// A channel that is switched on shows whether a token is kept, whether everybody is
/// let in, and who is bound. The bot is logged in exactly where a token is kept,
/// whoever is bound; everybody is let in exactly where the configuration lists the
/// wildcard, whatever the files hold.
pub proof fn law_status_of_a_channel_that_is_on(
    section: &WeChatConfig,
    data_dir: Option<&PathBuf>,
    bindings: Option<&BindingsData>,
    account: Option<&AccountData>,
    status: WeChatBindingStatus,
    user: Seq<char>,
)
    requires
        section.enabled,
        call_ensures(
            load_wechat_binding_status,
            (Some(section), data_dir, bindings, account),
            status,
        ),
    ensures
        status.enabled,
        leads_to(section, data_dir, status.state_dir),
        status.bot_logged_in <==> account is Some && is_named(account->0.token),
        status.allow_all <==> names(section.allowed_users@, "*"@),
        status.bound <==> status.bound_users@.len() > 0,
        status.bound_user_count == status.bound_users@.len(),
        status.bound ==> status.binding_mode is BoundUsers,
        !status.bound && status.allow_all ==> status.binding_mode is AllowAll,
        !status.bound && !status.allow_all ==> status.binding_mode is PairingRequired,
        lists(status.bound_users@, user) <==> is_one_user(user) && (names(
            section.allowed_users@,
            user,
        ) || bindings is Some && names(bindings->0.bound_users@, user)),
        is_free_of_repetition(status.bound_users@),
{
    let allowed = texts(section.allowed_users@);
    let shown = texts(status.bound_users@);
    assert(shown.len() == status.bound_users@.len());
    lemma_lists(status.bound_users@, user);
    lemma_names(section.allowed_users@, user);
    if let Some(bindings) = bindings {
        lemma_names(bindings.bound_users@, user);
    }
    lemma_no_concrete_users();
    law_status_lists_configured_and_persisted_users(section, data_dir, bindings, account, user);
    law_normalized_entries(allowed + persisted_entries(bindings));
    lemma_free_of_repetition(status.bound_users@);
    if status.allow_all {
        let index = choose|index: int|
            0 <= index < allowed.len() && trimmed(#[trigger] allowed[index]) == "*"@;
        assert(trimmed(section.allowed_users@[index]@) == "*"@);
    }
    if names(section.allowed_users@, "*"@) {
        let index = choose|index: int|
            0 <= index < section.allowed_users@.len() && trimmed(
                (#[trigger] section.allowed_users@[index])@,
            ) == "*"@;
        assert(trimmed(allowed[index]) == "*"@);
    }
}

proof fn lemma_filtered_from(
    list: Seq<Seq<char>>,
    keep: spec_fn(Seq<char>) -> bool,
    user: Seq<char>,
)
    requires
        list.filter(keep).contains(user),
    ensures
        list.contains(user),
    decreases list.len(),
{
    reveal(Seq::filter);
    if list.len() > 0 {
        let rest = list.drop_last();
        if rest.filter(keep).contains(user) {
            lemma_filtered_from(rest, keep, user);
            assert(list[rest.index_of(user)] == user);
        } else {
            let index = list.filter(keep).index_of(user);
            if index < rest.filter(keep).len() {
                assert(rest.filter(keep)[index] == user);
            }
            assert(list[list.len() - 1] == user);
        }
    }
}

proof fn lemma_users_of_two_lists(front: Seq<Seq<char>>, back: Seq<Seq<char>>)
    ensures
        concrete_users(front + back) == concrete_users(front) + concrete_users(back).filter(
            |user: Seq<char>| !concrete_users(front).contains(user),
        ),
    decreases back.len(),
{
    reveal(Seq::filter);
    let known = concrete_users(front);
    let is_new = |user: Seq<char>| !known.contains(user);
    if back.len() == 0 {
        lemma_no_concrete_users();
        assert(back =~= Seq::<Seq<char>>::empty());
        assert(front + back =~= front);
        assert(concrete_users(back).filter(is_new) =~= Seq::<Seq<char>>::empty());
    } else {
        let rest = back.drop_last();
        let user = trimmed(back.last());
        let more = concrete_users(rest);
        lemma_users_of_two_lists(front, rest);
        assert(rest.push(back.last()) =~= back);
        assert(front + back =~= (front + rest).push(back.last()));
        lemma_concrete_users_push(rest, back.last());
        lemma_concrete_users_push(front + rest, back.last());
        assert(more.push(user).drop_last() =~= more);
        let new = more.filter(is_new);
        if known.contains(user) {
            assert((known + new)[known.index_of(user)] == user);
        } else if more.contains(user) {
            let index = more.index_of(user);
            more.lemma_filter_contains(is_new, index);
            assert((known + new)[known.len() + new.index_of(user)] == user);
        } else {
            assert(!new.contains(user)) by {
                if new.contains(user) {
                    lemma_filtered_from(more, is_new, user);
                }
            }
            assert(!(known + new).contains(user)) by {
                if (known + new).contains(user) {
                    let index = (known + new).index_of(user);
                    if index < known.len() {
                        assert(known[index] == user);
                    } else {
                        assert(new[index - known.len()] == user);
                    }
                }
            }
        }
        assert(concrete_users(front + back) =~= known + concrete_users(back).filter(is_new));
    }
}

/// The users that are shown are those of the configuration, in their order, and then
/// those on disk that the configuration does not name, in theirs.
pub proof fn law_configured_users_are_shown_first(
    section: &WeChatConfig,
    data_dir: Option<&PathBuf>,
    bindings: Option<&BindingsData>,
    account: Option<&AccountData>,
    status: WeChatBindingStatus,
    allowed: &[String],
    configured: Vec<String>,
    kept: Vec<String>,
)
    requires
        section.enabled,
        allowed@ == section.allowed_users@,
        call_ensures(
            load_wechat_binding_status,
            (Some(section), data_dir, bindings, account),
            status,
        ),
        call_ensures(normalized_concrete_users, (allowed,), configured),
        call_ensures(load_persisted_bound_users, (bindings,), kept),
    ensures
        texts(status.bound_users@) == texts(configured@) + texts(kept@).filter(
            |user: Seq<char>| !texts(configured@).contains(user),
        ),
{
    lemma_users_of_two_lists(texts(allowed@), persisted_entries(bindings));
}

// ---- after a wait ----

/// Once a wait has ended with a new account, a supervisor is told to reload after a
/// fifth of a second, and where there is none somebody has to restart. Without a new
/// account nothing is to be done.
pub proof fn law_what_follows_a_wait(
    outcome: &Result<WeChatQrLoginWait, WeChatQrLoginError>,
    supervised: bool,
    followup: WeChatQrFollowup,
)
    requires
        call_ensures(plan_qr_login_followup, (outcome, supervised), followup),
    ensures
        match *outcome {
            Ok(wait) => match (wait.connected, supervised) {
                (true, true) => followup == WeChatQrFollowup::RequestReload { delay_ms: 200 },
                (true, false) => followup == WeChatQrFollowup::RestartManually,
                (false, _) => followup == WeChatQrFollowup::Finished,
            },
            Err(_) => followup == WeChatQrFollowup::Failed,
        },
{
}

// ---- errors in words ----

/// The words of an error say what went wrong, and repeat what the server or the
/// caller said.
pub proof fn law_words_of_an_error(error: &WeChatQrLoginError, words: String)
    requires
        call_ensures(WeChatQrLoginError::message, (error,), words),
    ensures
        words@ == match *error {
            WeChatQrLoginError::NotConfigured => "WeChat channel is not configured"@,
            WeChatQrLoginError::Disabled => "WeChat channel is configured but disabled"@,
            WeChatQrLoginError::InsecureApiBaseUrl => "WeChat API base URL must use https"@,
            WeChatQrLoginError::StartRequestFailed => "WeChat QR login start request failed"@,
            WeChatQrLoginError::StartRejected { status, body } => {
                "WeChat QR login start failed ("@ + status@ + "): "@ + body@
            },
            WeChatQrLoginError::StartResponseUnreadable => {
                "WeChat QR login start response parse failed"@
            },
            WeChatQrLoginError::EmptyQrCode => "WeChat QR login start returned empty qrcode"@,
            WeChatQrLoginError::SessionNotFound { session_key } => {
                "WeChat QR session not found: "@ + session_key@
            },
            WeChatQrLoginError::WaitRejected { status, body } => {
                "WeChat QR login wait failed ("@ + status@ + "): "@ + body@
            },
            WeChatQrLoginError::WaitResponseUnreadable => {
                "WeChat QR login wait response parse failed"@
            },
            WeChatQrLoginError::MissingBotToken => "WeChat QR login confirmed without bot_token"@,
            WeChatQrLoginError::MissingBotId => "WeChat QR login confirmed without ilink_bot_id"@,
            WeChatQrLoginError::Storage { message } => message@,
        },
{
}

/// Whatever fails a login, the routes answer that it could not be started, and why.
pub proof fn law_words_of_the_routes(
    error: WeChatQrLoginError,
    words: String,
    answer: WeChatApiError,
    answered: String,
)
    requires
        call_ensures(WeChatQrLoginError::message, (&error,), words),
        call_ensures(
            <WeChatApiError as From<WeChatQrLoginError>>::from,
            (error,),
            answer,
        ),
        call_ensures(WeChatApiError::message, (&answer,), answered),
    ensures
        answer matches WeChatApiError::StartFailed(told) && told@ == words@,
        answered@ == "WeChat QR login start failed: "@ + words@,
{
}

/// The words of the routes where there is no channel to log in to.
pub proof fn law_words_without_a_channel(answer: &WeChatApiError, answered: String)
    requires
        call_ensures(WeChatApiError::message, (answer,), answered),
    ensures
        *answer is NotConfigured ==> answered@ == "WeChat channel is not configured"@,
        *answer is Disabled ==> answered@ == "WeChat channel is configured but disabled"@,
{
}

// ---- who is asked and who is told ----

/// The handler that is asked is the one that was installed last, and nobody before
/// one was installed.
pub proof fn law_last_handler_is_asked<H: WechatBindingHandler + ?Sized>(
    empty: HandlerSlot<H>,
    nobody: Option<Arc<H>>,
    slot: &mut HandlerSlot<H>,
    installed: Arc<H>,
    asked: Option<Arc<H>>,
)
    requires
        call_ensures(HandlerSlot::<H>::new, (), empty),
        call_ensures(handler::<H>, (&empty,), nobody),
        call_ensures(install_handler::<H>, (slot, installed), ()),
        call_ensures(handler::<H>, (&*final(slot),), asked),
    ensures
        nobody is None,
        asked == Some(installed),
{
}

/// Those that are told are clones of the senders that were installed last, each in
/// its place, and nobody before some were installed.
pub proof fn law_last_supervisor_is_told<S: Clone>(
    empty: SupervisorSlot<S>,
    nobody: Option<(S, Option<S>)>,
    slot: &mut SupervisorSlot<S>,
    shutdown_tx: S,
    reload_tx: Option<S>,
    told: Option<(S, Option<S>)>,
)
    requires
        call_ensures(SupervisorSlot::<S>::new, (), empty),
        call_ensures(supervisor_senders::<S>, (&empty,), nobody),
        call_ensures(install_supervisor_senders::<S>, (slot, shutdown_tx, reload_tx), ()),
        call_ensures(supervisor_senders::<S>, (&*final(slot),), told),
    ensures
        nobody is None,
        told matches Some((shutdown, reload)) && cloned::<S>(shutdown_tx, shutdown) && match (
            reload_tx,
            reload,
        ) {
            (Some(reload_tx), Some(reload)) => cloned::<S>(reload_tx, reload),
            (reload_tx, reload) => reload_tx is None && reload is None,
        },
{
}

/// A wait in the background tells the supervisor, and nobody where there is none;
/// then there is no way to reload.
pub proof fn law_who_a_wait_tells<S>(
    senders: Option<(S, Option<S>)>,
    detached: S,
    handed: (S, Option<S>),
)
    requires
        call_ensures(senders_for_followup::<S>, (senders, detached), handed),
    ensures
        senders matches Some(senders) ==> handed == senders,
        senders is None ==> handed.0 == detached && handed.1 is None,
{
}

// ---- the clock ----

/// A reading of the clock that fits is taken as it is, and one that does not is taken
/// up to whole turns of 64 bits. A clock that stands before the epoch reads zero.
pub proof fn law_reading_of_the_clock(elapsed: Option<u128>, now: u64)
    requires
        call_ensures(epoch_ms, (elapsed,), now),
    ensures
        elapsed is None ==> now == 0,
        elapsed matches Some(ms) ==> ms <= u64::MAX ==> now == ms,
        elapsed matches Some(ms) ==> exists|turns: int|
            ms == now + #[trigger] (turns * 0x1_0000_0000_0000_0000),
{
    if let Some(ms) = elapsed {
        let turns = ms as int / 0x1_0000_0000_0000_0000;
        assert(ms == now + turns * 0x1_0000_0000_0000_0000);
    }
}

} // verus!
