//! What is bound, as it is shown to those who ask.

use crate::account::{has_persisted_bot_token, holds_token, AccountData};
use crate::bound_users::{
    add_concrete_users, concrete_users, is_concrete, law_append_keeps_bound_users,
    law_normalized_entries, law_normalized_membership, law_replace_leaves_one_user,
    normalized_concrete_users, persisted_entries, persisted_users, users_after_login, BindingsData,
    WeChatQrBindMode,
};
use crate::config::{resolve_wechat_state_dir, state_dir_of, WeChatConfig};
use crate::text::{as_opt_str, opt_text, texts, trimmed};
use std::path::PathBuf;
use vstd::prelude::*;

verus! {

/// Who may talk to the bot.
#[derive(Debug, Clone, Copy, PartialEq, Eq, Structural)]
pub enum WeChatBindingMode {
    /// Nobody: the channel is switched off or not configured.
    Disabled,
    /// The users that are listed.
    BoundUsers,
    /// Everybody, with no user listed.
    AllowAll,
    /// Nobody yet: a user has to be bound first.
    PairingRequired,
}

/// What is bound.
#[derive(Debug, Clone, PartialEq, Eq)]
pub struct WeChatBindingStatus {
    pub enabled: bool,
    pub state_dir: PathBuf,
    pub bot_logged_in: bool,
    pub allow_all: bool,
    pub bound: bool,
    pub bound_user_count: usize,
    pub bound_users: Vec<String>,
    pub binding_mode: WeChatBindingMode,
}

/// What a [`WeChatBindingStatus`] holds.
pub struct BindingStatusView {
    pub enabled: bool,
    pub state_dir: PathBuf,
    pub bot_logged_in: bool,
    pub allow_all: bool,
    pub bound: bool,
    pub bound_user_count: nat,
    pub bound_users: Seq<Seq<char>>,
    pub binding_mode: WeChatBindingMode,
}

impl View for WeChatBindingStatus {
    type V = BindingStatusView;

    open spec fn view(&self) -> BindingStatusView {
        BindingStatusView {
            enabled: self.enabled,
            state_dir: self.state_dir,
            bot_logged_in: self.bot_logged_in,
            allow_all: self.allow_all,
            bound: self.bound,
            bound_user_count: self.bound_user_count as nat,
            bound_users: texts(self.bound_users@),
            binding_mode: self.binding_mode,
        }
    }
}

/// True where an entry of `users`, trimmed, is the wildcard.
pub open spec fn allows_everybody(users: Seq<Seq<char>>) -> bool {
    exists|index: int| 0 <= index < users.len() && trimmed(#[trigger] users[index]) == "*"@
}

/// The state of a channel that is switched on. Configured users come before those
/// kept on disk.
pub open spec fn enabled_status(
    section: &WeChatConfig,
    data_dir: Option<&PathBuf>,
    bindings: Option<&BindingsData>,
    account: Option<&AccountData>,
) -> BindingStatusView {
    let allowed = texts(section.allowed_users@);
    let bound_users = concrete_users(allowed + persisted_entries(bindings));
    let allow_all = allows_everybody(allowed);
    BindingStatusView {
        enabled: true,
        state_dir: state_dir_of(opt_text(section.state_dir), data_dir),
        bot_logged_in: holds_token(account),
        allow_all,
        bound: bound_users.len() > 0,
        bound_user_count: bound_users.len(),
        bound_users,
        binding_mode: if bound_users.len() > 0 {
            WeChatBindingMode::BoundUsers
        } else if allow_all {
            WeChatBindingMode::AllowAll
        } else {
            WeChatBindingMode::PairingRequired
        },
    }
}

/// The state of a channel that is switched off or not configured.
pub open spec fn disabled_status(state_dir: PathBuf) -> BindingStatusView {
    BindingStatusView {
        enabled: false,
        state_dir,
        bot_logged_in: false,
        allow_all: false,
        bound: false,
        bound_user_count: 0,
        bound_users: Seq::empty(),
        binding_mode: WeChatBindingMode::Disabled,
    }
}

/// What is bound, given the section of the configuration.
pub open spec fn binding_status(
    config: Option<&WeChatConfig>,
    data_dir: Option<&PathBuf>,
    bindings: Option<&BindingsData>,
    account: Option<&AccountData>,
) -> BindingStatusView {
    match config {
        Some(section) => if section.enabled {
            enabled_status(section, data_dir, bindings, account)
        } else {
            disabled_status(state_dir_of(opt_text(section.state_dir), data_dir))
        },
        None => disabled_status(state_dir_of(None, data_dir)),
    }
}

/// Tells whether an entry of `users` is the wildcard.
fn has_wildcard(users: &[String]) -> (answer: bool)
    ensures
        answer == allows_everybody(texts(users@)),
{
    let mut index: usize = 0;
    while index < users.len()
        invariant
            index <= users@.len(),
            forall|earlier: int|
                0 <= earlier < index ==> trimmed(#[trigger] texts(users@)[earlier]) != "*"@,
        decreases users@.len() - index,
    {
        if users[index].as_str().trim().eq("*") {
            assert(trimmed(texts(users@)[index as int]) == "*"@);
            return true;
        }
        index += 1;
    }
    false
}

/// What is bound. `bindings` and `account` are what the files of the state
/// directory hold; `None` stands for a file that is missing or unreadable. Where
/// no state directory is configured the data directory has to be known.
pub fn load_wechat_binding_status(
    config: Option<&WeChatConfig>,
    data_dir: Option<&PathBuf>,
    bindings: Option<&BindingsData>,
    account: Option<&AccountData>,
) -> (status: WeChatBindingStatus)
    requires
        data_dir is Some || (config matches Some(section) && section.state_dir is Some),
    ensures
        status@ == binding_status(config, data_dir, bindings, account),
{
    let section = match config {
        Some(section) => section,
        None => {
            return disabled(resolve_wechat_state_dir(None, data_dir));
        },
    };
    let state_dir = resolve_wechat_state_dir(as_opt_str(&section.state_dir), data_dir);
    if !section.enabled {
        return disabled(state_dir);
    }
    let mut bound_users = normalized_concrete_users(section.allowed_users.as_slice());
    match bindings {
        Some(bindings) => {
            add_concrete_users(
                &mut bound_users,
                bindings.bound_users.as_slice(),
                Ghost(texts(section.allowed_users@)),
            );
        },
        None => {
            assert(texts(section.allowed_users@) + persisted_entries(None) =~= texts(
                section.allowed_users@,
            ));
        },
    }
    let allow_all = has_wildcard(section.allowed_users.as_slice());
    let bound = bound_users.len() > 0;
    let binding_mode = if bound {
        WeChatBindingMode::BoundUsers
    } else if allow_all {
        WeChatBindingMode::AllowAll
    } else {
        WeChatBindingMode::PairingRequired
    };
    WeChatBindingStatus {
        enabled: true,
        state_dir,
        bot_logged_in: has_persisted_bot_token(account),
        allow_all,
        bound,
        bound_user_count: bound_users.len(),
        bound_users,
        binding_mode,
    }
}

fn disabled(state_dir: PathBuf) -> (status: WeChatBindingStatus)
    ensures
        status@ == disabled_status(state_dir),
{
    let bound_users: Vec<String> = Vec::new();
    assert(texts(bound_users@) =~= Seq::<Seq<char>>::empty());
    WeChatBindingStatus {
        enabled: false,
        state_dir,
        bot_logged_in: false,
        allow_all: false,
        bound: false,
        bound_user_count: 0,
        bound_users,
        binding_mode: WeChatBindingMode::Disabled,
    }
}

/// The mode, the flags and the list of a state agree with one another.
pub proof fn law_status_is_consistent(
    config: Option<&WeChatConfig>,
    data_dir: Option<&PathBuf>,
    bindings: Option<&BindingsData>,
    account: Option<&AccountData>,
)
    ensures
        ({
            let status = binding_status(config, data_dir, bindings, account);
            &&& status.bound_user_count == status.bound_users.len()
            &&& status.bound <==> status.bound_users.len() > 0
            &&& status.binding_mode is Disabled <==> !status.enabled
            &&& status.binding_mode is BoundUsers <==> status.bound
            &&& status.binding_mode is AllowAll <==> status.allow_all && !status.bound
            &&& status.binding_mode is PairingRequired <==> status.enabled && !status.allow_all
                && !status.bound
            &&& status.bound_users.no_duplicates()
        }),
{
    if let Some(section) = config {
        law_normalized_entries(
            texts(section.allowed_users@) + persisted_entries(bindings),
        );
    }
}

/// The users that are shown are those that the configuration lists and those kept
/// on disk, and no others.
pub proof fn law_status_lists_configured_and_persisted_users(
    section: &WeChatConfig,
    data_dir: Option<&PathBuf>,
    bindings: Option<&BindingsData>,
    account: Option<&AccountData>,
    user: Seq<char>,
)
    requires
        section.enabled,
    ensures
        binding_status(Some(section), data_dir, bindings, account).bound_users.contains(user)
            <==> concrete_users(texts(section.allowed_users@)).contains(user)
            || persisted_users(bindings).contains(user),
{
    let allowed = texts(section.allowed_users@);
    let persisted = persisted_entries(bindings);
    let all = allowed + persisted;
    law_normalized_membership(allowed, user);
    law_normalized_membership(persisted, user);
    law_normalized_membership(all, user);
    assert(forall|index: int| 0 <= index < allowed.len() ==> all[index] == allowed[index]);
    assert(forall|index: int|
        0 <= index < persisted.len() ==> all[allowed.len() + index] == #[trigger] persisted[index]);
    if concrete_users(allowed).contains(user) {
        let index = choose|index: int|
            0 <= index < allowed.len() && trimmed(#[trigger] allowed[index]) == user;
        assert(trimmed(all[index]) == user);
    }
    if concrete_users(persisted).contains(user) {
        let index = choose|index: int|
            0 <= index < persisted.len() && trimmed(#[trigger] persisted[index]) == user;
        assert(trimmed(all[allowed.len() + index]) == user);
    }
    if concrete_users(all).contains(user) {
        let index = choose|index: int|
            0 <= index < all.len() && trimmed(#[trigger] all[index]) == user;
        if index < allowed.len() {
            assert(trimmed(allowed[index]) == user);
        } else {
            assert(trimmed(persisted[index - allowed.len()]) == user);
        }
    }
}

/// Once the bindings and the account that a finished login leaves behind are on
/// disk, the channel shows the user as bound and the bot as logged in. The user's
/// name is trimmed, not empty and not the wildcard; the token is not blank.
pub proof fn law_finished_login_is_shown(
    section: &WeChatConfig,
    data_dir: Option<&PathBuf>,
    mode: WeChatQrBindMode,
    persisted: Seq<Seq<char>>,
    user: Seq<char>,
    bindings: &BindingsData,
    account: &AccountData,
)
    requires
        section.enabled,
        is_concrete(user),
        trimmed(user) == user,
        texts(bindings.bound_users@) == users_after_login(mode, persisted, user),
        holds_token(Some(account)),
    ensures
        ({
            let status = binding_status(Some(section), data_dir, Some(bindings), Some(account));
            &&& status.bot_logged_in
            &&& status.bound
            &&& status.bound_users.contains(user)
            &&& status.binding_mode is BoundUsers
        }),
{
    let written = texts(bindings.bound_users@);
    law_append_keeps_bound_users(persisted, user);
    law_replace_leaves_one_user(persisted, user, user);
    let index = written.index_of(user);
    assert(trimmed(written[index]) == user);
    law_normalized_membership(written, user);
    law_status_lists_configured_and_persisted_users(
        section,
        data_dir,
        Some(bindings),
        Some(account),
        user,
    );
}

} // verus!
