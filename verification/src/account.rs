//! The account of the bot, as it is kept on disk.

use crate::outside::{is_rfc3339_utc, utc_now_rfc3339};
use crate::text::{blank, is_blank, opt_str, opt_text};
use vstd::prelude::*;

verus! {

/// The account of the bot. Every part of it may be missing.
#[derive(Debug)]
pub struct AccountData {
    pub token: Option<String>,
    pub base_url: Option<String>,
    pub account_id: Option<String>,
    pub user_id: Option<String>,
    pub saved_at: Option<String>,
}

/// What an [`AccountData`] holds.
pub struct AccountView {
    pub token: Option<Seq<char>>,
    pub base_url: Option<Seq<char>>,
    pub account_id: Option<Seq<char>>,
    pub user_id: Option<Seq<char>>,
    pub saved_at: Option<Seq<char>>,
}

impl View for AccountData {
    type V = AccountView;

    open spec fn view(&self) -> AccountView {
        AccountView {
            token: opt_text(self.token),
            base_url: opt_text(self.base_url),
            account_id: opt_text(self.account_id),
            user_id: opt_text(self.user_id),
            saved_at: opt_text(self.saved_at),
        }
    }
}

/// True where a token is kept that is not blank.
pub open spec fn holds_token(account: Option<&AccountData>) -> bool {
    account matches Some(account) && account.token matches Some(token) && !is_blank(token@)
}

/// Tells whether a token is kept. `account` is what the file holds; `None` stands
/// for a file that is missing or unreadable.
pub fn has_persisted_bot_token(account: Option<&AccountData>) -> (answer: bool)
    ensures
        answer == holds_token(account),
{
    match account {
        Some(account) => match &account.token {
            Some(token) => !blank(token.as_str()),
            None => false,
        },
        None => false,
    }
}

fn owned(value: Option<&str>) -> (copy: Option<String>)
    ensures
        opt_text(copy) == opt_str(value),
{
    match value {
        Some(value) => Some(value.to_owned()),
        None => None,
    }
}

/// The account to be kept once a login has been confirmed at the time `saved_at`.
pub fn account_data_at(
    token: &str,
    account_id: &str,
    base_url: Option<&str>,
    user_id: Option<&str>,
    saved_at: String,
) -> (account: AccountData)
    ensures
        account@ == (AccountView {
            token: Some(token@),
            base_url: opt_str(base_url),
            account_id: Some(account_id@),
            user_id: opt_str(user_id),
            saved_at: Some(saved_at@),
        }),
{
    AccountData {
        token: Some(token.to_owned()),
        base_url: owned(base_url),
        account_id: Some(account_id.to_owned()),
        user_id: owned(user_id),
        saved_at: Some(saved_at),
    }
}

/// The account to be kept once a login has been confirmed, which is now.
pub fn account_data(
    token: &str,
    account_id: &str,
    base_url: Option<&str>,
    user_id: Option<&str>,
) -> (account: AccountData)
    ensures
        account@ == (AccountView {
            token: Some(token@),
            base_url: opt_str(base_url),
            account_id: Some(account_id@),
            user_id: opt_str(user_id),
            saved_at: account@.saved_at,
        }),
        account@.saved_at matches Some(saved_at) && is_rfc3339_utc(saved_at),
{
    account_data_at(token, account_id, base_url, user_id, utc_now_rfc3339())
}

} // verus!
