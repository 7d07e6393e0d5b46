//! The WeChat section of the configuration, and what follows from it.

use crate::errors::WeChatQrLoginError;
use crate::outside::{joined_path, path_from, path_join, path_of};
use crate::text::{
    concat3, lemma_without_trailing, opt_str, starts_with, trim_trailing, trimmed, without_trailing,
};
use std::path::PathBuf;
use vstd::prelude::*;

verus! {

/// The server that is asked where no other is configured.
pub const DEFAULT_API_BASE_URL: &'static str = "https://ilinkai.weixin.qq.com";

/// The WeChat section of the configuration.
#[derive(Debug, Clone)]
pub struct WeChatConfig {
    pub enabled: bool,
    pub allowed_users: Vec<String>,
    pub api_base_url: Option<String>,
    pub cdn_base_url: Option<String>,
    pub state_dir: Option<String>,
}

/// True of a section that is there and switched on.
pub open spec fn is_enabled(config: Option<&WeChatConfig>) -> bool {
    config matches Some(section) && section.enabled
}

/// The section, where there is one and it is switched on.
pub fn enabled_wechat_config(config: Option<&WeChatConfig>) -> (section: Result<
    &WeChatConfig,
    WeChatQrLoginError,
>)
    ensures
        section == match config {
            None => Err::<&WeChatConfig, WeChatQrLoginError>(WeChatQrLoginError::NotConfigured),
            Some(section) if !section.enabled => Err(WeChatQrLoginError::Disabled),
            Some(section) => Ok(section),
        },
{
    match config {
        None => Err(WeChatQrLoginError::NotConfigured),
        Some(section) => {
            if !section.enabled {
                Err(WeChatQrLoginError::Disabled)
            } else {
                Ok(section)
            }
        },
    }
}

/// Where the account, the bindings and the cursor are kept: the configured
/// directory, else `wechat` in the data directory.
pub open spec fn state_dir_of(state_dir: Option<Seq<char>>, data_dir: Option<&PathBuf>) -> PathBuf {
    match state_dir {
        Some(state_dir) => path_of(state_dir),
        None => joined_path(*data_dir->0, "wechat"@),
    }
}

/// Where the account, the bindings and the cursor are kept: the configured
/// directory as it is written, else `wechat` in the data directory. One of the
/// two has to be known.
pub fn resolve_wechat_state_dir(state_dir: Option<&str>, data_dir: Option<&PathBuf>) -> (path:
    PathBuf)
    requires
        state_dir is Some || data_dir is Some,
    ensures
        path == state_dir_of(opt_str(state_dir), data_dir),
{
    match state_dir {
        Some(state_dir) => path_from(state_dir),
        None => path_join(data_dir.unwrap(), "wechat"),
    }
}

/// The address of the server, before it is looked at how it is reached: what is
/// configured, else the default, without white space around it and without
/// slashes at its end.
pub open spec fn base_url_of(configured: Option<Seq<char>>) -> Seq<char> {
    let url = match configured {
        Some(url) => url,
        None => DEFAULT_API_BASE_URL@,
    };
    without_trailing(trimmed(url), '/')
}

/// True of an address that is reached by https.
pub open spec fn is_https(url: Seq<char>) -> bool {
    "https://"@.is_prefix_of(url)
}

/// The address of the server. An address that is not reached by https is refused;
/// the default never is.
pub fn resolve_wechat_api_base_url(configured: Option<&str>) -> (resolved: Result<
    String,
    WeChatQrLoginError,
>)
    ensures
        match resolved {
            Ok(url) => is_https(base_url_of(opt_str(configured))) && url@ == base_url_of(
                opt_str(configured),
            ),
            Err(error) => !is_https(base_url_of(opt_str(configured)))
                && error is InsecureApiBaseUrl,
        },
        configured is None ==> resolved is Ok && resolved->Ok_0@ == DEFAULT_API_BASE_URL@,
{
    proof {
        law_default_base_url();
    }
    let url = match configured {
        Some(url) => url,
        None => DEFAULT_API_BASE_URL,
    };
    let base_url = trim_trailing(url.trim(), '/');
    if !starts_with(base_url, "https://") {
        return Err(WeChatQrLoginError::InsecureApiBaseUrl);
    }
    Ok(base_url.to_owned())
}

/// The address of an endpoint of the bot interface.
pub open spec fn api_url(base_url: Seq<char>, endpoint: Seq<char>) -> Seq<char> {
    without_trailing(base_url, '/') + "/ilink/bot/"@ + endpoint
}

/// The address of an endpoint of the bot interface.
pub fn wechat_api_url(base_url: &str, endpoint: &str) -> (url: String)
    ensures
        url@ == api_url(base_url@, endpoint@),
{
    concat3(trim_trailing(base_url, '/'), "/ilink/bot/", endpoint)
}

/// Where no server is configured, the default is used as it is written, and it is
/// reached by https.
pub proof fn law_default_base_url()
    ensures
        base_url_of(None) == DEFAULT_API_BASE_URL@,
        is_https(base_url_of(None)),
{
    reveal_strlit("https://ilinkai.weixin.qq.com");
    reveal_strlit("https://");
}

/// An address that was resolved ends with no slash, and the endpoints stand under
/// it as it is.
pub proof fn law_endpoints_stand_under_base_url(configured: Option<Seq<char>>, endpoint: Seq<char>)
    ensures
        base_url_of(configured).len() > 0 ==> base_url_of(configured).last() != '/',
        api_url(base_url_of(configured), endpoint) == base_url_of(configured) + "/ilink/bot/"@
            + endpoint,
{
    let url = match configured {
        Some(url) => url,
        None => DEFAULT_API_BASE_URL@,
    };
    lemma_without_trailing(trimmed(url), '/');
}

/// A slash more at the end of the server's address makes no difference.
pub proof fn law_trailing_slash_is_ignored(base_url: Seq<char>, endpoint: Seq<char>)
    ensures
        api_url(base_url.push('/'), endpoint) == api_url(base_url, endpoint),
{
    lemma_without_trailing(base_url, '/');
}

/// A configured directory is used as it is written, whatever the data directory is.
pub proof fn law_explicit_state_dir_wins(
    state_dir: Seq<char>,
    data_dir: Option<&PathBuf>,
    other: Option<&PathBuf>,
)
    ensures
        state_dir_of(Some(state_dir), data_dir) == path_of(state_dir),
        state_dir_of(Some(state_dir), data_dir) == state_dir_of(Some(state_dir), other),
{
}

} // verus!
