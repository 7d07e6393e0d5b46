use std::path::PathBuf;

use wechat_binding::account::{has_persisted_bot_token, AccountData};
use wechat_binding::bound_users::BindingsData;
use wechat_binding::config::{resolve_wechat_state_dir, WeChatConfig};
use wechat_binding::status::{load_wechat_binding_status, WeChatBindingMode};

fn section(allowed_users: Vec<String>, state_dir: Option<&str>) -> WeChatConfig {
    WeChatConfig {
        enabled: true,
        allowed_users,
        api_base_url: None,
        cdn_base_url: None,
        state_dir: state_dir.map(str::to_string),
    }
}

fn bindings_of(json: &str) -> BindingsData {
    let value: serde_json::Value = serde_json::from_str(json).unwrap();
    let bound_users = value["bound_users"]
        .as_array()
        .unwrap()
        .iter()
        .map(|user| user.as_str().unwrap().to_string())
        .collect();
    BindingsData { bound_users }
}

fn account_of(json: &str) -> AccountData {
    let value: serde_json::Value = serde_json::from_str(json).unwrap();
    AccountData {
        token: value["token"].as_str().map(str::to_string),
        base_url: None,
        account_id: None,
        user_id: None,
        saved_at: None,
    }
}

#[test]
fn disabled_wechat_reports_disabled_status() {
    let data_dir = PathBuf::from("/data");
    let status = load_wechat_binding_status(None, Some(&data_dir), None, None);
    assert!(!status.enabled);
    assert!(!status.bound);
    assert_eq!(status.binding_mode, WeChatBindingMode::Disabled);
}

#[test]
fn enabled_wechat_merges_config_and_persisted_bound_users() {
    let bindings = bindings_of(
        r#"{"bound_users":["persisted-user@im.wechat","config-user@im.wechat","*",""]}"#,
    );
    let account = account_of(r#"{"token":"persisted-token"}"#);

    let status = load_wechat_binding_status(
        Some(&section(
            vec![
                "*".to_string(),
                "config-user@im.wechat".to_string(),
                " ".to_string(),
            ],
            Some("wechat-state"),
        )),
        None,
        Some(&bindings),
        Some(&account),
    );

    assert!(status.enabled);
    assert!(status.bot_logged_in);
    assert!(status.allow_all);
    assert!(status.bound);
    assert_eq!(status.bound_user_count, 2);
    assert_eq!(
        status.bound_users,
        vec![
            "config-user@im.wechat".to_string(),
            "persisted-user@im.wechat".to_string()
        ]
    );
    assert_eq!(status.binding_mode, WeChatBindingMode::BoundUsers);
}

#[test]
fn enabled_wechat_without_users_requires_pairing() {
    let status = load_wechat_binding_status(
        Some(&section(Vec::new(), Some("wechat-state"))),
        None,
        None,
        None,
    );

    assert!(status.enabled);
    assert!(!status.bot_logged_in);
    assert!(!status.allow_all);
    assert!(!status.bound);
    assert_eq!(status.bound_user_count, 0);
    assert!(status.bound_users.is_empty());
    assert_eq!(status.binding_mode, WeChatBindingMode::PairingRequired);
}

#[test]
fn allow_all_without_specific_users_is_not_bound() {
    let status = load_wechat_binding_status(
        Some(&section(vec!["*".to_string()], Some("wechat-state"))),
        None,
        None,
        None,
    );

    assert!(status.enabled);
    assert!(status.allow_all);
    assert!(!status.bound);
    assert_eq!(status.bound_user_count, 0);
    assert_eq!(status.binding_mode, WeChatBindingMode::AllowAll);
}

#[test]
fn explicit_state_dir_is_used_verbatim() {
    let literal = PathBuf::from("~/.zeroclaw/wechat");
    let status = load_wechat_binding_status(
        Some(&section(Vec::new(), Some("~/.zeroclaw/wechat"))),
        None,
        None,
        None,
    );

    assert_eq!(status.state_dir, literal);
}

#[test]
fn explicit_state_dir_takes_priority_over_claw_lite_config_dir() {
    let data_dir = PathBuf::from("/tmp/claw-lite-config");
    let resolved = resolve_wechat_state_dir(Some("/tmp/explicit-wechat"), Some(&data_dir));
    assert_eq!(resolved, PathBuf::from("/tmp/explicit-wechat"));
}

#[test]
fn claw_lite_config_dir_is_used_before_default_path() {
    let data_dir = PathBuf::from("/tmp/claw-lite-config");
    let resolved = resolve_wechat_state_dir(None, Some(&data_dir));
    assert_eq!(resolved, PathBuf::from("/tmp/claw-lite-config/wechat"));
}

#[test]
fn switched_off_channel_shows_nothing_of_what_is_kept() {
    let mut config = section(vec!["a".to_string()], None);
    config.enabled = false;
    let data_dir = PathBuf::from("/data");
    let status = load_wechat_binding_status(
        Some(&config),
        Some(&data_dir),
        Some(&bindings_of(r#"{"bound_users":["b"]}"#)),
        Some(&account_of(r#"{"token":"t"}"#)),
    );
    assert!(!status.enabled);
    assert!(!status.bot_logged_in);
    assert!(!status.allow_all);
    assert_eq!(status.bound_user_count, 0);
    assert!(status.bound_users.is_empty());
    assert_eq!(status.binding_mode, WeChatBindingMode::Disabled);
    assert_eq!(status.state_dir, PathBuf::from("/data/wechat"));
}

#[test]
fn wildcard_on_disk_does_not_allow_everybody() {
    let status = load_wechat_binding_status(
        Some(&section(Vec::new(), Some("s"))),
        None,
        Some(&bindings_of(r#"{"bound_users":["*"]}"#)),
        None,
    );
    assert!(!status.allow_all);
    assert!(!status.bound);
    assert_eq!(status.binding_mode, WeChatBindingMode::PairingRequired);
}

#[test]
fn wildcard_is_recognised_with_white_space_around_it() {
    let status = load_wechat_binding_status(
        Some(&section(vec![" *\t".to_string()], Some("s"))),
        None,
        None,
        None,
    );
    assert!(status.allow_all);
    assert!(!status.bound);
    assert_eq!(status.binding_mode, WeChatBindingMode::AllowAll);
}

#[test]
fn blank_token_is_no_token() {
    assert!(!has_persisted_bot_token(None));
    assert!(!has_persisted_bot_token(Some(&account_of(r#"{}"#))));
    assert!(!has_persisted_bot_token(Some(&account_of(r#"{"token":" \n"}"#))));
    assert!(has_persisted_bot_token(Some(&account_of(r#"{"token":" t "}"#))));
}
