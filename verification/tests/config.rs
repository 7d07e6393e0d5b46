use wechat_binding::config::{
    enabled_wechat_config, resolve_wechat_api_base_url, wechat_api_url, WeChatConfig,
    DEFAULT_API_BASE_URL,
};
use wechat_binding::errors::{WeChatApiError, WeChatQrLoginError};

fn section(enabled: bool) -> WeChatConfig {
    WeChatConfig {
        enabled,
        allowed_users: Vec::new(),
        api_base_url: None,
        cdn_base_url: None,
        state_dir: None,
    }
}

#[test]
fn channel_has_to_be_configured_and_switched_on() {
    assert_eq!(
        enabled_wechat_config(None).unwrap_err(),
        WeChatQrLoginError::NotConfigured
    );
    assert_eq!(
        enabled_wechat_config(Some(&section(false))).unwrap_err(),
        WeChatQrLoginError::Disabled
    );
    assert!(enabled_wechat_config(Some(&section(true))).unwrap().enabled);
}

#[test]
fn default_server_is_used_where_none_is_configured() {
    assert_eq!(
        resolve_wechat_api_base_url(None).unwrap(),
        "https://ilinkai.weixin.qq.com"
    );
    assert_eq!(DEFAULT_API_BASE_URL, "https://ilinkai.weixin.qq.com");
}

#[test]
fn configured_server_is_trimmed() {
    assert_eq!(
        resolve_wechat_api_base_url(Some("  https://example.com/api//\n")).unwrap(),
        "https://example.com/api"
    );
    // White space before the last slashes is kept.
    assert_eq!(
        resolve_wechat_api_base_url(Some("https://a/ /")).unwrap(),
        "https://a/ "
    );
}

#[test]
fn only_https_is_accepted() {
    for url in [
        "http://example.com",
        "ftp://example.com",
        "example.com",
        "HTTPS://example.com",
        "https://",
        "",
        " ",
    ] {
        assert_eq!(
            resolve_wechat_api_base_url(Some(url)).unwrap_err(),
            WeChatQrLoginError::InsecureApiBaseUrl
        );
    }
}

#[test]
fn endpoints_stand_under_the_base_url() {
    assert_eq!(
        wechat_api_url("https://example.com", "get_bot_qrcode"),
        "https://example.com/ilink/bot/get_bot_qrcode"
    );
    assert_eq!(
        wechat_api_url("https://example.com//", "get_bot_qrcode"),
        "https://example.com/ilink/bot/get_bot_qrcode"
    );
}

#[test]
fn errors_are_put_into_words() {
    let cases = vec![
        (WeChatQrLoginError::NotConfigured, "WeChat channel is not configured"),
        (WeChatQrLoginError::Disabled, "WeChat channel is configured but disabled"),
        (WeChatQrLoginError::InsecureApiBaseUrl, "WeChat API base URL must use https"),
        (WeChatQrLoginError::StartRequestFailed, "WeChat QR login start request failed"),
        (
            WeChatQrLoginError::StartRejected {
                status: "500 Internal Server Error".to_string(),
                body: "oops".to_string(),
            },
            "WeChat QR login start failed (500 Internal Server Error): oops",
        ),
        (
            WeChatQrLoginError::StartResponseUnreadable,
            "WeChat QR login start response parse failed",
        ),
        (WeChatQrLoginError::EmptyQrCode, "WeChat QR login start returned empty qrcode"),
        (
            WeChatQrLoginError::SessionNotFound {
                session_key: "k".to_string(),
            },
            "WeChat QR session not found: k",
        ),
        (
            WeChatQrLoginError::WaitRejected {
                status: "404 Not Found".to_string(),
                body: "gone".to_string(),
            },
            "WeChat QR login wait failed (404 Not Found): gone",
        ),
        (
            WeChatQrLoginError::WaitResponseUnreadable,
            "WeChat QR login wait response parse failed",
        ),
        (
            WeChatQrLoginError::MissingBotToken,
            "WeChat QR login confirmed without bot_token",
        ),
        (
            WeChatQrLoginError::MissingBotId,
            "WeChat QR login confirmed without ilink_bot_id",
        ),
        (
            WeChatQrLoginError::Storage {
                message: "disk full".to_string(),
            },
            "disk full",
        ),
    ];
    for (error, words) in cases {
        assert_eq!(error.message(), words);
        assert_eq!(
            WeChatApiError::from(error).message(),
            format!("WeChat QR login start failed: {words}")
        );
    }
    assert_eq!(
        WeChatApiError::NotConfigured.message(),
        "WeChat channel is not configured"
    );
    assert_eq!(
        WeChatApiError::Disabled.message(),
        "WeChat channel is configured but disabled"
    );
}
