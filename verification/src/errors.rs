//! What can go wrong, and how it is put into words.

use crate::text::concat3;
use vstd::prelude::*;
use vstd::string::*;

verus! {

/// Why a QR login could not be started or waited for.
#[derive(Debug, Clone, PartialEq, Eq)]
pub enum WeChatQrLoginError {
    /// There is no WeChat section in the configuration.
    NotConfigured,
    /// The WeChat section is switched off.
    Disabled,
    /// The configured server is not reached by https.
    InsecureApiBaseUrl,
    /// The request for a code got no answer.
    StartRequestFailed,
    /// The request for a code was answered with an error status.
    StartRejected { status: String, body: String },
    /// The answer to the request for a code could not be read.
    StartResponseUnreadable,
    /// The answer to the request for a code holds no code.
    EmptyQrCode,
    /// No login is known under the session key.
    SessionNotFound { session_key: String },
    /// The question for the state of a login was answered with an error status.
    WaitRejected { status: String, body: String },
    /// The answer to the question for the state of a login could not be read.
    WaitResponseUnreadable,
    /// The login was confirmed without a token.
    MissingBotToken,
    /// The login was confirmed without an account.
    MissingBotId,
    /// A file of the state directory could not be written; the text says which.
    Storage { message: String },
}

/// What a [`WeChatQrLoginError`] holds.
pub enum LoginErrorView {
    NotConfigured,
    Disabled,
    InsecureApiBaseUrl,
    StartRequestFailed,
    StartRejected { status: Seq<char>, body: Seq<char> },
    StartResponseUnreadable,
    EmptyQrCode,
    SessionNotFound { session_key: Seq<char> },
    WaitRejected { status: Seq<char>, body: Seq<char> },
    WaitResponseUnreadable,
    MissingBotToken,
    MissingBotId,
    Storage { message: Seq<char> },
}

impl View for WeChatQrLoginError {
    type V = LoginErrorView;

    open spec fn view(&self) -> LoginErrorView {
        match self {
            WeChatQrLoginError::NotConfigured => LoginErrorView::NotConfigured,
            WeChatQrLoginError::Disabled => LoginErrorView::Disabled,
            WeChatQrLoginError::InsecureApiBaseUrl => LoginErrorView::InsecureApiBaseUrl,
            WeChatQrLoginError::StartRequestFailed => LoginErrorView::StartRequestFailed,
            WeChatQrLoginError::StartRejected { status, body } => LoginErrorView::StartRejected {
                status: status@,
                body: body@,
            },
            WeChatQrLoginError::StartResponseUnreadable => LoginErrorView::StartResponseUnreadable,
            WeChatQrLoginError::EmptyQrCode => LoginErrorView::EmptyQrCode,
            WeChatQrLoginError::SessionNotFound { session_key } => LoginErrorView::SessionNotFound {
                session_key: session_key@,
            },
            WeChatQrLoginError::WaitRejected { status, body } => LoginErrorView::WaitRejected {
                status: status@,
                body: body@,
            },
            WeChatQrLoginError::WaitResponseUnreadable => LoginErrorView::WaitResponseUnreadable,
            WeChatQrLoginError::MissingBotToken => LoginErrorView::MissingBotToken,
            WeChatQrLoginError::MissingBotId => LoginErrorView::MissingBotId,
            WeChatQrLoginError::Storage { message } => LoginErrorView::Storage {
                message: message@,
            },
        }
    }
}

impl LoginErrorView {
    /// The error in words.
    pub open spec fn message(self) -> Seq<char> {
        match self {
            LoginErrorView::NotConfigured => "WeChat channel is not configured"@,
            LoginErrorView::Disabled => "WeChat channel is configured but disabled"@,
            LoginErrorView::InsecureApiBaseUrl => "WeChat API base URL must use https"@,
            LoginErrorView::StartRequestFailed => "WeChat QR login start request failed"@,
            LoginErrorView::StartRejected { status, body } => {
                "WeChat QR login start failed ("@ + status + "): "@ + body
            },
            LoginErrorView::StartResponseUnreadable => {
                "WeChat QR login start response parse failed"@
            },
            LoginErrorView::EmptyQrCode => "WeChat QR login start returned empty qrcode"@,
            LoginErrorView::SessionNotFound { session_key } => {
                "WeChat QR session not found: "@ + session_key
            },
            LoginErrorView::WaitRejected { status, body } => {
                "WeChat QR login wait failed ("@ + status + "): "@ + body
            },
            LoginErrorView::WaitResponseUnreadable => "WeChat QR login wait response parse failed"@,
            LoginErrorView::MissingBotToken => "WeChat QR login confirmed without bot_token"@,
            LoginErrorView::MissingBotId => "WeChat QR login confirmed without ilink_bot_id"@,
            LoginErrorView::Storage { message } => message,
        }
    }
}

impl WeChatQrLoginError {
    /// The error in words.
    pub fn message(&self) -> (words: String)
        ensures
            words@ == self@.message(),
    {
        match self {
            WeChatQrLoginError::NotConfigured => "WeChat channel is not configured".to_owned(),
            WeChatQrLoginError::Disabled => "WeChat channel is configured but disabled".to_owned(),
            WeChatQrLoginError::InsecureApiBaseUrl => {
                "WeChat API base URL must use https".to_owned()
            },
            WeChatQrLoginError::StartRequestFailed => {
                "WeChat QR login start request failed".to_owned()
            },
            WeChatQrLoginError::StartRejected { status, body } => {
                let mut words = concat3("WeChat QR login start failed (", status.as_str(), "): ");
                words.append(body.as_str());
                words
            },
            WeChatQrLoginError::StartResponseUnreadable => {
                "WeChat QR login start response parse failed".to_owned()
            },
            WeChatQrLoginError::EmptyQrCode => {
                "WeChat QR login start returned empty qrcode".to_owned()
            },
            WeChatQrLoginError::SessionNotFound { session_key } => {
                let mut words = "WeChat QR session not found: ".to_owned();
                words.append(session_key.as_str());
                words
            },
            WeChatQrLoginError::WaitRejected { status, body } => {
                let mut words = concat3("WeChat QR login wait failed (", status.as_str(), "): ");
                words.append(body.as_str());
                words
            },
            WeChatQrLoginError::WaitResponseUnreadable => {
                "WeChat QR login wait response parse failed".to_owned()
            },
            WeChatQrLoginError::MissingBotToken => {
                "WeChat QR login confirmed without bot_token".to_owned()
            },
            WeChatQrLoginError::MissingBotId => {
                "WeChat QR login confirmed without ilink_bot_id".to_owned()
            },
            WeChatQrLoginError::Storage { message } => message.clone(),
        }
    }
}

/// What the HTTP routes answer a request for a login with when it fails.
#[derive(Debug)]
pub enum WeChatApiError {
    NotConfigured,
    Disabled,
    StartFailed(String),
}

/// What a [`WeChatApiError`] holds.
pub enum ApiErrorView {
    NotConfigured,
    Disabled,
    StartFailed(Seq<char>),
}

impl View for WeChatApiError {
    type V = ApiErrorView;

    open spec fn view(&self) -> ApiErrorView {
        match self {
            WeChatApiError::NotConfigured => ApiErrorView::NotConfigured,
            WeChatApiError::Disabled => ApiErrorView::Disabled,
            WeChatApiError::StartFailed(message) => ApiErrorView::StartFailed(message@),
        }
    }
}

impl ApiErrorView {
    /// The error in words.
    pub open spec fn message(self) -> Seq<char> {
        match self {
            ApiErrorView::NotConfigured => "WeChat channel is not configured"@,
            ApiErrorView::Disabled => "WeChat channel is configured but disabled"@,
            ApiErrorView::StartFailed(message) => "WeChat QR login start failed: "@ + message,
        }
    }
}

impl WeChatApiError {
    /// The error in words.
    pub fn message(&self) -> (words: String)
        ensures
            words@ == self@.message(),
    {
        match self {
            WeChatApiError::NotConfigured => "WeChat channel is not configured".to_owned(),
            WeChatApiError::Disabled => "WeChat channel is configured but disabled".to_owned(),
            WeChatApiError::StartFailed(message) => {
                let mut words = "WeChat QR login start failed: ".to_owned();
                words.append(message.as_str());
                words
            },
        }
    }
}

impl From<WeChatQrLoginError> for WeChatApiError {
    /// Every failure of a login reaches the routes as a failed start, in words.
    fn from(error: WeChatQrLoginError) -> (answer: Self)
        ensures
            answer@ == ApiErrorView::StartFailed(error@.message()),
    {
        WeChatApiError::StartFailed(error.message())
    }
}

// What `from` gives is said by its own `ensures`. A `String` is known by its
// characters alone, so `from_spec` is one of the errors that hold the same words.
impl vstd::std_specs::convert::FromSpecImpl<WeChatQrLoginError> for WeChatApiError {
    open spec fn obeys_from_spec() -> bool {
        false
    }

    open spec fn from_spec(error: WeChatQrLoginError) -> Self {
        choose|answer: WeChatApiError|
            answer@ == ApiErrorView::StartFailed(error@.message())
    }
}

} // verus!
