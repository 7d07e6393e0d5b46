use std::path::PathBuf;
use std::sync::Arc;

use wechat_binding::bound_users::WeChatQrBindMode;
use wechat_binding::errors::WeChatQrLoginError;
use wechat_binding::followup::{plan_qr_login_followup, WeChatQrFollowup};
use wechat_binding::handler::{
    handler, install_handler, install_supervisor_senders, senders_for_followup,
    supervisor_senders, HandlerSlot, SupervisorSlot, WechatBindingHandler,
};
use wechat_binding::login::WeChatQrLoginStatus;
use wechat_binding::status::{load_wechat_binding_status, WeChatBindingStatus};
use wechat_binding::wait::WeChatQrLoginWait;

struct Channel {
    name: &'static str,
}

impl WechatBindingHandler for Channel {
    type Authorization = String;

    fn wechat_binding_status(&self) -> WeChatBindingStatus {
        load_wechat_binding_status(None, Some(&PathBuf::from(self.name)), None, None)
    }

    fn wechat_authorize_qr(&self, timeout_ms: Option<u64>) -> String {
        format!("{} {timeout_ms:?}", self.name)
    }
}

type AnyHandler = dyn WechatBindingHandler<Authorization = String>;

#[test]
fn last_handler_answers() {
    let mut slot: HandlerSlot<AnyHandler> = HandlerSlot::new();
    assert!(handler(&slot).is_none());
    install_handler(&mut slot, Arc::new(Channel { name: "first" }));
    assert_eq!(
        handler(&slot).unwrap().wechat_binding_status().state_dir,
        PathBuf::from("first/wechat")
    );
    install_handler(&mut slot, Arc::new(Channel { name: "second" }));
    assert_eq!(
        handler(&slot).unwrap().wechat_authorize_qr(Some(7)),
        "second Some(7)"
    );
}

#[test]
fn last_supervisor_is_told() {
    let mut slot: SupervisorSlot<String> = SupervisorSlot::new();
    let detached = || "detached".to_string();
    assert_eq!(supervisor_senders(&slot), None);
    assert_eq!(
        senders_for_followup(supervisor_senders(&slot), detached()),
        ("detached".to_string(), None)
    );
    install_supervisor_senders(&mut slot, "shutdown".to_string(), None);
    assert_eq!(
        supervisor_senders(&slot),
        Some(("shutdown".to_string(), None))
    );
    install_supervisor_senders(&mut slot, "stop".to_string(), Some("reload".to_string()));
    assert_eq!(
        senders_for_followup(supervisor_senders(&slot), detached()),
        ("stop".to_string(), Some("reload".to_string()))
    );
}

fn wait(connected: bool) -> WeChatQrLoginWait {
    WeChatQrLoginWait {
        state_dir: PathBuf::from("s"),
        session_key: "k".to_string(),
        connected,
        status: if connected {
            WeChatQrLoginStatus::Confirmed
        } else {
            WeChatQrLoginStatus::TimedOut
        },
        bind_mode: WeChatQrBindMode::Append,
        account_id: None,
        user_id: None,
        base_url: None,
        qrcode_url: None,
    }
}

#[test]
fn reload_is_asked_for_only_after_a_confirmed_login() {
    assert_eq!(
        plan_qr_login_followup(&Ok(wait(true)), true),
        WeChatQrFollowup::RequestReload { delay_ms: 200 }
    );
    assert_eq!(
        plan_qr_login_followup(&Ok(wait(true)), false),
        WeChatQrFollowup::RestartManually
    );
    for supervised in [true, false] {
        assert_eq!(
            plan_qr_login_followup(&Ok(wait(false)), supervised),
            WeChatQrFollowup::Finished
        );
        assert_eq!(
            plan_qr_login_followup(&Err(WeChatQrLoginError::Disabled), supervised),
            WeChatQrFollowup::Failed
        );
    }
}
