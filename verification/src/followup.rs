//! What happens once a wait that runs in the background has ended.

use crate::errors::WeChatQrLoginError;
use crate::wait::WeChatQrLoginWait;
use vstd::prelude::*;

verus! {

/// How long the answers that are under way get before a reload is asked for.
pub const RELOAD_DELAY_MS: u64 = 200;

/// What to do once a wait has ended.
#[derive(Debug, Clone, Copy, PartialEq, Eq, Structural)]
pub enum WeChatQrFollowup {
    /// A new account is there: after a while the supervisor is to be told to shut
    /// down and to reload.
    RequestReload { delay_ms: u64 },
    /// A new account is there, but nobody who could load it.
    RestartManually,
    /// The wait ended without a new account.
    Finished,
    /// The wait failed.
    Failed,
}

/// What to do once a wait has ended. `supervised` tells whether there is a
/// supervisor that can be asked for a reload.
pub open spec fn followup_of(
    outcome: &Result<WeChatQrLoginWait, WeChatQrLoginError>,
    supervised: bool,
) -> WeChatQrFollowup {
    match outcome {
        Ok(wait) => if !wait.connected {
            WeChatQrFollowup::Finished
        } else if supervised {
            WeChatQrFollowup::RequestReload { delay_ms: RELOAD_DELAY_MS }
        } else {
            WeChatQrFollowup::RestartManually
        },
        Err(_) => WeChatQrFollowup::Failed,
    }
}

/// What to do once a wait has ended.
pub fn plan_qr_login_followup(
    outcome: &Result<WeChatQrLoginWait, WeChatQrLoginError>,
    supervised: bool,
) -> (followup: WeChatQrFollowup)
    ensures
        followup == followup_of(outcome, supervised),
{
    match outcome {
        Ok(wait) => if !wait.connected {
            WeChatQrFollowup::Finished
        } else if supervised {
            WeChatQrFollowup::RequestReload { delay_ms: RELOAD_DELAY_MS }
        } else {
            WeChatQrFollowup::RestartManually
        },
        Err(_) => WeChatQrFollowup::Failed,
    }
}

/// A reload is asked for exactly where a login was confirmed and there is a
/// supervisor to ask.
pub proof fn law_reload_only_for_a_new_account(
    outcome: &Result<WeChatQrLoginWait, WeChatQrLoginError>,
    supervised: bool,
)
    ensures
        followup_of(outcome, supervised) is RequestReload <==> supervised && (outcome matches Ok(
            wait,
        ) && wait.connected),
{
}

} // verus!
