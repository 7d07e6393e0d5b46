//! Who answers the HTTP routes, and whom to tell about a new account. Both are
//! replaced each time the daemon reloads.

use crate::status::WeChatBindingStatus;
use std::sync::Arc;
use vstd::prelude::*;

verus! {

/// What the HTTP routes ask of the channel.
pub trait WechatBindingHandler: Send + Sync {
    /// A login that is being started: what the routes wait for.
    type Authorization;

    /// What is bound.
    fn wechat_binding_status(&self) -> WeChatBindingStatus;

    /// Starts a login. `timeout_ms` is how long the scan is waited for in the
    /// background; the code is handed out before that.
    fn wechat_authorize_qr(&self, timeout_ms: Option<u64>) -> Self::Authorization;
}

/// The place of the handler.
pub struct HandlerSlot<H: ?Sized> {
    current: Option<Arc<H>>,
}

impl<H: ?Sized> View for HandlerSlot<H> {
    type V = Option<Arc<H>>;

    closed spec fn view(&self) -> Option<Arc<H>> {
        self.current
    }
}

impl<H: ?Sized> HandlerSlot<H> {
    /// A place with no handler.
    pub fn new() -> (slot: Self)
        ensures
            slot@ is None,
    {
        HandlerSlot { current: None }
    }
}

/// Installs a handler in place of the one before.
pub fn install_handler<H: WechatBindingHandler + ?Sized>(
    slot: &mut HandlerSlot<H>,
    handler: Arc<H>,
)
    ensures
        final(slot)@ == Some(handler),
{
    slot.current = Some(handler);
}

/// The handler that was installed last.
pub fn handler<H: WechatBindingHandler + ?Sized>(slot: &HandlerSlot<H>) -> (current: Option<Arc<H>>)
    ensures
        current == slot@,
{
    match &slot.current {
        Some(handler) => Some(handler.clone()),
        None => None,
    }
}

/// The place of the supervisor's two senders: one to shut down, and one to reload
/// where the supervisor can do that.
pub struct SupervisorSlot<S> {
    current: Option<(S, Option<S>)>,
}

impl<S> View for SupervisorSlot<S> {
    type V = Option<(S, Option<S>)>;

    closed spec fn view(&self) -> Option<(S, Option<S>)> {
        self.current
    }
}

impl<S> SupervisorSlot<S> {
    /// A place with no senders.
    pub fn new() -> (slot: Self)
        ensures
            slot@ is None,
    {
        SupervisorSlot { current: None }
    }
}

/// Installs a supervisor's senders in place of those before.
pub fn install_supervisor_senders<S>(
    slot: &mut SupervisorSlot<S>,
    shutdown_tx: S,
    reload_tx: Option<S>,
)
    ensures
        final(slot)@ == Some((shutdown_tx, reload_tx)),
{
    slot.current = Some((shutdown_tx, reload_tx));
}

/// True where `copy` is a clone of `sender`.
pub open spec fn is_clone<S: Clone>(sender: Option<S>, copy: Option<S>) -> bool {
    match (sender, copy) {
        (Some(sender), Some(copy)) => cloned::<S>(sender, copy),
        (None, None) => true,
        _ => false,
    }
}

/// Clones of the senders that were installed last, to be held by a task of its own.
pub fn supervisor_senders<S: Clone>(slot: &SupervisorSlot<S>) -> (senders: Option<(S, Option<S>)>)
    ensures
        match (slot@, senders) {
            (Some(installed), Some(senders)) => cloned::<S>(installed.0, senders.0) && is_clone::<
                S,
            >(installed.1, senders.1),
            (installed, senders) => installed is None && senders is None,
        },
{
    match &slot.current {
        Some((shutdown_tx, reload_tx)) => {
            let reload_tx = match reload_tx {
                Some(reload_tx) => Some(reload_tx.clone()),
                None => None,
            };
            Some((shutdown_tx.clone(), reload_tx))
        },
        None => None,
    }
}

/// The senders that a wait in the background is handed: those of the supervisor
/// where there is one, else `detached`, which nobody listens to, and no way to
/// reload.
pub fn senders_for_followup<S>(senders: Option<(S, Option<S>)>, detached: S) -> (handed: (
    S,
    Option<S>,
))
    ensures
        handed == match senders {
            Some(senders) => senders,
            None => (detached, None::<S>),
        },
{
    match senders {
        Some(senders) => senders,
        None => (detached, None),
    }
}

} // verus!
