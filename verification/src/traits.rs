//! The push-notification channel: the event union the worker announces, the
//! sink capability (`Notifier`) one consumer per running system implements,
//! and the no-op sink installed when nobody listens.

use crate::types::AccountError;
use crate::types::EmailInfo;
use crate::types::Proxy;
use vstd::prelude::*;

verus! {

/// One event announced by the worker to the installed [`Notifier`].
/// Notifications are fire-and-forget: they carry no reply transport and are
/// never acknowledged.
#[derive(Clone, Debug, PartialEq, Eq)]
pub enum Notification {
    /// New email has arrived for an account.
    NewEmail { account: String, backend: String, emails: Vec<EmailInfo> },
    /// A new account was recently added.
    AccountAdded(String),
    /// An account got logged out.
    AccountLoggedOut(String),
    /// An account got removed.
    AccountRemoved(String),
    /// An account went offline.
    AccountOffline(String),
    /// An account went online.
    AccountOnline(String),
    /// An error occurred with an account.
    AccountError(String, AccountError),
    /// A proxy configuration was applied to an account.
    ProxyApplied(String, Option<Proxy>),
    /// New config file for the accounts that were refreshed.
    AccountsRefreshed(Vec<String>, String),
    /// Generic error message.
    Error(String),
}

/// The sink the worker announces events to, installed once at worker startup
/// and live for the worker's lifetime. `notify` runs synchronously on the
/// worker's own thread, so an implementation must return quickly and must not
/// panic or block unboundedly — a stall here delays all command processing.
pub trait Notifier: Send + Sync {
    /// Receives one event; called exactly once per qualifying worker-side
    /// event, at the moment the event occurs.
    fn notify(&self, notification: Notification);
}

/// The default, null-object sink: every notification is consumed and
/// ignored, without side effects and without failure.
#[derive(Copy, Clone)]
pub struct NullNotifier {}

impl Notifier for NullNotifier {
    fn notify(&self, _notification: Notification) {
    }
}

/// The worker-side fan-out step: announces the given events to `notifier` in
/// order, invoking `notify` exactly once per event, and returns the number of
/// invocations made — always exactly the number of events given.
pub fn notify_each<N: Notifier>(notifier: &N, events: Vec<Notification>) -> (count: usize)
    ensures
        count == events@.len(),
{
    let total: usize = events.len();
    let mut remaining = events;
    let mut count: usize = 0;
    while remaining.len() > 0
        invariant
            count + remaining@.len() == total,
        decreases remaining@.len(),
    {
        let event = remaining.remove(0);
        notifier.notify(event);
        count = count + 1;
    }
    count
}

} // verus!
