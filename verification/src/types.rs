//! Plain data types that cross the bus: account descriptors and summaries,
//! proxy settings, and the error payloads carried back through replies. The
//! bus itself never inspects them; it only moves them between caller and
//! worker.

use vstd::prelude::*;

verus! {

/// Descriptor of an account handed to the worker by `AddAccount`.
#[derive(Clone, Debug, PartialEq, Eq)]
pub struct Account {
    /// Address the account is registered under; identifies the account on
    /// the bus.
    pub email: String,
    /// Name of the mail backend the account lives on.
    pub backend: String,
}

/// State of an account as reported in an account summary.
#[derive(Clone, Copy, Debug, PartialEq, Eq)]
pub enum AccountStatus {
    Online,
    Offline,
    LoggedOut,
}

/// Summary of one account, as returned by `GetAccounts`.
#[derive(Clone, Debug, PartialEq, Eq)]
pub struct ObserverAccount {
    pub email: String,
    pub backend: String,
    pub status: AccountStatus,
}

/// Credentials for an authenticated proxy.
#[derive(Clone, Debug, PartialEq, Eq)]
pub struct ProxyAuth {
    pub username: String,
    pub password: String,
}

/// Protocol a proxy speaks.
#[derive(Clone, Copy, Debug, PartialEq, Eq)]
pub enum ProxyProtocol {
    Https,
    Socks5,
}

/// Proxy settings applied to an account's backend connection.
#[derive(Clone, Debug, PartialEq, Eq)]
pub struct Proxy {
    pub protocol: ProxyProtocol,
    pub auth: Option<ProxyAuth>,
    pub url: String,
    pub port: u16,
}

/// Operation-level failure reported by the worker through a reply. Carried
/// verbatim by the bus; distinct from a bus-level delivery failure.
#[derive(Clone, Debug, PartialEq, Eq)]
pub enum ObserverError {
    /// No account with the given address is known to the worker.
    NoSuchAccount(String),
    /// An account with the given address is already active.
    AccountAlreadyActive(String),
    /// Any other failure, described in free text.
    Unknown(String),
}

/// Failure of the worker's config generation, reported through a reply.
#[derive(Clone, Debug, PartialEq, Eq)]
pub enum ConfigGenError {
    /// An account refers to a backend the worker does not know.
    BackendNotFound(String),
    /// The generated config could not be serialized.
    Serialization(String),
}

/// Failure attached to an account, announced through a notification.
#[derive(Clone, Debug, PartialEq, Eq)]
pub enum AccountError {
    InvalidPassword,
    Offline,
    LoggedOut,
    Backend(String),
}

/// Summary of one new email, announced through a notification.
#[derive(Clone, Debug, PartialEq, Eq)]
pub struct EmailInfo {
    pub sender: String,
    pub subject: String,
}

} // verus!
