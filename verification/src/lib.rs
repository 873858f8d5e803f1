//! A single-owner command bus: many caller threads submit typed requests to
//! one background worker thread over a shared inbound queue, and each call
//! awaits its reply on a private one-shot transport. When the worker is gone,
//! a failed submission hands the caller its original input back instead of
//! dropping it. A separate push-notification channel lets the worker announce
//! events to a single installed observer.

mod channel;
pub mod rpc;
pub mod traits;
pub mod types;

pub use rpc::submit;
pub use rpc::AddAccountRequest;
pub use rpc::ApplyProxyRequest;
pub use rpc::GenConfigRequest;
pub use rpc::GetAccountListRequest;
pub use rpc::GetPollIntervalRequest;
pub use rpc::GetProxyRequest;
pub use rpc::LogoutAccountRequest;
pub use rpc::ObserverPRC;
pub use rpc::ObserverRequest;
pub use rpc::RemoveAccountRequest;
pub use traits::notify_each;
pub use traits::Notification;
pub use traits::Notifier;
pub use traits::NullNotifier;
pub use types::Account;
pub use types::AccountError;
pub use types::AccountStatus;
pub use types::ConfigGenError;
pub use types::EmailInfo;
pub use types::ObserverAccount;
pub use types::ObserverError;
pub use types::Proxy;
pub use types::ProxyAuth;
pub use types::ProxyProtocol;
