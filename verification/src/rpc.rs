//! The command side of the bus: the envelope union that crosses the
//! caller/worker boundary, the per-operation adapter capability that builds
//! envelopes from typed requests and recovers caller input from undelivered
//! ones, and the one generic submission path built on both.

use crate::channel::send_on;
use crate::types::ConfigGenError;
use crate::types::Account;
use crate::types::ObserverAccount;
use crate::types::ObserverError;
use crate::types::Proxy;
use crossbeam_channel::Sender;
use std::time::Duration;
use vstd::prelude::*;

verus! {

/// An envelope: one variant per operation the worker supports, each pairing
/// the operation's input with a single-use reply transport — except the
/// fire-and-forget control variants, which carry no transport. Each envelope
/// is consumed exactly once: by the worker, which replies on the transport,
/// or by the adapter that recovers it after a failed delivery.
pub enum ObserverRequest {
    Exit,
    AddAccount(Account, Sender<Result<(), ObserverError>>),
    LogoutAccount(String, Sender<Result<(), ObserverError>>),
    RemoveAccount(String, Sender<Result<(), ObserverError>>),
    GetAccounts(Sender<Result<Vec<ObserverAccount>, ObserverError>>),
    Pause,
    Resume,
    GenConfig(Sender<Result<String, ConfigGenError>>),
    SetPollInterval(Duration),
    GetPollInterval(Sender<Result<Duration, ()>>),
    ApplyProxy(String, Option<Proxy>, Sender<Result<(), ObserverError>>),
    GetProxy(String, Sender<Result<Option<Proxy>, ObserverError>>),
}

/// The per-operation adapter capability. A typed request knows which envelope
/// variant it becomes, and how to pull its input back out of an envelope the
/// delivery mechanism handed back. Generic caller code is written once
/// against this trait instead of once per operation.
pub trait ObserverPRC: Sized {
    /// What a successful reply carries.
    type Output;

    /// What an operation-level failure, reported through the reply, carries.
    type Error;

    /// What a failed submission hands back to the caller.
    type SendFailedValue;

    /// The envelope that `into_request` builds from this request and `reply`.
    spec fn req_spec(self, reply: Sender<Result<Self::Output, Self::Error>>) -> ObserverRequest;

    /// Whether an envelope carries this adapter's own variant.
    spec fn is_own_variant(request: ObserverRequest) -> bool;

    /// What recovery owes the caller for this request: the original input, a
    /// placeholder for an operation that has none, or nothing where the
    /// adapter does not support recovery.
    spec fn recovered(self) -> Option<Self::SendFailedValue>;

    /// What `recover_send_value` returns for an arbitrary envelope.
    spec fn recover_spec(request: ObserverRequest) -> Option<Self::SendFailedValue>;

    /// Consumes the typed request together with a caller-supplied reply
    /// transport and builds the matching envelope variant. Total: it always
    /// succeeds, and the transport ends up in no other variant.
    fn into_request(self, reply: Sender<Result<Self::Output, Self::Error>>) -> (r: ObserverRequest)
        ensures
            r == self.req_spec(reply),
            Self::is_own_variant(r),
    ;

    /// Given an envelope that failed to reach the worker, extracts the
    /// original caller input — if the envelope is this adapter's variant and
    /// the adapter supports recovery.
    fn recover_send_value(request: ObserverRequest) -> (v: Option<Self::SendFailedValue>)
        ensures
            v == Self::recover_spec(request),
    ;

    /// Law: converting a request and recovering from the resulting envelope
    /// yields exactly what recovery owes — the round trip through the
    /// envelope loses no caller input.
    proof fn lemma_recover_round_trip(self, reply: Sender<Result<Self::Output, Self::Error>>)
        ensures
            Self::recover_spec(self.req_spec(reply)) == self.recovered(),
    ;

    /// Law: an envelope of any variant but this adapter's own yields nothing
    /// on recovery — adapters never claim another operation's input.
    proof fn lemma_foreign_recovers_nothing(request: ObserverRequest)
        requires
            !Self::is_own_variant(request),
        ensures
            Self::recover_spec(request) is None,
    ;

    /// Law: envelopes built with distinct reply transports are distinct,
    /// whatever their payloads — a reply transport is never shared between
    /// two calls, so a reply can only reach the call that created it.
    proof fn lemma_reply_transport_exclusive(
        a: Self,
        b: Self,
        ra: Sender<Result<Self::Output, Self::Error>>,
        rb: Sender<Result<Self::Output, Self::Error>>,
    )
        requires
            ra != rb,
        ensures
            a.req_spec(ra) != b.req_spec(rb),
    ;
}

/// Typed request to remove the account registered under `email`.
pub struct RemoveAccountRequest {
    pub email: String,
}

impl ObserverPRC for RemoveAccountRequest {
    type Output = ();

    type Error = ObserverError;

    type SendFailedValue = String;

    open spec fn req_spec(self, reply: Sender<Result<(), ObserverError>>) -> ObserverRequest {
        ObserverRequest::RemoveAccount(self.email, reply)
    }

    open spec fn is_own_variant(request: ObserverRequest) -> bool {
        request is RemoveAccount
    }

    open spec fn recovered(self) -> Option<String> {
        Some(self.email)
    }

    open spec fn recover_spec(request: ObserverRequest) -> Option<String> {
        match request {
            ObserverRequest::RemoveAccount(email, _) => Some(email),
            _ => None,
        }
    }

    fn into_request(self, reply: Sender<Result<(), ObserverError>>) -> (r: ObserverRequest) {
        ObserverRequest::RemoveAccount(self.email, reply)
    }

    fn recover_send_value(request: ObserverRequest) -> (v: Option<String>) {
        match request {
            ObserverRequest::RemoveAccount(email, _) => Some(email),
            _ => None,
        }
    }

    proof fn lemma_recover_round_trip(self, reply: Sender<Result<(), ObserverError>>) {
    }

    proof fn lemma_foreign_recovers_nothing(request: ObserverRequest) {
    }

    proof fn lemma_reply_transport_exclusive(
        a: Self,
        b: Self,
        ra: Sender<Result<(), ObserverError>>,
        rb: Sender<Result<(), ObserverError>>,
    ) {
    }
}

/// Typed request to log the account registered under `email` out without
/// removing it.
pub struct LogoutAccountRequest {
    pub email: String,
}

impl ObserverPRC for LogoutAccountRequest {
    type Output = ();

    type Error = ObserverError;

    type SendFailedValue = String;

    open spec fn req_spec(self, reply: Sender<Result<(), ObserverError>>) -> ObserverRequest {
        ObserverRequest::LogoutAccount(self.email, reply)
    }

    open spec fn is_own_variant(request: ObserverRequest) -> bool {
        request is LogoutAccount
    }

    open spec fn recovered(self) -> Option<String> {
        Some(self.email)
    }

    open spec fn recover_spec(request: ObserverRequest) -> Option<String> {
        match request {
            ObserverRequest::LogoutAccount(email, _) => Some(email),
            _ => None,
        }
    }

    fn into_request(self, reply: Sender<Result<(), ObserverError>>) -> (r: ObserverRequest) {
        ObserverRequest::LogoutAccount(self.email, reply)
    }

    fn recover_send_value(request: ObserverRequest) -> (v: Option<String>) {
        match request {
            ObserverRequest::LogoutAccount(email, _) => Some(email),
            _ => None,
        }
    }

    proof fn lemma_recover_round_trip(self, reply: Sender<Result<(), ObserverError>>) {
    }

    proof fn lemma_foreign_recovers_nothing(request: ObserverRequest) {
    }

    proof fn lemma_reply_transport_exclusive(
        a: Self,
        b: Self,
        ra: Sender<Result<(), ObserverError>>,
        rb: Sender<Result<(), ObserverError>>,
    ) {
    }
}

/// Typed request to register a new account with the worker.
pub struct AddAccountRequest {
    pub account: Account,
}

impl ObserverPRC for AddAccountRequest {
    type Output = ();

    type Error = ObserverError;

    type SendFailedValue = Account;

    open spec fn req_spec(self, reply: Sender<Result<(), ObserverError>>) -> ObserverRequest {
        ObserverRequest::AddAccount(self.account, reply)
    }

    open spec fn is_own_variant(request: ObserverRequest) -> bool {
        request is AddAccount
    }

    open spec fn recovered(self) -> Option<Account> {
        Some(self.account)
    }

    open spec fn recover_spec(request: ObserverRequest) -> Option<Account> {
        match request {
            ObserverRequest::AddAccount(account, _) => Some(account),
            _ => None,
        }
    }

    fn into_request(self, reply: Sender<Result<(), ObserverError>>) -> (r: ObserverRequest) {
        ObserverRequest::AddAccount(self.account, reply)
    }

    fn recover_send_value(request: ObserverRequest) -> (v: Option<Account>) {
        match request {
            ObserverRequest::AddAccount(account, _) => Some(account),
            _ => None,
        }
    }

    proof fn lemma_recover_round_trip(self, reply: Sender<Result<(), ObserverError>>) {
    }

    proof fn lemma_foreign_recovers_nothing(request: ObserverRequest) {
    }

    proof fn lemma_reply_transport_exclusive(
        a: Self,
        b: Self,
        ra: Sender<Result<(), ObserverError>>,
        rb: Sender<Result<(), ObserverError>>,
    ) {
    }
}

/// Typed request for a summary of every account the worker watches. Carries
/// no input; recovery yields the unit placeholder, signalling only that the
/// call was never delivered.
pub struct GetAccountListRequest {}

impl ObserverPRC for GetAccountListRequest {
    type Output = Vec<ObserverAccount>;

    type Error = ObserverError;

    type SendFailedValue = ();

    open spec fn req_spec(
        self,
        reply: Sender<Result<Vec<ObserverAccount>, ObserverError>>,
    ) -> ObserverRequest {
        ObserverRequest::GetAccounts(reply)
    }

    open spec fn is_own_variant(request: ObserverRequest) -> bool {
        request is GetAccounts
    }

    open spec fn recovered(self) -> Option<()> {
        Some(())
    }

    open spec fn recover_spec(request: ObserverRequest) -> Option<()> {
        match request {
            ObserverRequest::GetAccounts(_) => Some(()),
            _ => None,
        }
    }

    fn into_request(
        self,
        reply: Sender<Result<Vec<ObserverAccount>, ObserverError>>,
    ) -> (r: ObserverRequest) {
        ObserverRequest::GetAccounts(reply)
    }

    fn recover_send_value(request: ObserverRequest) -> (v: Option<()>) {
        match request {
            ObserverRequest::GetAccounts(_) => Some(()),
            _ => None,
        }
    }

    proof fn lemma_recover_round_trip(
        self,
        reply: Sender<Result<Vec<ObserverAccount>, ObserverError>>,
    ) {
    }

    proof fn lemma_foreign_recovers_nothing(request: ObserverRequest) {
    }

    proof fn lemma_reply_transport_exclusive(
        a: Self,
        b: Self,
        ra: Sender<Result<Vec<ObserverAccount>, ObserverError>>,
        rb: Sender<Result<Vec<ObserverAccount>, ObserverError>>,
    ) {
    }
}

/// Typed request for a freshly generated config file. Carries no input;
/// recovery yields the unit placeholder.
pub struct GenConfigRequest {}

impl ObserverPRC for GenConfigRequest {
    type Output = String;

    type Error = ConfigGenError;

    type SendFailedValue = ();

    open spec fn req_spec(self, reply: Sender<Result<String, ConfigGenError>>) -> ObserverRequest {
        ObserverRequest::GenConfig(reply)
    }

    open spec fn is_own_variant(request: ObserverRequest) -> bool {
        request is GenConfig
    }

    open spec fn recovered(self) -> Option<()> {
        Some(())
    }

    open spec fn recover_spec(request: ObserverRequest) -> Option<()> {
        match request {
            ObserverRequest::GenConfig(_) => Some(()),
            _ => None,
        }
    }

    fn into_request(self, reply: Sender<Result<String, ConfigGenError>>) -> (r: ObserverRequest) {
        ObserverRequest::GenConfig(reply)
    }

    fn recover_send_value(request: ObserverRequest) -> (v: Option<()>) {
        match request {
            ObserverRequest::GenConfig(_) => Some(()),
            _ => None,
        }
    }

    proof fn lemma_recover_round_trip(self, reply: Sender<Result<String, ConfigGenError>>) {
    }

    proof fn lemma_foreign_recovers_nothing(request: ObserverRequest) {
    }

    proof fn lemma_reply_transport_exclusive(
        a: Self,
        b: Self,
        ra: Sender<Result<String, ConfigGenError>>,
        rb: Sender<Result<String, ConfigGenError>>,
    ) {
    }
}

/// Typed request for the worker's current poll interval. The only failure a
/// reply can report is the unit value, standing for a closed reply channel;
/// the adapter does not support recovery.
pub struct GetPollIntervalRequest {}

impl ObserverPRC for GetPollIntervalRequest {
    type Output = Duration;

    type Error = ();

    type SendFailedValue = ();

    open spec fn req_spec(self, reply: Sender<Result<Duration, ()>>) -> ObserverRequest {
        ObserverRequest::GetPollInterval(reply)
    }

    open spec fn is_own_variant(request: ObserverRequest) -> bool {
        request is GetPollInterval
    }

    open spec fn recovered(self) -> Option<()> {
        None
    }

    open spec fn recover_spec(request: ObserverRequest) -> Option<()> {
        None
    }

    fn into_request(self, reply: Sender<Result<Duration, ()>>) -> (r: ObserverRequest) {
        ObserverRequest::GetPollInterval(reply)
    }

    fn recover_send_value(_request: ObserverRequest) -> (v: Option<()>) {
        None
    }

    proof fn lemma_recover_round_trip(self, reply: Sender<Result<Duration, ()>>) {
    }

    proof fn lemma_foreign_recovers_nothing(request: ObserverRequest) {
    }

    proof fn lemma_reply_transport_exclusive(
        a: Self,
        b: Self,
        ra: Sender<Result<Duration, ()>>,
        rb: Sender<Result<Duration, ()>>,
    ) {
    }
}

/// Typed request to apply (or, with `None`, clear) proxy settings on the
/// account registered under `email`. The adapter does not support recovery.
pub struct ApplyProxyRequest {
    pub email: String,
    pub proxy: Option<Proxy>,
}

impl ObserverPRC for ApplyProxyRequest {
    type Output = ();

    type Error = ObserverError;

    type SendFailedValue = ();

    open spec fn req_spec(self, reply: Sender<Result<(), ObserverError>>) -> ObserverRequest {
        ObserverRequest::ApplyProxy(self.email, self.proxy, reply)
    }

    open spec fn is_own_variant(request: ObserverRequest) -> bool {
        request is ApplyProxy
    }

    open spec fn recovered(self) -> Option<()> {
        None
    }

    open spec fn recover_spec(request: ObserverRequest) -> Option<()> {
        None
    }

    fn into_request(self, reply: Sender<Result<(), ObserverError>>) -> (r: ObserverRequest) {
        ObserverRequest::ApplyProxy(self.email, self.proxy, reply)
    }

    fn recover_send_value(_request: ObserverRequest) -> (v: Option<()>) {
        None
    }

    proof fn lemma_recover_round_trip(self, reply: Sender<Result<(), ObserverError>>) {
    }

    proof fn lemma_foreign_recovers_nothing(request: ObserverRequest) {
    }

    proof fn lemma_reply_transport_exclusive(
        a: Self,
        b: Self,
        ra: Sender<Result<(), ObserverError>>,
        rb: Sender<Result<(), ObserverError>>,
    ) {
    }
}

/// Typed request for the proxy settings of the account registered under
/// `email`. The adapter does not support recovery.
pub struct GetProxyRequest {
    pub email: String,
}

impl ObserverPRC for GetProxyRequest {
    type Output = Option<Proxy>;

    type Error = ObserverError;

    type SendFailedValue = ();

    open spec fn req_spec(
        self,
        reply: Sender<Result<Option<Proxy>, ObserverError>>,
    ) -> ObserverRequest {
        ObserverRequest::GetProxy(self.email, reply)
    }

    open spec fn is_own_variant(request: ObserverRequest) -> bool {
        request is GetProxy
    }

    open spec fn recovered(self) -> Option<()> {
        None
    }

    open spec fn recover_spec(request: ObserverRequest) -> Option<()> {
        None
    }

    fn into_request(
        self,
        reply: Sender<Result<Option<Proxy>, ObserverError>>,
    ) -> (r: ObserverRequest) {
        ObserverRequest::GetProxy(self.email, reply)
    }

    fn recover_send_value(_request: ObserverRequest) -> (v: Option<()>) {
        None
    }

    proof fn lemma_recover_round_trip(
        self,
        reply: Sender<Result<Option<Proxy>, ObserverError>>,
    ) {
    }

    proof fn lemma_foreign_recovers_nothing(request: ObserverRequest) {
    }

    proof fn lemma_reply_transport_exclusive(
        a: Self,
        b: Self,
        ra: Sender<Result<Option<Proxy>, ObserverError>>,
        rb: Sender<Result<Option<Proxy>, ObserverError>>,
    ) {
    }
}

/// The one generic submission path of the bus: converts a typed request into
/// its envelope around the given reply transport and hands the envelope to
/// the worker's inbound queue. On a bus-level failure — the worker is gone,
/// so the envelope could not be delivered — the caller receives exactly what
/// recovery owes for this request: the original input unchanged, a unit
/// placeholder for an inputless operation, or `None` where the adapter does
/// not support recovery. No caller data is silently lost, and the submission
/// is never retried here.
pub fn submit<T: ObserverPRC>(
    value: T,
    inbound: &Sender<ObserverRequest>,
    reply: Sender<Result<T::Output, T::Error>>,
) -> (r: Result<(), Option<T::SendFailedValue>>)
    ensures
        r matches Err(v) ==> v == value.recovered(),
{
    let ghost value0 = value;
    let ghost reply0 = reply;
    let request = value.into_request(reply);
    match send_on(inbound, request) {
        Ok(()) => Ok(()),
        Err(returned) => {
            proof {
                T::lemma_recover_round_trip(value0, reply0);
            }
            Err(T::recover_send_value(returned))
        },
    }
}

} // verus!
