//! The delivery primitive of the bus. Both the worker's inbound queue and the
//! per-call reply transports are `crossbeam_channel` channels; bus code only
//! ever holds the sender half, so only that half is declared here.

use vstd::prelude::*;

verus! {

/// Sender half of a `crossbeam_channel` channel; carried opaquely inside
/// envelopes as the reply transport, and held by callers as the handle to the
/// worker's inbound queue.
#[verifier::external_type_specification]
#[verifier::external_body]
#[verifier::reject_recursive_types(T)]
pub struct ExSender<T>(crossbeam_channel::Sender<T>);

/// Relies on `crossbeam_channel::Sender::send`: it fails only when the
/// channel is disconnected (every receiver gone), and the error then carries
/// the undelivered message unchanged, so a failed send loses no data.
#[verifier::external_body]
pub(crate) fn send_on<T>(sender: &crossbeam_channel::Sender<T>, msg: T) -> (r: Result<(), T>)
    ensures
        r matches Err(m) ==> m == msg,
{
    sender.send(msg).map_err(|e| e.0)
}

} // verus!
