//! The outbound event bus: a tokio broadcast channel of byte frames.
//!
//! The channel itself is an outside type; only the one call the provider
//! makes on it stands behind a trusted wrapper.

use vstd::prelude::*;

verus! {

#[verifier::external_type_specification]
#[verifier::external_body]
#[verifier::reject_recursive_types(T)]
pub struct ExSender<T>(tokio::sync::broadcast::Sender<T>);

/// Relies on tokio::sync::broadcast::Sender::send: it fails exactly when no
/// receiver handle is active, handing the frame back inside the error, and
/// on success returns the number of subscribed receivers, at least one.
#[verifier::external_body]
pub(crate) fn send_frame(
    sender: &tokio::sync::broadcast::Sender<Vec<u8>>,
    frame: Vec<u8>,
) -> (r: Result<usize, Vec<u8>>)
    ensures
        r matches Err(returned) ==> returned@ == frame@,
        r matches Ok(receivers) ==> receivers >= 1,
{
    match sender.send(frame) {
        Ok(receivers) => Ok(receivers),
        Err(tokio::sync::broadcast::error::SendError(returned)) => Err(returned),
    }
}

} // verus!
