//! The coordinator-facing reporting channel: a multi-producer single-consumer
//! queue with a non-blocking send, supplied by tokio.

use vstd::prelude::*;

use crate::worker::SyncMessage;

verus! {

/// Declaration of tokio's unbounded sender handle, so that library functions
/// can carry one; the value is opaque here.
#[verifier::external_type_specification]
#[verifier::external_body]
#[verifier::reject_recursive_types(T)]
pub struct ExUnboundedSender<T>(tokio::sync::mpsc::UnboundedSender<T>);

/// Relies on tokio::sync::mpsc::UnboundedSender::send: the send never blocks
/// (the queue is unbounded), queues the message and returns Ok when the
/// receive half is still open, and returns Err when it has been dropped.
/// Whether delivery succeeds depends on the receiver's state, so nothing is
/// promised of the returned flag.
#[verifier::external_body]
pub(crate) fn send_sync_message(
    tx: &tokio::sync::mpsc::UnboundedSender<SyncMessage>,
    msg: SyncMessage,
) -> (delivered: bool) {
    tx.send(msg).is_ok()
}

} // verus!
