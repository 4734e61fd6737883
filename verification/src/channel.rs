//! Trusted boundary to tokio's channel primitives.
//!
//! The client layer moves commands, replies and the cancellation signal over
//! tokio channels. The channel endpoints are opaque values here; each
//! operation the verified code performs on them is a small wrapper whose
//! contract states only what tokio's documentation promises. Awaiting a
//! reply or a signal change is asynchronous and happens in the embedding,
//! which holds the receiving endpoints these functions hand out.

use std::sync::Arc;

use tokio::sync::mpsc;
use tokio::sync::oneshot;
use tokio::sync::watch;

use vstd::prelude::*;

use crate::command::Cancelled;
use crate::command::Command;

verus! {

#[verifier::external_type_specification]
#[verifier::external_body]
#[verifier::reject_recursive_types(T)]
pub struct ExUnboundedSender<T>(mpsc::UnboundedSender<T>);

#[verifier::external_type_specification]
#[verifier::external_body]
#[verifier::reject_recursive_types(T)]
pub struct ExOneshotSender<T>(oneshot::Sender<T>);

#[verifier::external_type_specification]
#[verifier::external_body]
#[verifier::reject_recursive_types(T)]
pub struct ExOneshotReceiver<T>(oneshot::Receiver<T>);

// Declaring the reply receiver pulls in its `Future` impl, so the error
// type of that impl has to be known as well.
#[verifier::external_type_specification]
#[verifier::external_body]
pub struct ExOneshotRecvError(oneshot::error::RecvError);

#[verifier::external_type_specification]
#[verifier::external_body]
#[verifier::reject_recursive_types(T)]
pub struct ExWatchSender<T>(watch::Sender<T>);

#[verifier::external_type_specification]
#[verifier::external_body]
#[verifier::reject_recursive_types(T)]
pub struct ExWatchReceiver<T>(watch::Receiver<T>);

/// Relies on tokio's `mpsc::UnboundedSender::send`: an unbounded send never
/// blocks; it enqueues the command, or hands it back unchanged inside the
/// error exactly when the receiving half is closed.
#[verifier::external_body]
pub(crate) fn mpsc_send(tx: &mpsc::UnboundedSender<Command>, cmd: Command) -> (r: Result<
    (),
    Command,
>)
    ensures
        r matches Err(c) ==> c == cmd,
{
    match tx.send(cmd) {
        Ok(()) => Ok(()),
        Err(mpsc::error::SendError(c)) => Err(c),
    }
}

/// Relies on `Clone` for tokio's `mpsc::UnboundedSender`: cloning yields
/// another handle to the same channel.
#[verifier::external_body]
pub(crate) fn clone_cmd_tx(tx: &mpsc::UnboundedSender<Command>) -> (r: mpsc::UnboundedSender<
    Command,
>)
    ensures
        r == *tx,
{
    tx.clone()
}

/// Relies on tokio's `oneshot::channel`: a fresh, connected single-use
/// sender/receiver pair.
#[verifier::external_body]
pub(crate) fn oneshot_pair<T>() -> (oneshot::Sender<T>, oneshot::Receiver<T>) {
    oneshot::channel()
}

/// Relies on tokio's `watch::channel`: a fresh single-slot channel holding
/// `init` as its current value.
#[verifier::external_body]
pub(crate) fn watch_pair(init: Cancelled) -> (watch::Sender<Cancelled>, watch::Receiver<
    Cancelled,
>) {
    watch::channel(init)
}

/// Relies on tokio's `watch::Sender::send`: when at least one receiver is
/// listening it overwrites the slot's current value (last value wins;
/// nothing is queued) and reports `true`; with no receiver left it writes
/// nothing and reports `false`. In this crate a session client always holds
/// a receiver of its own signal, so its sends do overwrite.
#[verifier::external_body]
pub(crate) fn watch_send(tx: &Arc<watch::Sender<Cancelled>>, value: Cancelled) -> bool {
    match tx.send(value) {
        Ok(()) => true,
        Err(_) => false,
    }
}

/// Relies on `Clone` for tokio's `watch::Receiver`: cloning yields another
/// read handle on the same slot.
#[verifier::external_body]
pub(crate) fn clone_cancel_rx(rx: &watch::Receiver<Cancelled>) -> (r: watch::Receiver<Cancelled>)
    ensures
        r == *rx,
{
    rx.clone()
}

/// Relies on `Clone` for `std::sync::Arc`: cloning yields another handle to
/// the same shared write end of the cancellation signal.
#[verifier::external_body]
pub(crate) fn clone_cancel_tx(tx: &Arc<watch::Sender<Cancelled>>) -> (r: Arc<watch::Sender<
    Cancelled,
>>)
    ensures
        r == *tx,
{
    Arc::clone(tx)
}

} // verus!
