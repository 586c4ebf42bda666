//! The channel-backed mailbox: the same addressing and reception interface
//! as the in-process model, bound to tokio's unbounded multi-producer
//! single-consumer queue so that many tasks may send concurrently.
//!
//! The channel itself is shared mutable state that only tokio manages, so
//! every call into it stands behind a trusted wrapper; the decision taken on
//! what the channel reports — message, exhaustion, or keep waiting — is
//! verified here.

use vstd::prelude::*;
use crate::mailbox::{NoSender, step_receive};
use tokio::sync::mpsc::{UnboundedReceiver, UnboundedSender};

verus! {

#[verifier::external_type_specification]
#[verifier::external_body]
#[verifier::reject_recursive_types(M)]
pub struct ExUnboundedSender<M>(UnboundedSender<M>);

#[verifier::external_type_specification]
#[verifier::external_body]
#[verifier::reject_recursive_types(M)]
pub struct ExUnboundedReceiver<M>(UnboundedReceiver<M>);

#[verifier::external_type_specification]
#[verifier::external_body]
pub struct ExTaskContext<'a>(core::task::Context<'a>);

#[verifier::external_type_specification]
#[verifier::external_body]
#[verifier::reject_recursive_types(T)]
pub struct ExJoinHandle<T>(tokio::task::JoinHandle<T>);

#[verifier::external_type_specification]
#[verifier::external_body]
pub struct ExJoinError(tokio::task::JoinError);

#[verifier::external_type_specification]
#[verifier::external_body]
pub struct ExRuntime(tokio::runtime::Runtime);

/// Relies on tokio::sync::mpsc::unbounded_channel: one fresh, empty queue,
/// returned as its write end and its read end.
#[verifier::external_body]
fn make_channel<M>() -> (r: (UnboundedSender<M>, UnboundedReceiver<M>)) {
    tokio::sync::mpsc::unbounded_channel::<M>()
}

/// Relies on tokio's UnboundedSender::send: never blocks; the message is
/// enqueued while the read end exists, and refused once it is gone. The
/// result says which of the two happened.
#[verifier::external_body]
fn send_raw<M>(tx: &UnboundedSender<M>, msg: M) -> (delivered: bool) {
    tx.send(msg).is_ok()
}

/// Relies on tokio's Clone for UnboundedSender: a second handle to the same
/// queue, sharing its open/closed state.
#[verifier::external_body]
fn clone_sender<M>(tx: &UnboundedSender<M>) -> (r: UnboundedSender<M>) {
    tx.clone()
}

/// Relies on tokio's UnboundedReceiver::poll_recv: `Some(Some(m))` when a
/// message is available, `Some(None)` once the queue is drained and every
/// sender is gone, and `None` for "keep waiting" (the waker in `cx` is then
/// scheduled for a wakeup).
#[verifier::external_body]
fn poll_recv_raw<'a, M>(rx: &mut UnboundedReceiver<M>, cx: &mut core::task::Context<'a>) -> (r:
    Option<Option<M>>) {
    match rx.poll_recv(cx) {
        core::task::Poll::Ready(event) => Some(event),
        core::task::Poll::Pending => None,
    }
}

/// Spawner that uses the current tokio context; fails when used on a
/// non-tokio thread. The handle it returns is awaited outside the library
/// and classified there with `completion::settle`: the body's own result
/// verbatim, or an execution failure if the task never concluded.
pub struct TokioSpawner;

impl TokioSpawner {
    /// Relies on tokio::spawn: begins running the body concurrently with the
    /// caller and returns the handle to its eventual outcome.
    #[verifier::external_body]
    pub fn spawn<T, F: core::future::Future<Output = T> + Send + 'static>(&self, fut: F) -> (r:
        tokio::task::JoinHandle<T>) where T: Send + 'static {
        tokio::spawn(fut)
    }
}

/// Spawner that uses the given tokio runtime rather than the ambient one.
pub struct TokioRuntimeSpawner(pub tokio::runtime::Runtime);

impl TokioRuntimeSpawner {
    /// Relies on tokio's Runtime::spawn: begins running the body on the held
    /// runtime and returns the handle to its eventual outcome.
    #[verifier::external_body]
    pub fn spawn<T, F: core::future::Future<Output = T> + Send + 'static>(&self, fut: F) -> (r:
        tokio::task::JoinHandle<T>) where T: Send + 'static {
        self.0.spawn(fut)
    }
}

/// A cloneable address for one channel-backed mailbox; the sole means of
/// sending to it. Sends are fire-and-forget.
#[verifier::reject_recursive_types(M)]
pub struct ActorRef<M> {
    tx: UnboundedSender<M>,
}

impl<M> ActorRef<M> {
    /// Enqueue a message while the mailbox is open; once the receiving side
    /// is gone this is a silent no-op. Never blocks and never reports an
    /// error to the sender.
    pub fn tell(&self, msg: M) {
        let _ = send_raw(&self.tx, msg);
    }

    /// A second address to the same mailbox: the open/closed state is
    /// shared, not duplicated.
    pub fn duplicate(&self) -> (r: ActorRef<M>) {
        ActorRef { tx: clone_sender(&self.tx) }
    }
}

impl<M> Clone for ActorRef<M> {
    fn clone(&self) -> (r: ActorRef<M>) {
        self.duplicate()
    }
}

/// Mailbox factory over tokio's unbounded channel: each call yields a fresh,
/// independent (address, receiver) pair.
pub struct TokioMailbox;

impl TokioMailbox {
    /// One new, empty, open mailbox: an address bound to its write end and a
    /// receiver bound to its read end. Construction cannot fail.
    pub fn make_mailbox<M>(&self) -> (r: (ActorRef<M>, TokioReceiver<M>)) {
        let (tx, rx) = make_channel::<M>();
        (ActorRef { tx }, TokioReceiver { rx })
    }
}

/// The read end of one channel-backed mailbox; owned by the single task that
/// runs the actor's body.
#[verifier::reject_recursive_types(M)]
pub struct TokioReceiver<M> {
    rx: UnboundedReceiver<M>,
}

impl<M> TokioReceiver<M> {
    /// One poll of the receive suspension point: the next message, the
    /// terminal `NoSender` once the queue is drained and every address is
    /// dropped, or `None` meaning the caller must keep waiting.
    pub fn poll_step<'a>(&mut self, cx: &mut core::task::Context<'a>) -> (r: Option<
        Result<M, NoSender>,
    >) {
        match poll_recv_raw(&mut self.rx, cx) {
            Some(event) => Some(step_receive(event)),
            None => None,
        }
    }
}

} // verus!
