//! The calls this library makes into tokio and uuid, with what it relies on
//! of each.
use std::future::Future;
use crate::supervisor::TaskEntry;
use tokio::runtime::{Builder, Runtime};
use tokio::sync::{broadcast, mpsc};
use tokio::task::{JoinError, JoinHandle};
use uuid::Uuid;
use vstd::prelude::*;

verus! {

#[verifier::external_type_specification]
#[verifier::external_body]
pub struct ExRuntime(Runtime);

#[verifier::external_type_specification]
#[verifier::external_body]
#[verifier::reject_recursive_types(T)]
pub struct ExJoinHandle<T>(JoinHandle<T>);

#[verifier::external_type_specification]
#[verifier::external_body]
pub struct ExJoinError(JoinError);

#[verifier::external_type_specification]
#[verifier::external_body]
#[verifier::reject_recursive_types(T)]
pub struct ExBroadcastSender<T>(broadcast::Sender<T>);

#[verifier::external_type_specification]
#[verifier::external_body]
#[verifier::reject_recursive_types(T)]
pub struct ExBroadcastReceiver<T>(broadcast::Receiver<T>);

#[verifier::external_type_specification]
#[verifier::reject_recursive_types(T)]
pub struct ExBroadcastSendError<T>(broadcast::error::SendError<T>);

#[verifier::external_type_specification]
pub struct ExRecvError(broadcast::error::RecvError);

#[verifier::external_type_specification]
#[verifier::external_body]
#[verifier::reject_recursive_types(T)]
pub struct ExQueueSender<T>(mpsc::Sender<T>);

#[verifier::external_type_specification]
#[verifier::external_body]
#[verifier::reject_recursive_types(T)]
pub struct ExQueueReceiver<T>(mpsc::Receiver<T>);

#[verifier::external_type_specification]
#[verifier::reject_recursive_types(T)]
pub struct ExQueueSendError<T>(mpsc::error::SendError<T>);

/// Relies on tokio's runtime `Builder`: a multi-threaded runtime with
/// `worker_threads` workers and every driver enabled, or `None` when the
/// system refused its resources. `worker_threads` panics on zero.
#[verifier::external_body]
pub(crate) fn new_runtime(worker_threads: usize) -> (r: Option<Runtime>)
    requires
        worker_threads > 0,
{
    Builder::new_multi_thread().worker_threads(worker_threads).enable_all().build().ok()
}

/// Relies on tokio's `Runtime::spawn`: starts `task` on the runtime's worker
/// threads and returns the handle of that new task, which owns it alone and
/// so differs from every handle in `held`.
#[verifier::external_body]
pub(crate) fn spawn_on<F>(runtime: &Runtime, task: F, held: &Vec<TaskEntry>) -> (r: JoinHandle<()>)
    where F: Future<Output = ()> + Send + 'static,
    ensures
        forall|i: int| 0 <= i < held@.len() ==> r != held@[i].handle,
{
    runtime.spawn(task)
}

/// Relies on tokio's `JoinHandle::is_finished`: whether the task has ended at
/// the moment of the call.
#[verifier::external_body]
pub(crate) fn task_is_finished(handle: &JoinHandle<()>) -> (r: bool) {
    handle.is_finished()
}

/// Relies on uuid's `Uuid::new_v4` and its conversion into a `String`: a
/// random token, fresh with overwhelming probability, written as 36
/// characters (hyphenated lowercase hex).
#[verifier::external_body]
pub(crate) fn random_token() -> (r: String)
    ensures
        r@.len() == 36,
{
    Uuid::new_v4().into()
}

/// Relies on tokio's `broadcast::channel`, which panics on a capacity of zero
/// or above `usize::MAX / 2`; the receiver made with it is dropped at once.
#[verifier::external_body]
pub(crate) fn broadcast_sender<T: Clone>(capacity: usize) -> (r: broadcast::Sender<T>)
    requires
        0 < capacity <= usize::MAX / 2,
{
    let (sender, _) = broadcast::channel(capacity);
    sender
}

/// Relies on tokio's `broadcast::Sender::subscribe`: a receiver of every
/// value sent after the call.
#[verifier::external_body]
pub(crate) fn broadcast_subscribe<T>(sender: &broadcast::Sender<T>) -> (r: broadcast::Receiver<T>) {
    sender.subscribe()
}

/// Relies on tokio's `broadcast::Sender::send`: on success the number of
/// receivers the value was queued for, never zero; with no receiver the value
/// comes back inside the error.
#[verifier::external_body]
pub(crate) fn broadcast_send<T>(sender: &broadcast::Sender<T>, value: T) -> (r: Result<usize, broadcast::error::SendError<T>>)
    ensures
        r matches Ok(n) ==> n >= 1,
        r matches Err(e) ==> e.0 == value,
{
    sender.send(value)
}

/// Relies on tokio's `mpsc::channel`, which panics on a buffer of zero or
/// above its semaphore's `MAX_PERMITS` (`usize::MAX >> 3`, that is
/// `usize::MAX / 8`).
#[verifier::external_body]
pub(crate) fn queue_channel<T>(buffer: usize) -> (r: (mpsc::Sender<T>, mpsc::Receiver<T>))
    requires
        0 < buffer <= usize::MAX / 8,
{
    mpsc::channel(buffer)
}

/// Relies on `Clone` for tokio's `broadcast::Sender`: another producer
/// handle on the same queue.
pub assume_specification<T>[ <tokio::sync::broadcast::Sender<T> as Clone>::clone ](sender: &tokio::sync::broadcast::Sender<T>) -> tokio::sync::broadcast::Sender<T>;

/// Relies on `Clone` for tokio's `mpsc::Sender`: another producer handle on
/// the same queue.
pub assume_specification<T>[ <tokio::sync::mpsc::Sender<T> as Clone>::clone ](sender: &tokio::sync::mpsc::Sender<T>) -> tokio::sync::mpsc::Sender<T>;

} // verus!
