//! A fixed-size worker pool over a task channel.
//!
//! The pool runs opaque, single-invocation tasks on a bounded set of
//! background threads. This crate holds the synchronization core: the FIFO
//! queue behind the channel (`blocking_queue`), the pool's construction and
//! submission logic with the channel endpoints (`PoolCore`), the worker-loop
//! decision (`worker_step`), and a counter model of the whole lifecycle with
//! its invariants (`lifecycle`). The threaded shell — spawning one thread per
//! worker, running each task, joining every thread on teardown — is ordinary
//! glue around these types.

use vstd::prelude::*;

pub mod blocking_queue;
pub mod lifecycle;

use crossbeam_channel::{Receiver, Sender};

verus! {

#[verifier::external_type_specification]
#[verifier::external_body]
#[verifier::reject_recursive_types(T)]
pub struct ExSender<T>(Sender<T>);

#[verifier::external_type_specification]
#[verifier::external_body]
#[verifier::reject_recursive_types(T)]
pub struct ExReceiver<T>(Receiver<T>);

/// Relies on crossbeam_channel::unbounded: creates one channel of unbounded
/// capacity and returns its sending and receiving ends. Sends on it never
/// block; receives block until a message arrives or every sender is gone.
#[verifier::external_body]
fn task_channel<T>() -> (ends: (Sender<T>, Receiver<T>)) {
    crossbeam_channel::unbounded()
}

/// Relies on crossbeam_channel::Sender::send: on an unbounded channel it
/// never blocks, enqueues the message unless every receiver has been
/// dropped, and in that case returns the message itself inside the error.
#[verifier::external_body]
fn channel_send<T>(sender: &Sender<T>, task: T) -> (result: Result<(), T>)
    ensures
        result matches Err(t) ==> t == task,
{
    match sender.send(task) {
        Ok(()) => Ok(()),
        Err(crossbeam_channel::SendError(t)) => Err(t),
    }
}

/// Relies on crossbeam_channel::Receiver::recv: blocks the calling thread
/// until a message can be taken (returned as `Some`) or until the channel is
/// both empty and disconnected — every sender dropped — which is reported as
/// `None`. Which of the two comes back depends on the other threads, so
/// nothing more is promised of the result.
#[verifier::external_body]
fn channel_recv<T>(receiver: &Receiver<T>) -> (received: Option<T>) {
    match receiver.recv() {
        Ok(task) => Some(task),
        Err(crossbeam_channel::RecvError) => None,
    }
}

/// Relies on crossbeam_channel::Receiver::clone: the clone receives from the
/// same channel as the original, each message going to exactly one receiver.
#[verifier::external_body]
fn clone_receiver<T>(receiver: &Receiver<T>) -> (clone: Receiver<T>) {
    receiver.clone()
}

/// Why constructing a pool failed.
#[derive(Debug, Clone, Copy, PartialEq, Eq)]
pub enum PoolError {
    /// A pool must have at least one worker.
    ZeroWorkers,
}

/// What a worker does next, decided from what the channel handed it.
#[derive(Debug, PartialEq, Eq)]
pub enum WorkerAction<T> {
    /// Execute the carried task and go back to waiting on the channel.
    Run(T),
    /// The channel is drained and closed: leave the loop.
    Exit,
}

/// The worker-loop decision: a received task is executed; closure of the
/// channel — which the channel reports only once it is drained — ends the
/// loop. Exactly one of the two, and a received task is never dropped.
pub fn worker_step<T>(received: Option<T>) -> (action: WorkerAction<T>)
    ensures
        received matches Some(task) ==> action == WorkerAction::Run(task),
        received is None ==> action == WorkerAction::<T>::Exit,
{
    match received {
        Some(task) => WorkerAction::Run(task),
        None => WorkerAction::Exit,
    }
}

/// Block on the channel for the next thing this worker should do.
///
/// What arrives is up to the submitting threads, so no more is promised of
/// the result than its shape; the mapping from the received message to the
/// action is `worker_step`, verified above: a task becomes `Run(task)`,
/// closure of a drained channel becomes `Exit`.
pub fn next_action<T>(receiver: &Receiver<T>) -> WorkerAction<T> {
    worker_step(channel_recv(receiver))
}

/// The unthreaded core of a pool: the sending end of the task channel and
/// the configured worker count. The constructor hands out one receiving end
/// per worker; the shell moves each onto its own thread. Dropping this value
/// drops the sender, which is the shutdown signal: each worker's receiver
/// then reports closure once it has drained the channel.
#[verifier::reject_recursive_types(T)]
pub struct PoolCore<T> {
    sender: Sender<T>,
    workers: usize,
}

impl<T> PoolCore<T> {
    /// The worker count this pool was built with.
    pub closed spec fn configured_workers(&self) -> usize {
        self.workers
    }

    /// A pool always has at least one worker.
    pub open spec fn wf(&self) -> bool {
        self.configured_workers() >= 1
    }

    /// Build the core of a pool with `workers` workers: one channel, its
    /// sender kept for submission, and exactly one receiver per worker.
    /// A zero worker count is rejected, and nothing is built for it.
    pub fn new(workers: usize) -> (result: Result<(PoolCore<T>, Vec<Receiver<T>>), PoolError>)
        ensures
            result is Ok <==> workers >= 1,
            result matches Ok(built) ==> built.0.wf() && built.0.configured_workers() == workers
                && built.1@.len() == workers,
            result matches Err(e) ==> e == PoolError::ZeroWorkers,
    {
        if workers == 0 {
            return Err(PoolError::ZeroWorkers);
        }
        let (sender, receiver) = task_channel::<T>();
        let mut receivers: Vec<Receiver<T>> = Vec::new();
        let mut spawned: usize = 1;
        while spawned < workers
            invariant
                1 <= spawned <= workers,
                receivers@.len() == spawned - 1,
            decreases workers - spawned,
        {
            receivers.push(clone_receiver(&receiver));
            spawned = spawned + 1;
        }
        receivers.push(receiver);
        Ok((PoolCore { sender, workers }, receivers))
    }

    /// The worker count this pool was built with.
    pub fn worker_count(&self) -> (count: usize)
        ensures
            count == self.configured_workers(),
    {
        self.workers
    }

    /// Hand one task to the pool. The channel is unbounded, so this never
    /// blocks; it enqueues the task unless every worker's receiver is
    /// already gone, and in that case the very task submitted comes back,
    /// not silently dropped.
    pub fn submit(&self, task: T) -> (result: Result<(), T>)
        ensures
            result matches Err(t) ==> t == task,
    {
        channel_send(&self.sender, task)
    }
}

} // verus!
