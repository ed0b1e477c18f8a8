//! The worker pool's message protocol.
//!
//! The pool itself — spawning, the shared queue, joining — is thread
//! plumbing that lives in the surrounding process. What is decided per
//! message, and how many terminate signals a shutdown owes, is data, and
//! is fixed here: a worker runs each job it receives to completion and
//! keeps going, stops only on a halt, and a shutdown sends exactly one
//! halt per worker before joining them all.

use vstd::prelude::*;

verus! {

/// What a worker can pull from the shared job queue. The job's body
/// itself stays with the process; the protocol only distinguishes work
/// from the signal to terminate.
pub enum WorkerEvent {
    /// One unit of work: handle one accepted connection.
    Job,
    /// The signal sent once per worker at shutdown.
    Halt,
}

/// What a worker does with one message.
#[derive(PartialEq, Eq, Structural)]
pub enum WorkerAction {
    /// Run the job to completion, then pull the next message.
    RunThenContinue,
    /// Exit the loop; the worker thread ends.
    Exit,
}

/// The decision a worker takes for one message: jobs are run and never
/// abandoned, and only a halt ends the loop.
pub fn worker_step(event: &WorkerEvent) -> (action: WorkerAction)
    ensures
        action == (match event {
            WorkerEvent::Job => WorkerAction::RunThenContinue,
            WorkerEvent::Halt => WorkerAction::Exit,
        }),
{
    match event {
        WorkerEvent::Job => WorkerAction::RunThenContinue,
        WorkerEvent::Halt => WorkerAction::Exit,
    }
}

/// The signals a shutdown must enqueue: one halt for each of the
/// `workers` threads, so that every worker terminates and none is
/// signalled twice.
pub fn halt_signals(workers: usize) -> (v: Vec<WorkerEvent>)
    ensures
        v@.len() == workers,
        forall|i: int| 0 <= i < v@.len() ==> v@[i] is Halt,
{
    let mut v: Vec<WorkerEvent> = Vec::new();
    let mut i: usize = 0;
    while i < workers
        invariant
            i <= workers,
            v@.len() == i,
            forall|j: int| 0 <= j < v@.len() ==> v@[j] is Halt,
        decreases workers - i,
    {
        v.push(WorkerEvent::Halt);
        i = i + 1;
    }
    v
}

} // verus!
