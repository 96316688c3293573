//! Where the installer's feedback goes; without a diagnostics endpoint it
//! goes nowhere.

use vstd::prelude::*;

verus! {

/// Feedback that is dropped.
#[derive(Debug, Clone, Copy)]
pub struct DevNull;

/// The worker of dropped feedback: it has nothing to send.
#[derive(Debug, Clone, Copy)]
pub struct DevNullWorker;

/// Where feedback is sent.
#[derive(Debug, Clone, Copy)]
pub enum Client {
    DevNull(DevNull),
}

/// The worker that delivers feedback.
#[derive(Debug, Clone, Copy)]
pub enum Worker {
    DevNull(DevNullWorker),
}

/// Why delivering feedback failed.
#[derive(Debug, Clone, Copy, PartialEq, Eq, Structural)]
pub enum WorkerError {
    /// Dropping feedback cannot fail; this is never built.
    DevNull,
}

/// Sends what was gathered.
pub trait FeedbackWorker {
    fn submit(self) -> Result<(), WorkerError>;
}

impl FeedbackWorker for DevNullWorker {
    fn submit(self) -> (r: Result<(), WorkerError>)
        ensures
            r is Ok,
    {
        Ok(())
    }
}

impl FeedbackWorker for Worker {
    fn submit(self) -> (r: Result<(), WorkerError>)
        ensures
            r is Ok,
    {
        match self {
            Worker::DevNull(d) => d.submit(),
        }
    }
}

/// The feedback client and worker that drop everything.
pub fn dev_null() -> (r: (Client, Worker))
    ensures
        r.0 == Client::DevNull(DevNull),
        r.1 == Worker::DevNull(DevNullWorker),
{
    (Client::DevNull(DevNull), Worker::DevNull(DevNullWorker))
}

} // verus!
