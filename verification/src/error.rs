//! What can go wrong in a worker instance.
use vstd::prelude::*;

verus! {

/// Status with which a worker instance ends after a fatal error or a
/// simulated crash. The supervisor restarts the worker on it.
pub const EXIT_FAILURE: i32 = 1;

/// The errors of a worker instance.
#[derive(Clone, Copy, Debug, PartialEq, Eq, Structural)]
pub enum WorkerError {
    /// The system could not create the region or give it its size.
    Allocation,
    /// The system could not report on the region or map it.
    Mapping,
    /// A region has another size than the fixed one. Such a region is taken
    /// for stale or corrupted and is never truncated or padded.
    SizeMismatch { expected: u64, actual: u64 },
    /// The descriptor store could not be listed, or did not take a
    /// registration.
    StoreUnavailable,
    /// The readiness notification did not reach the supervisor.
    NotifyDelivery,
    /// The driver handed over an event that does not answer the pending
    /// request.
    UnexpectedEvent,
}

impl WorkerError {
    /// Whether the error ends the instance. Only a lost readiness
    /// notification does not: the supervisor's own probing covers for it.
    pub open spec fn fatal(self) -> bool {
        !(self is NotifyDelivery)
    }

    /// The text that describes the error.
    pub open spec fn message(self) -> Seq<char> {
        match self {
            WorkerError::Allocation => "cannot allocate the memory region"@,
            WorkerError::Mapping => "cannot map the memory region"@,
            WorkerError::SizeMismatch { .. } => "memory region has the wrong size"@,
            WorkerError::StoreUnavailable => "descriptor store is unavailable"@,
            WorkerError::NotifyDelivery => "readiness notification was not delivered"@,
            WorkerError::UnexpectedEvent => "event does not answer the pending request"@,
        }
    }

    /// Whether the error ends the instance.
    pub fn is_fatal(&self) -> (fatal: bool)
        ensures
            fatal == self.fatal(),
    {
        match self {
            WorkerError::NotifyDelivery => false,
            _ => true,
        }
    }

    /// The text that describes the error.
    pub fn describe(&self) -> (text: String)
        ensures
            text@ == self.message(),
    {
        match self {
            WorkerError::Allocation => "cannot allocate the memory region".to_owned(),
            WorkerError::Mapping => "cannot map the memory region".to_owned(),
            WorkerError::SizeMismatch { .. } => "memory region has the wrong size".to_owned(),
            WorkerError::StoreUnavailable => "descriptor store is unavailable".to_owned(),
            WorkerError::NotifyDelivery => "readiness notification was not delivered".to_owned(),
            WorkerError::UnexpectedEvent => "event does not answer the pending request".to_owned(),
        }
    }
}

/// No error has an empty description.
pub proof fn lemma_message_nonempty(error: WorkerError)
    ensures
        error.message().len() > 0,
{
    reveal_strlit("cannot allocate the memory region");
    reveal_strlit("cannot map the memory region");
    reveal_strlit("memory region has the wrong size");
    reveal_strlit("descriptor store is unavailable");
    reveal_strlit("readiness notification was not delivered");
    reveal_strlit("event does not answer the pending request");
}

} // verus!
