//! The vocabulary between the worker's decisions and the driver that carries
//! them out: where an instance stands, what it asks for, what it is told.
use crate::error::{lemma_message_nonempty, WorkerError, EXIT_FAILURE};
use crate::store::{Directive, DirectiveView, EntryView, StoreEntry};
use vstd::prelude::*;

verus! {

/// Diagnostic of a simulated crash.
pub const CRASH_DIAGNOSTIC: &'static str = "Simulating crash!";

/// Where a worker instance stands. Every phase but the last three waits for
/// the answer to one request.
#[derive(Clone, Copy, Debug, PartialEq, Eq, Structural)]
pub enum Phase {
    /// Waiting for the store's entries.
    Listing,
    /// Waiting for the size of the region behind a recovered descriptor.
    Measuring { fd: i32 },
    /// Waiting for a fresh region.
    Creating,
    /// Waiting for the store to take the fresh region's descriptor.
    Registering { fd: i32 },
    /// Waiting for the region to be mapped.
    Mapping { fd: i32 },
    /// Waiting for the readiness notification to be sent.
    Reporting { fd: i32 },
    /// The buffer is mapped and the mutation loop runs on it.
    Running { fd: i32 },
    /// The instance has put on a crash and is to end at once.
    Crashed,
    /// The instance has met a fatal error and is to end at once.
    Failed { error: WorkerError },
}

impl Phase {
    /// Whether the instance has ended, by a crash or by a fatal error.
    pub open spec fn ended(self) -> bool {
        self is Crashed || self is Failed
    }

    /// How far the instance has come: the number of requests that lie behind
    /// a phase on the longest way to it.
    pub open spec fn rank(self) -> nat {
        match self {
            Phase::Listing => 0,
            Phase::Measuring { .. } => 1,
            Phase::Creating => 1,
            Phase::Registering { .. } => 2,
            Phase::Mapping { .. } => 3,
            Phase::Reporting { .. } => 4,
            Phase::Running { .. } => 5,
            Phase::Crashed => 6,
            Phase::Failed { .. } => 6,
        }
    }
}

/// What the driver reports back after carrying out a request.
#[derive(Clone, Debug, PartialEq, Eq)]
pub enum Event {
    /// The store listed its entries, in its own order. An empty list is an
    /// answer like any other.
    Listed { entries: Vec<StoreEntry> },
    /// The region behind the descriptor holds `size` bytes.
    Measured { size: u64 },
    /// A fresh region of the requested size exists behind `fd`.
    Created { fd: i32 },
    /// The notification call came back. `delivered` tells whether a
    /// supervisor was there to take the notification.
    Notified { delivered: bool },
    /// The region is mapped as a view of `len` bytes.
    Mapped { len: usize },
    /// The request could not be carried out.
    Failed,
}

/// An event as a mathematical value.
pub enum EventView {
    Listed { entries: Seq<EntryView> },
    Measured { size: u64 },
    Created { fd: i32 },
    Notified { delivered: bool },
    Mapped { len: usize },
    Failed,
}

impl View for Event {
    type V = EventView;

    open spec fn view(&self) -> EventView {
        match self {
            Event::Listed { entries } => EventView::Listed { entries: entries.deep_view() },
            Event::Measured { size } => EventView::Measured { size: *size },
            Event::Created { fd } => EventView::Created { fd: *fd },
            Event::Notified { delivered } => EventView::Notified { delivered: *delivered },
            Event::Mapped { len } => EventView::Mapped { len: *len },
            Event::Failed => EventView::Failed,
        }
    }
}

/// What the driver is to do next, with every argument of the operation
/// spelled out.
#[derive(Clone, Debug, PartialEq, Eq)]
pub enum Action {
    /// List the named descriptors that the supervisor handed to this
    /// instance.
    ListStore { unset_env: bool },
    /// Report the size of the region behind `fd`.
    MeasureRegion { fd: i32 },
    /// Create an anonymous region under `tag` and give it `size` bytes.
    CreateRegion { tag: String, close_on_exec: bool, size: u64 },
    /// Send `fds` to the supervisor with the given directives.
    Register { unset_env: bool, directives: Vec<Directive>, fds: Vec<i32> },
    /// Map `len` bytes of the region behind `fd`, from `offset` on.
    MapRegion { fd: i32, len: usize, offset: u64, readable: bool, writable: bool, shared: bool },
    /// Send the given directives to the supervisor.
    ReportReady { unset_env: bool, directives: Vec<Directive> },
    /// Enter the mutation loop. A warning is to be reported first; it does
    /// not stop the instance.
    Run { warning: Option<WorkerError> },
    /// Suspend for `millis` milliseconds, then go round the loop again.
    Pause { millis: u64 },
    /// Print `diagnostic` and end the process with `status`, with no cleanup.
    Exit { status: i32, diagnostic: String },
}

/// An action as a mathematical value.
pub enum ActionView {
    ListStore { unset_env: bool },
    MeasureRegion { fd: i32 },
    CreateRegion { tag: Seq<char>, close_on_exec: bool, size: u64 },
    Register { unset_env: bool, directives: Seq<DirectiveView>, fds: Seq<i32> },
    MapRegion { fd: i32, len: usize, offset: u64, readable: bool, writable: bool, shared: bool },
    ReportReady { unset_env: bool, directives: Seq<DirectiveView> },
    Run { warning: Option<WorkerError> },
    Pause { millis: u64 },
    Exit { status: i32, diagnostic: Seq<char> },
}

impl View for Action {
    type V = ActionView;

    open spec fn view(&self) -> ActionView {
        match self {
            Action::ListStore { unset_env } => ActionView::ListStore { unset_env: *unset_env },
            Action::MeasureRegion { fd } => ActionView::MeasureRegion { fd: *fd },
            Action::CreateRegion { tag, close_on_exec, size } => ActionView::CreateRegion {
                tag: tag@,
                close_on_exec: *close_on_exec,
                size: *size,
            },
            Action::Register { unset_env, directives, fds } => ActionView::Register {
                unset_env: *unset_env,
                directives: directives.deep_view(),
                fds: fds@,
            },
            Action::MapRegion { fd, len, offset, readable, writable, shared } => {
                ActionView::MapRegion {
                    fd: *fd,
                    len: *len,
                    offset: *offset,
                    readable: *readable,
                    writable: *writable,
                    shared: *shared,
                }
            },
            Action::ReportReady { unset_env, directives } => ActionView::ReportReady {
                unset_env: *unset_env,
                directives: directives.deep_view(),
            },
            Action::Run { warning } => ActionView::Run { warning: *warning },
            Action::Pause { millis } => ActionView::Pause { millis: *millis },
            Action::Exit { status, diagnostic } => ActionView::Exit {
                status: *status,
                diagnostic: diagnostic@,
            },
        }
    }
}

/// One move of the worker: the phase it enters and the request that goes with
/// it.
#[derive(Clone, Debug, PartialEq, Eq)]
pub struct Step {
    pub phase: Phase,
    pub action: Action,
}

/// A step as a mathematical value.
pub struct StepView {
    pub phase: Phase,
    pub action: ActionView,
}

impl View for Step {
    type V = StepView;

    open spec fn view(&self) -> StepView {
        StepView { phase: self.phase, action: self.action@ }
    }
}

/// The end of an instance on a fatal error.
pub open spec fn failure(error: WorkerError) -> StepView {
    StepView {
        phase: Phase::Failed { error },
        action: ActionView::Exit { status: EXIT_FAILURE, diagnostic: error.message() },
    }
}

/// The end of an instance on a simulated crash.
pub open spec fn crash() -> StepView {
    StepView {
        phase: Phase::Crashed,
        action: ActionView::Exit { status: EXIT_FAILURE, diagnostic: CRASH_DIAGNOSTIC@ },
    }
}

/// The move on something that the phase was not waiting for. An instance that
/// has ended stays as it is and asks to exit again; any other fails.
pub open spec fn stray(phase: Phase) -> StepView {
    match phase {
        Phase::Crashed => crash(),
        Phase::Failed { error } => failure(error),
        _ => failure(WorkerError::UnexpectedEvent),
    }
}

/// Every way to end is a failure with something to print: the request is to
/// exit, the status is never zero and the diagnostic never empty.
pub proof fn lemma_endings_are_failures(phase: Phase)
    ensures
        stray(phase).phase.ended(),
        stray(phase).action matches ActionView::Exit { status, diagnostic } && status != 0
            && diagnostic.len() > 0,
{
    reveal_strlit("Simulating crash!");
    if let Phase::Failed { error } = stray(phase).phase {
        lemma_message_nonempty(error);
    }
}

/// Ends the instance on a fatal error.
pub(crate) fn fail(error: WorkerError) -> (step: Step)
    ensures
        step@ == failure(error),
{
    Step {
        phase: Phase::Failed { error },
        action: Action::Exit { status: EXIT_FAILURE, diagnostic: error.describe() },
    }
}

/// Ends the instance on a simulated crash.
pub(crate) fn collapse() -> (step: Step)
    ensures
        step@ == crash(),
{
    Step {
        phase: Phase::Crashed,
        action: Action::Exit { status: EXIT_FAILURE, diagnostic: CRASH_DIAGNOSTIC.to_owned() },
    }
}

/// Answers something that the phase was not waiting for.
pub(crate) fn reject(phase: Phase) -> (step: Step)
    ensures
        step@ == stray(phase),
{
    match phase {
        Phase::Crashed => collapse(),
        Phase::Failed { error } => fail(error),
        _ => fail(WorkerError::UnexpectedEvent),
    }
}

} // verus!
