//! Startup of a worker instance: recover the region or create it, map it,
//! report readiness.
//!
//! The worker decides and a driver acts. [`start`] gives the first request;
//! the driver carries it out and hands the outcome to [`advance`], which
//! gives the next one, until the request is `Run` or `Exit`. Nothing is
//! retried here: whether a failed instance gets another go is the
//! supervisor's business.
use crate::error::WorkerError;
use crate::protocol::{
    fail, failure, lemma_endings_are_failures, reject, stray, Action, ActionView, Event,
    EventView, Phase, Step, StepView,
};
use crate::region::{size_verdict, validate_size, REGION_SIZE};
use crate::store::{
    first_named, readiness, readiness_view, registration, registration_view, retrieve, STORE_NAME,
};
use vstd::prelude::*;

verus! {

/// Tag of the anonymous region, for the operator's eyes only.
pub const REGION_TAG: &'static str = "rust_memfd_example";

/// Status line sent along with the readiness notification.
pub const READY_STATUS: &'static str = "Running notify test";

/// The request for the store's entries.
pub open spec fn list_request() -> ActionView {
    ActionView::ListStore { unset_env: false }
}

/// The request for a fresh region of the fixed size.
pub open spec fn create_request() -> ActionView {
    ActionView::CreateRegion { tag: REGION_TAG@, close_on_exec: true, size: REGION_SIZE as u64 }
}

/// The request to keep `fd` in the store under the worker's name.
pub open spec fn register_request(fd: i32) -> ActionView {
    ActionView::Register {
        unset_env: false,
        directives: registration_view(STORE_NAME@),
        fds: seq![fd],
    }
}

/// The request to map the whole region behind `fd`, readable, writable and
/// shared, so that every write reaches the region itself.
pub open spec fn map_request(fd: i32) -> ActionView {
    ActionView::MapRegion {
        fd,
        len: REGION_SIZE,
        offset: 0,
        readable: true,
        writable: true,
        shared: true,
    }
}

/// The request to report readiness. It is the last notification of the
/// instance.
pub open spec fn ready_request() -> ActionView {
    ActionView::ReportReady { unset_env: true, directives: readiness_view(READY_STATUS@) }
}

/// The first move of an instance.
pub open spec fn begin() -> StepView {
    StepView { phase: Phase::Listing, action: list_request() }
}

/// The move that follows `event` in `phase`.
pub open spec fn next(phase: Phase, event: EventView) -> StepView {
    match (phase, event) {
        (Phase::Listing, EventView::Listed { entries }) => match first_named(
            entries,
            STORE_NAME@,
        ) {
            Some(fd) => StepView {
                phase: Phase::Measuring { fd },
                action: ActionView::MeasureRegion { fd },
            },
            None => StepView { phase: Phase::Creating, action: create_request() },
        },
        (Phase::Listing, EventView::Failed) => failure(WorkerError::StoreUnavailable),
        (Phase::Measuring { fd }, EventView::Measured { size }) => match size_verdict(
            size,
            REGION_SIZE as u64,
        ) {
            Ok(_) => StepView { phase: Phase::Mapping { fd }, action: map_request(fd) },
            Err(error) => failure(error),
        },
        (Phase::Measuring { .. }, EventView::Failed) => failure(WorkerError::Mapping),
        (Phase::Creating, EventView::Created { fd }) => StepView {
            phase: Phase::Registering { fd },
            action: register_request(fd),
        },
        (Phase::Creating, EventView::Failed) => failure(WorkerError::Allocation),
        (Phase::Registering { fd }, EventView::Notified { delivered }) => if delivered {
            StepView { phase: Phase::Mapping { fd }, action: map_request(fd) }
        } else {
            failure(WorkerError::StoreUnavailable)
        },
        (Phase::Registering { .. }, EventView::Failed) => failure(WorkerError::StoreUnavailable),
        (Phase::Mapping { fd }, EventView::Mapped { len }) => match size_verdict(
            len as u64,
            REGION_SIZE as u64,
        ) {
            Ok(_) => StepView { phase: Phase::Reporting { fd }, action: ready_request() },
            Err(error) => failure(error),
        },
        (Phase::Mapping { .. }, EventView::Failed) => failure(WorkerError::Mapping),
        (Phase::Reporting { fd }, EventView::Notified { delivered }) => StepView {
            phase: Phase::Running { fd },
            action: ActionView::Run {
                warning: if delivered {
                    None
                } else {
                    Some(WorkerError::NotifyDelivery)
                },
            },
        },
        (Phase::Reporting { fd }, EventView::Failed) => StepView {
            phase: Phase::Running { fd },
            action: ActionView::Run { warning: Some(WorkerError::NotifyDelivery) },
        },
        _ => stray(phase),
    }
}

/// An instance that has ended stays ended: whatever it is told, it keeps its
/// phase and asks to exit again.
pub proof fn lemma_ended_stays_ended(phase: Phase, event: EventView)
    requires
        phase.ended(),
    ensures
        next(phase, event).phase == phase,
        next(phase, event).action is Exit,
{
}

/// The instance ends exactly when it asks to exit, and every exit is a
/// failure with something to print: the status is never zero and the
/// diagnostic never empty.
pub proof fn lemma_exit_is_failure(phase: Phase, event: EventView)
    ensures
        next(phase, event).phase.ended() <==> next(phase, event).action is Exit,
        next(phase, event).action matches ActionView::Exit { status, diagnostic } ==> status != 0
            && diagnostic.len() > 0,
{
    lemma_endings_are_failures(phase);
    if let Phase::Failed { error } = next(phase, event).phase {
        lemma_endings_are_failures(next(phase, event).phase);
    }
}

/// Startup only moves forward: every event takes a live instance to a later
/// phase. So no request is made a second time, and no driver can keep an
/// instance from running or ending within six events.
pub proof fn lemma_startup_moves_forward(phase: Phase, event: EventView)
    requires
        !phase.ended(),
    ensures
        next(phase, event).phase.rank() > phase.rank(),
{
}

/// No name is registered twice: a region is created only after a listing
/// that held nothing under the worker's name, and only a region so created is
/// handed to the store.
pub proof fn lemma_registers_only_an_unused_name(phase: Phase, event: EventView)
    ensures
        next(phase, event).phase is Creating ==> phase is Listing && (event matches EventView::Listed {
            entries,
        } && first_named(entries, STORE_NAME@) is None),
        next(phase, event).action is Register ==> phase is Creating && event is Created,
{
}

/// Nothing is mapped on trust: a mapping is asked for only when a recovered
/// region has just been measured at the fixed size, or when the store has
/// just taken a region that was created with it.
pub proof fn lemma_maps_only_the_fixed_size(phase: Phase, event: EventView)
    requires
        next(phase, event).action is MapRegion,
    ensures
        (phase is Measuring && event == (EventView::Measured { size: REGION_SIZE as u64 })) || (
        phase is Registering && event == (EventView::Notified { delivered: true })),
{
}

/// Asks for the whole region behind `fd` to be mapped.
fn map_region(fd: i32) -> (step: Step)
    ensures
        step@ == (StepView { phase: Phase::Mapping { fd }, action: map_request(fd) }),
{
    Step {
        phase: Phase::Mapping { fd },
        action: Action::MapRegion {
            fd,
            len: REGION_SIZE,
            offset: 0,
            readable: true,
            writable: true,
            shared: true,
        },
    }
}

/// Enters the mutation loop, with a warning where readiness went unreported.
fn run(fd: i32, delivered: bool) -> (step: Step)
    ensures
        step@ == (StepView {
            phase: Phase::Running { fd },
            action: ActionView::Run {
                warning: if delivered {
                    None
                } else {
                    Some(WorkerError::NotifyDelivery)
                },
            },
        }),
{
    let warning = if delivered {
        None
    } else {
        Some(WorkerError::NotifyDelivery)
    };
    Step { phase: Phase::Running { fd }, action: Action::Run { warning } }
}

/// The first move of an instance: ask the store what it holds.
pub fn start() -> (step: Step)
    ensures
        step@ == begin(),
{
    Step { phase: Phase::Listing, action: Action::ListStore { unset_env: false } }
}

/// Decides the move that follows `event` in `phase`.
///
/// A listing that holds the worker's name leads to recovery, any other to a
/// fresh region. A region is mapped only once its size is known to be the
/// fixed one, and the loop is entered only over a view of that length. A
/// store that cannot be listed or does not take the registration is fatal;
/// an unreported readiness is a warning.
pub fn advance(phase: Phase, event: Event) -> (step: Step)
    ensures
        step@ == next(phase, event@),
{
    match phase {
        Phase::Listing => match event {
            Event::Listed { entries } => match retrieve(&entries, STORE_NAME) {
                Some(fd) => Step {
                    phase: Phase::Measuring { fd },
                    action: Action::MeasureRegion { fd },
                },
                None => Step {
                    phase: Phase::Creating,
                    action: Action::CreateRegion {
                        tag: REGION_TAG.to_owned(),
                        close_on_exec: true,
                        size: REGION_SIZE as u64,
                    },
                },
            },
            Event::Failed => fail(WorkerError::StoreUnavailable),
            _ => reject(phase),
        },
        Phase::Measuring { fd } => match event {
            Event::Measured { size } => match validate_size(size, REGION_SIZE as u64) {
                Ok(_) => map_region(fd),
                Err(error) => fail(error),
            },
            Event::Failed => fail(WorkerError::Mapping),
            _ => reject(phase),
        },
        Phase::Creating => match event {
            Event::Created { fd } => {
                let mut fds: Vec<i32> = Vec::new();
                fds.push(fd);
                assert(fds@ =~= seq![fd]);
                Step {
                    phase: Phase::Registering { fd },
                    action: Action::Register {
                        unset_env: false,
                        directives: registration(STORE_NAME),
                        fds,
                    },
                }
            },
            Event::Failed => fail(WorkerError::Allocation),
            _ => reject(phase),
        },
        Phase::Registering { fd } => match event {
            Event::Notified { delivered } => if delivered {
                map_region(fd)
            } else {
                fail(WorkerError::StoreUnavailable)
            },
            Event::Failed => fail(WorkerError::StoreUnavailable),
            _ => reject(phase),
        },
        Phase::Mapping { fd } => match event {
            Event::Mapped { len } => match validate_size(len as u64, REGION_SIZE as u64) {
                Ok(_) => Step {
                    phase: Phase::Reporting { fd },
                    action: Action::ReportReady {
                        unset_env: true,
                        directives: readiness(READY_STATUS),
                    },
                },
                Err(error) => fail(error),
            },
            Event::Failed => fail(WorkerError::Mapping),
            _ => reject(phase),
        },
        Phase::Reporting { fd } => match event {
            Event::Notified { delivered } => run(fd, delivered),
            Event::Failed => run(fd, false),
            _ => reject(phase),
        },
        _ => reject(phase),
    }
}

} // verus!
