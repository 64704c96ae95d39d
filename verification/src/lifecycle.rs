//! The worker among its collaborators: a model of what outlives an instance,
//! and the laws of restart that follow from it.
//!
//! What the kernel and the supervisor do is not this crate's to prove. This
//! module writes down, as plain mathematics, what the worker relies on:
//!
//! - the supervisor lists its entries in the order in which they were
//!   registered, and keeps them while worker instances come and go;
//! - a region keeps its bytes for as long as the store holds its descriptor,
//!   and a fresh region is all zeroes;
//! - a shared mapping shows the region's own bytes, so a write through it is
//!   a write to the region.
//!
//! The laws below hold of a worker that is driven by `start`, `advance` and
//! `tick` against collaborators that behave so. Nothing here is compiled.
use crate::error::WorkerError;
use crate::injector::{bytes_after, slot};
use crate::protocol::{ActionView, EventView, Phase, StepView};
use crate::region::{bumped, next_byte, REGION_SIZE};
use crate::startup::{
    begin, create_request, list_request, map_request, next, ready_request, register_request,
};
use crate::store::{first_named, DirectiveView, EntryView, STORE_NAME};
use vstd::prelude::*;

verus! {

/// What outlives a worker instance.
pub struct World {
    /// The entries of the supervisor's store, oldest first.
    pub store: Seq<EntryView>,
    /// The bytes of each live region, by descriptor.
    pub regions: Map<i32, Seq<u8>>,
}

impl World {
    /// Every region is small enough for its size to be reported.
    pub open spec fn valid(self) -> bool {
        forall|fd: i32| #[trigger]
            self.regions.contains_key(fd) ==> self.regions[fd].len() <= u64::MAX
    }

    /// The store holds `fd` as the first descriptor under the worker's name,
    /// and the region behind it has the fixed size.
    pub open spec fn holds(self, fd: i32) -> bool {
        &&& first_named(self.store, STORE_NAME@) == Some(fd)
        &&& self.regions.contains_key(fd)
        &&& self.regions[fd].len() == REGION_SIZE
    }
}

/// The store after a notification with descriptors: one descriptor sent with
/// a request to keep it under a name becomes the newest entry.
pub open spec fn store_after(
    store: Seq<EntryView>,
    directives: Seq<DirectiveView>,
    fds: Seq<i32>,
) -> Seq<EntryView> {
    if directives.len() == 2 && directives[0] is KeepInStore && fds.len() == 1 {
        match directives[1] {
            DirectiveView::Name(name) => store.push(EntryView { fd: fds[0], name }),
            _ => store,
        }
    } else {
        store
    }
}

/// How collaborators in working order answer a request: the world afterwards
/// and the event that the driver reports. `fresh` is the descriptor that the
/// kernel would hand out next.
pub open spec fn serve(world: World, action: ActionView, fresh: i32) -> (World, EventView) {
    match action {
        ActionView::ListStore { .. } => (world, EventView::Listed { entries: world.store }),
        ActionView::MeasureRegion { fd } => if world.regions.contains_key(fd) {
            (world, EventView::Measured { size: world.regions[fd].len() as u64 })
        } else {
            (world, EventView::Failed)
        },
        ActionView::CreateRegion { size, .. } => (
            World {
                regions: world.regions.insert(fresh, Seq::new(size as nat, |i: int| 0u8)),
                ..world
            },
            EventView::Created { fd: fresh },
        ),
        ActionView::Register { directives, fds, .. } => (
            World { store: store_after(world.store, directives, fds), ..world },
            EventView::Notified { delivered: true },
        ),
        ActionView::MapRegion { fd, len, .. } => if world.regions.contains_key(fd) {
            (world, EventView::Mapped { len })
        } else {
            (world, EventView::Failed)
        },
        ActionView::ReportReady { .. } => (world, EventView::Notified { delivered: true }),
        _ => (world, EventView::Failed),
    }
}

/// A startup as seen from outside: the world it leaves, the phase it ends
/// in, and the requests it made on the way, in order.
pub struct Startup {
    pub world: World,
    pub phase: Phase,
    pub requests: Seq<ActionView>,
}

impl Startup {
    /// The bytes that the instance sees through its mapping once it runs.
    pub open spec fn buffer(self) -> Seq<u8>
        recommends
            self.phase is Running,
    {
        match self.phase {
            Phase::Running { fd } => self.world.regions[fd],
            _ => Seq::empty(),
        }
    }
}

/// Carries on a startup from `step` until the worker asks to run or to exit,
/// for at most `limit` requests.
pub open spec fn settle(
    world: World,
    step: StepView,
    fresh: i32,
    requests: Seq<ActionView>,
    limit: nat,
) -> Startup
    decreases limit,
{
    if limit == 0 || step.action is Run || step.action is Exit || step.action is Pause {
        Startup { world, phase: step.phase, requests: requests.push(step.action) }
    } else {
        let (after, event) = serve(world, step.action, fresh);
        settle(
            after,
            next(step.phase, event),
            fresh,
            requests.push(step.action),
            (limit - 1) as nat,
        )
    }
}

/// The startup of a fresh instance in `world`.
pub open spec fn launch(world: World, fresh: i32) -> Startup {
    settle(world, begin(), fresh, Seq::empty(), 8)
}

/// The world after one round of the loop in an instance that runs on the
/// region behind its descriptor.
pub open spec fn world_after_round(world: World, phase: Phase, nanos: u32) -> World {
    match phase {
        Phase::Running { fd } if world.regions.contains_key(fd) => World {
            regions: world.regions.insert(fd, bytes_after(phase, world.regions[fd], nanos)),
            ..world
        },
        _ => world,
    }
}

/// Whether a startup asked for any mapping.
pub open spec fn asked_to_map(requests: Seq<ActionView>) -> bool {
    exists|i: int| 0 <= i < requests.len() && #[trigger] requests[i] is MapRegion
}

/// Recovery: where the store holds a descriptor under the worker's name and
/// the region behind it has the fixed size, a new instance ends up running on
/// that very region. On its way it lists, measures, maps and reports, and
/// changes nothing, so the buffer shows the bytes as the last instance left
/// them.
pub proof fn lemma_recovery_keeps_bytes(world: World, fd: i32, fresh: i32)
    requires
        world.valid(),
        world.holds(fd),
    ensures
        launch(world, fresh).phase == (Phase::Running { fd }),
        launch(world, fresh).world == world,
        launch(world, fresh).buffer() == world.regions[fd],
        launch(world, fresh).requests == seq![
            list_request(),
            ActionView::MeasureRegion { fd },
            map_request(fd),
            ready_request(),
            ActionView::Run { warning: None },
        ],
{
    reveal_with_fuel(settle, 6);
    assert(launch(world, fresh).requests =~= seq![
        list_request(),
        ActionView::MeasureRegion { fd },
        map_request(fd),
        ready_request(),
        ActionView::Run { warning: None },
    ]);
}

/// First launch: where the store holds nothing under the worker's name, the
/// instance creates a region of zeroes, registers it and runs on it. The next
/// instance then finds that descriptor in the store, with the fixed size, and
/// recovers it.
pub proof fn lemma_first_launch_registers(world: World, fresh: i32, later: i32)
    requires
        world.valid(),
        first_named(world.store, STORE_NAME@) is None,
    ensures
        launch(world, fresh).phase == (Phase::Running { fd: fresh }),
        launch(world, fresh).world.store == world.store.push(
            EntryView { fd: fresh, name: STORE_NAME@ },
        ),
        launch(world, fresh).world.regions == world.regions.insert(
            fresh,
            Seq::new(REGION_SIZE as nat, |i: int| 0u8),
        ),
        launch(world, fresh).requests == seq![
            list_request(),
            create_request(),
            register_request(fresh),
            map_request(fresh),
            ready_request(),
            ActionView::Run { warning: None },
        ],
        launch(world, fresh).buffer() == Seq::new(REGION_SIZE as nat, |i: int| 0u8),
        launch(world, fresh).world.holds(fresh),
        launch(launch(world, fresh).world, later).phase == (Phase::Running { fd: fresh }),
        launch(launch(world, fresh).world, later).buffer() == launch(world, fresh).buffer(),
{
    reveal_with_fuel(settle, 7);
    let first = launch(world, fresh);
    let entry = EntryView { fd: fresh, name: STORE_NAME@ };
    assert(first.world.store == world.store.push(entry));
    assert(first.requests =~= seq![
        list_request(),
        create_request(),
        register_request(fresh),
        map_request(fresh),
        ready_request(),
        ActionView::Run { warning: None },
    ]);
    crate::store::lemma_first_named_absent(world.store, STORE_NAME@);
    crate::store::lemma_first_named_found(
        first.world.store,
        STORE_NAME@,
        world.store.len() as int,
    );
    assert(first.world.valid());
    lemma_recovery_keeps_bytes(first.world, fresh, later);
}

/// A size mismatch is fatal: where the region behind the recovered
/// descriptor has any other size than the fixed one, the instance fails with
/// that error, having asked for no mapping and changed nothing.
pub proof fn lemma_mismatch_is_never_mapped(world: World, fd: i32, fresh: i32)
    requires
        world.valid(),
        first_named(world.store, STORE_NAME@) == Some(fd),
        world.regions.contains_key(fd),
        world.regions[fd].len() != REGION_SIZE,
    ensures
        launch(world, fresh).phase == (Phase::Failed {
            error: WorkerError::SizeMismatch {
                expected: REGION_SIZE as u64,
                actual: world.regions[fd].len() as u64,
            },
        }),
        launch(world, fresh).world == world,
        !asked_to_map(launch(world, fresh).requests),
{
    reveal_with_fuel(settle, 4);
}

/// A mutation outlives the instance that made it: after a round of the loop,
/// whether or not the round ends in a crash, the next instance recovers the
/// same region and finds the incremented byte in it, and every other byte as
/// it was.
pub proof fn lemma_mutation_survives_restart(world: World, fd: i32, nanos: u32, fresh: i32)
    requires
        world.valid(),
        world.holds(fd),
    ensures
        ({
            let before = world.regions[fd];
            let after = world_after_round(world, Phase::Running { fd }, nanos);
            let again = launch(after, fresh);
            &&& again.phase == (Phase::Running { fd })
            &&& again.buffer() == bumped(before, slot(nanos))
            &&& again.buffer()[slot(nanos)] == next_byte(before[slot(nanos)])
            &&& again.buffer()[slot(nanos)] != before[slot(nanos)]
        }),
{
    let after = world_after_round(world, Phase::Running { fd }, nanos);
    assert(after.valid());
    assert(after.holds(fd));
    lemma_recovery_keeps_bytes(after, fd, fresh);
}

} // verus!
