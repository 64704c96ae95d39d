//! The mutation loop and its fault injector.
//!
//! Each round of the loop takes one number from outside, the sub-second
//! nanoseconds of the clock in the running worker. The number picks the byte
//! to increment and decides whether the instance puts on a crash. The source
//! is meant to be poor: whoever supplies the number decides what happens.
use crate::protocol::{
    collapse, crash, lemma_endings_are_failures, reject, stray, Action, ActionView, Phase, Step,
    StepView,
};
use crate::region::{bump, bumped, REGION_SIZE};
use vstd::prelude::*;

verus! {

/// Milliseconds for which the loop rests between two rounds.
pub const PAUSE_MILLIS: u64 = 20;

/// One draw in this many ends in a simulated crash.
pub const CRASH_ODDS: u32 = 50;

/// The index that a draw picks, always inside the region.
pub open spec fn slot(nanos: u32) -> int {
    nanos as int % REGION_SIZE as int
}

/// Whether a draw ends the instance.
pub open spec fn crashes(nanos: u32) -> bool {
    nanos as int % CRASH_ODDS as int == 0
}

/// The bytes after a round: a running instance mutates the slot of the draw,
/// any other leaves the bytes alone.
pub open spec fn bytes_after(phase: Phase, bytes: Seq<u8>, nanos: u32) -> Seq<u8> {
    if phase is Running {
        bumped(bytes, slot(nanos))
    } else {
        bytes
    }
}

/// The move after a round: a running instance crashes or rests, as the draw
/// has it; any other is not in the loop at all.
pub open spec fn verdict(phase: Phase, nanos: u32) -> StepView {
    if phase is Running {
        if crashes(nanos) {
            crash()
        } else {
            StepView { phase, action: ActionView::Pause { millis: PAUSE_MILLIS } }
        }
    } else {
        stray(phase)
    }
}

/// The fault injector ends an instance only by a failure with something to
/// print: a round that ends the instance asks to exit with a status that is
/// never zero and a diagnostic that is never empty, and a draw that crashes
/// a running instance does just that.
pub proof fn lemma_crash_exits_nonzero(phase: Phase, nanos: u32)
    ensures
        verdict(phase, nanos).phase.ended() <==> verdict(phase, nanos).action is Exit,
        verdict(phase, nanos).action matches ActionView::Exit { status, diagnostic } ==> status
            != 0 && diagnostic.len() > 0,
        phase is Running && crashes(nanos) ==> verdict(phase, nanos) == crash(),
{
    lemma_endings_are_failures(phase);
    lemma_endings_are_failures(Phase::Crashed);
}

/// Picks the index that a draw stands for.
pub fn pick_slot(nanos: u32) -> (index: usize)
    ensures
        index == slot(nanos),
        index < REGION_SIZE,
{
    (nanos % (REGION_SIZE as u32)) as usize
}

/// Tells whether a draw ends the instance.
pub fn crash_due(nanos: u32) -> (due: bool)
    ensures
        due == crashes(nanos),
{
    nanos % CRASH_ODDS == 0
}

/// Runs one round of the mutation loop on the mapped buffer.
///
/// A running instance increments the byte that the draw picks, wrapping at
/// 255, and then either ends in a simulated crash, with the mutation already
/// in the region, or asks for a rest. An instance in any other phase gets the
/// buffer back untouched.
pub fn tick(phase: Phase, buffer: &mut [u8; REGION_SIZE], nanos: u32) -> (step: Step)
    ensures
        final(buffer)@ == bytes_after(phase, old(buffer)@, nanos),
        step@ == verdict(phase, nanos),
{
    match phase {
        Phase::Running { .. } => {
            bump(buffer, pick_slot(nanos));
            if crash_due(nanos) {
                collapse()
            } else {
                Step { phase, action: Action::Pause { millis: PAUSE_MILLIS } }
            }
        },
        _ => reject(phase),
    }
}

} // verus!
