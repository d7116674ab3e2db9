//! Moves by a distance.

use crate::driver::{Commands, StepperDriver};
use crate::stepper::{distance, moved, Stepper, STEP_LIMIT};
use vstd::prelude::*;

verus! {

/// Starts a run of `delta` steps from where the stepper is. The stepper
/// has to be in a state in which a run can start, with a generator that
/// takes a target.
pub fn move_delta<S: StepperDriver>(delta: i32, stepper: &mut Stepper<S>)
    requires
        old(stepper)@.wf(),
        old(stepper).watched(),
        old(stepper)@.state is Stopped || old(stepper)@.state is ThreadDelay,
        old(stepper)@.profile.ready(),
        i32::MIN <= old(stepper)@.position + delta <= i32::MAX,
        old(stepper)@.base_step + distance(
            old(stepper)@.position,
            (old(stepper)@.position + delta) as i32,
        ) <= STEP_LIMIT,
        old(stepper)@.starts_steadily((old(stepper)@.position + delta) as i32),
    ensures
        final(stepper)@.wf(),
        final(stepper).watched(),
        exists|c: Commands| #[trigger]
            moved(
                old(stepper)@,
                (old(stepper)@.position + delta) as i32,
                Ok(c),
                final(stepper)@,
            ),
{
    let target: i32 = stepper.position() + delta;
    match stepper.move_to(target) {
        Ok(()) => {},
        Err(_) => unreached(),
    }
}

} // verus!
