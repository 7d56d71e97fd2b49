//! One tick of the sampling loop.
//!
//! Reading the machine and sleeping between ticks are the caller's part.
//! What is done with the readings of a tick is decided here.

use vstd::prelude::*;
use crate::channel::AppState;
use crate::channel::Published;
use crate::event::Event;

verus! {

/// What the sampler does after a tick.
#[derive(Debug, Clone, Copy, PartialEq, Eq, Structural)]
pub enum Next {
    /// Sleep for the sampling interval, then sample again.
    SleepThenSample,
}

/// What follows a tick whose publish came to `published`.
pub open spec fn after_publish(published: Published) -> Next {
    Next::SleepThenSample
}

/// Publishes the readings of one tick as a snapshot.
///
/// `readings` holds one reading per logical core, in core index order. The
/// snapshot carries exactly these, and when nobody is subscribed it comes
/// back unchanged.
pub fn tick(state: &AppState, readings: Vec<u32>) -> (published: Published)
    ensures
        published matches Published::Reached(n) ==> n >= 1,
        published matches Published::Unheard(event) ==> event@ == readings@,
{
    let event = Event::snapshot(readings);
    state.publish(event)
}

/// Decides what follows a tick. The loop has no terminal state: whether
/// or not anybody heard the snapshot, the sampler sleeps and samples again.
pub fn next_step(published: &Published) -> (next: Next)
    ensures
        next == after_publish(*published),
        next == Next::SleepThenSample,
{
    Next::SleepThenSample
}

} // verus!
