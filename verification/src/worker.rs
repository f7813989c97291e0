//! The drain loop shared by the receiving workers.

use vstd::prelude::*;

verus! {

/// What a receiving worker does with the outcome of one receive from its
/// stream buffer while draining it.
#[derive(Debug, Clone, Copy, PartialEq, Eq, Structural)]
pub enum DrainStep {
    /// Hand the first `n` bytes of the chunk to the callback, then receive again.
    Deliver(usize),
    /// The stream is empty: go back to waiting for events.
    Finish,
}

/// Step of the drain loop after a receive of `received` bytes into a chunk
/// buffer: an empty receive ends the loop, any other is delivered whole.
pub fn drain_step(received: usize) -> (s: DrainStep)
    ensures
        received == 0 ==> s == DrainStep::Finish,
        received > 0 ==> s == DrainStep::Deliver(received),
{
    if received == 0 { DrainStep::Finish } else { DrainStep::Deliver(received) }
}

} // verus!
