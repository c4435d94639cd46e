//! The interface that every simulation pass offers.

use crate::buffer::{Grid, RenderBuffer};
use crate::signal::ShouldRender;
use vstd::prelude::*;

verus! {

/// One step of a pass per frame.
///
/// A pass is a function of its own state, the grid by position, the frame's
/// random value and the frame counter. The three spec functions say what it
/// computes; `on_frame` does it in place.
pub trait EachFrameImpl: Sized {
    /// What the pass needs of its own state.
    spec fn valid(&self) -> bool;

    /// The pass's state after the frame.
    spec fn next_state(&self, grid: Grid, seed: u64, frame: u64) -> Self;

    /// The grid after the frame.
    spec fn next_grid(&self, grid: Grid, seed: u64, frame: u64) -> Grid;

    /// Whether the frame has to be drawn.
    spec fn signal(&self, grid: Grid, seed: u64, frame: u64) -> ShouldRender;

    /// Runs the pass for one frame: state and grid become what the spec
    /// functions say, and the signal is the one they name.
    fn on_frame(&mut self, rb: &mut RenderBuffer, seed: u64, frame: u64) -> (sr: ShouldRender)
        requires
            old(self).valid(),
            old(rb).wf(),
        ensures
            final(self).valid(),
            final(rb).wf(),
            final(rb).spec_width() == old(rb).spec_width(),
            final(rb).spec_height() == old(rb).spec_height(),
            *final(self) == old(self).next_state(old(rb)@, seed, frame),
            final(rb)@ == old(self).next_grid(old(rb)@, seed, frame),
            sr == old(self).signal(old(rb)@, seed, frame),
    ;
}

} // verus!
