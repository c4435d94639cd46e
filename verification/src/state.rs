//! The whole simulation: grid, weather, clock and frame counter.

use crate::buffer::{blank, RenderBuffer};
use crate::config::Args;
use crate::geometry::Rect;
use crate::pass::EachFrameImpl;
use crate::signal::ShouldRender;
use crate::timer::{ColonState, Timer, TimerRenderMode, TimerState};
use rand::rngs::SmallRng;
use vstd::prelude::*;
use vstd::std_specs::convert::FromSpec;

verus! {

/// `rand::rngs::SmallRng`, taken as it is: a generator whose state is not
/// looked into.
#[verifier::external_type_specification]
#[verifier::external_body]
pub struct ExSmallRng(SmallRng);

/// `RngCore::next_u64` on a `SmallRng`: the generator's next value. Nothing
/// is known of it.
#[verifier::external_body]
fn next_seed(rng: &mut SmallRng) -> (seed: u64) {
    rand::RngCore::next_u64(rng)
}

/// The frame counter one frame on. It starts again at one, never at zero, so
/// that no frame is a multiple of every step at once by accident of the wrap.
pub open spec fn next_frame(frame: u64) -> u64 {
    if frame == u64::MAX {
        1
    } else {
        (frame + 1) as u64
    }
}

/// The clock mode that a configuration starts with.
pub open spec fn render_mode(args: Args) -> Option<TimerRenderMode> {
    match args.timer_mode {
        Some(mode) => Some(TimerRenderMode::from_spec(mode)),
        None => None,
    }
}

/// Everything that changes from frame to frame.
pub struct State<T> {
    pub rb: RenderBuffer,
    pub timer: Timer,
    pub timer_state: TimerState,
    pub weather: T,
    /// The number of the last frame; zero before the first.
    pub frame: u64,
    /// Where each frame's random value comes from.
    pub rng: SmallRng,
    /// The random value of the last frame.
    pub seed: u64,
}

/// What one frame makes of a state, given the random value `seed` it
/// runs with: `before` is the state before, `after` the one after, and
/// `sr` the signal handed back. The counter moves on, the weather runs
/// on the grid as its pass says, then the clock; the time shown stays.
/// The frame needs drawing when the weather or the clock says so.
pub open spec fn ticks_to<T: EachFrameImpl>(
    before: State<T>,
    after: State<T>,
    seed: u64,
    sr: ShouldRender,
) -> bool {
    let frame = next_frame(before.frame);
    &&& after.frame == frame
    &&& after.seed == seed
    &&& after.weather == before.weather.next_state(before.rb@, seed, frame)
    &&& after.rb@ == before.weather.next_grid(before.rb@, seed, frame)
    &&& after.rb.spec_width() == before.rb.spec_width()
    &&& after.rb.spec_height() == before.rb.spec_height()
    &&& after.timer_state == before.timer_state.ticked(frame)
    &&& after.timer == before.timer
    &&& sr == before.weather.signal(before.rb@, seed, frame).or(
        before.timer_state.stirs(frame),
    )
}

impl<T: EachFrameImpl> State<T> {
    /// The grid is well formed and the weather fit to run.
    pub open spec fn wf(&self) -> bool {
        self.rb.wf() && self.weather.valid()
    }

    /// A simulation on an empty grid of `size`, with the clock in the middle
    /// showing `timer`. `rng` supplies each frame's random value.
    pub fn new(size: Rect, weather: T, args: Args, timer: Timer, rng: SmallRng) -> (state: Self)
        requires
            weather.valid(),
        ensures
            state.wf(),
            state.rb@ == blank(size.width as nat, size.height as nat),
            state.rb.spec_width() == size.width,
            state.rb.spec_height() == size.height,
            state.timer == timer,
            state.timer_state == TimerState::placed(
                size,
                render_mode(args),
                ColonState { show: true, blink: args.blink_colon },
            ),
            state.weather == weather,
            state.frame == 0,
            state.seed == 0,
    {
        let mode = match args.timer_mode {
            Some(mode) => Some(TimerRenderMode::from(mode)),
            None => None,
        };
        let mut timer_state = TimerState::new(size, mode);
        if args.blink_colon {
            timer_state.colon.enable_blink();
        }
        State { rb: RenderBuffer::new(size), rng, frame: 0, timer, timer_state, seed: 0, weather }
    }

    /// Takes on a new screen size: the grid is replaced by an empty one of
    /// that size, and the clock goes back to the middle. Nothing of the old
    /// grid is kept.
    pub fn on_resize(&mut self, columns: u16, rows: u16)
        requires
            old(self).wf(),
        ensures
            final(self).wf(),
            final(self).rb@ == blank(columns as nat, rows as nat),
            final(self).rb.spec_width() == columns,
            final(self).rb.spec_height() == rows,
            final(self).timer_state == TimerState::placed(
                Rect { x: 0, y: 0, width: columns, height: rows },
                old(self).timer_state.mode,
                old(self).timer_state.colon,
            ),
            final(self).timer == old(self).timer,
            final(self).weather == old(self).weather,
            final(self).frame == old(self).frame,
            final(self).seed == old(self).seed,
            final(self).rng == old(self).rng,
    {
        let rect = Rect { x: 0, y: 0, height: rows, width: columns };
        self.rb = RenderBuffer::new(rect);
        self.timer_state.resize(rect);
    }

    /// Shows a new time of day.
    pub fn tick_timer(&mut self, timer: Timer)
        ensures
            final(self).timer == timer,
            final(self).rb == old(self).rb,
            final(self).timer_state == old(self).timer_state,
            final(self).weather == old(self).weather,
            final(self).frame == old(self).frame,
            final(self).seed == old(self).seed,
            final(self).rng == old(self).rng,
    {
        self.timer = timer;
    }

    /// One frame with the given random value.
    pub fn tick_with(&mut self, seed: u64) -> (sr: ShouldRender)
        requires
            old(self).wf(),
        ensures
            final(self).wf(),
            ticks_to(*old(self), *final(self), seed, sr),
            final(self).rng == old(self).rng,
    {
        self.frame = if self.frame == u64::MAX {
            1
        } else {
            self.frame + 1
        };
        self.seed = seed;
        let weather = self.weather.on_frame(&mut self.rb, self.seed, self.frame);
        let clock = self.timer_state.on_frame(&mut self.rb, self.seed, self.frame);
        weather.or(clock)
    }

    /// One frame with a random value drawn from the generator. The value
    /// drawn is kept as the state's seed, and the frame is the one that
    /// `tick_with` makes with that value.
    pub fn tick(&mut self) -> (sr: ShouldRender)
        requires
            old(self).wf(),
        ensures
            final(self).wf(),
            ticks_to(*old(self), *final(self), final(self).seed, sr),
    {
        let seed = next_seed(&mut self.rng);
        self.tick_with(seed)
    }
}

} // verus!
