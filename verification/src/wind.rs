//! Wind: now and then the whole picture drifts sideways, one column a frame.

use crate::buffer::{
    lemma_rotation_is_permutation, rotated_left, rotated_right, Grid, RenderBuffer,
};
use crate::pass::EachFrameImpl;
use crate::signal::ShouldRender;
use crate::text::str_eq;
use vstd::prelude::*;

verus! {

/// For how many frames a rolled direction lasts.
pub const WIND_DURATION: usize = 255;

/// How the wind is configured.
#[derive(Clone, Copy, Eq, PartialEq, Structural, Debug)]
pub enum WindMode {
    Random,
    Disable,
    OnlyRight,
    OnlyLeft,
}

impl Default for WindMode {
    fn default() -> (mode: WindMode)
        ensures
            mode == WindMode::Random,
    {
        WindMode::Random
    }
}

/// The wind mode that a command-line word stands for, if any.
pub open spec fn parsed_wind(s: Seq<char>) -> Option<WindMode> {
    if s == "random"@ {
        Some(WindMode::Random)
    } else if s == "disable"@ {
        Some(WindMode::Disable)
    } else if s == "right"@ || s == "only-right"@ {
        Some(WindMode::OnlyRight)
    } else if s == "left"@ || s == "only-left"@ {
        Some(WindMode::OnlyLeft)
    } else {
        None
    }
}

impl WindMode {
    pub open spec fn spec_without_random(self) -> Self {
        match self {
            WindMode::Random => WindMode::Disable,
            other => other,
        }
    }

    /// Reads a wind mode from the word the command line uses for it.
    pub fn from_str(s: &str) -> (r: Result<Self, &'static str>)
        ensures
            match r {
                Ok(mode) => parsed_wind(s@) == Some(mode),
                Err(msg) => parsed_wind(s@).is_none() && msg@
                    == "Invalid parameter, only accept random, disable, only-right, only-left, right or left."@,
            },
    {
        if str_eq(s, "random") {
            Ok(WindMode::Random)
        } else if str_eq(s, "disable") {
            Ok(WindMode::Disable)
        } else if str_eq(s, "right") || str_eq(s, "only-right") {
            Ok(WindMode::OnlyRight)
        } else if str_eq(s, "left") || str_eq(s, "only-left") {
            Ok(WindMode::OnlyLeft)
        } else {
            Err(
                "Invalid parameter, only accept random, disable, only-right, only-left, right or left.",
            )
        }
    }

    /// The same mode, with random wind switched off.
    #[verifier::when_used_as_spec(spec_without_random)]
    pub fn without_random(self) -> (mode: Self)
        ensures
            mode == self.spec_without_random(),
    {
        match self {
            WindMode::Random => WindMode::Disable,
            other => other,
        }
    }
}

/// Where the wind blows; `Calm` when it does not.
#[derive(Clone, Copy, Eq, PartialEq, Structural, Debug)]
pub enum WindDirection {
    Left,
    Right,
    Calm,
}

impl Default for WindDirection {
    fn default() -> (dir: WindDirection)
        ensures
            dir == WindDirection::Calm,
    {
        WindDirection::Calm
    }
}

/// The direction that a random value rolls.
pub open spec fn rolled(seed: u64) -> WindDirection {
    if seed % 2024 == 0 {
        WindDirection::Left
    } else if seed % 123 == 0 {
        WindDirection::Right
    } else {
        WindDirection::Calm
    }
}

/// A sequence of columns after one frame of wind in direction `dir`.
pub open spec fn shifted<T>(s: Seq<T>, dir: WindDirection) -> Seq<T> {
    match dir {
        WindDirection::Left => rotated_left(s),
        WindDirection::Right => rotated_right(s),
        WindDirection::Calm => s,
    }
}

/// Wind only relabels positions: whatever the direction, the same columns
/// are there afterwards, each as often as before.
pub proof fn lemma_wind_is_permutation<T>(s: Seq<T>, dir: WindDirection)
    ensures
        shifted(s, dir).len() == s.len(),
        shifted(s, dir).to_multiset() == s.to_multiset(),
{
    lemma_rotation_is_permutation(s);
}

/// The wind's configuration and what it is doing right now.
#[derive(Clone, Copy, Debug)]
pub struct WindState {
    pub mode: WindMode,
    pub direction: WindDirection,
    /// Frames left before a rolled direction ends.
    pub frame: usize,
}

impl WindState {
    pub open spec fn spec_direction_from_mode(mode: WindMode) -> WindDirection {
        match mode {
            WindMode::OnlyRight => WindDirection::Right,
            WindMode::OnlyLeft => WindDirection::Left,
            _ => WindDirection::Calm,
        }
    }

    /// The state one frame on, on a grid wide enough to drift. A forced mode
    /// pins its direction and a disabled one is calm. Random wind counts the
    /// frames down; at zero, or while calm, it rolls anew, and a rolled
    /// direction starts a fresh count.
    pub open spec fn blown(self, seed: u64) -> WindState {
        match self.mode {
            WindMode::Disable => WindState {
                mode: self.mode,
                direction: WindDirection::Calm,
                frame: self.frame,
            },
            WindMode::OnlyLeft => WindState {
                mode: self.mode,
                direction: WindDirection::Left,
                frame: self.frame,
            },
            WindMode::OnlyRight => WindState {
                mode: self.mode,
                direction: WindDirection::Right,
                frame: self.frame,
            },
            WindMode::Random => {
                let left = if self.frame == 0 {
                    0usize
                } else {
                    (self.frame - 1) as usize
                };
                if left == 0 || self.direction is Calm {
                    let direction = rolled(seed);
                    WindState {
                        mode: self.mode,
                        direction,
                        frame: if direction is Calm {
                            left
                        } else {
                            WIND_DURATION
                        },
                    }
                } else {
                    WindState { mode: self.mode, direction: self.direction, frame: left }
                }
            },
        }
    }

    /// The state that a run starts with.
    pub open spec fn fresh(mode: WindMode) -> WindState {
        WindState { mode, direction: Self::spec_direction_from_mode(mode), frame: 0 }
    }

    #[verifier::when_used_as_spec(fresh)]
    pub fn new(mode: WindMode) -> (state: Self)
        ensures
            state == Self::fresh(mode),
    {
        WindState { mode, direction: Self::direction_from_mode(mode), frame: 0 }
    }

    /// The direction a mode starts with: the forced one, else calm.
    #[verifier::when_used_as_spec(spec_direction_from_mode)]
    pub fn direction_from_mode(mode: WindMode) -> (dir: WindDirection)
        ensures
            dir == Self::spec_direction_from_mode(mode),
    {
        match mode {
            WindMode::OnlyRight => WindDirection::Right,
            WindMode::OnlyLeft => WindDirection::Left,
            _ => WindDirection::Calm,
        }
    }

    /// Rolls a direction from the frame's random value.
    pub fn roll(seed: u64) -> (dir: WindDirection)
        ensures
            dir == rolled(seed),
    {
        if seed % 2024 == 0 {
            WindDirection::Left
        } else if seed % 123 == 0 {
            WindDirection::Right
        } else {
            WindDirection::Calm
        }
    }
}

/// On a grid of at most one column the wind does nothing, however it is
/// configured and whatever the frame brings: state and grid stay as they are
/// and nothing needs drawing.
pub proof fn lemma_narrow_grid_is_left_alone(state: WindState, grid: Grid, seed: u64, frame: u64)
    requires
        grid.len() <= 1,
    ensures
        state.next_state(grid, seed, frame) == state,
        state.next_grid(grid, seed, frame) == grid,
        state.signal(grid, seed, frame) == ShouldRender::Skip,
{
}

impl EachFrameImpl for WindState {
    open spec fn valid(&self) -> bool {
        true
    }

    open spec fn next_state(&self, grid: Grid, seed: u64, frame: u64) -> Self {
        if grid.len() <= 1 {
            *self
        } else {
            self.blown(seed)
        }
    }

    open spec fn next_grid(&self, grid: Grid, seed: u64, frame: u64) -> Grid {
        if grid.len() <= 1 {
            grid
        } else {
            shifted(grid, self.blown(seed).direction)
        }
    }

    open spec fn signal(&self, grid: Grid, seed: u64, frame: u64) -> ShouldRender {
        if grid.len() <= 1 || self.blown(seed).direction is Calm {
            ShouldRender::Skip
        } else {
            ShouldRender::Render
        }
    }

    /// One frame of wind. A grid of at most one column is left alone, and so
    /// is the wind itself. Otherwise the state moves on as `blown` says and,
    /// unless it is calm, the columns rotate by one position: the slots keep
    /// their cells and only the order changes.
    fn on_frame(&mut self, rb: &mut RenderBuffer, seed: u64, frame: u64) -> (sr: ShouldRender)
        ensures
            final(rb).slots() == old(rb).slots(),
            final(rb).order() == shifted(
                old(rb).order(),
                if old(rb).spec_width() <= 1 {
                    WindDirection::Calm
                } else {
                    final(self).direction
                },
            ),
            final(rb).order().to_multiset() == old(rb).order().to_multiset(),
            final(rb)@.to_multiset() == old(rb)@.to_multiset(),
    {
        proof {
            lemma_rotation_is_permutation(rb.order());
            lemma_rotation_is_permutation(rb@);
        }
        if rb.width() <= 1 {
            return ShouldRender::Skip;
        }
        match self.mode {
            WindMode::Disable => {
                self.direction = WindDirection::Calm;
            },
            WindMode::OnlyLeft => {
                self.direction = WindDirection::Left;
            },
            WindMode::OnlyRight => {
                self.direction = WindDirection::Right;
            },
            WindMode::Random => {
                self.frame = self.frame.saturating_sub(1);
                if self.frame == 0 || self.direction == WindDirection::Calm {
                    self.direction = Self::roll(seed);
                    if self.direction != WindDirection::Calm {
                        self.frame = WIND_DURATION;
                    }
                }
            },
        }
        match self.direction {
            WindDirection::Left => {
                rb.rotate_left();
                ShouldRender::Render
            },
            WindDirection::Right => {
                rb.rotate_right();
                ShouldRender::Render
            },
            WindDirection::Calm => ShouldRender::Skip,
        }
    }
}

} // verus!
