//! The render signal that every pass hands back, and the weather mode with
//! its speed table.

use crate::cell::CellType;
use vstd::prelude::*;

verus! {

/// Whether a pass changed something that has to be drawn.
#[derive(PartialEq, Eq, Structural, Copy, Clone, Debug)]
pub enum ShouldRender {
    Render,
    Skip,
}

impl ShouldRender {
    pub open spec fn spec_or(self, sr: Self) -> Self {
        if self is Render || sr is Render {
            ShouldRender::Render
        } else {
            ShouldRender::Skip
        }
    }

    pub open spec fn spec_is_render(&self) -> bool {
        *self is Render
    }

    /// `Render` as soon as one of the two asks for it.
    #[verifier::when_used_as_spec(spec_or)]
    pub fn or(self, sr: Self) -> (merged: Self)
        ensures
            merged == self.spec_or(sr),
    {
        match sr {
            ShouldRender::Skip => self,
            ShouldRender::Render => sr,
        }
    }

    /// Whether this asks for drawing.
    #[verifier::when_used_as_spec(spec_is_render)]
    pub fn is_render(&self) -> (render: bool)
        ensures
            render == self.spec_is_render(),
    {
        *self == ShouldRender::Render
    }
}

/// The weather that is simulated.
#[derive(Copy, Clone, PartialEq, Eq, Structural, Debug)]
pub enum Mode {
    Rain,
    Snow,
    Meteor,
    Star,
    Disable,
}

impl Default for Mode {
    fn default() -> (mode: Mode)
        ensures
            mode == Mode::Rain,
    {
        Mode::Rain
    }
}

impl Mode {
    /// Every how many frames a kind falls by one row; zero when the mode does
    /// not move that kind at all.
    pub open spec fn frames_per_step(&self, s: CellType) -> u64 {
        match *self {
            Mode::Rain => match s {
                CellType::Fast => 1,
                CellType::Normal(_) => 2,
                CellType::Slow => 3,
                _ => 0,
            },
            Mode::Snow => match s {
                CellType::Fast => 2,
                CellType::Normal(_) => 4,
                CellType::Slow => 6,
                _ => 0,
            },
            Mode::Meteor | Mode::Star => 4,
            Mode::Disable => 0,
        }
    }

    /// A kind falls in a frame when the mode moves it and the frame counter
    /// is a multiple of its step.
    pub open spec fn moves(&self, frame: u64, s: CellType) -> bool {
        self.frames_per_step(s) != 0 && frame % self.frames_per_step(s) == 0
    }

    /// Every how many frames kind `s` falls by one row; zero for never.
    #[verifier::when_used_as_spec(frames_per_step)]
    pub fn get_frame_by_speed(&self, s: CellType) -> (frames: u64)
        ensures
            frames == self.frames_per_step(s),
    {
        match *self {
            Mode::Rain => match s {
                CellType::Fast => 1,
                CellType::Normal(_) => 2,
                CellType::Slow => 3,
                _ => 0,
            },
            Mode::Snow => match s {
                CellType::Fast => 2,
                CellType::Normal(_) => 4,
                CellType::Slow => 6,
                _ => 0,
            },
            Mode::Meteor | Mode::Star => 4,
            Mode::Disable => 0,
        }
    }

    /// Whether `s` falls in frame `frame`.
    pub fn is_moving(&self, frame: u64, s: CellType) -> (moving: bool)
        ensures
            moving == self.moves(frame, s),
    {
        let step = self.get_frame_by_speed(s);
        step != 0 && frame % step == 0
    }

    /// The mode's name as the command line spells it.
    pub fn name(&self) -> (s: &'static str)
        ensures
            s@ == match *self {
                Mode::Rain => "rain"@,
                Mode::Snow => "snow"@,
                Mode::Meteor => "meteor"@,
                Mode::Star => "star"@,
                Mode::Disable => "disable"@,
            },
    {
        match *self {
            Mode::Rain => "rain",
            Mode::Snow => "snow",
            Mode::Meteor => "meteor",
            Mode::Star => "star",
            Mode::Disable => "disable",
        }
    }
}

} // verus!
