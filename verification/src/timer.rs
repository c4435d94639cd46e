//! The clock that is laid over the weather: its digits, where it stands, and
//! how it bounces off the edges of the screen.

use crate::buffer::{Grid, RenderBuffer};
use crate::geometry::{Direction, Position, Rect};
use crate::pass::EachFrameImpl;
use crate::signal::ShouldRender;
use vstd::prelude::*;

verus! {

/// The width of the drawn clock: three pairs of digits and two colons.
pub const TIMER_LAYOUT_WIDTH: u16 = 39;

/// The height of the drawn clock.
pub const TIMER_LAYOUT_HEIGHT: u16 = 5;

/// The bouncing clock moves in every frame that is a multiple of this.
pub const MOVE_EVERY: u64 = 8;

/// A blinking colon toggles in every frame that is a multiple of this.
pub const BLINK_EVERY: u64 = 24;

/// The time of day that the clock shows.
#[derive(Copy, Clone, PartialEq, Eq, Structural, Debug)]
pub struct Timer {
    pub hours: u8,
    pub minutes: u8,
    pub seconds: u8,
}

impl Timer {
    /// A clock face for the given time of day.
    pub fn new(hours: u8, minutes: u8, seconds: u8) -> (timer: Self)
        ensures
            timer == (Timer { hours, minutes, seconds }),
    {
        Timer { hours, minutes, seconds }
    }
}

/// How the clock behaves, as the command line names it.
#[derive(Copy, Clone, PartialEq, Eq, Structural, Debug)]
pub enum TimerMode {
    Dvd,
}

impl TimerMode {
    /// The mode's name as the command line spells it.
    pub fn name(&self) -> (s: &'static str)
        ensures
            s@ == "dvd"@,
    {
        match *self {
            TimerMode::Dvd => "dvd",
        }
    }
}

/// How the clock behaves, with the state that the behaviour needs.
#[derive(Copy, Clone, PartialEq, Eq, Structural, Debug)]
pub enum TimerRenderMode {
    /// Bounces off the edges, currently heading in the given direction.
    Dvd(Direction),
}

impl Default for TimerRenderMode {
    fn default() -> (mode: TimerRenderMode)
        ensures
            mode == TimerRenderMode::Dvd(Direction::LeftTop),
    {
        TimerRenderMode::Dvd(Direction::default())
    }
}

impl vstd::std_specs::convert::FromSpecImpl<TimerMode> for TimerRenderMode {
    open spec fn obeys_from_spec() -> bool {
        true
    }

    open spec fn from_spec(value: TimerMode) -> TimerRenderMode {
        TimerRenderMode::Dvd(Direction::LeftTop)
    }
}

impl From<TimerMode> for TimerRenderMode {
    fn from(value: TimerMode) -> (mode: TimerRenderMode) {
        match value {
            TimerMode::Dvd => TimerRenderMode::Dvd(Direction::default()),
        }
    }
}

/// The colon between the digit pairs.
#[derive(Copy, Clone, PartialEq, Eq, Structural, Debug)]
pub struct ColonState {
    pub show: bool,
    pub blink: bool,
}

impl Default for ColonState {
    fn default() -> (colon: ColonState)
        ensures
            colon == (ColonState { show: true, blink: false }),
    {
        ColonState { show: true, blink: false }
    }
}

impl ColonState {
    /// The colon one frame on: a blinking one toggles in every 24th frame.
    pub open spec fn ticked(self, frame: u64) -> ColonState {
        if self.blink && frame % BLINK_EVERY == 0 {
            ColonState { show: !self.show, blink: self.blink }
        } else {
            self
        }
    }

    /// Makes the colon blink from now on.
    pub fn enable_blink(&mut self)
        ensures
            *final(self) == (ColonState { show: old(self).show, blink: true }),
    {
        self.blink = true;
    }

    /// Shows a hidden colon and hides a shown one.
    pub fn toggle(&mut self)
        ensures
            *final(self) == (ColonState { show: !old(self).show, blink: old(self).blink }),
    {
        self.show = !self.show;
    }
}

impl EachFrameImpl for ColonState {
    open spec fn valid(&self) -> bool {
        true
    }

    open spec fn next_state(&self, grid: Grid, seed: u64, frame: u64) -> Self {
        self.ticked(frame)
    }

    open spec fn next_grid(&self, grid: Grid, seed: u64, frame: u64) -> Grid {
        grid
    }

    open spec fn signal(&self, grid: Grid, seed: u64, frame: u64) -> ShouldRender {
        if self.ticked(frame) == *self {
            ShouldRender::Skip
        } else {
            ShouldRender::Render
        }
    }

    /// One frame of the colon. The grid is not touched.
    fn on_frame(&mut self, rb: &mut RenderBuffer, seed: u64, frame: u64) -> (sr: ShouldRender)
        ensures
            final(rb).order() == old(rb).order(),
    {
        if self.blink && frame % BLINK_EVERY == 0 {
            self.toggle();
            ShouldRender::Render
        } else {
            ShouldRender::Skip
        }
    }
}

/// The direction after the edges were checked: at both a horizontal and a
/// vertical edge it turns round, at the top or bottom edge alone it flips
/// its vertical part, at the left or right edge alone its horizontal part.
pub open spec fn bounced(dir: Direction, at_top_or_bottom: bool, at_side: bool) -> Direction {
    if at_top_or_bottom && at_side {
        dir.reflection_reverse()
    } else if at_top_or_bottom {
        dir.reflection_h()
    } else if at_side {
        dir.reflection_v()
    } else {
        dir
    }
}

/// The area of the clock's size in the middle of `area`, measured from the
/// screen's upper left corner.
pub open spec fn centered(area: Rect) -> Rect {
    Rect {
        x: (if area.width >= TIMER_LAYOUT_WIDTH {
            (area.width - TIMER_LAYOUT_WIDTH) / 2
        } else {
            0
        }) as u16,
        y: (if area.height >= TIMER_LAYOUT_HEIGHT {
            (area.height - TIMER_LAYOUT_HEIGHT) / 2
        } else {
            0
        }) as u16,
        width: TIMER_LAYOUT_WIDTH,
        height: TIMER_LAYOUT_HEIGHT,
    }
}

/// Where the clock is and how it moves.
#[derive(Copy, Clone, PartialEq, Eq, Structural, Debug)]
pub struct TimerState {
    pub mode: Option<TimerRenderMode>,
    pub area: Rect,
    pub pos: Position,
    pub boundary: Rect,
    pub colon: ColonState,
}

impl TimerState {
    /// The clock touches the left or the right edge.
    pub open spec fn spec_is_collision_v(&self) -> bool {
        self.pos.0 == 0 || self.pos.0 + TIMER_LAYOUT_WIDTH >= self.boundary.width
    }

    /// The clock touches the top or the bottom edge.
    pub open spec fn spec_is_collision_h(&self) -> bool {
        self.pos.1 == 0 || self.pos.1 + TIMER_LAYOUT_HEIGHT >= self.boundary.height
    }

    /// The state after one bouncing step: the direction is reflected at the
    /// edges that the clock touches, then the clock moves one cell that way.
    /// Without a mode nothing changes.
    pub open spec fn moved(self) -> TimerState {
        match self.mode {
            Some(TimerRenderMode::Dvd(dir)) => {
                let dir = bounced(dir, self.spec_is_collision_h(), self.spec_is_collision_v());
                TimerState {
                    mode: Some(TimerRenderMode::Dvd(dir)),
                    area: self.area,
                    pos: self.pos.mv(dir),
                    boundary: self.boundary,
                    colon: self.colon,
                }
            },
            None => self,
        }
    }

    /// The state after the mode had its say in frame `frame`: a bouncing
    /// clock steps in every eighth frame and its area follows its position.
    pub open spec fn stepped(self, frame: u64) -> TimerState {
        if self.mode.is_none() || frame % MOVE_EVERY > 0 {
            self
        } else {
            let next = self.moved();
            TimerState {
                mode: next.mode,
                area: next.pos.into_rect(TIMER_LAYOUT_WIDTH, TIMER_LAYOUT_HEIGHT),
                pos: next.pos,
                boundary: next.boundary,
                colon: next.colon,
            }
        }
    }

    /// The state after a whole frame: the mode's step, then the colon's.
    pub open spec fn ticked(self, frame: u64) -> TimerState {
        let next = self.stepped(frame);
        TimerState {
            mode: next.mode,
            area: next.area,
            pos: next.pos,
            boundary: next.boundary,
            colon: next.colon.ticked(frame),
        }
    }

    /// Whether frame `frame` changes anything about the clock: it needs
    /// drawing exactly then.
    pub open spec fn stirs(self, frame: u64) -> ShouldRender {
        if self.ticked(frame) == self {
            ShouldRender::Skip
        } else {
            ShouldRender::Render
        }
    }

    /// The state for a screen of the given size: the clock in the middle,
    /// mode and colon as given.
    pub open spec fn placed(area: Rect, mode: Option<TimerRenderMode>, colon: ColonState) -> TimerState {
        TimerState {
            mode,
            area: centered(area),
            pos: Position(centered(area).x, centered(area).y),
            boundary: area,
            colon,
        }
    }

    /// A clock in the middle of `area`, with a steady colon.
    pub fn new(area: Rect, mode: Option<TimerRenderMode>) -> (state: Self)
        ensures
            state == Self::placed(area, mode, ColonState { show: true, blink: false }),
    {
        let boundary = area;
        let area = Self::get_center_area(area);
        TimerState {
            mode,
            area,
            boundary,
            pos: Position::from(area),
            colon: ColonState::default(),
        }
    }

    /// Puts the clock in the middle of a screen of a new size. Mode and colon
    /// stay as they are.
    pub fn resize(&mut self, area: Rect)
        ensures
            *final(self) == Self::placed(area, old(self).mode, old(self).colon),
    {
        let middle = Self::get_center_area(area);
        self.boundary = area;
        self.area = middle;
        self.pos = Position::from(middle);
    }

    /// One bouncing step.
    pub fn on_dvd_frame(&mut self)
        ensures
            *final(self) == old(self).moved(),
    {
        let dir = match self.mode {
            Some(TimerRenderMode::Dvd(dir)) => dir,
            None => {
                return ;
            },
        };
        let is_collision_h = self.is_collision_h();
        let is_collision_v = self.is_collision_v();
        let dir = if is_collision_h && is_collision_v {
            dir.reflection_reverse()
        } else if is_collision_h {
            dir.reflection_h()
        } else if is_collision_v {
            dir.reflection_v()
        } else {
            dir
        };
        self.pos = self.pos.mv(dir);
        self.mode = Some(TimerRenderMode::Dvd(dir));
    }

    /// The area of the clock's size in the middle of `area`.
    pub fn get_center_area(area: Rect) -> (middle: Rect)
        ensures
            middle == centered(area),
    {
        let padding_h = area.width.saturating_sub(TIMER_LAYOUT_WIDTH) / 2;
        let padding_v = area.height.saturating_sub(TIMER_LAYOUT_HEIGHT) / 2;
        Rect { x: padding_h, y: padding_v, height: TIMER_LAYOUT_HEIGHT, width: TIMER_LAYOUT_WIDTH }
    }

    /// The clock's area when its upper left corner is at `pos`.
    pub fn get_area_with_pos(pos: Position) -> (area: Rect)
        ensures
            area == pos.into_rect(TIMER_LAYOUT_WIDTH, TIMER_LAYOUT_HEIGHT),
    {
        pos.into_rect(TIMER_LAYOUT_WIDTH, TIMER_LAYOUT_HEIGHT)
    }

    /// Whether the clock touches the left or the right edge.
    #[verifier::when_used_as_spec(spec_is_collision_v)]
    pub fn is_collision_v(&self) -> (hit: bool)
        ensures
            hit == self.spec_is_collision_v(),
    {
        self.pos.0 == 0 || self.pos.0 as u32 + TIMER_LAYOUT_WIDTH as u32
            >= self.boundary.width as u32
    }

    /// Whether the clock touches the top or the bottom edge.
    #[verifier::when_used_as_spec(spec_is_collision_h)]
    pub fn is_collision_h(&self) -> (hit: bool)
        ensures
            hit == self.spec_is_collision_h(),
    {
        self.pos.1 == 0 || self.pos.1 as u32 + TIMER_LAYOUT_HEIGHT as u32
            >= self.boundary.height as u32
    }

    /// Lets the mode act in frame `frame`.
    pub fn handle_mode(&mut self, frame: u64)
        ensures
            *final(self) == old(self).stepped(frame),
    {
        if self.mode.is_none() {
            return ;
        }
        if frame % MOVE_EVERY > 0 {
            return ;
        }
        match self.mode {
            Some(TimerRenderMode::Dvd(_)) => self.on_dvd_frame(),
            None => {},
        }
        self.area = Self::get_area_with_pos(self.pos);
    }
}

/// At the left edge a clock heading left turns right, whatever else it
/// touches; in the upper left corner a clock heading left and up turns to
/// head right and down.
pub proof fn lemma_left_edge_turns_right(state: TimerState, dir: Direction)
    requires
        state.mode == Some(TimerRenderMode::Dvd(dir)),
        state.pos.0 == 0,
        dir.heads_left(),
    ensures
        state.moved().mode matches Some(TimerRenderMode::Dvd(next)) && next.heads_right(),
        state.pos.1 == 0 && dir == Direction::LeftTop ==> state.moved().mode == Some(
            TimerRenderMode::Dvd(Direction::RightBottom),
        ),
{
}

impl EachFrameImpl for TimerState {
    open spec fn valid(&self) -> bool {
        true
    }

    open spec fn next_state(&self, grid: Grid, seed: u64, frame: u64) -> Self {
        self.ticked(frame)
    }

    open spec fn next_grid(&self, grid: Grid, seed: u64, frame: u64) -> Grid {
        grid
    }

    open spec fn signal(&self, grid: Grid, seed: u64, frame: u64) -> ShouldRender {
        self.stirs(frame)
    }

    /// One frame of the clock: the mode's step, then the colon's. The grid is
    /// not touched. The frame needs drawing when either changed something.
    fn on_frame(&mut self, rb: &mut RenderBuffer, seed: u64, frame: u64) -> (sr: ShouldRender)
        ensures
            final(rb).order() == old(rb).order(),
    {
        let before = *self;
        self.handle_mode(frame);
        let _ = self.colon.on_frame(rb, seed, frame);
        if *self == before {
            ShouldRender::Skip
        } else {
            ShouldRender::Render
        }
    }
}

} // verus!
