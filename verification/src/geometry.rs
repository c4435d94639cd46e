//! Rectangles, positions and the eight directions in which the clock moves.

use vstd::prelude::*;

verus! {

/// An area of the screen, in character cells.
#[derive(Copy, Clone, PartialEq, Eq, Structural, Debug)]
pub struct Rect {
    pub x: u16,
    pub y: u16,
    pub width: u16,
    pub height: u16,
}

/// Where something on the screen is heading.
#[derive(Copy, Clone, PartialEq, Eq, Structural, Debug)]
pub enum Direction {
    LeftTop,
    LeftBottom,
    RightTop,
    RightBottom,
    Up,
    Down,
    Left,
    Right,
}

impl Default for Direction {
    fn default() -> (dir: Direction)
        ensures
            dir == Direction::LeftTop,
    {
        Direction::LeftTop
    }
}

impl Direction {
    /// The direction has a leftward component.
    pub open spec fn heads_left(self) -> bool {
        self is LeftTop || self is LeftBottom || self is Left
    }

    /// The direction has a rightward component.
    pub open spec fn heads_right(self) -> bool {
        self is RightTop || self is RightBottom || self is Right
    }

    /// The direction has an upward component.
    pub open spec fn heads_up(self) -> bool {
        self is LeftTop || self is RightTop || self is Up
    }

    /// The direction has a downward component.
    pub open spec fn heads_down(self) -> bool {
        self is LeftBottom || self is RightBottom || self is Down
    }

    pub open spec fn spec_reflection_h(&self) -> Self {
        match *self {
            Direction::LeftTop => Direction::LeftBottom,
            Direction::LeftBottom => Direction::LeftTop,
            Direction::RightTop => Direction::RightBottom,
            Direction::RightBottom => Direction::RightTop,
            Direction::Up => Direction::Down,
            Direction::Down => Direction::Up,
            Direction::Left => Direction::Right,
            Direction::Right => Direction::Left,
        }
    }

    pub open spec fn spec_reflection_v(&self) -> Self {
        match *self {
            Direction::LeftTop => Direction::RightTop,
            Direction::LeftBottom => Direction::RightBottom,
            Direction::RightTop => Direction::LeftTop,
            Direction::RightBottom => Direction::LeftBottom,
            Direction::Up => Direction::Down,
            Direction::Down => Direction::Up,
            Direction::Left => Direction::Right,
            Direction::Right => Direction::Left,
        }
    }

    pub open spec fn spec_reflection_reverse(&self) -> Self {
        match *self {
            Direction::LeftTop => Direction::RightBottom,
            Direction::LeftBottom => Direction::RightTop,
            Direction::RightTop => Direction::LeftBottom,
            Direction::RightBottom => Direction::LeftTop,
            Direction::Up => Direction::Down,
            Direction::Down => Direction::Up,
            Direction::Left => Direction::Right,
            Direction::Right => Direction::Left,
        }
    }

    /// The direction after hitting the top or bottom edge: a diagonal keeps
    /// its horizontal part and flips the vertical one, a straight direction
    /// turns round.
    #[verifier::when_used_as_spec(spec_reflection_h)]
    pub fn reflection_h(&self) -> (dir: Self)
        ensures
            dir == self.spec_reflection_h(),
    {
        match *self {
            Direction::LeftTop => Direction::LeftBottom,
            Direction::LeftBottom => Direction::LeftTop,
            Direction::RightTop => Direction::RightBottom,
            Direction::RightBottom => Direction::RightTop,
            Direction::Up => Direction::Down,
            Direction::Down => Direction::Up,
            Direction::Left => Direction::Right,
            Direction::Right => Direction::Left,
        }
    }

    /// The direction after hitting the left or right edge: a diagonal keeps
    /// its vertical part and flips the horizontal one, a straight direction
    /// turns round.
    #[verifier::when_used_as_spec(spec_reflection_v)]
    pub fn reflection_v(&self) -> (dir: Self)
        ensures
            dir == self.spec_reflection_v(),
    {
        match *self {
            Direction::LeftTop => Direction::RightTop,
            Direction::LeftBottom => Direction::RightBottom,
            Direction::RightTop => Direction::LeftTop,
            Direction::RightBottom => Direction::LeftBottom,
            Direction::Up => Direction::Down,
            Direction::Down => Direction::Up,
            Direction::Left => Direction::Right,
            Direction::Right => Direction::Left,
        }
    }

    /// The direction after hitting a corner: the opposite one.
    #[verifier::when_used_as_spec(spec_reflection_reverse)]
    pub fn reflection_reverse(&self) -> (dir: Self)
        ensures
            dir == self.spec_reflection_reverse(),
    {
        match *self {
            Direction::LeftTop => Direction::RightBottom,
            Direction::LeftBottom => Direction::RightTop,
            Direction::RightTop => Direction::LeftBottom,
            Direction::RightBottom => Direction::LeftTop,
            Direction::Up => Direction::Down,
            Direction::Down => Direction::Up,
            Direction::Left => Direction::Right,
            Direction::Right => Direction::Left,
        }
    }
}

/// A column and a row on the screen.
#[derive(Copy, Clone, PartialEq, Eq, Structural, Debug)]
pub struct Position(pub u16, pub u16);

/// One less, but never below zero.
pub open spec fn step_back(v: u16) -> u16 {
    if v == 0 {
        0
    } else {
        (v - 1) as u16
    }
}

/// One more, but never above what a `u16` holds.
pub open spec fn step_on(v: u16) -> u16 {
    if v == u16::MAX {
        v
    } else {
        (v + 1) as u16
    }
}

impl vstd::std_specs::convert::FromSpecImpl<Rect> for Position {
    open spec fn obeys_from_spec() -> bool {
        true
    }

    open spec fn from_spec(value: Rect) -> Position {
        Position(value.x, value.y)
    }
}

impl From<Rect> for Position {
    /// The upper left corner of an area.
    fn from(value: Rect) -> (pos: Position) {
        Position(value.x, value.y)
    }
}

impl Position {
    pub open spec fn spec_mv(self, dir: Direction) -> Self {
        let x = if dir.heads_left() {
            step_back(self.0)
        } else if dir.heads_right() {
            step_on(self.0)
        } else {
            self.0
        };
        let y = if dir.heads_up() {
            step_back(self.1)
        } else if dir.heads_down() {
            step_on(self.1)
        } else {
            self.1
        };
        Position(x, y)
    }

    pub open spec fn spec_into_rect(self, width: u16, height: u16) -> Rect {
        Rect { x: self.0, y: self.1, width, height }
    }

    /// The area of the given size whose upper left corner is here.
    #[verifier::when_used_as_spec(spec_into_rect)]
    pub fn into_rect(self, width: u16, height: u16) -> (area: Rect)
        ensures
            area == self.spec_into_rect(width, height),
    {
        Rect { height, width, x: self.0, y: self.1 }
    }

    /// One step in direction `dir`, stopping at the limits of `u16`.
    #[verifier::when_used_as_spec(spec_mv)]
    pub fn mv(self, dir: Direction) -> (pos: Self)
        ensures
            pos == self.spec_mv(dir),
    {
        let Position(x, y) = self;
        match dir {
            Direction::LeftTop => Position(x.saturating_sub(1), y.saturating_sub(1)),
            Direction::LeftBottom => Position(x.saturating_sub(1), y.saturating_add(1)),
            Direction::RightTop => Position(x.saturating_add(1), y.saturating_sub(1)),
            Direction::RightBottom => Position(x.saturating_add(1), y.saturating_add(1)),
            Direction::Up => Position(x, y.saturating_sub(1)),
            Direction::Down => Position(x, y.saturating_add(1)),
            Direction::Left => Position(x.saturating_sub(1), y),
            Direction::Right => Position(x.saturating_add(1), y),
        }
    }
}

} // verus!
