//! Which kind of a cell is drawn, and as what.

use crate::cell::{first_or_none, has_kind, Cell, CellType};
use crate::tail::TailMode;
use crate::wind::WindDirection;
use vstd::prelude::*;

verus! {

/// The colour a cell is drawn in.
#[derive(Copy, Clone, PartialEq, Eq, Structural, Debug)]
pub enum CellColor {
    Rgb(u8, u8, u8),
    Yellow,
    Reset,
}

/// How each weather looks.
#[derive(Copy, Clone, PartialEq, Eq, Structural, Debug)]
pub enum GeneralWeatherWidget {
    Rain(WindDirection),
    Snow,
    Meteor(TailMode),
    Star,
    Disable,
}

impl GeneralWeatherWidget {
    /// Rain is grey, a meteor's head yellow, everything else the terminal's
    /// own colour.
    pub open spec fn spec_get_color(&self, cell: CellType) -> CellColor {
        match *self {
            GeneralWeatherWidget::Rain(_) => CellColor::Rgb(150, 150, 150),
            GeneralWeatherWidget::Meteor(_) => if cell.is_dropping_cell() {
                CellColor::Yellow
            } else {
                CellColor::Reset
            },
            _ => CellColor::Reset,
        }
    }

    /// The character for a kind; a blank where the weather does not draw it.
    pub open spec fn spec_get_char(&self, d: CellType) -> char {
        match *self {
            GeneralWeatherWidget::Rain(wind) => match d {
                CellType::Fast => '.',
                CellType::Normal(_) => ':',
                CellType::Slow => match wind {
                    WindDirection::Left => '/',
                    WindDirection::Right => '\\',
                    WindDirection::Calm => '|',
                },
                _ => ' ',
            },
            GeneralWeatherWidget::Snow => match d {
                CellType::Normal(_) => '●',
                _ => ' ',
            },
            GeneralWeatherWidget::Meteor(tail) => match d {
                CellType::Fast | CellType::Normal(_) | CellType::Slow => '★',
                CellType::Tail(_) => match tail {
                    TailMode::Left => '/',
                    TailMode::Right => '\\',
                    TailMode::Default => '|',
                },
                _ => ' ',
            },
            _ => ' ',
        }
    }

    /// The one kind that stands for a cell. Nothing is drawn when the
    /// weather is off. Snow shows normal flakes only. Everything else shows
    /// a slow drop if there is one, else whatever the cell held first.
    pub open spec fn render_kind(&self, cell: Seq<CellType>) -> CellType {
        match *self {
            GeneralWeatherWidget::Disable => CellType::Empty,
            GeneralWeatherWidget::Snow => if has_kind(cell, CellType::Normal(0)) {
                CellType::Normal(0)
            } else {
                CellType::Empty
            },
            _ => if has_kind(cell, CellType::Slow) {
                CellType::Slow
            } else {
                first_or_none(cell)
            },
        }
    }

    /// The colour in which a kind is drawn.
    #[verifier::when_used_as_spec(spec_get_color)]
    pub fn get_color(&self, cell: CellType) -> (color: CellColor)
        ensures
            color == self.spec_get_color(cell),
    {
        match *self {
            GeneralWeatherWidget::Rain(_) => CellColor::Rgb(150, 150, 150),
            GeneralWeatherWidget::Meteor(_) => match cell {
                CellType::Fast | CellType::Normal(_) | CellType::Slow => CellColor::Yellow,
                _ => CellColor::Reset,
            },
            _ => CellColor::Reset,
        }
    }

    /// The character as which a kind is drawn.
    #[verifier::when_used_as_spec(spec_get_char)]
    pub fn get_char(&self, d: CellType) -> (glyph: char)
        ensures
            glyph == self.spec_get_char(d),
    {
        match *self {
            GeneralWeatherWidget::Rain(wind) => match d {
                CellType::Fast => '.',
                CellType::Normal(_) => ':',
                CellType::Slow => match wind {
                    WindDirection::Left => '/',
                    WindDirection::Right => '\\',
                    WindDirection::Calm => '|',
                },
                _ => ' ',
            },
            GeneralWeatherWidget::Snow => match d {
                CellType::Normal(_) => '●',
                _ => ' ',
            },
            GeneralWeatherWidget::Meteor(tail) => match d {
                CellType::Fast | CellType::Normal(_) | CellType::Slow => '★',
                CellType::Tail(_) => match tail {
                    TailMode::Left => '/',
                    TailMode::Right => '\\',
                    TailMode::Default => '|',
                },
                _ => ' ',
            },
            _ => ' ',
        }
    }

    /// The one kind that is drawn for a cell.
    pub fn get_render_cell_type(&self, cell: &Cell) -> (kind: CellType)
        ensures
            kind == self.render_kind(cell@),
    {
        match *self {
            GeneralWeatherWidget::Disable => CellType::Empty,
            GeneralWeatherWidget::Snow => if cell.contains(CellType::Normal(0)) {
                CellType::Normal(0)
            } else {
                CellType::Empty
            },
            _ => if cell.contains(CellType::Slow) {
                CellType::Slow
            } else {
                cell.first_or_none()
            },
        }
    }
}

/// The two decimal digits of a clock field, tens first.
pub fn decimal_digits(d: u8) -> (digits: (u8, u8))
    ensures
        digits.0 == d / 10,
        digits.1 == d % 10,
        d == digits.0 * 10 + digits.1,
{
    (d / 10, d % 10)
}

} // verus!
