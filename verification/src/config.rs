//! What the command line configures.

use crate::signal::Mode;
use crate::timer::TimerMode;
use crate::wind::WindMode;
use vstd::prelude::*;

verus! {

/// The lowest frame or tick rate that the command line takes.
pub const MIN_RATE: u8 = 1;

/// The highest frame or tick rate that the command line takes.
pub const MAX_RATE: u8 = 240;

/// The highest density threshold that the command line takes.
pub const MAX_LEVEL: u16 = 1000;

/// What `clap_num::number_range` makes of a word read as a `u8` within
/// limits: the number, or the message that says why there is none.
pub uninterp spec fn ranged_u8(s: Seq<char>, min: u8, max: u8) -> Result<u8, Seq<char>>;

/// What `clap_num::number_range` makes of a word read as a `u16` within
/// limits: the number, or the message that says why there is none.
pub uninterp spec fn ranged_u16(s: Seq<char>, min: u16, max: u16) -> Result<u16, Seq<char>>;

/// `clap_num::number_range` for a `u8`: parses the word and checks the
/// number against the limits, both included. A number that comes back lies
/// within them. The limits must be in order.
#[verifier::external_body]
fn number_range_u8(s: &str, min: u8, max: u8) -> (r: Result<u8, String>)
    requires
        min <= max,
    ensures
        match r {
            Ok(v) => ranged_u8(s@, min, max) == Ok::<u8, Seq<char>>(v) && min <= v <= max,
            Err(e) => ranged_u8(s@, min, max) == Err::<u8, Seq<char>>(e@),
        },
{
    clap_num::number_range(s, min, max)
}

/// `clap_num::number_range` for a `u16`: parses the word and checks the
/// number against the limits, both included. A number that comes back lies
/// within them. The limits must be in order.
#[verifier::external_body]
fn number_range_u16(s: &str, min: u16, max: u16) -> (r: Result<u16, String>)
    requires
        min <= max,
    ensures
        match r {
            Ok(v) => ranged_u16(s@, min, max) == Ok::<u16, Seq<char>>(v) && min <= v <= max,
            Err(e) => ranged_u16(s@, min, max) == Err::<u16, Seq<char>>(e@),
        },
{
    clap_num::number_range(s, min, max)
}

/// Reads a frame or tick rate: a number from 1 to 240.
pub fn process_rate_range(s: &str) -> (r: Result<u8, String>)
    ensures
        match r {
            Ok(v) => ranged_u8(s@, MIN_RATE, MAX_RATE) == Ok::<u8, Seq<char>>(v) && MIN_RATE <= v
                <= MAX_RATE,
            Err(e) => ranged_u8(s@, MIN_RATE, MAX_RATE) == Err::<u8, Seq<char>>(e@),
        },
{
    number_range_u8(s, MIN_RATE, MAX_RATE)
}

/// Reads a density threshold: a number from 0 to 1000. Zero passes here and
/// is turned down when the weather is made.
pub fn level_range(s: &str) -> (r: Result<u16, String>)
    ensures
        match r {
            Ok(v) => ranged_u16(s@, 0, MAX_LEVEL) == Ok::<u16, Seq<char>>(v) && v <= MAX_LEVEL,
            Err(e) => ranged_u16(s@, 0, MAX_LEVEL) == Err::<u16, Seq<char>>(e@),
        },
{
    number_range_u16(s, 0, MAX_LEVEL)
}

/// The settings of one run.
#[derive(Clone, Copy, Debug)]
pub struct Args {
    pub mode: Mode,
    pub timer_mode: Option<TimerMode>,
    /// Frames per second.
    pub fps: u8,
    /// Ticks per second.
    pub tps: u8,
    /// The density threshold: the lower, the more drops. `None` leaves the
    /// choice to the weather.
    pub level: Option<u16>,
    pub wind: WindMode,
    pub show_fps: bool,
    pub blink_colon: bool,
}

impl Default for Args {
    /// Rain at sixty frames a second, random wind, no clock mode.
    fn default() -> (args: Args)
        ensures
            args.mode == Mode::Rain,
            args.timer_mode.is_none(),
            args.fps == 60,
            args.tps == 60,
            args.level.is_none(),
            args.wind == WindMode::Random,
            !args.show_fps,
            !args.blink_colon,
    {
        Args {
            mode: Mode::Rain,
            timer_mode: None,
            fps: 60,
            tps: 60,
            level: None,
            wind: WindMode::Random,
            show_fps: false,
            blink_colon: false,
        }
    }
}

} // verus!
