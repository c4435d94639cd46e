//! The weathers: each a fixed chain of passes, run in order every frame.

use crate::buffer::{Grid, RenderBuffer};
use crate::config::Args;
use crate::dropping::{ConfigError, DroppingState};
use crate::pass::EachFrameImpl;
use crate::signal::{Mode, ShouldRender};
use crate::tail::{TailMode, TailState};
use crate::widget::GeneralWeatherWidget;
use crate::wind::WindState;
use vstd::prelude::*;
use vstd::std_specs::convert::FromSpec;

verus! {

/// The density threshold of rain and snow when none is configured.
pub const DEF_LEVEL: u16 = 50;

/// The density threshold of meteors and stars when none is configured.
pub const DEF_TAIL_LEVEL: u16 = 500;

/// The threshold to use: the configured one, else the given default.
pub open spec fn level_or(level: Option<u16>, default: u16) -> u16 {
    match level {
        Some(level) => level,
        None => default,
    }
}

/// What a weather offers to whoever draws it.
pub trait AsWeatherWidget {
    /// The weather is one that has a look.
    spec fn drawable(&self) -> bool;

    /// The look of the weather in its present state.
    spec fn widget(&self) -> GeneralWeatherWidget;

    /// Whether the weather has a look.
    fn can_draw(&self) -> (yes: bool)
        ensures
            yes == self.drawable(),
    ;

    /// The look of the weather in its present state.
    fn as_weather_widget(&self) -> (look: GeneralWeatherWidget)
        requires
            self.drawable(),
        ensures
            look == self.widget(),
    ;
}

/// A weather: something that runs every frame and can be drawn.
pub trait WeatherImpl: EachFrameImpl + AsWeatherWidget {

}

/// Rain and snow: wind, then falling drops.
#[derive(Clone, Copy, Debug)]
pub struct GeneralDropping {
    pub wind: WindState,
    pub dropping: DroppingState,
}

impl GeneralDropping {
    /// This weather is the one that `args` configures.
    pub open spec fn configured(self, args: Args) -> bool {
        &&& self.wind == WindState::fresh(args.wind)
        &&& self.dropping.spec_threshold() == level_or(args.level, DEF_LEVEL)
        &&& self.dropping.spec_mode() == args.mode
    }

    /// Wind as configured and drops at the configured density, or at
    /// `DEF_LEVEL` when none is configured. A density of zero is turned down.
    pub fn new(args: Args) -> (r: Result<Self, ConfigError>)
        ensures
            r.is_err() <==> args.level == Some(0u16),
            r matches Err(e) ==> e == ConfigError::ZeroThreshold,
            r matches Ok(weather) ==> weather.valid() && weather.configured(args),
    {
        let threshold = match args.level {
            Some(level) => level,
            None => DEF_LEVEL,
        };
        match DroppingState::new(threshold, args.mode) {
            Ok(dropping) => Ok(GeneralDropping { wind: WindState::new(args.wind), dropping }),
            Err(e) => Err(e),
        }
    }
}

impl EachFrameImpl for GeneralDropping {
    open spec fn valid(&self) -> bool {
        self.dropping.valid()
    }

    open spec fn next_state(&self, grid: Grid, seed: u64, frame: u64) -> Self {
        GeneralDropping {
            wind: self.wind.next_state(grid, seed, frame),
            dropping: self.dropping,
        }
    }

    open spec fn next_grid(&self, grid: Grid, seed: u64, frame: u64) -> Grid {
        self.dropping.next_grid(self.wind.next_grid(grid, seed, frame), seed, frame)
    }

    open spec fn signal(&self, grid: Grid, seed: u64, frame: u64) -> ShouldRender {
        self.wind.signal(grid, seed, frame).or(
            self.dropping.signal(self.wind.next_grid(grid, seed, frame), seed, frame),
        )
    }

    /// Wind first, then the drops, on the grid that the wind left. The frame
    /// needs drawing when either pass says so.
    fn on_frame(&mut self, rb: &mut RenderBuffer, seed: u64, frame: u64) -> (sr: ShouldRender) {
        let blown = self.wind.on_frame(rb, seed, frame);
        let dropped = self.dropping.on_frame(rb, seed, frame);
        blown.or(dropped)
    }
}

impl AsWeatherWidget for GeneralDropping {
    open spec fn drawable(&self) -> bool {
        self.dropping.spec_mode() is Rain || self.dropping.spec_mode() is Snow
    }

    open spec fn widget(&self) -> GeneralWeatherWidget {
        if self.dropping.spec_mode() is Rain {
            GeneralWeatherWidget::Rain(self.wind.direction)
        } else {
            GeneralWeatherWidget::Snow
        }
    }

    fn can_draw(&self) -> (yes: bool) {
        match self.dropping.mode() {
            Mode::Rain | Mode::Snow => true,
            _ => false,
        }
    }

    fn as_weather_widget(&self) -> (look: GeneralWeatherWidget) {
        match self.dropping.mode() {
            Mode::Rain => GeneralWeatherWidget::Rain(self.wind.direction),
            _ => GeneralWeatherWidget::Snow,
        }
    }
}

impl WeatherImpl for GeneralDropping {

}

/// Meteors and stars: wind that is never random, falling drops, and a tail
/// behind each.
#[derive(Clone, Copy, Debug)]
pub struct TailDropping {
    pub wind: WindState,
    pub dropping: DroppingState,
    pub tail: TailState,
}

impl TailDropping {
    /// This weather is the one that `args` configures.
    pub open spec fn configured(self, args: Args) -> bool {
        &&& self.wind == WindState::fresh(args.wind.without_random())
        &&& self.tail.mode == TailMode::from_spec(args.wind)
        &&& self.dropping.spec_threshold() == level_or(args.level, DEF_TAIL_LEVEL)
        &&& self.dropping.spec_mode() == args.mode
    }

    /// Wind as configured but with random wind switched off, tails that lean
    /// with the wind, and drops at the configured density, or at
    /// `DEF_TAIL_LEVEL` when none is configured. A density of zero is turned
    /// down.
    pub fn new(args: Args) -> (r: Result<Self, ConfigError>)
        ensures
            r.is_err() <==> args.level == Some(0u16),
            r matches Err(e) ==> e == ConfigError::ZeroThreshold,
            r matches Ok(weather) ==> weather.valid() && weather.configured(args),
    {
        let threshold = match args.level {
            Some(level) => level,
            None => DEF_TAIL_LEVEL,
        };
        match DroppingState::new(threshold, args.mode) {
            Ok(dropping) => Ok(
                TailDropping {
                    wind: WindState::new(args.wind.without_random()),
                    tail: TailState::new(TailMode::from(args.wind)),
                    dropping,
                },
            ),
            Err(e) => Err(e),
        }
    }
}

impl EachFrameImpl for TailDropping {
    open spec fn valid(&self) -> bool {
        self.dropping.valid()
    }

    open spec fn next_state(&self, grid: Grid, seed: u64, frame: u64) -> Self {
        TailDropping {
            wind: self.wind.next_state(grid, seed, frame),
            dropping: self.dropping,
            tail: self.tail,
        }
    }

    open spec fn next_grid(&self, grid: Grid, seed: u64, frame: u64) -> Grid {
        let blown = self.wind.next_grid(grid, seed, frame);
        let dropped = self.dropping.next_grid(blown, seed, frame);
        self.tail.next_grid(dropped, seed, frame)
    }

    open spec fn signal(&self, grid: Grid, seed: u64, frame: u64) -> ShouldRender {
        let blown = self.wind.next_grid(grid, seed, frame);
        let dropped = self.dropping.next_grid(blown, seed, frame);
        self.wind.signal(grid, seed, frame).or(self.dropping.signal(blown, seed, frame)).or(
            self.tail.signal(dropped, seed, frame),
        )
    }

    /// Wind, then the drops, then the tails, each on the grid that the pass
    /// before left. The frame needs drawing when any pass says so.
    fn on_frame(&mut self, rb: &mut RenderBuffer, seed: u64, frame: u64) -> (sr: ShouldRender) {
        let blown = self.wind.on_frame(rb, seed, frame);
        let dropped = self.dropping.on_frame(rb, seed, frame);
        let tailed = self.tail.on_frame(rb, seed, frame);
        blown.or(dropped).or(tailed)
    }
}

impl AsWeatherWidget for TailDropping {
    open spec fn drawable(&self) -> bool {
        self.dropping.spec_mode() is Meteor || self.dropping.spec_mode() is Star
    }

    open spec fn widget(&self) -> GeneralWeatherWidget {
        if self.dropping.spec_mode() is Meteor {
            GeneralWeatherWidget::Meteor(self.tail.mode)
        } else {
            GeneralWeatherWidget::Star
        }
    }

    fn can_draw(&self) -> (yes: bool) {
        match self.dropping.mode() {
            Mode::Meteor | Mode::Star => true,
            _ => false,
        }
    }

    fn as_weather_widget(&self) -> (look: GeneralWeatherWidget) {
        match self.dropping.mode() {
            Mode::Meteor => GeneralWeatherWidget::Meteor(self.tail.mode),
            _ => GeneralWeatherWidget::Star,
        }
    }
}

impl WeatherImpl for TailDropping {

}

/// No weather at all.
#[derive(Clone, Copy, Debug)]
pub struct EmptyWeather;

impl EachFrameImpl for EmptyWeather {
    open spec fn valid(&self) -> bool {
        true
    }

    open spec fn next_state(&self, grid: Grid, seed: u64, frame: u64) -> Self {
        *self
    }

    open spec fn next_grid(&self, grid: Grid, seed: u64, frame: u64) -> Grid {
        grid
    }

    open spec fn signal(&self, grid: Grid, seed: u64, frame: u64) -> ShouldRender {
        ShouldRender::Skip
    }

    /// Nothing happens and nothing needs drawing.
    fn on_frame(&mut self, rb: &mut RenderBuffer, seed: u64, frame: u64) -> (sr: ShouldRender)
        ensures
            final(rb).order() == old(rb).order(),
    {
        ShouldRender::Skip
    }
}

impl AsWeatherWidget for EmptyWeather {
    open spec fn drawable(&self) -> bool {
        true
    }

    open spec fn widget(&self) -> GeneralWeatherWidget {
        GeneralWeatherWidget::Disable
    }

    fn can_draw(&self) -> (yes: bool) {
        true
    }

    fn as_weather_widget(&self) -> (look: GeneralWeatherWidget) {
        GeneralWeatherWidget::Disable
    }
}

impl WeatherImpl for EmptyWeather {

}

/// The weather that is selected for a run.
#[derive(Clone, Copy, Debug)]
pub enum Weather {
    General(GeneralDropping),
    Tail(TailDropping),
    Empty(EmptyWeather),
}

impl Weather {
    /// The chain of passes that the configured mode stands for.
    pub open spec fn selected(args: Args, weather: Weather) -> bool {
        match args.mode {
            Mode::Rain | Mode::Snow => weather matches Weather::General(g) && g.configured(args),
            Mode::Meteor | Mode::Star => weather matches Weather::Tail(t) && t.configured(args),
            Mode::Disable => weather is Empty,
        }
    }

    /// Selects the weather for the configured mode: rain and snow fall in
    /// the wind, meteors and stars also draw tails, and a disabled mode does
    /// nothing. A density of zero is turned down wherever drops fall.
    pub fn from(args: Args) -> (r: Result<Self, ConfigError>)
        ensures
            r.is_err() <==> !(args.mode is Disable) && args.level == Some(0u16),
            r matches Err(e) ==> e == ConfigError::ZeroThreshold,
            r matches Ok(weather) ==> weather.valid() && weather.drawable() && Self::selected(
                args,
                weather,
            ),
    {
        match args.mode {
            Mode::Rain | Mode::Snow => match GeneralDropping::new(args) {
                Ok(g) => Ok(Weather::General(g)),
                Err(e) => Err(e),
            },
            Mode::Meteor | Mode::Star => match TailDropping::new(args) {
                Ok(t) => Ok(Weather::Tail(t)),
                Err(e) => Err(e),
            },
            Mode::Disable => Ok(Weather::Empty(EmptyWeather)),
        }
    }
}

impl EachFrameImpl for Weather {
    open spec fn valid(&self) -> bool {
        match *self {
            Weather::General(g) => g.valid(),
            Weather::Tail(t) => t.valid(),
            Weather::Empty(e) => e.valid(),
        }
    }

    open spec fn next_state(&self, grid: Grid, seed: u64, frame: u64) -> Self {
        match *self {
            Weather::General(g) => Weather::General(g.next_state(grid, seed, frame)),
            Weather::Tail(t) => Weather::Tail(t.next_state(grid, seed, frame)),
            Weather::Empty(e) => Weather::Empty(e.next_state(grid, seed, frame)),
        }
    }

    open spec fn next_grid(&self, grid: Grid, seed: u64, frame: u64) -> Grid {
        match *self {
            Weather::General(g) => g.next_grid(grid, seed, frame),
            Weather::Tail(t) => t.next_grid(grid, seed, frame),
            Weather::Empty(e) => e.next_grid(grid, seed, frame),
        }
    }

    open spec fn signal(&self, grid: Grid, seed: u64, frame: u64) -> ShouldRender {
        match *self {
            Weather::General(g) => g.signal(grid, seed, frame),
            Weather::Tail(t) => t.signal(grid, seed, frame),
            Weather::Empty(e) => e.signal(grid, seed, frame),
        }
    }

    /// Runs the selected chain.
    fn on_frame(&mut self, rb: &mut RenderBuffer, seed: u64, frame: u64) -> (sr: ShouldRender) {
        match self {
            Weather::General(g) => g.on_frame(rb, seed, frame),
            Weather::Tail(t) => t.on_frame(rb, seed, frame),
            Weather::Empty(e) => e.on_frame(rb, seed, frame),
        }
    }
}

impl AsWeatherWidget for Weather {
    open spec fn drawable(&self) -> bool {
        match *self {
            Weather::General(g) => g.drawable(),
            Weather::Tail(t) => t.drawable(),
            Weather::Empty(e) => e.drawable(),
        }
    }

    open spec fn widget(&self) -> GeneralWeatherWidget {
        match *self {
            Weather::General(g) => g.widget(),
            Weather::Tail(t) => t.widget(),
            Weather::Empty(e) => e.widget(),
        }
    }

    fn can_draw(&self) -> (yes: bool) {
        match self {
            Weather::General(g) => g.can_draw(),
            Weather::Tail(t) => t.can_draw(),
            Weather::Empty(e) => e.can_draw(),
        }
    }

    fn as_weather_widget(&self) -> (look: GeneralWeatherWidget) {
        match self {
            Weather::General(g) => g.as_weather_widget(),
            Weather::Tail(t) => t.as_weather_widget(),
            Weather::Empty(e) => e.as_weather_widget(),
        }
    }
}

impl WeatherImpl for Weather {

}

} // verus!
