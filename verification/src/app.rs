//! What the program does with each event: count frames, run the simulation,
//! and know when to stop.

use crate::buffer::blank;
use crate::geometry::Rect;
use crate::pass::EachFrameImpl;
use crate::state::{ticks_to, State};
use crate::timer::{Timer, TimerState};
use vstd::prelude::*;

verus! {

/// What is known of the running program.
#[derive(Copy, Clone, PartialEq, Eq, Structural, Debug)]
pub struct AppRuntimeInfo {
    /// Frames drawn during the last full second.
    pub fps: usize,
}

/// A key, as far as the program tells keys apart.
#[derive(Copy, Clone, PartialEq, Eq, Structural, Debug)]
pub enum Key {
    Esc,
    Char(char),
    Other,
}

impl Key {
    /// The keys that end the program: escape and the letter q.
    pub open spec fn spec_is_quit(&self) -> bool {
        *self == Key::Esc || *self == Key::Char('q') || *self == Key::Char('Q')
    }

    /// Whether the key ends the program.
    #[verifier::when_used_as_spec(spec_is_quit)]
    pub fn is_quit(&self) -> (quit: bool)
        ensures
            quit == self.spec_is_quit(),
    {
        match *self {
            Key::Esc => true,
            Key::Char(c) => c == 'q' || c == 'Q',
            Key::Other => false,
        }
    }
}

/// What can happen to the program.
#[derive(Copy, Clone, PartialEq, Eq, Structural, Debug)]
pub enum Event {
    Init,
    Quit,
    Error,
    /// A frame is due.
    Render,
    /// A second has passed; the time of day is now the given one.
    Timer(Timer),
    Key(Key),
    /// The screen has the given number of columns and rows now.
    Resize(u16, u16),
}

/// The program's state between events.
pub struct App<T> {
    pub state: State<T>,
    pub should_quit: bool,
    /// Frames run since the last full second.
    pub frame_in_second: usize,
    pub runtime_info: AppRuntimeInfo,
}

/// One more, but never above what a `usize` holds.
pub open spec fn counted(frames: usize) -> usize {
    if frames == usize::MAX {
        frames
    } else {
        (frames + 1) as usize
    }
}

impl<T: EachFrameImpl> App<T> {
    /// A program that has just started on `state`.
    pub fn new(state: State<T>) -> (app: Self)
        ensures
            app.state == state,
            !app.should_quit,
            app.frame_in_second == 0,
            app.runtime_info == (AppRuntimeInfo { fps: 0 }),
    {
        App { state, should_quit: false, frame_in_second: 0, runtime_info: AppRuntimeInfo { fps: 0 } }
    }

    /// A key was pressed: escape and q end the program, other keys do
    /// nothing.
    pub fn handle_keyboard(&mut self, key: Key)
        ensures
            final(self).should_quit == (old(self).should_quit || key.is_quit()),
            final(self).state == old(self).state,
            final(self).frame_in_second == old(self).frame_in_second,
            final(self).runtime_info == old(self).runtime_info,
    {
        if key.is_quit() {
            self.should_quit = true;
        }
    }

    /// A frame is due: the simulation runs one frame and the frame is
    /// counted.
    pub fn on_render(&mut self)
        requires
            old(self).state.wf(),
        ensures
            final(self).state.wf(),
            exists|sr| ticks_to(old(self).state, final(self).state, final(self).state.seed, sr),
            final(self).frame_in_second == counted(old(self).frame_in_second),
            final(self).should_quit == old(self).should_quit,
            final(self).runtime_info == old(self).runtime_info,
    {
        let _ = self.state.tick();
        self.frame_in_second = self.frame_in_second.saturating_add(1);
    }

    /// A second has passed: the clock shows the new time, the frames counted
    /// become the rate, and counting starts again.
    pub fn on_timer(&mut self, timer: Timer)
        ensures
            final(self).state.timer == timer,
            final(self).state.rb == old(self).state.rb,
            final(self).state.timer_state == old(self).state.timer_state,
            final(self).state.weather == old(self).state.weather,
            final(self).state.frame == old(self).state.frame,
            final(self).state.seed == old(self).state.seed,
            final(self).runtime_info.fps == old(self).frame_in_second,
            final(self).frame_in_second == 0,
            final(self).should_quit == old(self).should_quit,
    {
        self.state.tick_timer(timer);
        self.runtime_info.fps = self.frame_in_second;
        self.frame_in_second = 0;
    }

    /// Takes one event and says whether the program goes on: it does until
    /// it is told to quit, meets an error, or a quit key is pressed. When it
    /// goes on, the screen is to be drawn anew.
    pub fn on_event(&mut self, event: Event) -> (go_on: bool)
        requires
            old(self).state.wf(),
        ensures
            final(self).state.wf(),
            go_on == !final(self).should_quit,
            final(self).should_quit == (old(self).should_quit || match event {
                Event::Quit | Event::Error => true,
                Event::Key(key) => key.is_quit(),
                _ => false,
            }),
            match event {
                Event::Render => {
                    &&& exists|sr|
                        ticks_to(old(self).state, final(self).state, final(self).state.seed, sr)
                    &&& final(self).frame_in_second == counted(old(self).frame_in_second)
                    &&& final(self).runtime_info == old(self).runtime_info
                },
                Event::Timer(timer) => {
                    &&& final(self).state.timer == timer
                    &&& final(self).state.rb == old(self).state.rb
                    &&& final(self).state.timer_state == old(self).state.timer_state
                    &&& final(self).state.weather == old(self).state.weather
                    &&& final(self).state.frame == old(self).state.frame
                    &&& final(self).state.seed == old(self).state.seed
                    &&& final(self).runtime_info.fps == old(self).frame_in_second
                    &&& final(self).frame_in_second == 0
                },
                Event::Resize(columns, rows) => {
                    &&& final(self).state.rb@ == blank(columns as nat, rows as nat)
                    &&& final(self).state.rb.spec_width() == columns
                    &&& final(self).state.rb.spec_height() == rows
                    &&& final(self).state.timer_state == TimerState::placed(
                        Rect { x: 0, y: 0, width: columns, height: rows },
                        old(self).state.timer_state.mode,
                        old(self).state.timer_state.colon,
                    )
                    &&& final(self).state.timer == old(self).state.timer
                    &&& final(self).state.weather == old(self).state.weather
                    &&& final(self).state.frame == old(self).state.frame
                    &&& final(self).state.seed == old(self).state.seed
                    &&& final(self).frame_in_second == old(self).frame_in_second
                    &&& final(self).runtime_info == old(self).runtime_info
                },
                _ => {
                    &&& final(self).state == old(self).state
                    &&& final(self).frame_in_second == old(self).frame_in_second
                    &&& final(self).runtime_info == old(self).runtime_info
                },
            },
    {
        match event {
            Event::Init => (),
            Event::Quit | Event::Error => self.should_quit = true,
            Event::Render => self.on_render(),
            Event::Key(key) => self.handle_keyboard(key),
            Event::Timer(timer) => self.on_timer(timer),
            Event::Resize(columns, rows) => self.state.on_resize(columns, rows),
        };
        !self.should_quit
    }
}

} // verus!
