use rand::rngs::SmallRng;
use rand::{RngCore, SeedableRng};
use weather_tui::app::{App, AppRuntimeInfo, Event, Key};
use weather_tui::cell::CellType;
use weather_tui::config::Args;
use weather_tui::geometry::Rect;
use weather_tui::signal::Mode;
use weather_tui::state::State;
use weather_tui::timer::Timer;
use weather_tui::weather::Weather;
use weather_tui::wind::WindMode;

fn app(mode: Mode) -> App<Weather> {
    let mut a = Args::default();
    a.mode = mode;
    a.level = Some(4);
    a.wind = WindMode::Disable;
    let weather = Weather::from(a).unwrap();
    let size = Rect { x: 0, y: 0, width: 6, height: 4 };
    App::new(State::new(
        size,
        weather,
        a,
        Timer::new(9, 8, 7),
        SmallRng::seed_from_u64(1),
    ))
}

fn snapshot(a: &App<Weather>) -> Vec<Vec<Vec<CellType>>> {
    (0..a.state.rb.width())
        .map(|x| (0..a.state.rb.height()).map(|y| a.state.rb.cell(x, y).to_vec()).collect())
        .collect()
}

#[test]
fn quit_keys_are_escape_and_q() {
    assert!(Key::Esc.is_quit());
    assert!(Key::Char('q').is_quit());
    assert!(Key::Char('Q').is_quit());
    assert!(!Key::Char('a').is_quit());
    assert!(!Key::Char('w').is_quit());
    assert!(!Key::Other.is_quit());
}

#[test]
fn new_app_runs_and_has_counted_nothing() {
    let a = app(Mode::Rain);
    assert!(!a.should_quit);
    assert_eq!(a.frame_in_second, 0);
    assert_eq!(a.runtime_info, AppRuntimeInfo { fps: 0 });
    assert_eq!(a.state.frame, 0);
}

#[test]
fn init_changes_nothing() {
    let mut a = app(Mode::Rain);
    assert!(a.on_event(Event::Init));
    assert!(!a.should_quit);
    assert_eq!(a.state.frame, 0);
    assert_eq!(a.frame_in_second, 0);
}

#[test]
fn quit_and_error_end_the_program() {
    for event in [Event::Quit, Event::Error] {
        let mut a = app(Mode::Rain);
        assert!(!a.on_event(event));
        assert!(a.should_quit);
        assert_eq!(a.state.frame, 0);
    }
}

#[test]
fn quit_keys_end_the_program_and_others_do_not() {
    for key in [Key::Esc, Key::Char('q'), Key::Char('Q')] {
        let mut a = app(Mode::Rain);
        assert!(!a.on_event(Event::Key(key)));
        assert!(a.should_quit);
    }
    for key in [Key::Char('x'), Key::Char(' '), Key::Other] {
        let mut a = app(Mode::Rain);
        assert!(a.on_event(Event::Key(key)));
        assert!(!a.should_quit);
        a.handle_keyboard(key);
        assert!(!a.should_quit);
    }
}

#[test]
fn once_told_to_quit_the_program_stays_so() {
    let mut a = app(Mode::Rain);
    a.on_event(Event::Quit);
    assert!(!a.on_event(Event::Init));
    assert!(!a.on_event(Event::Key(Key::Other)));
    assert!(!a.on_event(Event::Render));
    assert!(a.should_quit);
}

#[test]
fn render_runs_a_frame_and_counts_it() {
    let mut a = app(Mode::Rain);
    let mut twin = SmallRng::seed_from_u64(1);
    let mut other = app(Mode::Rain);
    for n in 1..=30u64 {
        assert!(a.on_event(Event::Render));
        let seed = twin.next_u64();
        assert_eq!(a.state.frame, n);
        assert_eq!(a.state.seed, seed);
        assert_eq!(a.frame_in_second, n as usize);
        assert_eq!(a.runtime_info, AppRuntimeInfo { fps: 0 });
        other.state.tick_with(seed);
        assert_eq!(snapshot(&a), snapshot(&other));
    }
}

#[test]
fn frame_count_stops_at_the_largest_value() {
    let mut a = app(Mode::Disable);
    a.frame_in_second = usize::MAX - 1;
    a.on_render();
    assert_eq!(a.frame_in_second, usize::MAX);
    a.on_render();
    assert_eq!(a.frame_in_second, usize::MAX);
}

#[test]
fn timer_turns_the_count_into_the_rate() {
    let mut a = app(Mode::Rain);
    for _ in 0..42 {
        a.on_event(Event::Render);
    }
    let grid = snapshot(&a);
    assert!(a.on_event(Event::Timer(Timer::new(10, 11, 12))));
    assert_eq!(a.runtime_info, AppRuntimeInfo { fps: 42 });
    assert_eq!(a.frame_in_second, 0);
    assert_eq!(a.state.timer, Timer { hours: 10, minutes: 11, seconds: 12 });
    assert_eq!(a.state.frame, 42);
    assert_eq!(snapshot(&a), grid);
    a.on_timer(Timer::new(10, 11, 13));
    assert_eq!(a.runtime_info, AppRuntimeInfo { fps: 0 });
    assert_eq!(a.state.timer.seconds, 13);
}

#[test]
fn resize_replaces_the_grid() {
    let mut a = app(Mode::Rain);
    for _ in 0..10 {
        a.on_event(Event::Render);
    }
    assert!(a.on_event(Event::Resize(3, 2)));
    assert_eq!(a.state.rb.width(), 3);
    assert_eq!(a.state.rb.height(), 2);
    assert_eq!(snapshot(&a), vec![vec![vec![], vec![]]; 3]);
    assert_eq!(a.frame_in_second, 10);
    assert_eq!(a.state.frame, 10);
}
