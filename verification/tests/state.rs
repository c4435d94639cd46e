use rand::rngs::SmallRng;
use rand::{RngCore, SeedableRng};
use weather_tui::cell::CellType;
use weather_tui::config::Args;
use weather_tui::geometry::{Direction, Position, Rect};
use weather_tui::signal::{Mode, ShouldRender};
use weather_tui::state::State;
use weather_tui::timer::{ColonState, Timer, TimerMode, TimerRenderMode};
use weather_tui::weather::Weather;
use weather_tui::wind::WindMode;

fn screen(width: u16, height: u16) -> Rect {
    Rect { x: 0, y: 0, width, height }
}

fn args(mode: Mode, level: Option<u16>) -> Args {
    let mut a = Args::default();
    a.mode = mode;
    a.level = level;
    a.wind = WindMode::Disable;
    a
}

fn state(size: Rect, a: Args) -> State<Weather> {
    let weather = Weather::from(a).unwrap();
    State::new(size, weather, a, Timer::new(1, 2, 3), SmallRng::seed_from_u64(42))
}

fn snapshot(s: &State<Weather>) -> Vec<Vec<Vec<CellType>>> {
    (0..s.rb.width())
        .map(|x| (0..s.rb.height()).map(|y| s.rb.cell(x, y).to_vec()).collect())
        .collect()
}

#[test]
fn new_state_is_blank_at_frame_zero() {
    let s = state(screen(100, 50), args(Mode::Rain, None));
    assert_eq!(s.rb.width(), 100);
    assert_eq!(s.rb.height(), 50);
    assert_eq!(s.frame, 0);
    assert_eq!(s.seed, 0);
    assert_eq!(s.timer, Timer { hours: 1, minutes: 2, seconds: 3 });
    assert_eq!(s.timer_state.pos, Position(30, 22));
    assert_eq!(s.timer_state.boundary, screen(100, 50));
    assert_eq!(s.timer_state.mode, None);
    assert_eq!(s.timer_state.colon, ColonState { show: true, blink: false });
    for x in 0..100 {
        for y in 0..50 {
            assert!(s.rb.cell(x, y).is_empty());
        }
    }
}

#[test]
fn new_state_takes_clock_settings_from_the_args() {
    let mut a = args(Mode::Disable, None);
    a.timer_mode = Some(TimerMode::Dvd);
    a.blink_colon = true;
    let s = state(screen(100, 50), a);
    assert_eq!(s.timer_state.mode, Some(TimerRenderMode::Dvd(Direction::LeftTop)));
    assert_eq!(s.timer_state.colon, ColonState { show: true, blink: true });
}

#[test]
fn tick_with_counts_frames_from_one() {
    let mut s = state(screen(3, 3), args(Mode::Rain, Some(4)));
    for n in 1..=20u64 {
        s.tick_with(n * 17);
        assert_eq!(s.frame, n);
        assert_eq!(s.seed, n * 17);
    }
}

#[test]
fn frame_counter_wraps_to_one_never_to_zero() {
    let mut s = state(screen(3, 3), args(Mode::Rain, Some(4)));
    s.frame = u64::MAX - 1;
    s.tick_with(0);
    assert_eq!(s.frame, u64::MAX);
    s.tick_with(0);
    assert_eq!(s.frame, 1);
    s.tick_with(0);
    assert_eq!(s.frame, 2);
}

#[test]
fn tick_with_runs_the_weather_on_the_new_frame_number() {
    let mut s = state(screen(1, 3), args(Mode::Rain, Some(4)));
    s.rb.insert_at(0, 0, CellType::Normal(0));
    // The first frame is number one: a normal raindrop waits.
    assert_eq!(s.tick_with(0), ShouldRender::Render);
    assert_eq!(snapshot(&s), vec![vec![vec![CellType::Normal(0)], vec![], vec![]]]);
    // The second is number two: it falls.
    assert_eq!(s.tick_with(0), ShouldRender::Render);
    assert_eq!(snapshot(&s), vec![vec![vec![], vec![CellType::Normal(0)], vec![]]]);
}

#[test]
fn tick_with_spawns_from_the_given_value() {
    let mut s = state(screen(4, 2), args(Mode::Rain, Some(4)));
    s.tick_with(0b1111);
    assert_eq!(
        snapshot(&s),
        vec![
            vec![vec![], vec![]],
            vec![vec![CellType::Slow], vec![]],
            vec![vec![CellType::Fast], vec![]],
            vec![vec![CellType::Normal(0)], vec![]],
        ]
    );
}

#[test]
fn signal_is_the_weathers_or_the_clocks() {
    let mut a = args(Mode::Disable, None);
    let mut s = state(screen(100, 50), a);
    for _ in 0..30 {
        assert_eq!(s.tick_with(5), ShouldRender::Skip);
    }
    a.timer_mode = Some(TimerMode::Dvd);
    let mut s = state(screen(100, 50), a);
    for n in 1..=30u64 {
        let expected = if n % 8 == 0 { ShouldRender::Render } else { ShouldRender::Skip };
        assert_eq!(s.tick_with(5), expected);
    }
    assert_eq!(s.timer_state.pos, Position(27, 19));
}

#[test]
fn tick_draws_its_value_from_the_generator() {
    let mut s = state(screen(8, 4), args(Mode::Rain, Some(4)));
    let mut twin = SmallRng::seed_from_u64(42);
    let mut other = state(screen(8, 4), args(Mode::Rain, Some(4)));
    for n in 1..=50u64 {
        s.tick();
        let seed = twin.next_u64();
        assert_eq!(s.seed, seed);
        assert_eq!(s.frame, n);
        other.tick_with(seed);
        assert_eq!(snapshot(&s), snapshot(&other));
    }
}

#[test]
fn tick_timer_shows_the_new_time() {
    let mut s = state(screen(10, 10), args(Mode::Rain, None));
    s.tick_with(1);
    let grid = snapshot(&s);
    s.tick_timer(Timer::new(12, 34, 56));
    assert_eq!(s.timer, Timer { hours: 12, minutes: 34, seconds: 56 });
    assert_eq!(s.frame, 1);
    assert_eq!(snapshot(&s), grid);
}

#[test]
fn resize_replaces_the_grid_and_recentres_the_clock() {
    let mut a = args(Mode::Rain, Some(1));
    a.timer_mode = Some(TimerMode::Dvd);
    a.blink_colon = true;
    let mut s = state(screen(100, 50), a);
    for _ in 0..24 {
        s.tick_with(u64::MAX);
    }
    assert_eq!(s.timer_state.colon.show, false);
    assert!(!s.rb.cell(0, 0).is_empty());
    s.on_resize(60, 20);
    assert_eq!(s.rb.width(), 60);
    assert_eq!(s.rb.height(), 20);
    for x in 0..60 {
        assert_eq!(s.rb.slot(x), x);
        for y in 0..20 {
            assert!(s.rb.cell(x, y).is_empty());
        }
    }
    assert_eq!(s.timer_state.boundary, screen(60, 20));
    assert_eq!(s.timer_state.pos, Position(10, 7));
    assert_eq!(s.timer_state.area, Rect { x: 10, y: 7, width: 39, height: 5 });
    assert_eq!(s.timer_state.mode, Some(TimerRenderMode::Dvd(Direction::LeftTop)));
    assert_eq!(s.timer_state.colon, ColonState { show: false, blink: true });
    assert_eq!(s.frame, 24);
}

#[test]
fn resize_to_nothing_is_accepted() {
    let mut s = state(screen(10, 10), args(Mode::Meteor, Some(4)));
    s.on_resize(0, 0);
    for _ in 0..10 {
        s.tick_with(u64::MAX);
    }
    assert_eq!(s.rb.width(), 0);
    assert_eq!(s.rb.height(), 0);
    s.on_resize(3, 0);
    s.tick_with(u64::MAX);
    assert_eq!(s.rb.width(), 3);
    s.on_resize(0, 3);
    s.tick_with(u64::MAX);
    assert_eq!(s.rb.height(), 3);
}

#[test]
fn long_run_keeps_every_cell_free_of_duplicates() {
    for mode in [Mode::Rain, Mode::Snow, Mode::Meteor, Mode::Star] {
        let mut a = args(mode, Some(2));
        a.wind = WindMode::OnlyRight;
        let weather = Weather::from(a).unwrap();
        let mut s = State::new(
            screen(70, 9),
            weather,
            a,
            Timer::new(0, 0, 0),
            SmallRng::seed_from_u64(7),
        );
        for _ in 0..300 {
            s.tick();
            for x in 0..70 {
                for y in 0..9 {
                    let held = s.rb.cell(x, y).to_vec();
                    assert!(held.len() <= 3);
                    for i in 0..held.len() {
                        assert_ne!(held[i], CellType::Empty);
                        for j in (i + 1)..held.len() {
                            assert!(!held[i].is_same_kind(held[j]));
                        }
                    }
                }
            }
        }
    }
}
