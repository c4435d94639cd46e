use weather_tui::buffer::RenderBuffer;
use weather_tui::cell::CellType;
use weather_tui::geometry::Rect;
use weather_tui::pass::EachFrameImpl;
use weather_tui::signal::ShouldRender;
use weather_tui::wind::{WindDirection, WindMode, WindState, WIND_DURATION};

fn grid(width: u16, height: u16) -> RenderBuffer {
    RenderBuffer::new(Rect { x: 0, y: 0, width, height })
}

fn slots(rb: &RenderBuffer) -> Vec<usize> {
    (0..rb.width()).map(|x| rb.slot(x)).collect()
}

#[test]
fn wind_mode_is_read_from_its_words() {
    assert_eq!(WindMode::from_str("random"), Ok(WindMode::Random));
    assert_eq!(WindMode::from_str("disable"), Ok(WindMode::Disable));
    assert_eq!(WindMode::from_str("right"), Ok(WindMode::OnlyRight));
    assert_eq!(WindMode::from_str("only-right"), Ok(WindMode::OnlyRight));
    assert_eq!(WindMode::from_str("left"), Ok(WindMode::OnlyLeft));
    assert_eq!(WindMode::from_str("only-left"), Ok(WindMode::OnlyLeft));
}

#[test]
fn unknown_wind_words_are_rejected() {
    let msg = "Invalid parameter, only accept random, disable, only-right, only-left, right or left.";
    for word in ["", "Random", "lef", "leftt", "only_left", " right", "none", "rändom"] {
        assert_eq!(WindMode::from_str(word), Err(msg));
    }
}

#[test]
fn without_random_turns_random_off_only() {
    assert_eq!(WindMode::Random.without_random(), WindMode::Disable);
    assert_eq!(WindMode::Disable.without_random(), WindMode::Disable);
    assert_eq!(WindMode::OnlyLeft.without_random(), WindMode::OnlyLeft);
    assert_eq!(WindMode::OnlyRight.without_random(), WindMode::OnlyRight);
}

#[test]
fn defaults_are_random_and_calm() {
    assert_eq!(WindMode::default(), WindMode::Random);
    assert_eq!(WindDirection::default(), WindDirection::Calm);
}

#[test]
fn new_state_starts_with_the_forced_direction() {
    let s = WindState::new(WindMode::OnlyLeft);
    assert_eq!((s.mode, s.direction, s.frame), (WindMode::OnlyLeft, WindDirection::Left, 0));
    let s = WindState::new(WindMode::OnlyRight);
    assert_eq!((s.mode, s.direction, s.frame), (WindMode::OnlyRight, WindDirection::Right, 0));
    let s = WindState::new(WindMode::Random);
    assert_eq!((s.mode, s.direction, s.frame), (WindMode::Random, WindDirection::Calm, 0));
    let s = WindState::new(WindMode::Disable);
    assert_eq!((s.mode, s.direction, s.frame), (WindMode::Disable, WindDirection::Calm, 0));
    assert_eq!(WindState::direction_from_mode(WindMode::Random), WindDirection::Calm);
}

#[test]
fn roll_prefers_left_over_right() {
    assert_eq!(WindState::roll(0), WindDirection::Left);
    assert_eq!(WindState::roll(2024), WindDirection::Left);
    assert_eq!(WindState::roll(4048), WindDirection::Left);
    assert_eq!(WindState::roll(123), WindDirection::Right);
    assert_eq!(WindState::roll(246), WindDirection::Right);
    assert_eq!(WindState::roll(2024 * 123), WindDirection::Left);
    assert_eq!(WindState::roll(1), WindDirection::Calm);
    assert_eq!(WindState::roll(2023), WindDirection::Calm);
    assert_eq!(WindState::roll(u64::MAX), WindDirection::Calm);
}

#[test]
fn forced_left_rotates_left_every_frame() {
    let mut rb = grid(4, 2);
    rb.insert_at(0, 0, CellType::Fast);
    let mut w = WindState::new(WindMode::OnlyLeft);
    for frame in 1..=9u64 {
        assert_eq!(w.on_frame(&mut rb, 1, frame), ShouldRender::Render);
        assert_eq!((w.mode, w.direction, w.frame), (WindMode::OnlyLeft, WindDirection::Left, 0));
        let at = (4 * 3 - frame as usize) % 4;
        for x in 0..4 {
            assert_eq!(rb.slot(x), (x + frame as usize) % 4);
            assert_eq!(rb.cell(x, 0).contains(CellType::Fast), x == at);
        }
    }
}

#[test]
fn forced_right_rotates_right_every_frame() {
    let mut rb = grid(3, 1);
    rb.insert_at(0, 0, CellType::Slow);
    let mut w = WindState::new(WindMode::OnlyRight);
    assert_eq!(w.on_frame(&mut rb, 2024, 1), ShouldRender::Render);
    assert_eq!(slots(&rb), vec![2, 0, 1]);
    assert_eq!(rb.cell(1, 0).to_vec(), vec![CellType::Slow]);
    assert_eq!(w.on_frame(&mut rb, 2024, 2), ShouldRender::Render);
    assert_eq!(slots(&rb), vec![1, 2, 0]);
    assert_eq!(rb.cell(2, 0).to_vec(), vec![CellType::Slow]);
    assert_eq!(w.direction, WindDirection::Right);
}

#[test]
fn forced_direction_overrides_a_stale_one() {
    let mut rb = grid(3, 1);
    let mut w = WindState { mode: WindMode::OnlyLeft, direction: WindDirection::Right, frame: 17 };
    assert_eq!(w.on_frame(&mut rb, 123, 1), ShouldRender::Render);
    assert_eq!((w.direction, w.frame), (WindDirection::Left, 17));
    assert_eq!(slots(&rb), vec![1, 2, 0]);
}

#[test]
fn disabled_wind_is_calm_and_skips() {
    let mut rb = grid(3, 1);
    let mut w = WindState { mode: WindMode::Disable, direction: WindDirection::Left, frame: 9 };
    for seed in [0u64, 123, 2024, 5] {
        assert_eq!(w.on_frame(&mut rb, seed, 1), ShouldRender::Skip);
        assert_eq!((w.direction, w.frame), (WindDirection::Calm, 9));
        assert_eq!(slots(&rb), vec![0, 1, 2]);
    }
}

#[test]
fn random_wind_stays_calm_until_a_direction_is_rolled() {
    let mut rb = grid(3, 1);
    let mut w = WindState::new(WindMode::Random);
    for frame in 1..=5u64 {
        assert_eq!(w.on_frame(&mut rb, 7, frame), ShouldRender::Skip);
        assert_eq!((w.direction, w.frame), (WindDirection::Calm, 0));
        assert_eq!(slots(&rb), vec![0, 1, 2]);
    }
    assert_eq!(w.on_frame(&mut rb, 123, 6), ShouldRender::Render);
    assert_eq!((w.direction, w.frame), (WindDirection::Right, WIND_DURATION));
    assert_eq!(slots(&rb), vec![2, 0, 1]);
}

#[test]
fn rolled_direction_lasts_255_frames() {
    let mut rb = grid(5, 1);
    let mut w = WindState::new(WindMode::Random);
    assert_eq!(w.on_frame(&mut rb, 2024, 1), ShouldRender::Render);
    assert_eq!((w.direction, w.frame), (WindDirection::Left, 255));
    // From here on the random value rolls nothing.
    for k in 1..=254usize {
        assert_eq!(w.on_frame(&mut rb, 1, 1 + k as u64), ShouldRender::Render);
        assert_eq!((w.direction, w.frame), (WindDirection::Left, 255 - k));
    }
    assert_eq!(w.on_frame(&mut rb, 1, 256), ShouldRender::Skip);
    assert_eq!((w.direction, w.frame), (WindDirection::Calm, 0));
    // 255 rotations to the left on five columns come back to the start.
    assert_eq!(slots(&rb), vec![0, 1, 2, 3, 4]);
}

#[test]
fn a_new_roll_at_the_end_starts_a_fresh_count() {
    let mut rb = grid(2, 1);
    let mut w = WindState { mode: WindMode::Random, direction: WindDirection::Left, frame: 1 };
    assert_eq!(w.on_frame(&mut rb, 123, 1), ShouldRender::Render);
    assert_eq!((w.direction, w.frame), (WindDirection::Right, 255));
    assert_eq!(slots(&rb), vec![1, 0]);
}

#[test]
fn the_frame_counter_plays_no_part() {
    for frame in [0u64, 1, 2, u64::MAX] {
        let mut rb = grid(3, 1);
        let mut w = WindState::new(WindMode::Random);
        assert_eq!(w.on_frame(&mut rb, 2024, frame), ShouldRender::Render);
        assert_eq!(slots(&rb), vec![1, 2, 0]);
    }
}

#[test]
fn single_column_grid_never_swaps_in_1000_ticks() {
    for mode in [WindMode::Random, WindMode::Disable, WindMode::OnlyLeft, WindMode::OnlyRight] {
        let mut rb = grid(1, 4);
        rb.insert_at(0, 2, CellType::Fast);
        let mut w = WindState::new(mode);
        let start = (w.mode, w.direction, w.frame);
        for tick in 1..=1000u64 {
            let seed = tick.wrapping_mul(2024 * 123);
            assert_eq!(w.on_frame(&mut rb, seed, tick), ShouldRender::Skip);
            assert_eq!((w.mode, w.direction, w.frame), start);
            assert_eq!(rb.slot(0), 0);
            assert_eq!(rb.cell(0, 2).to_vec(), vec![CellType::Fast]);
        }
    }
}

#[test]
fn empty_grid_is_left_alone() {
    let mut rb = grid(0, 4);
    let mut w = WindState::new(WindMode::OnlyRight);
    assert_eq!(w.on_frame(&mut rb, 0, 1), ShouldRender::Skip);
    assert_eq!(rb.width(), 0);
}

#[test]
fn rotation_keeps_the_columns_and_only_relabels_them() {
    let mut rb = grid(4, 2);
    rb.insert_at(0, 0, CellType::Fast);
    rb.insert_at(1, 1, CellType::Slow);
    rb.insert_at(3, 0, CellType::Normal(1));
    let by_slot = |rb: &RenderBuffer| -> Vec<(usize, Vec<Vec<CellType>>)> {
        let mut v: Vec<(usize, Vec<Vec<CellType>>)> = (0..rb.width())
            .map(|x| (rb.slot(x), (0..rb.height()).map(|y| rb.cell(x, y).to_vec()).collect()))
            .collect();
        v.sort_by_key(|entry| entry.0);
        v
    };
    let before = by_slot(&rb);
    let mut w = WindState::new(WindMode::OnlyRight);
    for frame in 1..=7u64 {
        w.on_frame(&mut rb, 0, frame);
        assert_eq!(by_slot(&rb), before);
    }
}
