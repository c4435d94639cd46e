use weather_tui::buffer::RenderBuffer;
use weather_tui::cell::{Cell, CellType};
use weather_tui::geometry::Rect;

fn grid(width: u16, height: u16) -> RenderBuffer {
    RenderBuffer::new(Rect { x: 0, y: 0, width, height })
}

fn snapshot(rb: &RenderBuffer) -> Vec<Vec<Vec<CellType>>> {
    let mut out = vec![];
    for x in 0..rb.width() {
        let mut col = vec![];
        for y in 0..rb.height() {
            col.push(rb.cell(x, y).to_vec());
        }
        out.push(col);
    }
    out
}

#[test]
fn new_buffer_has_the_size_and_is_blank() {
    let rb = RenderBuffer::new(Rect { x: 7, y: 9, width: 4, height: 3 });
    assert_eq!(rb.width(), 4);
    assert_eq!(rb.height(), 3);
    for x in 0..4 {
        assert_eq!(rb.slot(x), x);
        for y in 0..3 {
            assert!(rb.cell(x, y).is_empty());
        }
    }
}

#[test]
fn new_buffer_of_no_size_is_accepted() {
    let rb = grid(0, 0);
    assert_eq!(rb.width(), 0);
    assert_eq!(rb.height(), 0);
    let rb = grid(0, 5);
    assert_eq!(rb.width(), 0);
    assert_eq!(rb.height(), 5);
    let rb = grid(5, 0);
    assert_eq!(rb.width(), 5);
    assert_eq!(rb.height(), 0);
}

#[test]
fn insert_at_changes_one_cell_only() {
    let mut rb = grid(3, 2);
    rb.insert_at(1, 1, CellType::Fast);
    rb.insert_at(1, 1, CellType::Fast);
    rb.insert_at(1, 1, CellType::Slow);
    assert_eq!(
        snapshot(&rb),
        vec![
            vec![vec![], vec![]],
            vec![vec![], vec![CellType::Fast, CellType::Slow]],
            vec![vec![], vec![]],
        ]
    );
}

#[test]
fn remove_at_and_clear_at_change_one_cell_only() {
    let mut rb = grid(2, 2);
    rb.insert_at(0, 0, CellType::Fast);
    rb.insert_at(0, 0, CellType::Slow);
    rb.insert_at(1, 0, CellType::Fast);
    rb.insert_at(1, 1, CellType::Normal(0));
    rb.remove_at(0, 0, CellType::Fast);
    assert_eq!(
        snapshot(&rb),
        vec![
            vec![vec![CellType::Slow], vec![]],
            vec![vec![CellType::Fast], vec![CellType::Normal(0)]],
        ]
    );
    rb.clear_at(1, 0);
    assert_eq!(
        snapshot(&rb),
        vec![
            vec![vec![CellType::Slow], vec![]],
            vec![vec![], vec![CellType::Normal(0)]],
        ]
    );
}

#[test]
fn set_cell_replaces_the_cell() {
    let mut rb = grid(2, 1);
    rb.insert_at(1, 0, CellType::Fast);
    let mut cell = Cell::new();
    cell.insert(CellType::Slow);
    cell.insert(CellType::Tail(1));
    rb.set_cell(1, 0, cell);
    assert_eq!(
        snapshot(&rb),
        vec![vec![vec![]], vec![vec![CellType::Slow, CellType::Tail(1)]]]
    );
}

#[test]
fn rotate_right_moves_every_column_one_to_the_right() {
    let mut rb = grid(4, 1);
    rb.insert_at(0, 0, CellType::Fast);
    rb.insert_at(3, 0, CellType::Slow);
    rb.rotate_right();
    assert_eq!(
        snapshot(&rb),
        vec![
            vec![vec![CellType::Slow]],
            vec![vec![CellType::Fast]],
            vec![vec![]],
            vec![vec![]],
        ]
    );
    assert_eq!(
        (0..4).map(|x| rb.slot(x)).collect::<Vec<usize>>(),
        vec![3, 0, 1, 2]
    );
}

#[test]
fn rotate_left_moves_every_column_one_to_the_left() {
    let mut rb = grid(4, 1);
    rb.insert_at(0, 0, CellType::Fast);
    rb.insert_at(3, 0, CellType::Slow);
    rb.rotate_left();
    assert_eq!(
        snapshot(&rb),
        vec![
            vec![vec![]],
            vec![vec![]],
            vec![vec![CellType::Slow]],
            vec![vec![CellType::Fast]],
        ]
    );
    assert_eq!(
        (0..4).map(|x| rb.slot(x)).collect::<Vec<usize>>(),
        vec![1, 2, 3, 0]
    );
}

#[test]
fn rotation_keeps_every_slot_exactly_once() {
    let mut rb = grid(5, 2);
    for step in 0..13 {
        if step % 3 == 0 {
            rb.rotate_left();
        } else {
            rb.rotate_right();
        }
        let mut slots: Vec<usize> = (0..5).map(|x| rb.slot(x)).collect();
        slots.sort();
        assert_eq!(slots, vec![0, 1, 2, 3, 4]);
    }
}

#[test]
fn left_then_right_restores_the_order() {
    let mut rb = grid(3, 1);
    rb.insert_at(1, 0, CellType::Fast);
    rb.rotate_left();
    rb.rotate_right();
    assert_eq!(snapshot(&rb), vec![vec![vec![]], vec![vec![CellType::Fast]], vec![vec![]]]);
    assert_eq!((0..3).map(|x| rb.slot(x)).collect::<Vec<usize>>(), vec![0, 1, 2]);
}

#[test]
fn writes_after_rotation_land_at_the_position_given() {
    let mut rb = grid(3, 1);
    rb.rotate_right();
    rb.insert_at(0, 0, CellType::Fast);
    assert_eq!(rb.cell(0, 0).to_vec(), vec![CellType::Fast]);
    assert!(rb.cell(1, 0).is_empty());
    assert!(rb.cell(2, 0).is_empty());
    rb.rotate_left();
    assert_eq!(rb.cell(2, 0).to_vec(), vec![CellType::Fast]);
    assert!(rb.cell(0, 0).is_empty());
}

#[test]
fn rotation_of_empty_and_single_column_grids_is_harmless() {
    let mut rb = grid(0, 3);
    rb.rotate_left();
    rb.rotate_right();
    assert_eq!(rb.width(), 0);
    let mut rb = grid(1, 1);
    rb.insert_at(0, 0, CellType::Slow);
    rb.rotate_left();
    rb.rotate_right();
    assert_eq!(rb.slot(0), 0);
    assert_eq!(rb.cell(0, 0).to_vec(), vec![CellType::Slow]);
}
