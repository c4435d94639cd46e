//! Tails: a short streak drawn behind a falling head, one row up and one
//! column against the drift.

use crate::buffer::{Column, Grid, RenderBuffer};
use crate::cell::{
    inserted, lemma_removed_well_formed, other_kind, removed, well_formed, Cell, CellType,
};
use crate::pass::EachFrameImpl;
use crate::signal::ShouldRender;
use crate::wind::WindMode;
use vstd::prelude::*;

verus! {

/// The longest tail a marker may stand for. A head whose tail has reached
/// this length gets no further marker.
pub const TAIL_CAP: u8 = 2;

/// Which way the streak leans.
#[derive(Copy, Clone, Eq, PartialEq, Structural, Debug)]
pub enum TailMode {
    Left,
    Right,
    Default,
}

impl Default for TailMode {
    fn default() -> (mode: TailMode)
        ensures
            mode == TailMode::Default,
    {
        TailMode::Default
    }
}

impl vstd::std_specs::convert::FromSpecImpl<WindMode> for TailMode {
    open spec fn obeys_from_spec() -> bool {
        true
    }

    open spec fn from_spec(value: WindMode) -> TailMode {
        match value {
            WindMode::Random | WindMode::Disable => TailMode::Default,
            WindMode::OnlyRight => TailMode::Right,
            WindMode::OnlyLeft => TailMode::Left,
        }
    }
}

impl From<WindMode> for TailMode {
    /// The tail leans the way a forced wind blows, and stands upright
    /// otherwise.
    fn from(value: WindMode) -> (mode: TailMode) {
        match value {
            WindMode::Random | WindMode::Disable => TailMode::Default,
            WindMode::OnlyRight => TailMode::Right,
            WindMode::OnlyLeft => TailMode::Left,
        }
    }
}

/// A head that may still grow a tail: a falling kind whose tail is shorter
/// than the cap.
pub open spec fn qualifies(kind: CellType) -> bool {
    kind.is_dropping_cell() && kind.tail_len() < TAIL_CAP
}

/// The tail length of the first qualifying head at or after index `i`.
pub open spec fn head_from(cell: Seq<CellType>, i: int) -> Option<u8>
    decreases cell.len() - i,
{
    if i < 0 || i >= cell.len() {
        None
    } else if qualifies(cell[i]) {
        Some(cell[i].tail_len())
    } else {
        head_from(cell, i + 1)
    }
}

/// The marker that a cell's first qualifying head calls for: a tail one
/// longer than the head's own; `Empty` when no head qualifies.
pub open spec fn tail_for(cell: Seq<CellType>) -> CellType {
    match head_from(cell, 0) {
        Some(len) => CellType::Tail((len + 1) as u8),
        None => CellType::Empty,
    }
}

/// The column whose second row decides the marker of column `x`: the next
/// one in drift direction, or `x` itself for an upright tail.
pub open spec fn neighbour(mode: TailMode, x: int) -> int {
    match mode {
        TailMode::Left => x - 1,
        TailMode::Right => x + 1,
        TailMode::Default => x,
    }
}

/// The marker that column `x` receives in its top row; `Empty` when the
/// neighbour is off the grid, has no second row, or holds no qualifying head
/// there.
pub open spec fn tail_mark(grid: Grid, mode: TailMode, x: int) -> CellType {
    let n = neighbour(mode, x);
    if 0 <= n < grid.len() && grid[n].len() > 1 {
        tail_for(grid[n][1])
    } else {
        CellType::Empty
    }
}

/// A cell without its tail marker.
pub open spec fn stripped(cell: Seq<CellType>) -> Seq<CellType> {
    removed(cell, CellType::Tail(0))
}

/// A column without any tail marker.
pub open spec fn stripped_column(col: Column) -> Column {
    Seq::new(col.len(), |y: int| stripped(col[y]))
}

/// Whether column `x` has had its turn after `done` steps. The columns are
/// taken from left to right, and from right to left when the tails lean
/// left.
pub open spec fn had_turn(mode: TailMode, width: int, done: int, x: int) -> bool {
    if mode is Left {
        width - done <= x
    } else {
        x < done
    }
}

/// A grid with its old markers stripped and the line `marks` merged into the
/// top row, `marks[x]` into column `x`.
pub open spec fn redrawn(grid: Grid, marks: Seq<CellType>) -> Grid {
    Seq::new(
        grid.len(),
        |x: int|
            Seq::new(
                grid[x].len(),
                |y: int|
                    if y == 0 {
                        inserted(stripped(grid[x][0]), marks[x])
                    } else {
                        stripped(grid[x][y])
                    },
            ),
    )
}

/// The markers for every column of a grid.
pub open spec fn tail_marks(grid: Grid, mode: TailMode) -> Seq<CellType> {
    Seq::new(grid.len(), |x: int| tail_mark(grid, mode, x))
}

/// A grid after one run of the tail pass: every old marker is gone, and the
/// top row holds the fresh ones.
pub open spec fn tailed(grid: Grid, mode: TailMode) -> Grid {
    redrawn(grid, tail_marks(grid, mode))
}

/// Looking for a head from index `i + d` on is looking from `i` on in what
/// is left without the first `d` kinds.
pub proof fn lemma_head_from_skip(cell: Seq<CellType>, i: int, d: int)
    requires
        0 <= i,
        0 <= d <= cell.len(),
    ensures
        head_from(cell, i + d) == head_from(cell.skip(d), i),
    decreases cell.len() - (i + d),
{
    if i + d < cell.len() && !qualifies(cell[i + d]) {
        lemma_head_from_skip(cell, i + 1, d);
    }
}

/// Stripping the marker does not change which head a cell shows, so it does
/// not change the marker the cell calls for.
pub proof fn lemma_strip_keeps_head(cell: Seq<CellType>)
    ensures
        tail_for(stripped(cell)) == tail_for(cell),
    decreases cell.len(),
{
    let keep = other_kind(CellType::Tail(0));
    reveal_with_fuel(Seq::filter, 2);
    if cell.len() > 0 {
        let first = cell[0];
        let rest = cell.skip(1);
        lemma_strip_keeps_head(rest);
        assert(cell =~= seq![first] + rest);
        Seq::filter_distributes_over_add(seq![first], rest, keep);
        assert(seq![first].drop_last() =~= Seq::<CellType>::empty());
        lemma_head_from_skip(cell, 0, 1);
        if keep(first) {
            assert(seq![first].filter(keep) =~= seq![first]);
            let bare = seq![first] + rest.filter(keep);
            assert(bare[0] == first);
            assert(bare.skip(1) =~= rest.filter(keep));
            lemma_head_from_skip(bare, 0, 1);
        } else {
            assert(seq![first].filter(keep) =~= Seq::<CellType>::empty());
            assert(Seq::<CellType>::empty() + rest.filter(keep) =~= rest.filter(keep));
        }
    }
}

/// A head that is found has a tail below the cap.
pub proof fn lemma_head_below_cap(cell: Seq<CellType>, i: int)
    ensures
        head_from(cell, i) matches Some(len) ==> len < TAIL_CAP && exists|j: int|
            i <= j < cell.len() && qualifies(#[trigger] cell[j]) && cell[j].tail_len() == len,
    decreases cell.len() - i,
{
    if 0 <= i < cell.len() && !qualifies(cell[i]) {
        lemma_head_below_cap(cell, i + 1);
    }
}

/// After a run of the tail pass a marker stands only in the top row, only
/// where the neighbouring column holds a qualifying head in its second row,
/// and its length is at least one and at most the cap.
pub proof fn lemma_tail_only_behind_head(grid: Grid, mode: TailMode, x: int, y: int, i: int)
    requires
        0 <= x < grid.len(),
        0 <= y < grid[x].len(),
        well_formed(grid[x][y]),
        0 <= i < tailed(grid, mode)[x][y].len(),
        tailed(grid, mode)[x][y][i] is Tail,
    ensures
        y == 0,
        tailed(grid, mode)[x][y][i] == tail_mark(grid, mode, x),
        1 <= tailed(grid, mode)[x][y][i].tail_len() <= TAIL_CAP,
        0 <= neighbour(mode, x) < grid.len(),
        grid[neighbour(mode, x)].len() > 1,
        exists|j: int|
            0 <= j < grid[neighbour(mode, x)][1].len() && qualifies(
                #[trigger] grid[neighbour(mode, x)][1][j],
            ),
{
    let bare = stripped(grid[x][y]);
    lemma_removed_well_formed(grid[x][y], CellType::Tail(0));
    assert forall|j: int| 0 <= j < bare.len() implies !(#[trigger] bare[j] is Tail) by {
        if bare[j] is Tail {
            assert(bare[j].same_kind(CellType::Tail(0)));
        }
    }
    let n = neighbour(mode, x);
    if 0 <= n < grid.len() && grid[n].len() > 1 {
        lemma_head_below_cap(grid[n][1], 0);
    }
}

/// The state of the tail pass: the way the streaks lean.
#[derive(Copy, Clone, Debug)]
pub struct TailState {
    pub mode: TailMode,
}

impl TailState {
    /// A tail pass whose streaks lean as `mode` says.
    pub fn new(mode: TailMode) -> (state: Self)
        ensures
            state.mode == mode,
    {
        TailState { mode }
    }

    /// The marker that a cell's first qualifying head calls for.
    pub fn find_head(cell: &Cell) -> (mark: CellType)
        ensures
            mark == tail_for(cell@),
    {
        let n = cell.len();
        let mut i: usize = 0;
        while i < n
            invariant
                i <= n == cell@.len(),
                head_from(cell@, 0) == head_from(cell@, i as int),
            decreases n - i,
        {
            let kind = cell.get(i);
            if kind.is_dropping_cell() && kind.tail_len() < TAIL_CAP {
                return CellType::Tail(kind.tail_len() + 1);
            }
            i += 1;
        }
        CellType::Empty
    }

    /// Strips the markers of column `x`.
    fn strip_column(rb: &mut RenderBuffer, x: usize)
        requires
            old(rb).wf(),
            x < old(rb).spec_width(),
        ensures
            final(rb).wf(),
            final(rb).order() == old(rb).order(),
            final(rb).spec_height() == old(rb).spec_height(),
            final(rb)@ == old(rb)@.update(x as int, stripped_column(old(rb)@[x as int])),
    {
        let height = rb.height();
        let ghost before = rb@;
        proof {
            rb.lemma_view_wf();
        }
        let mut y: usize = 0;
        while y < height
            invariant
                rb.wf(),
                rb.order() == old(rb).order(),
                rb.spec_height() == old(rb).spec_height(),
                height == rb.spec_height(),
                x < rb.spec_width(),
                before.len() == rb.spec_width(),
                before[x as int].len() == height,
                y <= height,
                rb@ == before.update(x as int, rb@[x as int]),
                rb@[x as int].len() == height,
                forall|r: int| 0 <= r < y ==> rb@[x as int][r] == stripped(before[x as int][r]),
                forall|r: int| y <= r < height ==> rb@[x as int][r] == before[x as int][r],
            decreases height - y,
        {
            rb.remove_at(x, y, CellType::Tail(0));
            assert(rb@ =~= before.update(x as int, rb@[x as int]));
            y += 1;
        }
        assert(rb@[x as int] =~= stripped_column(before[x as int]));
    }

    /// The marker that column `x` is to receive, read from the second row of
    /// its neighbour as the grid stands.
    fn inspect(rb: &RenderBuffer, mode: TailMode, x: usize) -> (mark: CellType)
        requires
            rb.wf(),
            x < rb.spec_width(),
        ensures
            mark == tail_mark(rb@, mode, x as int),
    {
        proof {
            rb.lemma_view_wf();
        }
        let width = rb.width();
        let n: Option<usize> = match mode {
            TailMode::Left => if x > 0 {
                Some(x - 1)
            } else {
                None
            },
            TailMode::Right => if x < width - 1 {
                Some(x + 1)
            } else {
                None
            },
            TailMode::Default => Some(x),
        };
        match n {
            Some(n) => {
                assert(rb@[n as int].len() == rb.spec_height());
                if rb.height() > 1 {
                    Self::find_head(rb.cell(n, 1))
                } else {
                    CellType::Empty
                }
            },
            None => CellType::Empty,
        }
    }

    /// One run of the tail pass. Column by column, from the right when the
    /// tails lean left, the old markers are stripped and the neighbour's
    /// second row is inspected for a head. Only when every column has had
    /// its turn are the new markers written, so that no marker written for
    /// one column is seen while another is inspected.
    fn render_tail(rb: &mut RenderBuffer, mode: TailMode)
        requires
            old(rb).wf(),
        ensures
            final(rb).wf(),
            final(rb).order() == old(rb).order(),
            final(rb).spec_height() == old(rb).spec_height(),
            final(rb)@ == tailed(old(rb)@, mode),
    {
        let width = rb.width();
        let height = rb.height();
        let ghost before = rb@;
        proof {
            rb.lemma_view_wf();
        }
        let mut marks: Vec<CellType> = Vec::with_capacity(width);
        let mut x: usize = 0;
        while x < width
            invariant
                x <= width,
                marks@.len() == x,
            decreases width - x,
        {
            marks.push(CellType::Empty);
            x += 1;
        }
        let mut done: usize = 0;
        while done < width
            invariant
                rb.wf(),
                rb.order() == old(rb).order(),
                rb.spec_height() == old(rb).spec_height(),
                width == rb.spec_width(),
                height == rb.spec_height(),
                before.len() == width,
                forall|j: int| 0 <= j < width ==> (#[trigger] before[j]).len() == height,
                done <= width,
                marks@.len() == width,
                rb@.len() == width,
                forall|j: int|
                    0 <= j < width ==> #[trigger] rb@[j] == if had_turn(
                        mode,
                        width as int,
                        done as int,
                        j,
                    ) {
                        stripped_column(before[j])
                    } else {
                        before[j]
                    },
                forall|j: int|
                    0 <= j < width && had_turn(mode, width as int, done as int, j) ==> marks@[j]
                        == tail_mark(before, mode, j),
            decreases width - done,
        {
            let x = match mode {
                TailMode::Left => width - 1 - done,
                _ => done,
            };
            Self::strip_column(rb, x);
            let mark = Self::inspect(rb, mode, x);
            proof {
                let n = neighbour(mode, x as int);
                if 0 <= n < width && height > 1 {
                    assert(before[n].len() == height);
                    lemma_strip_keeps_head(before[n][1]);
                    assert(rb@[n][1] == before[n][1] || rb@[n][1] == stripped(before[n][1]));
                }
                assert(mark == tail_mark(before, mode, x as int));
            }
            marks.set(x, mark);
            done += 1;
        }
        let mut x: usize = 0;
        while x < width
            invariant
                rb.wf(),
                rb.order() == old(rb).order(),
                rb.spec_height() == old(rb).spec_height(),
                width == rb.spec_width(),
                height == rb.spec_height(),
                before.len() == width,
                forall|j: int| 0 <= j < width ==> (#[trigger] before[j]).len() == height,
                x <= width,
                marks@ =~= tail_marks(before, mode),
                rb@.len() == width,
                forall|j: int| 0 <= j < x ==> rb@[j] == tailed(before, mode)[j],
                forall|j: int| x <= j < width ==> rb@[j] == stripped_column(before[j]),
            decreases width - x,
        {
            if height > 0 {
                rb.insert_at(x, 0, marks[x]);
            }
            assert(rb@[x as int] =~= tailed(before, mode)[x as int]);
            x += 1;
        }
        assert(rb@ =~= tailed(before, mode));
    }

    /// Redraws the tails for wind from the left: each head in the second row
    /// marks the top of the column to its left.
    pub fn render_right_tail(rb: &mut RenderBuffer)
        requires
            old(rb).wf(),
        ensures
            final(rb).wf(),
            final(rb).order() == old(rb).order(),
            final(rb).spec_height() == old(rb).spec_height(),
            final(rb)@ == tailed(old(rb)@, TailMode::Right),
    {
        Self::render_tail(rb, TailMode::Right);
    }

    /// Redraws the tails for wind from the right: each head in the second row
    /// marks the top of the column to its right.
    pub fn render_left_tail(rb: &mut RenderBuffer)
        requires
            old(rb).wf(),
        ensures
            final(rb).wf(),
            final(rb).order() == old(rb).order(),
            final(rb).spec_height() == old(rb).spec_height(),
            final(rb)@ == tailed(old(rb)@, TailMode::Left),
    {
        Self::render_tail(rb, TailMode::Left);
    }

    /// Redraws the tails for calm air: each head in the second row marks the
    /// cell right above it.
    pub fn render_default_tail(rb: &mut RenderBuffer)
        requires
            old(rb).wf(),
        ensures
            final(rb).wf(),
            final(rb).order() == old(rb).order(),
            final(rb).spec_height() == old(rb).spec_height(),
            final(rb)@ == tailed(old(rb)@, TailMode::Default),
    {
        Self::render_tail(rb, TailMode::Default);
    }
}

impl EachFrameImpl for TailState {
    open spec fn valid(&self) -> bool {
        true
    }

    open spec fn next_state(&self, grid: Grid, seed: u64, frame: u64) -> Self {
        *self
    }

    open spec fn next_grid(&self, grid: Grid, seed: u64, frame: u64) -> Grid {
        if frame % 2 == 0 {
            tailed(grid, self.mode)
        } else {
            grid
        }
    }

    open spec fn signal(&self, grid: Grid, seed: u64, frame: u64) -> ShouldRender {
        if frame % 2 == 0 {
            ShouldRender::Render
        } else {
            ShouldRender::Skip
        }
    }

    /// One frame of the tail pass. It runs in even frames only; in an odd
    /// frame the grid is left as it is.
    fn on_frame(&mut self, rb: &mut RenderBuffer, seed: u64, frame: u64) -> (sr: ShouldRender)
        ensures
            final(rb).order() == old(rb).order(),
    {
        if frame % 2 != 0 {
            return ShouldRender::Skip;
        }
        match self.mode {
            TailMode::Left => Self::render_left_tail(rb),
            TailMode::Right => Self::render_right_tail(rb),
            TailMode::Default => Self::render_default_tail(rb),
        };
        ShouldRender::Render
    }
}

} // verus!
