//! The grid of cells that the passes work on.
//!
//! Columns live in slots that never move; `order` says which slot is shown at
//! which position. Wind shifts the picture by rotating `order`, so no cell is
//! copied. The view of a buffer is the grid by position: `rb@[x][y]` is the
//! cell in column `x` (0 is the left edge) and row `y` (0 is the top).

use crate::cell::{inserted, removed, well_formed, Cell, CellType};
use crate::geometry::Rect;
use vstd::prelude::*;

verus! {

/// A grid by position: columns, each a sequence of cells from the top down.
pub type Grid = Seq<Seq<Seq<CellType>>>;

/// One column as a model value.
pub type Column = Seq<Seq<CellType>>;

/// Every entry names a slot, and no slot is named twice.
pub open spec fn is_permutation(order: Seq<usize>) -> bool {
    &&& forall|x: int| 0 <= x < order.len() ==> (#[trigger] order[x]) < order.len()
    &&& forall|x: int, z: int| 0 <= x < z < order.len() ==> order[x] != order[z]
}

/// Everything moved one place to the right; the last entry comes in at the
/// left.
pub open spec fn rotated_right<T>(s: Seq<T>) -> Seq<T> {
    Seq::new(
        s.len(),
        |i: int|
            if i == 0 {
                s[s.len() - 1]
            } else {
                s[i - 1]
            },
    )
}

/// Everything moved one place to the left; the first entry comes in at the
/// right.
pub open spec fn rotated_left<T>(s: Seq<T>) -> Seq<T> {
    Seq::new(
        s.len(),
        |i: int|
            if i == s.len() - 1 {
                s[0]
            } else {
                s[i + 1]
            },
    )
}

/// A grid of the given size with nothing in it.
pub open spec fn blank(width: nat, height: nat) -> Grid {
    Seq::new(width, |x: int| Seq::new(height, |y: int| Seq::<CellType>::empty()))
}

/// `grid` with the cell at column `x`, row `y` replaced.
pub open spec fn with_cell(grid: Grid, x: int, y: int, cell: Seq<CellType>) -> Grid {
    grid.update(x, grid[x].update(y, cell))
}

/// All columns are `height` high and all cells well formed.
pub open spec fn grid_wf(grid: Grid, height: nat) -> bool {
    forall|x: int|
        0 <= x < grid.len() ==> {
            &&& (#[trigger] grid[x]).len() == height
            &&& forall|y: int| 0 <= y < height ==> well_formed(#[trigger] grid[x][y])
        }
}

/// A rotation only relabels positions: the same columns are there, each as
/// often as before.
pub proof fn lemma_rotation_is_permutation<T>(s: Seq<T>)
    ensures
        rotated_right(s).to_multiset() == s.to_multiset(),
        rotated_left(s).to_multiset() == s.to_multiset(),
        rotated_left(rotated_right(s)) == s,
        rotated_right(rotated_left(s)) == s,
{
    broadcast use vstd::seq_lib::to_multiset_build, vstd::seq_lib::to_multiset_insert;

    assert(rotated_left(rotated_right(s)) =~= s);
    assert(rotated_right(rotated_left(s)) =~= s);
    if s.len() > 0 {
        let front = s.drop_last();
        assert(s =~= front.push(s.last()));
        assert(rotated_right(s) =~= front.insert(0, s.last()));
        let back = s.drop_first();
        assert(s =~= back.insert(0, s[0]));
        assert(rotated_left(s) =~= back.push(s[0]));
    } else {
        assert(rotated_right(s) =~= s);
        assert(rotated_left(s) =~= s);
    }
}

/// The model of one stored column.
pub open spec fn column_view(column: Vec<Cell>) -> Column {
    Seq::new(column@.len(), |y: int| column@[y]@)
}

/// The grid: a fixed number of columns, all of one height.
pub struct RenderBuffer {
    columns: Vec<Vec<Cell>>,
    order: Vec<usize>,
    height: usize,
}

impl RenderBuffer {
    /// Which slot each position shows.
    pub closed spec fn order(&self) -> Seq<usize> {
        self.order@
    }

    /// The columns by slot.
    pub closed spec fn slots(&self) -> Seq<Column> {
        Seq::new(self.columns@.len(), |s: int| column_view(self.columns@[s]))
    }

    /// The number of rows.
    pub closed spec fn spec_height(&self) -> nat {
        self.height as nat
    }

    /// The number of columns.
    pub open spec fn spec_width(&self) -> nat {
        self.order().len()
    }

    /// The grid by position.
    pub open spec fn view(&self) -> Grid {
        Seq::new(self.order().len(), |x: int| self.slots()[self.order()[x] as int])
    }

    /// Every position shows a slot of its own, every column has the grid's
    /// height, and every cell is well formed.
    pub open spec fn wf(&self) -> bool {
        &&& self.order().len() == self.slots().len()
        &&& is_permutation(self.order())
        &&& grid_wf(self.slots(), self.spec_height())
    }

    /// In a well-formed buffer the grid by position is well formed too.
    pub proof fn lemma_view_wf(&self)
        requires
            self.wf(),
        ensures
            self@.len() == self.spec_width(),
            grid_wf(self@, self.spec_height()),
    {
        assert forall|x: int| 0 <= x < self@.len() implies {
            &&& (#[trigger] self@[x]).len() == self.spec_height()
            &&& forall|y: int|
                0 <= y < self.spec_height() ==> well_formed(#[trigger] self@[x][y])
        } by {
            let s = self.order()[x] as int;
            assert(self.slots()[s].len() == self.spec_height());
        }
    }

    /// A grid of `size.width` columns and `size.height` rows, all cells empty.
    /// The position of `size` plays no part.
    pub fn new(size: Rect) -> (rb: Self)
        ensures
            rb.wf(),
            rb.spec_width() == size.width,
            rb.spec_height() == size.height,
            rb@ == blank(size.width as nat, size.height as nat),
            forall|x: int| 0 <= x < size.width ==> rb.order()[x] == x,
    {
        let width = size.width as usize;
        let height = size.height as usize;
        let mut columns: Vec<Vec<Cell>> = Vec::with_capacity(width);
        let mut order: Vec<usize> = Vec::with_capacity(width);
        let mut x: usize = 0;
        while x < width
            invariant
                x <= width,
                columns@.len() == x,
                order@.len() == x,
                forall|i: int| 0 <= i < x ==> order@[i] == i,
                forall|i: int|
                    0 <= i < x ==> column_view(#[trigger] columns@[i]) == Seq::new(
                        height as nat,
                        |y: int| Seq::<CellType>::empty(),
                    ),
            decreases width - x,
        {
            let mut column: Vec<Cell> = Vec::with_capacity(height);
            let mut y: usize = 0;
            while y < height
                invariant
                    y <= height,
                    column@.len() == y,
                    forall|j: int| 0 <= j < y ==> (#[trigger] column@[j])@ == Seq::<CellType>::empty(),
                decreases height - y,
            {
                column.push(Cell::new());
                y += 1;
            }
            assert(column_view(column) =~= Seq::new(
                height as nat,
                |y: int| Seq::<CellType>::empty(),
            ));
            columns.push(column);
            order.push(x);
            x += 1;
        }
        let rb = RenderBuffer { columns, order, height };
        assert(rb@ =~= blank(size.width as nat, size.height as nat));
        rb
    }

    /// The number of columns.
    pub fn width(&self) -> (w: usize)
        ensures
            w == self.spec_width(),
    {
        self.order.len()
    }

    /// The number of rows.
    pub fn height(&self) -> (h: usize)
        ensures
            h == self.spec_height(),
    {
        self.height
    }

    /// The slot whose column is shown at position `x`.
    pub fn slot(&self, x: usize) -> (s: usize)
        requires
            x < self.spec_width(),
        ensures
            s == self.order()[x as int],
    {
        self.order[x]
    }

    /// The cell at column `x`, row `y`.
    pub fn cell(&self, x: usize, y: usize) -> (cell: &Cell)
        requires
            self.wf(),
            x < self.spec_width(),
            y < self.spec_height(),
        ensures
            cell@ == self@[x as int][y as int],
            cell.wf(),
    {
        let s = self.order[x];
        assert(self.slots()[s as int].len() == self.spec_height());
        assert(well_formed(self.slots()[s as int][y as int]));
        &self.columns[s][y]
    }

    /// What follows when one cell of one slot is replaced by a well-formed
    /// cell: the buffer stays well formed, and by position exactly the cell
    /// at column `x`, row `y` has changed.
    proof fn lemma_cell_replaced(&self, after: &RenderBuffer, x: int, y: int, kinds: Seq<CellType>)
        requires
            self.wf(),
            0 <= x < self.spec_width(),
            0 <= y < self.spec_height(),
            well_formed(kinds),
            after.order() == self.order(),
            after.spec_height() == self.spec_height(),
            after.slots() == with_cell(self.slots(), self.order()[x] as int, y, kinds),
        ensures
            after.wf(),
            after@ == with_cell(self@, x, y, kinds),
    {
        let s = self.order()[x];
        assert(self.slots()[s as int].len() == self.spec_height());
        assert(after@ =~~= with_cell(self@, x, y, kinds)) by {
            assert forall|i: int| 0 <= i < self.order().len() && i != x implies self.order()[i]
                != s by {
                if i < x {
                    assert(self.order()[i] != self.order()[x]);
                } else {
                    assert(self.order()[x] != self.order()[i]);
                }
            }
        }
        assert(grid_wf(after.slots(), after.spec_height())) by {
            assert forall|i: int| 0 <= i < after.slots().len() implies {
                &&& (#[trigger] after.slots()[i]).len() == after.spec_height()
                &&& forall|j: int|
                    0 <= j < after.spec_height() ==> well_formed(#[trigger] after.slots()[i][j])
            } by {
                assert(self.slots()[i].len() == self.spec_height());
                assert forall|j: int| 0 <= j < after.spec_height() implies well_formed(
                    #[trigger] after.slots()[i][j],
                ) by {
                    assert(well_formed(self.slots()[i][j]));
                }
            }
        }
    }

    /// Puts `cell` at column `x`, row `y`.
    pub fn set_cell(&mut self, x: usize, y: usize, cell: Cell)
        requires
            old(self).wf(),
            x < old(self).spec_width(),
            y < old(self).spec_height(),
            cell.wf(),
        ensures
            final(self).wf(),
            final(self).order() == old(self).order(),
            final(self).spec_height() == old(self).spec_height(),
            final(self)@ == with_cell(old(self)@, x as int, y as int, cell@),
    {
        let s = self.order[x];
        let ghost before = *self;
        let ghost kinds = cell@;
        assert(self.slots()[s as int].len() == self.spec_height());
        self.columns[s][y] = cell;
        proof {
            assert(self.slots() =~~= with_cell(before.slots(), s as int, y as int, kinds));
            before.lemma_cell_replaced(self, x as int, y as int, kinds);
        }
    }

    /// Offers `kind` to the cell at column `x`, row `y`.
    pub fn insert_at(&mut self, x: usize, y: usize, kind: CellType)
        requires
            old(self).wf(),
            x < old(self).spec_width(),
            y < old(self).spec_height(),
        ensures
            final(self).wf(),
            final(self).order() == old(self).order(),
            final(self).spec_height() == old(self).spec_height(),
            final(self)@ == with_cell(
                old(self)@,
                x as int,
                y as int,
                inserted(old(self)@[x as int][y as int], kind),
            ),
    {
        let s = self.order[x];
        let ghost before = *self;
        let ghost kinds = inserted(self@[x as int][y as int], kind);
        assert(self.slots()[s as int].len() == self.spec_height());
        assert(well_formed(self.slots()[s as int][y as int]));
        self.columns[s][y].insert(kind);
        proof {
            assert(self.slots() =~~= with_cell(before.slots(), s as int, y as int, kinds));
            before.lemma_cell_replaced(self, x as int, y as int, kinds);
        }
    }

    /// Filters `kind` out of the cell at column `x`, row `y`.
    pub fn remove_at(&mut self, x: usize, y: usize, kind: CellType)
        requires
            old(self).wf(),
            x < old(self).spec_width(),
            y < old(self).spec_height(),
        ensures
            final(self).wf(),
            final(self).order() == old(self).order(),
            final(self).spec_height() == old(self).spec_height(),
            final(self)@ == with_cell(
                old(self)@,
                x as int,
                y as int,
                removed(old(self)@[x as int][y as int], kind),
            ),
    {
        let s = self.order[x];
        let ghost before = *self;
        let ghost kinds = removed(self@[x as int][y as int], kind);
        assert(self.slots()[s as int].len() == self.spec_height());
        assert(well_formed(self.slots()[s as int][y as int]));
        self.columns[s][y].remove(kind);
        proof {
            assert(self.slots() =~~= with_cell(before.slots(), s as int, y as int, kinds));
            before.lemma_cell_replaced(self, x as int, y as int, kinds);
        }
    }

    /// Empties the cell at column `x`, row `y`.
    pub fn clear_at(&mut self, x: usize, y: usize)
        requires
            old(self).wf(),
            x < old(self).spec_width(),
            y < old(self).spec_height(),
        ensures
            final(self).wf(),
            final(self).order() == old(self).order(),
            final(self).spec_height() == old(self).spec_height(),
            final(self)@ == with_cell(old(self)@, x as int, y as int, Seq::<CellType>::empty()),
    {
        let s = self.order[x];
        let ghost before = *self;
        assert(self.slots()[s as int].len() == self.spec_height());
        self.columns[s][y].clear();
        proof {
            assert(self.slots() =~~= with_cell(
                before.slots(),
                s as int,
                y as int,
                Seq::<CellType>::empty(),
            ));
            before.lemma_cell_replaced(self, x as int, y as int, Seq::<CellType>::empty());
        }
    }

    /// Moves every column one position to the right; the rightmost column
    /// comes in at the left edge. No cell is touched.
    pub fn rotate_right(&mut self)
        requires
            old(self).wf(),
        ensures
            final(self).wf(),
            final(self).slots() == old(self).slots(),
            final(self).order() == rotated_right(old(self).order()),
            final(self).spec_height() == old(self).spec_height(),
            final(self)@ == rotated_right(old(self)@),
    {
        let ghost before = *self;
        match self.order.pop() {
            Some(last) => {
                self.order.insert(0, last);
            },
            None => {},
        }
        assert(self.order() =~= rotated_right(before.order()));
        assert(self@ =~= rotated_right(before@));
    }

    /// Moves every column one position to the left; the leftmost column comes
    /// in at the right edge. No cell is touched.
    pub fn rotate_left(&mut self)
        requires
            old(self).wf(),
        ensures
            final(self).wf(),
            final(self).slots() == old(self).slots(),
            final(self).order() == rotated_left(old(self).order()),
            final(self).spec_height() == old(self).spec_height(),
            final(self)@ == rotated_left(old(self)@),
    {
        let ghost before = *self;
        if self.order.len() > 0 {
            let first = self.order.remove(0);
            self.order.push(first);
        }
        assert(self.order() =~= rotated_left(before.order()));
        assert(self@ =~= rotated_left(before@));
    }
}

} // verus!
