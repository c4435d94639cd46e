//! Precipitation: drops enter at the top row, fall at the speed of their
//! kind, and leave at the bottom row.

use crate::buffer::{with_cell, Column, Grid, RenderBuffer};
use crate::cell::{has_kind, inserted, lemma_filter_well_formed, well_formed, Cell, CellType};
use crate::pass::EachFrameImpl;
use crate::signal::{Mode, ShouldRender};
use vstd::prelude::*;

verus! {

/// How many columns share the bits of one random value.
pub const GROUP_SIZE: usize = 64;

/// Why a configuration was turned down.
#[derive(Clone, Copy, PartialEq, Eq, Structural, Debug)]
pub enum ConfigError {
    /// The density threshold was zero.
    ZeroThreshold,
}

/// The predicate "does not fall in this frame".
pub open spec fn stays(mode: Mode, frame: u64) -> spec_fn(CellType) -> bool {
    |k: CellType| !mode.moves(frame, k)
}

/// The predicate "falls in this frame".
pub open spec fn leaves(mode: Mode, frame: u64) -> spec_fn(CellType) -> bool {
    |k: CellType| mode.moves(frame, k)
}

/// `cell` after `kinds` were offered to it one after the other.
pub open spec fn merged(cell: Seq<CellType>, kinds: Seq<CellType>) -> Seq<CellType>
    decreases kinds.len(),
{
    if kinds.len() == 0 {
        cell
    } else {
        inserted(merged(cell, kinds.drop_last()), kinds.last())
    }
}

/// A column with its bottom row emptied.
pub open spec fn cleared_bottom(col: Column) -> Column {
    if col.len() == 0 {
        col
    } else {
        col.update(col.len() - 1, Seq::<CellType>::empty())
    }
}

/// A column after the kinds that fall have left row `src` for the row below.
pub open spec fn stepped(col: Column, src: int, mode: Mode, frame: u64) -> Column {
    col.update(src, col[src].filter(stays(mode, frame))).update(
        src + 1,
        merged(col[src + 1], col[src].filter(leaves(mode, frame))),
    )
}

/// What row `r` holds once every row has handed its falling kinds to the row
/// below: the kinds of its own that stay, then those that arrive from above.
/// The bottom row has nowhere to hand anything and keeps what it has.
pub open spec fn fallen_row(col: Column, mode: Mode, frame: u64, r: int) -> Seq<CellType> {
    let rest = if r + 1 == col.len() {
        col[r]
    } else {
        col[r].filter(stays(mode, frame))
    };
    if r == 0 {
        rest
    } else {
        merged(rest, col[r - 1].filter(leaves(mode, frame)))
    }
}

/// A column after one frame of falling.
pub open spec fn fallen(col: Column, mode: Mode, frame: u64) -> Column {
    Seq::new(col.len(), |r: int| fallen_row(col, mode, frame, r))
}

/// The kind that a number selects at a given threshold.
pub open spec fn drop_speed(num: u64, threshold: u16) -> CellType {
    let rest = num % (threshold as u64);
    if rest == 0 {
        CellType::Normal(0)
    } else if rest == 1 {
        CellType::Fast
    } else if rest == 2 {
        CellType::Slow
    } else {
        CellType::Empty
    }
}

/// What enters column `x` at the top. Columns share a random value in groups
/// of 64: bit `x mod 64` decides whether anything enters, and the value less
/// that bit's number, stopping at zero, selects the kind.
pub open spec fn spawned(seed: u64, threshold: u16, x: int) -> CellType {
    let i = (x % (GROUP_SIZE as int)) as u64;
    if seed & (1u64 << i) != 0 {
        drop_speed(
            if seed >= i {
                (seed - i) as u64
            } else {
                0
            },
            threshold,
        )
    } else {
        CellType::Empty
    }
}

/// A grid after the new drops were merged into its top row.
pub open spec fn sown(grid: Grid, seed: u64, threshold: u16) -> Grid {
    Seq::new(
        grid.len(),
        |x: int|
            if grid[x].len() == 0 {
                grid[x]
            } else {
                grid[x].update(0, inserted(grid[x][0], spawned(seed, threshold, x)))
            },
    )
}

/// A grid after every column lost its bottom row and fell by one frame.
pub open spec fn drained(grid: Grid, mode: Mode, frame: u64) -> Grid {
    Seq::new(grid.len(), |x: int| fallen(cleared_bottom(grid[x]), mode, frame))
}

/// A grid after one whole frame of precipitation.
pub open spec fn rained(grid: Grid, seed: u64, frame: u64, threshold: u16, mode: Mode) -> Grid {
    sown(drained(grid, mode, frame), seed, threshold)
}

/// Offering one more kind is the last step of merging.
pub proof fn lemma_merged_push(cell: Seq<CellType>, kinds: Seq<CellType>, kind: CellType)
    ensures
        merged(cell, kinds.push(kind)) == inserted(merged(cell, kinds), kind),
{
    assert(kinds.push(kind).drop_last() =~= kinds);
}

/// Merging never loses or reorders what a cell held.
pub proof fn lemma_merged_keeps(cell: Seq<CellType>, kinds: Seq<CellType>)
    ensures
        cell.len() <= merged(cell, kinds).len(),
        forall|i: int| 0 <= i < cell.len() ==> merged(cell, kinds)[i] == cell[i],
    decreases kinds.len(),
{
    if kinds.len() > 0 {
        lemma_merged_keeps(cell, kinds.drop_last());
    }
}

/// Merging two runs of kinds one after the other is merging them in a row.
pub proof fn lemma_merged_append(cell: Seq<CellType>, first: Seq<CellType>, then: Seq<CellType>)
    ensures
        merged(cell, first + then) == merged(merged(cell, first), then),
    decreases then.len(),
{
    if then.len() == 0 {
        assert(first + then =~= first);
    } else {
        lemma_merged_append(cell, first, then.drop_last());
        assert((first + then).drop_last() =~= first + then.drop_last());
    }
}

/// A kind that a merged cell holds was in the cell or among the kinds
/// offered.
pub proof fn lemma_merged_origin(cell: Seq<CellType>, kinds: Seq<CellType>, kind: CellType)
    requires
        has_kind(merged(cell, kinds), kind),
    ensures
        has_kind(cell, kind) || has_kind(kinds, kind),
    decreases kinds.len(),
{
    if kinds.len() > 0 {
        let front = merged(cell, kinds.drop_last());
        let out = merged(cell, kinds);
        let i = choose|i: int| 0 <= i < out.len() && (#[trigger] out[i]).same_kind(kind);
        if i < front.len() {
            assert(front[i].same_kind(kind));
            lemma_merged_origin(cell, kinds.drop_last(), kind);
            if has_kind(kinds.drop_last(), kind) {
                let j = choose|j: int|
                    0 <= j < kinds.drop_last().len() && (#[trigger] kinds.drop_last()[j]).same_kind(
                        kind,
                    );
                assert(kinds[j].same_kind(kind));
            }
        } else {
            assert(kinds[kinds.len() - 1].same_kind(kind));
        }
    }
}

/// Emptying the bottom row twice is emptying it once, and a column whose
/// bottom row is empty already is left as it is.
pub proof fn lemma_cleared_bottom_idempotent(col: Column)
    ensures
        cleared_bottom(cleared_bottom(col)) == cleared_bottom(col),
        col.len() > 0 && col.last() == Seq::<CellType>::empty() ==> cleared_bottom(col) == col,
{
    assert(cleared_bottom(cleared_bottom(col)) =~= cleared_bottom(col));
    if col.len() > 0 && col.last() == Seq::<CellType>::empty() {
        assert(cleared_bottom(col) =~= col);
    }
}

/// A kind that the mode does not move never falls. In whatever frame, it is
/// not among the kinds its row hands down, and after a whole frame of
/// precipitation it is still in its row, unless that was the bottom row,
/// where everything leaves the picture.
pub proof fn lemma_still_kind_stays(
    grid: Grid,
    seed: u64,
    frame: u64,
    threshold: u16,
    mode: Mode,
    x: int,
    r: int,
    kind: CellType,
)
    requires
        0 <= x < grid.len(),
        0 <= r,
        r + 1 < grid[x].len(),
        grid[x][r].contains(kind),
        mode.frames_per_step(kind) == 0,
    ensures
        !grid[x][r].filter(leaves(mode, frame)).contains(kind),
        fallen(grid[x], mode, frame)[r].contains(kind),
        rained(grid, seed, frame, threshold, mode)[x][r].contains(kind),
{
    broadcast use vstd::seq_lib::group_filter_ensures;

    let cell = grid[x][r];
    let col = cleared_bottom(grid[x]);
    let i = choose|i: int| 0 <= i < cell.len() && cell[i] == kind;
    assert(stays(mode, frame)(cell[i]));
    let rest = cell.filter(stays(mode, frame));
    assert(rest.contains(cell[i]));
    let j = choose|j: int| 0 <= j < rest.len() && rest[j] == kind;
    if cell.filter(leaves(mode, frame)).contains(kind) {
        let out = cell.filter(leaves(mode, frame));
        let m = choose|m: int| 0 <= m < out.len() && out[m] == kind;
        assert(leaves(mode, frame)(out[m]));
    }
    assert(col[r] == cell);
    if r > 0 {
        lemma_merged_keeps(rest, col[r - 1].filter(leaves(mode, frame)));
        lemma_merged_keeps(rest, grid[x][r - 1].filter(leaves(mode, frame)));
    }
    assert(fallen(grid[x], mode, frame)[r][j] == kind);
    let landed = fallen(col, mode, frame);
    assert(landed[r][j] == kind);
    let after = rained(grid, seed, frame, threshold, mode);
    assert(drained(grid, mode, frame)[x] == landed);
    if r == 0 {
        assert(after[x][r][j] == kind);
    } else {
        assert(after[x][r] == landed[r]);
    }
}

/// A grid after a run of frames of precipitation. Each frame brings its
/// random value and its number: `ticks[i]` is the pair of the two.
pub open spec fn rained_on(grid: Grid, ticks: Seq<(u64, u64)>, threshold: u16, mode: Mode) -> Grid
    decreases ticks.len(),
{
    if ticks.len() == 0 {
        grid
    } else {
        rained(
            rained_on(grid, ticks.drop_last(), threshold, mode),
            ticks.last().0,
            ticks.last().1,
            threshold,
            mode,
        )
    }
}

/// A kind that the mode does not move stays in its row for good: however
/// many frames pass, whatever their numbers and whatever they spawn, it is
/// still there, unless it sat in the bottom row.
pub proof fn lemma_still_kind_stays_for_good(
    grid: Grid,
    ticks: Seq<(u64, u64)>,
    threshold: u16,
    mode: Mode,
    x: int,
    r: int,
    kind: CellType,
)
    requires
        0 <= x < grid.len(),
        0 <= r,
        r + 1 < grid[x].len(),
        grid[x][r].contains(kind),
        mode.frames_per_step(kind) == 0,
    ensures
        rained_on(grid, ticks, threshold, mode).len() == grid.len(),
        rained_on(grid, ticks, threshold, mode)[x].len() == grid[x].len(),
        rained_on(grid, ticks, threshold, mode)[x][r].contains(kind),
    decreases ticks.len(),
{
    if ticks.len() > 0 {
        let before = rained_on(grid, ticks.drop_last(), threshold, mode);
        let (seed, frame) = ticks.last();
        lemma_still_kind_stays_for_good(grid, ticks.drop_last(), threshold, mode, x, r, kind);
        lemma_still_kind_stays(before, seed, frame, threshold, mode, x, r, kind);
        let after = rained(before, seed, frame, threshold, mode);
        assert(drained(before, mode, frame)[x].len() == before[x].len());
        assert(after[x].len() == before[x].len());
    }
}

/// A kind that falls in this frame leaves its row and arrives in the row
/// below. It arrives when the row below still has room for it: once that
/// row's own falling kinds have left and the kinds ahead of this one have
/// arrived, it holds fewer than three. It leaves its row for good when the
/// row above does not hand down the same kind.
pub proof fn lemma_moving_kind_lands(col: Column, mode: Mode, frame: u64, r: int, i: int)
    requires
        0 <= r,
        r + 1 < col.len(),
        well_formed(col[r]),
        0 <= i < col[r].len(),
        mode.moves(frame, col[r][i]),
        !has_kind(col[r + 1], col[r][i]),
        merged(
            if r + 2 == col.len() {
                col[r + 1]
            } else {
                col[r + 1].filter(stays(mode, frame))
            },
            col[r].take(i).filter(leaves(mode, frame)),
        ).len() < 3,
    ensures
        fallen(col, mode, frame)[r + 1].contains(col[r][i]),
        r == 0 || !has_kind(col[r - 1], col[r][i]) ==> !has_kind(
            fallen(col, mode, frame)[r],
            col[r][i],
        ),
{
    broadcast use vstd::seq_lib::group_filter_ensures;

    let kind = col[r][i];
    let out = leaves(mode, frame);
    let keep = stays(mode, frame);
    let cell = col[r];
    let ahead = cell.take(i).filter(out);
    let behind = cell.skip(i + 1).filter(out);
    let below = if r + 2 == col.len() {
        col[r + 1]
    } else {
        col[r + 1].filter(keep)
    };
    // The kinds that leave row r, split at this one.
    assert(cell =~= cell.take(i).push(kind) + cell.skip(i + 1));
    Seq::filter_distributes_over_add(cell.take(i).push(kind), cell.skip(i + 1), out);
    cell.take(i).lemma_filter_push(kind, out);
    assert(cell.filter(out) == ahead.push(kind) + behind);
    // What the row below holds when this kind arrives has no such kind yet.
    let before = merged(below, ahead);
    assert(!has_kind(before, kind)) by {
        if has_kind(before, kind) {
            lemma_merged_origin(below, ahead, kind);
            if has_kind(below, kind) {
                let j = choose|j: int| 0 <= j < below.len() && (#[trigger] below[j]).same_kind(kind);
                if r + 2 != col.len() {
                    assert(col[r + 1].filter(keep).contains(below[j]));
                    col[r + 1].lemma_filter_contains_rev(keep, below[j]);
                }
                let under = col[r + 1];
                assert(under.contains(below[j]));
                let m = choose|m: int| 0 <= m < under.len() && under[m] == below[j];
                assert(under[m].same_kind(kind));
            } else {
                let j = choose|j: int| 0 <= j < ahead.len() && (#[trigger] ahead[j]).same_kind(kind);
                assert(ahead.contains(ahead[j]));
                cell.take(i).lemma_filter_contains_rev(out, ahead[j]);
                let m = choose|m: int| 0 <= m < cell.take(i).len() && cell.take(i)[m] == ahead[j];
                assert(cell[m].same_kind(cell[i]));
            }
        }
    }
    assert(!(kind is Empty));
    lemma_merged_push(below, ahead, kind);
    lemma_merged_append(below, ahead.push(kind), behind);
    lemma_merged_keeps(before.push(kind), behind);
    assert(fallen(col, mode, frame)[r + 1] == merged(before.push(kind), behind));
    let arrived = before.push(kind);
    assert(arrived[before.len() as int] == kind);
    assert(merged(arrived, behind)[before.len() as int] == arrived[before.len() as int]);
    // Nothing of this kind is left in row r.
    if r == 0 || !has_kind(col[r - 1], kind) {
        let rest = cell.filter(keep);
        assert(!has_kind(rest, kind)) by {
            if has_kind(rest, kind) {
                let j = choose|j: int| 0 <= j < rest.len() && (#[trigger] rest[j]).same_kind(kind);
                assert(keep(rest[j]));
                assert(rest.contains(rest[j]));
                cell.lemma_filter_contains_rev(keep, rest[j]);
                let m = choose|m: int| 0 <= m < cell.len() && cell[m] == rest[j];
                if m < i {
                    assert(cell[m].same_kind(cell[i]));
                } else if m > i {
                    assert(cell[i].same_kind(cell[m]));
                }
            }
        }
        if r > 0 {
            let above = col[r - 1].filter(out);
            if has_kind(fallen(col, mode, frame)[r], kind) {
                lemma_merged_origin(rest, above, kind);
                let j = choose|j: int| 0 <= j < above.len() && (#[trigger] above[j]).same_kind(kind);
                assert(above.contains(above[j]));
                let over = col[r - 1];
                over.lemma_filter_contains_rev(out, above[j]);
                let m = choose|m: int| 0 <= m < over.len() && over[m] == above[j];
                assert(over[m].same_kind(kind));
            }
        }
    }
}

/// In a frame that is a multiple of both two and three, rain moves its
/// normal and its slow drops alike, and its fast ones as in every frame.
pub proof fn lemma_rain_moves_all_on_common_multiple(frame: u64, payload: u8)
    requires
        frame % 2 == 0,
        frame % 3 == 0,
    ensures
        Mode::Rain.moves(frame, CellType::Fast),
        Mode::Rain.moves(frame, CellType::Normal(payload)),
        Mode::Rain.moves(frame, CellType::Slow),
{
}

/// How densely drops enter, and at what speeds they fall.
#[derive(Clone, Copy, Debug)]
pub struct DroppingState {
    threshold: u16,
    mode: Mode,
}

impl DroppingState {
    /// The density threshold; at least one.
    pub closed spec fn spec_threshold(&self) -> u16 {
        self.threshold
    }

    /// The mode whose speeds apply.
    pub closed spec fn spec_mode(&self) -> Mode {
        self.mode
    }

    /// A dropping pass for the given density and mode. The lower the
    /// threshold, the more drops; zero is turned down.
    pub fn new(threshold: u16, mode: Mode) -> (r: Result<Self, ConfigError>)
        ensures
            r.is_err() <==> threshold == 0,
            r matches Err(e) ==> e == ConfigError::ZeroThreshold,
            r matches Ok(state) ==> state.spec_threshold() == threshold && state.spec_mode()
                == mode && state.valid(),
    {
        if threshold == 0 {
            Err(ConfigError::ZeroThreshold)
        } else {
            Ok(DroppingState { threshold, mode })
        }
    }

    #[verifier::when_used_as_spec(spec_threshold)]
    pub fn threshold(&self) -> (threshold: u16)
        ensures
            threshold == self.spec_threshold(),
    {
        self.threshold
    }

    #[verifier::when_used_as_spec(spec_mode)]
    pub fn mode(&self) -> (mode: Mode)
        ensures
            mode == self.spec_mode(),
    {
        self.mode
    }

    /// The kind that `num` selects: remainder 0 is normal, 1 fast, 2 slow,
    /// anything else nothing.
    pub fn get_drop_speed(num: u64, threshold: u16) -> (kind: CellType)
        requires
            threshold > 0,
        ensures
            kind == drop_speed(num, threshold),
    {
        let rest = num % (threshold as u64);
        if rest == 0 {
            CellType::Normal(0)
        } else if rest == 1 {
            CellType::Fast
        } else if rest == 2 {
            CellType::Slow
        } else {
            CellType::Empty
        }
    }

    /// The line of new drops for a grid of `width` columns.
    pub fn gen_drop(&self, width: usize, seed: u64) -> (line: Vec<CellType>)
        requires
            self.valid(),
        ensures
            line@.len() == width,
            forall|x: int| 0 <= x < width ==> line@[x] == spawned(seed, self.spec_threshold(), x),
    {
        let mut line: Vec<CellType> = Vec::with_capacity(width);
        let mut x: usize = 0;
        while x < width
            invariant
                self.valid(),
                x <= width,
                line@.len() == x,
                forall|j: int| 0 <= j < x ==> line@[j] == spawned(seed, self.spec_threshold(), j),
            decreases width - x,
        {
            let i = (x % GROUP_SIZE) as u64;
            let kind = if seed & (1u64 << i) != 0 {
                Self::get_drop_speed(seed.saturating_sub(i), self.threshold)
            } else {
                CellType::Empty
            };
            line.push(kind);
            x += 1;
        }
        line
    }

    /// Merges a fresh line of drops into the top row.
    pub fn new_drop(&self, rb: &mut RenderBuffer, seed: u64)
        requires
            self.valid(),
            old(rb).wf(),
        ensures
            final(rb).wf(),
            final(rb).order() == old(rb).order(),
            final(rb).spec_height() == old(rb).spec_height(),
            final(rb)@ == sown(old(rb)@, seed, self.spec_threshold()),
    {
        let width = rb.width();
        let ghost before = rb@;
        proof {
            rb.lemma_view_wf();
        }
        if rb.height() == 0 {
            assert(rb@ =~= sown(before, seed, self.spec_threshold()));
            return ;
        }
        let line = self.gen_drop(width, seed);
        let mut x: usize = 0;
        while x < width
            invariant
                rb.wf(),
                rb.order() == old(rb).order(),
                rb.spec_height() == old(rb).spec_height(),
                rb.spec_height() > 0,
                width == rb.spec_width(),
                before.len() == width,
                forall|j: int| 0 <= j < width ==> (#[trigger] before[j]).len() == rb.spec_height(),
                x <= width,
                line@.len() == width,
                forall|j: int|
                    0 <= j < width ==> line@[j] == spawned(seed, self.spec_threshold(), j),
                rb@.len() == width,
                forall|j: int|
                    0 <= j < x ==> rb@[j] == sown(before, seed, self.spec_threshold())[j],
                forall|j: int| x <= j < width ==> rb@[j] == before[j],
            decreases width - x,
        {
            rb.insert_at(x, 0, line[x]);
            x += 1;
        }
        assert(rb@ =~= sown(before, seed, self.spec_threshold()));
    }

    /// Hands the kinds of row `src` that fall in this frame to the row below.
    fn move_down(rb: &mut RenderBuffer, x: usize, src: usize, frame: u64, mode: Mode)
        requires
            old(rb).wf(),
            x < old(rb).spec_width(),
            src + 1 < old(rb).spec_height(),
        ensures
            final(rb).wf(),
            final(rb).order() == old(rb).order(),
            final(rb).spec_height() == old(rb).spec_height(),
            final(rb)@ == old(rb)@.update(
                x as int,
                stepped(old(rb)@[x as int], src as int, mode, frame),
            ),
    {
        let height = rb.height();
        let dest = src + 1;
        let ghost grid = rb@;
        let ghost source = grid[x as int][src as int];
        let ghost below = grid[x as int][dest as int];
        let ghost out = leaves(mode, frame);
        let ghost keep = stays(mode, frame);
        proof {
            rb.lemma_view_wf();
            assert(grid[x as int].len() == rb.spec_height());
            assert(well_formed(source));
            reveal(Seq::filter);
            assert(source.take(0).filter(out) =~= Seq::<CellType>::empty());
            assert(source.take(0).filter(keep) =~= Seq::<CellType>::empty());
            assert(rb@ =~~= with_cell(grid, x as int, dest as int, below));
        }
        let n = rb.cell(x, src).len();
        let mut stay = Cell::new();
        let mut i: usize = 0;
        while i < n
            invariant
                rb.wf(),
                rb.order() == old(rb).order(),
                rb.spec_height() == old(rb).spec_height(),
                x < rb.spec_width(),
                dest == src + 1,
                dest < rb.spec_height(),
                grid.len() == rb.spec_width(),
                grid[x as int].len() == rb.spec_height(),
                source == grid[x as int][src as int],
                below == grid[x as int][dest as int],
                out == leaves(mode, frame),
                keep == stays(mode, frame),
                well_formed(source),
                i <= n == source.len(),
                rb@ == with_cell(
                    grid,
                    x as int,
                    dest as int,
                    merged(below, source.take(i as int).filter(out)),
                ),
                stay@ == source.take(i as int).filter(keep),
                stay.wf(),
            decreases n - i,
        {
            let ghost head = source.take(i as int);
            let ghost prev = rb@;
            let k = rb.cell(x, src).get(i);
            proof {
                source.lemma_take_succ_push(i as int);
                head.lemma_filter_push(k, out);
                head.lemma_filter_push(k, keep);
                head.lemma_filter_len(keep);
                lemma_merged_push(below, head.filter(out), k);
            }
            if mode.is_moving(frame, k) {
                rb.insert_at(x, dest, k);
                assert(rb@ =~~= with_cell(
                    grid,
                    x as int,
                    dest as int,
                    merged(below, source.take(i + 1).filter(out)),
                ));
            } else {
                proof {
                    lemma_filter_well_formed(head, keep);
                    assert(!has_kind(head, k)) by {
                        if has_kind(head, k) {
                            let j = choose|j: int|
                                0 <= j < head.len() && (#[trigger] head[j]).same_kind(k);
                            assert(source[j].same_kind(source[i as int]));
                        }
                    }
                }
                stay.insert(k);
            }
            i += 1;
        }
        proof {
            source.lemma_take_len();
        }
        rb.set_cell(x, src, stay);
        assert(rb@ =~~= grid.update(x as int, stepped(grid[x as int], src as int, mode, frame)));
    }

    /// Lets column `x` fall by one frame: from the bottom up, each row hands
    /// the kinds that move in this frame to the row below.
    pub fn drop(rb: &mut RenderBuffer, x: usize, frame: u64, mode: Mode)
        requires
            old(rb).wf(),
            x < old(rb).spec_width(),
        ensures
            final(rb).wf(),
            final(rb).order() == old(rb).order(),
            final(rb).spec_height() == old(rb).spec_height(),
            final(rb)@ == old(rb)@.update(x as int, fallen(old(rb)@[x as int], mode, frame)),
    {
        let height = rb.height();
        let ghost grid = rb@;
        let ghost col = grid[x as int];
        proof {
            rb.lemma_view_wf();
            assert(col.len() == height);
        }
        if height < 2 {
            assert(col =~= fallen(col, mode, frame));
            assert(rb@ =~= grid.update(x as int, fallen(col, mode, frame)));
            return ;
        }
        let mut dest: usize = height - 1;
        while dest > 0
            invariant
                rb.wf(),
                rb.order() == old(rb).order(),
                rb.spec_height() == old(rb).spec_height(),
                height == rb.spec_height(),
                x < rb.spec_width(),
                grid.len() == rb.spec_width(),
                col == grid[x as int],
                col.len() == height,
                dest < height,
                rb@ == grid.update(x as int, rb@[x as int]),
                rb@[x as int].len() == height,
                forall|r: int| dest < r < height ==> rb@[x as int][r] == fallen_row(col, mode, frame, r),
                rb@[x as int][dest as int] == (if dest + 1 == height {
                    col[dest as int]
                } else {
                    col[dest as int].filter(stays(mode, frame))
                }),
                forall|r: int| 0 <= r < dest ==> rb@[x as int][r] == col[r],
            decreases dest,
        {
            Self::move_down(rb, x, dest - 1, frame, mode);
            assert(rb@ =~= grid.update(x as int, rb@[x as int]));
            dest -= 1;
        }
        assert(rb@[x as int] =~= fallen(col, mode, frame));
    }

    /// Empties the bottom cell of column `x`: what has reached it leaves the
    /// picture.
    pub fn clean_latest_drop(rb: &mut RenderBuffer, x: usize)
        requires
            old(rb).wf(),
            x < old(rb).spec_width(),
        ensures
            final(rb).wf(),
            final(rb).order() == old(rb).order(),
            final(rb).spec_height() == old(rb).spec_height(),
            final(rb)@ == old(rb)@.update(x as int, cleared_bottom(old(rb)@[x as int])),
    {
        let height = rb.height();
        proof {
            rb.lemma_view_wf();
        }
        if height > 0 {
            rb.clear_at(x, height - 1);
        } else {
            assert(rb@ =~= rb@.update(x as int, cleared_bottom(rb@[x as int])));
        }
    }
}

impl EachFrameImpl for DroppingState {
    open spec fn valid(&self) -> bool {
        self.spec_threshold() >= 1
    }

    open spec fn next_state(&self, grid: Grid, seed: u64, frame: u64) -> Self {
        *self
    }

    open spec fn next_grid(&self, grid: Grid, seed: u64, frame: u64) -> Grid {
        if self.spec_mode() is Disable {
            grid
        } else {
            rained(grid, seed, frame, self.spec_threshold(), self.spec_mode())
        }
    }

    open spec fn signal(&self, grid: Grid, seed: u64, frame: u64) -> ShouldRender {
        if self.spec_mode() is Disable {
            ShouldRender::Skip
        } else {
            ShouldRender::Render
        }
    }

    /// One frame of precipitation: every column loses its bottom row and
    /// falls, then new drops enter at the top. With the mode disabled nothing
    /// happens and nothing needs drawing.
    fn on_frame(&mut self, rb: &mut RenderBuffer, seed: u64, frame: u64) -> (sr: ShouldRender)
        ensures
            final(rb).order() == old(rb).order(),
    {
        if self.mode == Mode::Disable {
            return ShouldRender::Skip;
        }
        let width = rb.width();
        let ghost before = rb@;
        let mut x: usize = 0;
        while x < width
            invariant
                rb.wf(),
                rb.order() == old(rb).order(),
                rb.spec_height() == old(rb).spec_height(),
                width == rb.spec_width(),
                before.len() == width,
                x <= width,
                rb@.len() == width,
                forall|j: int| 0 <= j < x ==> rb@[j] == drained(before, self.mode, frame)[j],
                forall|j: int| x <= j < width ==> rb@[j] == before[j],
            decreases width - x,
        {
            Self::clean_latest_drop(rb, x);
            Self::drop(rb, x, frame, self.mode);
            x += 1;
        }
        assert(rb@ =~= drained(before, self.mode, frame));
        self.new_drop(rb, seed);
        ShouldRender::Render
    }
}

} // verus!
