//! The kinds a grid position can show, and the capped set of kinds that one
//! position holds.
//!
//! A cell is modelled as a `Seq<CellType>`: the kinds in the order in which
//! they arrived. The order only matters for picking the kind that is drawn.

use tinyvec::ArrayVec;
use vstd::prelude::*;

verus! {

/// How many kinds one cell can hold at once.
pub const CELL_CAPACITY: usize = 3;

/// What a grid position can show. `Normal` and `Tail` carry a tail length;
/// the length never takes part in deciding whether a kind is present.
#[derive(Copy, Clone, PartialEq, Eq, Structural, Debug, Default)]
pub enum CellType {
    Fast,
    Normal(u8),
    Slow,
    Tail(u8),
    /// Nothing here. Never stored in a cell.
    #[default]
    Empty,
}

impl CellType {
    /// The kind without its payload, as a number.
    pub open spec fn kind(self) -> int {
        match self {
            CellType::Fast => 0,
            CellType::Normal(_) => 1,
            CellType::Slow => 2,
            CellType::Tail(_) => 3,
            CellType::Empty => 4,
        }
    }

    /// Two values are of the same kind when they differ at most in payload.
    pub open spec fn same_kind(self, other: CellType) -> bool {
        self.kind() == other.kind()
    }

    /// One of the falling kinds: fast, normal or slow.
    pub open spec fn spec_is_dropping_cell(&self) -> bool {
        *self is Fast || *self is Normal || *self is Slow
    }

    /// The tail length a value carries; zero for the kinds without one.
    pub open spec fn spec_tail_len(&self) -> u8 {
        match *self {
            CellType::Normal(n) => n,
            CellType::Tail(n) => n,
            _ => 0,
        }
    }

    /// Whether two values are of the same kind, payload aside.
    pub fn is_same_kind(&self, other: CellType) -> (same: bool)
        ensures
            same == self.same_kind(other),
    {
        match (*self, other) {
            (CellType::Fast, CellType::Fast) => true,
            (CellType::Normal(_), CellType::Normal(_)) => true,
            (CellType::Slow, CellType::Slow) => true,
            (CellType::Tail(_), CellType::Tail(_)) => true,
            (CellType::Empty, CellType::Empty) => true,
            _ => false,
        }
    }

    /// Whether this is one of the falling kinds: fast, normal or slow.
    #[verifier::when_used_as_spec(spec_is_dropping_cell)]
    pub fn is_dropping_cell(&self) -> (dropping: bool)
        ensures
            dropping == self.spec_is_dropping_cell(),
    {
        match *self {
            CellType::Fast | CellType::Normal(_) | CellType::Slow => true,
            _ => false,
        }
    }

    /// The tail length a value carries; zero for the kinds without one.
    #[verifier::when_used_as_spec(spec_tail_len)]
    pub fn tail_len(&self) -> (len: u8)
        ensures
            len == self.spec_tail_len(),
    {
        match *self {
            CellType::Normal(n) => n,
            CellType::Tail(n) => n,
            _ => 0,
        }
    }
}

/// Some entry of `kinds` is of the same kind as `kind`.
pub open spec fn has_kind(kinds: Seq<CellType>, kind: CellType) -> bool {
    exists|i: int| 0 <= i < kinds.len() && (#[trigger] kinds[i]).same_kind(kind)
}

/// No two entries are of the same kind.
pub open spec fn distinct_kinds(kinds: Seq<CellType>) -> bool {
    forall|i: int, j: int|
        0 <= i < j < kinds.len() ==> !(#[trigger] kinds[i]).same_kind(#[trigger] kinds[j])
}

/// What every cell satisfies: at most three kinds, each at most once, and
/// `Empty` never among them.
pub open spec fn well_formed(kinds: Seq<CellType>) -> bool {
    &&& kinds.len() <= CELL_CAPACITY
    &&& distinct_kinds(kinds)
    &&& forall|i: int| 0 <= i < kinds.len() ==> !(#[trigger] kinds[i] is Empty)
}

/// The cell after `kind` was offered to it: appended when it is a real kind,
/// not yet present and there is room; otherwise the cell as it was.
pub open spec fn inserted(kinds: Seq<CellType>, kind: CellType) -> Seq<CellType> {
    if kind is Empty || has_kind(kinds, kind) || kinds.len() >= CELL_CAPACITY {
        kinds
    } else {
        kinds.push(kind)
    }
}

/// The predicate "is of another kind than `kind`".
pub open spec fn other_kind(kind: CellType) -> spec_fn(CellType) -> bool {
    |k: CellType| !k.same_kind(kind)
}

/// The cell with every entry of `kind`'s kind filtered out.
pub open spec fn removed(kinds: Seq<CellType>, kind: CellType) -> Seq<CellType> {
    kinds.filter(other_kind(kind))
}

/// The kind that is drawn for a cell: its first entry, `Empty` for none.
pub open spec fn first_or_none(kinds: Seq<CellType>) -> CellType {
    if kinds.len() == 0 {
        CellType::Empty
    } else {
        kinds[0]
    }
}

/// Filtering keeps a cell well formed, whatever the predicate.
pub proof fn lemma_filter_well_formed(kinds: Seq<CellType>, keep: spec_fn(CellType) -> bool)
    requires
        well_formed(kinds),
    ensures
        well_formed(kinds.filter(keep)),
        forall|kind: CellType| has_kind(kinds.filter(keep), kind) ==> has_kind(kinds, kind),
    decreases kinds.len(),
{
    reveal(Seq::filter);
    if kinds.len() > 0 {
        let front = kinds.drop_last();
        let last = kinds.last();
        lemma_filter_well_formed(front, keep);
        let kept = front.filter(keep);
        assert forall|kind: CellType| has_kind(front, kind) implies has_kind(kinds, kind) by {
            let i = choose|i: int| 0 <= i < front.len() && (#[trigger] front[i]).same_kind(kind);
            assert(kinds[i].same_kind(kind));
        }
        if keep(last) {
            let out = kept.push(last);
            assert(!has_kind(front, last)) by {
                if has_kind(front, last) {
                    let i = choose|i: int| 0 <= i < front.len() && (#[trigger] front[i]).same_kind(
                        last,
                    );
                    assert(kinds[i].same_kind(kinds[kinds.len() - 1]));
                }
            }
            assert forall|i: int, j: int| 0 <= i < j < out.len() implies !(#[trigger] out[i]).same_kind(
                #[trigger] out[j],
            ) by {
                if j == out.len() - 1 {
                    assert(kept[i].same_kind(last) ==> has_kind(kept, last));
                } else {
                    assert(!kept[i].same_kind(kept[j]));
                }
            }
            assert forall|kind: CellType| has_kind(out, kind) implies has_kind(kinds, kind) by {
                let i = choose|i: int| 0 <= i < out.len() && (#[trigger] out[i]).same_kind(kind);
                if i == out.len() - 1 {
                    assert(kinds[kinds.len() - 1].same_kind(kind));
                } else {
                    assert(kept[i].same_kind(kind));
                    assert(has_kind(kept, kind));
                }
            }
            assert(kept.len() <= front.len()) by {
                front.lemma_filter_len(keep);
            }
        }
    }
}

/// Offering a kind to a well-formed cell leaves it well formed: no kind is
/// ever held twice, whatever the payloads.
pub proof fn lemma_inserted_well_formed(kinds: Seq<CellType>, kind: CellType)
    requires
        well_formed(kinds),
    ensures
        well_formed(inserted(kinds, kind)),
{
    let out = inserted(kinds, kind);
    if out != kinds {
        assert forall|i: int, j: int| 0 <= i < j < out.len() implies !(#[trigger] out[i]).same_kind(
            #[trigger] out[j],
        ) by {
            if j == kinds.len() {
                assert(kinds[i].same_kind(kind) ==> has_kind(kinds, kind));
            } else {
                assert(!kinds[i].same_kind(kinds[j]));
            }
        }
    }
}

/// Removing a kind from a well-formed cell leaves it well formed and without
/// that kind, and keeps every other kind it held.
pub proof fn lemma_removed_well_formed(kinds: Seq<CellType>, kind: CellType)
    requires
        well_formed(kinds),
    ensures
        well_formed(removed(kinds, kind)),
        !has_kind(removed(kinds, kind), kind),
        forall|k: CellType|
            !k.same_kind(kind) ==> (has_kind(removed(kinds, kind), k) <==> has_kind(kinds, k)),
{
    let keep = other_kind(kind);
    let out = kinds.filter(keep);
    lemma_filter_well_formed(kinds, keep);
    broadcast use vstd::seq_lib::group_filter_ensures;

    if has_kind(out, kind) {
        let i = choose|i: int| 0 <= i < out.len() && (#[trigger] out[i]).same_kind(kind);
        assert(keep(out[i]));
    }
    assert forall|k: CellType| !k.same_kind(kind) && has_kind(kinds, k) implies has_kind(out, k) by {
        let i = choose|i: int| 0 <= i < kinds.len() && (#[trigger] kinds[i]).same_kind(k);
        assert(keep(kinds[i]));
        assert(out.contains(kinds[i]));
        let j = choose|j: int| 0 <= j < out.len() && out[j] == kinds[i];
        assert(out[j].same_kind(k));
    }
}

/// `tinyvec::ArrayVec`, taken as it is: of a value only that is known which
/// the functions below state of it.
#[verifier::external_type_specification]
#[verifier::external_body]
#[verifier::reject_recursive_types(A)]
pub struct ExArrayVec<A>(ArrayVec<A>);

/// The kinds that a store holds, the one pushed first at index 0.
pub uninterp spec fn kinds_of(store: ArrayVec<[CellType; 3]>) -> Seq<CellType>;

/// `ArrayVec::new`: a store that holds nothing.
#[verifier::external_body]
fn store_new() -> (store: ArrayVec<[CellType; 3]>)
    ensures
        kinds_of(store) == Seq::<CellType>::empty(),
{
    ArrayVec::new()
}

/// `ArrayVec::len`: the number of kinds held.
#[verifier::external_body]
fn store_len(store: &ArrayVec<[CellType; 3]>) -> (n: usize)
    ensures
        n == kinds_of(*store).len(),
{
    store.len()
}

/// Indexing an `ArrayVec` through its slice: the kind at position `i`.
/// Out of bounds it panics, so `i` must be below the length.
#[verifier::external_body]
fn store_get(store: &ArrayVec<[CellType; 3]>, i: usize) -> (kind: CellType)
    requires
        i < kinds_of(*store).len(),
    ensures
        kind == kinds_of(*store)[i as int],
{
    store[i]
}

/// `ArrayVec::try_push`: below three kinds the value goes to the end and
/// nothing comes back; at three the store stays as it is and the value is
/// handed back.
#[verifier::external_body]
fn store_try_push(store: &mut ArrayVec<[CellType; 3]>, kind: CellType) -> (back: Option<CellType>)
    ensures
        kinds_of(*old(store)).len() < 3 ==> back.is_none() && kinds_of(*final(store)) == kinds_of(
            *old(store),
        ).push(kind),
        kinds_of(*old(store)).len() >= 3 ==> back == Some(kind) && kinds_of(*final(store))
            == kinds_of(*old(store)),
{
    store.try_push(kind)
}

/// `ArrayVec::clear`: nothing is left.
#[verifier::external_body]
fn store_clear(store: &mut ArrayVec<[CellType; 3]>)
    ensures
        kinds_of(*final(store)) == Seq::<CellType>::empty(),
{
    store.clear()
}

/// The kinds active at one grid position.
pub struct Cell {
    store: ArrayVec<[CellType; 3]>,
}

impl Cell {
    /// The kinds held, oldest first.
    pub closed spec fn view(&self) -> Seq<CellType> {
        kinds_of(self.store)
    }

    /// The cell holds at most three kinds, none twice and none `Empty`.
    pub open spec fn wf(&self) -> bool {
        well_formed(self@)
    }

    /// A cell that holds nothing.
    pub fn new() -> (cell: Cell)
        ensures
            cell@ == Seq::<CellType>::empty(),
            cell.wf(),
    {
        Cell { store: store_new() }
    }

    /// The number of kinds held.
    pub fn len(&self) -> (n: usize)
        ensures
            n == self@.len(),
    {
        store_len(&self.store)
    }

    pub fn is_empty(&self) -> (empty: bool)
        ensures
            empty == (self@.len() == 0),
    {
        store_len(&self.store) == 0
    }

    /// The kind at position `i`.
    pub fn get(&self, i: usize) -> (kind: CellType)
        requires
            i < self@.len(),
        ensures
            kind == self@[i as int],
    {
        store_get(&self.store, i)
    }

    /// The kinds held, oldest first, as a vector.
    pub fn to_vec(&self) -> (kinds: Vec<CellType>)
        ensures
            kinds@ == self@,
    {
        let n = self.len();
        let mut kinds: Vec<CellType> = Vec::with_capacity(n);
        let mut i: usize = 0;
        while i < n
            invariant
                i <= n == self@.len(),
                kinds@ == self@.take(i as int),
            decreases n - i,
        {
            proof {
                self@.lemma_take_succ_push(i as int);
            }
            kinds.push(self.get(i));
            i += 1;
        }
        proof {
            self@.lemma_take_len();
        }
        kinds
    }

    /// Whether the cell holds `kind`, payload aside.
    pub fn contains(&self, kind: CellType) -> (found: bool)
        ensures
            found == has_kind(self@, kind),
    {
        let n = self.len();
        let mut i: usize = 0;
        while i < n
            invariant
                i <= n == self@.len(),
                forall|j: int| 0 <= j < i ==> !(#[trigger] self@[j]).same_kind(kind),
            decreases n - i,
        {
            if self.get(i).is_same_kind(kind) {
                return true;
            }
            i += 1;
        }
        false
    }

    /// Adds `kind` unless it is `Empty`, already present, or the cell is full.
    pub fn insert(&mut self, kind: CellType)
        requires
            old(self).wf(),
        ensures
            final(self)@ == inserted(old(self)@, kind),
            final(self).wf(),
    {
        proof {
            lemma_inserted_well_formed(self@, kind);
        }
        if kind.is_same_kind(CellType::Empty) || self.contains(kind) {
            return ;
        }
        let _ = store_try_push(&mut self.store, kind);
    }

    /// Filters out the entry of `kind`'s kind, if there is one.
    pub fn remove(&mut self, kind: CellType)
        requires
            old(self).wf(),
        ensures
            final(self)@ == removed(old(self)@, kind),
            final(self).wf(),
    {
        let ghost before = self@;
        let ghost keep = other_kind(kind);
        let n = self.len();
        let mut kept = store_new();
        let mut i: usize = 0;
        proof {
            reveal(Seq::filter);
        }
        while i < n
            invariant
                i <= n == before.len() <= 3,
                self@ == before,
                keep == other_kind(kind),
                kinds_of(kept) == before.take(i as int).filter(keep),
            decreases n - i,
        {
            let k = self.get(i);
            proof {
                before.lemma_take_succ_push(i as int);
                before.take(i as int).lemma_filter_push(k, keep);
                before.take(i as int).lemma_filter_len(keep);
            }
            if !k.is_same_kind(kind) {
                let _ = store_try_push(&mut kept, k);
            }
            i += 1;
        }
        proof {
            before.lemma_take_len();
            lemma_removed_well_formed(before, kind);
        }
        self.store = kept;
    }

    /// Drops every kind.
    pub fn clear(&mut self)
        ensures
            final(self)@ == Seq::<CellType>::empty(),
            final(self).wf(),
    {
        store_clear(&mut self.store)
    }

    /// The kind to draw: the first one held, `Empty` for an empty cell.
    pub fn first_or_none(&self) -> (kind: CellType)
        ensures
            kind == first_or_none(self@),
    {
        if self.len() == 0 {
            CellType::Empty
        } else {
            self.get(0)
        }
    }
}

} // verus!
