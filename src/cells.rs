//! Mathematical model of a planet's energy cells: one `bool` per cell, `true`
//! when the cell is charged.

use vstd::prelude::*;

verus! {

/// Number of charged cells in `cells`.
pub open spec fn charged_count(cells: Seq<bool>) -> nat
    decreases cells.len(),
{
    if cells.len() == 0 {
        0
    } else {
        charged_count(cells.drop_last()) + if cells.last() {
            1nat
        } else {
            0nat
        }
    }
}

/// `i` is the lowest index whose cell holds the charge state `charged`.
pub open spec fn is_first(cells: Seq<bool>, charged: bool, i: int) -> bool {
    &&& 0 <= i < cells.len()
    &&& cells[i] == charged
    &&& forall|j: int| 0 <= j < i ==> cells[j] != charged
}

/// Some cell holds the charge state `charged`.
pub open spec fn has_cell(cells: Seq<bool>, charged: bool) -> bool {
    exists|i: int| 0 <= i < cells.len() && cells[i] == charged
}

} // verus!

verus! {

/// The lowest index whose cell holds the charge state `charged` (meaningful
/// when `has_cell(cells, charged)`).
pub open spec fn first_index(cells: Seq<bool>, charged: bool) -> int {
    choose|i: int| is_first(cells, charged, i)
}

/// `cells` with its first cell in state `!charged` switched to `charged`.
pub open spec fn switch_first(cells: Seq<bool>, charged: bool) -> Seq<bool> {
    cells.update(first_index(cells, !charged), charged)
}

/// Only one index is the first of its kind.
pub proof fn lemma_first_unique(cells: Seq<bool>, charged: bool, i: int)
    requires
        is_first(cells, charged, i),
    ensures
        first_index(cells, charged) == i,
        has_cell(cells, charged),
{
    let j = first_index(cells, charged);
    assert(is_first(cells, charged, j));
    if j < i {
        assert(cells[j] != charged);
    } else if i < j {
        assert(cells[i] != charged);
    }
}

/// The charged count never exceeds the number of cells.
pub proof fn lemma_count_bound(cells: Seq<bool>)
    ensures
        charged_count(cells) <= cells.len(),
    decreases cells.len(),
{
    if cells.len() > 0 {
        lemma_count_bound(cells.drop_last());
    }
}

/// Setting one cell changes the charged count by what that cell gained or lost.
pub proof fn lemma_count_update(cells: Seq<bool>, i: int, charged: bool)
    requires
        0 <= i < cells.len(),
    ensures
        charged_count(cells.update(i, charged)) + (if cells[i] { 1int } else { 0int })
            == charged_count(cells) + (if charged { 1int } else { 0int }),
    decreases cells.len(),
{
    let u = cells.update(i, charged);
    if i == cells.len() - 1 {
        assert(u.drop_last() =~= cells.drop_last());
    } else {
        assert(u.drop_last() =~= cells.drop_last().update(i, charged));
        lemma_count_update(cells.drop_last(), i, charged);
    }
}

/// The charged count of a prefix grows by the next cell's charge.
pub proof fn lemma_count_prefix(cells: Seq<bool>, i: int)
    requires
        0 <= i < cells.len(),
    ensures
        charged_count(cells.take(i + 1)) == charged_count(cells.take(i)) + if cells[i] {
            1nat
        } else {
            0nat
        },
{
    assert(cells.take(i + 1).drop_last() =~= cells.take(i));
}

} // verus!
