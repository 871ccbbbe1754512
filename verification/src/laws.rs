//! Properties of the transforms as a whole.
//!
//! The central one is convergence: two concurrent edits `m1` and `m2`, once
//! transformed into `m1'` and `m2'`, lead to the same sheet whichever is
//! applied first (`m1` then `m2'`, or `m2` then `m1'`). For structural edits
//! this is stated on where every line of the sheet ends up.
use vstd::prelude::*;
use crate::sheet::{
    axis_end, axis_span, axis_start, index_removed, range_after_insert, range_after_remove,
    range_removed, shift_index_for_insert, shift_index_for_remove, spec_ranges_intersect,
    spec_same_sheet, Axis, Range,
};
use crate::mutation::{range_params_of, Mutation};
use crate::structural::{
    col_insert_vs_remove, col_remove_vs_insert, inserts_reconciled, row_insert_vs_remove,
    row_remove_vs_insert,
};
use crate::remove_col::col_removals_reconciled;
use crate::remove_rows::{remove_rows_composed, row_removals_reconciled, rows_left_to_remove};
use crate::insert_row::insert_rows_composed;
use crate::mutation::{cell_values_of, sheet_of, unchanged};
use crate::matrix::{
    key_removed, cols_after_insert, cols_after_remove, conflicts_nulled, entries_after_insert, entries_after_remove, has_cell, has_key, key_after_insert,
    key_after_remove, last_cells_for, null_text, row_has_cell, rows_written_over, Key, Row,
};
use crate::set_range_values::values_vs_values;
use crate::structural::{insert_vs_values, remove_vs_values, values_vs_insert, values_vs_remove};
use crate::service::{
    composed, core_id, insert_col_id, insert_row_id, list_composed, list_transformed, lookup,
    pass_through, passes, remove_col_id, Pass, remove_rows_id, set_range_values_id, transformed,
    CoreTransform,
};
use crate::sheet::{range_moved_back, span};

verus! {

// ---------------------------------------------------------------------------
// Where lines go
// ---------------------------------------------------------------------------
/// The lines a structural edit inserts or removes along `axis`.
pub open spec fn lines_of(m: Mutation) -> Range {
    range_params_of(m.params).range
}

/// The first line, the last line and the number of lines of a structural
/// edit, none of them at the very end of the `u32` range.
pub open spec fn well_formed_lines(m: Mutation, axis: Axis) -> bool {
    axis_start(lines_of(m), axis) <= axis_end(lines_of(m), axis) < u32::MAX
}

/// The number of lines a structural edit covers along `axis`.
pub open spec fn count(m: Mutation, axis: Axis) -> int {
    axis_end(lines_of(m), axis) - axis_start(lines_of(m), axis) + 1
}

/// Where line `i` goes when the insertion `m` (if any) is applied; a line
/// that is already gone stays gone.
pub open spec fn through_insert(m: Option<Mutation>, axis: Axis, i: Option<u32>) -> Option<u32> {
    match i {
        None => None,
        Some(j) => match m {
            Some(ins) => Some(shift_index_for_insert(j, axis_start(lines_of(ins), axis), axis_span(lines_of(ins), axis))),
            None => Some(j),
        },
    }
}

/// Where line `i` goes when the removal `m` (if any) is applied: gone when it
/// is one of the removed lines.
pub open spec fn through_remove(m: Option<Mutation>, axis: Axis, i: Option<u32>) -> Option<u32> {
    match i {
        None => None,
        Some(j) => match m {
            Some(rem) => {
                let rs = axis_start(lines_of(rem), axis);
                let re = axis_end(lines_of(rem), axis);
                if index_removed(j, rs, re) {
                    None
                } else {
                    Some(shift_index_for_remove(j, rs, re))
                }
            },
            None => Some(j),
        },
    }
}

// ---------------------------------------------------------------------------
// Removing what was inserted
// ---------------------------------------------------------------------------
/// Removing the lines just inserted gives every line back its place.
pub proof fn law_remove_undoes_insert(i: u32, start: u32, count: u32)
    requires
        count >= 1,
        i as int + count <= u32::MAX,
        start as int + count <= u32::MAX,
    ensures
        !index_removed(shift_index_for_insert(i, start, count), start, (start + count - 1) as u32),
        shift_index_for_remove(shift_index_for_insert(i, start, count), start, (start + count - 1) as u32) == i,
{
}

/// Removing the lines just inserted gives a range back its bounds: an
/// insertion inside the range widens it, and the removal narrows it again.
pub proof fn law_range_remove_undoes_insert(r: Range, axis: Axis, start: u32, count: u32)
    requires
        count >= 1,
        axis_start(r, axis) <= axis_end(r, axis),
        axis_end(r, axis) as int + count <= u32::MAX,
        start as int + count <= u32::MAX,
    ensures
        !range_removed(range_after_insert(r, axis, start, count), axis, start, (start + count - 1) as u32),
        range_after_remove(range_after_insert(r, axis, start, count), axis, start, (start + count - 1) as u32) == r,
{
}

// ---------------------------------------------------------------------------
// Symmetric predicates
// ---------------------------------------------------------------------------
/// Two ranges overlap the one way round exactly when they do the other.
pub proof fn law_ranges_intersect_symmetric(a: Range, b: Range)
    ensures
        spec_ranges_intersect(a, b) == spec_ranges_intersect(b, a),
{
}

/// Being on the same sheet is symmetric.
pub proof fn law_same_sheet_symmetric(a: crate::sheet::SheetId, b: crate::sheet::SheetId)
    ensures
        spec_same_sheet(a, b) == spec_same_sheet(b, a),
{
}

// ---------------------------------------------------------------------------
// Convergence of structural edits
// ---------------------------------------------------------------------------
/// Two concurrent insertions along the same axis of one sheet converge: each
/// line ends up in the same place whichever insertion is applied first, with
/// the other one transformed (for either way of breaking ties).
pub proof fn law_inserts_converge(m1: Mutation, m2: Mutation, axis: Axis, ties_move_second: bool, i: u32)
    requires
        spec_same_sheet(range_params_of(m1.params).sheet, range_params_of(m2.params).sheet),
        well_formed_lines(m1, axis),
        well_formed_lines(m2, axis),
        i + count(m1, axis) + count(m2, axis) <= u32::MAX,
        axis_start(lines_of(m1), axis) + count(m1, axis) + count(m2, axis) <= u32::MAX,
        axis_start(lines_of(m2), axis) + count(m1, axis) + count(m2, axis) <= u32::MAX,
    ensures
        ({
            let o = inserts_reconciled(m1, m2, axis, ties_move_second);
            &&& o.error is None
            &&& o.m1_prime is Some && o.m2_prime is Some
            &&& through_insert(o.m2_prime, axis, through_insert(Some(m1), axis, Some(i)))
                == through_insert(o.m1_prime, axis, through_insert(Some(m2), axis, Some(i)))
        }),
{
}

/// Rows inserted (`m1`) and rows removed (`m2`) concurrently on one sheet
/// converge: every row is gone, or ends up in the same place, whichever edit
/// is applied first.
pub proof fn law_row_insert_and_remove_converge(m1: Mutation, m2: Mutation, i: u32)
    requires
        spec_same_sheet(range_params_of(m1.params).sheet, range_params_of(m2.params).sheet),
        well_formed_lines(m1, Axis::Rows),
        well_formed_lines(m2, Axis::Rows),
        i + count(m1, Axis::Rows) <= u32::MAX,
        axis_end(lines_of(m2), Axis::Rows) + count(m1, Axis::Rows) < u32::MAX,
    ensures
        ({
            let o = row_insert_vs_remove(m1, m2);
            &&& o.error is None
            &&& through_remove(o.m2_prime, Axis::Rows, through_insert(Some(m1), Axis::Rows, Some(i)))
                == through_insert(o.m1_prime, Axis::Rows, through_remove(Some(m2), Axis::Rows, Some(i)))
        }),
{
}

/// Rows removed (`m1`) and rows inserted (`m2`) concurrently on one sheet
/// converge.
pub proof fn law_row_remove_and_insert_converge(m1: Mutation, m2: Mutation, i: u32)
    requires
        spec_same_sheet(range_params_of(m1.params).sheet, range_params_of(m2.params).sheet),
        well_formed_lines(m1, Axis::Rows),
        well_formed_lines(m2, Axis::Rows),
        i + count(m2, Axis::Rows) <= u32::MAX,
        axis_end(lines_of(m1), Axis::Rows) + count(m2, Axis::Rows) < u32::MAX,
    ensures
        ({
            let o = row_remove_vs_insert(m1, m2);
            &&& o.error is None
            &&& through_insert(o.m2_prime, Axis::Rows, through_remove(Some(m1), Axis::Rows, Some(i)))
                == through_remove(o.m1_prime, Axis::Rows, through_insert(Some(m2), Axis::Rows, Some(i)))
        }),
{
}

/// Columns inserted (`m1`) and removed (`m2`) concurrently on one sheet
/// converge whenever they are not refused.
pub proof fn law_col_insert_and_remove_converge(m1: Mutation, m2: Mutation, i: u32)
    requires
        spec_same_sheet(range_params_of(m1.params).sheet, range_params_of(m2.params).sheet),
        well_formed_lines(m1, Axis::Columns),
        well_formed_lines(m2, Axis::Columns),
        i + count(m1, Axis::Columns) <= u32::MAX,
        axis_end(lines_of(m2), Axis::Columns) + count(m1, Axis::Columns) < u32::MAX,
        col_insert_vs_remove(m1, m2).error is None,
    ensures
        ({
            let o = col_insert_vs_remove(m1, m2);
            through_remove(o.m2_prime, Axis::Columns, through_insert(Some(m1), Axis::Columns, Some(i)))
                == through_insert(o.m1_prime, Axis::Columns, through_remove(Some(m2), Axis::Columns, Some(i)))
        }),
{
}

/// Columns removed (`m1`) and inserted (`m2`) concurrently on one sheet
/// converge whenever they are not refused.
pub proof fn law_col_remove_and_insert_converge(m1: Mutation, m2: Mutation, i: u32)
    requires
        spec_same_sheet(range_params_of(m1.params).sheet, range_params_of(m2.params).sheet),
        well_formed_lines(m1, Axis::Columns),
        well_formed_lines(m2, Axis::Columns),
        i + count(m2, Axis::Columns) <= u32::MAX,
        axis_end(lines_of(m1), Axis::Columns) + count(m2, Axis::Columns) < u32::MAX,
        col_remove_vs_insert(m1, m2).error is None,
    ensures
        ({
            let o = col_remove_vs_insert(m1, m2);
            through_insert(o.m2_prime, Axis::Columns, through_remove(Some(m1), Axis::Columns, Some(i)))
                == through_remove(o.m1_prime, Axis::Columns, through_insert(Some(m2), Axis::Columns, Some(i)))
        }),
{
}

/// Two concurrent row removals on one sheet converge: every row is gone, or
/// ends up in the same place, whichever removal is applied first.
pub proof fn law_row_removals_converge(m1: Mutation, m2: Mutation, i: u32)
    requires
        spec_same_sheet(range_params_of(m1.params).sheet, range_params_of(m2.params).sheet),
        well_formed_lines(m1, Axis::Rows),
        well_formed_lines(m2, Axis::Rows),
    ensures
        ({
            let o = row_removals_reconciled(m1, m2);
            &&& o.error is None
            &&& through_remove(o.m2_prime, Axis::Rows, through_remove(Some(m1), Axis::Rows, Some(i)))
                == through_remove(o.m1_prime, Axis::Rows, through_remove(Some(m2), Axis::Rows, Some(i)))
        }),
{
    let r1 = lines_of(m1);
    let r2 = lines_of(m2);
    lemma_removed_rows_converge(r1, r2, i);
    let o = row_removals_reconciled(m1, m2);
    match rows_left_to_remove(r1, r2) {
        Some(r) => assert(lines_of(o.m1_prime->0) == r),
        None => assert(o.m1_prime is None),
    }
    match rows_left_to_remove(r2, r1) {
        Some(r) => assert(lines_of(o.m2_prime->0) == r),
        None => assert(o.m2_prime is None),
    }
}

/// Where row `i` goes when the rows of `r` (if any) are removed.
pub open spec fn through_rows_removed(r: Option<Range>, i: Option<u32>) -> Option<u32> {
    match i {
        None => None,
        Some(j) => match r {
            Some(x) => if index_removed(j, x.start_row, x.end_row) {
                None
            } else {
                Some(shift_index_for_remove(j, x.start_row, x.end_row))
            },
            None => Some(j),
        },
    }
}

#[verifier::spinoff_prover]
#[verifier::rlimit(50)]
proof fn lemma_removed_rows_converge(r1: Range, r2: Range, i: u32)
    requires
        r1.start_row <= r1.end_row < u32::MAX,
        r2.start_row <= r2.end_row < u32::MAX,
    ensures
        through_rows_removed(rows_left_to_remove(r2, r1), through_rows_removed(Some(r1), Some(i)))
            == through_rows_removed(rows_left_to_remove(r1, r2), through_rows_removed(Some(r2), Some(i))),
{
    let s1 = r1.start_row;
    let e1 = r1.end_row;
    let s2 = r2.start_row;
    let e2 = r2.end_row;
    if e2 < s1 {
        assert(rows_left_to_remove(r1, r2) == Some(range_moved_back(r1, Axis::Rows, span(s2, e2))));
        assert(rows_left_to_remove(r2, r1) == Some(r2));
    } else if e1 < s2 {
        assert(rows_left_to_remove(r2, r1) == Some(range_moved_back(r2, Axis::Rows, span(s1, e1))));
        assert(rows_left_to_remove(r1, r2) == Some(r1));
    } else if s2 <= s1 && e1 <= e2 {
        assert(rows_left_to_remove(r1, r2) is None);
    } else if s1 <= s2 && e2 <= e1 {
        assert(rows_left_to_remove(r2, r1) is None);
    } else if s1 < s2 {
        // r1 starts first, r2 ends last
        assert(s1 < s2 <= e1 < e2);
    } else {
        assert(s2 < s1 <= e2 < e1);
    }
}

/// Two concurrent column removals on one sheet converge whenever they are not
/// refused (they are refused exactly when they overlap).
pub proof fn law_col_removals_converge(m1: Mutation, m2: Mutation, i: u32)
    requires
        spec_same_sheet(range_params_of(m1.params).sheet, range_params_of(m2.params).sheet),
        well_formed_lines(m1, Axis::Columns),
        well_formed_lines(m2, Axis::Columns),
        col_removals_reconciled(m1, m2).error is None,
    ensures
        ({
            let o = col_removals_reconciled(m1, m2);
            through_remove(o.m2_prime, Axis::Columns, through_remove(Some(m1), Axis::Columns, Some(i)))
                == through_remove(o.m1_prime, Axis::Columns, through_remove(Some(m2), Axis::Columns, Some(i)))
        }),
{
}

// ---------------------------------------------------------------------------
// Composition
// ---------------------------------------------------------------------------
/// Two consecutive row insertions that merge act as the first followed by
/// the second: every row ends up where the two would have put it.
pub proof fn law_composed_row_inserts_act_as_both(m1: Mutation, m2: Mutation, i: u32)
    requires
        spec_same_sheet(range_params_of(m1.params).sheet, range_params_of(m2.params).sheet),
        well_formed_lines(m1, Axis::Rows),
        well_formed_lines(m2, Axis::Rows),
        lines_of(m1).start_row <= lines_of(m2).start_row <= lines_of(m1).start_row + count(m1, Axis::Rows),
        i + count(m1, Axis::Rows) + count(m2, Axis::Rows) <= u32::MAX,
        lines_of(m1).start_row + count(m1, Axis::Rows) + count(m2, Axis::Rows) <= u32::MAX,
    ensures
        ({
            let c = insert_rows_composed(m1, m2);
            &&& c.len() == 1
            &&& through_insert(Some(c[0]), Axis::Rows, Some(i))
                == through_insert(Some(m2), Axis::Rows, through_insert(Some(m1), Axis::Rows, Some(i)))
        }),
{
}

/// Two consecutive row removals that merge act as the first followed by the
/// second: every row is gone, or ends up where the two would have put it.
pub proof fn law_composed_row_removals_act_as_both(m1: Mutation, m2: Mutation, i: u32)
    requires
        well_formed_lines(m1, Axis::Rows),
        well_formed_lines(m2, Axis::Rows),
        lines_of(m2).end_row + count(m1, Axis::Rows) < u32::MAX,
        remove_rows_composed(m1, m2).len() == 1,
    ensures
        through_remove(Some(remove_rows_composed(m1, m2)[0]), Axis::Rows, Some(i))
            == through_remove(Some(m2), Axis::Rows, through_remove(Some(m1), Axis::Rows, Some(i))),
{
}

/// Merging a list of consecutive mutations never makes it longer.
pub proof fn law_compose_list_never_grows(reg: Seq<CoreTransform>, list: Seq<Mutation>)
    ensures
        list_composed(reg, list).len() <= list.len(),
    decreases list.len(),
{
    if list.len() > 0 {
        law_compose_list_never_grows(reg, list.drop_last());
        let prev = list_composed(reg, list.drop_last());
        if prev.len() > 0 {
            lemma_composed_has_one_or_two(reg, prev.last(), list.last());
        }
    }
}

/// Two consecutive mutations merge into one or stay two.
pub proof fn lemma_composed_has_one_or_two(reg: Seq<CoreTransform>, m1: Mutation, m2: Mutation)
    ensures
        composed(reg, m1, m2).len() == 1 || composed(reg, m1, m2) == seq![m1, m2],
{
}

/// Mutations with different ids are never merged.
pub proof fn law_different_ids_never_merge(reg: Seq<CoreTransform>, m1: Mutation, m2: Mutation)
    requires
        m1.id != m2.id,
    ensures
        composed(reg, m1, m2) == seq![m1, m2],
{
}

// ---------------------------------------------------------------------------
// Lists of concurrent mutations
// ---------------------------------------------------------------------------
/// Passing a mutation through a list never lengthens the list.
pub proof fn lemma_pass_never_grows(reg: Seq<CoreTransform>, m1s: Seq<Mutation>, m2: Option<Mutation>)
    ensures
        pass_through(reg, m1s, m2).list.len() <= m1s.len(),
    decreases m1s.len(),
{
    if m1s.len() > 0 {
        lemma_pass_never_grows(reg, m1s.drop_last(), m2);
    }
}

/// Transforming two lists against each other never lengthens either list.
pub proof fn law_transform_list_never_grows(reg: Seq<CoreTransform>, m1s: Seq<Mutation>, m2s: Seq<Mutation>)
    ensures
        list_transformed(reg, m1s, m2s).m1_primes.len() <= m1s.len(),
        list_transformed(reg, m1s, m2s).m2_primes.len() <= m2s.len(),
{
    if m1s.len() > 0 {
        lemma_passes_never_grow(reg, m1s, m2s);
    }
}

proof fn lemma_passes_never_grow(reg: Seq<CoreTransform>, m1s: Seq<Mutation>, m2s: Seq<Mutation>)
    ensures
        passes(reg, m1s, m2s).m1_primes.len() <= m1s.len(),
        passes(reg, m1s, m2s).m2_primes.len() <= m2s.len(),
    decreases m2s.len(),
{
    if m2s.len() > 0 {
        lemma_passes_never_grow(reg, m1s, m2s.drop_last());
        let prev = passes(reg, m1s, m2s.drop_last());
        lemma_pass_never_grows(reg, prev.m1_primes, Some(m2s.last()));
    }
}

/// With nothing concurrent, a list is left as it is.
pub proof fn law_transform_list_against_nothing(reg: Seq<CoreTransform>, m1s: Seq<Mutation>)
    ensures
        list_transformed(reg, m1s, Seq::empty()).m1_primes == m1s,
        list_transformed(reg, m1s, Seq::empty()).m2_primes == Seq::<Mutation>::empty(),
        list_transformed(reg, m1s, Seq::empty()).error is None,
{
}

/// A mutation whose id has no registered transform is never changed, and
/// neither is the mutation it is transformed against.
pub proof fn law_unregistered_ids_pass_unchanged(reg: Seq<CoreTransform>, m1: Mutation, m2: Mutation)
    requires
        lookup(reg, m1.id) is None,
    ensures
        transformed(reg, m1, m2) == unchanged(m1, m2),
{
}

// ---------------------------------------------------------------------------
// Concurrent cell values
// ---------------------------------------------------------------------------
/// The value the last of `cells` with key `c` holds, if any.
pub open spec fn last_value(cells: Seq<(Key, Seq<char>)>, c: Key) -> Option<Seq<char>>
    decreases cells.len(),
{
    if cells.len() == 0 {
        None
    } else if cells.last().0 == c {
        Some(cells.last().1)
    } else {
        last_value(cells.drop_last(), c)
    }
}

/// The value a setting of cell values writes into cell (`r`, `c`), if any: the
/// last row with key `r`, and in it the last cell with key `c`, as when the
/// setting is read as a map of maps.
pub open spec fn written_value(rows: Seq<(Key, Row)>, r: Key, c: Key) -> Option<Seq<char>> {
    last_value(last_cells_for(rows, r), c)
}

/// A cell's value after a setting of cell values is applied; an emptied
/// (`null`) value leaves the cell as it was.
pub open spec fn cell_after(before: Option<Seq<char>>, rows: Seq<(Key, Row)>, r: Key, c: Key) -> Option<Seq<char>> {
    match written_value(rows, r, c) {
        Some(v) => if v == null_text() {
            before
        } else {
            Some(v)
        },
        None => before,
    }
}

/// No two rows have the same key, as in a map.
pub open spec fn distinct_row_keys(rows: Seq<(Key, Row)>) -> bool {
    forall|i: int, j: int| 0 <= i < j < rows.len() ==> #[trigger] rows[i].0 != #[trigger] rows[j].0
}

/// The cells of a row with each cell that `other` also sets emptied.
pub open spec fn cells_nulled_by(cells: Seq<(Key, Seq<char>)>, other: Seq<(Key, Row)>, r: Key) -> Seq<(Key, Seq<char>)> {
    Seq::new(
        cells.len(),
        |j: int|
            (cells[j].0, if has_cell(other, r, cells[j].0) {
                null_text()
            } else {
                cells[j].1
            }),
    )
}

proof fn lemma_last_cells_of_nulled(a: Seq<(Key, Row)>, b: Seq<(Key, Row)>, r: Key)
    ensures
        last_cells_for(conflicts_nulled(a, b), r) == cells_nulled_by(last_cells_for(a, r), b, r),
    decreases a.len(),
{
    if a.len() > 0 {
        assert(conflicts_nulled(a, b).drop_last() =~= conflicts_nulled(a.drop_last(), b));
        lemma_last_cells_of_nulled(a.drop_last(), b, r);
        if a.last().0 == r {
            match a.last().1 {
                Row::Cells(c) => {
                    assert(last_cells_for(conflicts_nulled(a, b), r) =~= cells_nulled_by(c, b, r));
                },
                Row::Other(_) => {
                    assert(cells_nulled_by(Seq::empty(), b, r) =~= Seq::<(Key, Seq<char>)>::empty());
                },
            }
        }
    } else {
        assert(cells_nulled_by(Seq::empty(), b, r) =~= Seq::<(Key, Seq<char>)>::empty());
    }
}

proof fn lemma_last_value_of_nulled(cells: Seq<(Key, Seq<char>)>, b: Seq<(Key, Row)>, r: Key, c: Key)
    ensures
        last_value(cells_nulled_by(cells, b, r), c) == match last_value(cells, c) {
            Some(v) => Some(if has_cell(b, r, c) { null_text() } else { v }),
            None => None,
        },
    decreases cells.len(),
{
    if cells.len() > 0 {
        assert(cells_nulled_by(cells, b, r).drop_last() =~= cells_nulled_by(cells.drop_last(), b, r));
        lemma_last_value_of_nulled(cells.drop_last(), b, r, c);
    }
}

proof fn lemma_has_key_iff_value(cells: Seq<(Key, Seq<char>)>, c: Key)
    ensures
        has_key(cells, c) <==> last_value(cells, c) is Some,
    decreases cells.len(),
{
    if cells.len() > 0 {
        lemma_has_key_iff_value(cells.drop_last(), c);
        if has_key(cells, c) && cells.last().0 != c {
            let j = choose|j: int| #![trigger cells[j]] 0 <= j < cells.len() && cells[j].0 == c;
            assert(cells.drop_last()[j] == cells[j]);
        }
        if has_key(cells.drop_last(), c) {
            let j = choose|j: int| #![trigger cells.drop_last()[j]] 0 <= j < cells.drop_last().len() && cells.drop_last()[j].0 == c;
            assert(cells[j] == cells.drop_last()[j]);
        }
        if cells.last().0 == c {
            assert(cells[cells.len() - 1] == cells.last());
        }
    }
}

proof fn lemma_has_cell_iff_written(b: Seq<(Key, Row)>, r: Key, c: Key)
    requires
        distinct_row_keys(b),
    ensures
        has_cell(b, r, c) <==> written_value(b, r, c) is Some,
    decreases b.len(),
{
    if b.len() > 0 {
        let prev = b.drop_last();
        assert(distinct_row_keys(prev)) by {
            assert forall|i: int, j: int| 0 <= i < j < prev.len() implies #[trigger] prev[i].0 != #[trigger] prev[j].0 by {
                assert(prev[i] == b[i] && prev[j] == b[j]);
            }
        }
        lemma_has_cell_iff_written(prev, r, c);
        let n = b.len() - 1;
        assert(b[n] == b.last());
        if b.last().0 == r {
            match b.last().1 {
                Row::Cells(cells) => lemma_has_key_iff_value(cells, c),
                Row::Other(_) => {},
            }
            if has_cell(b, r, c) {
                let i = choose|i: int| #![trigger b[i]] 0 <= i < b.len() && b[i].0 == r && row_has_cell(b[i].1, c);
                if i < n {
                    assert(b[i].0 != b[n].0);
                }
            }
            if written_value(b, r, c) is Some {
                assert(row_has_cell(b[n].1, c));
            }
        } else {
            if has_cell(b, r, c) {
                let i = choose|i: int| #![trigger b[i]] 0 <= i < b.len() && b[i].0 == r && row_has_cell(b[i].1, c);
                assert(i < n);
                assert(prev[i] == b[i]);
            }
            if has_cell(prev, r, c) {
                let i = choose|i: int| #![trigger prev[i]] 0 <= i < prev.len() && prev[i].0 == r && row_has_cell(prev[i].1, c);
                assert(b[i] == prev[i]);
            }
        }
    }
}

/// Two concurrent settings of cell values on one sheet converge: a cell ends
/// up with the same value whichever setting is applied first, the other one
/// transformed. The setting accepted first (`m2`) wins the cells both set.
/// (`m2` must not itself write an emptied value into the cell, and as a map
/// it has one row per key.)
pub proof fn law_concurrent_values_converge(m1: Mutation, m2: Mutation, before: Option<Seq<char>>, r: Key, c: Key)
    requires
        spec_same_sheet(cell_values_of(m1.params).sheet, cell_values_of(m2.params).sheet),
        cell_values_of(m1.params).cell_value is Some,
        cell_values_of(m2.params).cell_value is Some,
        distinct_row_keys(cell_values_of(m2.params).cell_value->0),
        written_value(cell_values_of(m2.params).cell_value->0, r, c) != Some(null_text()),
    ensures
        ({
            let o = values_vs_values(m1, m2);
            let a = cell_values_of(m1.params).cell_value->0;
            let b = cell_values_of(m2.params).cell_value->0;
            &&& o.error is None
            &&& o.m2_prime == Some(m2)
            &&& o.m1_prime is Some
            &&& cell_values_of(o.m1_prime->0.params).cell_value is Some
            &&& cell_after(cell_after(before, a, r, c), b, r, c)
                == cell_after(cell_after(before, b, r, c), cell_values_of(o.m1_prime->0.params).cell_value->0, r, c)
            &&& written_value(b, r, c) is Some ==> cell_after(cell_after(before, a, r, c), b, r, c) == written_value(b, r, c)
        }),
{
    let a = cell_values_of(m1.params).cell_value->0;
    let b = cell_values_of(m2.params).cell_value->0;
    lemma_last_cells_of_nulled(a, b, r);
    lemma_last_value_of_nulled(last_cells_for(a, r), b, r, c);
    lemma_has_cell_iff_written(b, r, c);
    assert(cell_values_of(values_vs_values(m1, m2).m1_prime->0.params).cell_value->0 == conflicts_nulled(a, b));
}

/// Every row of a setting is a map of cells.
pub open spec fn all_cell_rows(rows: Seq<(Key, Row)>) -> bool {
    forall|i: int| 0 <= i < rows.len() ==> (#[trigger] rows[i]).1 is Cells
}

proof fn lemma_last_value_concat(x: Seq<(Key, Seq<char>)>, y: Seq<(Key, Seq<char>)>, c: Key)
    ensures
        last_value(x + y, c) == match last_value(y, c) {
            Some(v) => Some(v),
            None => last_value(x, c),
        },
    decreases y.len(),
{
    if y.len() == 0 {
        assert(x + y =~= x);
    } else {
        assert((x + y).drop_last() =~= x + y.drop_last());
        assert((x + y).last() == y.last());
        lemma_last_value_concat(x, y.drop_last(), c);
    }
}

proof fn lemma_no_row_no_cells(b: Seq<(Key, Row)>, r: Key)
    requires
        forall|i: int| 0 <= i < b.len() ==> (#[trigger] b[i]).0 != r,
    ensures
        last_cells_for(b, r) == Seq::<(Key, Seq<char>)>::empty(),
    decreases b.len(),
{
    if b.len() > 0 {
        assert(b[b.len() - 1] == b.last());
        assert forall|i: int| 0 <= i < b.drop_last().len() implies (#[trigger] b.drop_last()[i]).0 != r by {
            assert(b.drop_last()[i] == b[i]);
        }
        lemma_no_row_no_cells(b.drop_last(), r);
    }
}

/// Two consecutive settings of cell values, merged, write into each cell what
/// the later one writes there, and otherwise what the earlier one writes (the
/// later one read as a map of cell maps).
pub proof fn law_composed_values_later_wins(a: Seq<(Key, Row)>, b: Seq<(Key, Row)>, r: Key, c: Key)
    requires
        distinct_row_keys(b),
        all_cell_rows(b),
    ensures
        written_value(rows_written_over(a, b), r, c) == match written_value(b, r, c) {
            Some(v) => Some(v),
            None => written_value(a, r, c),
        },
    decreases b.len(),
{
    if b.len() > 0 {
        let prev_b = b.drop_last();
        let n = b.len() - 1;
        assert(b[n] == b.last());
        assert(distinct_row_keys(prev_b)) by {
            assert forall|i: int, j: int| 0 <= i < j < prev_b.len() implies #[trigger] prev_b[i].0 != #[trigger] prev_b[j].0 by {
                assert(prev_b[i] == b[i] && prev_b[j] == b[j]);
            }
        }
        assert(all_cell_rows(prev_b)) by {
            assert forall|i: int| 0 <= i < prev_b.len() implies (#[trigger] prev_b[i]).1 is Cells by {
                assert(prev_b[i] == b[i]);
            }
        }
        law_composed_values_later_wins(a, prev_b, r, c);
        let prev = rows_written_over(a, prev_b);
        assert(b.last().1 is Cells);
        let cells = b.last().1->Cells_0;
        let k = b.last().0;
        let res = rows_written_over(a, b);
        assert(res == prev.push((k, Row::Cells(last_cells_for(prev, k) + cells))));
        assert(res.drop_last() =~= prev);
        if k == r {
            assert(last_cells_for(res, r) == last_cells_for(prev, r) + cells);
            assert(last_cells_for(b, r) == cells);
            lemma_last_value_concat(last_cells_for(prev, r), cells, c);
            assert forall|i: int| 0 <= i < prev_b.len() implies (#[trigger] prev_b[i]).0 != r by {
                assert(prev_b[i] == b[i]);
                assert(b[i].0 != b[n].0);
            }
            lemma_no_row_no_cells(prev_b, r);
        }
    }
}

// ---------------------------------------------------------------------------
// Cell values carried along structural edits
// ---------------------------------------------------------------------------
/// Every line number used as a key in `entries` can move `n` lines forward
/// and stay within the `u32` range.
pub open spec fn keys_fit<V>(entries: Seq<(Key, V)>, n: int) -> bool {
    forall|i: int|
        0 <= i < entries.len() ==> match (#[trigger] entries[i]).0 {
            Key::Index(k) => k + n <= u32::MAX,
            Key::Name(_) => true,
        }
}

proof fn lemma_keys_fit_drop_last<V>(entries: Seq<(Key, V)>, n: int)
    requires
        entries.len() > 0,
        keys_fit(entries, n),
    ensures
        keys_fit(entries.drop_last(), n),
        match entries.last().0 {
            Key::Index(k) => k + n <= u32::MAX,
            Key::Name(_) => true,
        },
{
    let p = entries.drop_last();
    assert forall|i: int| 0 <= i < p.len() implies match (#[trigger] p[i]).0 {
        Key::Index(k) => k + n <= u32::MAX,
        Key::Name(_) => true,
    } by {
        assert(p[i] == entries[i]);
    }
    assert(entries[entries.len() - 1] == entries.last());
}

/// Rows moved for a row insertion: the row that had key `r` now has the key
/// that `r` moves to.
proof fn lemma_rows_after_insert(a: Seq<(Key, Row)>, s: u32, n: u32, r: u32)
    requires
        keys_fit(a, n as int),
        r + n <= u32::MAX,
    ensures
        last_cells_for(entries_after_insert(a, s, n), Key::Index(shift_index_for_insert(r, s, n)))
            == last_cells_for(a, Key::Index(r)),
    decreases a.len(),
{
    if a.len() > 0 {
        let p = a.drop_last();
        assert(entries_after_insert(a, s, n).drop_last() =~= entries_after_insert(p, s, n));
        lemma_keys_fit_drop_last(a, n as int);
        lemma_rows_after_insert(p, s, n, r);
        assert(entries_after_insert(a, s, n).last() == (key_after_insert(a.last().0, s, n), a.last().1));
    }
}

/// Cells moved for a column insertion: the cell that had key `c` now has the
/// key that `c` moves to.
proof fn lemma_cells_after_insert(cells: Seq<(Key, Seq<char>)>, s: u32, n: u32, c: u32)
    requires
        keys_fit(cells, n as int),
        c + n <= u32::MAX,
    ensures
        last_value(entries_after_insert(cells, s, n), Key::Index(shift_index_for_insert(c, s, n)))
            == last_value(cells, Key::Index(c)),
    decreases cells.len(),
{
    if cells.len() > 0 {
        let p = cells.drop_last();
        assert(entries_after_insert(cells, s, n).drop_last() =~= entries_after_insert(p, s, n));
        lemma_keys_fit_drop_last(cells, n as int);
        lemma_cells_after_insert(p, s, n, c);
        assert(entries_after_insert(cells, s, n).last() == (key_after_insert(cells.last().0, s, n), cells.last().1));
    }
}

/// Rows after a row removal: a surviving row that had key `r` now has the key
/// that `r` moves to.
proof fn lemma_rows_after_remove(a: Seq<(Key, Row)>, rs: u32, re: u32, r: u32)
    requires
        rs <= re,
        !index_removed(r, rs, re),
    ensures
        last_cells_for(entries_after_remove(a, rs, re), Key::Index(shift_index_for_remove(r, rs, re)))
            == last_cells_for(a, Key::Index(r)),
    decreases a.len(),
{
    if a.len() > 0 {
        let prev = entries_after_remove(a.drop_last(), rs, re);
        let x = (key_after_remove(a.last().0, rs, re), a.last().1);
        assert(prev.push(x).drop_last() =~= prev);
        lemma_rows_after_remove(a.drop_last(), rs, re, r);
        lemma_key_after_remove_injective(a.last().0, rs, re, r);
    }
}

/// Cells after a column removal: a surviving cell that had key `c` now has
/// the key that `c` moves to.
proof fn lemma_cells_after_remove(cells: Seq<(Key, Seq<char>)>, rs: u32, re: u32, c: u32)
    requires
        rs <= re,
        !index_removed(c, rs, re),
    ensures
        last_value(entries_after_remove(cells, rs, re), Key::Index(shift_index_for_remove(c, rs, re)))
            == last_value(cells, Key::Index(c)),
    decreases cells.len(),
{
    if cells.len() > 0 {
        let prev = entries_after_remove(cells.drop_last(), rs, re);
        let x = (key_after_remove(cells.last().0, rs, re), cells.last().1);
        assert(prev.push(x).drop_last() =~= prev);
        lemma_cells_after_remove(cells.drop_last(), rs, re, c);
        lemma_key_after_remove_injective(cells.last().0, rs, re, c);
    }
}

/// Two surviving lines move to the same place only when they are the same.
proof fn lemma_key_after_remove_injective(k: Key, rs: u32, re: u32, r: u32)
    requires
        rs <= re,
        !index_removed(r, rs, re),
    ensures
        !key_removed(k, rs, re) ==> (key_after_remove(k, rs, re) == Key::Index(shift_index_for_remove(r, rs, re))
            <==> k == Key::Index(r)),
{
    if let Key::Index(m) = k {
        if !index_removed(m, rs, re) {
            assert(span(rs, re) == re - rs + 1);
        }
    }
}

proof fn lemma_distinct_drop_last(rows: Seq<(Key, Row)>)
    requires
        rows.len() > 0,
        distinct_row_keys(rows),
    ensures
        distinct_row_keys(rows.drop_last()),
        forall|i: int| 0 <= i < rows.len() - 1 ==> (#[trigger] rows.drop_last()[i]).0 != rows.last().0,
{
    let p = rows.drop_last();
    let n = rows.len() - 1;
    assert(rows[n] == rows.last());
    assert forall|i: int, j: int| 0 <= i < j < p.len() implies #[trigger] p[i].0 != #[trigger] p[j].0 by {
        assert(p[i] == rows[i] && p[j] == rows[j]);
    }
    assert forall|i: int| 0 <= i < n implies (#[trigger] p[i]).0 != rows.last().0 by {
        assert(p[i] == rows[i]);
    }
}

/// The cells of a row after a column insertion are that row's cells moved.
proof fn lemma_cols_after_insert(a: Seq<(Key, Row)>, s: u32, n: u32, k: Key)
    requires
        distinct_row_keys(a),
    ensures
        last_cells_for(cols_after_insert(a, s, n), k) == entries_after_insert(last_cells_for(a, k), s, n),
    decreases a.len(),
{
    let none = Seq::<(Key, Seq<char>)>::empty();
    assert(entries_after_insert(none, s, n) =~= none);
    if a.len() > 0 {
        let p = a.drop_last();
        lemma_distinct_drop_last(a);
        lemma_cols_after_insert(p, s, n, k);
        let prev = cols_after_insert(p, s, n);
        if let Row::Cells(c) = a.last().1 {
            let x = (a.last().0, Row::Cells(entries_after_insert(c, s, n)));
            assert(prev.push(x).drop_last() =~= prev);
        }
        assert(prev.push(a.last()).drop_last() =~= prev);
        if a.last().0 == k {
            lemma_no_row_no_cells(p, k);
        }
    }
}

/// The cells of a row after a column removal are that row's surviving cells,
/// moved.
proof fn lemma_cols_after_remove(a: Seq<(Key, Row)>, rs: u32, re: u32, k: Key)
    requires
        distinct_row_keys(a),
    ensures
        last_cells_for(cols_after_remove(a, rs, re), k) == entries_after_remove(last_cells_for(a, k), rs, re),
    decreases a.len(),
{
    let none = Seq::<(Key, Seq<char>)>::empty();
    assert(entries_after_remove(none, rs, re) =~= none);
    if a.len() > 0 {
        let p = a.drop_last();
        lemma_distinct_drop_last(a);
        lemma_cols_after_remove(p, rs, re, k);
        let prev = cols_after_remove(p, rs, re);
        if let Row::Cells(c) = a.last().1 {
            let x = (a.last().0, Row::Cells(entries_after_remove(c, rs, re)));
            assert(prev.push(x).drop_last() =~= prev);
        }
        assert(prev.push(a.last()).drop_last() =~= prev);
        if a.last().0 == k {
            lemma_no_row_no_cells(p, k);
        }
    }
}

/// Where the cell at row `r`, column `c` goes when `m` inserts lines along
/// `axis`: the coordinate along `axis` moves, the other one stays.
pub open spec fn cell_after_insert_at(m: Mutation, axis: Axis, r: u32, c: u32) -> (u32, u32) {
    let s = axis_start(lines_of(m), axis);
    let n = axis_span(lines_of(m), axis);
    match axis {
        Axis::Rows => (shift_index_for_insert(r, s, n), c),
        Axis::Columns => (r, shift_index_for_insert(c, s, n)),
    }
}

/// Whether the removal `m` along `axis` removes the line of the cell at row
/// `r`, column `c`.
pub open spec fn cell_removed_by(m: Mutation, axis: Axis, r: u32, c: u32) -> bool {
    let rs = axis_start(lines_of(m), axis);
    let re = axis_end(lines_of(m), axis);
    match axis {
        Axis::Rows => index_removed(r, rs, re),
        Axis::Columns => index_removed(c, rs, re),
    }
}

/// Where the cell at row `r`, column `c` goes when `m` removes lines along
/// `axis` (when its line survives).
pub open spec fn cell_after_remove_at(m: Mutation, axis: Axis, r: u32, c: u32) -> (u32, u32) {
    let rs = axis_start(lines_of(m), axis);
    let re = axis_end(lines_of(m), axis);
    match axis {
        Axis::Rows => (shift_index_for_remove(r, rs, re), c),
        Axis::Columns => (r, shift_index_for_remove(c, rs, re)),
    }
}

/// The keys that an insertion along `axis` moves in the setting `a`, as far
/// as the cell at row `r` is concerned: the row keys for rows, the column keys
/// of row `r` for columns.
pub open spec fn moved_keys_fit(a: Seq<(Key, Row)>, axis: Axis, r: u32, n: int) -> bool {
    match axis {
        Axis::Rows => keys_fit(a, n),
        Axis::Columns => keys_fit(last_cells_for(a, Key::Index(r)), n),
    }
}

/// A setting of cell values transformed against a concurrent insertion of
/// lines on its sheet writes each value where its cell moves: applying the
/// insertion and then the rewritten setting puts every value where applying
/// the setting and then the insertion carries it. The insertion transformed
/// against the setting rewrites it in the same way. (The line numbers that
/// move stay within the `u32` range; for columns, the setting has one row per
/// key, as a map does.)
pub proof fn law_values_follow_inserted_lines(m1: Mutation, m2: Mutation, axis: Axis, r: u32, c: u32)
    requires
        spec_same_sheet(cell_values_of(m1.params).sheet, range_params_of(m2.params).sheet),
        cell_values_of(m1.params).cell_value is Some,
        well_formed_lines(m2, axis),
        moved_keys_fit(cell_values_of(m1.params).cell_value->0, axis, r, count(m2, axis)),
        r + count(m2, axis) <= u32::MAX,
        c + count(m2, axis) <= u32::MAX,
        axis == Axis::Columns ==> distinct_row_keys(cell_values_of(m1.params).cell_value->0),
    ensures
        ({
            let o = values_vs_insert(m1, m2, axis);
            let a = cell_values_of(m1.params).cell_value->0;
            let to = cell_after_insert_at(m2, axis, r, c);
            &&& o.error is None
            &&& o.m2_prime == Some(m2)
            &&& o.m1_prime is Some
            &&& cell_values_of(o.m1_prime->0.params).cell_value is Some
            &&& written_value(cell_values_of(o.m1_prime->0.params).cell_value->0, Key::Index(to.0), Key::Index(to.1))
                == written_value(a, Key::Index(r), Key::Index(c))
            &&& insert_vs_values(m2, m1, axis).m2_prime == o.m1_prime
        }),
{
    let a = cell_values_of(m1.params).cell_value->0;
    let s = axis_start(lines_of(m2), axis);
    let n = axis_span(lines_of(m2), axis);
    assert(n == count(m2, axis));
    match axis {
        Axis::Rows => lemma_rows_after_insert(a, s, n, r),
        Axis::Columns => {
            lemma_cols_after_insert(a, s, n, Key::Index(r));
            lemma_cells_after_insert(last_cells_for(a, Key::Index(r)), s, n, c);
        },
    }
}

/// A setting of cell values transformed against a concurrent removal of lines
/// on its sheet writes each value of a surviving line where its cell moves, as
/// applying the setting and then the removal does. The removal transformed
/// against the setting rewrites it in the same way. (For columns, the setting
/// has one row per key, as a map does.)
pub proof fn law_values_follow_removed_lines(m1: Mutation, m2: Mutation, axis: Axis, r: u32, c: u32)
    requires
        spec_same_sheet(cell_values_of(m1.params).sheet, range_params_of(m2.params).sheet),
        cell_values_of(m1.params).cell_value is Some,
        axis_start(lines_of(m2), axis) <= axis_end(lines_of(m2), axis),
        !cell_removed_by(m2, axis, r, c),
        axis == Axis::Columns ==> distinct_row_keys(cell_values_of(m1.params).cell_value->0),
    ensures
        ({
            let o = values_vs_remove(m1, m2, axis);
            let a = cell_values_of(m1.params).cell_value->0;
            let to = cell_after_remove_at(m2, axis, r, c);
            &&& o.error is None
            &&& o.m2_prime == Some(m2)
            &&& o.m1_prime is Some
            &&& cell_values_of(o.m1_prime->0.params).cell_value is Some
            &&& written_value(cell_values_of(o.m1_prime->0.params).cell_value->0, Key::Index(to.0), Key::Index(to.1))
                == written_value(a, Key::Index(r), Key::Index(c))
            &&& remove_vs_values(m2, m1, axis).m2_prime == o.m1_prime
        }),
{
    let a = cell_values_of(m1.params).cell_value->0;
    let rs = axis_start(lines_of(m2), axis);
    let re = axis_end(lines_of(m2), axis);
    match axis {
        Axis::Rows => lemma_rows_after_remove(a, rs, re, r),
        Axis::Columns => {
            lemma_cols_after_remove(a, rs, re, Key::Index(r));
            lemma_cells_after_remove(last_cells_for(a, Key::Index(r)), rs, re, c);
        },
    }
}

// ---------------------------------------------------------------------------
// Sheets
// ---------------------------------------------------------------------------
/// A mutation whose parameters have the shape its id calls for: cell values
/// for a setting of values, one range for an insertion or removal of lines.
pub open spec fn shaped(m: Mutation) -> bool {
    &&& m.id == set_range_values_id() ==> m.params is CellValues
    &&& (m.id == insert_row_id() || m.id == insert_col_id() || m.id == remove_rows_id()
        || m.id == remove_col_id()) ==> m.params is Range
}

proof fn lemma_lookup_has_id(reg: Seq<CoreTransform>, id: Seq<char>)
    ensures
        lookup(reg, id) matches Some(k) ==> core_id(k) == id,
    decreases reg.len(),
{
    if reg.len() > 0 {
        lemma_lookup_has_id(reg.drop_first(), id);
    }
}

/// Edits of two different sheets never affect each other: transformed
/// against each other both are kept as they are, and consecutive ones are
/// never merged, whatever transforms are registered.
pub proof fn law_other_sheets_untouched(reg: Seq<CoreTransform>, m1: Mutation, m2: Mutation)
    requires
        shaped(m1),
        shaped(m2),
        !spec_same_sheet(sheet_of(m1.params), sheet_of(m2.params)),
    ensures
        transformed(reg, m1, m2) == unchanged(m1, m2),
        composed(reg, m1, m2) == seq![m1, m2],
{
    lemma_lookup_has_id(reg, m1.id);
    reveal_strlit("sheet.mutation.set-range-values");
    reveal_strlit("sheet.mutation.insert-row");
    reveal_strlit("sheet.mutation.insert-col");
    reveal_strlit("sheet.mutation.remove-rows");
    reveal_strlit("sheet.mutation.remove-col");
}

// ---------------------------------------------------------------------------
// Lists of one element
// ---------------------------------------------------------------------------
/// Transforming two one-element lists is transforming their elements: each
/// list keeps its element's rewriting (or becomes empty when it is dropped),
/// and an error empties both lists.
pub proof fn law_single_lists_transform_as_pair(reg: Seq<CoreTransform>, m1: Mutation, m2: Mutation)
    ensures
        ({
            let l = list_transformed(reg, seq![m1], seq![m2]);
            let o = transformed(reg, m1, m2);
            &&& l.error == o.error
            &&& o.error is Some ==> l.m1_primes.len() == 0 && l.m2_primes.len() == 0
            &&& o.error is None ==> l.m1_primes == match o.m1_prime {
                Some(x) => seq![x],
                None => Seq::<Mutation>::empty(),
            }
            &&& o.error is None ==> l.m2_primes == match o.m2_prime {
                Some(x) => seq![x],
                None => Seq::<Mutation>::empty(),
            }
        }),
{
    let m1s = seq![m1];
    let m2s = seq![m2];
    let none = Seq::<Mutation>::empty();
    assert(m1s.drop_last() =~= none);
    assert(m2s.drop_last() =~= none);
    assert(m1s.last() == m1);
    assert(m2s.last() == m2);
    assert(pass_through(reg, none, Some(m2)) == Pass { list: none, carried: Some(m2), error: None });
    assert(passes(reg, m1s, none).m1_primes == m1s);
    let o = transformed(reg, m1, m2);
    assert(none.push(m1) =~= m1s);
    if let Some(x) = o.m1_prime {
        assert(none.push(x) =~= seq![x]);
    }
    if let Some(x) = o.m2_prime {
        assert(none.push(x) =~= seq![x]);
    }
}

/// Merging a list of two mutations is merging the two.
pub proof fn law_pair_list_composes_as_pair(reg: Seq<CoreTransform>, m1: Mutation, m2: Mutation)
    ensures
        list_composed(reg, seq![m1, m2]) == composed(reg, m1, m2),
{
    let list = seq![m1, m2];
    let one = seq![m1];
    assert(list.drop_last() =~= one);
    assert(list.last() == m2);
    assert(one.drop_last() =~= Seq::<Mutation>::empty());
    assert(one.last() == m1);
    assert(list_composed(reg, Seq::<Mutation>::empty()) == Seq::<Mutation>::empty());
    assert(list_composed(reg, one) == one);
    lemma_composed_has_one_or_two(reg, m1, m2);
    let c = composed(reg, m1, m2);
    if c.len() == 1 {
        assert(one.drop_last().push(c[0]) =~= c);
    } else {
        assert(one.drop_last().push(m1).push(m2) =~= seq![m1, m2]);
    }
}

} // verus!
