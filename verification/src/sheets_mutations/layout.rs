//! Sorting the rows of a range, and setting row heights.
use vstd::prelude::*;
use crate::sheet::{
    axis_end, axis_span, axis_start, copy_ranges, end_of, ranges_after_insert, ranges_after_remove,
    count_of, same_sheet, shift_ranges_for_insert, span, shift_ranges_for_remove, span_of, spec_same_sheet, start_of,
    Axis,
};
use crate::mutation::{
    copy_opt_map, first_becomes, first_replaced, keep_both, mutations_view, opt_map_view,
    range_params_from, range_params_of, ranges_params_from, ranges_params_of, unchanged,
    with_params_v, Mutation, MutationInfo, MutationParams, Outcome, ParamsV, RangesParams,
    RangesParamsV, TransformResult,
};
use crate::mutation_transform::MutationTransform;
use crate::sheets_generic::{
    keep_later, kind_vs_insert, kind_vs_remove, later_wins, opt_entries_after_insert,
    opt_entries_after_remove, reconcile_kind_with_insert, reconcile_kind_with_remove,
    SheetTransformKind,
};

verus! {

/// Sorting the rows of a range.
#[derive(Default)]
pub struct ReorderRangeTransform;

impl MutationTransform for ReorderRangeTransform {
    fn mutation_id() -> (id: &'static str)
        ensures
            id@ == "sheet.mutation.reorder-range"@,
    {
        "sheet.mutation.reorder-range"
    }

    fn compose(&self, m1: &MutationInfo, m2: &MutationInfo) -> (r: Vec<MutationInfo>)
        ensures
            mutations_view(r@) == later_wins(m1@, m2@),
    {
        keep_later(m1, m2)
    }

    fn transform_with_insert_row(&self, m1: &MutationInfo, m2: &MutationInfo) -> (r: TransformResult)
        ensures
            r@ == kind_vs_insert(SheetTransformKind::ReorderRange, m1@, m2@, Axis::Rows),
    {
        reconcile_kind_with_insert(SheetTransformKind::ReorderRange, m1, m2, Axis::Rows)
    }

    fn transform_with_insert_col(&self, m1: &MutationInfo, m2: &MutationInfo) -> (r: TransformResult)
        ensures
            r@ == kind_vs_insert(SheetTransformKind::ReorderRange, m1@, m2@, Axis::Columns),
    {
        reconcile_kind_with_insert(SheetTransformKind::ReorderRange, m1, m2, Axis::Columns)
    }

    fn transform_with_remove_rows(&self, m1: &MutationInfo, m2: &MutationInfo) -> (r: TransformResult)
        ensures
            r@ == kind_vs_remove(SheetTransformKind::ReorderRange, m1@, m2@, Axis::Rows),
    {
        reconcile_kind_with_remove(SheetTransformKind::ReorderRange, m1, m2, Axis::Rows)
    }

    fn transform_with_remove_col(&self, m1: &MutationInfo, m2: &MutationInfo) -> (r: TransformResult)
        ensures
            r@ == kind_vs_remove(SheetTransformKind::ReorderRange, m1@, m2@, Axis::Columns),
    {
        reconcile_kind_with_remove(SheetTransformKind::ReorderRange, m1, m2, Axis::Columns)
    }
}

/// Row heights set over ranges (`m1`) against lines inserted on the same
/// sheet (`m2`): the ranges move, and for inserted rows so do the row keys of
/// the heights.
pub open spec fn row_height_vs_insert(m1: Mutation, m2: Mutation, axis: Axis) -> Outcome {
    let p = ranges_params_of(m1.params);
    let q = range_params_of(m2.params);
    let s = axis_start(q.range, axis);
    let c = axis_span(q.range, axis);
    if !spec_same_sheet(p.sheet, q.sheet) {
        unchanged(m1, m2)
    } else {
        first_becomes(
            Some(
                with_params_v(
                    m1,
                    ParamsV::Ranges(
                        RangesParamsV {
                            sheet: p.sheet,
                            ranges: ranges_after_insert(p.ranges, axis, s, c),
                            row_height: match axis {
                                Axis::Rows => opt_entries_after_insert(p.row_height, s, c),
                                Axis::Columns => p.row_height,
                            },
                        },
                    ),
                ),
            ),
            m2,
        )
    }
}

/// Row heights set over ranges (`m1`) against lines removed on the same sheet
/// (`m2`): dropped when no range survives; otherwise the surviving ranges are
/// kept and, for removed rows, the heights of removed rows are dropped and
/// later row keys move back.
pub open spec fn row_height_vs_remove(m1: Mutation, m2: Mutation, axis: Axis) -> Outcome {
    let p = ranges_params_of(m1.params);
    let q = range_params_of(m2.params);
    let rs = axis_start(q.range, axis);
    let re = axis_end(q.range, axis);
    let left = ranges_after_remove(p.ranges, axis, rs, re);
    if !spec_same_sheet(p.sheet, q.sheet) {
        unchanged(m1, m2)
    } else if left.len() == 0 {
        first_becomes(None, m2)
    } else {
        first_becomes(
            Some(
                with_params_v(
                    m1,
                    ParamsV::Ranges(
                        RangesParamsV {
                            sheet: p.sheet,
                            ranges: left,
                            row_height: match axis {
                                Axis::Rows => opt_entries_after_remove(p.row_height, rs, re),
                                Axis::Columns => p.row_height,
                            },
                        },
                    ),
                ),
            ),
            m2,
        )
    }
}

fn reconcile_row_height_with_insert(m1: &MutationInfo, m2: &MutationInfo, axis: Axis) -> (r: TransformResult)
    ensures
        r@ == row_height_vs_insert(m1@, m2@, axis),
{
    let p = ranges_params_from(&m1.params);
    let q = range_params_from(&m2.params);
    if !same_sheet(&p.sub_unit, &q.sub_unit) {
        return keep_both(m1, m2);
    }
    let s = start_of(&q.range, axis);
    let c = span_of(&q.range, axis);
    let mut ranges = copy_ranges(&p.ranges);
    shift_ranges_for_insert(&mut ranges, axis, s, c);
    let row_height = match axis {
        Axis::Rows => match &p.row_height {
            Some(m) => Some(m.shifted_for_insert(s, c)),
            None => None,
        },
        Axis::Columns => copy_opt_map(&p.row_height),
    };
    assert(opt_map_view(row_height) == match axis {
        Axis::Rows => opt_entries_after_insert(p@.row_height, s, c),
        Axis::Columns => p@.row_height,
    });
    let params = RangesParams { sub_unit: p.sub_unit, ranges, row_height };
    first_replaced(Some(m1.with_params(MutationParams::Ranges(params))), m2)
}

fn reconcile_row_height_with_remove(m1: &MutationInfo, m2: &MutationInfo, axis: Axis) -> (r: TransformResult)
    ensures
        r@ == row_height_vs_remove(m1@, m2@, axis),
{
    let p = ranges_params_from(&m1.params);
    let q = range_params_from(&m2.params);
    if !same_sheet(&p.sub_unit, &q.sub_unit) {
        return keep_both(m1, m2);
    }
    let rs = start_of(&q.range, axis);
    let re = end_of(&q.range, axis);
    let mut ranges = copy_ranges(&p.ranges);
    if !shift_ranges_for_remove(&mut ranges, axis, rs, re) {
        return first_replaced(None, m2);
    }
    let row_height = match axis {
        Axis::Rows => match &p.row_height {
            Some(m) => Some(m.shifted_for_remove(rs, re)),
            None => None,
        },
        Axis::Columns => copy_opt_map(&p.row_height),
    };
    assert(opt_map_view(row_height) == match axis {
        Axis::Rows => opt_entries_after_remove(p@.row_height, rs, re),
        Axis::Columns => p@.row_height,
    });
    let params = RangesParams { sub_unit: p.sub_unit, ranges, row_height };
    first_replaced(Some(m1.with_params(MutationParams::Ranges(params))), m2)
}

/// Setting the heights of rows.
#[derive(Default)]
pub struct SetWorksheetRowHeightTransform;

impl MutationTransform for SetWorksheetRowHeightTransform {
    fn mutation_id() -> (id: &'static str)
        ensures
            id@ == "sheet.mutation.set-worksheet-row-height"@,
    {
        "sheet.mutation.set-worksheet-row-height"
    }

    fn compose(&self, m1: &MutationInfo, m2: &MutationInfo) -> (r: Vec<MutationInfo>)
        ensures
            mutations_view(r@) == later_wins(m1@, m2@),
    {
        keep_later(m1, m2)
    }

    fn transform_with_insert_row(&self, m1: &MutationInfo, m2: &MutationInfo) -> (r: TransformResult)
        ensures
            r@ == row_height_vs_insert(m1@, m2@, Axis::Rows),
    {
        reconcile_row_height_with_insert(m1, m2, Axis::Rows)
    }

    fn transform_with_insert_col(&self, m1: &MutationInfo, m2: &MutationInfo) -> (r: TransformResult)
        ensures
            r@ == row_height_vs_insert(m1@, m2@, Axis::Columns),
    {
        reconcile_row_height_with_insert(m1, m2, Axis::Columns)
    }

    fn transform_with_remove_rows(&self, m1: &MutationInfo, m2: &MutationInfo) -> (r: TransformResult)
        ensures
            r@ == row_height_vs_remove(m1@, m2@, Axis::Rows),
    {
        reconcile_row_height_with_remove(m1, m2, Axis::Rows)
    }

    fn transform_with_remove_col(&self, m1: &MutationInfo, m2: &MutationInfo) -> (r: TransformResult)
        ensures
            r@ == row_height_vs_remove(m1@, m2@, Axis::Columns),
    {
        reconcile_row_height_with_remove(m1, m2, Axis::Columns)
    }
}

// ---------------------------------------------------------------------------
// Rows whose height follows their content
// ---------------------------------------------------------------------------
/// One entry of a list of rows with automatic height (`{row, ...}`): its row
/// number when it has one, and its other fields as a JSON object text.
#[derive(Clone, Debug, PartialEq, Eq)]
pub struct AutoHeightRow {
    pub row: Option<u64>,
    pub extra: String,
}

impl View for AutoHeightRow {
    type V = (Option<u64>, Seq<char>);

    open spec fn view(&self) -> (Option<u64>, Seq<char>) {
        (self.row, self.extra@)
    }
}

pub open spec fn auto_height_rows_view(v: Seq<AutoHeightRow>) -> Seq<(Option<u64>, Seq<char>)> {
    Seq::new(v.len(), |i: int| v[i]@)
}

/// A row number after `count` rows are inserted before row `start`.
pub open spec fn auto_height_row_after_insert(e: (Option<u64>, Seq<char>), start: u32, count: u32) -> (Option<u64>, Seq<char>) {
    match e.0 {
        Some(n) => if n >= start {
            (Some(vstd::wrapping::u64_specs::wrapping_add(n, count as u64)), e.1)
        } else {
            e
        },
        None => e,
    }
}

/// The rows after `count` rows are inserted before row `start`: each row
/// number at or after `start` moves by `count`; entries without a row number
/// stay as they are.
pub open spec fn auto_height_rows_after_insert(rows: Seq<(Option<u64>, Seq<char>)>, start: u32, count: u32) -> Seq<(Option<u64>, Seq<char>)> {
    Seq::new(rows.len(), |i: int| auto_height_row_after_insert(rows[i], start, count))
}

/// The rows after rows `[rs, re]` are removed: entries of removed rows are
/// dropped, later rows move back, entries without a row number stay.
pub open spec fn auto_height_rows_after_remove(rows: Seq<(Option<u64>, Seq<char>)>, rs: u32, re: u32) -> Seq<(Option<u64>, Seq<char>)>
    decreases rows.len(),
{
    if rows.len() == 0 {
        Seq::empty()
    } else {
        let prev = auto_height_rows_after_remove(rows.drop_last(), rs, re);
        let e = rows.last();
        match e.0 {
            Some(n) => if n < rs {
                prev.push(e)
            } else if n > re {
                prev.push((Some(vstd::wrapping::u64_specs::wrapping_sub(n, span(rs, re) as u64)), e.1))
            } else {
                prev
            },
            None => prev.push(e),
        }
    }
}

/// Moves the row numbers of `rows` for `count` rows inserted before `start`.
pub fn shift_rows_auto_height_for_insert(rows: &mut Vec<AutoHeightRow>, start: u32, count: u32)
    ensures
        auto_height_rows_view(final(rows)@) == auto_height_rows_after_insert(auto_height_rows_view(old(rows)@), start, count),
{
    let ghost before = auto_height_rows_view(rows@);
    let mut moved: Vec<AutoHeightRow> = Vec::new();
    let mut i: usize = 0;
    while i < rows.len()
        invariant
            0 <= i <= rows.len(),
            before == auto_height_rows_view(rows@),
            moved@.len() == i,
            forall|j: int| 0 <= j < i ==> #[trigger] moved@[j]@ == auto_height_row_after_insert(before[j], start, count),
        decreases rows.len() - i,
    {
        let row = match rows[i].row {
            Some(n) => if n >= start as u64 {
                Some(n.wrapping_add(count as u64))
            } else {
                Some(n)
            },
            None => None,
        };
        moved.push(AutoHeightRow { row, extra: rows[i].extra.clone() });
        i += 1;
    }
    assert(auto_height_rows_view(moved@) =~= auto_height_rows_after_insert(before, start, count));
    *rows = moved;
}

/// Drops the entries of rows `[rs, re]` from `rows` and moves later row
/// numbers back; whether any entry is left.
pub fn shift_rows_auto_height_for_remove(rows: &mut Vec<AutoHeightRow>, rs: u32, re: u32) -> (any_left: bool)
    ensures
        auto_height_rows_view(final(rows)@) == auto_height_rows_after_remove(auto_height_rows_view(old(rows)@), rs, re),
        any_left == (final(rows)@.len() > 0),
{
    let ghost before = auto_height_rows_view(rows@);
    let removed = count_of(rs, re) as u64;
    let mut kept: Vec<AutoHeightRow> = Vec::new();
    let mut i: usize = 0;
    while i < rows.len()
        invariant
            0 <= i <= rows.len(),
            before == auto_height_rows_view(rows@),
            removed == span(rs, re) as u64,
            auto_height_rows_view(kept@) == auto_height_rows_after_remove(before.take(i as int), rs, re),
        decreases rows.len() - i,
    {
        assert(before.take(i + 1).drop_last() =~= before.take(i as int));
        assert(before.take(i + 1).last() == rows@[i as int]@);
        match rows[i].row {
            Some(n) => {
                if n < rs as u64 {
                    kept.push(AutoHeightRow { row: Some(n), extra: rows[i].extra.clone() });
                } else if n > re as u64 {
                    kept.push(AutoHeightRow { row: Some(n.wrapping_sub(removed)), extra: rows[i].extra.clone() });
                }
            },
            None => {
                kept.push(AutoHeightRow { row: None, extra: rows[i].extra.clone() });
            },
        }
        assert(auto_height_rows_view(kept@) =~= auto_height_rows_after_remove(before.take(i + 1), rs, re));
        i += 1;
    }
    assert(before.take(rows@.len() as int) =~= before);
    *rows = kept;
    rows.len() > 0
}

} // verus!
