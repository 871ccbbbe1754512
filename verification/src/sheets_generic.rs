//! Transforms of the sheet mutations that carry ranges, row or column data,
//! frozen panes or moves, by the kind of parameters they carry: each kind
//! says how such a mutation (`m1`) is rewritten when rows or columns are
//! inserted or removed (`m2`).
use vstd::prelude::*;
use crate::sheet::{
    axis_span, axis_start, axis_end, copy_ranges, end_of, range_after_insert,
    range_after_remove, range_removed, ranges_after_insert, ranges_after_remove, same_sheet,
    shift_index_for_insert, shift_range_for_insert, shift_range_for_remove,
    shift_ranges_for_insert, shift_ranges_for_remove, span_of, spec_same_sheet,
    start_after_remove, start_of, Axis, Range,
};
use crate::matrix::{entries_after_insert, entries_after_remove, IndexMap, Key};
use crate::mutation::{
    first_becomes, first_replaced, frozen_from, frozen_of, keep_both, move_range_from,
    move_range_of, move_rows_cols_from, move_rows_cols_of, mutations_view, opt_map_view,
    range_params_from, range_params_of, ranges_params_from, ranges_params_of, reorder_from,
    reorder_of, row_column_data_from, row_column_data_of, unchanged, with_params_v, FrozenV,
    MoveRangeParams, MoveRangeSide, MoveRangeV, MoveRowsColsParams, MoveRowsColsV, Mutation,
    MutationInfo, MutationParams, Outcome, ParamsV, RangesParams, RangesParamsV,
    ReorderRangeParams, ReorderV, RowColumnDataParams, RowColumnDataV, SetFrozenParams,
    TransformResult,
};
use crate::mutation_transform::MutationTransform;
use crate::structural::{cells_after_insert, cells_after_remove, rebuilt_with_range, with_range};

verus! {

/// The kind of parameters a sheet mutation carries, which decides how it is
/// rewritten against structural edits.
#[derive(Default, Clone, Copy, Debug, PartialEq, Eq, Structural)]
pub enum SheetTransformKind {
    /// Nothing moves.
    #[default]
    Identity,
    /// One range (`range`).
    Range,
    /// A list of ranges (`ranges`).
    Ranges,
    /// Row data keyed by row (`rowData`).
    RowData,
    /// Column data keyed by column (`columnData`).
    ColumnData,
    RowCount,
    ColumnCount,
    /// A block of cells moved (`fromRange`, `toRange`, `from`, `to`).
    MoveRange,
    /// Rows moved (`sourceRange`, `targetRange`).
    MoveRows,
    /// Columns moved (`sourceRange`, `targetRange`).
    MoveCols,
    /// Rows of a range sorted (`range`, `order`).
    ReorderRange,
    RangeThemeStyle,
    WorksheetRangeThemeStyle,
    /// Merged blocks (`ranges`).
    WorksheetMerge,
    /// Frozen panes (`startRow`, `startColumn`, `ySplit`, `xSplit`).
    SetFrozen,
}

/// The transform of the mutations with id `id`, by the kind of their parameters.
#[derive(Default)]
pub struct SheetsGenericTransform {
    pub id: &'static str,
    pub kind: SheetTransformKind,
}

impl SheetsGenericTransform {
    pub fn new(id: &'static str, kind: SheetTransformKind) -> (t: Self)
        ensures
            t.id == id,
            t.kind == kind,
    {
        SheetsGenericTransform { id, kind }
    }
}

/// The transform of mutations with id `id` whose parameters are of kind `kind`.
pub fn build_generic_transform(id: &'static str, kind: SheetTransformKind) -> (t: SheetsGenericTransform)
    ensures
        t.id == id,
        t.kind == kind,
{
    SheetsGenericTransform::new(id, kind)
}

// ---------------------------------------------------------------------------
// One range
// ---------------------------------------------------------------------------
/// A mutation with one range (`m1`) against lines inserted (`m2`).
pub open spec fn range_vs_insert(m1: Mutation, m2: Mutation, axis: Axis) -> Outcome {
    let p = range_params_of(m1.params);
    let q = range_params_of(m2.params);
    if !spec_same_sheet(p.sheet, q.sheet) {
        unchanged(m1, m2)
    } else {
        first_becomes(Some(with_range(m1, p, range_after_insert(p.range, axis, axis_start(q.range, axis), axis_span(q.range, axis)))), m2)
    }
}

pub fn reconcile_range_with_insert(m1: &MutationInfo, m2: &MutationInfo, axis: Axis) -> (r: TransformResult)
    ensures
        r@ == range_vs_insert(m1@, m2@, axis),
{
    let p = range_params_from(&m1.params);
    let q = range_params_from(&m2.params);
    if !same_sheet(&p.sub_unit, &q.sub_unit) {
        return keep_both(m1, m2);
    }
    let mut moved = p.range;
    shift_range_for_insert(&mut moved, axis, start_of(&q.range, axis), span_of(&q.range, axis));
    first_replaced(Some(rebuilt_with_range(m1, p, moved)), m2)
}

/// A mutation with one range (`m1`) against lines removed (`m2`): dropped
/// when its whole range is removed.
pub open spec fn range_vs_remove(m1: Mutation, m2: Mutation, axis: Axis) -> Outcome {
    let p = range_params_of(m1.params);
    let q = range_params_of(m2.params);
    let rs = axis_start(q.range, axis);
    let re = axis_end(q.range, axis);
    if !spec_same_sheet(p.sheet, q.sheet) {
        unchanged(m1, m2)
    } else if range_removed(p.range, axis, rs, re) {
        first_becomes(None, m2)
    } else {
        first_becomes(Some(with_range(m1, p, range_after_remove(p.range, axis, rs, re))), m2)
    }
}

pub fn reconcile_range_with_remove(m1: &MutationInfo, m2: &MutationInfo, axis: Axis) -> (r: TransformResult)
    ensures
        r@ == range_vs_remove(m1@, m2@, axis),
{
    let p = range_params_from(&m1.params);
    let q = range_params_from(&m2.params);
    if !same_sheet(&p.sub_unit, &q.sub_unit) {
        return keep_both(m1, m2);
    }
    let mut moved = p.range;
    if !shift_range_for_remove(&mut moved, axis, start_of(&q.range, axis), end_of(&q.range, axis)) {
        return first_replaced(None, m2);
    }
    first_replaced(Some(rebuilt_with_range(m1, p, moved)), m2)
}

// ---------------------------------------------------------------------------
// A list of ranges
// ---------------------------------------------------------------------------
pub open spec fn with_ranges(m: Mutation, p: RangesParamsV, ranges: Seq<Range>) -> Mutation {
    with_params_v(m, ParamsV::Ranges(RangesParamsV { sheet: p.sheet, ranges, row_height: p.row_height }))
}

/// A mutation with a list of ranges (`m1`) against lines inserted (`m2`).
pub open spec fn ranges_vs_insert(m1: Mutation, m2: Mutation, axis: Axis) -> Outcome {
    let p = ranges_params_of(m1.params);
    let q = range_params_of(m2.params);
    if !spec_same_sheet(p.sheet, q.sheet) {
        unchanged(m1, m2)
    } else {
        first_becomes(Some(with_ranges(m1, p, ranges_after_insert(p.ranges, axis, axis_start(q.range, axis), axis_span(q.range, axis)))), m2)
    }
}

pub fn reconcile_ranges_with_insert(m1: &MutationInfo, m2: &MutationInfo, axis: Axis) -> (r: TransformResult)
    ensures
        r@ == ranges_vs_insert(m1@, m2@, axis),
{
    let p = ranges_params_from(&m1.params);
    let q = range_params_from(&m2.params);
    if !same_sheet(&p.sub_unit, &q.sub_unit) {
        return keep_both(m1, m2);
    }
    let mut ranges = copy_ranges(&p.ranges);
    shift_ranges_for_insert(&mut ranges, axis, start_of(&q.range, axis), span_of(&q.range, axis));
    let params = RangesParams { sub_unit: p.sub_unit, ranges, row_height: p.row_height };
    first_replaced(Some(m1.with_params(MutationParams::Ranges(params))), m2)
}

/// A mutation with a list of ranges (`m1`) against lines removed (`m2`): the
/// surviving ranges are kept, and the mutation is dropped when none survives.
pub open spec fn ranges_vs_remove(m1: Mutation, m2: Mutation, axis: Axis) -> Outcome {
    let p = ranges_params_of(m1.params);
    let q = range_params_of(m2.params);
    let left = ranges_after_remove(p.ranges, axis, axis_start(q.range, axis), axis_end(q.range, axis));
    if !spec_same_sheet(p.sheet, q.sheet) {
        unchanged(m1, m2)
    } else if left.len() == 0 {
        first_becomes(None, m2)
    } else {
        first_becomes(Some(with_ranges(m1, p, left)), m2)
    }
}

pub fn reconcile_ranges_with_remove(m1: &MutationInfo, m2: &MutationInfo, axis: Axis) -> (r: TransformResult)
    ensures
        r@ == ranges_vs_remove(m1@, m2@, axis),
{
    let p = ranges_params_from(&m1.params);
    let q = range_params_from(&m2.params);
    if !same_sheet(&p.sub_unit, &q.sub_unit) {
        return keep_both(m1, m2);
    }
    let mut ranges = copy_ranges(&p.ranges);
    if !shift_ranges_for_remove(&mut ranges, axis, start_of(&q.range, axis), end_of(&q.range, axis)) {
        return first_replaced(None, m2);
    }
    let params = RangesParams { sub_unit: p.sub_unit, ranges, row_height: p.row_height };
    first_replaced(Some(m1.with_params(MutationParams::Ranges(params))), m2)
}

// ---------------------------------------------------------------------------
// Row or column data
// ---------------------------------------------------------------------------
pub open spec fn opt_entries_after_insert(o: Option<Seq<(Key, Seq<char>)>>, start: u32, count: u32) -> Option<Seq<(Key, Seq<char>)>> {
    match o {
        Some(e) => Some(entries_after_insert(e, start, count)),
        None => None,
    }
}

pub open spec fn opt_entries_after_remove(o: Option<Seq<(Key, Seq<char>)>>, rs: u32, re: u32) -> Option<Seq<(Key, Seq<char>)>> {
    match o {
        Some(e) => Some(entries_after_remove(e, rs, re)),
        None => None,
    }
}

fn shift_opt_map_for_insert(o: &Option<IndexMap>, start: u32, count: u32) -> (r: Option<IndexMap>)
    ensures
        opt_map_view(r) == opt_entries_after_insert(opt_map_view(*o), start, count),
{
    match o {
        Some(m) => Some(m.shifted_for_insert(start, count)),
        None => None,
    }
}

fn shift_opt_map_for_remove(o: &Option<IndexMap>, rs: u32, re: u32) -> (r: Option<IndexMap>)
    ensures
        opt_map_view(r) == opt_entries_after_remove(opt_map_view(*o), rs, re),
{
    match o {
        Some(m) => Some(m.shifted_for_remove(rs, re)),
        None => None,
    }
}

/// Row data (`axis` = rows) or column data (`axis` = columns) of `m1` moved
/// for lines of that axis inserted by `m2`.
pub open spec fn line_data_vs_insert(m1: Mutation, m2: Mutation, axis: Axis) -> Outcome {
    let p = row_column_data_of(m1.params);
    let q = range_params_of(m2.params);
    let s = axis_start(q.range, axis);
    let c = axis_span(q.range, axis);
    if !spec_same_sheet(p.sheet, q.sheet) {
        unchanged(m1, m2)
    } else {
        first_becomes(
            Some(
                with_params_v(
                    m1,
                    ParamsV::RowColumnData(
                        match axis {
                            Axis::Rows => RowColumnDataV {
                                sheet: p.sheet,
                                row_data: opt_entries_after_insert(p.row_data, s, c),
                                column_data: p.column_data,
                            },
                            Axis::Columns => RowColumnDataV {
                                sheet: p.sheet,
                                row_data: p.row_data,
                                column_data: opt_entries_after_insert(p.column_data, s, c),
                            },
                        },
                    ),
                ),
            ),
            m2,
        )
    }
}

pub fn reconcile_line_data_with_insert(m1: &MutationInfo, m2: &MutationInfo, axis: Axis) -> (r: TransformResult)
    ensures
        r@ == line_data_vs_insert(m1@, m2@, axis),
{
    let p = row_column_data_from(&m1.params);
    let q = range_params_from(&m2.params);
    if !same_sheet(&p.sub_unit, &q.sub_unit) {
        return keep_both(m1, m2);
    }
    let s = start_of(&q.range, axis);
    let c = span_of(&q.range, axis);
    let params = match axis {
        Axis::Rows => RowColumnDataParams {
            sub_unit: p.sub_unit,
            row_data: shift_opt_map_for_insert(&p.row_data, s, c),
            column_data: p.column_data,
        },
        Axis::Columns => RowColumnDataParams {
            sub_unit: p.sub_unit,
            row_data: p.row_data,
            column_data: shift_opt_map_for_insert(&p.column_data, s, c),
        },
    };
    first_replaced(Some(m1.with_params(MutationParams::RowColumnData(params))), m2)
}

/// Row or column data of `m1` for lines of that axis removed by `m2`: data of
/// removed lines is dropped, later lines move back.
pub open spec fn line_data_vs_remove(m1: Mutation, m2: Mutation, axis: Axis) -> Outcome {
    let p = row_column_data_of(m1.params);
    let q = range_params_of(m2.params);
    let rs = axis_start(q.range, axis);
    let re = axis_end(q.range, axis);
    if !spec_same_sheet(p.sheet, q.sheet) {
        unchanged(m1, m2)
    } else {
        first_becomes(
            Some(
                with_params_v(
                    m1,
                    ParamsV::RowColumnData(
                        match axis {
                            Axis::Rows => RowColumnDataV {
                                sheet: p.sheet,
                                row_data: opt_entries_after_remove(p.row_data, rs, re),
                                column_data: p.column_data,
                            },
                            Axis::Columns => RowColumnDataV {
                                sheet: p.sheet,
                                row_data: p.row_data,
                                column_data: opt_entries_after_remove(p.column_data, rs, re),
                            },
                        },
                    ),
                ),
            ),
            m2,
        )
    }
}

pub fn reconcile_line_data_with_remove(m1: &MutationInfo, m2: &MutationInfo, axis: Axis) -> (r: TransformResult)
    ensures
        r@ == line_data_vs_remove(m1@, m2@, axis),
{
    let p = row_column_data_from(&m1.params);
    let q = range_params_from(&m2.params);
    if !same_sheet(&p.sub_unit, &q.sub_unit) {
        return keep_both(m1, m2);
    }
    let rs = start_of(&q.range, axis);
    let re = end_of(&q.range, axis);
    let params = match axis {
        Axis::Rows => RowColumnDataParams {
            sub_unit: p.sub_unit,
            row_data: shift_opt_map_for_remove(&p.row_data, rs, re),
            column_data: p.column_data,
        },
        Axis::Columns => RowColumnDataParams {
            sub_unit: p.sub_unit,
            row_data: p.row_data,
            column_data: shift_opt_map_for_remove(&p.column_data, rs, re),
        },
    };
    first_replaced(Some(m1.with_params(MutationParams::RowColumnData(params))), m2)
}

// ---------------------------------------------------------------------------
// Moved rows or columns
// ---------------------------------------------------------------------------
pub open spec fn with_move(m: Mutation, p: MoveRowsColsV, source: Range, target: Range) -> Mutation {
    with_params_v(m, ParamsV::MoveRowsCols(MoveRowsColsV { sheet: p.sheet, source_range: source, target_range: target }))
}

/// A move of lines (`m1`) against lines inserted along the same axis (`m2`):
/// the source and the target move.
pub open spec fn move_lines_vs_insert(m1: Mutation, m2: Mutation, axis: Axis) -> Outcome {
    let p = move_rows_cols_of(m1.params);
    let q = range_params_of(m2.params);
    let s = axis_start(q.range, axis);
    let c = axis_span(q.range, axis);
    if !spec_same_sheet(p.sheet, q.sheet) {
        unchanged(m1, m2)
    } else {
        first_becomes(Some(with_move(m1, p, range_after_insert(p.source_range, axis, s, c), range_after_insert(p.target_range, axis, s, c))), m2)
    }
}

pub fn reconcile_move_lines_with_insert(m1: &MutationInfo, m2: &MutationInfo, axis: Axis) -> (r: TransformResult)
    ensures
        r@ == move_lines_vs_insert(m1@, m2@, axis),
{
    let p = move_rows_cols_from(&m1.params);
    let q = range_params_from(&m2.params);
    if !same_sheet(&p.sub_unit, &q.sub_unit) {
        return keep_both(m1, m2);
    }
    let s = start_of(&q.range, axis);
    let c = span_of(&q.range, axis);
    let mut source = p.source_range;
    let mut target = p.target_range;
    shift_range_for_insert(&mut source, axis, s, c);
    shift_range_for_insert(&mut target, axis, s, c);
    let params = MoveRowsColsParams { sub_unit: p.sub_unit, source_range: source, target_range: target };
    first_replaced(Some(m1.with_params(MutationParams::MoveRowsCols(params))), m2)
}

/// A move of lines (`m1`) against lines removed along the same axis (`m2`):
/// dropped when its source or its target is removed entirely.
pub open spec fn move_lines_vs_remove(m1: Mutation, m2: Mutation, axis: Axis) -> Outcome {
    let p = move_rows_cols_of(m1.params);
    let q = range_params_of(m2.params);
    let rs = axis_start(q.range, axis);
    let re = axis_end(q.range, axis);
    if !spec_same_sheet(p.sheet, q.sheet) {
        unchanged(m1, m2)
    } else if range_removed(p.source_range, axis, rs, re) || range_removed(p.target_range, axis, rs, re) {
        first_becomes(None, m2)
    } else {
        first_becomes(Some(with_move(m1, p, range_after_remove(p.source_range, axis, rs, re), range_after_remove(p.target_range, axis, rs, re))), m2)
    }
}

pub fn reconcile_move_lines_with_remove(m1: &MutationInfo, m2: &MutationInfo, axis: Axis) -> (r: TransformResult)
    ensures
        r@ == move_lines_vs_remove(m1@, m2@, axis),
{
    let p = move_rows_cols_from(&m1.params);
    let q = range_params_from(&m2.params);
    if !same_sheet(&p.sub_unit, &q.sub_unit) {
        return keep_both(m1, m2);
    }
    let rs = start_of(&q.range, axis);
    let re = end_of(&q.range, axis);
    let mut source = p.source_range;
    let mut target = p.target_range;
    if !shift_range_for_remove(&mut source, axis, rs, re) || !shift_range_for_remove(&mut target, axis, rs, re) {
        return first_replaced(None, m2);
    }
    let params = MoveRowsColsParams { sub_unit: p.sub_unit, source_range: source, target_range: target };
    first_replaced(Some(m1.with_params(MutationParams::MoveRowsCols(params))), m2)
}

// ---------------------------------------------------------------------------
// Reordered rows
// ---------------------------------------------------------------------------
pub open spec fn with_reorder(m: Mutation, p: ReorderV, range: Range, order: Seq<(Key, Seq<char>)>) -> Mutation {
    with_params_v(m, ParamsV::Reorder(ReorderV { sheet: p.sheet, range, order }))
}

/// A sort of rows (`m1`) against lines inserted (`m2`): its range moves, and
/// for inserted rows so do the row keys of its order.
pub open spec fn reorder_vs_insert(m1: Mutation, m2: Mutation, axis: Axis) -> Outcome {
    let p = reorder_of(m1.params);
    let q = range_params_of(m2.params);
    let s = axis_start(q.range, axis);
    let c = axis_span(q.range, axis);
    if !spec_same_sheet(p.sheet, q.sheet) {
        unchanged(m1, m2)
    } else {
        first_becomes(
            Some(
                with_reorder(
                    m1,
                    p,
                    range_after_insert(p.range, axis, s, c),
                    match axis {
                        Axis::Rows => entries_after_insert(p.order, s, c),
                        Axis::Columns => p.order,
                    },
                ),
            ),
            m2,
        )
    }
}

pub fn reconcile_reorder_with_insert(m1: &MutationInfo, m2: &MutationInfo, axis: Axis) -> (r: TransformResult)
    ensures
        r@ == reorder_vs_insert(m1@, m2@, axis),
{
    let p = reorder_from(&m1.params);
    let q = range_params_from(&m2.params);
    if !same_sheet(&p.sub_unit, &q.sub_unit) {
        return keep_both(m1, m2);
    }
    let s = start_of(&q.range, axis);
    let c = span_of(&q.range, axis);
    let mut range = p.range;
    shift_range_for_insert(&mut range, axis, s, c);
    let order = match axis {
        Axis::Rows => p.order.shifted_for_insert(s, c),
        Axis::Columns => p.order,
    };
    let params = ReorderRangeParams { sub_unit: p.sub_unit, range, order };
    first_replaced(Some(m1.with_params(MutationParams::Reorder(params))), m2)
}

/// A sort of rows (`m1`) against lines removed (`m2`): dropped when its range
/// is removed; otherwise its range shrinks, and for removed rows the order
/// loses the removed rows' keys and later keys move back.
pub open spec fn reorder_vs_remove(m1: Mutation, m2: Mutation, axis: Axis) -> Outcome {
    let p = reorder_of(m1.params);
    let q = range_params_of(m2.params);
    let rs = axis_start(q.range, axis);
    let re = axis_end(q.range, axis);
    if !spec_same_sheet(p.sheet, q.sheet) {
        unchanged(m1, m2)
    } else if range_removed(p.range, axis, rs, re) {
        first_becomes(None, m2)
    } else {
        first_becomes(
            Some(
                with_reorder(
                    m1,
                    p,
                    range_after_remove(p.range, axis, rs, re),
                    match axis {
                        Axis::Rows => entries_after_remove(p.order, rs, re),
                        Axis::Columns => p.order,
                    },
                ),
            ),
            m2,
        )
    }
}

pub fn reconcile_reorder_with_remove(m1: &MutationInfo, m2: &MutationInfo, axis: Axis) -> (r: TransformResult)
    ensures
        r@ == reorder_vs_remove(m1@, m2@, axis),
{
    let p = reorder_from(&m1.params);
    let q = range_params_from(&m2.params);
    if !same_sheet(&p.sub_unit, &q.sub_unit) {
        return keep_both(m1, m2);
    }
    let rs = start_of(&q.range, axis);
    let re = end_of(&q.range, axis);
    let mut range = p.range;
    if !shift_range_for_remove(&mut range, axis, rs, re) {
        return first_replaced(None, m2);
    }
    let order = match axis {
        Axis::Rows => p.order.shifted_for_remove(rs, re),
        Axis::Columns => p.order,
    };
    let params = ReorderRangeParams { sub_unit: p.sub_unit, range, order };
    first_replaced(Some(m1.with_params(MutationParams::Reorder(params))), m2)
}

// ---------------------------------------------------------------------------
// Frozen panes
// ---------------------------------------------------------------------------
/// Frozen panes after lines are inserted: the first scrolling line moves when
/// the insertion is at or before it.
pub open spec fn frozen_after_insert(f: FrozenV, axis: Axis, start: u32, count: u32) -> FrozenV {
    match axis {
        Axis::Rows => FrozenV { start_row: shift_index_for_insert(f.start_row, start, count), ..f },
        Axis::Columns => FrozenV { start_column: shift_index_for_insert(f.start_column, start, count), ..f },
    }
}

/// Frozen panes after lines `[rs, re]` are removed: when the removal starts at
/// or before the first scrolling line, the frozen count shrinks by the number
/// of removed lines (not below zero) and the first scrolling line moves back.
pub open spec fn frozen_after_remove(f: FrozenV, axis: Axis, rs: u32, re: u32) -> FrozenV {
    let n = crate::sheet::span(rs, re);
    match axis {
        Axis::Rows => if f.start_row >= rs {
            FrozenV {
                start_row: start_after_remove(f.start_row, rs, re),
                y_split: if f.y_split >= n { (f.y_split - n) as u32 } else { 0 },
                ..f
            }
        } else {
            f
        },
        Axis::Columns => if f.start_column >= rs {
            FrozenV {
                start_column: start_after_remove(f.start_column, rs, re),
                x_split: if f.x_split >= n { (f.x_split - n) as u32 } else { 0 },
                ..f
            }
        } else {
            f
        },
    }
}

pub open spec fn frozen_vs_insert(m1: Mutation, m2: Mutation, axis: Axis) -> Outcome {
    let p = frozen_of(m1.params);
    let q = range_params_of(m2.params);
    if !spec_same_sheet(p.sheet, q.sheet) {
        unchanged(m1, m2)
    } else {
        first_becomes(Some(with_params_v(m1, ParamsV::Frozen(frozen_after_insert(p, axis, axis_start(q.range, axis), axis_span(q.range, axis))))), m2)
    }
}

pub open spec fn frozen_vs_remove(m1: Mutation, m2: Mutation, axis: Axis) -> Outcome {
    let p = frozen_of(m1.params);
    let q = range_params_of(m2.params);
    if !spec_same_sheet(p.sheet, q.sheet) {
        unchanged(m1, m2)
    } else {
        first_becomes(Some(with_params_v(m1, ParamsV::Frozen(frozen_after_remove(p, axis, axis_start(q.range, axis), axis_end(q.range, axis))))), m2)
    }
}

fn shift_frozen_for_insert(f: &mut SetFrozenParams, axis: Axis, start: u32, count: u32)
    ensures
        final(f)@ == frozen_after_insert(old(f)@, axis, start, count),
{
    match axis {
        Axis::Rows => {
            if f.start_row >= start {
                f.start_row = f.start_row.wrapping_add(count);
            }
        },
        Axis::Columns => {
            if f.start_column >= start {
                f.start_column = f.start_column.wrapping_add(count);
            }
        },
    }
}

fn shift_frozen_for_remove(f: &mut SetFrozenParams, axis: Axis, rs: u32, re: u32)
    ensures
        final(f)@ == frozen_after_remove(old(f)@, axis, rs, re),
{
    let n = crate::sheet::count_of(rs, re);
    match axis {
        Axis::Rows => {
            if f.start_row >= rs {
                f.y_split = f.y_split.saturating_sub(n);
                f.start_row = if f.start_row > re {
                    f.start_row.wrapping_sub(n)
                } else {
                    rs
                };
            }
        },
        Axis::Columns => {
            if f.start_column >= rs {
                f.x_split = f.x_split.saturating_sub(n);
                f.start_column = if f.start_column > re {
                    f.start_column.wrapping_sub(n)
                } else {
                    rs
                };
            }
        },
    }
}

pub fn reconcile_frozen_with_insert(m1: &MutationInfo, m2: &MutationInfo, axis: Axis) -> (r: TransformResult)
    ensures
        r@ == frozen_vs_insert(m1@, m2@, axis),
{
    let mut p = frozen_from(&m1.params);
    let q = range_params_from(&m2.params);
    if !same_sheet(&p.sub_unit, &q.sub_unit) {
        return keep_both(m1, m2);
    }
    shift_frozen_for_insert(&mut p, axis, start_of(&q.range, axis), span_of(&q.range, axis));
    first_replaced(Some(m1.with_params(MutationParams::Frozen(p))), m2)
}

pub fn reconcile_frozen_with_remove(m1: &MutationInfo, m2: &MutationInfo, axis: Axis) -> (r: TransformResult)
    ensures
        r@ == frozen_vs_remove(m1@, m2@, axis),
{
    let mut p = frozen_from(&m1.params);
    let q = range_params_from(&m2.params);
    if !same_sheet(&p.sub_unit, &q.sub_unit) {
        return keep_both(m1, m2);
    }
    shift_frozen_for_remove(&mut p, axis, start_of(&q.range, axis), end_of(&q.range, axis));
    first_replaced(Some(m1.with_params(MutationParams::Frozen(p))), m2)
}

// ---------------------------------------------------------------------------
// Moved blocks of cells
// ---------------------------------------------------------------------------
/// A move of a block of cells after lines are inserted: both blocks and the
/// cell values they carry move.
pub open spec fn move_range_after_insert(p: MoveRangeV, axis: Axis, s: u32, c: u32) -> MoveRangeV {
    MoveRangeV {
        unit_id: p.unit_id,
        from_range: range_after_insert(p.from_range, axis, s, c),
        to_range: range_after_insert(p.to_range, axis, s, c),
        from_sheet: p.from_sheet,
        from_value: cells_after_insert(p.from_value, axis, s, c),
        to_sheet: p.to_sheet,
        to_value: cells_after_insert(p.to_value, axis, s, c),
    }
}

/// A move of a block of cells after lines `[rs, re]` are removed (when
/// neither block is removed entirely).
pub open spec fn move_range_after_remove(p: MoveRangeV, axis: Axis, rs: u32, re: u32) -> MoveRangeV {
    MoveRangeV {
        unit_id: p.unit_id,
        from_range: range_after_remove(p.from_range, axis, rs, re),
        to_range: range_after_remove(p.to_range, axis, rs, re),
        from_sheet: p.from_sheet,
        from_value: cells_after_remove(p.from_value, axis, rs, re),
        to_sheet: p.to_sheet,
        to_value: cells_after_remove(p.to_value, axis, rs, re),
    }
}

/// A move of cells (`m1`) against lines inserted in the same workbook (`m2`).
pub open spec fn move_range_vs_insert(m1: Mutation, m2: Mutation, axis: Axis) -> Outcome {
    let q = range_params_of(m2.params);
    match move_range_of(m1.params) {
        Some(p) => if p.unit_id != q.sheet.unit_id {
            unchanged(m1, m2)
        } else {
            first_becomes(Some(with_params_v(m1, ParamsV::MoveRange(move_range_after_insert(p, axis, axis_start(q.range, axis), axis_span(q.range, axis))))), m2)
        },
        None => unchanged(m1, m2),
    }
}

/// A move of cells (`m1`) against lines removed in the same workbook (`m2`):
/// dropped when either block is removed entirely.
pub open spec fn move_range_vs_remove(m1: Mutation, m2: Mutation, axis: Axis) -> Outcome {
    let q = range_params_of(m2.params);
    let rs = axis_start(q.range, axis);
    let re = axis_end(q.range, axis);
    match move_range_of(m1.params) {
        Some(p) => if p.unit_id != q.sheet.unit_id {
            unchanged(m1, m2)
        } else if range_removed(p.from_range, axis, rs, re) || range_removed(p.to_range, axis, rs, re) {
            first_becomes(None, m2)
        } else {
            first_becomes(Some(with_params_v(m1, ParamsV::MoveRange(move_range_after_remove(p, axis, rs, re)))), m2)
        },
        None => unchanged(m1, m2),
    }
}

fn shift_side_for_insert(side: &MoveRangeSide, axis: Axis, s: u32, c: u32) -> (r: MoveRangeSide)
    ensures
        r.sub_unit_id@ == side.sub_unit_id@,
        r.value@ == cells_after_insert(side.value@, axis, s, c),
{
    let value = match axis {
        Axis::Rows => side.value.shift_rows_for_insert(s, c),
        Axis::Columns => side.value.shift_cols_for_insert(s, c),
    };
    MoveRangeSide { sub_unit_id: side.sub_unit_id.clone(), value }
}

fn shift_side_for_remove(side: &MoveRangeSide, axis: Axis, rs: u32, re: u32) -> (r: MoveRangeSide)
    ensures
        r.sub_unit_id@ == side.sub_unit_id@,
        r.value@ == cells_after_remove(side.value@, axis, rs, re),
{
    let value = match axis {
        Axis::Rows => side.value.shift_rows_for_remove(rs, re),
        Axis::Columns => side.value.shift_cols_for_remove(rs, re),
    };
    MoveRangeSide { sub_unit_id: side.sub_unit_id.clone(), value }
}

pub fn reconcile_move_range_with_insert(m1: &MutationInfo, m2: &MutationInfo, axis: Axis) -> (r: TransformResult)
    ensures
        r@ == move_range_vs_insert(m1@, m2@, axis),
{
    let q = range_params_from(&m2.params);
    match move_range_from(&m1.params) {
        Some(p) => {
            if p.unit_id != q.sub_unit.unit_id {
                return keep_both(m1, m2);
            }
            let s = start_of(&q.range, axis);
            let c = span_of(&q.range, axis);
            let mut from_range = p.from_range;
            let mut to_range = p.to_range;
            shift_range_for_insert(&mut from_range, axis, s, c);
            shift_range_for_insert(&mut to_range, axis, s, c);
            let params = MoveRangeParams {
                unit_id: p.unit_id,
                from_range,
                to_range,
                from: shift_side_for_insert(&p.from, axis, s, c),
                to: shift_side_for_insert(&p.to, axis, s, c),
            };
            first_replaced(Some(m1.with_params(MutationParams::MoveRange(params))), m2)
        },
        None => keep_both(m1, m2),
    }
}

pub fn reconcile_move_range_with_remove(m1: &MutationInfo, m2: &MutationInfo, axis: Axis) -> (r: TransformResult)
    ensures
        r@ == move_range_vs_remove(m1@, m2@, axis),
{
    let q = range_params_from(&m2.params);
    match move_range_from(&m1.params) {
        Some(p) => {
            if p.unit_id != q.sub_unit.unit_id {
                return keep_both(m1, m2);
            }
            let rs = start_of(&q.range, axis);
            let re = end_of(&q.range, axis);
            let mut from_range = p.from_range;
            let mut to_range = p.to_range;
            if !shift_range_for_remove(&mut from_range, axis, rs, re) || !shift_range_for_remove(&mut to_range, axis, rs, re) {
                return first_replaced(None, m2);
            }
            let params = MoveRangeParams {
                unit_id: p.unit_id,
                from_range,
                to_range,
                from: shift_side_for_remove(&p.from, axis, rs, re),
                to: shift_side_for_remove(&p.to, axis, rs, re),
            };
            first_replaced(Some(m1.with_params(MutationParams::MoveRange(params))), m2)
        },
        None => keep_both(m1, m2),
    }
}

// ---------------------------------------------------------------------------
// By kind
// ---------------------------------------------------------------------------
/// A mutation of kind `kind` (`m1`) against lines inserted along `axis` (`m2`).
pub open spec fn kind_vs_insert(kind: SheetTransformKind, m1: Mutation, m2: Mutation, axis: Axis) -> Outcome {
    match kind {
        SheetTransformKind::Range => range_vs_insert(m1, m2, axis),
        SheetTransformKind::Ranges => ranges_vs_insert(m1, m2, axis),
        SheetTransformKind::WorksheetMerge => ranges_vs_insert(m1, m2, axis),
        SheetTransformKind::RowData => if axis == Axis::Rows {
            line_data_vs_insert(m1, m2, axis)
        } else {
            unchanged(m1, m2)
        },
        SheetTransformKind::ColumnData => if axis == Axis::Columns {
            line_data_vs_insert(m1, m2, axis)
        } else {
            unchanged(m1, m2)
        },
        SheetTransformKind::MoveRange => move_range_vs_insert(m1, m2, axis),
        SheetTransformKind::MoveRows => if axis == Axis::Rows {
            move_lines_vs_insert(m1, m2, axis)
        } else {
            unchanged(m1, m2)
        },
        SheetTransformKind::MoveCols => if axis == Axis::Columns {
            move_lines_vs_insert(m1, m2, axis)
        } else {
            unchanged(m1, m2)
        },
        SheetTransformKind::ReorderRange => reorder_vs_insert(m1, m2, axis),
        SheetTransformKind::SetFrozen => frozen_vs_insert(m1, m2, axis),
        _ => unchanged(m1, m2),
    }
}

/// A mutation of kind `kind` (`m1`) against lines removed along `axis` (`m2`).
pub open spec fn kind_vs_remove(kind: SheetTransformKind, m1: Mutation, m2: Mutation, axis: Axis) -> Outcome {
    match kind {
        SheetTransformKind::Range => range_vs_remove(m1, m2, axis),
        SheetTransformKind::Ranges => ranges_vs_remove(m1, m2, axis),
        SheetTransformKind::WorksheetMerge => ranges_vs_remove(m1, m2, axis),
        SheetTransformKind::RowData => if axis == Axis::Rows {
            line_data_vs_remove(m1, m2, axis)
        } else {
            unchanged(m1, m2)
        },
        SheetTransformKind::ColumnData => if axis == Axis::Columns {
            line_data_vs_remove(m1, m2, axis)
        } else {
            unchanged(m1, m2)
        },
        SheetTransformKind::MoveRange => move_range_vs_remove(m1, m2, axis),
        SheetTransformKind::MoveRows => if axis == Axis::Rows {
            move_lines_vs_remove(m1, m2, axis)
        } else {
            unchanged(m1, m2)
        },
        SheetTransformKind::MoveCols => if axis == Axis::Columns {
            move_lines_vs_remove(m1, m2, axis)
        } else {
            unchanged(m1, m2)
        },
        SheetTransformKind::ReorderRange => reorder_vs_remove(m1, m2, axis),
        SheetTransformKind::SetFrozen => frozen_vs_remove(m1, m2, axis),
        _ => unchanged(m1, m2),
    }
}

pub fn reconcile_kind_with_insert(kind: SheetTransformKind, m1: &MutationInfo, m2: &MutationInfo, axis: Axis) -> (r: TransformResult)
    ensures
        r@ == kind_vs_insert(kind, m1@, m2@, axis),
{
    match kind {
        SheetTransformKind::Range => reconcile_range_with_insert(m1, m2, axis),
        SheetTransformKind::Ranges => reconcile_ranges_with_insert(m1, m2, axis),
        SheetTransformKind::WorksheetMerge => reconcile_ranges_with_insert(m1, m2, axis),
        SheetTransformKind::RowData => if axis == Axis::Rows {
            reconcile_line_data_with_insert(m1, m2, axis)
        } else {
            keep_both(m1, m2)
        },
        SheetTransformKind::ColumnData => if axis == Axis::Columns {
            reconcile_line_data_with_insert(m1, m2, axis)
        } else {
            keep_both(m1, m2)
        },
        SheetTransformKind::MoveRange => reconcile_move_range_with_insert(m1, m2, axis),
        SheetTransformKind::MoveRows => if axis == Axis::Rows {
            reconcile_move_lines_with_insert(m1, m2, axis)
        } else {
            keep_both(m1, m2)
        },
        SheetTransformKind::MoveCols => if axis == Axis::Columns {
            reconcile_move_lines_with_insert(m1, m2, axis)
        } else {
            keep_both(m1, m2)
        },
        SheetTransformKind::ReorderRange => reconcile_reorder_with_insert(m1, m2, axis),
        SheetTransformKind::SetFrozen => reconcile_frozen_with_insert(m1, m2, axis),
        _ => keep_both(m1, m2),
    }
}

pub fn reconcile_kind_with_remove(kind: SheetTransformKind, m1: &MutationInfo, m2: &MutationInfo, axis: Axis) -> (r: TransformResult)
    ensures
        r@ == kind_vs_remove(kind, m1@, m2@, axis),
{
    match kind {
        SheetTransformKind::Range => reconcile_range_with_remove(m1, m2, axis),
        SheetTransformKind::Ranges => reconcile_ranges_with_remove(m1, m2, axis),
        SheetTransformKind::WorksheetMerge => reconcile_ranges_with_remove(m1, m2, axis),
        SheetTransformKind::RowData => if axis == Axis::Rows {
            reconcile_line_data_with_remove(m1, m2, axis)
        } else {
            keep_both(m1, m2)
        },
        SheetTransformKind::ColumnData => if axis == Axis::Columns {
            reconcile_line_data_with_remove(m1, m2, axis)
        } else {
            keep_both(m1, m2)
        },
        SheetTransformKind::MoveRange => reconcile_move_range_with_remove(m1, m2, axis),
        SheetTransformKind::MoveRows => if axis == Axis::Rows {
            reconcile_move_lines_with_remove(m1, m2, axis)
        } else {
            keep_both(m1, m2)
        },
        SheetTransformKind::MoveCols => if axis == Axis::Columns {
            reconcile_move_lines_with_remove(m1, m2, axis)
        } else {
            keep_both(m1, m2)
        },
        SheetTransformKind::ReorderRange => reconcile_reorder_with_remove(m1, m2, axis),
        SheetTransformKind::SetFrozen => reconcile_frozen_with_remove(m1, m2, axis),
        _ => keep_both(m1, m2),
    }
}

/// The merge of two consecutive mutations of one of these kinds: the later
/// one replaces the earlier one when they have the same id.
pub open spec fn later_wins(m1: Mutation, m2: Mutation) -> Seq<Mutation> {
    if m1.id != m2.id {
        seq![m1, m2]
    } else {
        seq![m2]
    }
}

pub fn keep_later(m1: &MutationInfo, m2: &MutationInfo) -> (r: Vec<MutationInfo>)
    ensures
        mutations_view(r@) == later_wins(m1@, m2@),
{
    if m1.id != m2.id {
        return crate::mutation::both(m1, m2);
    }
    let r = vec![m2.copy()];
    assert(mutations_view(r@) =~= seq![m2@]);
    r
}

impl MutationTransform for SheetsGenericTransform {
    fn mutation_id() -> (id: &'static str)
        ensures
            id@ == "sheet.mutation.generic"@,
    {
        "sheet.mutation.generic"
    }

    fn compose(&self, m1: &MutationInfo, m2: &MutationInfo) -> (r: Vec<MutationInfo>)
        ensures
            mutations_view(r@) == later_wins(m1@, m2@),
    {
        keep_later(m1, m2)
    }

    fn transform_with_insert_row(&self, m1: &MutationInfo, m2: &MutationInfo) -> (r: TransformResult)
        ensures
            r@ == kind_vs_insert(self.kind, m1@, m2@, Axis::Rows),
    {
        reconcile_kind_with_insert(self.kind, m1, m2, Axis::Rows)
    }

    fn transform_with_insert_col(&self, m1: &MutationInfo, m2: &MutationInfo) -> (r: TransformResult)
        ensures
            r@ == kind_vs_insert(self.kind, m1@, m2@, Axis::Columns),
    {
        reconcile_kind_with_insert(self.kind, m1, m2, Axis::Columns)
    }

    fn transform_with_remove_rows(&self, m1: &MutationInfo, m2: &MutationInfo) -> (r: TransformResult)
        ensures
            r@ == kind_vs_remove(self.kind, m1@, m2@, Axis::Rows),
    {
        reconcile_kind_with_remove(self.kind, m1, m2, Axis::Rows)
    }

    fn transform_with_remove_col(&self, m1: &MutationInfo, m2: &MutationInfo) -> (r: TransformResult)
        ensures
            r@ == kind_vs_remove(self.kind, m1@, m2@, Axis::Columns),
    {
        reconcile_kind_with_remove(self.kind, m1, m2, Axis::Columns)
    }
}

} // verus!
