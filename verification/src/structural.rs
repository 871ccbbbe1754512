//! How structural edits (inserting or removing whole rows or columns) are
//! reconciled with each other and with cell values. Each rule is written once
//! for an [`Axis`]; the row and column transforms apply it to their axis.
use vstd::prelude::*;
use crate::sheet::{
    axis_end, axis_span, axis_start, end_of, extend_end, move_back, move_forward,
    range_end_extended, range_moved_back, range_moved_forward, same_sheet, span_of,
    spec_same_sheet, start_of, Axis, Range,
};
use crate::matrix::{
    cols_after_insert, cols_after_remove, entries_after_insert, entries_after_remove,
    CellMatrix, Key, Row,
};
use crate::sheet::{copy_ranges, ranges_after_insert, shift_ranges_for_insert};
use crate::mutation::{
    copy_opt_text, RuleParams, RuleParamsV, RuleV, RuleValue, cell_values_from, cell_values_of,
    first_becomes, first_replaced, keep_both, range_params_from, range_params_of, refuse,
    refused, second_becomes, second_replaced, unchanged, with_params_v, CellValuesV, Mutation,
    MutationInfo, MutationParams, Outcome, ParamsV, RangeParams, RangeParamsV,
    SetRangeValuesMutationParams, TransformResult,
};

verus! {

// ---------------------------------------------------------------------------
// Mutations rebuilt with new parameters
// ---------------------------------------------------------------------------
/// `m` with its line-range parameters `p`, the range replaced by `r`.
pub open spec fn with_range(m: Mutation, p: RangeParamsV, r: Range) -> Mutation {
    with_params_v(m, ParamsV::Range(RangeParamsV { sheet: p.sheet, range: r, info: p.info }))
}

pub fn rebuilt_with_range(m: &MutationInfo, p: RangeParams, r: Range) -> (out: MutationInfo)
    ensures
        out@ == with_range(m@, p@, r),
{
    m.with_params(MutationParams::Range(RangeParams { sub_unit: p.sub_unit, range: r, info: p.info }))
}

/// `m` with its cell-value parameters `p`, the cells replaced by `cells`.
pub open spec fn with_cells(m: Mutation, p: CellValuesV, cells: Option<Seq<(Key, Row)>>) -> Mutation {
    with_params_v(m, ParamsV::CellValues(CellValuesV { sheet: p.sheet, cell_value: cells }))
}

pub fn rebuilt_with_cells(
    m: &MutationInfo,
    p: SetRangeValuesMutationParams,
    cells: Option<CellMatrix>,
) -> (out: MutationInfo)
    ensures
        out@ == with_cells(
            m@,
            p@,
            match cells {
                Some(c) => Some(c@),
                None => None,
            },
        ),
{
    m.with_params(MutationParams::CellValues(SetRangeValuesMutationParams { sub_unit: p.sub_unit, cell_value: cells }))
}

// ---------------------------------------------------------------------------
// Insert against insert
// ---------------------------------------------------------------------------
/// Two insertions along `axis`: the one further down is moved past the other.
/// When both start at the same line, `ties_move_second` says which one moves.
pub open spec fn inserts_reconciled(m1: Mutation, m2: Mutation, axis: Axis, ties_move_second: bool) -> Outcome {
    let p1 = range_params_of(m1.params);
    let p2 = range_params_of(m2.params);
    let s1 = axis_start(p1.range, axis);
    let s2 = axis_start(p2.range, axis);
    if !spec_same_sheet(p1.sheet, p2.sheet) {
        unchanged(m1, m2)
    } else if s1 < s2 || (ties_move_second && s1 == s2) {
        second_becomes(m1, Some(with_range(m2, p2, range_moved_forward(p2.range, axis, axis_span(p1.range, axis)))))
    } else {
        first_becomes(Some(with_range(m1, p1, range_moved_forward(p1.range, axis, axis_span(p2.range, axis)))), m2)
    }
}

pub fn reconcile_inserts(m1: &MutationInfo, m2: &MutationInfo, axis: Axis, ties_move_second: bool) -> (r: TransformResult)
    ensures
        r@ == inserts_reconciled(m1@, m2@, axis, ties_move_second),
{
    let p1 = range_params_from(&m1.params);
    let p2 = range_params_from(&m2.params);
    if !same_sheet(&p1.sub_unit, &p2.sub_unit) {
        return keep_both(m1, m2);
    }
    let s1 = start_of(&p1.range, axis);
    let s2 = start_of(&p2.range, axis);
    if s1 < s2 || (ties_move_second && s1 == s2) {
        let moved = move_forward(p2.range, axis, span_of(&p1.range, axis));
        second_replaced(m1, Some(rebuilt_with_range(m2, p2, moved)))
    } else {
        let moved = move_forward(p1.range, axis, span_of(&p2.range, axis));
        first_replaced(Some(rebuilt_with_range(m1, p1, moved)), m2)
    }
}

// ---------------------------------------------------------------------------
// Insert against remove, remove against insert
// ---------------------------------------------------------------------------
/// The message of an insertion and a removal of columns that overlap.
pub open spec fn insert_remove_conflict() -> Seq<char> {
    "Insert col conflicts with remove col"@
}

pub fn insert_remove_conflict_message() -> (s: String)
    ensures
        s@ == insert_remove_conflict(),
{
    "Insert col conflicts with remove col".to_owned()
}

/// Rows inserted (`m1`) against rows removed (`m2`). An insertion inside the
/// removed block is dropped and the removal grows over the inserted rows.
pub open spec fn row_insert_vs_remove(m1: Mutation, m2: Mutation) -> Outcome {
    let p1 = range_params_of(m1.params);
    let p2 = range_params_of(m2.params);
    let ins = p1.range.start_row;
    if !spec_same_sheet(p1.sheet, p2.sheet) {
        unchanged(m1, m2)
    } else if p2.range.end_row < ins {
        first_becomes(Some(with_range(m1, p1, range_moved_back(p1.range, Axis::Rows, axis_span(p2.range, Axis::Rows)))), m2)
    } else if p2.range.start_row > ins {
        second_becomes(m1, Some(with_range(m2, p2, range_moved_forward(p2.range, Axis::Rows, axis_span(p1.range, Axis::Rows)))))
    } else {
        Outcome {
            m1_prime: None,
            m2_prime: Some(with_range(m2, p2, range_end_extended(p2.range, Axis::Rows, axis_span(p1.range, Axis::Rows)))),
            error: None,
        }
    }
}

pub fn reconcile_row_insert_with_remove(m1: &MutationInfo, m2: &MutationInfo) -> (r: TransformResult)
    ensures
        r@ == row_insert_vs_remove(m1@, m2@),
{
    let p1 = range_params_from(&m1.params);
    let p2 = range_params_from(&m2.params);
    if !same_sheet(&p1.sub_unit, &p2.sub_unit) {
        return keep_both(m1, m2);
    }
    let ins = p1.range.start_row;
    if p2.range.end_row < ins {
        let moved = move_back(p1.range, Axis::Rows, span_of(&p2.range, Axis::Rows));
        first_replaced(Some(rebuilt_with_range(m1, p1, moved)), m2)
    } else if p2.range.start_row > ins {
        let moved = move_forward(p2.range, Axis::Rows, span_of(&p1.range, Axis::Rows));
        second_replaced(m1, Some(rebuilt_with_range(m2, p2, moved)))
    } else {
        let grown = extend_end(p2.range, Axis::Rows, span_of(&p1.range, Axis::Rows));
        TransformResult { m1_prime: None, m2_prime: Some(rebuilt_with_range(m2, p2, grown)), error: None }
    }
}

/// Rows removed (`m1`) against rows inserted (`m2`). An insertion inside the
/// removed block is dropped and the removal grows over the inserted rows.
pub open spec fn row_remove_vs_insert(m1: Mutation, m2: Mutation) -> Outcome {
    let p1 = range_params_of(m1.params);
    let p2 = range_params_of(m2.params);
    let ins = p2.range.start_row;
    if !spec_same_sheet(p1.sheet, p2.sheet) {
        unchanged(m1, m2)
    } else if ins < p1.range.start_row {
        first_becomes(Some(with_range(m1, p1, range_moved_forward(p1.range, Axis::Rows, axis_span(p2.range, Axis::Rows)))), m2)
    } else if ins > p1.range.end_row {
        second_becomes(m1, Some(with_range(m2, p2, range_moved_back(p2.range, Axis::Rows, axis_span(p1.range, Axis::Rows)))))
    } else {
        Outcome {
            m1_prime: Some(with_range(m1, p1, range_end_extended(p1.range, Axis::Rows, axis_span(p2.range, Axis::Rows)))),
            m2_prime: None,
            error: None,
        }
    }
}

pub fn reconcile_row_remove_with_insert(m1: &MutationInfo, m2: &MutationInfo) -> (r: TransformResult)
    ensures
        r@ == row_remove_vs_insert(m1@, m2@),
{
    let p1 = range_params_from(&m1.params);
    let p2 = range_params_from(&m2.params);
    if !same_sheet(&p1.sub_unit, &p2.sub_unit) {
        return keep_both(m1, m2);
    }
    let ins = p2.range.start_row;
    if ins < p1.range.start_row {
        let moved = move_forward(p1.range, Axis::Rows, span_of(&p2.range, Axis::Rows));
        first_replaced(Some(rebuilt_with_range(m1, p1, moved)), m2)
    } else if ins > p1.range.end_row {
        let moved = move_back(p2.range, Axis::Rows, span_of(&p1.range, Axis::Rows));
        second_replaced(m1, Some(rebuilt_with_range(m2, p2, moved)))
    } else {
        let grown = extend_end(p1.range, Axis::Rows, span_of(&p2.range, Axis::Rows));
        TransformResult { m1_prime: Some(rebuilt_with_range(m1, p1, grown)), m2_prime: None, error: None }
    }
}

/// Columns inserted (`m1`) against columns removed (`m2`); an insertion inside
/// or just after the start of the removed block is refused.
pub open spec fn col_insert_vs_remove(m1: Mutation, m2: Mutation) -> Outcome {
    let p1 = range_params_of(m1.params);
    let p2 = range_params_of(m2.params);
    let ins = p1.range.start_column;
    if !spec_same_sheet(p1.sheet, p2.sheet) {
        unchanged(m1, m2)
    } else if ins <= p2.range.start_column {
        second_becomes(m1, Some(with_range(m2, p2, range_moved_forward(p2.range, Axis::Columns, axis_span(p1.range, Axis::Columns)))))
    } else if ins > p2.range.end_column {
        first_becomes(Some(with_range(m1, p1, range_moved_back(p1.range, Axis::Columns, axis_span(p2.range, Axis::Columns)))), m2)
    } else {
        refused(m1, m2, insert_remove_conflict())
    }
}

pub fn reconcile_col_insert_with_remove(m1: &MutationInfo, m2: &MutationInfo) -> (r: TransformResult)
    ensures
        r@ == col_insert_vs_remove(m1@, m2@),
{
    let p1 = range_params_from(&m1.params);
    let p2 = range_params_from(&m2.params);
    if !same_sheet(&p1.sub_unit, &p2.sub_unit) {
        return keep_both(m1, m2);
    }
    let ins = p1.range.start_column;
    if ins <= p2.range.start_column {
        let moved = move_forward(p2.range, Axis::Columns, span_of(&p1.range, Axis::Columns));
        second_replaced(m1, Some(rebuilt_with_range(m2, p2, moved)))
    } else if ins > p2.range.end_column {
        let moved = move_back(p1.range, Axis::Columns, span_of(&p2.range, Axis::Columns));
        first_replaced(Some(rebuilt_with_range(m1, p1, moved)), m2)
    } else {
        refuse(m1, m2, insert_remove_conflict_message())
    }
}

/// Columns removed (`m1`) against columns inserted (`m2`); an insertion inside
/// the removed block is refused.
pub open spec fn col_remove_vs_insert(m1: Mutation, m2: Mutation) -> Outcome {
    let p1 = range_params_of(m1.params);
    let p2 = range_params_of(m2.params);
    let ins = p2.range.start_column;
    if !spec_same_sheet(p1.sheet, p2.sheet) {
        unchanged(m1, m2)
    } else if ins <= p1.range.start_column {
        first_becomes(Some(with_range(m1, p1, range_moved_forward(p1.range, Axis::Columns, axis_span(p2.range, Axis::Columns)))), m2)
    } else if ins > p1.range.end_column {
        second_becomes(m1, Some(with_range(m2, p2, range_moved_back(p2.range, Axis::Columns, axis_span(p1.range, Axis::Columns)))))
    } else {
        refused(m1, m2, insert_remove_conflict())
    }
}

pub fn reconcile_col_remove_with_insert(m1: &MutationInfo, m2: &MutationInfo) -> (r: TransformResult)
    ensures
        r@ == col_remove_vs_insert(m1@, m2@),
{
    let p1 = range_params_from(&m1.params);
    let p2 = range_params_from(&m2.params);
    if !same_sheet(&p1.sub_unit, &p2.sub_unit) {
        return keep_both(m1, m2);
    }
    let ins = p2.range.start_column;
    if ins <= p1.range.start_column {
        let moved = move_forward(p1.range, Axis::Columns, span_of(&p2.range, Axis::Columns));
        first_replaced(Some(rebuilt_with_range(m1, p1, moved)), m2)
    } else if ins > p1.range.end_column {
        let moved = move_back(p2.range, Axis::Columns, span_of(&p1.range, Axis::Columns));
        second_replaced(m1, Some(rebuilt_with_range(m2, p2, moved)))
    } else {
        refuse(m1, m2, insert_remove_conflict_message())
    }
}

// ---------------------------------------------------------------------------
// Structural edits against cell values
// ---------------------------------------------------------------------------
/// Cells after lines are inserted along `axis`.
pub open spec fn cells_after_insert(c: Seq<(Key, Row)>, axis: Axis, start: u32, count: u32) -> Seq<(Key, Row)> {
    match axis {
        Axis::Rows => entries_after_insert(c, start, count),
        Axis::Columns => cols_after_insert(c, start, count),
    }
}

/// Cells after lines `[rs, re]` are removed along `axis`.
pub open spec fn cells_after_remove(c: Seq<(Key, Row)>, axis: Axis, rs: u32, re: u32) -> Seq<(Key, Row)> {
    match axis {
        Axis::Rows => entries_after_remove(c, rs, re),
        Axis::Columns => cols_after_remove(c, rs, re),
    }
}

pub open spec fn opt_cells_after_insert(o: Option<Seq<(Key, Row)>>, axis: Axis, start: u32, count: u32) -> Option<Seq<(Key, Row)>> {
    match o {
        Some(c) => Some(cells_after_insert(c, axis, start, count)),
        None => None,
    }
}

pub open spec fn opt_cells_after_remove(o: Option<Seq<(Key, Row)>>, axis: Axis, rs: u32, re: u32) -> Option<Seq<(Key, Row)>> {
    match o {
        Some(c) => Some(cells_after_remove(c, axis, rs, re)),
        None => None,
    }
}

fn shift_cells_for_insert(o: &Option<CellMatrix>, axis: Axis, start: u32, count: u32) -> (r: Option<CellMatrix>)
    ensures
        (match r {
            Some(c) => Some(c@),
            None => None,
        }) == opt_cells_after_insert(
            match *o {
                Some(c) => Some(c@),
                None => None,
            },
            axis,
            start,
            count,
        ),
{
    match o {
        Some(c) => match axis {
            Axis::Rows => Some(c.shift_rows_for_insert(start, count)),
            Axis::Columns => Some(c.shift_cols_for_insert(start, count)),
        },
        None => None,
    }
}

fn shift_cells_for_remove(o: &Option<CellMatrix>, axis: Axis, rs: u32, re: u32) -> (r: Option<CellMatrix>)
    ensures
        (match r {
            Some(c) => Some(c@),
            None => None,
        }) == opt_cells_after_remove(
            match *o {
                Some(c) => Some(c@),
                None => None,
            },
            axis,
            rs,
            re,
        ),
{
    match o {
        Some(c) => match axis {
            Axis::Rows => Some(c.shift_rows_for_remove(rs, re)),
            Axis::Columns => Some(c.shift_cols_for_remove(rs, re)),
        },
        None => None,
    }
}

/// Lines inserted (`m1`) against cell values (`m2`): the cells move.
pub open spec fn insert_vs_values(m1: Mutation, m2: Mutation, axis: Axis) -> Outcome {
    let p1 = range_params_of(m1.params);
    let p2 = cell_values_of(m2.params);
    if !spec_same_sheet(p1.sheet, p2.sheet) {
        unchanged(m1, m2)
    } else {
        second_becomes(m1, Some(with_cells(m2, p2, opt_cells_after_insert(p2.cell_value, axis, axis_start(p1.range, axis), axis_span(p1.range, axis)))))
    }
}

pub fn reconcile_insert_with_values(m1: &MutationInfo, m2: &MutationInfo, axis: Axis) -> (r: TransformResult)
    ensures
        r@ == insert_vs_values(m1@, m2@, axis),
{
    let p1 = range_params_from(&m1.params);
    let p2 = cell_values_from(&m2.params);
    if !same_sheet(&p1.sub_unit, &p2.sub_unit) {
        return keep_both(m1, m2);
    }
    let cells = shift_cells_for_insert(&p2.cell_value, axis, start_of(&p1.range, axis), span_of(&p1.range, axis));
    second_replaced(m1, Some(rebuilt_with_cells(m2, p2, cells)))
}

/// Lines removed (`m1`) against cell values (`m2`): cells of removed lines
/// are dropped, later cells move back.
pub open spec fn remove_vs_values(m1: Mutation, m2: Mutation, axis: Axis) -> Outcome {
    let p1 = range_params_of(m1.params);
    let p2 = cell_values_of(m2.params);
    if !spec_same_sheet(p1.sheet, p2.sheet) {
        unchanged(m1, m2)
    } else {
        second_becomes(m1, Some(with_cells(m2, p2, opt_cells_after_remove(p2.cell_value, axis, axis_start(p1.range, axis), axis_end(p1.range, axis)))))
    }
}

pub fn reconcile_remove_with_values(m1: &MutationInfo, m2: &MutationInfo, axis: Axis) -> (r: TransformResult)
    ensures
        r@ == remove_vs_values(m1@, m2@, axis),
{
    let p1 = range_params_from(&m1.params);
    let p2 = cell_values_from(&m2.params);
    if !same_sheet(&p1.sub_unit, &p2.sub_unit) {
        return keep_both(m1, m2);
    }
    let cells = shift_cells_for_remove(&p2.cell_value, axis, start_of(&p1.range, axis), end_of(&p1.range, axis));
    second_replaced(m1, Some(rebuilt_with_cells(m2, p2, cells)))
}

/// Cell values (`m1`) against inserted lines (`m2`): the cells move.
pub open spec fn values_vs_insert(m1: Mutation, m2: Mutation, axis: Axis) -> Outcome {
    let p1 = cell_values_of(m1.params);
    let p2 = range_params_of(m2.params);
    if !spec_same_sheet(p1.sheet, p2.sheet) {
        unchanged(m1, m2)
    } else {
        first_becomes(Some(with_cells(m1, p1, opt_cells_after_insert(p1.cell_value, axis, axis_start(p2.range, axis), axis_span(p2.range, axis)))), m2)
    }
}

pub fn reconcile_values_with_insert(m1: &MutationInfo, m2: &MutationInfo, axis: Axis) -> (r: TransformResult)
    ensures
        r@ == values_vs_insert(m1@, m2@, axis),
{
    let p1 = cell_values_from(&m1.params);
    let p2 = range_params_from(&m2.params);
    if !same_sheet(&p1.sub_unit, &p2.sub_unit) {
        return keep_both(m1, m2);
    }
    let cells = shift_cells_for_insert(&p1.cell_value, axis, start_of(&p2.range, axis), span_of(&p2.range, axis));
    first_replaced(Some(rebuilt_with_cells(m1, p1, cells)), m2)
}

/// Cell values (`m1`) against removed lines (`m2`): cells of removed lines are
/// dropped, later cells move back.
pub open spec fn values_vs_remove(m1: Mutation, m2: Mutation, axis: Axis) -> Outcome {
    let p1 = cell_values_of(m1.params);
    let p2 = range_params_of(m2.params);
    if !spec_same_sheet(p1.sheet, p2.sheet) {
        unchanged(m1, m2)
    } else {
        first_becomes(Some(with_cells(m1, p1, opt_cells_after_remove(p1.cell_value, axis, axis_start(p2.range, axis), axis_end(p2.range, axis)))), m2)
    }
}

pub fn reconcile_values_with_remove(m1: &MutationInfo, m2: &MutationInfo, axis: Axis) -> (r: TransformResult)
    ensures
        r@ == values_vs_remove(m1@, m2@, axis),
{
    let p1 = cell_values_from(&m1.params);
    let p2 = range_params_from(&m2.params);
    if !same_sheet(&p1.sub_unit, &p2.sub_unit) {
        return keep_both(m1, m2);
    }
    let cells = shift_cells_for_remove(&p1.cell_value, axis, start_of(&p2.range, axis), end_of(&p2.range, axis));
    first_replaced(Some(rebuilt_with_cells(m1, p1, cells)), m2)
}

// ---------------------------------------------------------------------------
// Rules that carry ranges (conditional formats, data validation)
// ---------------------------------------------------------------------------
/// A rule with its ranges moved for an insertion along `axis`.
pub open spec fn rule_after_insert(r: RuleV, axis: Axis, start: u32, count: u32) -> RuleV {
    RuleV {
        unit_id: r.unit_id,
        sub_unit_id: r.sub_unit_id,
        ranges: match r.ranges {
            Some(rs) => Some(ranges_after_insert(rs, axis, start, count)),
            None => None,
        },
        extra: r.extra,
    }
}

pub fn shift_rule_for_insert(r: &RuleValue, axis: Axis, start: u32, count: u32) -> (out: RuleValue)
    ensures
        out@ == rule_after_insert(r@, axis, start, count),
{
    let ranges = match &r.ranges {
        Some(v) => {
            let mut v2 = copy_ranges(v);
            shift_ranges_for_insert(&mut v2, axis, start, count);
            Some(v2)
        },
        None => None,
    };
    RuleValue {
        unit_id: copy_opt_text(&r.unit_id),
        sub_unit_id: copy_opt_text(&r.sub_unit_id),
        ranges,
        extra: r.extra.clone(),
    }
}

/// Lines inserted (`m1`) against a mutation that carries a rule (`m2`) on the
/// same sheet: the rule's ranges move.
pub open spec fn insert_vs_rule(m1: Mutation, m2: Mutation, axis: Axis) -> Outcome {
    let p1 = range_params_of(m1.params);
    match m2.params {
        ParamsV::Rule(p2) => if !spec_same_sheet(p1.sheet, p2.sheet) {
            unchanged(m1, m2)
        } else {
            second_becomes(
                m1,
                Some(
                    with_params_v(
                        m2,
                        ParamsV::Rule(
                            RuleParamsV {
                                sheet: p2.sheet,
                                rule: match p2.rule {
                                    Some(r) => Some(rule_after_insert(r, axis, axis_start(p1.range, axis), axis_span(p1.range, axis))),
                                    None => None,
                                },
                            },
                        ),
                    ),
                ),
            )
        },
        _ => unchanged(m1, m2),
    }
}

pub fn reconcile_insert_with_rule(m1: &MutationInfo, m2: &MutationInfo, axis: Axis) -> (r: TransformResult)
    ensures
        r@ == insert_vs_rule(m1@, m2@, axis),
{
    let p1 = range_params_from(&m1.params);
    match &m2.params {
        MutationParams::Rule(p2) => {
            if !same_sheet(&p1.sub_unit, &p2.sub_unit) {
                return keep_both(m1, m2);
            }
            let rule = match &p2.rule {
                Some(rv) => Some(shift_rule_for_insert(rv, axis, start_of(&p1.range, axis), span_of(&p1.range, axis))),
                None => None,
            };
            let params = RuleParams { sub_unit: p2.sub_unit.copy(), rule };
            second_replaced(m1, Some(m2.with_params(MutationParams::Rule(params))))
        },
        _ => keep_both(m1, m2),
    }
}

} // verus!
