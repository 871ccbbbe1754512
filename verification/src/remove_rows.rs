//! Row removal (`sheet.mutation.remove-rows`).
use vstd::prelude::*;
use crate::sheet::{
    count_of, range_moved_back, same_sheet, span, spec_same_sheet, wadd, with_axis, wsub, Axis,
    Range,
};
use crate::mutation::{
    both, keep_both, mutations_view, range_params_from, range_params_of, unchanged,
    with_params_v, Mutation, MutationInfo, MutationParams, Outcome, ParamsV, RangeParams,
    RangeParamsV, TransformResult,
};
use crate::mutation_transform::MutationTransform;
use crate::structural::{
    reconcile_remove_with_values, reconcile_row_remove_with_insert, remove_vs_values,
    row_remove_vs_insert,
};

verus! {

/// Transforms of row removals.
#[derive(Default)]
pub struct RemoveRowsTransform;

pub open spec fn max_u32(a: u32, b: u32) -> u32 {
    if a >= b {
        a
    } else {
        b
    }
}

pub open spec fn min_u32(a: u32, b: u32) -> u32 {
    if a <= b {
        a
    } else {
        b
    }
}

/// The rows `[s1, e1]` that a removal still has to remove once the rows
/// `[s2, e2]` are gone: all of them, moved back when the other block lies
/// before; none when the other block covers them; otherwise the rows outside
/// the overlap, starting where the first surviving row now is.
pub open spec fn rows_left_to_remove(r1: Range, r2: Range) -> Option<Range> {
    let s1 = r1.start_row;
    let e1 = r1.end_row;
    let s2 = r2.start_row;
    let e2 = r2.end_row;
    let c1 = span(s1, e1);
    if e2 < s1 {
        Some(range_moved_back(r1, Axis::Rows, span(s2, e2)))
    } else if s2 > e1 {
        Some(r1)
    } else {
        let remaining = wsub(c1, span(max_u32(s1, s2), min_u32(e1, e2)));
        if remaining == 0 {
            None
        } else {
            let new_start = wsub(s1, if s2 < s1 { wsub(s1, s2) } else { 0 });
            Some(with_axis(r1, Axis::Rows, new_start, wsub(wadd(new_start, remaining), 1)))
        }
    }
}

/// The parameters of a row removal `m1` once the rows of `m2` are removed.
pub open spec fn removal_against_removal(m1: RangeParamsV, m2: RangeParamsV) -> Option<RangeParamsV> {
    match rows_left_to_remove(m1.range, m2.range) {
        Some(r) => Some(RangeParamsV { sheet: m1.sheet, range: r, info: m1.info }),
        None => None,
    }
}

/// The rows that the removal `m1_params` still removes once the rows of
/// `m2_params` are gone; `None` when none are left.
pub fn transform_remove_against_remove(m1_params: &RangeParams, m2_params: &RangeParams) -> (r: Option<RangeParams>)
    ensures
        (match r {
            Some(p) => Some(p@),
            None => None,
        }) == removal_against_removal(m1_params@, m2_params@),
{
    let m1_start = m1_params.range.start_row;
    let m1_end = m1_params.range.end_row;
    let m2_start = m2_params.range.start_row;
    let m2_end = m2_params.range.end_row;
    let m1_count = count_of(m1_start, m1_end);
    let m2_count = count_of(m2_start, m2_end);
    if m2_end < m1_start {
        let mut p = m1_params.copy();
        p.range.start_row = m1_start.wrapping_sub(m2_count);
        p.range.end_row = m1_end.wrapping_sub(m2_count);
        return Some(p);
    }
    if m2_start > m1_end {
        return Some(m1_params.copy());
    }
    let overlap_start = if m1_start >= m2_start { m1_start } else { m2_start };
    let overlap_end = if m1_end <= m2_end { m1_end } else { m2_end };
    let overlap_count = count_of(overlap_start, overlap_end);
    let remaining_count = m1_count.wrapping_sub(overlap_count);
    if remaining_count == 0 {
        return None;
    }
    let removed_before_m1 = if m2_start < m1_start { m1_start.wrapping_sub(m2_start) } else { 0 };
    let new_start = m1_start.wrapping_sub(removed_before_m1);
    let new_end = new_start.wrapping_add(remaining_count).wrapping_sub(1);
    let mut p = m1_params.copy();
    p.range.start_row = new_start;
    p.range.end_row = new_end;
    Some(p)
}

/// Two concurrent row removals: each keeps the rows the other does not remove.
pub open spec fn row_removals_reconciled(m1: Mutation, m2: Mutation) -> Outcome {
    let p1 = range_params_of(m1.params);
    let p2 = range_params_of(m2.params);
    if !spec_same_sheet(p1.sheet, p2.sheet) {
        unchanged(m1, m2)
    } else {
        Outcome {
            m1_prime: match removal_against_removal(p1, p2) {
                Some(p) => Some(with_params_v(m1, ParamsV::Range(p))),
                None => None,
            },
            m2_prime: match removal_against_removal(p2, p1) {
                Some(p) => Some(with_params_v(m2, ParamsV::Range(p))),
                None => None,
            },
            error: None,
        }
    }
}

fn reconcile_row_removals(m1: &MutationInfo, m2: &MutationInfo) -> (r: TransformResult)
    ensures
        r@ == row_removals_reconciled(m1@, m2@),
{
    let p1 = range_params_from(&m1.params);
    let p2 = range_params_from(&m2.params);
    if !same_sheet(&p1.sub_unit, &p2.sub_unit) {
        return keep_both(m1, m2);
    }
    let m1_prime = match transform_remove_against_remove(&p1, &p2) {
        Some(p) => Some(m1.with_params(MutationParams::Range(p))),
        None => None,
    };
    let m2_prime = match transform_remove_against_remove(&p2, &p1) {
        Some(p) => Some(m2.with_params(MutationParams::Range(p))),
        None => None,
    };
    TransformResult { m1_prime, m2_prime, error: None }
}

/// Two consecutive row removals merged into one when the rows of the second,
/// taken back to before the first, touch or overlap the first's block.
pub open spec fn remove_rows_composed(m1: Mutation, m2: Mutation) -> Seq<Mutation> {
    let p1 = range_params_of(m1.params);
    let p2 = range_params_of(m2.params);
    let s1 = p1.range.start_row;
    let e1 = p1.range.end_row;
    let c1 = span(s1, e1);
    let s2 = p2.range.start_row;
    let e2 = p2.range.end_row;
    let mapped_start = if s2 >= s1 { wadd(s2, c1) } else { s2 };
    let mapped_end = if s2 >= s1 { wadd(e2, c1) } else { e2 };
    if !spec_same_sheet(p1.sheet, p2.sheet) || (s2 < s1 && e2 >= s1) || mapped_start > wadd(e1, 1)
        || s1 > wadd(mapped_end, 1) {
        seq![m1, m2]
    } else {
        seq![
            with_params_v(
                m1,
                ParamsV::Range(
                    RangeParamsV {
                        sheet: p1.sheet,
                        range: Range {
                            start_row: min_u32(s1, mapped_start),
                            start_column: p1.range.start_column,
                            end_row: max_u32(e1, mapped_end),
                            end_column: p1.range.end_column,
                        },
                        info: None,
                    },
                ),
            ),
        ]
    }
}

fn compose_removed_rows(m1: &MutationInfo, m2: &MutationInfo) -> (r: Vec<MutationInfo>)
    ensures
        mutations_view(r@) == remove_rows_composed(m1@, m2@),
{
    let p1 = range_params_from(&m1.params);
    let p2 = range_params_from(&m2.params);
    if !same_sheet(&p1.sub_unit, &p2.sub_unit) {
        return both(m1, m2);
    }
    let m1_start = p1.range.start_row;
    let m1_end = p1.range.end_row;
    let m1_count = count_of(m1_start, m1_end);
    let m2_start = p2.range.start_row;
    let m2_end = p2.range.end_row;
    if m2_start < m1_start && m2_end >= m1_start {
        return both(m1, m2);
    }
    let (mapped_start, mapped_end) = if m2_start >= m1_start {
        (m2_start.wrapping_add(m1_count), m2_end.wrapping_add(m1_count))
    } else {
        (m2_start, m2_end)
    };
    if mapped_start > m1_end.wrapping_add(1) || m1_start > mapped_end.wrapping_add(1) {
        return both(m1, m2);
    }
    let merged_start = if m1_start <= mapped_start { m1_start } else { mapped_start };
    let merged_end = if m1_end >= mapped_end { m1_end } else { mapped_end };
    let range = Range {
        start_row: merged_start,
        start_column: p1.range.start_column,
        end_row: merged_end,
        end_column: p1.range.end_column,
    };
    let composed = m1.with_params(MutationParams::Range(RangeParams { sub_unit: p1.sub_unit, range, info: None }));
    let r = vec![composed];
    assert(mutations_view(r@) =~= remove_rows_composed(m1@, m2@));
    r
}

impl MutationTransform for RemoveRowsTransform {
    fn mutation_id() -> (id: &'static str)
        ensures
            id@ == "sheet.mutation.remove-rows"@,
    {
        "sheet.mutation.remove-rows"
    }

    fn compose(&self, m1: &MutationInfo, m2: &MutationInfo) -> (r: Vec<MutationInfo>)
        ensures
            mutations_view(r@) == remove_rows_composed(m1@, m2@),
    {
        compose_removed_rows(m1, m2)
    }

    fn transform_with_set_range_values(&self, m1: &MutationInfo, m2: &MutationInfo) -> (r: TransformResult)
        ensures
            r@ == remove_vs_values(m1@, m2@, Axis::Rows),
    {
        reconcile_remove_with_values(m1, m2, Axis::Rows)
    }

    fn transform_with_insert_row(&self, m1: &MutationInfo, m2: &MutationInfo) -> (r: TransformResult)
        ensures
            r@ == row_remove_vs_insert(m1@, m2@),
    {
        reconcile_row_remove_with_insert(m1, m2)
    }

    fn transform_with_remove_rows(&self, m1: &MutationInfo, m2: &MutationInfo) -> (r: TransformResult)
        ensures
            r@ == row_removals_reconciled(m1@, m2@),
    {
        reconcile_row_removals(m1, m2)
    }
}

} // verus!
