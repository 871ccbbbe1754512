//! Setting cell values (`sheet.mutation.set-range-values`).
use vstd::prelude::*;
use crate::sheet::{same_sheet, spec_same_sheet, Axis};
use crate::matrix::{conflicts_nulled, rows_written_over, write_over, CellMatrix, Key, Row};
use crate::mutation::{
    both, cell_values_from, cell_values_of, first_becomes, first_replaced, keep_both,
    mutations_view, unchanged, Mutation, MutationInfo, Outcome, TransformResult,
};
use crate::mutation_transform::MutationTransform;
use crate::structural::{
    rebuilt_with_cells, reconcile_values_with_insert, reconcile_values_with_remove,
    values_vs_insert, values_vs_remove, with_cells,
};

verus! {

/// Transforms of cell value settings.
#[derive(Default)]
pub struct SetRangeValuesTransform;

/// Two concurrent settings of cell values on one sheet. The setting that was
/// accepted first (`m2`) wins: it is kept as it is, and every cell that both
/// set is emptied (`null`) in `m1`; `m1`'s other cells are kept.
pub open spec fn values_vs_values(m1: Mutation, m2: Mutation) -> Outcome {
    let p1 = cell_values_of(m1.params);
    let p2 = cell_values_of(m2.params);
    if !spec_same_sheet(p1.sheet, p2.sheet) {
        unchanged(m1, m2)
    } else {
        match (p1.cell_value, p2.cell_value) {
            (Some(a), Some(b)) => first_becomes(Some(with_cells(m1, p1, Some(conflicts_nulled(a, b)))), m2),
            _ => unchanged(m1, m2),
        }
    }
}

fn reconcile_values(m1: &MutationInfo, m2: &MutationInfo) -> (r: TransformResult)
    ensures
        r@ == values_vs_values(m1@, m2@),
{
    let p1 = cell_values_from(&m1.params);
    let p2 = cell_values_from(&m2.params);
    if !same_sheet(&p1.sub_unit, &p2.sub_unit) {
        return keep_both(m1, m2);
    }
    let nulled = match (&p1.cell_value, &p2.cell_value) {
        (Some(a), Some(b)) => a.with_conflicts_nulled(b),
        _ => {
            return keep_both(m1, m2);
        },
    };
    first_replaced(Some(rebuilt_with_cells(m1, p1, Some(nulled))), m2)
}

/// The cells of two consecutive settings merged, the later one's cells
/// written over the earlier one's.
pub open spec fn merged_cells(a: Option<Seq<(Key, Row)>>, b: Option<Seq<(Key, Row)>>) -> Option<Seq<(Key, Row)>> {
    match (a, b) {
        (None, None) => None,
        (Some(x), None) => Some(x),
        (None, Some(y)) => Some(y),
        (Some(x), Some(y)) => Some(rows_written_over(x, y)),
    }
}

/// Two consecutive settings on one sheet merged into one.
pub open spec fn values_composed(m1: Mutation, m2: Mutation) -> Seq<Mutation> {
    let p1 = cell_values_of(m1.params);
    let p2 = cell_values_of(m2.params);
    if !spec_same_sheet(p1.sheet, p2.sheet) {
        seq![m1, m2]
    } else {
        seq![with_cells(m1, p1, merged_cells(p1.cell_value, p2.cell_value))]
    }
}

fn merge_cells(a: &Option<CellMatrix>, b: &Option<CellMatrix>) -> (r: Option<CellMatrix>)
    ensures
        (match r {
            Some(c) => Some(c@),
            None => None,
        }) == merged_cells(
            match *a {
                Some(c) => Some(c@),
                None => None,
            },
            match *b {
                Some(c) => Some(c@),
                None => None,
            },
        ),
{
    match (a, b) {
        (None, None) => None,
        (Some(x), None) => Some(x.copy()),
        (None, Some(y)) => Some(y.copy()),
        (Some(x), Some(y)) => Some(write_over(x, y)),
    }
}

fn compose_values(m1: &MutationInfo, m2: &MutationInfo) -> (r: Vec<MutationInfo>)
    ensures
        mutations_view(r@) == values_composed(m1@, m2@),
{
    let p1 = cell_values_from(&m1.params);
    let p2 = cell_values_from(&m2.params);
    if !same_sheet(&p1.sub_unit, &p2.sub_unit) {
        return both(m1, m2);
    }
    let merged = merge_cells(&p1.cell_value, &p2.cell_value);
    let r = vec![rebuilt_with_cells(m1, p1, merged)];
    assert(mutations_view(r@) =~= values_composed(m1@, m2@));
    r
}

impl MutationTransform for SetRangeValuesTransform {
    fn mutation_id() -> (id: &'static str)
        ensures
            id@ == "sheet.mutation.set-range-values"@,
    {
        "sheet.mutation.set-range-values"
    }

    fn compose(&self, m1: &MutationInfo, m2: &MutationInfo) -> (r: Vec<MutationInfo>)
        ensures
            mutations_view(r@) == values_composed(m1@, m2@),
    {
        compose_values(m1, m2)
    }

    fn transform_with_set_range_values(&self, m1: &MutationInfo, m2: &MutationInfo) -> (r: TransformResult)
        ensures
            r@ == values_vs_values(m1@, m2@),
    {
        reconcile_values(m1, m2)
    }

    fn transform_with_insert_row(&self, m1: &MutationInfo, m2: &MutationInfo) -> (r: TransformResult)
        ensures
            r@ == values_vs_insert(m1@, m2@, Axis::Rows),
    {
        reconcile_values_with_insert(m1, m2, Axis::Rows)
    }

    fn transform_with_insert_col(&self, m1: &MutationInfo, m2: &MutationInfo) -> (r: TransformResult)
        ensures
            r@ == values_vs_insert(m1@, m2@, Axis::Columns),
    {
        reconcile_values_with_insert(m1, m2, Axis::Columns)
    }

    fn transform_with_remove_rows(&self, m1: &MutationInfo, m2: &MutationInfo) -> (r: TransformResult)
        ensures
            r@ == values_vs_remove(m1@, m2@, Axis::Rows),
    {
        reconcile_values_with_remove(m1, m2, Axis::Rows)
    }

    fn transform_with_remove_col(&self, m1: &MutationInfo, m2: &MutationInfo) -> (r: TransformResult)
        ensures
            r@ == values_vs_remove(m1@, m2@, Axis::Columns),
    {
        reconcile_values_with_remove(m1, m2, Axis::Columns)
    }
}

} // verus!
