//! Column removal (`sheet.mutation.remove-col`).
use vstd::prelude::*;
use crate::sheet::{axis_span, count_of, range_moved_back, same_sheet, spec_same_sheet, Axis};
use crate::mutation::{
    both, first_becomes, first_replaced, keep_both, mutations_view, range_params_from,
    range_params_of, refuse, refused, second_becomes, second_replaced, unchanged, Mutation,
    MutationInfo, Outcome, TransformResult,
};
use crate::mutation_transform::MutationTransform;
use crate::structural::{
    col_remove_vs_insert, rebuilt_with_range, reconcile_col_remove_with_insert,
    reconcile_remove_with_values, remove_vs_values, with_range,
};

verus! {

/// Transforms of column removals.
#[derive(Default)]
pub struct RemoveColTransform;

/// The message of two column removals that overlap.
pub open spec fn conflicting_removals() -> Seq<char> {
    "Conflicting remove operations"@
}

/// Two column removals: overlapping removals are refused; otherwise the later
/// block moves back by the width of the earlier one.
pub open spec fn col_removals_reconciled(m1: Mutation, m2: Mutation) -> Outcome {
    let p1 = range_params_of(m1.params);
    let p2 = range_params_of(m2.params);
    let s1 = p1.range.start_column;
    let e1 = p1.range.end_column;
    let s2 = p2.range.start_column;
    let e2 = p2.range.end_column;
    if !spec_same_sheet(p1.sheet, p2.sheet) {
        unchanged(m1, m2)
    } else if (s2 >= s1 && s2 <= e1) || (e2 >= s1 && e2 <= e1) || (s2 <= s1 && e2 >= e1) {
        refused(m1, m2, conflicting_removals())
    } else if e1 < s2 {
        second_becomes(m1, Some(with_range(m2, p2, range_moved_back(p2.range, Axis::Columns, axis_span(p1.range, Axis::Columns)))))
    } else if e2 < s1 {
        first_becomes(Some(with_range(m1, p1, range_moved_back(p1.range, Axis::Columns, axis_span(p2.range, Axis::Columns)))), m2)
    } else {
        unchanged(m1, m2)
    }
}

fn reconcile_col_removals(m1: &MutationInfo, m2: &MutationInfo) -> (r: TransformResult)
    ensures
        r@ == col_removals_reconciled(m1@, m2@),
{
    let p1 = range_params_from(&m1.params);
    let p2 = range_params_from(&m2.params);
    if !same_sheet(&p1.sub_unit, &p2.sub_unit) {
        return keep_both(m1, m2);
    }
    let s1 = p1.range.start_column;
    let e1 = p1.range.end_column;
    let s2 = p2.range.start_column;
    let e2 = p2.range.end_column;
    if (s2 >= s1 && s2 <= e1) || (e2 >= s1 && e2 <= e1) || (s2 <= s1 && e2 >= e1) {
        return refuse(m1, m2, "Conflicting remove operations".to_owned());
    }
    if e1 < s2 {
        let moved = crate::sheet::move_back(p2.range, Axis::Columns, count_of(s1, e1));
        return second_replaced(m1, Some(rebuilt_with_range(m2, p2, moved)));
    }
    if e2 < s1 {
        let moved = crate::sheet::move_back(p1.range, Axis::Columns, count_of(s2, e2));
        return first_replaced(Some(rebuilt_with_range(m1, p1, moved)), m2);
    }
    keep_both(m1, m2)
}

impl MutationTransform for RemoveColTransform {
    fn mutation_id() -> (id: &'static str)
        ensures
            id@ == "sheet.mutation.remove-col"@,
    {
        "sheet.mutation.remove-col"
    }

    /// Column removals are not merged.
    fn compose(&self, m1: &MutationInfo, m2: &MutationInfo) -> (r: Vec<MutationInfo>)
        ensures
            mutations_view(r@) == seq![m1@, m2@],
    {
        both(m1, m2)
    }

    fn transform_with_set_range_values(&self, m1: &MutationInfo, m2: &MutationInfo) -> (r: TransformResult)
        ensures
            r@ == remove_vs_values(m1@, m2@, Axis::Columns),
    {
        reconcile_remove_with_values(m1, m2, Axis::Columns)
    }

    fn transform_with_insert_col(&self, m1: &MutationInfo, m2: &MutationInfo) -> (r: TransformResult)
        ensures
            r@ == col_remove_vs_insert(m1@, m2@),
    {
        reconcile_col_remove_with_insert(m1, m2)
    }

    fn transform_with_remove_col(&self, m1: &MutationInfo, m2: &MutationInfo) -> (r: TransformResult)
        ensures
            r@ == col_removals_reconciled(m1@, m2@),
    {
        reconcile_col_removals(m1, m2)
    }
}

} // verus!
