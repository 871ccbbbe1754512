//! Column insertion (`sheet.mutation.insert-col`).
use vstd::prelude::*;
use crate::sheet::Axis;
use crate::mutation::{both, mutations_view, MutationInfo, TransformResult};
use crate::mutation_transform::MutationTransform;
use crate::structural::{
    col_insert_vs_remove, insert_vs_values, inserts_reconciled, reconcile_col_insert_with_remove,
    reconcile_insert_with_values, reconcile_inserts,
};

verus! {

/// Transforms of column insertions.
#[derive(Default)]
pub struct InsertColTransform;

impl MutationTransform for InsertColTransform {
    fn mutation_id() -> (id: &'static str)
        ensures
            id@ == "sheet.mutation.insert-col"@,
    {
        "sheet.mutation.insert-col"
    }

    /// Column insertions are not merged.
    fn compose(&self, m1: &MutationInfo, m2: &MutationInfo) -> (r: Vec<MutationInfo>)
        ensures
            mutations_view(r@) == seq![m1@, m2@],
    {
        both(m1, m2)
    }

    fn transform_with_set_range_values(&self, m1: &MutationInfo, m2: &MutationInfo) -> (r: TransformResult)
        ensures
            r@ == insert_vs_values(m1@, m2@, Axis::Columns),
    {
        reconcile_insert_with_values(m1, m2, Axis::Columns)
    }

    fn transform_with_insert_col(&self, m1: &MutationInfo, m2: &MutationInfo) -> (r: TransformResult)
        ensures
            r@ == inserts_reconciled(m1@, m2@, Axis::Columns, true),
    {
        reconcile_inserts(m1, m2, Axis::Columns, true)
    }

    fn transform_with_remove_col(&self, m1: &MutationInfo, m2: &MutationInfo) -> (r: TransformResult)
        ensures
            r@ == col_insert_vs_remove(m1@, m2@),
    {
        reconcile_col_insert_with_remove(m1, m2)
    }
}

} // verus!
