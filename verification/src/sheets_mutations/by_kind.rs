//! Mutations whose transforms against structural edits follow from the kind
//! of parameters they carry (see [`crate::sheets_generic`]); of two
//! consecutive ones with the same id the later one stands.
use vstd::prelude::*;
use crate::sheet::{same_sheet, spec_same_sheet, Axis};
use crate::mutation::{
    first_becomes, first_replaced, keep_both, move_rows_cols_from, move_rows_cols_of,
    mutations_view, range_params_from, range_params_of, unchanged, with_params_v, Mutation,
    MutationInfo, MutationParams, Outcome, ParamsV, TransformResult,
};
use crate::mutation_transform::MutationTransform;
use crate::sheets_generic::{
    keep_later, kind_vs_insert, kind_vs_remove, later_wins, reconcile_kind_with_insert,
    reconcile_kind_with_remove, SheetTransformKind,
};

verus! {

/// Merging blocks of cells.
#[derive(Default)]
pub struct AddWorksheetMergeTransform;

impl MutationTransform for AddWorksheetMergeTransform {
    fn mutation_id() -> (id: &'static str)
        ensures
            id@ == "sheet.mutation.add-worksheet-merge"@,
    {
        "sheet.mutation.add-worksheet-merge"
    }

    fn compose(&self, m1: &MutationInfo, m2: &MutationInfo) -> (r: Vec<MutationInfo>)
        ensures
            mutations_view(r@) == later_wins(m1@, m2@),
    {
        keep_later(m1, m2)
    }

    fn transform_with_insert_row(&self, m1: &MutationInfo, m2: &MutationInfo) -> (r: TransformResult)
        ensures
            r@ == kind_vs_insert(SheetTransformKind::Ranges, m1@, m2@, Axis::Rows),
    {
        reconcile_kind_with_insert(SheetTransformKind::Ranges, m1, m2, Axis::Rows)
    }

    fn transform_with_insert_col(&self, m1: &MutationInfo, m2: &MutationInfo) -> (r: TransformResult)
        ensures
            r@ == kind_vs_insert(SheetTransformKind::Ranges, m1@, m2@, Axis::Columns),
    {
        reconcile_kind_with_insert(SheetTransformKind::Ranges, m1, m2, Axis::Columns)
    }

    fn transform_with_remove_rows(&self, m1: &MutationInfo, m2: &MutationInfo) -> (r: TransformResult)
        ensures
            r@ == kind_vs_remove(SheetTransformKind::Ranges, m1@, m2@, Axis::Rows),
    {
        reconcile_kind_with_remove(SheetTransformKind::Ranges, m1, m2, Axis::Rows)
    }

    fn transform_with_remove_col(&self, m1: &MutationInfo, m2: &MutationInfo) -> (r: TransformResult)
        ensures
            r@ == kind_vs_remove(SheetTransformKind::Ranges, m1@, m2@, Axis::Columns),
    {
        reconcile_kind_with_remove(SheetTransformKind::Ranges, m1, m2, Axis::Columns)
    }
}

/// Hiding columns.
#[derive(Default)]
pub struct SetColHiddenTransform;

impl MutationTransform for SetColHiddenTransform {
    fn mutation_id() -> (id: &'static str)
        ensures
            id@ == "sheet.mutation.set-col-hidden"@,
    {
        "sheet.mutation.set-col-hidden"
    }

    fn compose(&self, m1: &MutationInfo, m2: &MutationInfo) -> (r: Vec<MutationInfo>)
        ensures
            mutations_view(r@) == later_wins(m1@, m2@),
    {
        keep_later(m1, m2)
    }

    fn transform_with_insert_row(&self, m1: &MutationInfo, m2: &MutationInfo) -> (r: TransformResult)
        ensures
            r@ == kind_vs_insert(SheetTransformKind::Ranges, m1@, m2@, Axis::Rows),
    {
        reconcile_kind_with_insert(SheetTransformKind::Ranges, m1, m2, Axis::Rows)
    }

    fn transform_with_insert_col(&self, m1: &MutationInfo, m2: &MutationInfo) -> (r: TransformResult)
        ensures
            r@ == kind_vs_insert(SheetTransformKind::Ranges, m1@, m2@, Axis::Columns),
    {
        reconcile_kind_with_insert(SheetTransformKind::Ranges, m1, m2, Axis::Columns)
    }

    fn transform_with_remove_rows(&self, m1: &MutationInfo, m2: &MutationInfo) -> (r: TransformResult)
        ensures
            r@ == kind_vs_remove(SheetTransformKind::Ranges, m1@, m2@, Axis::Rows),
    {
        reconcile_kind_with_remove(SheetTransformKind::Ranges, m1, m2, Axis::Rows)
    }

    fn transform_with_remove_col(&self, m1: &MutationInfo, m2: &MutationInfo) -> (r: TransformResult)
        ensures
            r@ == kind_vs_remove(SheetTransformKind::Ranges, m1@, m2@, Axis::Columns),
    {
        reconcile_kind_with_remove(SheetTransformKind::Ranges, m1, m2, Axis::Columns)
    }
}

/// Showing columns.
#[derive(Default)]
pub struct SetColVisibleTransform;

impl MutationTransform for SetColVisibleTransform {
    fn mutation_id() -> (id: &'static str)
        ensures
            id@ == "sheet.mutation.set-col-visible"@,
    {
        "sheet.mutation.set-col-visible"
    }

    fn compose(&self, m1: &MutationInfo, m2: &MutationInfo) -> (r: Vec<MutationInfo>)
        ensures
            mutations_view(r@) == later_wins(m1@, m2@),
    {
        keep_later(m1, m2)
    }

    fn transform_with_insert_row(&self, m1: &MutationInfo, m2: &MutationInfo) -> (r: TransformResult)
        ensures
            r@ == kind_vs_insert(SheetTransformKind::Ranges, m1@, m2@, Axis::Rows),
    {
        reconcile_kind_with_insert(SheetTransformKind::Ranges, m1, m2, Axis::Rows)
    }

    fn transform_with_insert_col(&self, m1: &MutationInfo, m2: &MutationInfo) -> (r: TransformResult)
        ensures
            r@ == kind_vs_insert(SheetTransformKind::Ranges, m1@, m2@, Axis::Columns),
    {
        reconcile_kind_with_insert(SheetTransformKind::Ranges, m1, m2, Axis::Columns)
    }

    fn transform_with_remove_rows(&self, m1: &MutationInfo, m2: &MutationInfo) -> (r: TransformResult)
        ensures
            r@ == kind_vs_remove(SheetTransformKind::Ranges, m1@, m2@, Axis::Rows),
    {
        reconcile_kind_with_remove(SheetTransformKind::Ranges, m1, m2, Axis::Rows)
    }

    fn transform_with_remove_col(&self, m1: &MutationInfo, m2: &MutationInfo) -> (r: TransformResult)
        ensures
            r@ == kind_vs_remove(SheetTransformKind::Ranges, m1@, m2@, Axis::Columns),
    {
        reconcile_kind_with_remove(SheetTransformKind::Ranges, m1, m2, Axis::Columns)
    }
}

/// Hiding rows.
#[derive(Default)]
pub struct SetRowHiddenTransform;

impl MutationTransform for SetRowHiddenTransform {
    fn mutation_id() -> (id: &'static str)
        ensures
            id@ == "sheet.mutation.set-row-hidden"@,
    {
        "sheet.mutation.set-row-hidden"
    }

    fn compose(&self, m1: &MutationInfo, m2: &MutationInfo) -> (r: Vec<MutationInfo>)
        ensures
            mutations_view(r@) == later_wins(m1@, m2@),
    {
        keep_later(m1, m2)
    }

    fn transform_with_insert_row(&self, m1: &MutationInfo, m2: &MutationInfo) -> (r: TransformResult)
        ensures
            r@ == kind_vs_insert(SheetTransformKind::Ranges, m1@, m2@, Axis::Rows),
    {
        reconcile_kind_with_insert(SheetTransformKind::Ranges, m1, m2, Axis::Rows)
    }

    fn transform_with_insert_col(&self, m1: &MutationInfo, m2: &MutationInfo) -> (r: TransformResult)
        ensures
            r@ == kind_vs_insert(SheetTransformKind::Ranges, m1@, m2@, Axis::Columns),
    {
        reconcile_kind_with_insert(SheetTransformKind::Ranges, m1, m2, Axis::Columns)
    }

    fn transform_with_remove_rows(&self, m1: &MutationInfo, m2: &MutationInfo) -> (r: TransformResult)
        ensures
            r@ == kind_vs_remove(SheetTransformKind::Ranges, m1@, m2@, Axis::Rows),
    {
        reconcile_kind_with_remove(SheetTransformKind::Ranges, m1, m2, Axis::Rows)
    }

    fn transform_with_remove_col(&self, m1: &MutationInfo, m2: &MutationInfo) -> (r: TransformResult)
        ensures
            r@ == kind_vs_remove(SheetTransformKind::Ranges, m1@, m2@, Axis::Columns),
    {
        reconcile_kind_with_remove(SheetTransformKind::Ranges, m1, m2, Axis::Columns)
    }
}

/// Showing rows.
#[derive(Default)]
pub struct SetRowVisibleTransform;

impl MutationTransform for SetRowVisibleTransform {
    fn mutation_id() -> (id: &'static str)
        ensures
            id@ == "sheet.mutation.set-row-visible"@,
    {
        "sheet.mutation.set-row-visible"
    }

    fn compose(&self, m1: &MutationInfo, m2: &MutationInfo) -> (r: Vec<MutationInfo>)
        ensures
            mutations_view(r@) == later_wins(m1@, m2@),
    {
        keep_later(m1, m2)
    }

    fn transform_with_insert_row(&self, m1: &MutationInfo, m2: &MutationInfo) -> (r: TransformResult)
        ensures
            r@ == kind_vs_insert(SheetTransformKind::Ranges, m1@, m2@, Axis::Rows),
    {
        reconcile_kind_with_insert(SheetTransformKind::Ranges, m1, m2, Axis::Rows)
    }

    fn transform_with_insert_col(&self, m1: &MutationInfo, m2: &MutationInfo) -> (r: TransformResult)
        ensures
            r@ == kind_vs_insert(SheetTransformKind::Ranges, m1@, m2@, Axis::Columns),
    {
        reconcile_kind_with_insert(SheetTransformKind::Ranges, m1, m2, Axis::Columns)
    }

    fn transform_with_remove_rows(&self, m1: &MutationInfo, m2: &MutationInfo) -> (r: TransformResult)
        ensures
            r@ == kind_vs_remove(SheetTransformKind::Ranges, m1@, m2@, Axis::Rows),
    {
        reconcile_kind_with_remove(SheetTransformKind::Ranges, m1, m2, Axis::Rows)
    }

    fn transform_with_remove_col(&self, m1: &MutationInfo, m2: &MutationInfo) -> (r: TransformResult)
        ensures
            r@ == kind_vs_remove(SheetTransformKind::Ranges, m1@, m2@, Axis::Columns),
    {
        reconcile_kind_with_remove(SheetTransformKind::Ranges, m1, m2, Axis::Columns)
    }
}

/// Applying a range theme style to a range.
#[derive(Default)]
pub struct SetWorksheetRangeThemeStyleTransform;

impl MutationTransform for SetWorksheetRangeThemeStyleTransform {
    fn mutation_id() -> (id: &'static str)
        ensures
            id@ == "sheet.mutation.set-worksheet-range-theme-style"@,
    {
        "sheet.mutation.set-worksheet-range-theme-style"
    }

    fn compose(&self, m1: &MutationInfo, m2: &MutationInfo) -> (r: Vec<MutationInfo>)
        ensures
            mutations_view(r@) == later_wins(m1@, m2@),
    {
        keep_later(m1, m2)
    }

    fn transform_with_insert_row(&self, m1: &MutationInfo, m2: &MutationInfo) -> (r: TransformResult)
        ensures
            r@ == kind_vs_insert(SheetTransformKind::Range, m1@, m2@, Axis::Rows),
    {
        reconcile_kind_with_insert(SheetTransformKind::Range, m1, m2, Axis::Rows)
    }

    fn transform_with_insert_col(&self, m1: &MutationInfo, m2: &MutationInfo) -> (r: TransformResult)
        ensures
            r@ == kind_vs_insert(SheetTransformKind::Range, m1@, m2@, Axis::Columns),
    {
        reconcile_kind_with_insert(SheetTransformKind::Range, m1, m2, Axis::Columns)
    }

    fn transform_with_remove_rows(&self, m1: &MutationInfo, m2: &MutationInfo) -> (r: TransformResult)
        ensures
            r@ == kind_vs_remove(SheetTransformKind::Range, m1@, m2@, Axis::Rows),
    {
        reconcile_kind_with_remove(SheetTransformKind::Range, m1, m2, Axis::Rows)
    }

    fn transform_with_remove_col(&self, m1: &MutationInfo, m2: &MutationInfo) -> (r: TransformResult)
        ensures
            r@ == kind_vs_remove(SheetTransformKind::Range, m1@, m2@, Axis::Columns),
    {
        reconcile_kind_with_remove(SheetTransformKind::Range, m1, m2, Axis::Columns)
    }
}

/// Setting row properties.
#[derive(Default)]
pub struct SetRowDataTransform;

impl MutationTransform for SetRowDataTransform {
    fn mutation_id() -> (id: &'static str)
        ensures
            id@ == "sheet.mutation.set-row-data"@,
    {
        "sheet.mutation.set-row-data"
    }

    fn compose(&self, m1: &MutationInfo, m2: &MutationInfo) -> (r: Vec<MutationInfo>)
        ensures
            mutations_view(r@) == later_wins(m1@, m2@),
    {
        keep_later(m1, m2)
    }

    fn transform_with_insert_row(&self, m1: &MutationInfo, m2: &MutationInfo) -> (r: TransformResult)
        ensures
            r@ == kind_vs_insert(SheetTransformKind::RowData, m1@, m2@, Axis::Rows),
    {
        reconcile_kind_with_insert(SheetTransformKind::RowData, m1, m2, Axis::Rows)
    }

    fn transform_with_insert_col(&self, m1: &MutationInfo, m2: &MutationInfo) -> (r: TransformResult)
        ensures
            r@ == kind_vs_insert(SheetTransformKind::RowData, m1@, m2@, Axis::Columns),
    {
        reconcile_kind_with_insert(SheetTransformKind::RowData, m1, m2, Axis::Columns)
    }

    fn transform_with_remove_rows(&self, m1: &MutationInfo, m2: &MutationInfo) -> (r: TransformResult)
        ensures
            r@ == kind_vs_remove(SheetTransformKind::RowData, m1@, m2@, Axis::Rows),
    {
        reconcile_kind_with_remove(SheetTransformKind::RowData, m1, m2, Axis::Rows)
    }

    fn transform_with_remove_col(&self, m1: &MutationInfo, m2: &MutationInfo) -> (r: TransformResult)
        ensures
            r@ == kind_vs_remove(SheetTransformKind::RowData, m1@, m2@, Axis::Columns),
    {
        reconcile_kind_with_remove(SheetTransformKind::RowData, m1, m2, Axis::Columns)
    }
}

/// Setting column properties.
#[derive(Default)]
pub struct SetColDataTransform;

impl MutationTransform for SetColDataTransform {
    fn mutation_id() -> (id: &'static str)
        ensures
            id@ == "sheet.mutation.set-col-data"@,
    {
        "sheet.mutation.set-col-data"
    }

    fn compose(&self, m1: &MutationInfo, m2: &MutationInfo) -> (r: Vec<MutationInfo>)
        ensures
            mutations_view(r@) == later_wins(m1@, m2@),
    {
        keep_later(m1, m2)
    }

    fn transform_with_insert_row(&self, m1: &MutationInfo, m2: &MutationInfo) -> (r: TransformResult)
        ensures
            r@ == kind_vs_insert(SheetTransformKind::ColumnData, m1@, m2@, Axis::Rows),
    {
        reconcile_kind_with_insert(SheetTransformKind::ColumnData, m1, m2, Axis::Rows)
    }

    fn transform_with_insert_col(&self, m1: &MutationInfo, m2: &MutationInfo) -> (r: TransformResult)
        ensures
            r@ == kind_vs_insert(SheetTransformKind::ColumnData, m1@, m2@, Axis::Columns),
    {
        reconcile_kind_with_insert(SheetTransformKind::ColumnData, m1, m2, Axis::Columns)
    }

    fn transform_with_remove_rows(&self, m1: &MutationInfo, m2: &MutationInfo) -> (r: TransformResult)
        ensures
            r@ == kind_vs_remove(SheetTransformKind::ColumnData, m1@, m2@, Axis::Rows),
    {
        reconcile_kind_with_remove(SheetTransformKind::ColumnData, m1, m2, Axis::Rows)
    }

    fn transform_with_remove_col(&self, m1: &MutationInfo, m2: &MutationInfo) -> (r: TransformResult)
        ensures
            r@ == kind_vs_remove(SheetTransformKind::ColumnData, m1@, m2@, Axis::Columns),
    {
        reconcile_kind_with_remove(SheetTransformKind::ColumnData, m1, m2, Axis::Columns)
    }
}

/// Freezing panes.
#[derive(Default)]
pub struct SetFrozenTransform;

impl MutationTransform for SetFrozenTransform {
    fn mutation_id() -> (id: &'static str)
        ensures
            id@ == "sheet.mutation.set-frozen"@,
    {
        "sheet.mutation.set-frozen"
    }

    fn compose(&self, m1: &MutationInfo, m2: &MutationInfo) -> (r: Vec<MutationInfo>)
        ensures
            mutations_view(r@) == later_wins(m1@, m2@),
    {
        keep_later(m1, m2)
    }

    fn transform_with_insert_row(&self, m1: &MutationInfo, m2: &MutationInfo) -> (r: TransformResult)
        ensures
            r@ == kind_vs_insert(SheetTransformKind::SetFrozen, m1@, m2@, Axis::Rows),
    {
        reconcile_kind_with_insert(SheetTransformKind::SetFrozen, m1, m2, Axis::Rows)
    }

    fn transform_with_insert_col(&self, m1: &MutationInfo, m2: &MutationInfo) -> (r: TransformResult)
        ensures
            r@ == kind_vs_insert(SheetTransformKind::SetFrozen, m1@, m2@, Axis::Columns),
    {
        reconcile_kind_with_insert(SheetTransformKind::SetFrozen, m1, m2, Axis::Columns)
    }

    fn transform_with_remove_rows(&self, m1: &MutationInfo, m2: &MutationInfo) -> (r: TransformResult)
        ensures
            r@ == kind_vs_remove(SheetTransformKind::SetFrozen, m1@, m2@, Axis::Rows),
    {
        reconcile_kind_with_remove(SheetTransformKind::SetFrozen, m1, m2, Axis::Rows)
    }

    fn transform_with_remove_col(&self, m1: &MutationInfo, m2: &MutationInfo) -> (r: TransformResult)
        ensures
            r@ == kind_vs_remove(SheetTransformKind::SetFrozen, m1@, m2@, Axis::Columns),
    {
        reconcile_kind_with_remove(SheetTransformKind::SetFrozen, m1, m2, Axis::Columns)
    }
}

/// A move of lines (`m1`) against a structural edit along the other axis
/// (`m2`): on the same sheet the move is rewritten with the parameters read
/// from it, which leaves a well-formed move as it was.
pub open spec fn move_lines_other_axis(m1: Mutation, m2: Mutation) -> Outcome {
    let p = move_rows_cols_of(m1.params);
    let q = range_params_of(m2.params);
    if !spec_same_sheet(p.sheet, q.sheet) {
        unchanged(m1, m2)
    } else {
        first_becomes(Some(with_params_v(m1, ParamsV::MoveRowsCols(p))), m2)
    }
}

pub fn reconcile_move_lines_other_axis(m1: &MutationInfo, m2: &MutationInfo) -> (r: TransformResult)
    ensures
        r@ == move_lines_other_axis(m1@, m2@),
{
    let p = move_rows_cols_from(&m1.params);
    let q = range_params_from(&m2.params);
    if !same_sheet(&p.sub_unit, &q.sub_unit) {
        return keep_both(m1, m2);
    }
    first_replaced(Some(m1.with_params(MutationParams::MoveRowsCols(p))), m2)
}

/// Moving rows.
#[derive(Default)]
pub struct MoveRowsTransform;

impl MutationTransform for MoveRowsTransform {
    fn mutation_id() -> (id: &'static str)
        ensures
            id@ == "sheet.mutation.move-rows"@,
    {
        "sheet.mutation.move-rows"
    }

    fn compose(&self, m1: &MutationInfo, m2: &MutationInfo) -> (r: Vec<MutationInfo>)
        ensures
            mutations_view(r@) == later_wins(m1@, m2@),
    {
        keep_later(m1, m2)
    }

    fn transform_with_insert_row(&self, m1: &MutationInfo, m2: &MutationInfo) -> (r: TransformResult)
        ensures
            r@ == kind_vs_insert(SheetTransformKind::MoveRows, m1@, m2@, Axis::Rows),
    {
        reconcile_kind_with_insert(SheetTransformKind::MoveRows, m1, m2, Axis::Rows)
    }

    fn transform_with_remove_rows(&self, m1: &MutationInfo, m2: &MutationInfo) -> (r: TransformResult)
        ensures
            r@ == kind_vs_remove(SheetTransformKind::MoveRows, m1@, m2@, Axis::Rows),
    {
        reconcile_kind_with_remove(SheetTransformKind::MoveRows, m1, m2, Axis::Rows)
    }

    fn transform_with_insert_col(&self, m1: &MutationInfo, m2: &MutationInfo) -> (r: TransformResult)
        ensures
            r@ == move_lines_other_axis(m1@, m2@),
    {
        reconcile_move_lines_other_axis(m1, m2)
    }

    fn transform_with_remove_col(&self, m1: &MutationInfo, m2: &MutationInfo) -> (r: TransformResult)
        ensures
            r@ == move_lines_other_axis(m1@, m2@),
    {
        reconcile_move_lines_other_axis(m1, m2)
    }
}

/// Moving columns.
#[derive(Default)]
pub struct MoveColumnsTransform;

impl MutationTransform for MoveColumnsTransform {
    fn mutation_id() -> (id: &'static str)
        ensures
            id@ == "sheet.mutation.move-columns"@,
    {
        "sheet.mutation.move-columns"
    }

    fn compose(&self, m1: &MutationInfo, m2: &MutationInfo) -> (r: Vec<MutationInfo>)
        ensures
            mutations_view(r@) == later_wins(m1@, m2@),
    {
        keep_later(m1, m2)
    }

    fn transform_with_insert_col(&self, m1: &MutationInfo, m2: &MutationInfo) -> (r: TransformResult)
        ensures
            r@ == kind_vs_insert(SheetTransformKind::MoveCols, m1@, m2@, Axis::Columns),
    {
        reconcile_kind_with_insert(SheetTransformKind::MoveCols, m1, m2, Axis::Columns)
    }

    fn transform_with_remove_col(&self, m1: &MutationInfo, m2: &MutationInfo) -> (r: TransformResult)
        ensures
            r@ == kind_vs_remove(SheetTransformKind::MoveCols, m1@, m2@, Axis::Columns),
    {
        reconcile_kind_with_remove(SheetTransformKind::MoveCols, m1, m2, Axis::Columns)
    }

    fn transform_with_insert_row(&self, m1: &MutationInfo, m2: &MutationInfo) -> (r: TransformResult)
        ensures
            r@ == move_lines_other_axis(m1@, m2@),
    {
        reconcile_move_lines_other_axis(m1, m2)
    }

    fn transform_with_remove_rows(&self, m1: &MutationInfo, m2: &MutationInfo) -> (r: TransformResult)
        ensures
            r@ == move_lines_other_axis(m1@, m2@),
    {
        reconcile_move_lines_other_axis(m1, m2)
    }
}

} // verus!
