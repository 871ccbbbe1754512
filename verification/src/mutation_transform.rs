//! The interface every mutation type implements: how a mutation of this type
//! (`m1`) is rewritten against a concurrent mutation of each known type (`m2`),
//! and how two consecutive mutations of this type are merged.
//!
//! Every `transform_with_*` method keeps both mutations unchanged unless the
//! implementing type overrides it.
use vstd::prelude::*;
use crate::mutation::{keep_both, unchanged, MutationInfo, TransformResult};

verus! {

pub trait MutationTransform {
    /// The id of the mutations this type transforms.
    fn mutation_id() -> (id: &'static str);

    /// Merges two consecutive mutations of this type; one element when they
    /// merge, both otherwise.
    fn compose(&self, m1: &MutationInfo, m2: &MutationInfo) -> (r: Vec<MutationInfo>);

    /// `m1` against a concurrent `sheet.mutation.set-range-values`.
    fn transform_with_set_range_values(&self, m1: &MutationInfo, m2: &MutationInfo) -> (r: TransformResult)
        default_ensures
            r@ == unchanged(m1@, m2@),
    {
        keep_both(m1, m2)
    }

    /// `m1` against a concurrent `sheet.mutation.insert-row`.
    fn transform_with_insert_row(&self, m1: &MutationInfo, m2: &MutationInfo) -> (r: TransformResult)
        default_ensures
            r@ == unchanged(m1@, m2@),
    {
        keep_both(m1, m2)
    }

    /// `m1` against a concurrent `sheet.mutation.insert-col`.
    fn transform_with_insert_col(&self, m1: &MutationInfo, m2: &MutationInfo) -> (r: TransformResult)
        default_ensures
            r@ == unchanged(m1@, m2@),
    {
        keep_both(m1, m2)
    }

    /// `m1` against a concurrent `sheet.mutation.remove-rows`.
    fn transform_with_remove_rows(&self, m1: &MutationInfo, m2: &MutationInfo) -> (r: TransformResult)
        default_ensures
            r@ == unchanged(m1@, m2@),
    {
        keep_both(m1, m2)
    }

    /// `m1` against a concurrent `sheet.mutation.remove-col`.
    fn transform_with_remove_col(&self, m1: &MutationInfo, m2: &MutationInfo) -> (r: TransformResult)
        default_ensures
            r@ == unchanged(m1@, m2@),
    {
        keep_both(m1, m2)
    }

    /// `m1` against a concurrent `sheet.mutation.add-conditional-rule`.
    fn transform_with_add_conditional_rule(&self, m1: &MutationInfo, m2: &MutationInfo) -> (r: TransformResult)
        default_ensures
            r@ == unchanged(m1@, m2@),
    {
        keep_both(m1, m2)
    }

    /// `m1` against a concurrent `sheet.mutation.add-range-protection`.
    fn transform_with_add_range_protection(&self, m1: &MutationInfo, m2: &MutationInfo) -> (r: TransformResult)
        default_ensures
            r@ == unchanged(m1@, m2@),
    {
        keep_both(m1, m2)
    }

    /// `m1` against a concurrent `sheet.mutation.add-range-theme`.
    fn transform_with_add_range_theme(&self, m1: &MutationInfo, m2: &MutationInfo) -> (r: TransformResult)
        default_ensures
            r@ == unchanged(m1@, m2@),
    {
        keep_both(m1, m2)
    }

    /// `m1` against a concurrent `sheet.mutation.add-worksheet-merge`.
    fn transform_with_add_worksheet_merge(&self, m1: &MutationInfo, m2: &MutationInfo) -> (r: TransformResult)
        default_ensures
            r@ == unchanged(m1@, m2@),
    {
        keep_both(m1, m2)
    }

    /// `m1` against a concurrent `sheet.mutation.add-worksheet-protection`.
    fn transform_with_add_worksheet_protection(&self, m1: &MutationInfo, m2: &MutationInfo) -> (r: TransformResult)
        default_ensures
            r@ == unchanged(m1@, m2@),
    {
        keep_both(m1, m2)
    }

    /// `m1` against a concurrent `sheet.mutation.conditional-formatting-formula-mark-dirty`.
    fn transform_with_conditional_formatting_formula_mark_dirty(&self, m1: &MutationInfo, m2: &MutationInfo) -> (r: TransformResult)
        default_ensures
            r@ == unchanged(m1@, m2@),
    {
        keep_both(m1, m2)
    }

    /// `m1` against a concurrent `sheet.mutation.copy-worksheet-end`.
    fn transform_with_copy_worksheet_end(&self, m1: &MutationInfo, m2: &MutationInfo) -> (r: TransformResult)
        default_ensures
            r@ == unchanged(m1@, m2@),
    {
        keep_both(m1, m2)
    }

    /// `m1` against a concurrent `sheet.mutation.delete-conditional-rule`.
    fn transform_with_delete_conditional_rule(&self, m1: &MutationInfo, m2: &MutationInfo) -> (r: TransformResult)
        default_ensures
            r@ == unchanged(m1@, m2@),
    {
        keep_both(m1, m2)
    }

    /// `m1` against a concurrent `sheet.mutation.delete-range-protection`.
    fn transform_with_delete_range_protection(&self, m1: &MutationInfo, m2: &MutationInfo) -> (r: TransformResult)
        default_ensures
            r@ == unchanged(m1@, m2@),
    {
        keep_both(m1, m2)
    }

    /// `m1` against a concurrent `sheet.mutation.delete-worksheet-protection`.
    fn transform_with_delete_worksheet_protection(&self, m1: &MutationInfo, m2: &MutationInfo) -> (r: TransformResult)
        default_ensures
            r@ == unchanged(m1@, m2@),
    {
        keep_both(m1, m2)
    }

    /// `m1` against a concurrent `sheet.mutation.remove-worksheet-range-theme-style`.
    fn transform_with_remove_worksheet_range_theme_style(&self, m1: &MutationInfo, m2: &MutationInfo) -> (r: TransformResult)
        default_ensures
            r@ == unchanged(m1@, m2@),
    {
        keep_both(m1, m2)
    }

    /// `m1` against a concurrent `sheet.mutation.empty`.
    fn transform_with_empty(&self, m1: &MutationInfo, m2: &MutationInfo) -> (r: TransformResult)
        default_ensures
            r@ == unchanged(m1@, m2@),
    {
        keep_both(m1, m2)
    }

    /// `m1` against a concurrent `sheet.mutation.insert-sheet`.
    fn transform_with_insert_sheet(&self, m1: &MutationInfo, m2: &MutationInfo) -> (r: TransformResult)
        default_ensures
            r@ == unchanged(m1@, m2@),
    {
        keep_both(m1, m2)
    }

    /// `m1` against a concurrent `sheet.mutation.move-columns`.
    fn transform_with_move_columns(&self, m1: &MutationInfo, m2: &MutationInfo) -> (r: TransformResult)
        default_ensures
            r@ == unchanged(m1@, m2@),
    {
        keep_both(m1, m2)
    }

    /// `m1` against a concurrent `sheet.mutation.move-conditional-rule`.
    fn transform_with_move_conditional_rule(&self, m1: &MutationInfo, m2: &MutationInfo) -> (r: TransformResult)
        default_ensures
            r@ == unchanged(m1@, m2@),
    {
        keep_both(m1, m2)
    }

    /// `m1` against a concurrent `sheet.mutation.move-rows`.
    fn transform_with_move_rows(&self, m1: &MutationInfo, m2: &MutationInfo) -> (r: TransformResult)
        default_ensures
            r@ == unchanged(m1@, m2@),
    {
        keep_both(m1, m2)
    }

    /// `m1` against a concurrent `sheet.mutation.move-range`.
    fn transform_with_move_range(&self, m1: &MutationInfo, m2: &MutationInfo) -> (r: TransformResult)
        default_ensures
            r@ == unchanged(m1@, m2@),
    {
        keep_both(m1, m2)
    }

    /// `m1` against a concurrent `sheet.mutation.register-worksheet-range-theme-style`.
    fn transform_with_register_worksheet_range_theme_style(&self, m1: &MutationInfo, m2: &MutationInfo) -> (r: TransformResult)
        default_ensures
            r@ == unchanged(m1@, m2@),
    {
        keep_both(m1, m2)
    }

    /// `m1` against a concurrent `sheet.mutation.remove-range-theme`.
    fn transform_with_remove_range_theme(&self, m1: &MutationInfo, m2: &MutationInfo) -> (r: TransformResult)
        default_ensures
            r@ == unchanged(m1@, m2@),
    {
        keep_both(m1, m2)
    }

    /// `m1` against a concurrent `sheet.mutation.remove-sheet`.
    fn transform_with_remove_sheet(&self, m1: &MutationInfo, m2: &MutationInfo) -> (r: TransformResult)
        default_ensures
            r@ == unchanged(m1@, m2@),
    {
        keep_both(m1, m2)
    }

    /// `m1` against a concurrent `sheet.mutation.remove-worksheet-merge`.
    fn transform_with_remove_worksheet_merge(&self, m1: &MutationInfo, m2: &MutationInfo) -> (r: TransformResult)
        default_ensures
            r@ == unchanged(m1@, m2@),
    {
        keep_both(m1, m2)
    }

    /// `m1` against a concurrent `sheet.mutation.reorder-range`.
    fn transform_with_reorder_range(&self, m1: &MutationInfo, m2: &MutationInfo) -> (r: TransformResult)
        default_ensures
            r@ == unchanged(m1@, m2@),
    {
        keep_both(m1, m2)
    }

    /// `m1` against a concurrent `sheet.mutation.set-col-data`.
    fn transform_with_set_col_data(&self, m1: &MutationInfo, m2: &MutationInfo) -> (r: TransformResult)
        default_ensures
            r@ == unchanged(m1@, m2@),
    {
        keep_both(m1, m2)
    }

    /// `m1` against a concurrent `sheet.mutation.set-col-hidden`.
    fn transform_with_set_col_hidden(&self, m1: &MutationInfo, m2: &MutationInfo) -> (r: TransformResult)
        default_ensures
            r@ == unchanged(m1@, m2@),
    {
        keep_both(m1, m2)
    }

    /// `m1` against a concurrent `sheet.mutation.set-col-visible`.
    fn transform_with_set_col_visible(&self, m1: &MutationInfo, m2: &MutationInfo) -> (r: TransformResult)
        default_ensures
            r@ == unchanged(m1@, m2@),
    {
        keep_both(m1, m2)
    }

    /// `m1` against a concurrent `sheet.mutation.set-frozen`.
    fn transform_with_set_frozen(&self, m1: &MutationInfo, m2: &MutationInfo) -> (r: TransformResult)
        default_ensures
            r@ == unchanged(m1@, m2@),
    {
        keep_both(m1, m2)
    }

    /// `m1` against a concurrent `sheet.mutation.set-gridlines-color`.
    fn transform_with_set_gridlines_color(&self, m1: &MutationInfo, m2: &MutationInfo) -> (r: TransformResult)
        default_ensures
            r@ == unchanged(m1@, m2@),
    {
        keep_both(m1, m2)
    }

    /// `m1` against a concurrent `sheet.mutation.set.numfmt`.
    fn transform_with_set_numfmt(&self, m1: &MutationInfo, m2: &MutationInfo) -> (r: TransformResult)
        default_ensures
            r@ == unchanged(m1@, m2@),
    {
        keep_both(m1, m2)
    }

    /// `m1` against a concurrent `sheet.mutation.remove.numfmt`.
    fn transform_with_remove_numfmt(&self, m1: &MutationInfo, m2: &MutationInfo) -> (r: TransformResult)
        default_ensures
            r@ == unchanged(m1@, m2@),
    {
        keep_both(m1, m2)
    }

    /// `m1` against a concurrent `sheet.mutation.set-range-protection`.
    fn transform_with_set_range_protection(&self, m1: &MutationInfo, m2: &MutationInfo) -> (r: TransformResult)
        default_ensures
            r@ == unchanged(m1@, m2@),
    {
        keep_both(m1, m2)
    }

    /// `m1` against a concurrent `sheet.mutation.set-conditional-rule`.
    fn transform_with_set_conditional_rule(&self, m1: &MutationInfo, m2: &MutationInfo) -> (r: TransformResult)
        default_ensures
            r@ == unchanged(m1@, m2@),
    {
        keep_both(m1, m2)
    }

    /// `m1` against a concurrent `sheet.mutation.set-range-theme`.
    fn transform_with_set_range_theme(&self, m1: &MutationInfo, m2: &MutationInfo) -> (r: TransformResult)
        default_ensures
            r@ == unchanged(m1@, m2@),
    {
        keep_both(m1, m2)
    }

    /// `m1` against a concurrent `sheet.mutation.set-row-data`.
    fn transform_with_set_row_data(&self, m1: &MutationInfo, m2: &MutationInfo) -> (r: TransformResult)
        default_ensures
            r@ == unchanged(m1@, m2@),
    {
        keep_both(m1, m2)
    }

    /// `m1` against a concurrent `sheet.mutation.set-row-hidden`.
    fn transform_with_set_row_hidden(&self, m1: &MutationInfo, m2: &MutationInfo) -> (r: TransformResult)
        default_ensures
            r@ == unchanged(m1@, m2@),
    {
        keep_both(m1, m2)
    }

    /// `m1` against a concurrent `sheet.mutation.set-row-visible`.
    fn transform_with_set_row_visible(&self, m1: &MutationInfo, m2: &MutationInfo) -> (r: TransformResult)
        default_ensures
            r@ == unchanged(m1@, m2@),
    {
        keep_both(m1, m2)
    }

    /// `m1` against a concurrent `sheet.mutation.set-tab-color`.
    fn transform_with_set_tab_color(&self, m1: &MutationInfo, m2: &MutationInfo) -> (r: TransformResult)
        default_ensures
            r@ == unchanged(m1@, m2@),
    {
        keep_both(m1, m2)
    }

    /// `m1` against a concurrent `sheet.mutation.set-workbook-name`.
    fn transform_with_set_workbook_name(&self, m1: &MutationInfo, m2: &MutationInfo) -> (r: TransformResult)
        default_ensures
            r@ == unchanged(m1@, m2@),
    {
        keep_both(m1, m2)
    }

    /// `m1` against a concurrent `sheet.mutation.set-worksheet-col-width`.
    fn transform_with_set_worksheet_col_width(&self, m1: &MutationInfo, m2: &MutationInfo) -> (r: TransformResult)
        default_ensures
            r@ == unchanged(m1@, m2@),
    {
        keep_both(m1, m2)
    }

    /// `m1` against a concurrent `sheet.mutation.set-worksheet-column-count`.
    fn transform_with_set_worksheet_column_count(&self, m1: &MutationInfo, m2: &MutationInfo) -> (r: TransformResult)
        default_ensures
            r@ == unchanged(m1@, m2@),
    {
        keep_both(m1, m2)
    }

    /// `m1` against a concurrent `sheet.mutation.set-worksheet-default-style`.
    fn transform_with_set_worksheet_default_style(&self, m1: &MutationInfo, m2: &MutationInfo) -> (r: TransformResult)
        default_ensures
            r@ == unchanged(m1@, m2@),
    {
        keep_both(m1, m2)
    }

    /// `m1` against a concurrent `sheet.mutation.set-worksheet-hidden`.
    fn transform_with_set_worksheet_hidden(&self, m1: &MutationInfo, m2: &MutationInfo) -> (r: TransformResult)
        default_ensures
            r@ == unchanged(m1@, m2@),
    {
        keep_both(m1, m2)
    }

    /// `m1` against a concurrent `sheet.mutation.set-worksheet-name`.
    fn transform_with_set_worksheet_name(&self, m1: &MutationInfo, m2: &MutationInfo) -> (r: TransformResult)
        default_ensures
            r@ == unchanged(m1@, m2@),
    {
        keep_both(m1, m2)
    }

    /// `m1` against a concurrent `sheet.mutation.set-worksheet-order`.
    fn transform_with_set_worksheet_order(&self, m1: &MutationInfo, m2: &MutationInfo) -> (r: TransformResult)
        default_ensures
            r@ == unchanged(m1@, m2@),
    {
        keep_both(m1, m2)
    }

    /// `m1` against a concurrent `sheet.mutation.set-worksheet-permission-points`.
    fn transform_with_set_worksheet_permission_points(&self, m1: &MutationInfo, m2: &MutationInfo) -> (r: TransformResult)
        default_ensures
            r@ == unchanged(m1@, m2@),
    {
        keep_both(m1, m2)
    }

    /// `m1` against a concurrent `sheet.mutation.set-worksheet-protection`.
    fn transform_with_set_worksheet_protection(&self, m1: &MutationInfo, m2: &MutationInfo) -> (r: TransformResult)
        default_ensures
            r@ == unchanged(m1@, m2@),
    {
        keep_both(m1, m2)
    }

    /// `m1` against a concurrent `sheet.mutation.set-worksheet-range-theme-style`.
    fn transform_with_set_worksheet_range_theme_style(&self, m1: &MutationInfo, m2: &MutationInfo) -> (r: TransformResult)
        default_ensures
            r@ == unchanged(m1@, m2@),
    {
        keep_both(m1, m2)
    }

    /// `m1` against a concurrent `sheet.mutation.set-worksheet-right-to-left`.
    fn transform_with_set_worksheet_right_to_left(&self, m1: &MutationInfo, m2: &MutationInfo) -> (r: TransformResult)
        default_ensures
            r@ == unchanged(m1@, m2@),
    {
        keep_both(m1, m2)
    }

    /// `m1` against a concurrent `sheet.mutation.set-worksheet-row-auto-height`.
    fn transform_with_set_worksheet_row_auto_height(&self, m1: &MutationInfo, m2: &MutationInfo) -> (r: TransformResult)
        default_ensures
            r@ == unchanged(m1@, m2@),
    {
        keep_both(m1, m2)
    }

    /// `m1` against a concurrent `sheet.mutation.set-worksheet-row-count`.
    fn transform_with_set_worksheet_row_count(&self, m1: &MutationInfo, m2: &MutationInfo) -> (r: TransformResult)
        default_ensures
            r@ == unchanged(m1@, m2@),
    {
        keep_both(m1, m2)
    }

    /// `m1` against a concurrent `sheet.mutation.set-worksheet-row-height`.
    fn transform_with_set_worksheet_row_height(&self, m1: &MutationInfo, m2: &MutationInfo) -> (r: TransformResult)
        default_ensures
            r@ == unchanged(m1@, m2@),
    {
        keep_both(m1, m2)
    }

    /// `m1` against a concurrent `sheet.mutation.set-worksheet-row-is-auto-height`.
    fn transform_with_set_worksheet_row_is_auto_height(&self, m1: &MutationInfo, m2: &MutationInfo) -> (r: TransformResult)
        default_ensures
            r@ == unchanged(m1@, m2@),
    {
        keep_both(m1, m2)
    }

    /// `m1` against a concurrent `sheet.mutation.toggle-gridlines`.
    fn transform_with_toggle_gridlines(&self, m1: &MutationInfo, m2: &MutationInfo) -> (r: TransformResult)
        default_ensures
            r@ == unchanged(m1@, m2@),
    {
        keep_both(m1, m2)
    }

    /// `m1` against a concurrent `sheet.mutation.unregister-worksheet-range-theme-style`.
    fn transform_with_unregister_worksheet_range_theme_style(&self, m1: &MutationInfo, m2: &MutationInfo) -> (r: TransformResult)
        default_ensures
            r@ == unchanged(m1@, m2@),
    {
        keep_both(m1, m2)
    }

    /// `m1` against a concurrent `data-validation.mutation.addRule`.
    fn transform_with_add_data_validation(&self, m1: &MutationInfo, m2: &MutationInfo) -> (r: TransformResult)
        default_ensures
            r@ == unchanged(m1@, m2@),
    {
        keep_both(m1, m2)
    }

    /// `m1` against a concurrent `data-validation.mutation.removeRule`.
    fn transform_with_remove_data_validation(&self, m1: &MutationInfo, m2: &MutationInfo) -> (r: TransformResult)
        default_ensures
            r@ == unchanged(m1@, m2@),
    {
        keep_both(m1, m2)
    }

    /// `m1` against a concurrent `data-validation.mutation.updateRule`.
    fn transform_with_update_data_validation(&self, m1: &MutationInfo, m2: &MutationInfo) -> (r: TransformResult)
        default_ensures
            r@ == unchanged(m1@, m2@),
    {
        keep_both(m1, m2)
    }
}

} // verus!
