//! Mutations that no structural edit changes: every transform keeps both
//! mutations, and of two consecutive ones with the same id the later one
//! stands.
use vstd::prelude::*;
use crate::mutation::{mutations_view, MutationInfo};
use crate::mutation_transform::MutationTransform;
use crate::sheets_generic::{keep_later, later_wins};

verus! {

/// Adding a range theme.
#[derive(Default)]
pub struct AddRangeThemeTransform;

impl MutationTransform for AddRangeThemeTransform {
    fn mutation_id() -> (id: &'static str)
        ensures
            id@ == "sheet.mutation.add-range-theme"@,
    {
        "sheet.mutation.add-range-theme"
    }

    fn compose(&self, m1: &MutationInfo, m2: &MutationInfo) -> (r: Vec<MutationInfo>)
        ensures
            mutations_view(r@) == later_wins(m1@, m2@),
    {
        keep_later(m1, m2)
    }
}

/// Protecting a worksheet.
#[derive(Default)]
pub struct AddWorksheetProtectionTransform;

impl MutationTransform for AddWorksheetProtectionTransform {
    fn mutation_id() -> (id: &'static str)
        ensures
            id@ == "sheet.mutation.add-worksheet-protection"@,
    {
        "sheet.mutation.add-worksheet-protection"
    }

    fn compose(&self, m1: &MutationInfo, m2: &MutationInfo) -> (r: Vec<MutationInfo>)
        ensures
            mutations_view(r@) == later_wins(m1@, m2@),
    {
        keep_later(m1, m2)
    }
}

/// Marking conditional-format formulas for recalculation.
#[derive(Default)]
pub struct ConditionalFormattingFormulaMarkDirtyTransform;

impl MutationTransform for ConditionalFormattingFormulaMarkDirtyTransform {
    fn mutation_id() -> (id: &'static str)
        ensures
            id@ == "sheet.mutation.conditional-formatting-formula-mark-dirty"@,
    {
        "sheet.mutation.conditional-formatting-formula-mark-dirty"
    }

    fn compose(&self, m1: &MutationInfo, m2: &MutationInfo) -> (r: Vec<MutationInfo>)
        ensures
            mutations_view(r@) == later_wins(m1@, m2@),
    {
        keep_later(m1, m2)
    }
}

/// Finishing a worksheet copy.
#[derive(Default)]
pub struct CopyWorksheetEndTransform;

impl MutationTransform for CopyWorksheetEndTransform {
    fn mutation_id() -> (id: &'static str)
        ensures
            id@ == "sheet.mutation.copy-worksheet-end"@,
    {
        "sheet.mutation.copy-worksheet-end"
    }

    fn compose(&self, m1: &MutationInfo, m2: &MutationInfo) -> (r: Vec<MutationInfo>)
        ensures
            mutations_view(r@) == later_wins(m1@, m2@),
    {
        keep_later(m1, m2)
    }
}

/// The empty mutation.
#[derive(Default)]
pub struct EmptyTransform;

impl MutationTransform for EmptyTransform {
    fn mutation_id() -> (id: &'static str)
        ensures
            id@ == "sheet.mutation.empty"@,
    {
        "sheet.mutation.empty"
    }

    fn compose(&self, m1: &MutationInfo, m2: &MutationInfo) -> (r: Vec<MutationInfo>)
        ensures
            mutations_view(r@) == later_wins(m1@, m2@),
    {
        keep_later(m1, m2)
    }
}

/// Inserting a worksheet.
#[derive(Default)]
pub struct InsertSheetTransform;

impl MutationTransform for InsertSheetTransform {
    fn mutation_id() -> (id: &'static str)
        ensures
            id@ == "sheet.mutation.insert-sheet"@,
    {
        "sheet.mutation.insert-sheet"
    }

    fn compose(&self, m1: &MutationInfo, m2: &MutationInfo) -> (r: Vec<MutationInfo>)
        ensures
            mutations_view(r@) == later_wins(m1@, m2@),
    {
        keep_later(m1, m2)
    }
}

/// Registering a range theme style.
#[derive(Default)]
pub struct RegisterWorksheetRangeThemeStyleTransform;

impl MutationTransform for RegisterWorksheetRangeThemeStyleTransform {
    fn mutation_id() -> (id: &'static str)
        ensures
            id@ == "sheet.mutation.register-worksheet-range-theme-style"@,
    {
        "sheet.mutation.register-worksheet-range-theme-style"
    }

    fn compose(&self, m1: &MutationInfo, m2: &MutationInfo) -> (r: Vec<MutationInfo>)
        ensures
            mutations_view(r@) == later_wins(m1@, m2@),
    {
        keep_later(m1, m2)
    }
}

/// Changing a range theme.
#[derive(Default)]
pub struct SetRangeThemeTransform;

impl MutationTransform for SetRangeThemeTransform {
    fn mutation_id() -> (id: &'static str)
        ensures
            id@ == "sheet.mutation.set-range-theme"@,
    {
        "sheet.mutation.set-range-theme"
    }

    fn compose(&self, m1: &MutationInfo, m2: &MutationInfo) -> (r: Vec<MutationInfo>)
        ensures
            mutations_view(r@) == later_wins(m1@, m2@),
    {
        keep_later(m1, m2)
    }
}

/// Setting a worksheet's tab color.
#[derive(Default)]
pub struct SetTabColorTransform;

impl MutationTransform for SetTabColorTransform {
    fn mutation_id() -> (id: &'static str)
        ensures
            id@ == "sheet.mutation.set-tab-color"@,
    {
        "sheet.mutation.set-tab-color"
    }

    fn compose(&self, m1: &MutationInfo, m2: &MutationInfo) -> (r: Vec<MutationInfo>)
        ensures
            mutations_view(r@) == later_wins(m1@, m2@),
    {
        keep_later(m1, m2)
    }
}

/// Renaming the workbook.
#[derive(Default)]
pub struct SetWorkbookNameTransform;

impl MutationTransform for SetWorkbookNameTransform {
    fn mutation_id() -> (id: &'static str)
        ensures
            id@ == "sheet.mutation.set-workbook-name"@,
    {
        "sheet.mutation.set-workbook-name"
    }

    fn compose(&self, m1: &MutationInfo, m2: &MutationInfo) -> (r: Vec<MutationInfo>)
        ensures
            mutations_view(r@) == later_wins(m1@, m2@),
    {
        keep_later(m1, m2)
    }
}

/// Setting a worksheet's column count.
#[derive(Default)]
pub struct SetWorksheetColumnCountTransform;

impl MutationTransform for SetWorksheetColumnCountTransform {
    fn mutation_id() -> (id: &'static str)
        ensures
            id@ == "sheet.mutation.set-worksheet-column-count"@,
    {
        "sheet.mutation.set-worksheet-column-count"
    }

    fn compose(&self, m1: &MutationInfo, m2: &MutationInfo) -> (r: Vec<MutationInfo>)
        ensures
            mutations_view(r@) == later_wins(m1@, m2@),
    {
        keep_later(m1, m2)
    }
}

/// Setting a worksheet's default style.
#[derive(Default)]
pub struct SetWorksheetDefaultStyleTransform;

impl MutationTransform for SetWorksheetDefaultStyleTransform {
    fn mutation_id() -> (id: &'static str)
        ensures
            id@ == "sheet.mutation.set-worksheet-default-style"@,
    {
        "sheet.mutation.set-worksheet-default-style"
    }

    fn compose(&self, m1: &MutationInfo, m2: &MutationInfo) -> (r: Vec<MutationInfo>)
        ensures
            mutations_view(r@) == later_wins(m1@, m2@),
    {
        keep_later(m1, m2)
    }
}

/// Hiding or showing a worksheet.
#[derive(Default)]
pub struct SetWorksheetHiddenTransform;

impl MutationTransform for SetWorksheetHiddenTransform {
    fn mutation_id() -> (id: &'static str)
        ensures
            id@ == "sheet.mutation.set-worksheet-hidden"@,
    {
        "sheet.mutation.set-worksheet-hidden"
    }

    fn compose(&self, m1: &MutationInfo, m2: &MutationInfo) -> (r: Vec<MutationInfo>)
        ensures
            mutations_view(r@) == later_wins(m1@, m2@),
    {
        keep_later(m1, m2)
    }
}

/// Renaming a worksheet.
#[derive(Default)]
pub struct SetWorksheetNameTransform;

impl MutationTransform for SetWorksheetNameTransform {
    fn mutation_id() -> (id: &'static str)
        ensures
            id@ == "sheet.mutation.set-worksheet-name"@,
    {
        "sheet.mutation.set-worksheet-name"
    }

    fn compose(&self, m1: &MutationInfo, m2: &MutationInfo) -> (r: Vec<MutationInfo>)
        ensures
            mutations_view(r@) == later_wins(m1@, m2@),
    {
        keep_later(m1, m2)
    }
}

/// Moving a worksheet among the others.
#[derive(Default)]
pub struct SetWorksheetOrderTransform;

impl MutationTransform for SetWorksheetOrderTransform {
    fn mutation_id() -> (id: &'static str)
        ensures
            id@ == "sheet.mutation.set-worksheet-order"@,
    {
        "sheet.mutation.set-worksheet-order"
    }

    fn compose(&self, m1: &MutationInfo, m2: &MutationInfo) -> (r: Vec<MutationInfo>)
        ensures
            mutations_view(r@) == later_wins(m1@, m2@),
    {
        keep_later(m1, m2)
    }
}

/// Setting a worksheet's permission points.
#[derive(Default)]
pub struct SetWorksheetPermissionPointsTransform;

impl MutationTransform for SetWorksheetPermissionPointsTransform {
    fn mutation_id() -> (id: &'static str)
        ensures
            id@ == "sheet.mutation.set-worksheet-permission-points"@,
    {
        "sheet.mutation.set-worksheet-permission-points"
    }

    fn compose(&self, m1: &MutationInfo, m2: &MutationInfo) -> (r: Vec<MutationInfo>)
        ensures
            mutations_view(r@) == later_wins(m1@, m2@),
    {
        keep_later(m1, m2)
    }
}

/// Changing a worksheet's protection.
#[derive(Default)]
pub struct SetWorksheetProtectionTransform;

impl MutationTransform for SetWorksheetProtectionTransform {
    fn mutation_id() -> (id: &'static str)
        ensures
            id@ == "sheet.mutation.set-worksheet-protection"@,
    {
        "sheet.mutation.set-worksheet-protection"
    }

    fn compose(&self, m1: &MutationInfo, m2: &MutationInfo) -> (r: Vec<MutationInfo>)
        ensures
            mutations_view(r@) == later_wins(m1@, m2@),
    {
        keep_later(m1, m2)
    }
}

/// Setting a worksheet's direction.
#[derive(Default)]
pub struct SetWorksheetRightToLeftTransform;

impl MutationTransform for SetWorksheetRightToLeftTransform {
    fn mutation_id() -> (id: &'static str)
        ensures
            id@ == "sheet.mutation.set-worksheet-right-to-left"@,
    {
        "sheet.mutation.set-worksheet-right-to-left"
    }

    fn compose(&self, m1: &MutationInfo, m2: &MutationInfo) -> (r: Vec<MutationInfo>)
        ensures
            mutations_view(r@) == later_wins(m1@, m2@),
    {
        keep_later(m1, m2)
    }
}

/// Setting a worksheet's row count.
#[derive(Default)]
pub struct SetWorksheetRowCountTransform;

impl MutationTransform for SetWorksheetRowCountTransform {
    fn mutation_id() -> (id: &'static str)
        ensures
            id@ == "sheet.mutation.set-worksheet-row-count"@,
    {
        "sheet.mutation.set-worksheet-row-count"
    }

    fn compose(&self, m1: &MutationInfo, m2: &MutationInfo) -> (r: Vec<MutationInfo>)
        ensures
            mutations_view(r@) == later_wins(m1@, m2@),
    {
        keep_later(m1, m2)
    }
}

/// Setting the color of gridlines.
#[derive(Default)]
pub struct SetGridlinesColorTransform;

impl MutationTransform for SetGridlinesColorTransform {
    fn mutation_id() -> (id: &'static str)
        ensures
            id@ == "sheet.mutation.set-gridlines-color"@,
    {
        "sheet.mutation.set-gridlines-color"
    }

    fn compose(&self, m1: &MutationInfo, m2: &MutationInfo) -> (r: Vec<MutationInfo>)
        ensures
            mutations_view(r@) == later_wins(m1@, m2@),
    {
        keep_later(m1, m2)
    }
}

/// Showing or hiding gridlines.
#[derive(Default)]
pub struct ToggleGridlinesTransform;

impl MutationTransform for ToggleGridlinesTransform {
    fn mutation_id() -> (id: &'static str)
        ensures
            id@ == "sheet.mutation.toggle-gridlines"@,
    {
        "sheet.mutation.toggle-gridlines"
    }

    fn compose(&self, m1: &MutationInfo, m2: &MutationInfo) -> (r: Vec<MutationInfo>)
        ensures
            mutations_view(r@) == later_wins(m1@, m2@),
    {
        keep_later(m1, m2)
    }
}

/// Unregistering a range theme style.
#[derive(Default)]
pub struct UnregisterWorksheetRangeThemeStyleTransform;

impl MutationTransform for UnregisterWorksheetRangeThemeStyleTransform {
    fn mutation_id() -> (id: &'static str)
        ensures
            id@ == "sheet.mutation.unregister-worksheet-range-theme-style"@,
    {
        "sheet.mutation.unregister-worksheet-range-theme-style"
    }

    fn compose(&self, m1: &MutationInfo, m2: &MutationInfo) -> (r: Vec<MutationInfo>)
        ensures
            mutations_view(r@) == later_wins(m1@, m2@),
    {
        keep_later(m1, m2)
    }
}

} // verus!
