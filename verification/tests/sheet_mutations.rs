use univer_ot::matrix::{CellMatrix, IndexEntry, IndexKey, IndexMap};
use univer_ot::mutation::{
    MoveRangeParams, MoveRangeSide, MoveRowsColsParams, MutationInfo, MutationParams, NumfmtParams, ProtectionParams, RangeParams,
    RangesParams, ReorderRangeParams, RuleParams, RuleValue, SetFrozenParams,
    SetRangeValuesMutationParams, ThemeParams,
};
use univer_ot::mutation_transform::MutationTransform;
use univer_ot::sheet::{Range, SubUnitParams};
use univer_ot::sheets_generic::{build_generic_transform, SheetTransformKind};
use univer_ot::sheets_mutations::by_kind::{
    AddWorksheetMergeTransform, MoveColumnsTransform, MoveRowsTransform, SetColHiddenTransform,
    SetColVisibleTransform, SetFrozenTransform, SetRowHiddenTransform, SetRowVisibleTransform,
    SetWorksheetRangeThemeStyleTransform,
};
use univer_ot::sheets_mutations::discarding::{
    DeleteRangeProtectionTransform, DeleteWorksheetProtectionTransform,
    DeleteWorksheetRangeThemeStyleTransform, RemoveNumfmtTransform, RemoveRangeThemeTransform,
    RemoveSheetTransform, RemoveWorksheetMergeTransform,
};
use univer_ot::sheets_mutations::identity::{
    AddRangeThemeTransform, AddWorksheetProtectionTransform, CopyWorksheetEndTransform,
    EmptyTransform, InsertSheetTransform, RegisterWorksheetRangeThemeStyleTransform,
    SetGridlinesColorTransform, SetRangeThemeTransform, SetTabColorTransform, SetWorkbookNameTransform,
    SetWorksheetColumnCountTransform, SetWorksheetDefaultStyleTransform,
    SetWorksheetHiddenTransform, SetWorksheetNameTransform, SetWorksheetOrderTransform,
    SetWorksheetPermissionPointsTransform, SetWorksheetProtectionTransform,
    SetWorksheetRightToLeftTransform, SetWorksheetRowCountTransform, ToggleGridlinesTransform,
    UnregisterWorksheetRangeThemeStyleTransform,
};
use univer_ot::sheets_mutations::layout::{ReorderRangeTransform, SetWorksheetRowHeightTransform};
use univer_ot::sheets_mutations::rules::AddDataValidationTransform;

fn sheet_of(unit: &str, sheet: &str) -> SubUnitParams {
    SubUnitParams { unit_id: unit.to_string(), sub_unit_id: sheet.to_string() }
}

fn sheet() -> SubUnitParams {
    sheet_of("unit", "sheet")
}

fn range(start_row: u32, start_column: u32, end_row: u32, end_column: u32) -> Range {
    Range { start_row, start_column, end_row, end_column }
}

fn key(k: &str) -> IndexKey {
    match k.parse::<u32>() {
        Ok(n) => IndexKey::Index(n),
        Err(_) => IndexKey::Name(k.to_string()),
    }
}

fn index_map(entries: &[(&str, &str)]) -> IndexMap {
    IndexMap { entries: entries.iter().map(|(k, v)| IndexEntry { key: key(k), value: v.to_string() }).collect() }
}

fn map_has_key(m: &IndexMap, k: &str) -> bool {
    m.entries.iter().any(|e| e.key == key(k))
}

fn mutation(id: &str, params: MutationParams) -> MutationInfo {
    MutationInfo { id: id.to_string(), params, extra: "{}".to_string() }
}

fn range_mutation_on(id: &str, s: SubUnitParams, r: Range) -> MutationInfo {
    mutation(id, MutationParams::Range(RangeParams { sub_unit: s, range: r, info: None }))
}

fn range_mutation(id: &str, r: Range) -> MutationInfo {
    range_mutation_on(id, sheet(), r)
}

fn ranges_mutation(id: &str, ranges: Vec<Range>, row_height: Option<IndexMap>) -> MutationInfo {
    mutation(id, MutationParams::Ranges(RangesParams { sub_unit: sheet(), ranges, row_height }))
}

fn frozen_mutation(start_row: u32, start_column: u32, y_split: u32, x_split: u32) -> MutationInfo {
    mutation(
        "sheet.mutation.set-frozen",
        MutationParams::Frozen(SetFrozenParams { sub_unit: sheet(), start_row, start_column, y_split, x_split }),
    )
}

fn move_mutation(id: &str, source_range: Range, target_range: Range) -> MutationInfo {
    mutation(id, MutationParams::MoveRowsCols(MoveRowsColsParams { sub_unit: sheet(), source_range, target_range }))
}

fn reorder_mutation(r: Range, order: &[(&str, &str)]) -> MutationInfo {
    mutation(
        "sheet.mutation.reorder-range",
        MutationParams::Reorder(ReorderRangeParams { sub_unit: sheet(), range: r, order: index_map(order) }),
    )
}

fn validation_mutation(ranges: Vec<Range>) -> MutationInfo {
    mutation(
        "data-validation.mutation.addRule",
        MutationParams::Rule(RuleParams {
            sub_unit: sheet(),
            rule: Some(RuleValue {
                unit_id: None,
                sub_unit_id: None,
                ranges: Some(ranges),
                extra: "{\"uid\":\"rule-1\"}".to_string(),
            }),
        }),
    )
}

fn protection_mutation(id: &str, rule_ids: &[&str], rules: &[&str], rule_id: Option<&str>) -> MutationInfo {
    mutation(
        id,
        MutationParams::Protection(ProtectionParams {
            sub_unit: sheet(),
            rule_ids: rule_ids.iter().map(|s| s.to_string()).collect(),
            rules: rules.iter().map(|s| Some(s.to_string())).collect(),
            rule_id: rule_id.map(|s| s.to_string()),
        }),
    )
}

fn theme_mutation(id: &str, s: SubUnitParams, style_name: Option<&str>, style_json_name: Option<&str>) -> MutationInfo {
    mutation(
        id,
        MutationParams::Theme(ThemeParams {
            sub_unit: s,
            range: None,
            style_name: style_name.map(|n| n.to_string()),
            style_json_name: style_json_name.map(|n| n.to_string()),
        }),
    )
}

fn sheet_mutation(id: &str, s: SubUnitParams) -> MutationInfo {
    mutation(id, MutationParams::SubUnit(s))
}

fn range_of(m: &MutationInfo) -> Range {
    match &m.params {
        MutationParams::Range(p) => p.range,
        other => panic!("no range: {:?}", other),
    }
}

fn ranges_of(m: &MutationInfo) -> RangesParams {
    match &m.params {
        MutationParams::Ranges(p) => p.clone(),
        other => panic!("no ranges: {:?}", other),
    }
}

fn frozen_of(m: &MutationInfo) -> SetFrozenParams {
    match &m.params {
        MutationParams::Frozen(p) => p.clone(),
        other => panic!("no frozen panes: {:?}", other),
    }
}

fn move_of(m: &MutationInfo) -> MoveRowsColsParams {
    match &m.params {
        MutationParams::MoveRowsCols(p) => p.clone(),
        other => panic!("no move: {:?}", other),
    }
}

fn reorder_of(m: &MutationInfo) -> ReorderRangeParams {
    match &m.params {
        MutationParams::Reorder(p) => p.clone(),
        other => panic!("no reorder: {:?}", other),
    }
}

fn rule_ranges_of(m: &MutationInfo) -> Vec<Range> {
    match &m.params {
        MutationParams::Rule(p) => p.rule.clone().unwrap().ranges.unwrap(),
        other => panic!("no rule: {:?}", other),
    }
}

// ---------------------------------------------------------------------------
// By kind of parameters
// ---------------------------------------------------------------------------

#[test]
fn test_range_transform_with_insert_row() {
    let transform = build_generic_transform("sheet.mutation.add-range-theme", SheetTransformKind::Range);
    let m1 = range_mutation(transform.id, range(1, 0, 2, 1));
    let m2 = range_mutation("sheet.mutation.insert-row", range(0, 0, 0, 0));
    let result = transform.transform_with_insert_row(&m1, &m2);
    assert_eq!(range_of(&result.m1_prime.unwrap()).start_row, 2);
}

#[test]
fn test_range_transform_with_remove_row_drops() {
    let transform = build_generic_transform("sheet.mutation.add-range-theme", SheetTransformKind::Range);
    let m1 = range_mutation(transform.id, range(1, 0, 1, 1));
    let m2 = range_mutation("sheet.mutation.remove-rows", range(1, 0, 1, 0));
    let result = transform.transform_with_remove_rows(&m1, &m2);
    assert!(result.m1_prime.is_none());
}

#[test]
fn test_set_frozen_shifts_on_remove_col() {
    let m1 = frozen_mutation(0, 3, 1, 1);
    let m2 = range_mutation("sheet.mutation.remove-col", range(0, 0, 0, 1));
    let result = SetFrozenTransform::default().transform_with_remove_col(&m1, &m2);
    assert_eq!(frozen_of(&result.m1_prime.unwrap()).start_column, 1);
}

#[test]
fn test_set_frozen_shifts_on_insert_row() {
    let m1 = frozen_mutation(2, 0, 1, 0);
    let m2 = range_mutation("sheet.mutation.insert-row", range(1, 0, 1, 0));
    let result = SetFrozenTransform::default().transform_with_insert_row(&m1, &m2);
    assert_eq!(frozen_of(&result.m1_prime.unwrap()).start_row, 3);
}

#[test]
fn test_set_frozen_shifts_on_remove_rows() {
    let m1 = frozen_mutation(3, 0, 2, 0);
    let m2 = range_mutation("sheet.mutation.remove-rows", range(2, 0, 3, 0));
    let result = SetFrozenTransform::default().transform_with_remove_rows(&m1, &m2);
    let params = frozen_of(&result.m1_prime.unwrap());
    assert_eq!(params.start_row, 2);
    assert_eq!(params.y_split, 0);
}

#[test]
fn test_set_frozen_shifts_on_insert_col() {
    let m1 = frozen_mutation(0, 2, 0, 1);
    let m2 = range_mutation("sheet.mutation.insert-col", range(0, 1, 0, 1));
    let result = SetFrozenTransform::default().transform_with_insert_col(&m1, &m2);
    assert_eq!(frozen_of(&result.m1_prime.unwrap()).start_column, 3);
}

#[test]
fn test_set_worksheet_row_height_shifts_on_insert_row() {
    let m1 = ranges_mutation(
        "sheet.mutation.set-worksheet-row-height",
        vec![range(1, 0, 2, 1)],
        Some(index_map(&[("1", "24"), ("2", "30")])),
    );
    let m2 = range_mutation("sheet.mutation.insert-row", range(1, 0, 1, 0));
    let result = SetWorksheetRowHeightTransform::default().transform_with_insert_row(&m1, &m2);
    let params = ranges_of(&result.m1_prime.unwrap());
    assert_eq!(params.ranges[0].start_row, 2);
    let row_height = params.row_height.unwrap();
    assert!(map_has_key(&row_height, "2"));
    assert!(map_has_key(&row_height, "3"));
}

#[test]
fn test_set_worksheet_row_height_shifts_on_remove_col() {
    let m1 = ranges_mutation(
        "sheet.mutation.set-worksheet-row-height",
        vec![range(1, 2, 1, 2)],
        Some(index_map(&[("1", "24")])),
    );
    let m2 = range_mutation("sheet.mutation.remove-col", range(0, 1, 0, 1));
    let result = SetWorksheetRowHeightTransform::default().transform_with_remove_col(&m1, &m2);
    assert_eq!(ranges_of(&result.m1_prime.unwrap()).ranges[0].start_column, 1);
}

#[test]
fn test_set_worksheet_row_height_shifts_on_insert_col() {
    let m1 = ranges_mutation(
        "sheet.mutation.set-worksheet-row-height",
        vec![range(0, 2, 0, 2)],
        Some(index_map(&[("0", "24")])),
    );
    let m2 = range_mutation("sheet.mutation.insert-col", range(0, 1, 0, 1));
    let result = SetWorksheetRowHeightTransform::default().transform_with_insert_col(&m1, &m2);
    assert_eq!(ranges_of(&result.m1_prime.unwrap()).ranges[0].start_column, 3);
}

#[test]
fn test_move_rows_shifts_on_insert_row() {
    let m1 = move_mutation("sheet.mutation.move-rows", range(2, 0, 3, 0), range(5, 0, 6, 0));
    let m2 = range_mutation("sheet.mutation.insert-row", range(1, 0, 1, 0));
    let result = MoveRowsTransform::default().transform_with_insert_row(&m1, &m2);
    assert_eq!(move_of(&result.m1_prime.unwrap()).source_range.start_row, 3);
}

#[test]
fn test_move_rows_shifts_on_remove_rows() {
    let m1 = move_mutation("sheet.mutation.move-rows", range(3, 0, 4, 0), range(6, 0, 7, 0));
    let m2 = range_mutation("sheet.mutation.remove-rows", range(1, 0, 1, 0));
    let result = MoveRowsTransform::default().transform_with_remove_rows(&m1, &m2);
    assert_eq!(move_of(&result.m1_prime.unwrap()).source_range.start_row, 2);
}

#[test]
fn test_move_columns_shifts_on_remove_col() {
    let m1 = move_mutation("sheet.mutation.move-columns", range(0, 3, 0, 4), range(0, 6, 0, 7));
    let m2 = range_mutation("sheet.mutation.remove-col", range(0, 1, 0, 1));
    let result = MoveColumnsTransform::default().transform_with_remove_col(&m1, &m2);
    assert_eq!(move_of(&result.m1_prime.unwrap()).source_range.start_column, 2);
}

#[test]
fn test_move_columns_shifts_on_insert_col() {
    let m1 = move_mutation("sheet.mutation.move-columns", range(0, 2, 0, 3), range(0, 5, 0, 6));
    let m2 = range_mutation("sheet.mutation.insert-col", range(0, 1, 0, 1));
    let result = MoveColumnsTransform::default().transform_with_insert_col(&m1, &m2);
    assert_eq!(move_of(&result.m1_prime.unwrap()).source_range.start_column, 3);
}

#[test]
fn test_reorder_range_shifts_on_insert_row() {
    let m1 = reorder_mutation(range(1, 0, 3, 1), &[("1", "2"), ("2", "1")]);
    let m2 = range_mutation("sheet.mutation.insert-row", range(1, 0, 1, 0));
    let result = ReorderRangeTransform::default().transform_with_insert_row(&m1, &m2);
    let order = reorder_of(&result.m1_prime.unwrap()).order;
    assert!(map_has_key(&order, "2"));
    assert!(map_has_key(&order, "3"));
}

#[test]
fn test_reorder_range_shifts_on_remove_col() {
    let m1 = reorder_mutation(range(0, 2, 1, 2), &[("0", "1")]);
    let m2 = range_mutation("sheet.mutation.remove-col", range(0, 1, 0, 1));
    let result = ReorderRangeTransform::default().transform_with_remove_col(&m1, &m2);
    assert_eq!(reorder_of(&result.m1_prime.unwrap()).range.start_column, 1);
}

#[test]
fn test_reorder_range_shifts_on_remove_rows() {
    let m1 = reorder_mutation(range(2, 0, 3, 1), &[("2", "3")]);
    let m2 = range_mutation("sheet.mutation.remove-rows", range(1, 0, 1, 0));
    let result = ReorderRangeTransform::default().transform_with_remove_rows(&m1, &m2);
    let order = reorder_of(&result.m1_prime.unwrap()).order;
    assert!(map_has_key(&order, "1"));
}

#[test]
fn test_set_row_hidden_removed_by_row_delete() {
    let m1 = ranges_mutation("sheet.mutation.set-row-hidden", vec![range(1, 0, 1, 0)], None);
    let m2 = range_mutation("sheet.mutation.remove-rows", range(1, 0, 1, 0));
    let result = SetRowHiddenTransform::default().transform_with_remove_rows(&m1, &m2);
    assert!(result.m1_prime.is_none());
}

#[test]
fn test_set_row_hidden_shifts_on_insert_row() {
    let m1 = ranges_mutation("sheet.mutation.set-row-hidden", vec![range(2, 0, 2, 0)], None);
    let m2 = range_mutation("sheet.mutation.insert-row", range(1, 0, 1, 0));
    let result = SetRowHiddenTransform::default().transform_with_insert_row(&m1, &m2);
    assert_eq!(ranges_of(&result.m1_prime.unwrap()).ranges[0].start_row, 3);
}

#[test]
fn test_set_row_visible_shifts_on_insert_row() {
    let m1 = ranges_mutation("sheet.mutation.set-row-visible", vec![range(2, 0, 2, 0)], None);
    let m2 = range_mutation("sheet.mutation.insert-row", range(1, 0, 1, 0));
    let result = SetRowVisibleTransform::default().transform_with_insert_row(&m1, &m2);
    assert_eq!(ranges_of(&result.m1_prime.unwrap()).ranges[0].start_row, 3);
}

#[test]
fn test_set_row_visible_removed_by_row_delete() {
    let m1 = ranges_mutation("sheet.mutation.set-row-visible", vec![range(1, 0, 1, 0)], None);
    let m2 = range_mutation("sheet.mutation.remove-rows", range(1, 0, 1, 0));
    let result = SetRowVisibleTransform::default().transform_with_remove_rows(&m1, &m2);
    assert!(result.m1_prime.is_none());
}

#[test]
fn test_set_col_visible_shifts_on_insert_col() {
    let m1 = ranges_mutation("sheet.mutation.set-col-visible", vec![range(0, 2, 0, 2)], None);
    let m2 = range_mutation("sheet.mutation.insert-col", range(0, 0, 0, 0));
    let result = SetColVisibleTransform::default().transform_with_insert_col(&m1, &m2);
    assert_eq!(ranges_of(&result.m1_prime.unwrap()).ranges[0].start_column, 3);
}

#[test]
fn test_set_col_visible_removed_by_col_delete() {
    let m1 = ranges_mutation("sheet.mutation.set-col-visible", vec![range(0, 2, 0, 2)], None);
    let m2 = range_mutation("sheet.mutation.remove-col", range(0, 2, 0, 2));
    let result = SetColVisibleTransform::default().transform_with_remove_col(&m1, &m2);
    assert!(result.m1_prime.is_none());
}

#[test]
fn test_set_col_hidden_removed_by_col_delete() {
    let m1 = ranges_mutation("sheet.mutation.set-col-hidden", vec![range(0, 2, 0, 2)], None);
    let m2 = range_mutation("sheet.mutation.remove-col", range(0, 2, 0, 2));
    let result = SetColHiddenTransform::default().transform_with_remove_col(&m1, &m2);
    assert!(result.m1_prime.is_none());
}

#[test]
fn test_set_col_hidden_shifts_on_insert_col() {
    let m1 = ranges_mutation("sheet.mutation.set-col-hidden", vec![range(0, 2, 0, 2)], None);
    let m2 = range_mutation("sheet.mutation.insert-col", range(0, 1, 1, 1));
    let result = SetColHiddenTransform::default().transform_with_insert_col(&m1, &m2);
    assert_eq!(ranges_of(&result.m1_prime.unwrap()).ranges[0].start_column, 3);
}

#[test]
fn test_remove_numfmt_shifts_on_insert_col() {
    let m1 = ranges_mutation("sheet.mutation.remove.numfmt", vec![range(0, 1, 0, 1)], None);
    let m2 = range_mutation("sheet.mutation.insert-col", range(0, 1, 0, 1));
    let result = RemoveNumfmtTransform::default().transform_with_insert_col(&m1, &m2);
    assert_eq!(ranges_of(&result.m1_prime.unwrap()).ranges[0].start_column, 2);
}

#[test]
fn test_remove_numfmt_shifts_on_remove_rows() {
    let m1 = ranges_mutation("sheet.mutation.remove.numfmt", vec![range(2, 0, 2, 0)], None);
    let m2 = range_mutation("sheet.mutation.remove-rows", range(1, 0, 1, 0));
    let result = RemoveNumfmtTransform::default().transform_with_remove_rows(&m1, &m2);
    assert_eq!(ranges_of(&result.m1_prime.unwrap()).ranges[0].start_row, 1);
}

#[test]
fn test_remove_numfmt_discards_set_numfmt_on_overlap() {
    let remove_numfmt = ranges_mutation("sheet.mutation.remove.numfmt", vec![range(0, 0, 0, 1)], None);
    let set_numfmt = mutation(
        "sheet.mutation.set.numfmt",
        MutationParams::Numfmt(NumfmtParams { sub_unit: sheet(), values: Some(vec![vec![range(0, 1, 0, 1)]]) }),
    );
    let result = RemoveNumfmtTransform::default().transform_with_set_numfmt(&remove_numfmt, &set_numfmt);
    assert!(result.m2_prime.is_none());
}

#[test]
fn test_set_worksheet_range_theme_style_shifts_on_insert_row() {
    let m1 = range_mutation("sheet.mutation.set-worksheet-range-theme-style", range(2, 0, 2, 1));
    let m2 = range_mutation("sheet.mutation.insert-row", range(1, 0, 1, 0));
    let result = SetWorksheetRangeThemeStyleTransform::default().transform_with_insert_row(&m1, &m2);
    assert_eq!(range_of(&result.m1_prime.unwrap()).start_row, 3);
}

#[test]
fn test_set_worksheet_range_theme_style_shifts_on_remove_rows() {
    let m1 = range_mutation("sheet.mutation.set-worksheet-range-theme-style", range(2, 0, 2, 1));
    let m2 = range_mutation("sheet.mutation.remove-rows", range(1, 0, 1, 0));
    let result = SetWorksheetRangeThemeStyleTransform::default().transform_with_remove_rows(&m1, &m2);
    assert_eq!(range_of(&result.m1_prime.unwrap()).start_row, 1);
}

#[test]
fn test_delete_worksheet_range_theme_style_shifts_on_remove_col() {
    let m1 = range_mutation("sheet.mutation.remove-worksheet-range-theme-style", range(0, 2, 0, 2));
    let m2 = range_mutation("sheet.mutation.remove-col", range(0, 1, 0, 1));
    let result = DeleteWorksheetRangeThemeStyleTransform::default().transform_with_remove_col(&m1, &m2);
    assert_eq!(range_of(&result.m1_prime.unwrap()).start_column, 1);
}

#[test]
fn test_delete_worksheet_range_theme_style_removed_by_row_delete() {
    let m1 = range_mutation("sheet.mutation.remove-worksheet-range-theme-style", range(1, 0, 1, 1));
    let m2 = range_mutation("sheet.mutation.remove-rows", range(1, 0, 1, 0));
    let result = DeleteWorksheetRangeThemeStyleTransform::default().transform_with_remove_rows(&m1, &m2);
    assert!(result.m1_prime.is_none());
}

#[test]
fn test_delete_worksheet_range_theme_style_discards_set_on_overlap() {
    let delete_theme_style = range_mutation("sheet.mutation.remove-worksheet-range-theme-style", range(0, 0, 1, 1));
    let set_theme_style = range_mutation("sheet.mutation.set-worksheet-range-theme-style", range(1, 1, 2, 2));
    let result = DeleteWorksheetRangeThemeStyleTransform::default()
        .transform_with_set_worksheet_range_theme_style(&delete_theme_style, &set_theme_style);
    assert!(result.m2_prime.is_none());
}

#[test]
fn test_add_worksheet_merge_shifts_on_remove_col() {
    let m1 = ranges_mutation("sheet.mutation.add-worksheet-merge", vec![range(0, 2, 0, 3)], None);
    let m2 = range_mutation("sheet.mutation.remove-col", range(0, 1, 0, 1));
    let result = AddWorksheetMergeTransform::default().transform_with_remove_col(&m1, &m2);
    assert_eq!(ranges_of(&result.m1_prime.unwrap()).ranges[0].start_column, 1);
}

#[test]
fn test_remove_worksheet_merge_shifts_on_insert_row() {
    let m1 = ranges_mutation("sheet.mutation.remove-worksheet-merge", vec![range(2, 0, 2, 1)], None);
    let m2 = range_mutation("sheet.mutation.insert-row", range(1, 0, 1, 0));
    let result = RemoveWorksheetMergeTransform::default().transform_with_insert_row(&m1, &m2);
    assert_eq!(ranges_of(&result.m1_prime.unwrap()).ranges[0].start_row, 3);
}

#[test]
fn test_remove_worksheet_merge_discards_add_on_overlap() {
    let remove_merge = ranges_mutation("sheet.mutation.remove-worksheet-merge", vec![range(0, 0, 1, 1)], None);
    let add_merge = ranges_mutation("sheet.mutation.add-worksheet-merge", vec![range(1, 1, 2, 2)], None);
    let result = RemoveWorksheetMergeTransform::default().transform_with_add_worksheet_merge(&remove_merge, &add_merge);
    assert!(result.m2_prime.is_none());
}

// ---------------------------------------------------------------------------
// Discarding
// ---------------------------------------------------------------------------

#[test]
fn test_remove_range_theme_discards_matching_theme_mutations() {
    let remove_theme = theme_mutation("sheet.mutation.remove-range-theme", sheet_of("unit", ""), Some("theme"), None);
    let add_theme = theme_mutation("sheet.mutation.add-range-theme", sheet(), None, Some("theme"));
    let set_theme = theme_mutation("sheet.mutation.set-range-theme", sheet(), Some("theme"), None);
    let result_add = RemoveRangeThemeTransform::default().transform_with_add_range_theme(&remove_theme, &add_theme);
    assert!(result_add.m2_prime.is_none());
    let result_set = RemoveRangeThemeTransform::default().transform_with_set_range_theme(&remove_theme, &set_theme);
    assert!(result_set.m2_prime.is_none());
}

#[test]
fn test_remove_sheet_discards_mutations_on_same_sheet() {
    let remove_sheet = sheet_mutation("sheet.mutation.remove-sheet", sheet_of("workbook1", "sheet1"));
    let set_range_values = mutation(
        "sheet.mutation.set-range-values",
        MutationParams::CellValues(SetRangeValuesMutationParams {
            sub_unit: sheet_of("workbook1", "sheet1"),
            cell_value: Some(CellMatrix { rows: vec![] }),
        }),
    );
    let insert_row = range_mutation_on("sheet.mutation.insert-row", sheet_of("workbook1", "sheet1"), range(5, 0, 7, 10));
    let add_protection = range_mutation_on("sheet.mutation.add-range-protection", sheet_of("workbook1", "sheet1"), range(0, 0, 10, 10));
    let result1 = RemoveSheetTransform::default().transform_with_set_range_values(&remove_sheet, &set_range_values);
    assert!(result1.m1_prime.is_some());
    assert!(result1.m2_prime.is_none());
    let result2 = RemoveSheetTransform::default().transform_with_insert_row(&remove_sheet, &insert_row);
    assert!(result2.m1_prime.is_some());
    assert!(result2.m2_prime.is_none());
    let result3 = RemoveSheetTransform::default().transform_with_add_range_protection(&remove_sheet, &add_protection);
    assert!(result3.m1_prime.is_some());
    assert!(result3.m2_prime.is_none());
}

#[test]
fn test_remove_sheet_preserves_mutations_on_different_sheet() {
    let remove_sheet = sheet_mutation("sheet.mutation.remove-sheet", sheet_of("workbook1", "sheet1"));
    let set_range_values_other_sheet = mutation(
        "sheet.mutation.set-range-values",
        MutationParams::CellValues(SetRangeValuesMutationParams {
            sub_unit: sheet_of("workbook1", "sheet2"),
            cell_value: Some(CellMatrix { rows: vec![] }),
        }),
    );
    let insert_row_other_workbook = range_mutation_on("sheet.mutation.insert-row", sheet_of("workbook2", "sheet1"), range(5, 0, 7, 10));
    let result1 = RemoveSheetTransform::default().transform_with_set_range_values(&remove_sheet, &set_range_values_other_sheet);
    assert!(result1.m1_prime.is_some());
    assert!(result1.m2_prime.is_some());
    let result2 = RemoveSheetTransform::default().transform_with_insert_row(&remove_sheet, &insert_row_other_workbook);
    assert!(result2.m1_prime.is_some());
    assert!(result2.m2_prime.is_some());
}

#[test]
fn test_delete_range_protection_discards_matching_rule() {
    let delete_protection = protection_mutation("sheet.mutation.delete-range-protection", &["rule-1"], &[], None);
    let add_protection = protection_mutation("sheet.mutation.add-range-protection", &[], &["rule-1"], None);
    let result = DeleteRangeProtectionTransform::default().transform_with_add_range_protection(&delete_protection, &add_protection);
    assert!(result.m2_prime.is_none());
}

#[test]
fn test_delete_worksheet_protection_discards_set() {
    let delete_protection = sheet_mutation("sheet.mutation.delete-worksheet-protection", sheet());
    let set_protection = sheet_mutation("sheet.mutation.set-worksheet-protection", sheet());
    let result = DeleteWorksheetProtectionTransform::default().transform_with_set_worksheet_protection(&delete_protection, &set_protection);
    assert!(result.m2_prime.is_none());
}

// ---------------------------------------------------------------------------
// Rules
// ---------------------------------------------------------------------------

#[test]
fn test_add_data_validation_shifts_on_insert_row() {
    let m1 = validation_mutation(vec![range(1, 0, 1, 0)]);
    let m2 = range_mutation("sheet.mutation.insert-row", range(0, 0, 0, 0));
    let result = AddDataValidationTransform::default().transform_with_insert_row(&m1, &m2);
    assert_eq!(rule_ranges_of(&result.m1_prime.unwrap())[0].start_row, 2);
}

#[test]
fn test_add_data_validation_shifts_on_insert_col() {
    let m1 = validation_mutation(vec![range(0, 1, 0, 1)]);
    let m2 = range_mutation("sheet.mutation.insert-col", range(0, 0, 0, 0));
    let result = AddDataValidationTransform::default().transform_with_insert_col(&m1, &m2);
    assert_eq!(rule_ranges_of(&result.m1_prime.unwrap())[0].start_column, 2);
}

#[test]
fn test_add_data_validation_shifts_on_remove_rows() {
    let m1 = validation_mutation(vec![range(2, 0, 2, 0)]);
    let m2 = range_mutation("sheet.mutation.remove-rows", range(0, 0, 0, 0));
    let result = AddDataValidationTransform::default().transform_with_remove_rows(&m1, &m2);
    assert_eq!(rule_ranges_of(&result.m1_prime.unwrap())[0].start_row, 1);
}

#[test]
fn test_add_data_validation_removed_on_overlap() {
    let m1 = validation_mutation(vec![range(0, 0, 0, 0)]);
    let m2 = range_mutation("sheet.mutation.remove-rows", range(0, 0, 0, 0));
    let result = AddDataValidationTransform::default().transform_with_remove_rows(&m1, &m2);
    assert!(result.m1_prime.is_none());
}

// ---------------------------------------------------------------------------
// Mutations that nothing moves
// ---------------------------------------------------------------------------

#[test]
fn test_identity_range_theme_transforms() {
    let insert_row = range_mutation("sheet.mutation.insert-row", range(0, 0, 0, 0));
    let add_range_theme = theme_mutation("sheet.mutation.add-range-theme", sheet(), None, Some("theme"));
    let set_range_theme = theme_mutation("sheet.mutation.set-range-theme", sheet(), Some("theme"), None);
    let register_theme_style = sheet_mutation("sheet.mutation.register-worksheet-range-theme-style", sheet_of("unit", ""));
    let unregister_theme_style = sheet_mutation("sheet.mutation.unregister-worksheet-range-theme-style", sheet_of("unit", ""));
    let delete_params = protection_mutation("sheet.mutation.delete-range-protection", &["rule-1"], &[], None);
    assert_eq!(
        AddRangeThemeTransform::default().transform_with_insert_row(&add_range_theme, &insert_row).m1_prime.unwrap().params,
        add_range_theme.params
    );
    assert_eq!(
        SetRangeThemeTransform::default().transform_with_insert_row(&set_range_theme, &insert_row).m1_prime.unwrap().params,
        set_range_theme.params
    );
    assert_eq!(
        RegisterWorksheetRangeThemeStyleTransform::default()
            .transform_with_insert_row(&register_theme_style, &insert_row)
            .m1_prime
            .unwrap()
            .params,
        register_theme_style.params
    );
    assert_eq!(
        UnregisterWorksheetRangeThemeStyleTransform::default()
            .transform_with_insert_row(&unregister_theme_style, &insert_row)
            .m1_prime
            .unwrap()
            .params,
        unregister_theme_style.params
    );
    assert_eq!(
        DeleteRangeProtectionTransform::default().transform_with_insert_row(&delete_params, &insert_row).m1_prime.unwrap().params,
        delete_params.params
    );
}

#[test]
fn test_identity_misc_transforms() {
    let insert_row = range_mutation("sheet.mutation.insert-row", range(0, 0, 0, 0));
    let add_ws_protection = sheet_mutation("sheet.mutation.add-worksheet-protection", sheet());
    let copy_sheet = sheet_mutation("sheet.mutation.copy-worksheet-end", sheet());
    let delete_ws_protection = sheet_mutation("sheet.mutation.delete-worksheet-protection", sheet());
    let empty = sheet_mutation("sheet.mutation.empty", sheet_of("", ""));
    let insert_sheet = sheet_mutation("sheet.mutation.insert-sheet", sheet());
    let remove_range_theme = theme_mutation("sheet.mutation.remove-range-theme", sheet_of("unit", ""), Some("theme"), None);
    let remove_sheet = sheet_mutation("sheet.mutation.remove-sheet", sheet());
    let set_gridlines_color = sheet_mutation("sheet.mutation.set-gridlines-color", sheet());
    let set_tab_color = sheet_mutation("sheet.mutation.set-tab-color", sheet());
    let set_workbook_name = sheet_mutation("sheet.mutation.set-workbook-name", sheet_of("unit", ""));
    let set_column_count = sheet_mutation("sheet.mutation.set-worksheet-column-count", sheet());
    let set_default_style = sheet_mutation("sheet.mutation.set-worksheet-default-style", sheet());
    let set_hidden = sheet_mutation("sheet.mutation.set-worksheet-hidden", sheet());
    let set_name = sheet_mutation("sheet.mutation.set-worksheet-name", sheet());
    let set_order = sheet_mutation("sheet.mutation.set-worksheet-order", sheet());
    let set_permission = sheet_mutation("sheet.mutation.set-worksheet-permission-points", sheet());
    let set_protection = sheet_mutation("sheet.mutation.set-worksheet-protection", sheet());
    let set_rtl = sheet_mutation("sheet.mutation.set-worksheet-right-to-left", sheet());
    let set_row_count = sheet_mutation("sheet.mutation.set-worksheet-row-count", sheet());
    let toggle_gridlines = sheet_mutation("sheet.mutation.toggle-gridlines", sheet());
    assert_eq!(
        AddWorksheetProtectionTransform::default().transform_with_insert_row(&add_ws_protection, &insert_row).m1_prime.unwrap().params,
        add_ws_protection.params
    );
    assert_eq!(
        CopyWorksheetEndTransform::default().transform_with_insert_row(&copy_sheet, &insert_row).m1_prime.unwrap().params,
        copy_sheet.params
    );
    assert_eq!(
        DeleteWorksheetProtectionTransform::default()
            .transform_with_insert_row(&delete_ws_protection, &insert_row)
            .m1_prime
            .unwrap()
            .params,
        delete_ws_protection.params
    );
    assert_eq!(EmptyTransform::default().transform_with_insert_row(&empty, &insert_row).m1_prime.unwrap().params, empty.params);
    assert_eq!(
        InsertSheetTransform::default().transform_with_insert_row(&insert_sheet, &insert_row).m1_prime.unwrap().params,
        insert_sheet.params
    );
    assert_eq!(
        RemoveRangeThemeTransform::default().transform_with_insert_row(&remove_range_theme, &insert_row).m1_prime.unwrap().params,
        remove_range_theme.params
    );
    assert_eq!(
        RemoveSheetTransform::default().transform_with_insert_row(&remove_sheet, &insert_row).m1_prime.unwrap().params,
        remove_sheet.params
    );
    assert_eq!(
        SetGridlinesColorTransform::default()
            .transform_with_insert_row(&set_gridlines_color, &insert_row)
            .m1_prime
            .unwrap()
            .params,
        set_gridlines_color.params
    );
    assert_eq!(
        SetTabColorTransform::default().transform_with_insert_row(&set_tab_color, &insert_row).m1_prime.unwrap().params,
        set_tab_color.params
    );
    assert_eq!(
        SetWorkbookNameTransform::default().transform_with_insert_row(&set_workbook_name, &insert_row).m1_prime.unwrap().params,
        set_workbook_name.params
    );
    assert_eq!(
        SetWorksheetColumnCountTransform::default().transform_with_insert_row(&set_column_count, &insert_row).m1_prime.unwrap().params,
        set_column_count.params
    );
    assert_eq!(
        SetWorksheetDefaultStyleTransform::default()
            .transform_with_insert_row(&set_default_style, &insert_row)
            .m1_prime
            .unwrap()
            .params,
        set_default_style.params
    );
    assert_eq!(
        SetWorksheetHiddenTransform::default().transform_with_insert_row(&set_hidden, &insert_row).m1_prime.unwrap().params,
        set_hidden.params
    );
    assert_eq!(
        SetWorksheetNameTransform::default().transform_with_insert_row(&set_name, &insert_row).m1_prime.unwrap().params,
        set_name.params
    );
    assert_eq!(
        SetWorksheetOrderTransform::default().transform_with_insert_row(&set_order, &insert_row).m1_prime.unwrap().params,
        set_order.params
    );
    assert_eq!(
        SetWorksheetPermissionPointsTransform::default()
            .transform_with_insert_row(&set_permission, &insert_row)
            .m1_prime
            .unwrap()
            .params,
        set_permission.params
    );
    assert_eq!(
        SetWorksheetProtectionTransform::default().transform_with_insert_row(&set_protection, &insert_row).m1_prime.unwrap().params,
        set_protection.params
    );
    assert_eq!(
        SetWorksheetRightToLeftTransform::default().transform_with_insert_row(&set_rtl, &insert_row).m1_prime.unwrap().params,
        set_rtl.params
    );
    assert_eq!(
        SetWorksheetRowCountTransform::default().transform_with_insert_row(&set_row_count, &insert_row).m1_prime.unwrap().params,
        set_row_count.params
    );
    assert_eq!(
        ToggleGridlinesTransform::default().transform_with_insert_row(&toggle_gridlines, &insert_row).m1_prime.unwrap().params,
        toggle_gridlines.params
    );
}

// ---------------------------------------------------------------------------
// Moving a block of cells
// ---------------------------------------------------------------------------

fn cells_at(row: &str, col: &str, v: &str) -> CellMatrix {
    CellMatrix {
        rows: vec![univer_ot::matrix::RowEntry {
            key: key(row),
            value: univer_ot::matrix::RowValue::Cells(index_map(&[(col, v)])),
        }],
    }
}

fn move_range_mutation(from: Range, to: Range, from_value: CellMatrix, to_value: CellMatrix) -> MutationInfo {
    mutation(
        "sheet.mutation.move-range",
        MutationParams::MoveRange(MoveRangeParams {
            unit_id: "unit".to_string(),
            from_range: from,
            to_range: to,
            from: MoveRangeSide { sub_unit_id: "sheet".to_string(), value: from_value },
            to: MoveRangeSide { sub_unit_id: "sheet".to_string(), value: to_value },
        }),
    )
}

fn move_range_of(m: &MutationInfo) -> MoveRangeParams {
    match &m.params {
        MutationParams::MoveRange(p) => p.clone(),
        other => panic!("no range move: {:?}", other),
    }
}

#[test]
fn test_move_range_shifts_on_insert_row() {
    let transform = build_generic_transform("sheet.mutation.move-range", SheetTransformKind::MoveRange);
    let m1 = move_range_mutation(
        range(1, 0, 1, 0),
        range(2, 0, 2, 0),
        cells_at("1", "0", "{\"v\":1}"),
        cells_at("2", "0", "{\"v\":2}"),
    );
    let m2 = range_mutation("sheet.mutation.insert-row", range(0, 0, 0, 0));
    let result = transform.transform_with_insert_row(&m1, &m2);
    assert_eq!(move_range_of(&result.m1_prime.unwrap()).from_range.start_row, 2);
}

#[test]
fn test_move_range_removed_by_row_delete() {
    let transform = build_generic_transform("sheet.mutation.move-range", SheetTransformKind::MoveRange);
    let m1 = move_range_mutation(
        range(2, 0, 2, 0),
        range(3, 0, 3, 0),
        cells_at("2", "0", "{\"v\":1}"),
        cells_at("3", "0", "{\"v\":2}"),
    );
    let m2 = range_mutation("sheet.mutation.remove-rows", range(2, 0, 3, 0));
    let result = transform.transform_with_remove_rows(&m1, &m2);
    assert!(result.m1_prime.is_none());
}

#[test]
fn test_move_range_removed_by_col_delete() {
    let transform = build_generic_transform("sheet.mutation.move-range", SheetTransformKind::MoveRange);
    let m1 = move_range_mutation(
        range(0, 2, 0, 2),
        range(0, 3, 0, 3),
        cells_at("0", "2", "{\"v\":1}"),
        cells_at("0", "3", "{\"v\":2}"),
    );
    let m2 = range_mutation("sheet.mutation.remove-col", range(0, 2, 0, 3));
    let result = transform.transform_with_remove_col(&m1, &m2);
    assert!(result.m1_prime.is_none());
}

#[test]
fn test_move_range_shifts_on_insert_col() {
    let transform = build_generic_transform("sheet.mutation.move-range", SheetTransformKind::MoveRange);
    let m1 = move_range_mutation(
        range(0, 2, 0, 2),
        range(0, 3, 0, 3),
        cells_at("0", "2", "{\"v\":1}"),
        cells_at("0", "3", "{\"v\":2}"),
    );
    let m2 = range_mutation("sheet.mutation.insert-col", range(0, 1, 0, 1));
    let result = transform.transform_with_insert_col(&m1, &m2);
    assert_eq!(move_range_of(&result.m1_prime.unwrap()).from_range.start_column, 3);
}
