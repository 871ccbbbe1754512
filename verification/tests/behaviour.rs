use univer_ot::matrix::{CellMatrix, IndexEntry, IndexKey, IndexMap, RowEntry, RowValue};
use univer_ot::mutation::{
    MoveRangeParams, MoveRangeSide, MutationInfo, MutationParams, NumfmtParams, ProtectionParams,
    RangeParams, RowColumnDataParams, RuleParams, RuleValue, SetRangeValuesMutationParams,
    ThemeParams,
};
use univer_ot::mutation_transform::MutationTransform;
use univer_ot::service::TransformService;
use univer_ot::sheet::{
    count_of, ranges_intersect, same_sheet, same_workbook_or_sheet, shift_range_for_insert,
    shift_range_for_remove, Axis, Range, SubUnitParams,
};
use univer_ot::sheets_generic::{build_generic_transform, SheetTransformKind};
use univer_ot::sheets_mutations::discarding::{
    DeleteRangeProtectionTransform, RemoveNumfmtTransform, RemoveRangeThemeTransform,
    RemoveSheetTransform,
};
use univer_ot::sheets_mutations::layout::{
    shift_rows_auto_height_for_insert, shift_rows_auto_height_for_remove, AutoHeightRow,
};
use univer_ot::sheets_mutations::rules::{AddDataValidationTransform, MoveConditionalRuleTransform};

const INSERT_ROW: &str = "sheet.mutation.insert-row";
const INSERT_COL: &str = "sheet.mutation.insert-col";
const REMOVE_ROWS: &str = "sheet.mutation.remove-rows";
const REMOVE_COL: &str = "sheet.mutation.remove-col";
const SET_VALUES: &str = "sheet.mutation.set-range-values";

fn sheet_of(unit: &str, sheet: &str) -> SubUnitParams {
    SubUnitParams { unit_id: unit.to_string(), sub_unit_id: sheet.to_string() }
}

fn sheet() -> SubUnitParams {
    sheet_of("unit", "sheet")
}

fn range(start_row: u32, start_column: u32, end_row: u32, end_column: u32) -> Range {
    Range { start_row, start_column, end_row, end_column }
}

fn rows(start: u32, end: u32) -> Range {
    range(start, 0, end, 0)
}

fn cols(start: u32, end: u32) -> Range {
    range(0, start, 0, end)
}

fn mutation(id: &str, params: MutationParams) -> MutationInfo {
    MutationInfo { id: id.to_string(), params, extra: "{}".to_string() }
}

fn range_mutation_on(id: &str, s: SubUnitParams, r: Range) -> MutationInfo {
    mutation(id, MutationParams::Range(RangeParams { sub_unit: s, range: r, info: None }))
}

fn range_mutation(id: &str, r: Range) -> MutationInfo {
    range_mutation_on(id, sheet(), r)
}

fn range_of(m: &MutationInfo) -> Range {
    match &m.params {
        MutationParams::Range(p) => p.range,
        other => panic!("no range: {:?}", other),
    }
}

fn idx(n: u32) -> IndexKey {
    IndexKey::Index(n)
}

fn matrix(cells: &[(u32, &[(u32, &str)])]) -> CellMatrix {
    CellMatrix {
        rows: cells
            .iter()
            .map(|(r, cs)| RowEntry {
                key: idx(*r),
                value: RowValue::Cells(IndexMap {
                    entries: cs.iter().map(|(c, v)| IndexEntry { key: idx(*c), value: v.to_string() }).collect(),
                }),
            })
            .collect(),
    }
}

fn values_mutation(c: CellMatrix) -> MutationInfo {
    mutation(
        SET_VALUES,
        MutationParams::CellValues(SetRangeValuesMutationParams { sub_unit: sheet(), cell_value: Some(c) }),
    )
}

fn cells_of(m: &MutationInfo) -> CellMatrix {
    match &m.params {
        MutationParams::CellValues(p) => p.cell_value.clone().expect("cell values"),
        other => panic!("no cell values: {:?}", other),
    }
}

fn cell_at(c: &CellMatrix, r: u32, col: u32) -> Option<String> {
    let row = c.rows.iter().rev().find(|e| e.key == idx(r))?;
    match &row.value {
        RowValue::Cells(m) => m.entries.iter().rev().find(|e| e.key == idx(col)).map(|e| e.value.clone()),
        RowValue::Other(_) => None,
    }
}

/// Where line `i` goes when `count` lines are inserted before index `start`.
fn through_insert(i: u32, start: u32, count: u32) -> u32 {
    if i >= start {
        i + count
    } else {
        i
    }
}

/// Where line `i` goes when lines `[start, end]` are removed (`None`: removed).
fn through_remove(i: u32, start: u32, end: u32) -> Option<u32> {
    if i < start {
        Some(i)
    } else if i > end {
        Some(i - (end - start + 1))
    } else {
        None
    }
}

// ---------------------------------------------------------------------------
// Lines and ranges
// ---------------------------------------------------------------------------

#[test]
fn test_count_of_lines() {
    assert_eq!(count_of(2, 4), 3);
    assert_eq!(count_of(7, 7), 1);
}

#[test]
fn test_removal_undoes_insertion_of_a_range() {
    let before = range(5, 1, 8, 2);
    let mut r = before;
    shift_range_for_insert(&mut r, Axis::Rows, 3, 4);
    assert_eq!(r, range(9, 1, 12, 2));
    let kept = shift_range_for_remove(&mut r, Axis::Rows, 3, 6);
    assert!(kept);
    assert_eq!(r, before);
}

#[test]
fn test_range_inside_removed_lines_is_lost() {
    let mut r = range(0, 3, 0, 4);
    let kept = shift_range_for_remove(&mut r, Axis::Columns, 2, 5);
    assert!(!kept);
}

#[test]
fn test_range_partly_removed_shrinks() {
    let mut r = range(2, 0, 6, 0);
    let kept = shift_range_for_remove(&mut r, Axis::Rows, 4, 9);
    assert!(kept);
    assert_eq!(r, range(2, 0, 3, 0));
}

#[test]
fn test_ranges_intersect_both_ways() {
    let a = range(0, 0, 2, 2);
    let b = range(2, 2, 4, 4);
    let c = range(3, 0, 4, 1);
    assert!(ranges_intersect(&a, &b));
    assert!(ranges_intersect(&b, &a));
    assert!(!ranges_intersect(&a, &c));
    assert!(!ranges_intersect(&c, &a));
}

#[test]
fn test_same_sheet_both_ways() {
    let a = sheet_of("u", "s1");
    let b = sheet_of("u", "s2");
    assert!(same_sheet(&a, &a.clone()));
    assert!(!same_sheet(&a, &b));
    assert!(!same_sheet(&b, &a));
}

#[test]
fn test_empty_sheet_id_means_whole_workbook() {
    let workbook = sheet_of("u", "");
    let one_sheet = sheet_of("u", "s1");
    let other_workbook = sheet_of("v", "s1");
    assert!(same_workbook_or_sheet(&workbook, &one_sheet));
    assert!(!same_workbook_or_sheet(&workbook, &other_workbook));
    assert!(!same_workbook_or_sheet(&one_sheet, &sheet_of("u", "s2")));
}

// ---------------------------------------------------------------------------
// Convergence of structural edits
// ---------------------------------------------------------------------------

#[test]
fn test_concurrent_row_inserts_converge() {
    let service = TransformService::new();
    let m1 = range_mutation(INSERT_ROW, rows(2, 2));
    let m2 = range_mutation(INSERT_ROW, rows(5, 6));
    let result = service.transform_internal(&m1, &m2);
    assert!(result.error.is_none());
    let r1 = range_of(&result.m1_prime.unwrap());
    let r2 = range_of(&result.m2_prime.unwrap());
    assert_eq!(r1, rows(2, 2));
    assert_eq!(r2, rows(6, 7));
    for i in 0..12 {
        let a = through_insert(through_insert(i, 2, 1), r2.start_row, 2);
        let b = through_insert(through_insert(i, 5, 2), r1.start_row, 1);
        assert_eq!(a, b, "line {} lands apart", i);
    }
}

#[test]
fn test_concurrent_column_inserts_at_one_place_converge() {
    let service = TransformService::new();
    let m1 = range_mutation(INSERT_COL, cols(3, 3));
    let m2 = range_mutation(INSERT_COL, cols(3, 4));
    let result = service.transform_internal(&m1, &m2);
    assert!(result.error.is_none());
    let r1 = range_of(&result.m1_prime.unwrap());
    let r2 = range_of(&result.m2_prime.unwrap());
    assert_eq!(r1, cols(3, 3));
    assert_eq!(r2, cols(4, 5));
    for i in 0..10 {
        let a = through_insert(through_insert(i, 3, 1), r2.start_column, 2);
        let b = through_insert(through_insert(i, 3, 2), r1.start_column, 1);
        assert_eq!(a, b, "column {} lands apart", i);
    }
}

#[test]
fn test_row_insert_after_removed_rows_moves_back() {
    let service = TransformService::new();
    let m1 = range_mutation(INSERT_ROW, rows(6, 6));
    let m2 = range_mutation(REMOVE_ROWS, rows(2, 3));
    let result = service.transform_internal(&m1, &m2);
    assert!(result.error.is_none());
    assert_eq!(range_of(&result.m1_prime.unwrap()), rows(4, 4));
    assert_eq!(range_of(&result.m2_prime.unwrap()), rows(2, 3));
}

#[test]
fn test_removed_rows_after_insert_move_down() {
    let service = TransformService::new();
    let m1 = range_mutation(REMOVE_ROWS, rows(4, 5));
    let m2 = range_mutation(INSERT_ROW, rows(1, 2));
    let result = service.transform_internal(&m1, &m2);
    assert!(result.error.is_none());
    assert_eq!(range_of(&result.m1_prime.unwrap()), rows(6, 7));
    assert_eq!(range_of(&result.m2_prime.unwrap()), rows(1, 2));
}

#[test]
fn test_overlapping_row_removals_converge() {
    let service = TransformService::new();
    let m1 = range_mutation(REMOVE_ROWS, rows(2, 5));
    let m2 = range_mutation(REMOVE_ROWS, rows(4, 8));
    let result = service.transform_internal(&m1, &m2);
    assert!(result.error.is_none());
    let r1 = range_of(&result.m1_prime.unwrap());
    let r2 = range_of(&result.m2_prime.unwrap());
    for i in 0..12 {
        let a = through_remove(i, 2, 5).and_then(|j| through_remove(j, r2.start_row, r2.end_row));
        let b = through_remove(i, 4, 8).and_then(|j| through_remove(j, r1.start_row, r1.end_row));
        assert_eq!(a, b, "row {} lands apart", i);
    }
}

#[test]
fn test_overlapping_column_removals_are_refused() {
    let service = TransformService::new();
    let m1 = range_mutation(REMOVE_COL, cols(1, 3));
    let m2 = range_mutation(REMOVE_COL, cols(2, 6));
    let result = service.transform_internal(&m1, &m2);
    assert_eq!(result.error.as_deref(), Some("Conflicting remove operations"));
    assert_eq!(result.m1_prime.unwrap(), m1);
    assert_eq!(result.m2_prime.unwrap(), m2);
}

#[test]
fn test_later_column_removal_moves_back() {
    let service = TransformService::new();
    let m1 = range_mutation(REMOVE_COL, cols(1, 2));
    let m2 = range_mutation(REMOVE_COL, cols(5, 6));
    let result = service.transform_internal(&m1, &m2);
    assert!(result.error.is_none());
    assert_eq!(range_of(&result.m2_prime.unwrap()), cols(3, 4));
    assert_eq!(range_of(&result.m1_prime.unwrap()), cols(1, 2));
}

#[test]
fn test_column_insert_inside_removed_columns_is_refused() {
    let service = TransformService::new();
    let m1 = range_mutation(REMOVE_COL, cols(2, 4));
    let m2 = range_mutation(INSERT_COL, cols(3, 3));
    let result = service.transform_internal(&m1, &m2);
    assert_eq!(result.error.as_deref(), Some("Insert col conflicts with remove col"));
}

#[test]
fn test_edits_on_other_sheets_pass_unchanged() {
    let service = TransformService::new();
    let m1 = range_mutation_on(REMOVE_ROWS, sheet_of("unit", "a"), rows(0, 9));
    let m2 = range_mutation_on(INSERT_ROW, sheet_of("unit", "b"), rows(3, 3));
    let result = service.transform_internal(&m1, &m2);
    assert!(result.error.is_none());
    assert_eq!(result.m1_prime.unwrap(), m1);
    assert_eq!(result.m2_prime.unwrap(), m2);
}

#[test]
fn test_unknown_mutations_pass_unchanged() {
    let service = TransformService::new();
    let m1 = range_mutation("doc.mutation.rich-text", rows(0, 0));
    let m2 = range_mutation(INSERT_ROW, rows(0, 0));
    let result = service.transform_internal(&m1, &m2);
    assert!(result.error.is_none());
    assert_eq!(result.m1_prime.unwrap(), m1);
    assert_eq!(result.m2_prime.unwrap(), m2);
    let composed = service.compose_internal(&m1, &m2);
    assert_eq!(composed, vec![m1, m2]);
}

// ---------------------------------------------------------------------------
// Composition
// ---------------------------------------------------------------------------

#[test]
fn test_composed_row_inserts_act_as_both() {
    let service = TransformService::new();
    let m1 = range_mutation(INSERT_ROW, rows(2, 3));
    let m2 = range_mutation(INSERT_ROW, rows(3, 3));
    let result = service.compose_internal(&m1, &m2);
    assert_eq!(result.len(), 1);
    let c = range_of(&result[0]);
    assert_eq!(c, rows(2, 4));
    for i in 0..10 {
        let both = through_insert(through_insert(i, 2, 2), 3, 1);
        assert_eq!(through_insert(i, c.start_row, c.end_row - c.start_row + 1), both);
    }
}

#[test]
fn test_composed_row_removals_act_as_both() {
    let service = TransformService::new();
    let m1 = range_mutation(REMOVE_ROWS, rows(3, 4));
    let m2 = range_mutation(REMOVE_ROWS, rows(1, 2));
    let result = service.compose_internal(&m1, &m2);
    assert_eq!(result.len(), 1);
    let c = range_of(&result[0]);
    assert_eq!(c, rows(1, 4));
    for i in 0..10 {
        let both = through_remove(i, 3, 4).and_then(|j| through_remove(j, 1, 2));
        assert_eq!(through_remove(i, c.start_row, c.end_row), both);
    }
}

#[test]
fn test_different_kinds_never_merge() {
    let service = TransformService::new();
    let m1 = range_mutation(INSERT_ROW, rows(2, 2));
    let m2 = range_mutation(REMOVE_ROWS, rows(2, 2));
    assert_eq!(service.compose_internal(&m1, &m2).len(), 2);
}

#[test]
fn test_compose_list_merges_a_run() {
    let service = TransformService::new();
    let list = vec![
        range_mutation(INSERT_ROW, rows(1, 1)),
        range_mutation(INSERT_ROW, rows(2, 2)),
        range_mutation(INSERT_ROW, rows(3, 4)),
        range_mutation(REMOVE_ROWS, rows(9, 9)),
    ];
    let result = service.compose_list_internal(&list);
    assert_eq!(result.len(), 2);
    assert_eq!(range_of(&result[0]), rows(1, 4));
    assert_eq!(result[1], list[3]);
    assert!(service.compose_list_internal(&vec![]).is_empty());
}

#[test]
fn test_composed_cell_values_keep_the_later_value() {
    let service = TransformService::new();
    let m1 = values_mutation(matrix(&[(0, &[(0, "\"a\""), (1, "\"b\"")])]));
    let m2 = values_mutation(matrix(&[(0, &[(0, "\"c\"")]), (2, &[(2, "\"d\"")])]));
    let result = service.compose_internal(&m1, &m2);
    assert_eq!(result.len(), 1);
    let c = cells_of(&result[0]);
    assert_eq!(cell_at(&c, 0, 0).as_deref(), Some("\"c\""));
    assert_eq!(cell_at(&c, 0, 1).as_deref(), Some("\"b\""));
    assert_eq!(cell_at(&c, 2, 2).as_deref(), Some("\"d\""));
}

// ---------------------------------------------------------------------------
// Cell values
// ---------------------------------------------------------------------------

#[test]
fn test_concurrent_values_on_other_cells_are_kept() {
    let service = TransformService::new();
    let m1 = values_mutation(matrix(&[(0, &[(0, "1")])]));
    let m2 = values_mutation(matrix(&[(1, &[(1, "2")])]));
    let result = service.transform_internal(&m1, &m2);
    let m1p = cells_of(&result.m1_prime.unwrap());
    let m2p = cells_of(&result.m2_prime.unwrap());
    assert_eq!(cell_at(&m1p, 0, 0).as_deref(), Some("1"));
    assert_eq!(cell_at(&m2p, 1, 1).as_deref(), Some("2"));
}

#[test]
fn test_concurrent_values_converge_on_the_second() {
    let service = TransformService::new();
    let m1 = values_mutation(matrix(&[(3, &[(4, "\"x\""), (5, "\"y\"")])]));
    let m2 = values_mutation(matrix(&[(3, &[(4, "\"z\"")])]));
    let result = service.transform_internal(&m1, &m2);
    let m1p = cells_of(&result.m1_prime.unwrap());
    let m2p = result.m2_prime.unwrap();
    assert_eq!(m2p, m2);
    // Applying m1 then m2' and m2 then m1' both leave "z" at (3, 4).
    assert_eq!(cell_at(&m1p, 3, 4).as_deref(), Some("null"));
    assert_eq!(cell_at(&m1p, 3, 5).as_deref(), Some("\"y\""));
}

#[test]
fn test_values_shift_with_inserted_rows() {
    let service = TransformService::new();
    let m1 = values_mutation(matrix(&[(1, &[(0, "1")]), (4, &[(0, "2")])]));
    let m2 = range_mutation(INSERT_ROW, rows(2, 3));
    let result = service.transform_internal(&m1, &m2);
    let c = cells_of(&result.m1_prime.unwrap());
    assert_eq!(cell_at(&c, 1, 0).as_deref(), Some("1"));
    assert_eq!(cell_at(&c, 6, 0).as_deref(), Some("2"));
    assert_eq!(cell_at(&c, 4, 0), None);
}

#[test]
fn test_values_in_removed_columns_are_dropped() {
    let service = TransformService::new();
    let m1 = values_mutation(matrix(&[(0, &[(1, "a"), (3, "b"), (6, "c")])]));
    let m2 = range_mutation(REMOVE_COL, cols(2, 4));
    let result = service.transform_internal(&m1, &m2);
    let c = cells_of(&result.m1_prime.unwrap());
    assert_eq!(cell_at(&c, 0, 1).as_deref(), Some("a"));
    // "b" sat in a removed column; "c" moves from column 6 to column 3.
    assert_eq!(cell_at(&c, 0, 3).as_deref(), Some("c"));
    assert_eq!(cell_at(&c, 0, 6), None);
}

// ---------------------------------------------------------------------------
// Lists
// ---------------------------------------------------------------------------

#[test]
fn test_transform_list_against_nothing() {
    let service = TransformService::new();
    let m1s = vec![range_mutation(INSERT_ROW, rows(1, 1)), range_mutation(REMOVE_COL, cols(2, 2))];
    let (a, b, error) = service.transform_list_internal(&m1s, &vec![]);
    assert!(error.is_none());
    assert_eq!(a, m1s);
    assert!(b.is_empty());
}

#[test]
fn test_transform_list_of_nothing() {
    let service = TransformService::new();
    let m2s = vec![range_mutation(INSERT_ROW, rows(1, 1))];
    let (a, b, error) = service.transform_list_internal(&vec![], &m2s);
    assert!(error.is_none());
    assert!(a.is_empty());
    assert_eq!(b, m2s);
}

#[test]
fn test_transform_list_error_empties_both_lists() {
    let service = TransformService::new();
    let m1s = vec![range_mutation(INSERT_ROW, rows(0, 0)), range_mutation(REMOVE_COL, cols(1, 3))];
    let m2s = vec![range_mutation(REMOVE_COL, cols(2, 2))];
    let (a, b, error) = service.transform_list_internal(&m1s, &m2s);
    assert_eq!(error.as_deref(), Some("Conflicting remove operations"));
    assert!(a.is_empty());
    assert!(b.is_empty());
}

#[test]
fn test_transform_list_never_grows() {
    let service = TransformService::new();
    let m1s = vec![range_mutation(INSERT_ROW, rows(3, 3)), range_mutation(INSERT_ROW, rows(8, 8))];
    let m2s = vec![range_mutation(REMOVE_ROWS, rows(2, 4)), range_mutation(INSERT_ROW, rows(0, 0))];
    let (a, b, error) = service.transform_list_internal(&m1s, &m2s);
    assert!(error.is_none());
    assert!(a.len() <= m1s.len());
    assert!(b.len() <= m2s.len());
    // The insertion at row 3 falls inside the removed rows and is dropped.
    assert_eq!(a.len(), 1);
    assert_eq!(range_of(&a[0]), rows(5, 5));
}

#[test]
fn test_public_service_results() {
    let service = TransformService::new();
    let m1 = range_mutation(INSERT_ROW, rows(1, 1));
    let m2 = range_mutation(INSERT_ROW, rows(2, 2));
    let t = service.transform(&m1, &m2);
    assert_eq!(range_of(&t.m2_prime.unwrap()), rows(3, 3));
    let c = service.compose(&m1, &m2);
    assert_eq!(c.mutations.len(), 1);
    let l = service.transform_list(&vec![m1.clone()], &vec![m2.clone()]);
    assert!(l.error.is_none());
    assert_eq!(l.m1_prime_list.len(), 1);
    assert_eq!(l.m2_prime_list.len(), 1);
    let cl = service.compose_list(&vec![m1, m2]);
    assert_eq!(cl.mutations.len(), 1);
}

// ---------------------------------------------------------------------------
// Sheet mutations by kind
// ---------------------------------------------------------------------------

#[test]
fn test_row_data_moves_with_inserted_rows() {
    let transform = build_generic_transform("sheet.mutation.set-row-data", SheetTransformKind::RowData);
    let m1 = mutation(
        transform.id,
        MutationParams::RowColumnData(RowColumnDataParams {
            sub_unit: sheet(),
            row_data: Some(IndexMap {
                entries: vec![
                    IndexEntry { key: idx(1), value: "{\"h\":20}".to_string() },
                    IndexEntry { key: idx(5), value: "{\"h\":30}".to_string() },
                ],
            }),
            column_data: None,
        }),
    );
    let m2 = range_mutation(INSERT_ROW, rows(3, 4));
    let result = transform.transform_with_insert_row(&m1, &m2);
    match result.m1_prime.unwrap().params {
        MutationParams::RowColumnData(p) => {
            let keys: Vec<IndexKey> = p.row_data.unwrap().entries.into_iter().map(|e| e.key).collect();
            assert_eq!(keys, vec![idx(1), idx(7)]);
        },
        other => panic!("no row data: {:?}", other),
    }
    let by_col = transform.transform_with_insert_col(&m1, &range_mutation(INSERT_COL, cols(0, 0)));
    assert_eq!(by_col.m1_prime.unwrap(), m1);
}

#[test]
fn test_moved_range_follows_inserted_rows() {
    let transform = build_generic_transform("sheet.mutation.move-range", SheetTransformKind::MoveRange);
    let side = |v: &str| MoveRangeSide { sub_unit_id: "sheet".to_string(), value: matrix(&[(4, &[(0, v)])]) };
    let m1 = mutation(
        transform.id,
        MutationParams::MoveRange(MoveRangeParams {
            unit_id: "unit".to_string(),
            from_range: rows(4, 4),
            to_range: rows(8, 8),
            from: side("1"),
            to: side("2"),
        }),
    );
    let inserted = transform.transform_with_insert_row(&m1, &range_mutation(INSERT_ROW, rows(0, 1)));
    match inserted.m1_prime.unwrap().params {
        MutationParams::MoveRange(p) => {
            assert_eq!(p.from_range, rows(6, 6));
            assert_eq!(p.to_range, rows(10, 10));
            assert_eq!(cell_at(&p.from.value, 6, 0).as_deref(), Some("1"));
        },
        other => panic!("no move: {:?}", other),
    }
    let removed = transform.transform_with_remove_rows(&m1, &range_mutation(REMOVE_ROWS, rows(8, 9)));
    assert!(removed.m1_prime.is_none());
    let other_workbook = range_mutation_on(INSERT_ROW, sheet_of("other", "sheet"), rows(0, 0));
    assert_eq!(transform.transform_with_insert_row(&m1, &other_workbook).m1_prime.unwrap(), m1);
}

#[test]
fn test_generic_same_id_later_wins() {
    let transform = build_generic_transform("sheet.mutation.set-tab-color", SheetTransformKind::Identity);
    let m1 = mutation(transform.id, MutationParams::SubUnit(sheet()));
    let m2 = MutationInfo { extra: "{\"color\":\"red\"}".to_string(), ..m1.clone() };
    assert_eq!(transform.compose(&m1, &m2), vec![m2.clone()]);
    let other = range_mutation(INSERT_ROW, rows(0, 0));
    assert_eq!(transform.compose(&m1, &other).len(), 2);
}

// ---------------------------------------------------------------------------
// Rules, protection, formats, themes, sheets
// ---------------------------------------------------------------------------

fn rule_mutation(id: &str, unit: Option<&str>, sheet_id: Option<&str>, ranges: Option<Vec<Range>>) -> MutationInfo {
    mutation(
        id,
        MutationParams::Rule(RuleParams {
            sub_unit: sheet(),
            rule: Some(RuleValue {
                unit_id: unit.map(|s| s.to_string()),
                sub_unit_id: sheet_id.map(|s| s.to_string()),
                ranges,
                extra: "{}".to_string(),
            }),
        }),
    )
}

#[test]
fn test_validation_rule_on_other_sheet_is_kept() {
    let m1 = rule_mutation("data-validation.mutation.addRule", Some("unit"), Some("elsewhere"), Some(vec![rows(0, 0)]));
    let m2 = range_mutation(REMOVE_ROWS, rows(0, 0));
    let result = AddDataValidationTransform::default().transform_with_remove_rows(&m1, &m2);
    assert_eq!(result.m1_prime.unwrap(), m1);
}

#[test]
fn test_validation_rule_keeps_surviving_ranges() {
    let m1 = rule_mutation("data-validation.mutation.addRule", None, None, Some(vec![rows(0, 0), rows(5, 6)]));
    let m2 = range_mutation(REMOVE_ROWS, rows(0, 1));
    let result = AddDataValidationTransform::default().transform_with_remove_rows(&m1, &m2);
    match result.m1_prime.unwrap().params {
        MutationParams::Rule(p) => assert_eq!(p.rule.unwrap().ranges.unwrap(), vec![rows(3, 4)]),
        other => panic!("no rule: {:?}", other),
    }
}

#[test]
fn test_moved_conditional_rule_follows_columns() {
    let m1 = rule_mutation("sheet.mutation.move-conditional-rule", None, None, Some(vec![cols(4, 5)]));
    let inserted = MoveConditionalRuleTransform::default().transform_with_insert_col(&m1, &range_mutation(INSERT_COL, cols(1, 2)));
    match inserted.m1_prime.unwrap().params {
        MutationParams::Rule(p) => assert_eq!(p.rule.unwrap().ranges.unwrap(), vec![cols(6, 7)]),
        other => panic!("no rule: {:?}", other),
    }
    let removed = MoveConditionalRuleTransform::default().transform_with_remove_col(&m1, &range_mutation(REMOVE_COL, cols(3, 6)));
    assert!(removed.m1_prime.is_none());
}

fn protection(id: &str, rule_ids: &[&str], rules: &[&str], rule_id: Option<&str>) -> MutationInfo {
    mutation(
        id,
        MutationParams::Protection(ProtectionParams {
            sub_unit: sheet(),
            rule_ids: rule_ids.iter().map(|s| s.to_string()).collect(),
            rules: rules.iter().map(|s| Some(s.to_string())).collect(),
            rule_id: rule_id.map(|s| s.to_string()),
        }),
    )
}

#[test]
fn test_setting_a_deleted_protection_rule_is_dropped() {
    let delete = protection("sheet.mutation.delete-range-protection", &["r1", "r2"], &[], None);
    let set_deleted = protection("sheet.mutation.set-range-protection", &[], &[], Some("r2"));
    let set_other = protection("sheet.mutation.set-range-protection", &[], &[], Some("r3"));
    let t = DeleteRangeProtectionTransform::default();
    assert!(t.transform_with_set_range_protection(&delete, &set_deleted).m2_prime.is_none());
    assert_eq!(t.transform_with_set_range_protection(&delete, &set_other).m2_prime.unwrap(), set_other);
    let add_other = protection("sheet.mutation.add-range-protection", &[], &["r9"], None);
    assert_eq!(t.transform_with_add_range_protection(&delete, &add_other).m2_prime.unwrap(), add_other);
}

fn numfmt(id: &str, lists: Vec<Vec<Range>>) -> MutationInfo {
    mutation(id, MutationParams::Numfmt(NumfmtParams { sub_unit: sheet(), values: Some(lists) }))
}

#[test]
fn test_number_format_away_from_removal_is_kept() {
    let remove = mutation(
        "sheet.mutation.remove-numfmt",
        MutationParams::Ranges(univer_ot::mutation::RangesParams { sub_unit: sheet(), ranges: vec![rows(0, 1)], row_height: None }),
    );
    let set = numfmt("sheet.mutation.set-numfmt", vec![vec![rows(5, 5)], vec![rows(7, 8)]]);
    let result = RemoveNumfmtTransform::default().transform_with_set_numfmt(&remove, &set);
    assert_eq!(result.m2_prime.unwrap(), set);
    let overlapping = numfmt("sheet.mutation.set-numfmt", vec![vec![rows(5, 5)], vec![rows(1, 2)]]);
    assert!(RemoveNumfmtTransform::default().transform_with_set_numfmt(&remove, &overlapping).m2_prime.is_none());
}

fn theme(id: &str, s: SubUnitParams, style_name: Option<&str>, json_name: Option<&str>) -> MutationInfo {
    mutation(
        id,
        MutationParams::Theme(ThemeParams {
            sub_unit: s,
            range: None,
            style_name: style_name.map(|n| n.to_string()),
            style_json_name: json_name.map(|n| n.to_string()),
        }),
    )
}

#[test]
fn test_theme_removal_reaches_only_its_workbook_and_theme() {
    let remove = theme("sheet.mutation.remove-range-theme", sheet_of("unit", ""), Some("blue"), None);
    let t = RemoveRangeThemeTransform::default();
    let other_theme = theme("sheet.mutation.set-range-theme", sheet(), Some("green"), None);
    assert_eq!(t.transform_with_set_range_theme(&remove, &other_theme).m2_prime.unwrap(), other_theme);
    let other_workbook = theme("sheet.mutation.add-range-theme", sheet_of("else", "sheet"), None, Some("blue"));
    assert_eq!(t.transform_with_add_range_theme(&remove, &other_workbook).m2_prime.unwrap(), other_workbook);
    let same = theme("sheet.mutation.add-range-theme", sheet_of("unit", "any"), None, Some("blue"));
    assert!(t.transform_with_add_range_theme(&remove, &same).m2_prime.is_none());
}

#[test]
fn test_removed_sheet_drops_structural_edits_there() {
    let remove = mutation("sheet.mutation.remove-sheet", MutationParams::SubUnit(sheet()));
    let t = RemoveSheetTransform::default();
    let r = t.transform_with_remove_col(&remove, &range_mutation(REMOVE_COL, cols(0, 0)));
    assert_eq!(r.m1_prime.unwrap(), remove);
    assert!(r.m2_prime.is_none());
    let elsewhere = range_mutation_on(INSERT_COL, sheet_of("unit", "other"), cols(0, 0));
    assert_eq!(t.transform_with_insert_col(&remove, &elsewhere).m2_prime.unwrap(), elsewhere);
}

#[test]
fn test_values_rewritten_alike_from_either_side() {
    let service = TransformService::new();
    let values = values_mutation(matrix(&[(0, &[(1, "1"), (4, "2")]), (3, &[(2, "3")])]));
    for edit in [
        range_mutation(INSERT_ROW, rows(1, 2)),
        range_mutation(INSERT_COL, cols(2, 2)),
        range_mutation(REMOVE_ROWS, rows(0, 0)),
        range_mutation(REMOVE_COL, cols(1, 1)),
    ] {
        let values_first = service.transform_internal(&values, &edit);
        let edit_first = service.transform_internal(&edit, &values);
        assert_eq!(values_first.m1_prime, edit_first.m2_prime, "edit {}", edit.id);
        assert_eq!(values_first.m2_prime.unwrap(), edit);
    }
}

#[test]
fn test_values_follow_inserted_columns() {
    let service = TransformService::new();
    let values = values_mutation(matrix(&[(0, &[(1, "a"), (4, "b")])]));
    let result = service.transform_internal(&values, &range_mutation(INSERT_COL, cols(2, 3)));
    let c = cells_of(&result.m1_prime.unwrap());
    assert_eq!(cell_at(&c, 0, 1).as_deref(), Some("a"));
    assert_eq!(cell_at(&c, 0, 6).as_deref(), Some("b"));
    assert_eq!(cell_at(&c, 0, 4), None);
}

#[test]
fn test_edits_on_other_sheets_never_merge() {
    let service = TransformService::new();
    let a = mutation(
        SET_VALUES,
        MutationParams::CellValues(SetRangeValuesMutationParams {
            sub_unit: sheet_of("unit", "a"),
            cell_value: Some(matrix(&[(0, &[(0, "1")])])),
        }),
    );
    let b = mutation(
        SET_VALUES,
        MutationParams::CellValues(SetRangeValuesMutationParams {
            sub_unit: sheet_of("unit", "b"),
            cell_value: Some(matrix(&[(0, &[(0, "2")])])),
        }),
    );
    assert_eq!(service.compose_internal(&a, &b), vec![a.clone(), b.clone()]);
    let t = service.transform_internal(&a, &b);
    assert_eq!(t.m1_prime.unwrap(), a);
    assert_eq!(t.m2_prime.unwrap(), b);
}

#[test]
fn test_single_lists_transform_as_pair() {
    let service = TransformService::new();
    let pairs = [
        (range_mutation(INSERT_ROW, rows(2, 2)), range_mutation(INSERT_ROW, rows(1, 1))),
        (range_mutation(INSERT_ROW, rows(2, 2)), range_mutation(REMOVE_ROWS, rows(1, 3))),
        (range_mutation(REMOVE_COL, cols(1, 2)), range_mutation(REMOVE_COL, cols(2, 3))),
        (values_mutation(matrix(&[(0, &[(0, "1")])])), range_mutation(REMOVE_ROWS, rows(5, 5))),
    ];
    for (m1, m2) in pairs {
        let pair = service.transform_internal(&m1, &m2);
        let (a, b, error) = service.transform_list_internal(&vec![m1.clone()], &vec![m2.clone()]);
        assert_eq!(error, pair.error);
        if pair.error.is_some() {
            assert!(a.is_empty() && b.is_empty());
        } else {
            assert_eq!(a, pair.m1_prime.into_iter().collect::<Vec<_>>());
            assert_eq!(b, pair.m2_prime.into_iter().collect::<Vec<_>>());
        }
    }
}

#[test]
fn test_pair_list_composes_as_pair() {
    let service = TransformService::new();
    let pairs = [
        (range_mutation(INSERT_ROW, rows(2, 3)), range_mutation(INSERT_ROW, rows(4, 4))),
        (range_mutation(INSERT_ROW, rows(2, 2)), range_mutation(INSERT_ROW, rows(9, 9))),
        (range_mutation(REMOVE_ROWS, rows(2, 2)), range_mutation(INSERT_COL, cols(0, 0))),
    ];
    for (m1, m2) in pairs {
        let list = service.compose_list_internal(&vec![m1.clone(), m2.clone()]);
        assert_eq!(list, service.compose_internal(&m1, &m2));
    }
}

#[test]
fn test_auto_height_rows_follow_inserted_rows() {
    let mut rows = vec![
        AutoHeightRow { row: Some(1), extra: "{\"autoHeight\":20}".to_string() },
        AutoHeightRow { row: Some(4), extra: "{}".to_string() },
        AutoHeightRow { row: None, extra: "{\"row\":\"x\"}".to_string() },
    ];
    shift_rows_auto_height_for_insert(&mut rows, 2, 3);
    let numbers: Vec<Option<u64>> = rows.iter().map(|r| r.row).collect();
    assert_eq!(numbers, vec![Some(1), Some(7), None]);
    assert_eq!(rows[0].extra, "{\"autoHeight\":20}");
}

#[test]
fn test_auto_height_rows_of_removed_rows_are_dropped() {
    let mut rows = vec![
        AutoHeightRow { row: Some(0), extra: "{}".to_string() },
        AutoHeightRow { row: Some(2), extra: "{}".to_string() },
        AutoHeightRow { row: Some(6), extra: "{}".to_string() },
    ];
    assert!(shift_rows_auto_height_for_remove(&mut rows, 1, 3));
    let numbers: Vec<Option<u64>> = rows.iter().map(|r| r.row).collect();
    assert_eq!(numbers, vec![Some(0), Some(3)]);
    let mut only_removed = vec![AutoHeightRow { row: Some(5), extra: "{}".to_string() }];
    assert!(!shift_rows_auto_height_for_remove(&mut only_removed, 5, 5));
    assert!(only_removed.is_empty());
}
