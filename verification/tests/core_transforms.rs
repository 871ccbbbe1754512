use univer_ot::matrix::{CellMatrix, IndexEntry, IndexKey, IndexMap, RowEntry, RowValue};
use univer_ot::mutation::{MutationInfo, MutationParams, RangeParams, SetRangeValuesMutationParams};
use univer_ot::service::TransformService;
use univer_ot::sheet::{Range, SubUnitParams};

fn sub_unit(unit: &str, sheet: &str) -> SubUnitParams {
    SubUnitParams { unit_id: unit.to_string(), sub_unit_id: sheet.to_string() }
}

fn range(start_row: u32, start_column: u32, end_row: u32, end_column: u32) -> Range {
    Range { start_row, start_column, end_row, end_column }
}

fn key(k: &str) -> IndexKey {
    match k.parse::<u32>() {
        Ok(n) => IndexKey::Index(n),
        Err(_) => IndexKey::Name(k.to_string()),
    }
}

fn key_text(k: &IndexKey) -> String {
    match k {
        IndexKey::Index(n) => n.to_string(),
        IndexKey::Name(s) => s.clone(),
    }
}

fn range_mutation_on(id: &str, unit: &str, sheet: &str, r: Range) -> MutationInfo {
    MutationInfo {
        id: id.to_string(),
        params: MutationParams::Range(RangeParams { sub_unit: sub_unit(unit, sheet), range: r, info: None }),
        extra: "{}".to_string(),
    }
}

fn range_mutation(id: &str, r: Range) -> MutationInfo {
    range_mutation_on(id, "test-unit", "test-sheet", r)
}

fn cells(rows: &[(&str, &[(&str, &str)])]) -> CellMatrix {
    CellMatrix {
        rows: rows
            .iter()
            .map(|(r, cs)| RowEntry {
                key: key(r),
                value: RowValue::Cells(IndexMap {
                    entries: cs.iter().map(|(c, v)| IndexEntry { key: key(c), value: v.to_string() }).collect(),
                }),
            })
            .collect(),
    }
}

fn values_mutation(c: CellMatrix) -> MutationInfo {
    MutationInfo {
        id: "sheet.mutation.set-range-values".to_string(),
        params: MutationParams::CellValues(SetRangeValuesMutationParams {
            sub_unit: sub_unit("test-unit", "test-sheet"),
            cell_value: Some(c),
        }),
        extra: "{}".to_string(),
    }
}

fn range_of(m: &MutationInfo) -> Range {
    match &m.params {
        MutationParams::Range(p) => p.range,
        other => panic!("not a range mutation: {:?}", other),
    }
}

fn cells_of(m: &MutationInfo) -> CellMatrix {
    match &m.params {
        MutationParams::CellValues(p) => p.cell_value.clone().expect("cell values"),
        other => panic!("not a cell-value mutation: {:?}", other),
    }
}

fn row_keys(c: &CellMatrix) -> Vec<String> {
    c.rows.iter().map(|r| key_text(&r.key)).collect()
}

fn col_keys(c: &CellMatrix, row: &str) -> Vec<String> {
    let entry = c.rows.iter().rev().find(|r| key_text(&r.key) == row).expect("row exists");
    match &entry.value {
        RowValue::Cells(m) => m.entries.iter().map(|e| key_text(&e.key)).collect(),
        RowValue::Other(_) => panic!("row is not an object"),
    }
}

fn cell(c: &CellMatrix, row: &str, col: &str) -> Option<String> {
    let entry = c.rows.iter().rev().find(|r| key_text(&r.key) == row)?;
    match &entry.value {
        RowValue::Cells(m) => m.entries.iter().rev().find(|e| key_text(&e.key) == col).map(|e| e.value.clone()),
        RowValue::Other(_) => None,
    }
}

// ---------------------------------------------------------------------------
// Row insertion
// ---------------------------------------------------------------------------

#[test]
fn test_transform_insert_row_set_range_values() {
    let service = TransformService::new();
    let m1 = range_mutation("sheet.mutation.insert-row", range(2, 0, 2, 0));
    let m2 = values_mutation(cells(&[("2", &[("2", "{\"v\":\"test\"}")])]));
    let result = service.transform_internal(&m1, &m2);
    assert!(result.error.is_none());
    let cell_value = cells_of(&result.m2_prime.unwrap());
    assert!(row_keys(&cell_value).contains(&"3".to_string()));
    assert!(!row_keys(&cell_value).contains(&"2".to_string()));
}

#[test]
fn test_transform_insert_row_insert_row() {
    let service = TransformService::new();
    let m1 = range_mutation("sheet.mutation.insert-row", range(1, 0, 1, 0));
    let m2 = range_mutation("sheet.mutation.insert-row", range(2, 0, 2, 0));
    let result = service.transform_internal(&m1, &m2);
    assert!(result.error.is_none());
    let r = range_of(&result.m2_prime.unwrap());
    assert_eq!(r.start_row, 3);
    assert_eq!(r.end_row, 3);
}

#[test]
fn test_transform_insert_row_insert_row_shift_m1() {
    let service = TransformService::new();
    let m1 = range_mutation("sheet.mutation.insert-row", range(5, 0, 5, 0));
    let m2 = range_mutation("sheet.mutation.insert-row", range(2, 0, 2, 0));
    let result = service.transform_internal(&m1, &m2);
    assert!(result.error.is_none());
    let r = range_of(&result.m1_prime.unwrap());
    assert_eq!(r.start_row, 6);
    assert_eq!(r.end_row, 6);
}

#[test]
fn test_transform_insert_row_insert_row_same_position() {
    let service = TransformService::new();
    let m1 = range_mutation("sheet.mutation.insert-row", range(3, 0, 3, 0));
    let m2 = range_mutation("sheet.mutation.insert-row", range(3, 0, 3, 0));
    let result = service.transform_internal(&m1, &m2);
    assert!(result.error.is_none());
    let r = range_of(&result.m1_prime.unwrap());
    assert_eq!(r.start_row, 4);
    assert_eq!(r.end_row, 4);
}

#[test]
fn test_transform_insert_row_insert_col() {
    let service = TransformService::new();
    let m1 = range_mutation("sheet.mutation.insert-row", range(1, 0, 1, 0));
    let m2 = range_mutation("sheet.mutation.insert-col", range(0, 2, 0, 2));
    let result = service.transform_internal(&m1, &m2);
    assert!(result.error.is_none());
    assert_eq!(result.m1_prime.unwrap().id, m1.id);
    assert_eq!(result.m2_prime.unwrap().id, m2.id);
}

#[test]
fn test_transform_insert_row_remove_rows() {
    let service = TransformService::new();
    let m1 = range_mutation("sheet.mutation.insert-row", range(5, 0, 5, 0));
    let m2 = range_mutation("sheet.mutation.remove-rows", range(1, 0, 3, 0));
    let result = service.transform_internal(&m1, &m2);
    assert!(result.error.is_none());
    let r = range_of(&result.m1_prime.unwrap());
    assert_eq!(r.start_row, 2);
    assert_eq!(r.end_row, 2);
}

#[test]
fn test_transform_insert_row_remove_rows_conflict() {
    let service = TransformService::new();
    let m1 = range_mutation("sheet.mutation.insert-row", range(2, 0, 2, 0));
    let m2 = range_mutation("sheet.mutation.remove-rows", range(1, 0, 3, 0));
    let result = service.transform_internal(&m1, &m2);
    assert!(result.error.is_none());
    assert!(result.m1_prime.is_none());
    let r = range_of(&result.m2_prime.unwrap());
    assert_eq!(r.start_row, 1);
    assert_eq!(r.end_row, 4);
}

#[test]
fn test_transform_insert_row_remove_col() {
    let service = TransformService::new();
    let m1 = range_mutation("sheet.mutation.insert-row", range(1, 0, 1, 0));
    let m2 = range_mutation("sheet.mutation.remove-col", range(0, 2, 0, 4));
    let result = service.transform_internal(&m1, &m2);
    assert!(result.error.is_none());
    assert_eq!(result.m1_prime.unwrap().id, m1.id);
    assert_eq!(result.m2_prime.unwrap().id, m2.id);
}

#[test]
fn test_compose_insert_row_contiguous() {
    let service = TransformService::new();
    let m1 = range_mutation("sheet.mutation.insert-row", range(2, 0, 3, 0));
    let m2 = range_mutation("sheet.mutation.insert-row", range(4, 0, 4, 0));
    let result = service.compose_internal(&m1, &m2);
    assert_eq!(result.len(), 1);
    let r = range_of(&result[0]);
    assert_eq!(r.start_row, 2);
    assert_eq!(r.end_row, 4);
}

#[test]
fn test_compose_insert_row_non_contiguous() {
    let service = TransformService::new();
    let m1 = range_mutation("sheet.mutation.insert-row", range(2, 0, 2, 0));
    let m2 = range_mutation("sheet.mutation.insert-row", range(5, 0, 5, 0));
    let result = service.compose_internal(&m1, &m2);
    assert_eq!(result.len(), 2);
}

#[test]
fn test_compose_insert_row_different_sheet() {
    let service = TransformService::new();
    let m1 = range_mutation_on("sheet.mutation.insert-row", "test-unit", "sheet-1", range(1, 0, 1, 0));
    let m2 = range_mutation_on("sheet.mutation.insert-row", "test-unit", "sheet-2", range(1, 0, 1, 0));
    let result = service.compose_internal(&m1, &m2);
    assert_eq!(result.len(), 2);
}

// ---------------------------------------------------------------------------
// Column insertion
// ---------------------------------------------------------------------------

#[test]
fn test_transform_insert_col_set_range_values() {
    let service = TransformService::new();
    let m1 = range_mutation("sheet.mutation.insert-col", range(0, 2, 0, 2));
    let m2 = values_mutation(cells(&[("0", &[("2", "{\"v\":\"test\"}")])]));
    let result = service.transform_internal(&m1, &m2);
    assert!(result.error.is_none());
    let cell_value = cells_of(&result.m2_prime.unwrap());
    let cols = col_keys(&cell_value, "0");
    assert!(cols.contains(&"3".to_string()));
    assert!(!cols.contains(&"2".to_string()));
}

#[test]
fn test_transform_insert_col_insert_row() {
    let service = TransformService::new();
    let m1 = range_mutation("sheet.mutation.insert-col", range(0, 2, 0, 2));
    let m2 = range_mutation("sheet.mutation.insert-row", range(1, 0, 1, 0));
    let result = service.transform_internal(&m1, &m2);
    assert!(result.error.is_none());
    assert_eq!(result.m1_prime.unwrap().id, m1.id);
    assert_eq!(result.m2_prime.unwrap().id, m2.id);
}

#[test]
fn test_transform_insert_col_insert_col() {
    let service = TransformService::new();
    let m1 = range_mutation("sheet.mutation.insert-col", range(0, 1, 0, 1));
    let m2 = range_mutation("sheet.mutation.insert-col", range(0, 2, 0, 2));
    let result = service.transform_internal(&m1, &m2);
    assert!(result.error.is_none());
    let r = range_of(&result.m2_prime.unwrap());
    assert_eq!(r.start_column, 3);
    assert_eq!(r.end_column, 3);
}

#[test]
fn test_transform_insert_col_insert_col_shift_m1() {
    let service = TransformService::new();
    let m1 = range_mutation("sheet.mutation.insert-col", range(0, 5, 0, 5));
    let m2 = range_mutation("sheet.mutation.insert-col", range(0, 2, 0, 2));
    let result = service.transform_internal(&m1, &m2);
    assert!(result.error.is_none());
    let r = range_of(&result.m1_prime.unwrap());
    assert_eq!(r.start_column, 6);
    assert_eq!(r.end_column, 6);
}

#[test]
fn test_transform_insert_col_remove_rows() {
    let service = TransformService::new();
    let m1 = range_mutation("sheet.mutation.insert-col", range(0, 2, 0, 2));
    let m2 = range_mutation("sheet.mutation.remove-rows", range(1, 0, 3, 0));
    let result = service.transform_internal(&m1, &m2);
    assert!(result.error.is_none());
    assert_eq!(result.m1_prime.unwrap().id, m1.id);
    assert_eq!(result.m2_prime.unwrap().id, m2.id);
}

#[test]
fn test_transform_insert_col_remove_col() {
    let service = TransformService::new();
    let m1 = range_mutation("sheet.mutation.insert-col", range(0, 1, 0, 1));
    let m2 = range_mutation("sheet.mutation.remove-col", range(0, 3, 0, 5));
    let result = service.transform_internal(&m1, &m2);
    assert!(result.error.is_none());
    let r = range_of(&result.m2_prime.unwrap());
    assert_eq!(r.start_column, 4);
    assert_eq!(r.end_column, 6);
}

#[test]
fn test_transform_insert_col_remove_col_conflict() {
    let service = TransformService::new();
    let m1 = range_mutation("sheet.mutation.insert-col", range(0, 2, 0, 2));
    let m2 = range_mutation("sheet.mutation.remove-col", range(0, 1, 0, 3));
    let result = service.transform_internal(&m1, &m2);
    assert!(result.error.is_some());
    assert!(result.error.unwrap().contains("conflicts"));
}

// ---------------------------------------------------------------------------
// Column removal
// ---------------------------------------------------------------------------

#[test]
fn test_transform_remove_col_set_range_values() {
    let service = TransformService::new();
    let m1 = range_mutation("sheet.mutation.remove-col", range(0, 2, 0, 4));
    let m2 = values_mutation(cells(&[("0", &[("1", "{\"v\":\"test\"}")])]));
    let result = service.transform_internal(&m1, &m2);
    assert!(result.error.is_none());
    assert_eq!(result.m1_prime.unwrap().id, m1.id);
}

#[test]
fn test_transform_remove_col_insert_row() {
    let service = TransformService::new();
    let m1 = range_mutation("sheet.mutation.remove-col", range(0, 2, 0, 4));
    let m2 = range_mutation("sheet.mutation.insert-row", range(1, 0, 1, 0));
    let result = service.transform_internal(&m1, &m2);
    assert!(result.error.is_none());
    assert_eq!(result.m1_prime.unwrap().id, m1.id);
    assert_eq!(result.m2_prime.unwrap().id, m2.id);
}

#[test]
fn test_transform_remove_col_insert_col() {
    let service = TransformService::new();
    let m1 = range_mutation("sheet.mutation.remove-col", range(0, 3, 0, 5));
    let m2 = range_mutation("sheet.mutation.insert-col", range(0, 1, 0, 1));
    let result = service.transform_internal(&m1, &m2);
    assert!(result.error.is_none());
    assert_eq!(result.m1_prime.unwrap().id, m1.id);
    assert_eq!(result.m2_prime.unwrap().id, m2.id);
}

#[test]
fn test_transform_remove_col_remove_rows() {
    let service = TransformService::new();
    let m1 = range_mutation("sheet.mutation.remove-col", range(0, 2, 0, 4));
    let m2 = range_mutation("sheet.mutation.remove-rows", range(1, 0, 3, 0));
    let result = service.transform_internal(&m1, &m2);
    assert!(result.error.is_none());
    assert_eq!(result.m1_prime.unwrap().id, m1.id);
    assert_eq!(result.m2_prime.unwrap().id, m2.id);
}

#[test]
fn test_transform_remove_col_remove_col() {
    let service = TransformService::new();
    let m1 = range_mutation("sheet.mutation.remove-col", range(0, 1, 0, 2));
    let m2 = range_mutation("sheet.mutation.remove-col", range(0, 4, 0, 5));
    let result = service.transform_internal(&m1, &m2);
    assert!(result.error.is_none());
    assert_eq!(result.m1_prime.unwrap().id, m1.id);
    assert_eq!(result.m2_prime.unwrap().id, m2.id);
}

// ---------------------------------------------------------------------------
// Row removal
// ---------------------------------------------------------------------------

#[test]
fn test_transform_remove_rows_set_range_values() {
    let service = TransformService::new();
    let m1 = range_mutation("sheet.mutation.remove-rows", range(2, 0, 4, 0));
    let m2 = values_mutation(cells(&[("5", &[("5", "{\"v\":\"test\"}")])]));
    let result = service.transform_internal(&m1, &m2);
    assert!(result.error.is_none());
    let cell_value = cells_of(&result.m2_prime.unwrap());
    assert!(row_keys(&cell_value).contains(&"2".to_string()));
    assert!(!row_keys(&cell_value).contains(&"5".to_string()));
}

#[test]
fn test_transform_remove_rows_insert_row() {
    let service = TransformService::new();
    let m1 = range_mutation("sheet.mutation.remove-rows", range(3, 0, 5, 0));
    let m2 = range_mutation("sheet.mutation.insert-row", range(1, 0, 1, 0));
    let result = service.transform_internal(&m1, &m2);
    assert!(result.error.is_none());
    let r = range_of(&result.m1_prime.unwrap());
    assert_eq!(r.start_row, 4);
    assert_eq!(r.end_row, 6);
}

#[test]
fn test_transform_remove_rows_insert_row_conflict() {
    let service = TransformService::new();
    let m1 = range_mutation("sheet.mutation.remove-rows", range(2, 0, 4, 0));
    let m2 = range_mutation("sheet.mutation.insert-row", range(3, 0, 3, 0));
    let result = service.transform_internal(&m1, &m2);
    assert!(result.error.is_none());
    let r = range_of(&result.m1_prime.unwrap());
    assert_eq!(r.start_row, 2);
    assert_eq!(r.end_row, 5);
    assert!(result.m2_prime.is_none());
}

#[test]
fn test_transform_remove_rows_insert_col() {
    let service = TransformService::new();
    let m1 = range_mutation("sheet.mutation.remove-rows", range(1, 0, 3, 0));
    let m2 = range_mutation("sheet.mutation.insert-col", range(0, 2, 0, 2));
    let result = service.transform_internal(&m1, &m2);
    assert!(result.error.is_none());
    assert_eq!(result.m1_prime.unwrap().id, m1.id);
    assert_eq!(result.m2_prime.unwrap().id, m2.id);
}

#[test]
fn test_transform_remove_rows_conflict() {
    let service = TransformService::new();
    let m1 = range_mutation("sheet.mutation.remove-rows", range(1, 0, 3, 0));
    let m2 = range_mutation("sheet.mutation.remove-rows", range(2, 0, 4, 0));
    let result = service.transform_internal(&m1, &m2);
    assert!(result.error.is_none());
    let r1 = range_of(&result.m1_prime.unwrap());
    assert_eq!(r1.start_row, 1);
    assert_eq!(r1.end_row, 1);
    let r2 = range_of(&result.m2_prime.unwrap());
    assert_eq!(r2.start_row, 1);
    assert_eq!(r2.end_row, 1);
}

#[test]
fn test_transform_remove_rows_remove_rows_non_overlapping() {
    let service = TransformService::new();
    let m1 = range_mutation("sheet.mutation.remove-rows", range(1, 0, 2, 0));
    let m2 = range_mutation("sheet.mutation.remove-rows", range(5, 0, 6, 0));
    let result = service.transform_internal(&m1, &m2);
    assert!(result.error.is_none());
    let r = range_of(&result.m2_prime.unwrap());
    assert_eq!(r.start_row, 3);
    assert_eq!(r.end_row, 4);
}

#[test]
fn test_compose_remove_rows_contiguous() {
    let service = TransformService::new();
    let m1 = range_mutation("sheet.mutation.remove-rows", range(1, 0, 2, 0));
    let m2 = range_mutation("sheet.mutation.remove-rows", range(1, 0, 1, 0));
    let result = service.compose_internal(&m1, &m2);
    assert_eq!(result.len(), 1);
    let r = range_of(&result[0]);
    assert_eq!(r.start_row, 1);
    assert_eq!(r.end_row, 3);
}

#[test]
fn test_compose_remove_rows_non_contiguous() {
    let service = TransformService::new();
    let m1 = range_mutation("sheet.mutation.remove-rows", range(1, 0, 1, 0));
    let m2 = range_mutation("sheet.mutation.remove-rows", range(4, 0, 4, 0));
    let result = service.compose_internal(&m1, &m2);
    assert_eq!(result.len(), 2);
}

#[test]
fn test_compose_remove_rows_different_sheet() {
    let service = TransformService::new();
    let m1 = range_mutation_on("sheet.mutation.remove-rows", "test-unit", "sheet-1", range(1, 0, 1, 0));
    let m2 = range_mutation_on("sheet.mutation.remove-rows", "test-unit", "sheet-2", range(1, 0, 1, 0));
    let result = service.compose_internal(&m1, &m2);
    assert_eq!(result.len(), 2);
}

#[test]
fn test_transform_remove_rows_remove_col() {
    let service = TransformService::new();
    let m1 = range_mutation("sheet.mutation.remove-rows", range(1, 0, 3, 0));
    let m2 = range_mutation("sheet.mutation.remove-col", range(0, 2, 0, 4));
    let result = service.transform_internal(&m1, &m2);
    assert!(result.error.is_none());
    assert_eq!(result.m1_prime.unwrap().id, m1.id);
    assert_eq!(result.m2_prime.unwrap().id, m2.id);
}

// ---------------------------------------------------------------------------
// Cell values
// ---------------------------------------------------------------------------

#[test]
fn test_transform_set_range_values_with_set_range_values_conflict() {
    let service = TransformService::new();
    let m1 = values_mutation(cells(&[("0", &[("0", "{\"v\":\"value1\"}")])]));
    let m2 = values_mutation(cells(&[("0", &[("0", "{\"v\":\"value2\"}")])]));
    let result = service.transform_internal(&m1, &m2);
    assert!(result.error.is_none());
    let m1_cells = cells_of(&result.m1_prime.unwrap());
    assert!(row_keys(&m1_cells).contains(&"0".to_string()), "Row 0 should exist");
    let value = cell(&m1_cells, "0", "0").expect("Cell (0,0) should exist");
    assert_eq!(value, "null", "Conflicting cell should be null");
    assert_eq!(result.m2_prime.unwrap().params, m2.params);
}

#[test]
fn test_transform_set_range_values_with_set_range_values_no_conflict() {
    let service = TransformService::new();
    let m1 = values_mutation(cells(&[("0", &[("0", "{\"v\":\"value1\"}")])]));
    let m2 = values_mutation(cells(&[("1", &[("1", "{\"v\":\"value2\"}")])]));
    let result = service.transform_internal(&m1, &m2);
    assert!(result.error.is_none());
    assert_eq!(result.m1_prime.unwrap().params, m1.params);
    assert_eq!(result.m2_prime.unwrap().params, m2.params);
}

#[test]
fn test_transform_set_range_values_with_set_range_values_partial_conflict() {
    let service = TransformService::new();
    let m1 = values_mutation(cells(&[("0", &[("0", "{\"v\":\"value1\"}"), ("1", "{\"v\":\"value2\"}")])]));
    let m2 = values_mutation(cells(&[("0", &[("0", "{\"v\":\"value3\"}")])]));
    let result = service.transform_internal(&m1, &m2);
    assert!(result.error.is_none());
    let m1_cells = cells_of(&result.m1_prime.unwrap());
    let cols = col_keys(&m1_cells, "0");
    assert!(cols.contains(&"0".to_string()));
    assert_eq!(cell(&m1_cells, "0", "0").unwrap(), "null");
    assert!(cols.contains(&"1".to_string()));
    assert_eq!(cell(&m1_cells, "0", "1").unwrap(), "{\"v\":\"value2\"}");
    assert_eq!(result.m2_prime.unwrap().params, m2.params);
}

#[test]
fn test_transform_set_range_values_insert_row() {
    let service = TransformService::new();
    let m1 = values_mutation(cells(&[("2", &[("2", "{\"v\":\"test\"}")])]));
    let m2 = range_mutation("sheet.mutation.insert-row", range(1, 0, 1, 0));
    let result = service.transform_internal(&m1, &m2);
    assert!(result.error.is_none());
    let cell_value = cells_of(&result.m1_prime.unwrap());
    assert!(row_keys(&cell_value).contains(&"3".to_string()));
    assert!(!row_keys(&cell_value).contains(&"2".to_string()));
}

#[test]
fn test_transform_set_range_values_insert_col() {
    let service = TransformService::new();
    let m1 = values_mutation(cells(&[("0", &[("1", "{\"v\":\"test\"}")])]));
    let m2 = range_mutation("sheet.mutation.insert-col", range(0, 1, 0, 1));
    let result = service.transform_internal(&m1, &m2);
    assert!(result.error.is_none());
    let cell_value = cells_of(&result.m1_prime.unwrap());
    let cols = col_keys(&cell_value, "0");
    assert!(cols.contains(&"2".to_string()));
    assert!(!cols.contains(&"1".to_string()));
}

#[test]
fn test_transform_set_range_values_remove_rows() {
    let service = TransformService::new();
    let m1 = values_mutation(cells(&[("5", &[("5", "{\"v\":\"test\"}")])]));
    let m2 = range_mutation("sheet.mutation.remove-rows", range(1, 0, 3, 0));
    let result = service.transform_internal(&m1, &m2);
    assert!(result.error.is_none());
    let cell_value = cells_of(&result.m1_prime.unwrap());
    assert!(row_keys(&cell_value).contains(&"2".to_string()));
    assert!(!row_keys(&cell_value).contains(&"5".to_string()));
}

#[test]
fn test_transform_set_range_values_remove_col() {
    let service = TransformService::new();
    let m1 = values_mutation(cells(&[("0", &[("2", "{\"v\":\"old\"}"), ("5", "{\"v\":\"shifted\"}")])]));
    let m2 = range_mutation("sheet.mutation.remove-col", range(0, 1, 0, 3));
    let result = service.transform_internal(&m1, &m2);
    assert!(result.error.is_none());
    let cell_value = cells_of(&result.m1_prime.unwrap());
    let cols = col_keys(&cell_value, "0");
    assert!(cols.contains(&"2".to_string()));
    assert!(!cols.contains(&"5".to_string()));
}

#[test]
fn test_set_range_values_ot_consistency() {
    let service = TransformService::new();
    let m_a = values_mutation(cells(&[("0", &[("0", "{\"v\":\"Hello\"}")])]));
    let m_b = values_mutation(cells(&[("0", &[("0", "{\"v\":\"World\"}")])]));
    let result = service.transform_internal(&m_b, &m_a);
    assert!(result.error.is_none());
    let m_b_prime = result.m1_prime.unwrap();
    let m_a_prime = result.m2_prime.unwrap();
    let m_b_cells = cells_of(&m_b_prime);
    assert!(row_keys(&m_b_cells).contains(&"0".to_string()), "Row 0 should exist");
    let value = cell(&m_b_cells, "0", "0").expect("Cell (0,0) should exist");
    assert_eq!(value, "null", "m_B' should have conflicting cell set to null");
    assert_eq!(m_a_prime.params, m_a.params, "m_A' should equal m_A");
}

// ---------------------------------------------------------------------------
// Lists
// ---------------------------------------------------------------------------

fn build_insert_col() -> MutationInfo {
    range_mutation("sheet.mutation.insert-col", range(0, 0, 0, 0))
}

fn build_set_range_values(col: &str) -> MutationInfo {
    values_mutation(cells(&[("0", &[(col, "{\"v\":1}")])]))
}

#[test]
fn test_transform_list_insert_col_then_set_range_values() {
    let service = TransformService::new();
    let m1_list = vec![build_insert_col()];
    let m2_list = vec![build_set_range_values("0")];
    let (m1_primes, m2_primes, error) = service.transform_list_internal(&m1_list, &m2_list);
    assert!(error.is_none());
    assert_eq!(m1_primes.len(), 1);
    assert_eq!(m2_primes.len(), 1);
    let cell_value = cells_of(&m2_primes[0]);
    let cols = col_keys(&cell_value, "0");
    assert!(cols.contains(&"1".to_string()));
    assert!(!cols.contains(&"0".to_string()));
}

#[test]
fn test_transform_list_set_range_values_then_insert_col() {
    let service = TransformService::new();
    let m1_list = vec![build_set_range_values("0")];
    let m2_list = vec![build_insert_col()];
    let (m1_primes, m2_primes, error) = service.transform_list_internal(&m1_list, &m2_list);
    assert!(error.is_none());
    assert_eq!(m1_primes.len(), 1);
    assert_eq!(m2_primes.len(), 1);
    let cell_value = cells_of(&m1_primes[0]);
    let cols = col_keys(&cell_value, "0");
    assert!(cols.contains(&"1".to_string()));
    assert!(!cols.contains(&"0".to_string()));
}
