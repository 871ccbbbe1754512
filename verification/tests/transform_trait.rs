use univer_ot::insert_col::InsertColTransform;
use univer_ot::insert_row::InsertRowTransform;
use univer_ot::mutation_transform::MutationTransform;
use univer_ot::remove_col::RemoveColTransform;
use univer_ot::remove_rows::RemoveRowsTransform;
use univer_ot::set_range_values::SetRangeValuesTransform;

#[test]
fn test_insert_col_transform_trait() {
    let _transform = InsertColTransform::default();
    assert_eq!(InsertColTransform::mutation_id(), "sheet.mutation.insert-col");
}

#[test]
fn test_insert_row_transform_trait() {
    let _transform = InsertRowTransform::default();
    assert_eq!(InsertRowTransform::mutation_id(), "sheet.mutation.insert-row");
}

#[test]
fn test_remove_col_transform_trait() {
    let _transform = RemoveColTransform::default();
    assert_eq!(RemoveColTransform::mutation_id(), "sheet.mutation.remove-col");
}

#[test]
fn test_remove_rows_transform_trait() {
    let _transform = RemoveRowsTransform::default();
    assert_eq!(RemoveRowsTransform::mutation_id(), "sheet.mutation.remove-rows");
}

#[test]
fn test_set_range_values_transform_trait() {
    let _transform = SetRangeValuesTransform::default();
    assert_eq!(SetRangeValuesTransform::mutation_id(), "sheet.mutation.set-range-values");
}
