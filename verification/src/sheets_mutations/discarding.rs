//! Removals and deletions that make concurrent mutations pointless: the
//! concurrent mutation (`m2`) is dropped when it works on what `m1` removes.
use vstd::prelude::*;
use crate::sheet::{
    any_intersection, any_ranges_intersect, ranges_intersect, same_sheet,
    same_workbook_or_sheet, spec_ranges_intersect, spec_same_sheet, spec_same_workbook_or_sheet,
    Axis, Range,
};
use crate::mutation::{
    keep_both, mutations_view, opt_text_view, range_params_from, range_params_of,
    ranges_params_from, ranges_params_of, second_becomes, second_replaced, sheet_of,
    sub_unit_of, texts_view, unchanged, Mutation, MutationInfo, MutationParams, Outcome,
    ParamsV, TransformResult,
};
use crate::mutation_transform::MutationTransform;
use crate::sheets_generic::{
    keep_later, kind_vs_insert, kind_vs_remove, later_wins, reconcile_kind_with_insert,
    reconcile_kind_with_remove, SheetTransformKind,
};

verus! {

/// `m2` dropped, `m1` kept.
pub open spec fn second_dropped(m1: Mutation) -> Outcome {
    second_becomes(m1, None)
}

// ---------------------------------------------------------------------------
// Range protection
// ---------------------------------------------------------------------------
/// The rule ids a range-protection deletion removes (`ruleIds`).
pub open spec fn rule_ids_of(p: ParamsV) -> Seq<Seq<char>> {
    match p {
        ParamsV::Protection(x) => x.rule_ids,
        _ => Seq::empty(),
    }
}

/// The ids of the rules a range-protection addition adds (`rules[].id`).
pub open spec fn added_rule_ids_of(p: ParamsV) -> Seq<Option<Seq<char>>> {
    match p {
        ParamsV::Protection(x) => x.rules,
        _ => Seq::empty(),
    }
}

/// The rule a range-protection setting changes (`ruleId`).
pub open spec fn set_rule_id_of(p: ParamsV) -> Option<Seq<char>> {
    match p {
        ParamsV::Protection(x) => x.rule_id,
        _ => None,
    }
}

/// Protection rules deleted (`m1`) against protection rules added (`m2`) on
/// the same sheet: the addition is dropped when it adds a deleted rule.
pub open spec fn deletion_vs_added_protection(m1: Mutation, m2: Mutation) -> Outcome {
    let ids = rule_ids_of(m1.params);
    let added = added_rule_ids_of(m2.params);
    if !spec_same_sheet(sheet_of(m1.params), sheet_of(m2.params)) || ids.len() == 0 {
        unchanged(m1, m2)
    } else if exists|j: int| 0 <= j < added.len() && (#[trigger] added[j]) is Some && ids.contains(added[j]->0) {
        second_dropped(m1)
    } else {
        unchanged(m1, m2)
    }
}

/// Protection rules deleted (`m1`) against a protection rule changed (`m2`)
/// on the same sheet: the change is dropped when its rule is deleted.
pub open spec fn deletion_vs_set_protection(m1: Mutation, m2: Mutation) -> Outcome {
    let ids = rule_ids_of(m1.params);
    if !spec_same_sheet(sheet_of(m1.params), sheet_of(m2.params)) || ids.len() == 0 {
        unchanged(m1, m2)
    } else {
        match set_rule_id_of(m2.params) {
            Some(id) => if ids.contains(id) {
                second_dropped(m1)
            } else {
                unchanged(m1, m2)
            },
            None => unchanged(m1, m2),
        }
    }
}

/// Whether `id` is one of `ids`.
fn contains_text(ids: &Vec<String>, id: &String) -> (b: bool)
    ensures
        b == texts_view(ids@).contains(id@),
{
    let mut i: usize = 0;
    while i < ids.len()
        invariant
            0 <= i <= ids.len(),
            forall|j: int| 0 <= j < i ==> texts_view(ids@)[j] != id@,
        decreases ids.len() - i,
    {
        if ids[i] == *id {
            assert(texts_view(ids@)[i as int] == id@);
            return true;
        }
        i += 1;
    }
    false
}

fn reconcile_deletion_with_added_protection(m1: &MutationInfo, m2: &MutationInfo) -> (r: TransformResult)
    ensures
        r@ == deletion_vs_added_protection(m1@, m2@),
{
    if !same_sheet(&sub_unit_of(&m1.params), &sub_unit_of(&m2.params)) {
        return keep_both(m1, m2);
    }
    let ids = match &m1.params {
        MutationParams::Protection(p) => &p.rule_ids,
        _ => {
            return keep_both(m1, m2);
        },
    };
    if ids.len() == 0 {
        return keep_both(m1, m2);
    }
    match &m2.params {
        MutationParams::Protection(q) => {
            let mut j: usize = 0;
            while j < q.rules.len()
                invariant
                    0 <= j <= q.rules.len(),
                    spec_same_sheet(sheet_of(m1@.params), sheet_of(m2@.params)),
                    rule_ids_of(m1@.params).len() > 0,
                    m2@.params == ParamsV::Protection(q@),
                    texts_view(ids@) == rule_ids_of(m1@.params),
                    q.rules@.len() == added_rule_ids_of(m2@.params).len(),
                    forall|k: int| 0 <= k < q.rules@.len() ==> #[trigger] added_rule_ids_of(m2@.params)[k] == opt_text_view(q.rules@[k]),
                    forall|k: int|
                        0 <= k < j ==> !((#[trigger] added_rule_ids_of(m2@.params)[k]) is Some
                            && rule_ids_of(m1@.params).contains(added_rule_ids_of(m2@.params)[k]->0)),
                decreases q.rules.len() - j,
            {
                match &q.rules[j] {
                    Some(id) => {
                        if contains_text(ids, id) {
                            assert(added_rule_ids_of(m2@.params)[j as int] is Some);
                            return second_replaced(m1, None);
                        }
                    },
                    None => {},
                }
                j += 1;
            }
            keep_both(m1, m2)
        },
        _ => keep_both(m1, m2),
    }
}

fn reconcile_deletion_with_set_protection(m1: &MutationInfo, m2: &MutationInfo) -> (r: TransformResult)
    ensures
        r@ == deletion_vs_set_protection(m1@, m2@),
{
    if !same_sheet(&sub_unit_of(&m1.params), &sub_unit_of(&m2.params)) {
        return keep_both(m1, m2);
    }
    let ids = match &m1.params {
        MutationParams::Protection(p) => &p.rule_ids,
        _ => {
            return keep_both(m1, m2);
        },
    };
    if ids.len() == 0 {
        return keep_both(m1, m2);
    }
    match &m2.params {
        MutationParams::Protection(q) => match &q.rule_id {
            Some(id) => if contains_text(ids, id) {
                second_replaced(m1, None)
            } else {
                keep_both(m1, m2)
            },
            None => keep_both(m1, m2),
        },
        _ => keep_both(m1, m2),
    }
}

/// Deleting range-protection rules.
#[derive(Default)]
pub struct DeleteRangeProtectionTransform;

impl MutationTransform for DeleteRangeProtectionTransform {
    fn mutation_id() -> (id: &'static str)
        ensures
            id@ == "sheet.mutation.delete-range-protection"@,
    {
        "sheet.mutation.delete-range-protection"
    }

    fn compose(&self, m1: &MutationInfo, m2: &MutationInfo) -> (r: Vec<MutationInfo>)
        ensures
            mutations_view(r@) == later_wins(m1@, m2@),
    {
        keep_later(m1, m2)
    }

    fn transform_with_add_range_protection(&self, m1: &MutationInfo, m2: &MutationInfo) -> (r: TransformResult)
        ensures
            r@ == deletion_vs_added_protection(m1@, m2@),
    {
        reconcile_deletion_with_added_protection(m1, m2)
    }

    fn transform_with_set_range_protection(&self, m1: &MutationInfo, m2: &MutationInfo) -> (r: TransformResult)
        ensures
            r@ == deletion_vs_set_protection(m1@, m2@),
    {
        reconcile_deletion_with_set_protection(m1, m2)
    }
}

// ---------------------------------------------------------------------------
// Whole sheets
// ---------------------------------------------------------------------------
/// A mutation concerning a whole sheet (`m1`) against any mutation (`m2`):
/// `m2` is dropped when it works on the same sheet.
pub open spec fn same_sheet_dropped(m1: Mutation, m2: Mutation) -> Outcome {
    if spec_same_sheet(sheet_of(m1.params), sheet_of(m2.params)) {
        second_dropped(m1)
    } else {
        unchanged(m1, m2)
    }
}

pub fn drop_on_same_sheet(m1: &MutationInfo, m2: &MutationInfo) -> (r: TransformResult)
    ensures
        r@ == same_sheet_dropped(m1@, m2@),
{
    if same_sheet(&sub_unit_of(&m1.params), &sub_unit_of(&m2.params)) {
        second_replaced(m1, None)
    } else {
        keep_both(m1, m2)
    }
}

/// Removing a worksheet's protection.
#[derive(Default)]
pub struct DeleteWorksheetProtectionTransform;

impl MutationTransform for DeleteWorksheetProtectionTransform {
    fn mutation_id() -> (id: &'static str)
        ensures
            id@ == "sheet.mutation.delete-worksheet-protection"@,
    {
        "sheet.mutation.delete-worksheet-protection"
    }

    fn compose(&self, m1: &MutationInfo, m2: &MutationInfo) -> (r: Vec<MutationInfo>)
        ensures
            mutations_view(r@) == later_wins(m1@, m2@),
    {
        keep_later(m1, m2)
    }

    fn transform_with_add_worksheet_protection(&self, m1: &MutationInfo, m2: &MutationInfo) -> (r: TransformResult)
        ensures
            r@ == same_sheet_dropped(m1@, m2@),
    {
        drop_on_same_sheet(m1, m2)
    }

    fn transform_with_set_worksheet_protection(&self, m1: &MutationInfo, m2: &MutationInfo) -> (r: TransformResult)
        ensures
            r@ == same_sheet_dropped(m1@, m2@),
    {
        drop_on_same_sheet(m1, m2)
    }
}

// ---------------------------------------------------------------------------
// Overlapping ranges
// ---------------------------------------------------------------------------
/// A removal over one range (`m1`) against a setting over one range (`m2`) on
/// the same sheet: the setting is dropped when the ranges overlap.
pub open spec fn range_overlap_dropped(m1: Mutation, m2: Mutation) -> Outcome {
    let p = range_params_of(m1.params);
    let q = range_params_of(m2.params);
    if spec_same_sheet(p.sheet, q.sheet) && spec_ranges_intersect(p.range, q.range) {
        second_dropped(m1)
    } else {
        unchanged(m1, m2)
    }
}

fn drop_on_range_overlap(m1: &MutationInfo, m2: &MutationInfo) -> (r: TransformResult)
    ensures
        r@ == range_overlap_dropped(m1@, m2@),
{
    let p = range_params_from(&m1.params);
    let q = range_params_from(&m2.params);
    if same_sheet(&p.sub_unit, &q.sub_unit) && ranges_intersect(&p.range, &q.range) {
        second_replaced(m1, None)
    } else {
        keep_both(m1, m2)
    }
}

/// A removal over a list of ranges (`m1`) against another list (`m2`) on the
/// same sheet: `m2` is dropped when some pair of ranges overlaps.
pub open spec fn ranges_overlap_dropped(m1: Mutation, m2: Mutation) -> Outcome {
    let p = ranges_params_of(m1.params);
    let q = ranges_params_of(m2.params);
    if spec_same_sheet(p.sheet, q.sheet) && any_ranges_intersect(p.ranges, q.ranges) {
        second_dropped(m1)
    } else {
        unchanged(m1, m2)
    }
}

fn drop_on_ranges_overlap(m1: &MutationInfo, m2: &MutationInfo) -> (r: TransformResult)
    ensures
        r@ == ranges_overlap_dropped(m1@, m2@),
{
    let p = ranges_params_from(&m1.params);
    let q = ranges_params_from(&m2.params);
    if same_sheet(&p.sub_unit, &q.sub_unit) && any_intersection(&p.ranges, &q.ranges) {
        second_replaced(m1, None)
    } else {
        keep_both(m1, m2)
    }
}

/// Removing a range theme style from a worksheet range.
#[derive(Default)]
pub struct DeleteWorksheetRangeThemeStyleTransform;

impl MutationTransform for DeleteWorksheetRangeThemeStyleTransform {
    fn mutation_id() -> (id: &'static str)
        ensures
            id@ == "sheet.mutation.remove-worksheet-range-theme-style"@,
    {
        "sheet.mutation.remove-worksheet-range-theme-style"
    }

    fn compose(&self, m1: &MutationInfo, m2: &MutationInfo) -> (r: Vec<MutationInfo>)
        ensures
            mutations_view(r@) == later_wins(m1@, m2@),
    {
        keep_later(m1, m2)
    }

    fn transform_with_insert_row(&self, m1: &MutationInfo, m2: &MutationInfo) -> (r: TransformResult)
        ensures
            r@ == kind_vs_insert(SheetTransformKind::Range, m1@, m2@, Axis::Rows),
    {
        reconcile_kind_with_insert(SheetTransformKind::Range, m1, m2, Axis::Rows)
    }

    fn transform_with_insert_col(&self, m1: &MutationInfo, m2: &MutationInfo) -> (r: TransformResult)
        ensures
            r@ == kind_vs_insert(SheetTransformKind::Range, m1@, m2@, Axis::Columns),
    {
        reconcile_kind_with_insert(SheetTransformKind::Range, m1, m2, Axis::Columns)
    }

    fn transform_with_remove_rows(&self, m1: &MutationInfo, m2: &MutationInfo) -> (r: TransformResult)
        ensures
            r@ == kind_vs_remove(SheetTransformKind::Range, m1@, m2@, Axis::Rows),
    {
        reconcile_kind_with_remove(SheetTransformKind::Range, m1, m2, Axis::Rows)
    }

    fn transform_with_remove_col(&self, m1: &MutationInfo, m2: &MutationInfo) -> (r: TransformResult)
        ensures
            r@ == kind_vs_remove(SheetTransformKind::Range, m1@, m2@, Axis::Columns),
    {
        reconcile_kind_with_remove(SheetTransformKind::Range, m1, m2, Axis::Columns)
    }

    fn transform_with_set_worksheet_range_theme_style(&self, m1: &MutationInfo, m2: &MutationInfo) -> (r: TransformResult)
        ensures
            r@ == range_overlap_dropped(m1@, m2@),
    {
        drop_on_range_overlap(m1, m2)
    }
}

/// Removing merged blocks.
#[derive(Default)]
pub struct RemoveWorksheetMergeTransform;

impl MutationTransform for RemoveWorksheetMergeTransform {
    fn mutation_id() -> (id: &'static str)
        ensures
            id@ == "sheet.mutation.remove-worksheet-merge"@,
    {
        "sheet.mutation.remove-worksheet-merge"
    }

    fn compose(&self, m1: &MutationInfo, m2: &MutationInfo) -> (r: Vec<MutationInfo>)
        ensures
            mutations_view(r@) == later_wins(m1@, m2@),
    {
        keep_later(m1, m2)
    }

    fn transform_with_insert_row(&self, m1: &MutationInfo, m2: &MutationInfo) -> (r: TransformResult)
        ensures
            r@ == kind_vs_insert(SheetTransformKind::Ranges, m1@, m2@, Axis::Rows),
    {
        reconcile_kind_with_insert(SheetTransformKind::Ranges, m1, m2, Axis::Rows)
    }

    fn transform_with_insert_col(&self, m1: &MutationInfo, m2: &MutationInfo) -> (r: TransformResult)
        ensures
            r@ == kind_vs_insert(SheetTransformKind::Ranges, m1@, m2@, Axis::Columns),
    {
        reconcile_kind_with_insert(SheetTransformKind::Ranges, m1, m2, Axis::Columns)
    }

    fn transform_with_remove_rows(&self, m1: &MutationInfo, m2: &MutationInfo) -> (r: TransformResult)
        ensures
            r@ == kind_vs_remove(SheetTransformKind::Ranges, m1@, m2@, Axis::Rows),
    {
        reconcile_kind_with_remove(SheetTransformKind::Ranges, m1, m2, Axis::Rows)
    }

    fn transform_with_remove_col(&self, m1: &MutationInfo, m2: &MutationInfo) -> (r: TransformResult)
        ensures
            r@ == kind_vs_remove(SheetTransformKind::Ranges, m1@, m2@, Axis::Columns),
    {
        reconcile_kind_with_remove(SheetTransformKind::Ranges, m1, m2, Axis::Columns)
    }

    fn transform_with_add_worksheet_merge(&self, m1: &MutationInfo, m2: &MutationInfo) -> (r: TransformResult)
        ensures
            r@ == ranges_overlap_dropped(m1@, m2@),
    {
        drop_on_ranges_overlap(m1, m2)
    }
}

// ---------------------------------------------------------------------------
// Number formats
// ---------------------------------------------------------------------------
/// The range lists of the values of a number-format setting (`values.*.ranges`).
pub open spec fn numfmt_values_of(p: ParamsV) -> Option<Seq<Seq<Range>>> {
    match p {
        ParamsV::Numfmt(x) => x.values,
        _ => None,
    }
}

/// Whether some range of `ranges` overlaps some range of one of `lists`.
pub open spec fn overlaps_some(ranges: Seq<Range>, lists: Seq<Seq<Range>>) -> bool {
    exists|j: int| 0 <= j < lists.len() && any_ranges_intersect(ranges, #[trigger] lists[j])
}

/// Number formats removed over ranges (`m1`) against number formats set
/// (`m2`) on the same sheet: the setting is dropped when one of its ranges
/// overlaps a removed range.
pub open spec fn numfmt_removal_vs_setting(m1: Mutation, m2: Mutation) -> Outcome {
    let p = ranges_params_of(m1.params);
    if p.ranges.len() == 0 || !spec_same_sheet(p.sheet, sheet_of(m2.params)) {
        unchanged(m1, m2)
    } else {
        match numfmt_values_of(m2.params) {
            Some(values) => if overlaps_some(p.ranges, values) {
                second_dropped(m1)
            } else {
                unchanged(m1, m2)
            },
            None => unchanged(m1, m2),
        }
    }
}

fn reconcile_numfmt_removal_with_setting(m1: &MutationInfo, m2: &MutationInfo) -> (r: TransformResult)
    ensures
        r@ == numfmt_removal_vs_setting(m1@, m2@),
{
    let p = ranges_params_from(&m1.params);
    if p.ranges.len() == 0 || !same_sheet(&p.sub_unit, &sub_unit_of(&m2.params)) {
        return keep_both(m1, m2);
    }
    match &m2.params {
        MutationParams::Numfmt(q) => match &q.values {
            Some(values) => {
                let ghost vs = numfmt_values_of(m2@.params)->0;
                let mut j: usize = 0;
                while j < values.len()
                    invariant
                        0 <= j <= values.len(),
                        p.ranges@.len() > 0,
                        spec_same_sheet(p@.sheet, sheet_of(m2@.params)),
                        ranges_params_of(m1@.params) == p@,
                        numfmt_values_of(m2@.params) == Some(vs),
                        vs.len() == values@.len(),
                        forall|k: int| 0 <= k < values@.len() ==> #[trigger] vs[k] == values@[k]@,
                        forall|k: int| 0 <= k < j ==> !any_ranges_intersect(p.ranges@, #[trigger] vs[k]),
                    decreases values.len() - j,
                {
                    assert(p@.ranges == p.ranges@);
                    if any_intersection(&p.ranges, &values[j]) {
                        assert(any_ranges_intersect(p.ranges@, vs[j as int]));
                        assert(p@.ranges == p.ranges@);
                        assert(overlaps_some(p@.ranges, vs));
                        return second_replaced(m1, None);
                    }
                    j += 1;
                }
                assert(!overlaps_some(p@.ranges, vs));
                keep_both(m1, m2)
            },
            None => keep_both(m1, m2),
        },
        _ => keep_both(m1, m2),
    }
}

/// Removing number formats.
#[derive(Default)]
pub struct RemoveNumfmtTransform;

impl MutationTransform for RemoveNumfmtTransform {
    fn mutation_id() -> (id: &'static str)
        ensures
            id@ == "sheet.mutation.remove.numfmt"@,
    {
        "sheet.mutation.remove.numfmt"
    }

    fn compose(&self, m1: &MutationInfo, m2: &MutationInfo) -> (r: Vec<MutationInfo>)
        ensures
            mutations_view(r@) == later_wins(m1@, m2@),
    {
        keep_later(m1, m2)
    }

    fn transform_with_insert_row(&self, m1: &MutationInfo, m2: &MutationInfo) -> (r: TransformResult)
        ensures
            r@ == kind_vs_insert(SheetTransformKind::Ranges, m1@, m2@, Axis::Rows),
    {
        reconcile_kind_with_insert(SheetTransformKind::Ranges, m1, m2, Axis::Rows)
    }

    fn transform_with_insert_col(&self, m1: &MutationInfo, m2: &MutationInfo) -> (r: TransformResult)
        ensures
            r@ == kind_vs_insert(SheetTransformKind::Ranges, m1@, m2@, Axis::Columns),
    {
        reconcile_kind_with_insert(SheetTransformKind::Ranges, m1, m2, Axis::Columns)
    }

    fn transform_with_remove_rows(&self, m1: &MutationInfo, m2: &MutationInfo) -> (r: TransformResult)
        ensures
            r@ == kind_vs_remove(SheetTransformKind::Ranges, m1@, m2@, Axis::Rows),
    {
        reconcile_kind_with_remove(SheetTransformKind::Ranges, m1, m2, Axis::Rows)
    }

    fn transform_with_remove_col(&self, m1: &MutationInfo, m2: &MutationInfo) -> (r: TransformResult)
        ensures
            r@ == kind_vs_remove(SheetTransformKind::Ranges, m1@, m2@, Axis::Columns),
    {
        reconcile_kind_with_remove(SheetTransformKind::Ranges, m1, m2, Axis::Columns)
    }

    fn transform_with_set_numfmt(&self, m1: &MutationInfo, m2: &MutationInfo) -> (r: TransformResult)
        ensures
            r@ == numfmt_removal_vs_setting(m1@, m2@),
    {
        reconcile_numfmt_removal_with_setting(m1, m2)
    }
}

// ---------------------------------------------------------------------------
// Range themes
// ---------------------------------------------------------------------------
/// The theme a removal removes (`styleName`), or a setting sets.
pub open spec fn style_name_of(p: ParamsV) -> Option<Seq<char>> {
    match p {
        ParamsV::Theme(x) => x.style_name,
        _ => None,
    }
}

/// The name of the theme an addition adds (`styleJSON.name`).
pub open spec fn style_json_name_of(p: ParamsV) -> Option<Seq<char>> {
    match p {
        ParamsV::Theme(x) => x.style_json_name,
        _ => None,
    }
}

/// A theme removed (`m1`, for a whole workbook when its sheet id is empty)
/// against a theme added or set (`m2`, whose theme name `name` gives): `m2` is
/// dropped when it names the removed theme.
pub open spec fn theme_removal_vs(m1: Mutation, m2: Mutation, name: Option<Seq<char>>) -> Outcome {
    let removed = style_name_of(m1.params);
    if !spec_same_workbook_or_sheet(sheet_of(m1.params), sheet_of(m2.params)) {
        unchanged(m1, m2)
    } else if removed is Some && removed == name {
        second_dropped(m1)
    } else {
        unchanged(m1, m2)
    }
}

fn name_of(p: &MutationParams, json_name: bool) -> (r: Option<String>)
    ensures
        opt_text_view(r) == if json_name {
            style_json_name_of(p@)
        } else {
            style_name_of(p@)
        },
{
    match p {
        MutationParams::Theme(x) => if json_name {
            crate::mutation::copy_opt_text(&x.style_json_name)
        } else {
            crate::mutation::copy_opt_text(&x.style_name)
        },
        _ => None,
    }
}

fn reconcile_theme_removal(m1: &MutationInfo, m2: &MutationInfo, json_name: bool) -> (r: TransformResult)
    ensures
        r@ == theme_removal_vs(
            m1@,
            m2@,
            if json_name {
                style_json_name_of(m2@.params)
            } else {
                style_name_of(m2@.params)
            },
        ),
{
    if !same_workbook_or_sheet(&sub_unit_of(&m1.params), &sub_unit_of(&m2.params)) {
        return keep_both(m1, m2);
    }
    let removed = name_of(&m1.params, false);
    let other = name_of(&m2.params, json_name);
    match (&removed, &other) {
        (Some(a), Some(b)) => if *a == *b {
            second_replaced(m1, None)
        } else {
            keep_both(m1, m2)
        },
        _ => keep_both(m1, m2),
    }
}

/// Removing a range theme.
#[derive(Default)]
pub struct RemoveRangeThemeTransform;

impl MutationTransform for RemoveRangeThemeTransform {
    fn mutation_id() -> (id: &'static str)
        ensures
            id@ == "sheet.mutation.remove-range-theme"@,
    {
        "sheet.mutation.remove-range-theme"
    }

    fn compose(&self, m1: &MutationInfo, m2: &MutationInfo) -> (r: Vec<MutationInfo>)
        ensures
            mutations_view(r@) == later_wins(m1@, m2@),
    {
        keep_later(m1, m2)
    }

    fn transform_with_add_range_theme(&self, m1: &MutationInfo, m2: &MutationInfo) -> (r: TransformResult)
        ensures
            r@ == theme_removal_vs(m1@, m2@, style_json_name_of(m2@.params)),
    {
        reconcile_theme_removal(m1, m2, true)
    }

    fn transform_with_set_range_theme(&self, m1: &MutationInfo, m2: &MutationInfo) -> (r: TransformResult)
        ensures
            r@ == theme_removal_vs(m1@, m2@, style_name_of(m2@.params)),
    {
        reconcile_theme_removal(m1, m2, false)
    }
}

/// Removing a worksheet: every concurrent mutation on that worksheet is
/// dropped (data validation rules aside, which are kept).
#[derive(Default)]
pub struct RemoveSheetTransform;

impl MutationTransform for RemoveSheetTransform {
    fn mutation_id() -> (id: &'static str)
        ensures
            id@ == "sheet.mutation.remove-sheet"@,
    {
        "sheet.mutation.remove-sheet"
    }

    fn compose(&self, m1: &MutationInfo, m2: &MutationInfo) -> (r: Vec<MutationInfo>)
        ensures
            mutations_view(r@) == later_wins(m1@, m2@),
    {
        keep_later(m1, m2)
    }

    fn transform_with_set_range_values(&self, m1: &MutationInfo, m2: &MutationInfo) -> (r: TransformResult)
        ensures
            r@ == same_sheet_dropped(m1@, m2@),
    {
        drop_on_same_sheet(m1, m2)
    }

    fn transform_with_insert_row(&self, m1: &MutationInfo, m2: &MutationInfo) -> (r: TransformResult)
        ensures
            r@ == same_sheet_dropped(m1@, m2@),
    {
        drop_on_same_sheet(m1, m2)
    }

    fn transform_with_insert_col(&self, m1: &MutationInfo, m2: &MutationInfo) -> (r: TransformResult)
        ensures
            r@ == same_sheet_dropped(m1@, m2@),
    {
        drop_on_same_sheet(m1, m2)
    }

    fn transform_with_remove_rows(&self, m1: &MutationInfo, m2: &MutationInfo) -> (r: TransformResult)
        ensures
            r@ == same_sheet_dropped(m1@, m2@),
    {
        drop_on_same_sheet(m1, m2)
    }

    fn transform_with_remove_col(&self, m1: &MutationInfo, m2: &MutationInfo) -> (r: TransformResult)
        ensures
            r@ == same_sheet_dropped(m1@, m2@),
    {
        drop_on_same_sheet(m1, m2)
    }

    fn transform_with_add_conditional_rule(&self, m1: &MutationInfo, m2: &MutationInfo) -> (r: TransformResult)
        ensures
            r@ == same_sheet_dropped(m1@, m2@),
    {
        drop_on_same_sheet(m1, m2)
    }

    fn transform_with_add_range_protection(&self, m1: &MutationInfo, m2: &MutationInfo) -> (r: TransformResult)
        ensures
            r@ == same_sheet_dropped(m1@, m2@),
    {
        drop_on_same_sheet(m1, m2)
    }

    fn transform_with_add_range_theme(&self, m1: &MutationInfo, m2: &MutationInfo) -> (r: TransformResult)
        ensures
            r@ == same_sheet_dropped(m1@, m2@),
    {
        drop_on_same_sheet(m1, m2)
    }

    fn transform_with_add_worksheet_merge(&self, m1: &MutationInfo, m2: &MutationInfo) -> (r: TransformResult)
        ensures
            r@ == same_sheet_dropped(m1@, m2@),
    {
        drop_on_same_sheet(m1, m2)
    }

    fn transform_with_add_worksheet_protection(&self, m1: &MutationInfo, m2: &MutationInfo) -> (r: TransformResult)
        ensures
            r@ == same_sheet_dropped(m1@, m2@),
    {
        drop_on_same_sheet(m1, m2)
    }

    fn transform_with_conditional_formatting_formula_mark_dirty(&self, m1: &MutationInfo, m2: &MutationInfo) -> (r: TransformResult)
        ensures
            r@ == same_sheet_dropped(m1@, m2@),
    {
        drop_on_same_sheet(m1, m2)
    }

    fn transform_with_copy_worksheet_end(&self, m1: &MutationInfo, m2: &MutationInfo) -> (r: TransformResult)
        ensures
            r@ == same_sheet_dropped(m1@, m2@),
    {
        drop_on_same_sheet(m1, m2)
    }

    fn transform_with_delete_conditional_rule(&self, m1: &MutationInfo, m2: &MutationInfo) -> (r: TransformResult)
        ensures
            r@ == same_sheet_dropped(m1@, m2@),
    {
        drop_on_same_sheet(m1, m2)
    }

    fn transform_with_delete_range_protection(&self, m1: &MutationInfo, m2: &MutationInfo) -> (r: TransformResult)
        ensures
            r@ == same_sheet_dropped(m1@, m2@),
    {
        drop_on_same_sheet(m1, m2)
    }

    fn transform_with_delete_worksheet_protection(&self, m1: &MutationInfo, m2: &MutationInfo) -> (r: TransformResult)
        ensures
            r@ == same_sheet_dropped(m1@, m2@),
    {
        drop_on_same_sheet(m1, m2)
    }

    fn transform_with_remove_worksheet_range_theme_style(&self, m1: &MutationInfo, m2: &MutationInfo) -> (r: TransformResult)
        ensures
            r@ == same_sheet_dropped(m1@, m2@),
    {
        drop_on_same_sheet(m1, m2)
    }

    fn transform_with_empty(&self, m1: &MutationInfo, m2: &MutationInfo) -> (r: TransformResult)
        ensures
            r@ == same_sheet_dropped(m1@, m2@),
    {
        drop_on_same_sheet(m1, m2)
    }

    fn transform_with_insert_sheet(&self, m1: &MutationInfo, m2: &MutationInfo) -> (r: TransformResult)
        ensures
            r@ == same_sheet_dropped(m1@, m2@),
    {
        drop_on_same_sheet(m1, m2)
    }

    fn transform_with_move_columns(&self, m1: &MutationInfo, m2: &MutationInfo) -> (r: TransformResult)
        ensures
            r@ == same_sheet_dropped(m1@, m2@),
    {
        drop_on_same_sheet(m1, m2)
    }

    fn transform_with_move_conditional_rule(&self, m1: &MutationInfo, m2: &MutationInfo) -> (r: TransformResult)
        ensures
            r@ == same_sheet_dropped(m1@, m2@),
    {
        drop_on_same_sheet(m1, m2)
    }

    fn transform_with_move_rows(&self, m1: &MutationInfo, m2: &MutationInfo) -> (r: TransformResult)
        ensures
            r@ == same_sheet_dropped(m1@, m2@),
    {
        drop_on_same_sheet(m1, m2)
    }

    fn transform_with_move_range(&self, m1: &MutationInfo, m2: &MutationInfo) -> (r: TransformResult)
        ensures
            r@ == same_sheet_dropped(m1@, m2@),
    {
        drop_on_same_sheet(m1, m2)
    }

    fn transform_with_register_worksheet_range_theme_style(&self, m1: &MutationInfo, m2: &MutationInfo) -> (r: TransformResult)
        ensures
            r@ == same_sheet_dropped(m1@, m2@),
    {
        drop_on_same_sheet(m1, m2)
    }

    fn transform_with_remove_range_theme(&self, m1: &MutationInfo, m2: &MutationInfo) -> (r: TransformResult)
        ensures
            r@ == same_sheet_dropped(m1@, m2@),
    {
        drop_on_same_sheet(m1, m2)
    }

    fn transform_with_remove_sheet(&self, m1: &MutationInfo, m2: &MutationInfo) -> (r: TransformResult)
        ensures
            r@ == same_sheet_dropped(m1@, m2@),
    {
        drop_on_same_sheet(m1, m2)
    }

    fn transform_with_remove_worksheet_merge(&self, m1: &MutationInfo, m2: &MutationInfo) -> (r: TransformResult)
        ensures
            r@ == same_sheet_dropped(m1@, m2@),
    {
        drop_on_same_sheet(m1, m2)
    }

    fn transform_with_reorder_range(&self, m1: &MutationInfo, m2: &MutationInfo) -> (r: TransformResult)
        ensures
            r@ == same_sheet_dropped(m1@, m2@),
    {
        drop_on_same_sheet(m1, m2)
    }

    fn transform_with_set_col_data(&self, m1: &MutationInfo, m2: &MutationInfo) -> (r: TransformResult)
        ensures
            r@ == same_sheet_dropped(m1@, m2@),
    {
        drop_on_same_sheet(m1, m2)
    }

    fn transform_with_set_col_hidden(&self, m1: &MutationInfo, m2: &MutationInfo) -> (r: TransformResult)
        ensures
            r@ == same_sheet_dropped(m1@, m2@),
    {
        drop_on_same_sheet(m1, m2)
    }

    fn transform_with_set_col_visible(&self, m1: &MutationInfo, m2: &MutationInfo) -> (r: TransformResult)
        ensures
            r@ == same_sheet_dropped(m1@, m2@),
    {
        drop_on_same_sheet(m1, m2)
    }

    fn transform_with_set_frozen(&self, m1: &MutationInfo, m2: &MutationInfo) -> (r: TransformResult)
        ensures
            r@ == same_sheet_dropped(m1@, m2@),
    {
        drop_on_same_sheet(m1, m2)
    }

    fn transform_with_set_gridlines_color(&self, m1: &MutationInfo, m2: &MutationInfo) -> (r: TransformResult)
        ensures
            r@ == same_sheet_dropped(m1@, m2@),
    {
        drop_on_same_sheet(m1, m2)
    }

    fn transform_with_set_numfmt(&self, m1: &MutationInfo, m2: &MutationInfo) -> (r: TransformResult)
        ensures
            r@ == same_sheet_dropped(m1@, m2@),
    {
        drop_on_same_sheet(m1, m2)
    }

    fn transform_with_remove_numfmt(&self, m1: &MutationInfo, m2: &MutationInfo) -> (r: TransformResult)
        ensures
            r@ == same_sheet_dropped(m1@, m2@),
    {
        drop_on_same_sheet(m1, m2)
    }

    fn transform_with_set_range_protection(&self, m1: &MutationInfo, m2: &MutationInfo) -> (r: TransformResult)
        ensures
            r@ == same_sheet_dropped(m1@, m2@),
    {
        drop_on_same_sheet(m1, m2)
    }

    fn transform_with_set_conditional_rule(&self, m1: &MutationInfo, m2: &MutationInfo) -> (r: TransformResult)
        ensures
            r@ == same_sheet_dropped(m1@, m2@),
    {
        drop_on_same_sheet(m1, m2)
    }

    fn transform_with_set_range_theme(&self, m1: &MutationInfo, m2: &MutationInfo) -> (r: TransformResult)
        ensures
            r@ == same_sheet_dropped(m1@, m2@),
    {
        drop_on_same_sheet(m1, m2)
    }

    fn transform_with_set_row_data(&self, m1: &MutationInfo, m2: &MutationInfo) -> (r: TransformResult)
        ensures
            r@ == same_sheet_dropped(m1@, m2@),
    {
        drop_on_same_sheet(m1, m2)
    }

    fn transform_with_set_row_hidden(&self, m1: &MutationInfo, m2: &MutationInfo) -> (r: TransformResult)
        ensures
            r@ == same_sheet_dropped(m1@, m2@),
    {
        drop_on_same_sheet(m1, m2)
    }

    fn transform_with_set_row_visible(&self, m1: &MutationInfo, m2: &MutationInfo) -> (r: TransformResult)
        ensures
            r@ == same_sheet_dropped(m1@, m2@),
    {
        drop_on_same_sheet(m1, m2)
    }

    fn transform_with_set_tab_color(&self, m1: &MutationInfo, m2: &MutationInfo) -> (r: TransformResult)
        ensures
            r@ == same_sheet_dropped(m1@, m2@),
    {
        drop_on_same_sheet(m1, m2)
    }

    fn transform_with_set_workbook_name(&self, m1: &MutationInfo, m2: &MutationInfo) -> (r: TransformResult)
        ensures
            r@ == same_sheet_dropped(m1@, m2@),
    {
        drop_on_same_sheet(m1, m2)
    }

    fn transform_with_set_worksheet_col_width(&self, m1: &MutationInfo, m2: &MutationInfo) -> (r: TransformResult)
        ensures
            r@ == same_sheet_dropped(m1@, m2@),
    {
        drop_on_same_sheet(m1, m2)
    }

    fn transform_with_set_worksheet_column_count(&self, m1: &MutationInfo, m2: &MutationInfo) -> (r: TransformResult)
        ensures
            r@ == same_sheet_dropped(m1@, m2@),
    {
        drop_on_same_sheet(m1, m2)
    }

    fn transform_with_set_worksheet_default_style(&self, m1: &MutationInfo, m2: &MutationInfo) -> (r: TransformResult)
        ensures
            r@ == same_sheet_dropped(m1@, m2@),
    {
        drop_on_same_sheet(m1, m2)
    }

    fn transform_with_set_worksheet_hidden(&self, m1: &MutationInfo, m2: &MutationInfo) -> (r: TransformResult)
        ensures
            r@ == same_sheet_dropped(m1@, m2@),
    {
        drop_on_same_sheet(m1, m2)
    }

    fn transform_with_set_worksheet_name(&self, m1: &MutationInfo, m2: &MutationInfo) -> (r: TransformResult)
        ensures
            r@ == same_sheet_dropped(m1@, m2@),
    {
        drop_on_same_sheet(m1, m2)
    }

    fn transform_with_set_worksheet_order(&self, m1: &MutationInfo, m2: &MutationInfo) -> (r: TransformResult)
        ensures
            r@ == same_sheet_dropped(m1@, m2@),
    {
        drop_on_same_sheet(m1, m2)
    }

    fn transform_with_set_worksheet_permission_points(&self, m1: &MutationInfo, m2: &MutationInfo) -> (r: TransformResult)
        ensures
            r@ == same_sheet_dropped(m1@, m2@),
    {
        drop_on_same_sheet(m1, m2)
    }

    fn transform_with_set_worksheet_protection(&self, m1: &MutationInfo, m2: &MutationInfo) -> (r: TransformResult)
        ensures
            r@ == same_sheet_dropped(m1@, m2@),
    {
        drop_on_same_sheet(m1, m2)
    }

    fn transform_with_set_worksheet_range_theme_style(&self, m1: &MutationInfo, m2: &MutationInfo) -> (r: TransformResult)
        ensures
            r@ == same_sheet_dropped(m1@, m2@),
    {
        drop_on_same_sheet(m1, m2)
    }

    fn transform_with_set_worksheet_right_to_left(&self, m1: &MutationInfo, m2: &MutationInfo) -> (r: TransformResult)
        ensures
            r@ == same_sheet_dropped(m1@, m2@),
    {
        drop_on_same_sheet(m1, m2)
    }

    fn transform_with_set_worksheet_row_auto_height(&self, m1: &MutationInfo, m2: &MutationInfo) -> (r: TransformResult)
        ensures
            r@ == same_sheet_dropped(m1@, m2@),
    {
        drop_on_same_sheet(m1, m2)
    }

    fn transform_with_set_worksheet_row_count(&self, m1: &MutationInfo, m2: &MutationInfo) -> (r: TransformResult)
        ensures
            r@ == same_sheet_dropped(m1@, m2@),
    {
        drop_on_same_sheet(m1, m2)
    }

    fn transform_with_set_worksheet_row_height(&self, m1: &MutationInfo, m2: &MutationInfo) -> (r: TransformResult)
        ensures
            r@ == same_sheet_dropped(m1@, m2@),
    {
        drop_on_same_sheet(m1, m2)
    }

    fn transform_with_set_worksheet_row_is_auto_height(&self, m1: &MutationInfo, m2: &MutationInfo) -> (r: TransformResult)
        ensures
            r@ == same_sheet_dropped(m1@, m2@),
    {
        drop_on_same_sheet(m1, m2)
    }

    fn transform_with_toggle_gridlines(&self, m1: &MutationInfo, m2: &MutationInfo) -> (r: TransformResult)
        ensures
            r@ == same_sheet_dropped(m1@, m2@),
    {
        drop_on_same_sheet(m1, m2)
    }

    fn transform_with_unregister_worksheet_range_theme_style(&self, m1: &MutationInfo, m2: &MutationInfo) -> (r: TransformResult)
        ensures
            r@ == same_sheet_dropped(m1@, m2@),
    {
        drop_on_same_sheet(m1, m2)
    }
}

} // verus!
