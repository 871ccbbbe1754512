//! Mutations that carry a rule with ranges: data validation rules and moved
//! conditional-format rules. The rule's ranges follow structural edits.
use vstd::prelude::*;
use crate::sheet::{
    axis_end, axis_span, axis_start, copy_ranges, end_of, ranges_after_remove, same_sheet,
    shift_ranges_for_remove, span_of, spec_same_sheet, start_of, Axis, SheetId,
};
use crate::mutation::{
    copy_opt_text, first_becomes, first_replaced, keep_both, mutations_view, range_params_from,
    range_params_of, rule_params_of, sheet_of, sub_unit_of, unchanged, with_params_v, Mutation,
    MutationInfo, MutationParams, Outcome, ParamsV, RuleParams, RuleParamsV, RuleV, RuleValue,
    TransformResult,
};
use crate::mutation_transform::MutationTransform;
use crate::sheets_generic::{keep_later, later_wins};
use crate::structural::{rule_after_insert, shift_rule_for_insert};

verus! {

/// `m` with its rule parameters `p`, the rule replaced by `r`.
pub open spec fn with_rule(m: Mutation, p: RuleParamsV, r: RuleV) -> Mutation {
    with_params_v(m, ParamsV::Rule(RuleParamsV { sheet: p.sheet, rule: Some(r) }))
}

fn rebuilt_with_rule(m: &MutationInfo, p: &RuleParams, r: RuleValue) -> (out: MutationInfo)
    ensures
        out@ == with_rule(m@, p@, r@),
{
    m.with_params(MutationParams::Rule(RuleParams { sub_unit: p.sub_unit.copy(), rule: Some(r) }))
}

/// `r` with its ranges replaced by `ranges`.
pub open spec fn rule_with_ranges(r: RuleV, ranges: Seq<crate::sheet::Range>) -> RuleV {
    RuleV { unit_id: r.unit_id, sub_unit_id: r.sub_unit_id, ranges: Some(ranges), extra: r.extra }
}

/// Whether a rule names a workbook or a sheet other than `q`'s.
pub open spec fn rule_sheet_differs(r: RuleV, q: SheetId) -> bool {
    (r.unit_id is Some && r.unit_id->0 != q.unit_id) || (r.sub_unit_id is Some && r.sub_unit_id->0 != q.sub_unit_id)
}

fn rule_names_other_sheet(r: &RuleValue, q: &crate::sheet::SubUnitParams) -> (b: bool)
    ensures
        b == rule_sheet_differs(r@, q@),
{
    let unit_differs = match &r.unit_id {
        Some(u) => *u != q.unit_id,
        None => false,
    };
    let sheet_differs = match &r.sub_unit_id {
        Some(s) => *s != q.sub_unit_id,
        None => false,
    };
    unit_differs || sheet_differs
}

// ---------------------------------------------------------------------------
// Data validation
// ---------------------------------------------------------------------------
/// A data validation rule added (`m1`) against lines inserted (`m2`): unless
/// the rule names another workbook or sheet, its ranges move.
pub open spec fn validation_vs_insert(m1: Mutation, m2: Mutation, axis: Axis) -> Outcome {
    let q = range_params_of(m2.params);
    match rule_params_of(m1.params) {
        Some(p) => match p.rule {
            Some(r) => if rule_sheet_differs(r, q.sheet) {
                unchanged(m1, m2)
            } else {
                first_becomes(Some(with_rule(m1, p, rule_after_insert(r, axis, axis_start(q.range, axis), axis_span(q.range, axis)))), m2)
            },
            None => unchanged(m1, m2),
        },
        None => unchanged(m1, m2),
    }
}

/// A data validation rule added (`m1`) against lines removed (`m2`): unless
/// the rule names another workbook or sheet, it keeps its surviving ranges,
/// and is dropped when none survives (or it has no ranges).
pub open spec fn validation_vs_remove(m1: Mutation, m2: Mutation, axis: Axis) -> Outcome {
    let q = range_params_of(m2.params);
    let rs = axis_start(q.range, axis);
    let re = axis_end(q.range, axis);
    match rule_params_of(m1.params) {
        Some(p) => match p.rule {
            Some(r) => if rule_sheet_differs(r, q.sheet) {
                unchanged(m1, m2)
            } else {
                match r.ranges {
                    Some(ranges) => if ranges_after_remove(ranges, axis, rs, re).len() == 0 {
                        first_becomes(None, m2)
                    } else {
                        first_becomes(Some(with_rule(m1, p, rule_with_ranges(r, ranges_after_remove(ranges, axis, rs, re)))), m2)
                    },
                    None => first_becomes(None, m2),
                }
            },
            None => first_becomes(None, m2),
        },
        None => first_becomes(None, m2),
    }
}

fn reconcile_validation_with_insert(m1: &MutationInfo, m2: &MutationInfo, axis: Axis) -> (r: TransformResult)
    ensures
        r@ == validation_vs_insert(m1@, m2@, axis),
{
    let q = range_params_from(&m2.params);
    match &m1.params {
        MutationParams::Rule(p) => match &p.rule {
            Some(rv) => {
                if rule_names_other_sheet(rv, &q.sub_unit) {
                    return keep_both(m1, m2);
                }
                let shifted = shift_rule_for_insert(rv, axis, start_of(&q.range, axis), span_of(&q.range, axis));
                first_replaced(Some(rebuilt_with_rule(m1, p, shifted)), m2)
            },
            None => keep_both(m1, m2),
        },
        _ => keep_both(m1, m2),
    }
}

/// The rule with the ranges that survive a removal, or `None` when none does.
fn rule_after_removal(rv: &RuleValue, axis: Axis, rs: u32, re: u32) -> (out: Option<RuleValue>)
    ensures
        match rv@.ranges {
            Some(ranges) => if ranges_after_remove(ranges, axis, rs, re).len() == 0 {
                out is None
            } else {
                out is Some && out->0@ == rule_with_ranges(rv@, ranges_after_remove(ranges, axis, rs, re))
            },
            None => out is None,
        },
{
    match &rv.ranges {
        Some(v) => {
            let mut left = copy_ranges(v);
            if !shift_ranges_for_remove(&mut left, axis, rs, re) {
                return None;
            }
            Some(RuleValue {
                unit_id: copy_opt_text(&rv.unit_id),
                sub_unit_id: copy_opt_text(&rv.sub_unit_id),
                ranges: Some(left),
                extra: rv.extra.clone(),
            })
        },
        None => None,
    }
}

fn reconcile_validation_with_remove(m1: &MutationInfo, m2: &MutationInfo, axis: Axis) -> (r: TransformResult)
    ensures
        r@ == validation_vs_remove(m1@, m2@, axis),
{
    let q = range_params_from(&m2.params);
    match &m1.params {
        MutationParams::Rule(p) => match &p.rule {
            Some(rv) => {
                if rule_names_other_sheet(rv, &q.sub_unit) {
                    return keep_both(m1, m2);
                }
                match rule_after_removal(rv, axis, start_of(&q.range, axis), end_of(&q.range, axis)) {
                    Some(kept) => first_replaced(Some(rebuilt_with_rule(m1, p, kept)), m2),
                    None => first_replaced(None, m2),
                }
            },
            None => first_replaced(None, m2),
        },
        _ => first_replaced(None, m2),
    }
}

/// Adding a data validation rule.
#[derive(Default)]
pub struct AddDataValidationTransform;

impl MutationTransform for AddDataValidationTransform {
    fn mutation_id() -> (id: &'static str)
        ensures
            id@ == "data-validation.mutation.addRule"@,
    {
        "data-validation.mutation.addRule"
    }

    fn compose(&self, m1: &MutationInfo, m2: &MutationInfo) -> (r: Vec<MutationInfo>)
        ensures
            mutations_view(r@) == later_wins(m1@, m2@),
    {
        keep_later(m1, m2)
    }

    fn transform_with_insert_row(&self, m1: &MutationInfo, m2: &MutationInfo) -> (r: TransformResult)
        ensures
            r@ == validation_vs_insert(m1@, m2@, Axis::Rows),
    {
        reconcile_validation_with_insert(m1, m2, Axis::Rows)
    }

    fn transform_with_insert_col(&self, m1: &MutationInfo, m2: &MutationInfo) -> (r: TransformResult)
        ensures
            r@ == validation_vs_insert(m1@, m2@, Axis::Columns),
    {
        reconcile_validation_with_insert(m1, m2, Axis::Columns)
    }

    fn transform_with_remove_rows(&self, m1: &MutationInfo, m2: &MutationInfo) -> (r: TransformResult)
        ensures
            r@ == validation_vs_remove(m1@, m2@, Axis::Rows),
    {
        reconcile_validation_with_remove(m1, m2, Axis::Rows)
    }

    fn transform_with_remove_col(&self, m1: &MutationInfo, m2: &MutationInfo) -> (r: TransformResult)
        ensures
            r@ == validation_vs_remove(m1@, m2@, Axis::Columns),
    {
        reconcile_validation_with_remove(m1, m2, Axis::Columns)
    }
}

// ---------------------------------------------------------------------------
// Moved conditional-format rules
// ---------------------------------------------------------------------------
/// A conditional-format rule moved (`m1`) against lines inserted on the same
/// sheet (`m2`): the rule's ranges move.
pub open spec fn conditional_rule_vs_insert(m1: Mutation, m2: Mutation, axis: Axis) -> Outcome {
    let q = range_params_of(m2.params);
    if !spec_same_sheet(sheet_of(m1.params), q.sheet) {
        unchanged(m1, m2)
    } else {
        match rule_params_of(m1.params) {
            Some(p) => match p.rule {
                Some(r) => first_becomes(Some(with_rule(m1, p, rule_after_insert(r, axis, axis_start(q.range, axis), axis_span(q.range, axis)))), m2),
                None => unchanged(m1, m2),
            },
            None => unchanged(m1, m2),
        }
    }
}

/// A conditional-format rule moved (`m1`) against lines removed on the same
/// sheet (`m2`): the rule keeps its surviving ranges, and the move is dropped
/// when the rule had ranges and none survives.
pub open spec fn conditional_rule_vs_remove(m1: Mutation, m2: Mutation, axis: Axis) -> Outcome {
    let q = range_params_of(m2.params);
    let rs = axis_start(q.range, axis);
    let re = axis_end(q.range, axis);
    if !spec_same_sheet(sheet_of(m1.params), q.sheet) {
        unchanged(m1, m2)
    } else {
        match rule_params_of(m1.params) {
            Some(p) => match p.rule {
                Some(r) => match r.ranges {
                    Some(ranges) => if ranges_after_remove(ranges, axis, rs, re).len() == 0 {
                        first_becomes(None, m2)
                    } else {
                        first_becomes(Some(with_rule(m1, p, rule_with_ranges(r, ranges_after_remove(ranges, axis, rs, re)))), m2)
                    },
                    None => unchanged(m1, m2),
                },
                None => unchanged(m1, m2),
            },
            None => unchanged(m1, m2),
        }
    }
}

fn reconcile_conditional_rule_with_insert(m1: &MutationInfo, m2: &MutationInfo, axis: Axis) -> (r: TransformResult)
    ensures
        r@ == conditional_rule_vs_insert(m1@, m2@, axis),
{
    let q = range_params_from(&m2.params);
    if !same_sheet(&sub_unit_of(&m1.params), &q.sub_unit) {
        return keep_both(m1, m2);
    }
    match &m1.params {
        MutationParams::Rule(p) => match &p.rule {
            Some(rv) => {
                let shifted = shift_rule_for_insert(rv, axis, start_of(&q.range, axis), span_of(&q.range, axis));
                first_replaced(Some(rebuilt_with_rule(m1, p, shifted)), m2)
            },
            None => keep_both(m1, m2),
        },
        _ => keep_both(m1, m2),
    }
}

fn reconcile_conditional_rule_with_remove(m1: &MutationInfo, m2: &MutationInfo, axis: Axis) -> (r: TransformResult)
    ensures
        r@ == conditional_rule_vs_remove(m1@, m2@, axis),
{
    let q = range_params_from(&m2.params);
    if !same_sheet(&sub_unit_of(&m1.params), &q.sub_unit) {
        return keep_both(m1, m2);
    }
    match &m1.params {
        MutationParams::Rule(p) => match &p.rule {
            Some(rv) => {
                if rv.ranges.is_none() {
                    return keep_both(m1, m2);
                }
                match rule_after_removal(rv, axis, start_of(&q.range, axis), end_of(&q.range, axis)) {
                    Some(kept) => first_replaced(Some(rebuilt_with_rule(m1, p, kept)), m2),
                    None => first_replaced(None, m2),
                }
            },
            None => keep_both(m1, m2),
        },
        _ => keep_both(m1, m2),
    }
}

/// Moving a conditional-format rule.
#[derive(Default)]
pub struct MoveConditionalRuleTransform;

impl MutationTransform for MoveConditionalRuleTransform {
    fn mutation_id() -> (id: &'static str)
        ensures
            id@ == "sheet.mutation.move-conditional-rule"@,
    {
        "sheet.mutation.move-conditional-rule"
    }

    fn compose(&self, m1: &MutationInfo, m2: &MutationInfo) -> (r: Vec<MutationInfo>)
        ensures
            mutations_view(r@) == later_wins(m1@, m2@),
    {
        keep_later(m1, m2)
    }

    fn transform_with_insert_row(&self, m1: &MutationInfo, m2: &MutationInfo) -> (r: TransformResult)
        ensures
            r@ == conditional_rule_vs_insert(m1@, m2@, Axis::Rows),
    {
        reconcile_conditional_rule_with_insert(m1, m2, Axis::Rows)
    }

    fn transform_with_insert_col(&self, m1: &MutationInfo, m2: &MutationInfo) -> (r: TransformResult)
        ensures
            r@ == conditional_rule_vs_insert(m1@, m2@, Axis::Columns),
    {
        reconcile_conditional_rule_with_insert(m1, m2, Axis::Columns)
    }

    fn transform_with_remove_rows(&self, m1: &MutationInfo, m2: &MutationInfo) -> (r: TransformResult)
        ensures
            r@ == conditional_rule_vs_remove(m1@, m2@, Axis::Rows),
    {
        reconcile_conditional_rule_with_remove(m1, m2, Axis::Rows)
    }

    fn transform_with_remove_col(&self, m1: &MutationInfo, m2: &MutationInfo) -> (r: TransformResult)
        ensures
            r@ == conditional_rule_vs_remove(m1@, m2@, Axis::Columns),
    {
        reconcile_conditional_rule_with_remove(m1, m2, Axis::Columns)
    }
}

} // verus!
