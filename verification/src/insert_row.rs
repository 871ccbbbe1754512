//! Row insertion (`sheet.mutation.insert-row`).
use vstd::prelude::*;
use crate::sheet::{count_of, same_sheet, span, spec_same_sheet, wadd, wsub, Axis, Range};
use crate::mutation::{
    mutations_view, opt_texts, range_params_from, range_params_of, texts_view, lemma_texts_view_push, with_params_v,
    Mutation, MutationInfo, MutationParams, ParamsV, RangeParams, RangeParamsV, TransformResult,
};
use crate::mutation_transform::MutationTransform;
use crate::structural::{
    insert_vs_rule, insert_vs_values, inserts_reconciled, reconcile_insert_with_rule,
    reconcile_insert_with_values, reconcile_inserts, reconcile_row_insert_with_remove,
    row_insert_vs_remove,
};

verus! {

/// Transforms of row insertions.
#[derive(Default)]
pub struct InsertRowTransform;

/// The per-row data given to an inserted row that has none (an empty object).
pub open spec fn empty_row_info() -> Seq<char> {
    seq!['{', '}']
}

fn empty_row_info_text() -> (s: String)
    ensures
        s@ == empty_row_info(),
{
    let s: String = "{}".to_owned();
    proof {
        reveal_strlit("{}");
        assert("{}"@ =~= empty_row_info());
    }
    s
}

/// Where the `idx`-th row data of the first insertion lands once the second
/// insertion, `offset` rows into it, adds `c2` rows.
pub open spec fn first_info_target(idx: int, offset: u32, c2: u32) -> int {
    if (idx as u32) >= offset {
        wadd(idx as u32, c2) as int
    } else {
        idx
    }
}

/// `acc` with the first `n` row data of the first insertion placed.
pub open spec fn placed_first(acc: Seq<Seq<char>>, info: Seq<Seq<char>>, n: nat, offset: u32, c2: u32) -> Seq<Seq<char>>
    decreases n,
{
    if n == 0 {
        acc
    } else {
        let prev = placed_first(acc, info, (n - 1) as nat, offset, c2);
        let t = first_info_target(n - 1, offset, c2);
        if 0 <= t < prev.len() {
            prev.update(t, info[n - 1])
        } else {
            prev
        }
    }
}

/// `acc` with the first `n` row data of the second insertion placed at `offset`.
pub open spec fn placed_second(acc: Seq<Seq<char>>, info: Seq<Seq<char>>, n: nat, offset: u32) -> Seq<Seq<char>>
    decreases n,
{
    if n == 0 {
        acc
    } else {
        let prev = placed_second(acc, info, (n - 1) as nat, offset);
        let t = offset + (n - 1);
        if t < prev.len() {
            prev.update(t, info[n - 1])
        } else {
            prev
        }
    }
}

pub open spec fn info_or_empty(o: Option<Seq<Seq<char>>>) -> Seq<Seq<char>> {
    match o {
        Some(s) => s,
        None => Seq::empty(),
    }
}

/// The row data of two merged insertions of `c1` and `c2` rows, the second
/// `offset` rows into the first: one entry per row, empty where neither gives
/// one, the second's data at its rows and the first's around them.
pub open spec fn merged_row_info(
    i1: Option<Seq<Seq<char>>>,
    i2: Option<Seq<Seq<char>>>,
    offset: u32,
    c1: u32,
    c2: u32,
) -> Seq<Seq<char>> {
    let base = Seq::new(wadd(c1, c2) as nat, |i: int| empty_row_info());
    let first = placed_first(base, info_or_empty(i1), info_or_empty(i1).len(), offset, c2);
    placed_second(first, info_or_empty(i2), info_or_empty(i2).len(), offset)
}

/// Two consecutive row insertions merged: when the second starts inside the
/// first or right after it, one insertion of both counts with their row data.
pub open spec fn insert_rows_composed(m1: Mutation, m2: Mutation) -> Seq<Mutation> {
    let p1 = range_params_of(m1.params);
    let p2 = range_params_of(m2.params);
    let s1 = p1.range.start_row;
    let c1 = span(s1, p1.range.end_row);
    let s2 = p2.range.start_row;
    let c2 = span(s2, p2.range.end_row);
    if !spec_same_sheet(p1.sheet, p2.sheet) || s2 < s1 || s2 > wadd(s1, c1) {
        seq![m1, m2]
    } else {
        let info = if p1.info is None && p2.info is None {
            None
        } else {
            Some(merged_row_info(p1.info, p2.info, wsub(s2, s1), c1, c2))
        };
        seq![
            with_params_v(
                m1,
                ParamsV::Range(
                    RangeParamsV {
                        sheet: p1.sheet,
                        range: Range {
                            start_row: s1,
                            start_column: p1.range.start_column,
                            end_row: wsub(wadd(wadd(s1, c1), c2), 1),
                            end_column: p1.range.end_column,
                        },
                        info,
                    },
                ),
            ),
        ]
    }
}

fn merge_row_info(
    i1: &Option<Vec<String>>,
    i2: &Option<Vec<String>>,
    offset: u32,
    c1: u32,
    c2: u32,
) -> (r: Vec<String>)
    ensures
        texts_view(r@) == merged_row_info(opt_texts(*i1), opt_texts(*i2), offset, c1, c2),
{
    let total = c1.wrapping_add(c2) as usize;
    let ghost base = Seq::new(wadd(c1, c2) as nat, |i: int| empty_row_info());
    let mut merged: Vec<String> = Vec::new();
    let mut k: usize = 0;
    while k < total
        invariant
            total == wadd(c1, c2),
            base == Seq::new(wadd(c1, c2) as nat, |i: int| empty_row_info()),
            base.len() == total,
            0 <= k <= total,
            texts_view(merged@) == base.subrange(0, k as int),
        decreases total - k,
    {
        let e = empty_row_info_text();
        let ghost before = merged@;
        proof {
            lemma_texts_view_push(before, e);
            assert(base.subrange(0, k + 1) =~= base.subrange(0, k as int).push(empty_row_info()));
        }
        merged.push(e);
        k += 1;
        assert(texts_view(merged@) == texts_view(before).push(e@));
    }
    assert(base.subrange(0, total as int) =~= base);
    let ghost e1 = info_or_empty(opt_texts(*i1));
    let ghost e2 = info_or_empty(opt_texts(*i2));
    match i1 {
        Some(v) => {
            let mut index: usize = 0;
            while index < v.len()
                invariant
                    e1 == texts_view(v@),
                    0 <= index <= v.len(),
                    texts_view(merged@) == placed_first(base, e1, index as nat, offset, c2),
                decreases v.len() - index,
            {
                let idx: u32 = #[verifier::truncate] (index as u32);
                let t: usize = if idx >= offset {
                    idx.wrapping_add(c2) as usize
                } else {
                    index
                };
                assert(t as int == first_info_target(index as int, offset, c2));
                if t < merged.len() {
                    merged.set(t, v[index].clone());
                    assert(texts_view(merged@) =~= placed_first(base, e1, (index + 1) as nat, offset, c2));
                }
                index += 1;
            }
        },
        None => {},
    }
    let ghost after_first = texts_view(merged@);
    assert(after_first == placed_first(base, e1, e1.len(), offset, c2));
    match i2 {
        Some(v) => {
            let mut index: usize = 0;
            while index < v.len()
                invariant
                    e2 == texts_view(v@),
                    0 <= index <= v.len(),
                    texts_view(merged@) == placed_second(after_first, e2, index as nat, offset),
                    merged@.len() == after_first.len(),
                decreases v.len() - index,
            {
                if (offset as usize) <= merged.len() && index < merged.len() - (offset as usize) {
                    let t = (offset as usize) + index;
                    merged.set(t, v[index].clone());
                    assert(texts_view(merged@) =~= placed_second(after_first, e2, (index + 1) as nat, offset));
                }
                index += 1;
            }
        },
        None => {},
    }
    merged
}

/// Executable [`insert_rows_composed`].
fn compose_inserted_rows(m1: &MutationInfo, m2: &MutationInfo) -> (r: Vec<MutationInfo>)
    ensures
        mutations_view(r@) == insert_rows_composed(m1@, m2@),
{
    let p1 = range_params_from(&m1.params);
    let p2 = range_params_from(&m2.params);
    let s1 = p1.range.start_row;
    let c1 = count_of(s1, p1.range.end_row);
    let s2 = p2.range.start_row;
    let c2 = count_of(s2, p2.range.end_row);
    if !same_sheet(&p1.sub_unit, &p2.sub_unit) || s2 < s1 || s2 > s1.wrapping_add(c1) {
        let r = vec![m1.copy(), m2.copy()];
        assert(mutations_view(r@) =~= seq![m1@, m2@]);
        return r;
    }
    let info = if p1.info.is_none() && p2.info.is_none() {
        None
    } else {
        Some(merge_row_info(&p1.info, &p2.info, s2.wrapping_sub(s1), c1, c2))
    };
    let range = Range {
        start_row: s1,
        start_column: p1.range.start_column,
        end_row: s1.wrapping_add(c1).wrapping_add(c2).wrapping_sub(1),
        end_column: p1.range.end_column,
    };
    let composed = m1.with_params(MutationParams::Range(RangeParams { sub_unit: p1.sub_unit, range, info }));
    let r = vec![composed];
    assert(mutations_view(r@) =~= insert_rows_composed(m1@, m2@));
    r
}

impl MutationTransform for InsertRowTransform {
    fn mutation_id() -> (id: &'static str)
        ensures
            id@ == "sheet.mutation.insert-row"@,
    {
        "sheet.mutation.insert-row"
    }

    fn compose(&self, m1: &MutationInfo, m2: &MutationInfo) -> (r: Vec<MutationInfo>)
        ensures
            mutations_view(r@) == insert_rows_composed(m1@, m2@),
    {
        compose_inserted_rows(m1, m2)
    }

    fn transform_with_set_range_values(&self, m1: &MutationInfo, m2: &MutationInfo) -> (r: TransformResult)
        ensures
            r@ == insert_vs_values(m1@, m2@, Axis::Rows),
    {
        reconcile_insert_with_values(m1, m2, Axis::Rows)
    }

    fn transform_with_insert_row(&self, m1: &MutationInfo, m2: &MutationInfo) -> (r: TransformResult)
        ensures
            r@ == inserts_reconciled(m1@, m2@, Axis::Rows, false),
    {
        reconcile_inserts(m1, m2, Axis::Rows, false)
    }

    fn transform_with_remove_rows(&self, m1: &MutationInfo, m2: &MutationInfo) -> (r: TransformResult)
        ensures
            r@ == row_insert_vs_remove(m1@, m2@),
    {
        reconcile_row_insert_with_remove(m1, m2)
    }

    fn transform_with_add_conditional_rule(&self, m1: &MutationInfo, m2: &MutationInfo) -> (r: TransformResult)
        ensures
            r@ == insert_vs_rule(m1@, m2@, Axis::Rows),
    {
        reconcile_insert_with_rule(m1, m2, Axis::Rows)
    }

    fn transform_with_set_conditional_rule(&self, m1: &MutationInfo, m2: &MutationInfo) -> (r: TransformResult)
        ensures
            r@ == insert_vs_rule(m1@, m2@, Axis::Rows),
    {
        reconcile_insert_with_rule(m1, m2, Axis::Rows)
    }

    fn transform_with_delete_conditional_rule(&self, m1: &MutationInfo, m2: &MutationInfo) -> (r: TransformResult)
        ensures
            r@ == insert_vs_rule(m1@, m2@, Axis::Rows),
    {
        reconcile_insert_with_rule(m1, m2, Axis::Rows)
    }

    fn transform_with_move_conditional_rule(&self, m1: &MutationInfo, m2: &MutationInfo) -> (r: TransformResult)
        ensures
            r@ == insert_vs_rule(m1@, m2@, Axis::Rows),
    {
        reconcile_insert_with_rule(m1, m2, Axis::Rows)
    }
}

} // verus!
