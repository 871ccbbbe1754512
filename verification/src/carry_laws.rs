//! Properties of what transforms and merges carry along: the per-row data of
//! merged insertions, the lines a move names, the ranges of rules, the
//! elements of a list that a concurrent mutation has passed, and the rules a
//! protection deletion removes.
use vstd::prelude::*;
use crate::sheet::{
    axis_end, axis_span, axis_start, range_after_insert, ranges_after_insert, span, spec_same_sheet, wadd, wsub,
    Axis, Range,
};
use crate::sheets_generic::move_lines_vs_insert;
use crate::structural::insert_vs_rule;
use crate::service::{list_transformed, pass_through, passes, CoreTransform, ListOutcome, Pass};
use crate::sheets_mutations::discarding::{
    added_rule_ids_of, deletion_vs_added_protection, deletion_vs_set_protection, rule_ids_of,
    set_rule_id_of,
};
use crate::insert_row::{
    empty_row_info, first_info_target, info_or_empty, insert_rows_composed, merged_row_info,
    placed_first, placed_second,
};
use crate::mutation::{move_rows_cols_of, range_params_of, sheet_of, Mutation, ParamsV};

verus! {

// ---------------------------------------------------------------------------
// Row data of merged insertions
// ---------------------------------------------------------------------------
/// Whether the `t`-th merged row holds a datum of the first insertion (placed
/// before the second insertion's rows, or after them).
pub open spec fn first_covers(t: int, n: int, offset: int, c2: int) -> bool {
    ||| (t < offset && t < n)
    ||| (t >= offset + c2 && t - c2 < n)
}

/// The index in the first insertion's data of the datum on merged row `t`.
pub open spec fn first_source(t: int, offset: int, c2: int) -> int {
    if t < offset {
        t
    } else {
        t - c2
    }
}

proof fn lemma_placed_first(acc: Seq<Seq<char>>, info: Seq<Seq<char>>, n: nat, offset: u32, c1: u32, c2: u32)
    requires
        n <= info.len(),
        info.len() <= c1,
        offset <= c1,
        c1 + c2 <= u32::MAX,
        acc.len() == c1 + c2,
    ensures
        placed_first(acc, info, n, offset, c2).len() == acc.len(),
        forall|t: int| 0 <= t < acc.len() ==> #[trigger] placed_first(acc, info, n, offset, c2)[t] == if first_covers(t, n as int, offset as int, c2 as int) {
            info[first_source(t, offset as int, c2 as int)]
        } else {
            acc[t]
        },
    decreases n,
{
    if n > 0 {
        lemma_placed_first(acc, info, (n - 1) as nat, offset, c1, c2);
        let idx = n - 1;
        assert(idx < c1);
        let t0 = first_info_target(idx, offset, c2);
        if (idx as u32) >= offset {
            assert(wadd(idx as u32, c2) == idx + c2);
        }
        assert(0 <= t0 < acc.len());
    }
}

proof fn lemma_placed_second(acc: Seq<Seq<char>>, info: Seq<Seq<char>>, n: nat, offset: u32)
    requires
        n <= info.len(),
        offset + info.len() <= acc.len(),
    ensures
        placed_second(acc, info, n, offset).len() == acc.len(),
        forall|t: int| 0 <= t < acc.len() ==> #[trigger] placed_second(acc, info, n, offset)[t] == if offset <= t < offset + n {
            info[t - offset]
        } else {
            acc[t]
        },
    decreases n,
{
    if n > 0 {
        lemma_placed_second(acc, info, (n - 1) as nat, offset);
    }
}

/// The row data `r` of two merged insertions keep every datum on the row it
/// lands on when the insertions (of `c1` rows with data `i1`, then of `c2`
/// rows with data `i2`, `offset` rows into the first) are applied in turn:
/// the first's data before the offset stay, the second's data fill its rows,
/// the first's data from the offset on move past them, and every other row
/// has the empty datum.
pub open spec fn keeps_row_data(r: Seq<Seq<char>>, i1: Seq<Seq<char>>, i2: Seq<Seq<char>>, offset: int, c1: int, c2: int) -> bool {
    &&& r.len() == c1 + c2
    &&& forall|i: int| 0 <= i < offset && i < i1.len() ==> #[trigger] r[i] == i1[i]
    &&& forall|j: int| 0 <= j < i2.len() ==> #[trigger] r[offset + j] == i2[j]
    &&& forall|i: int| offset <= i < i1.len() ==> #[trigger] r[i + c2] == i1[i]
    &&& forall|t: int| 0 <= t < c1 + c2
        && !(t < offset && t < i1.len())
        && !(offset <= t < offset + i2.len())
        && !(offset + c2 <= t && t - c2 < i1.len()) ==> #[trigger] r[t] == empty_row_info()
}

/// Merging the row data of two insertions keeps every datum on its row (see
/// [`keeps_row_data`]; a missing list counts as no data). Each insertion
/// gives at most one datum per inserted row.
pub proof fn law_merged_row_info_keeps_every_datum(o1: Option<Seq<Seq<char>>>, o2: Option<Seq<Seq<char>>>, offset: u32, c1: u32, c2: u32)
    requires
        offset <= c1,
        c1 + c2 <= u32::MAX,
        info_or_empty(o1).len() <= c1,
        info_or_empty(o2).len() <= c2,
    ensures
        keeps_row_data(merged_row_info(o1, o2, offset, c1, c2), info_or_empty(o1), info_or_empty(o2), offset as int, c1 as int, c2 as int),
{
    let i1 = info_or_empty(o1);
    let i2 = info_or_empty(o2);
    let base = Seq::new(wadd(c1, c2) as nat, |i: int| empty_row_info());
    assert(wadd(c1, c2) == c1 + c2);
    lemma_placed_first(base, i1, i1.len(), offset, c1, c2);
    let first = placed_first(base, i1, i1.len(), offset, c2);
    lemma_placed_second(first, i2, i2.len(), offset);
    let r = merged_row_info(o1, o2, offset, c1, c2);
    assert(r == placed_second(first, i2, i2.len(), offset));
    assert forall|i: int| offset <= i < i1.len() implies #[trigger] r[i + c2] == i1[i] by {
        assert(first_covers(i + c2, i1.len() as int, offset as int, c2 as int));
        assert(first_source(i + c2, offset as int, c2 as int) == i);
    }
    assert forall|i: int| 0 <= i < offset && i < i1.len() implies #[trigger] r[i] == i1[i] by {
        assert(first_covers(i, i1.len() as int, offset as int, c2 as int));
    }
    assert forall|j: int| 0 <= j < i2.len() implies #[trigger] r[offset + j] == i2[j] by {
        assert(offset <= offset + j < offset + i2.len());
    }
}

/// Two row insertions on one sheet, the second starting inside the first or
/// right after it, merge into one insertion of all their rows that keeps every
/// row datum on its row (see [`keeps_row_data`]), when either gives data.
pub proof fn law_composed_row_inserts_keep_row_data(m1: Mutation, m2: Mutation)
    requires
        m1.params is Range,
        m2.params is Range,
        spec_same_sheet(range_params_of(m1.params).sheet, range_params_of(m2.params).sheet),
        range_params_of(m1.params).range.start_row <= range_params_of(m1.params).range.end_row,
        range_params_of(m2.params).range.start_row <= range_params_of(m2.params).range.end_row,
        range_params_of(m1.params).range.start_row <= range_params_of(m2.params).range.start_row
            <= range_params_of(m1.params).range.end_row + 1,
        range_params_of(m1.params).range.end_row + 1 + (range_params_of(m2.params).range.end_row
            - range_params_of(m2.params).range.start_row + 1) <= u32::MAX,
        info_or_empty(range_params_of(m1.params).info).len() <= range_params_of(m1.params).range.end_row
            - range_params_of(m1.params).range.start_row + 1,
        info_or_empty(range_params_of(m2.params).info).len() <= range_params_of(m2.params).range.end_row
            - range_params_of(m2.params).range.start_row + 1,
        range_params_of(m1.params).info is Some || range_params_of(m2.params).info is Some,
    ensures
        ({
            let p1 = range_params_of(m1.params);
            let p2 = range_params_of(m2.params);
            let c1 = p1.range.end_row - p1.range.start_row + 1;
            let c2 = p2.range.end_row - p2.range.start_row + 1;
            let merged = insert_rows_composed(m1, m2);
            &&& merged.len() == 1
            &&& range_params_of(merged[0].params).range.start_row == p1.range.start_row
            &&& range_params_of(merged[0].params).range.end_row == p1.range.start_row + c1 + c2 - 1
            &&& range_params_of(merged[0].params).info is Some
            &&& keeps_row_data(
                range_params_of(merged[0].params).info->0,
                info_or_empty(p1.info),
                info_or_empty(p2.info),
                p2.range.start_row - p1.range.start_row,
                c1,
                c2,
            )
        }),
{
    let p1 = range_params_of(m1.params);
    let p2 = range_params_of(m2.params);
    let s1 = p1.range.start_row;
    let s2 = p2.range.start_row;
    let c1 = span(s1, p1.range.end_row);
    let c2 = span(s2, p2.range.end_row);
    assert(c1 == p1.range.end_row - s1 + 1);
    assert(c2 == p2.range.end_row - s2 + 1);
    assert(wadd(s1, c1) == s1 + c1);
    assert(wsub(s2, s1) == s2 - s1);
    law_merged_row_info_keeps_every_datum(p1.info, p2.info, wsub(s2, s1), c1, c2);
}

// ---------------------------------------------------------------------------
// Ranges carried through an insertion
// ---------------------------------------------------------------------------
/// A bound (first or last line) after `n` lines are inserted before line `s`:
/// at or after `s` it moves by `n`, before `s` it stays.
pub open spec fn bound_after_insertion(b: int, s: int, n: int) -> int {
    if b >= s {
        b + n
    } else {
        b
    }
}

/// `after` is `before` once `n` lines are inserted before line `s` along
/// `axis`: both of its bounds along `axis` move as the sheet moves them, so
/// it names the same lines; the other dimension is kept.
pub open spec fn follows_insertion(before: Range, after: Range, axis: Axis, s: int, n: int) -> bool {
    match axis {
        Axis::Rows => {
            &&& after.start_row == bound_after_insertion(before.start_row as int, s, n)
            &&& after.end_row == bound_after_insertion(before.end_row as int, s, n)
            &&& after.start_column == before.start_column
            &&& after.end_column == before.end_column
        },
        Axis::Columns => {
            &&& after.start_column == bound_after_insertion(before.start_column as int, s, n)
            &&& after.end_column == bound_after_insertion(before.end_column as int, s, n)
            &&& after.start_row == before.start_row
            &&& after.end_row == before.end_row
        },
    }
}

/// The bounds of `r` along `axis` can move by `n` within the `u32` range.
pub open spec fn fits_after(r: Range, axis: Axis, n: int) -> bool {
    axis_end(r, axis) + n <= u32::MAX && axis_start(r, axis) + n <= u32::MAX
}

proof fn lemma_range_follows_insertion(r: Range, axis: Axis, s: u32, n: u32)
    requires
        fits_after(r, axis, n as int),
    ensures
        follows_insertion(r, range_after_insert(r, axis, s, n), axis, s as int, n as int),
{
}

/// A move of lines transformed against a concurrent insertion of lines along
/// its axis on its sheet rewrites both its source and its target as the
/// sheet moves them, so the move still names the same lines; the insertion
/// is kept as it is.
pub proof fn law_moved_lines_follow_insertion(m1: Mutation, m2: Mutation, axis: Axis)
    requires
        spec_same_sheet(move_rows_cols_of(m1.params).sheet, range_params_of(m2.params).sheet),
        axis_start(range_params_of(m2.params).range, axis) <= axis_end(range_params_of(m2.params).range, axis),
        count_along(m2, axis) <= u32::MAX,
        fits_after(move_rows_cols_of(m1.params).source_range, axis, count_along(m2, axis)),
        fits_after(move_rows_cols_of(m1.params).target_range, axis, count_along(m2, axis)),
    ensures
        ({
            let o = move_lines_vs_insert(m1, m2, axis);
            let p = move_rows_cols_of(m1.params);
            let s = axis_start(range_params_of(m2.params).range, axis) as int;
            let n = count_along(m2, axis);
            &&& o.error is None
            &&& o.m2_prime == Some(m2)
            &&& o.m1_prime is Some
            &&& o.m1_prime->0.id == m1.id
            &&& o.m1_prime->0.params is MoveRowsCols
            &&& move_rows_cols_of(o.m1_prime->0.params).sheet == p.sheet
            &&& follows_insertion(p.source_range, move_rows_cols_of(o.m1_prime->0.params).source_range, axis, s, n)
            &&& follows_insertion(p.target_range, move_rows_cols_of(o.m1_prime->0.params).target_range, axis, s, n)
        }),
{
    let p = move_rows_cols_of(m1.params);
    let q = range_params_of(m2.params);
    let s = axis_start(q.range, axis);
    let c = axis_span(q.range, axis);
    assert(c == count_along(m2, axis));
    lemma_range_follows_insertion(p.source_range, axis, s, c);
    lemma_range_follows_insertion(p.target_range, axis, s, c);
}

/// The number of lines an insertion or removal covers along `axis`.
pub open spec fn count_along(m: Mutation, axis: Axis) -> int {
    axis_end(range_params_of(m.params).range, axis) - axis_start(range_params_of(m.params).range, axis) + 1
}

/// The ranges of the rule of a mutation that carries one, if any.
pub open spec fn rule_ranges(m: Mutation) -> Option<Seq<Range>> {
    match m.params {
        ParamsV::Rule(p) => match p.rule {
            Some(r) => r.ranges,
            None => None,
        },
        _ => None,
    }
}

/// A rule (of a conditional format or a data validation) transformed against
/// a concurrent insertion of lines on its sheet keeps all its ranges, each
/// rewritten as the sheet moves it: the insertion point is the first inserted
/// line, so a range wholly at or after it keeps its size and moves by the
/// number of inserted lines, a range before it stays, and a range across it
/// grows. The rest of the rule and the insertion are kept.
pub proof fn law_rule_ranges_follow_insertion(m1: Mutation, m2: Mutation, axis: Axis)
    requires
        m2.params is Rule,
        spec_same_sheet(range_params_of(m1.params).sheet, m2.params->Rule_0.sheet),
        axis_start(range_params_of(m1.params).range, axis) <= axis_end(range_params_of(m1.params).range, axis),
        count_along(m1, axis) <= u32::MAX,
        rule_ranges(m2) is Some,
        forall|k: int| 0 <= k < rule_ranges(m2)->0.len() ==> fits_after(#[trigger] rule_ranges(m2)->0[k], axis, count_along(m1, axis)),
    ensures
        ({
            let o = insert_vs_rule(m1, m2, axis);
            let rs = rule_ranges(m2)->0;
            let s = axis_start(range_params_of(m1.params).range, axis) as int;
            let n = count_along(m1, axis);
            &&& o.error is None
            &&& o.m1_prime == Some(m1)
            &&& o.m2_prime is Some
            &&& o.m2_prime->0.id == m2.id
            &&& o.m2_prime->0.params is Rule
            &&& o.m2_prime->0.params->Rule_0.sheet == m2.params->Rule_0.sheet
            &&& o.m2_prime->0.params->Rule_0.rule is Some
            &&& o.m2_prime->0.params->Rule_0.rule->0.extra == m2.params->Rule_0.rule->0.extra
            &&& rule_ranges(o.m2_prime->0) is Some
            &&& rule_ranges(o.m2_prime->0)->0.len() == rs.len()
            &&& forall|k: int| 0 <= k < rs.len() ==> follows_insertion(rs[k], #[trigger] rule_ranges(o.m2_prime->0)->0[k], axis, s, n)
        }),
{
    let p1 = range_params_of(m1.params);
    let s = axis_start(p1.range, axis);
    let c = axis_span(p1.range, axis);
    assert(c == count_along(m1, axis));
    let rs = rule_ranges(m2)->0;
    let after = ranges_after_insert(rs, axis, s, c);
    assert forall|k: int| 0 <= k < rs.len() implies follows_insertion(rs[k], #[trigger] after[k], axis, s as int, c as int) by {
        lemma_range_follows_insertion(rs[k], axis, s, c);
    }
}

// ---------------------------------------------------------------------------
// Lists: what a concurrent mutation has passed
// ---------------------------------------------------------------------------
/// Once a concurrent mutation passing through a list is dropped (by the
/// transform of the `k`-th element, without an error), the rest of the list
/// is kept element for element, unchanged and in order, after the rewritten
/// first `k` elements.
pub proof fn law_pass_keeps_the_rest(reg: Seq<CoreTransform>, m1s: Seq<Mutation>, m2: Option<Mutation>, k: int)
    requires
        0 <= k <= m1s.len(),
        pass_through(reg, m1s.take(k), m2).error is None,
        pass_through(reg, m1s.take(k), m2).carried is None,
    ensures
        pass_through(reg, m1s, m2) == (Pass {
            list: pass_through(reg, m1s.take(k), m2).list + m1s.skip(k),
            carried: None,
            error: None,
        }),
    decreases m1s.len(),
{
    if m1s.len() == k {
        assert(m1s.take(k) =~= m1s);
        assert(m1s.skip(k) =~= Seq::<Mutation>::empty());
        assert(pass_through(reg, m1s.take(k), m2).list + m1s.skip(k) =~= pass_through(reg, m1s.take(k), m2).list);
    } else {
        let d = m1s.drop_last();
        assert(d.take(k) =~= m1s.take(k));
        law_pass_keeps_the_rest(reg, d, m2, k);
        let head = pass_through(reg, m1s.take(k), m2).list;
        assert(head + m1s.skip(k) =~= (head + d.skip(k)).push(m1s.last()));
    }
}

/// Transforming a list against one concurrent mutation that the `k`-th
/// element's transform drops (without an error) keeps the rest of the list
/// after it unchanged and in order, and leaves nothing of the concurrent
/// mutation.
pub proof fn law_list_keeps_elements_after_a_drop(reg: Seq<CoreTransform>, m1s: Seq<Mutation>, m2: Mutation, k: int)
    requires
        0 <= k <= m1s.len(),
        pass_through(reg, m1s.take(k), Some(m2)).error is None,
        pass_through(reg, m1s.take(k), Some(m2)).carried is None,
    ensures
        list_transformed(reg, m1s, seq![m2]).error is None,
        list_transformed(reg, m1s, seq![m2]).m1_primes == pass_through(reg, m1s.take(k), Some(m2)).list + m1s.skip(k),
        list_transformed(reg, m1s, seq![m2]).m2_primes == Seq::<Mutation>::empty(),
{
    law_pass_keeps_the_rest(reg, m1s, Some(m2), k);
    if m1s.len() == 0 {
        assert(m1s.take(k) =~= Seq::<Mutation>::empty());
    } else {
        let m2s = seq![m2];
        let none = Seq::<Mutation>::empty();
        assert(m2s.drop_last() =~= none);
        assert(m2s.last() == m2);
        let prev = passes(reg, m1s, none);
        assert(prev == ListOutcome { m1_primes: m1s, m2_primes: none, error: None });
        let p = pass_through(reg, m1s, Some(m2));
        assert(p.error is None && p.carried is None);
        assert(passes(reg, m1s, m2s) == ListOutcome { m1_primes: p.list, m2_primes: none, error: None });
    }
}

// ---------------------------------------------------------------------------
// Protection rules deleted
// ---------------------------------------------------------------------------
/// A deletion of protection rules against a concurrent addition of rules on
/// its sheet: the addition is dropped exactly when one of the rules it adds
/// has an id among the deleted ids (wherever in that list), and is kept as it
/// is otherwise; the deletion is always kept.
pub proof fn law_deleted_rules_are_not_added_back(m1: Mutation, m2: Mutation)
    requires
        spec_same_sheet(sheet_of(m1.params), sheet_of(m2.params)),
    ensures
        ({
            let o = deletion_vs_added_protection(m1, m2);
            let ids = rule_ids_of(m1.params);
            let added = added_rule_ids_of(m2.params);
            &&& o.error is None
            &&& o.m1_prime == Some(m1)
            &&& (o.m2_prime is None) <==> (exists|j: int, k: int|
                0 <= j < added.len() && 0 <= k < ids.len() && #[trigger] added[j] == Some(#[trigger] ids[k]))
            &&& o.m2_prime is Some ==> o.m2_prime == Some(m2)
        }),
{
    let ids = rule_ids_of(m1.params);
    let added = added_rule_ids_of(m2.params);
    if exists|j: int, k: int| 0 <= j < added.len() && 0 <= k < ids.len() && #[trigger] added[j] == Some(#[trigger] ids[k]) {
        let (j, k) = choose|j: int, k: int| 0 <= j < added.len() && 0 <= k < ids.len() && #[trigger] added[j] == Some(#[trigger] ids[k]);
        assert(added[j] is Some && ids.contains(added[j]->0));
    }
    if exists|j: int| 0 <= j < added.len() && (#[trigger] added[j]) is Some && ids.contains(added[j]->0) {
        let j = choose|j: int| 0 <= j < added.len() && (#[trigger] added[j]) is Some && ids.contains(added[j]->0);
        let k = choose|k: int| 0 <= k < ids.len() && ids[k] == added[j]->0;
        assert(added[j] == Some(ids[k]));
    }
}

/// A deletion of protection rules against a concurrent change of one rule on
/// its sheet: the change is dropped exactly when its rule id is among the
/// deleted ids, and kept as it is otherwise; the deletion is always kept.
pub proof fn law_deleted_rules_are_not_changed(m1: Mutation, m2: Mutation)
    requires
        spec_same_sheet(sheet_of(m1.params), sheet_of(m2.params)),
    ensures
        ({
            let o = deletion_vs_set_protection(m1, m2);
            let ids = rule_ids_of(m1.params);
            &&& o.error is None
            &&& o.m1_prime == Some(m1)
            &&& (o.m2_prime is None) <==> (exists|k: int|
                0 <= k < ids.len() && set_rule_id_of(m2.params) == Some(#[trigger] ids[k]))
            &&& o.m2_prime is Some ==> o.m2_prime == Some(m2)
        }),
{
    let ids = rule_ids_of(m1.params);
    if let Some(id) = set_rule_id_of(m2.params) {
        if ids.contains(id) {
            let k = choose|k: int| 0 <= k < ids.len() && ids[k] == id;
            assert(set_rule_id_of(m2.params) == Some(ids[k]));
        }
    }
}

} // verus!
