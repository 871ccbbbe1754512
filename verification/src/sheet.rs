//! Cell ranges, sheet identity and the index arithmetic of row and column
//! insertion and removal.
//!
//! Coordinates are `u32`. Counts are computed as `end - start + 1` and shifts
//! as `index + count` in wrapping arithmetic, which is how the transforms
//! behave on the target they are built for (overflow checks off); on ordinary
//! sheets no value ever wraps.
use vstd::prelude::*;

verus! {

/// `a + b` modulo 2^32.
pub open spec fn wadd(a: u32, b: u32) -> u32 {
    vstd::wrapping::u32_specs::wrapping_add(a, b)
}

/// `a - b` modulo 2^32.
pub open spec fn wsub(a: u32, b: u32) -> u32 {
    vstd::wrapping::u32_specs::wrapping_sub(a, b)
}

/// Number of indices in `[start, end]`, i.e. `end - start + 1`.
pub open spec fn span(start: u32, end: u32) -> u32 {
    wadd(wsub(end, start), 1)
}

/// Executable `end - start + 1`.
pub fn count_of(start: u32, end: u32) -> (n: u32)
    ensures
        n == span(start, end),
{
    end.wrapping_sub(start).wrapping_add(1)
}

/// A rectangular block of cells; both ends are inclusive.
#[derive(Clone, Copy, Debug, PartialEq, Eq, Structural)]
pub struct Range {
    pub start_row: u32,
    pub start_column: u32,
    pub end_row: u32,
    pub end_column: u32,
}

impl Range {
    /// The range a mutation falls back to when its parameters carry none.
    pub fn zero() -> (r: Range)
        ensures
            r == (Range { start_row: 0, start_column: 0, end_row: 0, end_column: 0 }),
    {
        Range { start_row: 0, start_column: 0, end_row: 0, end_column: 0 }
    }
}

/// The dimension a structural edit works on.
#[derive(Clone, Copy, Debug, PartialEq, Eq, Structural)]
pub enum Axis {
    Rows,
    Columns,
}

pub open spec fn axis_start(r: Range, axis: Axis) -> u32 {
    match axis {
        Axis::Rows => r.start_row,
        Axis::Columns => r.start_column,
    }
}

pub open spec fn axis_end(r: Range, axis: Axis) -> u32 {
    match axis {
        Axis::Rows => r.end_row,
        Axis::Columns => r.end_column,
    }
}

/// `r` with its bounds along `axis` replaced; the other dimension is kept.
pub open spec fn with_axis(r: Range, axis: Axis, start: u32, end: u32) -> Range {
    match axis {
        Axis::Rows => Range {
            start_row: start,
            start_column: r.start_column,
            end_row: end,
            end_column: r.end_column,
        },
        Axis::Columns => Range {
            start_row: r.start_row,
            start_column: start,
            end_row: r.end_row,
            end_column: end,
        },
    }
}

/// Where index `i` goes when `count` lines are inserted before line `start`.
pub open spec fn shift_index_for_insert(i: u32, start: u32, count: u32) -> u32 {
    if i >= start {
        wadd(i, count)
    } else {
        i
    }
}

/// Whether index `i` is one of the removed lines `[rs, re]`.
pub open spec fn index_removed(i: u32, rs: u32, re: u32) -> bool {
    rs <= i && i <= re
}

/// Where a surviving index `i` goes when lines `[rs, re]` are removed.
pub open spec fn shift_index_for_remove(i: u32, rs: u32, re: u32) -> u32 {
    if i > re {
        wsub(i, span(rs, re))
    } else {
        i
    }
}

/// A range after `count` lines are inserted at `start` along `axis`: each
/// bound at or after the insertion point moves by `count`, so an insertion
/// inside the range widens it.
pub open spec fn range_after_insert(r: Range, axis: Axis, start: u32, count: u32) -> Range {
    with_axis(
        r,
        axis,
        shift_index_for_insert(axis_start(r, axis), start, count),
        shift_index_for_insert(axis_end(r, axis), start, count),
    )
}

/// Whether removing lines `[rs, re]` along `axis` removes all of `r`.
pub open spec fn range_removed(r: Range, axis: Axis, rs: u32, re: u32) -> bool {
    rs <= axis_start(r, axis) && axis_end(r, axis) <= re
}

/// New start bound: removed lines collapse onto the first removed line.
pub open spec fn start_after_remove(i: u32, rs: u32, re: u32) -> u32 {
    if i > re {
        wsub(i, span(rs, re))
    } else if i >= rs {
        rs
    } else {
        i
    }
}

/// New end bound: removed lines collapse onto the line before the removal.
pub open spec fn end_after_remove(i: u32, rs: u32, re: u32) -> u32 {
    if i > re {
        wsub(i, span(rs, re))
    } else if i >= rs {
        wsub(rs, 1)
    } else {
        i
    }
}

/// A range that survives the removal of lines `[rs, re]`, shrunk and moved.
pub open spec fn range_after_remove(r: Range, axis: Axis, rs: u32, re: u32) -> Range {
    with_axis(
        r,
        axis,
        start_after_remove(axis_start(r, axis), rs, re),
        end_after_remove(axis_end(r, axis), rs, re),
    )
}

fn shifted_for_insert(i: u32, start: u32, count: u32) -> (j: u32)
    ensures
        j == shift_index_for_insert(i, start, count),
{
    if i >= start {
        i.wrapping_add(count)
    } else {
        i
    }
}

/// Moves `range` for the insertion of `count` lines before line `start`.
pub fn shift_range_for_insert(range: &mut Range, axis: Axis, start: u32, count: u32)
    ensures
        *final(range) == range_after_insert(*old(range), axis, start, count),
{
    match axis {
        Axis::Rows => {
            range.start_row = shifted_for_insert(range.start_row, start, count);
            range.end_row = shifted_for_insert(range.end_row, start, count);
        },
        Axis::Columns => {
            range.start_column = shifted_for_insert(range.start_column, start, count);
            range.end_column = shifted_for_insert(range.end_column, start, count);
        },
    }
}

fn start_for_remove(i: u32, rs: u32, re: u32) -> (j: u32)
    ensures
        j == start_after_remove(i, rs, re),
{
    if i > re {
        i.wrapping_sub(count_of(rs, re))
    } else if i >= rs {
        rs
    } else {
        i
    }
}

fn end_for_remove(i: u32, rs: u32, re: u32) -> (j: u32)
    ensures
        j == end_after_remove(i, rs, re),
{
    if i > re {
        i.wrapping_sub(count_of(rs, re))
    } else if i >= rs {
        rs.wrapping_sub(1)
    } else {
        i
    }
}

/// Adjusts `range` for the removal of lines `[rs, re]`. Returns `false`, and
/// leaves `range` as it was, when the removal takes the whole range.
pub fn shift_range_for_remove(range: &mut Range, axis: Axis, rs: u32, re: u32) -> (kept: bool)
    ensures
        kept == !range_removed(*old(range), axis, rs, re),
        kept ==> *final(range) == range_after_remove(*old(range), axis, rs, re),
        !kept ==> *final(range) == *old(range),
{
    match axis {
        Axis::Rows => {
            if rs <= range.start_row && range.end_row <= re {
                return false;
            }
            range.start_row = start_for_remove(range.start_row, rs, re);
            range.end_row = end_for_remove(range.end_row, rs, re);
        },
        Axis::Columns => {
            if rs <= range.start_column && range.end_column <= re {
                return false;
            }
            range.start_column = start_for_remove(range.start_column, rs, re);
            range.end_column = end_for_remove(range.end_column, rs, re);
        },
    }
    true
}

/// Every range of a list moved for an insertion.
pub open spec fn ranges_after_insert(rs: Seq<Range>, axis: Axis, start: u32, count: u32) -> Seq<
    Range,
> {
    Seq::new(rs.len(), |i: int| range_after_insert(rs[i], axis, start, count))
}

/// The ranges of a list that survive a removal, each adjusted, in order.
pub open spec fn ranges_after_remove(rs: Seq<Range>, axis: Axis, s: u32, e: u32) -> Seq<Range>
    decreases rs.len(),
{
    if rs.len() == 0 {
        Seq::empty()
    } else {
        let prev = ranges_after_remove(rs.drop_last(), axis, s, e);
        if range_removed(rs.last(), axis, s, e) {
            prev
        } else {
            prev.push(range_after_remove(rs.last(), axis, s, e))
        }
    }
}

/// Moves every range of `ranges` for an insertion.
pub fn shift_ranges_for_insert(ranges: &mut Vec<Range>, axis: Axis, start: u32, count: u32)
    ensures
        final(ranges)@ == ranges_after_insert(old(ranges)@, axis, start, count),
{
    let ghost orig = ranges@;
    let n = ranges.len();
    let mut i: usize = 0;
    while i < n
        invariant
            n == orig.len(),
            ranges@.len() == n,
            0 <= i <= n,
            forall|j: int| 0 <= j < i ==> ranges@[j] == range_after_insert(orig[j], axis, start, count),
            forall|j: int| i <= j < n ==> ranges@[j] == orig[j],
        decreases n - i,
    {
        let mut r = ranges[i];
        shift_range_for_insert(&mut r, axis, start, count);
        ranges.set(i, r);
        i += 1;
    }
    assert(ranges@ =~= ranges_after_insert(orig, axis, start, count));
}

/// Keeps the ranges that survive the removal of `[s, e]`, adjusted; returns
/// whether any is left.
pub fn shift_ranges_for_remove(ranges: &mut Vec<Range>, axis: Axis, s: u32, e: u32) -> (any_left: bool)
    ensures
        final(ranges)@ == ranges_after_remove(old(ranges)@, axis, s, e),
        any_left == (final(ranges)@.len() > 0),
{
    let ghost orig = ranges@;
    let mut kept: Vec<Range> = Vec::new();
    let n = ranges.len();
    let mut i: usize = 0;
    while i < n
        invariant
            n == orig.len(),
            ranges@ == orig,
            0 <= i <= n,
            kept@ == ranges_after_remove(orig.subrange(0, i as int), axis, s, e),
        decreases n - i,
    {
        let mut r = ranges[i];
        let survives = shift_range_for_remove(&mut r, axis, s, e);
        assert(orig.subrange(0, i + 1).drop_last() =~= orig.subrange(0, i as int));
        if survives {
            kept.push(r);
        }
        i += 1;
    }
    assert(orig.subrange(0, n as int) =~= orig);
    *ranges = kept;
    ranges.len() > 0
}

/// An exact copy of a list of ranges.
pub fn copy_ranges(v: &Vec<Range>) -> (r: Vec<Range>)
    ensures
        r@ == v@,
{
    let mut r: Vec<Range> = Vec::new();
    let mut i: usize = 0;
    while i < v.len()
        invariant
            0 <= i <= v.len(),
            r@ == v@.subrange(0, i as int),
        decreases v.len() - i,
    {
        r.push(v[i]);
        i += 1;
        assert(r@ =~= v@.subrange(0, i as int));
    }
    assert(v@.subrange(0, v.len() as int) =~= v@);
    r
}

/// Whether two ranges share at least one cell.
pub open spec fn spec_ranges_intersect(r1: Range, r2: Range) -> bool {
    !(r1.end_row < r2.start_row || r1.start_row > r2.end_row || r1.end_column < r2.start_column
        || r1.start_column > r2.end_column)
}

pub fn ranges_intersect(r1: &Range, r2: &Range) -> (b: bool)
    ensures
        b == spec_ranges_intersect(*r1, *r2),
{
    !(r1.end_row < r2.start_row || r1.start_row > r2.end_row || r1.end_column < r2.start_column
        || r1.start_column > r2.end_column)
}

/// Whether some range of `a` intersects some range of `b`.
pub open spec fn any_ranges_intersect(a: Seq<Range>, b: Seq<Range>) -> bool {
    exists|i: int, j: int|
        0 <= i < a.len() && 0 <= j < b.len() && #[trigger] spec_ranges_intersect(a[i], b[j])
}

pub fn any_intersection(a: &Vec<Range>, b: &Vec<Range>) -> (found: bool)
    ensures
        found == any_ranges_intersect(a@, b@),
{
    let mut i: usize = 0;
    while i < a.len()
        invariant
            0 <= i <= a.len(),
            forall|x: int, y: int|
                0 <= x < i && 0 <= y < b@.len() ==> !#[trigger] spec_ranges_intersect(a@[x], b@[y]),
        decreases a.len() - i,
    {
        let mut j: usize = 0;
        while j < b.len()
            invariant
                0 <= i < a.len(),
                0 <= j <= b.len(),
                forall|x: int, y: int|
                    0 <= x < i && 0 <= y < b@.len() ==> !#[trigger] spec_ranges_intersect(a@[x], b@[y]),
                forall|y: int| 0 <= y < j ==> !#[trigger] spec_ranges_intersect(a@[i as int], b@[y]),
            decreases b.len() - j,
        {
            if ranges_intersect(&a[i], &b[j]) {
                return true;
            }
            j += 1;
        }
        i += 1;
    }
    false
}

/// The workbook (`unit_id`) and worksheet (`sub_unit_id`) a mutation targets.
#[derive(Clone, Debug, PartialEq, Eq)]
pub struct SubUnitParams {
    pub unit_id: String,
    pub sub_unit_id: String,
}

/// The text of a sheet identity.
pub struct SheetId {
    pub unit_id: Seq<char>,
    pub sub_unit_id: Seq<char>,
}

impl View for SubUnitParams {
    type V = SheetId;

    open spec fn view(&self) -> SheetId {
        SheetId { unit_id: self.unit_id@, sub_unit_id: self.sub_unit_id@ }
    }
}

impl SubUnitParams {
    /// The identity parameters fall back to when they cannot be read: both ids empty.
    pub fn empty() -> (p: SubUnitParams)
        ensures
            p@.unit_id.len() == 0,
            p@.sub_unit_id.len() == 0,
    {
        SubUnitParams { unit_id: String::new(), sub_unit_id: String::new() }
    }

    pub fn copy(&self) -> (p: SubUnitParams)
        ensures
            p@ == self@,
    {
        SubUnitParams { unit_id: self.unit_id.clone(), sub_unit_id: self.sub_unit_id.clone() }
    }
}

/// Whether two mutations target the same worksheet of the same workbook.
pub open spec fn spec_same_sheet(a: SheetId, b: SheetId) -> bool {
    a.unit_id == b.unit_id && a.sub_unit_id == b.sub_unit_id
}

pub fn same_sheet(params1: &SubUnitParams, params2: &SubUnitParams) -> (b: bool)
    ensures
        b == spec_same_sheet(params1@, params2@),
{
    params1.unit_id == params2.unit_id && params1.sub_unit_id == params2.sub_unit_id
}

/// A theme removal with an empty sheet id applies to the whole workbook.
pub open spec fn spec_same_workbook_or_sheet(m1: SheetId, m2: SheetId) -> bool {
    if m1.sub_unit_id.len() == 0 {
        m1.unit_id == m2.unit_id
    } else {
        spec_same_sheet(m1, m2)
    }
}

pub fn same_workbook_or_sheet(m1: &SubUnitParams, m2: &SubUnitParams) -> (b: bool)
    ensures
        b == spec_same_workbook_or_sheet(m1@, m2@),
{
    if m1.sub_unit_id.as_str().is_empty() {
        m1.unit_id == m2.unit_id
    } else {
        same_sheet(m1, m2)
    }
}

/// Number of lines a range covers along `axis`.
pub open spec fn axis_span(r: Range, axis: Axis) -> u32 {
    span(axis_start(r, axis), axis_end(r, axis))
}

/// `r` moved `n` lines forward along `axis` (both bounds).
pub open spec fn range_moved_forward(r: Range, axis: Axis, n: u32) -> Range {
    with_axis(r, axis, wadd(axis_start(r, axis), n), wadd(axis_end(r, axis), n))
}

/// `r` moved `n` lines back along `axis` (both bounds).
pub open spec fn range_moved_back(r: Range, axis: Axis, n: u32) -> Range {
    with_axis(r, axis, wsub(axis_start(r, axis), n), wsub(axis_end(r, axis), n))
}

/// `r` with its end along `axis` moved `n` lines forward.
pub open spec fn range_end_extended(r: Range, axis: Axis, n: u32) -> Range {
    with_axis(r, axis, axis_start(r, axis), wadd(axis_end(r, axis), n))
}

/// Executable [`axis_span`].
pub fn span_of(r: &Range, axis: Axis) -> (n: u32)
    ensures
        n == axis_span(*r, axis),
{
    match axis {
        Axis::Rows => count_of(r.start_row, r.end_row),
        Axis::Columns => count_of(r.start_column, r.end_column),
    }
}

/// Executable [`range_moved_forward`].
pub fn move_forward(r: Range, axis: Axis, n: u32) -> (m: Range)
    ensures
        m == range_moved_forward(r, axis, n),
{
    let mut m = r;
    match axis {
        Axis::Rows => {
            m.start_row = r.start_row.wrapping_add(n);
            m.end_row = r.end_row.wrapping_add(n);
        },
        Axis::Columns => {
            m.start_column = r.start_column.wrapping_add(n);
            m.end_column = r.end_column.wrapping_add(n);
        },
    }
    m
}

/// Executable [`range_moved_back`].
pub fn move_back(r: Range, axis: Axis, n: u32) -> (m: Range)
    ensures
        m == range_moved_back(r, axis, n),
{
    let mut m = r;
    match axis {
        Axis::Rows => {
            m.start_row = r.start_row.wrapping_sub(n);
            m.end_row = r.end_row.wrapping_sub(n);
        },
        Axis::Columns => {
            m.start_column = r.start_column.wrapping_sub(n);
            m.end_column = r.end_column.wrapping_sub(n);
        },
    }
    m
}

/// Executable [`range_end_extended`].
pub fn extend_end(r: Range, axis: Axis, n: u32) -> (m: Range)
    ensures
        m == range_end_extended(r, axis, n),
{
    let mut m = r;
    match axis {
        Axis::Rows => {
            m.end_row = r.end_row.wrapping_add(n);
        },
        Axis::Columns => {
            m.end_column = r.end_column.wrapping_add(n);
        },
    }
    m
}

/// The start of `r` along `axis`.
pub fn start_of(r: &Range, axis: Axis) -> (s: u32)
    ensures
        s == axis_start(*r, axis),
{
    match axis {
        Axis::Rows => r.start_row,
        Axis::Columns => r.start_column,
    }
}

/// The end of `r` along `axis`.
pub fn end_of(r: &Range, axis: Axis) -> (e: u32)
    ensures
        e == axis_end(*r, axis),
{
    match axis {
        Axis::Rows => r.end_row,
        Axis::Columns => r.end_column,
    }
}

} // verus!
