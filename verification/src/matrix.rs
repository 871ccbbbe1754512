//! Index-keyed data carried by mutations: row/column keyed maps (row heights,
//! reorder maps, row data) and cell matrices (`row -> column -> cell`).
//!
//! A map is kept as the list of its entries in the order they are read. A key
//! is either a line index or some other name; names are never shifted. When a
//! list is turned back into a map, a later entry with the same key replaces an
//! earlier one. Cell contents are opaque JSON texts.
use vstd::prelude::*;
use crate::sheet::{count_of, index_removed, shift_index_for_insert, shift_index_for_remove};

verus! {

/// The key of a map entry.
#[derive(Clone, Debug, PartialEq, Eq)]
pub enum IndexKey {
    /// A key that reads as a line (row or column) number.
    Index(u32),
    /// Any other key; it is carried through unchanged.
    Name(String),
}

/// The value of an [`IndexKey`].
#[verifier::ext_equal]
pub enum Key {
    Index(u32),
    Name(Seq<char>),
}

impl View for IndexKey {
    type V = Key;

    open spec fn view(&self) -> Key {
        match self {
            IndexKey::Index(n) => Key::Index(*n),
            IndexKey::Name(s) => Key::Name(s@),
        }
    }
}

impl IndexKey {
    pub fn copy(&self) -> (k: IndexKey)
        ensures
            k@ == self@,
    {
        match self {
            IndexKey::Index(n) => IndexKey::Index(*n),
            IndexKey::Name(s) => IndexKey::Name(s.clone()),
        }
    }
}

pub fn key_eq(a: &IndexKey, b: &IndexKey) -> (r: bool)
    ensures
        r == (a@ == b@),
{
    match (a, b) {
        (IndexKey::Index(x), IndexKey::Index(y)) => *x == *y,
        (IndexKey::Name(x), IndexKey::Name(y)) => *x == *y,
        _ => false,
    }
}

/// A key after `count` lines are inserted before line `start`.
pub open spec fn key_after_insert(k: Key, start: u32, count: u32) -> Key {
    match k {
        Key::Index(n) => Key::Index(shift_index_for_insert(n, start, count)),
        Key::Name(_) => k,
    }
}

/// Whether a key names one of the removed lines `[rs, re]`.
pub open spec fn key_removed(k: Key, rs: u32, re: u32) -> bool {
    match k {
        Key::Index(n) => index_removed(n, rs, re),
        Key::Name(_) => false,
    }
}

/// A surviving key after lines `[rs, re]` are removed.
pub open spec fn key_after_remove(k: Key, rs: u32, re: u32) -> Key {
    match k {
        Key::Index(n) => Key::Index(shift_index_for_remove(n, rs, re)),
        Key::Name(_) => k,
    }
}

/// Entries with their keys moved for an insertion; values untouched.
pub open spec fn entries_after_insert<V>(s: Seq<(Key, V)>, start: u32, count: u32) -> Seq<(Key, V)> {
    Seq::new(s.len(), |i: int| (key_after_insert(s[i].0, start, count), s[i].1))
}

/// Entries of removed lines dropped, the others re-keyed, in order.
pub open spec fn entries_after_remove<V>(s: Seq<(Key, V)>, rs: u32, re: u32) -> Seq<(Key, V)>
    decreases s.len(),
{
    if s.len() == 0 {
        Seq::empty()
    } else {
        let prev = entries_after_remove(s.drop_last(), rs, re);
        if key_removed(s.last().0, rs, re) {
            prev
        } else {
            prev.push((key_after_remove(s.last().0, rs, re), s.last().1))
        }
    }
}

fn key_for_insert(k: &IndexKey, start: u32, count: u32) -> (r: IndexKey)
    ensures
        r@ == key_after_insert(k@, start, count),
{
    match k {
        IndexKey::Index(n) => IndexKey::Index(if *n >= start {
            n.wrapping_add(count)
        } else {
            *n
        }),
        IndexKey::Name(s) => IndexKey::Name(s.clone()),
    }
}

fn is_key_removed(k: &IndexKey, rs: u32, re: u32) -> (r: bool)
    ensures
        r == key_removed(k@, rs, re),
{
    match k {
        IndexKey::Index(n) => rs <= *n && *n <= re,
        IndexKey::Name(_) => false,
    }
}

fn key_for_remove(k: &IndexKey, rs: u32, re: u32) -> (r: IndexKey)
    ensures
        r@ == key_after_remove(k@, rs, re),
{
    match k {
        IndexKey::Index(n) => IndexKey::Index(if *n > re {
            n.wrapping_sub(count_of(rs, re))
        } else {
            *n
        }),
        IndexKey::Name(s) => IndexKey::Name(s.clone()),
    }
}

/// One entry of an index-keyed map; the value is a JSON text.
#[derive(Clone, Debug, PartialEq, Eq)]
pub struct IndexEntry {
    pub key: IndexKey,
    pub value: String,
}

/// A map keyed by line numbers (row heights, row data, reorder maps, the
/// cells of one matrix row).
#[derive(Clone, Debug, PartialEq, Eq)]
pub struct IndexMap {
    pub entries: Vec<IndexEntry>,
}

pub open spec fn entries_view(v: Seq<IndexEntry>) -> Seq<(Key, Seq<char>)> {
    Seq::new(v.len(), |i: int| (v[i].key@, v[i].value@))
}

pub proof fn lemma_entries_view_push(v: Seq<IndexEntry>, e: IndexEntry)
    ensures
        entries_view(v.push(e)) == entries_view(v).push((e.key@, e.value@)),
{
    assert(entries_view(v.push(e)) =~= entries_view(v).push((e.key@, e.value@)));
}

impl View for IndexMap {
    type V = Seq<(Key, Seq<char>)>;

    open spec fn view(&self) -> Seq<(Key, Seq<char>)> {
        entries_view(self.entries@)
    }
}

impl IndexMap {
    pub fn new() -> (m: IndexMap)
        ensures
            m@.len() == 0,
    {
        IndexMap { entries: Vec::new() }
    }

    pub fn copy(&self) -> (m: IndexMap)
        ensures
            m@ == self@,
    {
        let mut out: Vec<IndexEntry> = Vec::new();
        let mut i: usize = 0;
        while i < self.entries.len()
            invariant
                0 <= i <= self.entries.len(),
                entries_view(out@) == entries_view(self.entries@).subrange(0, i as int),
            decreases self.entries.len() - i,
        {
            let e = &self.entries[i];
            let pushed = IndexEntry { key: e.key.copy(), value: e.value.clone() };
            let ghost before = out@;
            proof { lemma_entries_view_push(before, pushed); }
            out.push(pushed);
            i += 1;
            assert(entries_view(out@) =~= entries_view(self.entries@).subrange(0, i as int));
        }
        assert(entries_view(self.entries@).subrange(0, i as int) =~= entries_view(self.entries@));
        IndexMap { entries: out }
    }

    /// The map with its line keys moved for an insertion.
    pub fn shifted_for_insert(&self, start: u32, count: u32) -> (m: IndexMap)
        ensures
            m@ == entries_after_insert(self@, start, count),
    {
        let mut out: Vec<IndexEntry> = Vec::new();
        let mut i: usize = 0;
        while i < self.entries.len()
            invariant
                0 <= i <= self.entries.len(),
                entries_view(out@) == entries_after_insert(self@, start, count).subrange(
                    0,
                    i as int,
                ),
            decreases self.entries.len() - i,
        {
            let e = &self.entries[i];
            let pushed = IndexEntry { key: key_for_insert(&e.key, start, count), value: e.value.clone() };
            let ghost before = out@;
            proof { lemma_entries_view_push(before, pushed); }
            out.push(pushed);
            i += 1;
            assert(entries_view(out@) =~= entries_after_insert(self@, start, count).subrange(
                0,
                i as int,
            ));
        }
        assert(entries_after_insert(self@, start, count).subrange(0, i as int)
            =~= entries_after_insert(self@, start, count));
        IndexMap { entries: out }
    }

    /// The map without the entries of lines `[rs, re]`, later lines re-keyed.
    pub fn shifted_for_remove(&self, rs: u32, re: u32) -> (m: IndexMap)
        ensures
            m@ == entries_after_remove(self@, rs, re),
    {
        let mut out: Vec<IndexEntry> = Vec::new();
        let mut i: usize = 0;
        while i < self.entries.len()
            invariant
                0 <= i <= self.entries.len(),
                entries_view(out@) == entries_after_remove(self@.subrange(0, i as int), rs, re),
            decreases self.entries.len() - i,
        {
            let e = &self.entries[i];
            assert(self@.subrange(0, i + 1).drop_last() =~= self@.subrange(0, i as int));
            if !is_key_removed(&e.key, rs, re) {
                let pushed = IndexEntry { key: key_for_remove(&e.key, rs, re), value: e.value.clone() };
                let ghost before = out@;
                proof { lemma_entries_view_push(before, pushed); }
                out.push(pushed);
                assert(entries_view(out@) =~= entries_after_remove(
                    self@.subrange(0, i + 1),
                    rs,
                    re,
                ));
            }
            i += 1;
        }
        assert(self@.subrange(0, i as int) =~= self@);
        IndexMap { entries: out }
    }

    /// Whether some entry has key `k`.
    pub fn contains_key(&self, k: &IndexKey) -> (b: bool)
        ensures
            b == has_key(self@, k@),
    {
        let mut i: usize = 0;
        while i < self.entries.len()
            invariant
                0 <= i <= self.entries.len(),
                forall|j: int| #![trigger self@[j]] 0 <= j < i ==> self@[j].0 != k@,
            decreases self.entries.len() - i,
        {
            if key_eq(&self.entries[i].key, k) {
                assert(self@[i as int].0 == k@);
                return true;
            }
            i += 1;
        }
        false
    }
}

/// The value stored under one row key of a cell matrix.
#[derive(Clone, Debug, PartialEq, Eq)]
pub enum RowValue {
    /// The cells of the row, keyed by column.
    Cells(IndexMap),
    /// A row value that is not an object (JSON text); carried through.
    Other(String),
}

/// The value of a [`RowValue`].
#[verifier::ext_equal]
pub enum Row {
    Cells(Seq<(Key, Seq<char>)>),
    Other(Seq<char>),
}

impl View for RowValue {
    type V = Row;

    open spec fn view(&self) -> Row {
        match self {
            RowValue::Cells(m) => Row::Cells(m@),
            RowValue::Other(s) => Row::Other(s@),
        }
    }
}

impl RowValue {
    pub fn copy(&self) -> (r: RowValue)
        ensures
            r@ == self@,
    {
        match self {
            RowValue::Cells(m) => RowValue::Cells(m.copy()),
            RowValue::Other(s) => RowValue::Other(s.clone()),
        }
    }
}

/// One row of a cell matrix.
#[derive(Clone, Debug, PartialEq, Eq)]
pub struct RowEntry {
    pub key: IndexKey,
    pub value: RowValue,
}

/// Cell values keyed by row, then by column (`{"2": {"0": {...}}}`).
#[derive(Clone, Debug, PartialEq, Eq)]
pub struct CellMatrix {
    pub rows: Vec<RowEntry>,
}

pub open spec fn rows_view(v: Seq<RowEntry>) -> Seq<(Key, Row)> {
    Seq::new(v.len(), |i: int| (v[i].key@, v[i].value@))
}

pub proof fn lemma_rows_view_push(v: Seq<RowEntry>, e: RowEntry)
    ensures
        rows_view(v.push(e)) == rows_view(v).push((e.key@, e.value@)),
{
    assert(rows_view(v.push(e)) =~= rows_view(v).push((e.key@, e.value@)));
}

impl View for CellMatrix {
    type V = Seq<(Key, Row)>;

    open spec fn view(&self) -> Seq<(Key, Row)> {
        rows_view(self.rows@)
    }
}

/// Rows whose cells are moved for a column insertion. A row whose cell map is
/// empty is dropped; a row that is not a cell map is kept as it is.
pub open spec fn cols_after_insert(rows: Seq<(Key, Row)>, start: u32, count: u32) -> Seq<(Key, Row)>
    decreases rows.len(),
{
    if rows.len() == 0 {
        Seq::empty()
    } else {
        let prev = cols_after_insert(rows.drop_last(), start, count);
        match rows.last().1 {
            Row::Cells(c) => if c.len() == 0 {
                prev
            } else {
                prev.push((rows.last().0, Row::Cells(entries_after_insert(c, start, count))))
            },
            Row::Other(_) => prev.push(rows.last()),
        }
    }
}

/// Rows whose cells of the removed columns are dropped and the others
/// re-keyed; a row left without cells is dropped.
pub open spec fn cols_after_remove(rows: Seq<(Key, Row)>, rs: u32, re: u32) -> Seq<(Key, Row)>
    decreases rows.len(),
{
    if rows.len() == 0 {
        Seq::empty()
    } else {
        let prev = cols_after_remove(rows.drop_last(), rs, re);
        match rows.last().1 {
            Row::Cells(c) => if entries_after_remove(c, rs, re).len() == 0 {
                prev
            } else {
                prev.push((rows.last().0, Row::Cells(entries_after_remove(c, rs, re))))
            },
            Row::Other(_) => prev.push(rows.last()),
        }
    }
}

/// Whether some entry of `entries` has key `k`.
pub open spec fn has_key<V>(entries: Seq<(Key, V)>, k: Key) -> bool {
    exists|j: int| #![trigger entries[j]] 0 <= j < entries.len() && entries[j].0 == k
}

/// Whether a row value is a cell map with a cell in column `c`.
pub open spec fn row_has_cell(row: Row, c: Key) -> bool {
    match row {
        Row::Cells(cells) => has_key(cells, c),
        Row::Other(_) => false,
    }
}

proof fn lemma_row_has_cell(cells: Seq<(Key, Seq<char>)>, c: Key, j: int)
    requires
        0 <= j < cells.len(),
        cells[j].0 == c,
    ensures
        row_has_cell(Row::Cells(cells), c),
{
}

/// Whether `rows` sets the cell at row `r`, column `c`.
pub open spec fn has_cell(rows: Seq<(Key, Row)>, r: Key, c: Key) -> bool {
    exists|i: int| #![trigger rows[i]] 0 <= i < rows.len() && rows[i].0 == r && row_has_cell(rows[i].1, c)
}

/// The JSON text of an emptied cell.
pub open spec fn null_text() -> Seq<char> {
    seq!['n', 'u', 'l', 'l']
}

/// One row of `rows` with every cell that `other` also sets emptied (`null`).
pub open spec fn row_with_conflicts_nulled(other: Seq<(Key, Row)>, k: Key, row: Row) -> Row {
    match row {
        Row::Cells(c) => Row::Cells(
            Seq::new(
                c.len(),
                |j: int|
                    (c[j].0, if has_cell(other, k, c[j].0) {
                        null_text()
                    } else {
                        c[j].1
                    }),
            ),
        ),
        Row::Other(_) => row,
    }
}

/// `rows` with every cell that `other` also sets emptied.
pub open spec fn conflicts_nulled(rows: Seq<(Key, Row)>, other: Seq<(Key, Row)>) -> Seq<(Key, Row)> {
    Seq::new(rows.len(), |i: int| (rows[i].0, row_with_conflicts_nulled(other, rows[i].0, rows[i].1)))
}

/// The cells of the last row of `rows` with key `k` (none if that row is not
/// a cell map, or if there is no such row).
pub open spec fn last_cells_for(rows: Seq<(Key, Row)>, k: Key) -> Seq<(Key, Seq<char>)>
    decreases rows.len(),
{
    if rows.len() == 0 {
        Seq::empty()
    } else if rows.last().0 == k {
        match rows.last().1 {
            Row::Cells(c) => c,
            Row::Other(_) => Seq::empty(),
        }
    } else {
        last_cells_for(rows.drop_last(), k)
    }
}

/// `acc` with the rows of `later` written over it: a cell row of `later` is
/// appended merged with the current cells of its row, so that later cells win.
pub open spec fn rows_written_over(acc: Seq<(Key, Row)>, later: Seq<(Key, Row)>) -> Seq<(Key, Row)>
    decreases later.len(),
{
    if later.len() == 0 {
        acc
    } else {
        let prev = rows_written_over(acc, later.drop_last());
        match later.last().1 {
            Row::Cells(c) => prev.push(
                (later.last().0, Row::Cells(last_cells_for(prev, later.last().0) + c)),
            ),
            Row::Other(_) => prev.push(later.last()),
        }
    }
}

impl CellMatrix {
    pub fn copy(&self) -> (m: CellMatrix)
        ensures
            m@ == self@,
    {
        let mut out: Vec<RowEntry> = Vec::new();
        let mut i: usize = 0;
        while i < self.rows.len()
            invariant
                0 <= i <= self.rows.len(),
                rows_view(out@) == rows_view(self.rows@).subrange(0, i as int),
            decreases self.rows.len() - i,
        {
            let e = &self.rows[i];
            let pushed = RowEntry { key: e.key.copy(), value: e.value.copy() };
            let ghost before = out@;
            proof { lemma_rows_view_push(before, pushed); }
            out.push(pushed);
            i += 1;
            assert(rows_view(out@) =~= rows_view(self.rows@).subrange(0, i as int));
        }
        assert(rows_view(self.rows@).subrange(0, i as int) =~= rows_view(self.rows@));
        CellMatrix { rows: out }
    }

    /// The matrix with its rows moved for a row insertion.
    pub fn shift_rows_for_insert(&self, start: u32, count: u32) -> (m: CellMatrix)
        ensures
            m@ == entries_after_insert(self@, start, count),
    {
        let mut out: Vec<RowEntry> = Vec::new();
        let mut i: usize = 0;
        while i < self.rows.len()
            invariant
                0 <= i <= self.rows.len(),
                rows_view(out@) == entries_after_insert(self@, start, count).subrange(0, i as int),
            decreases self.rows.len() - i,
        {
            let e = &self.rows[i];
            let pushed = RowEntry { key: key_for_insert(&e.key, start, count), value: e.value.copy() };
            let ghost before = out@;
            proof { lemma_rows_view_push(before, pushed); }
            out.push(pushed);
            i += 1;
            assert(rows_view(out@) =~= entries_after_insert(self@, start, count).subrange(
                0,
                i as int,
            ));
        }
        assert(entries_after_insert(self@, start, count).subrange(0, i as int)
            =~= entries_after_insert(self@, start, count));
        CellMatrix { rows: out }
    }

    /// The matrix without rows `[rs, re]`, later rows moved up.
    pub fn shift_rows_for_remove(&self, rs: u32, re: u32) -> (m: CellMatrix)
        ensures
            m@ == entries_after_remove(self@, rs, re),
    {
        let mut out: Vec<RowEntry> = Vec::new();
        let mut i: usize = 0;
        while i < self.rows.len()
            invariant
                0 <= i <= self.rows.len(),
                rows_view(out@) == entries_after_remove(self@.subrange(0, i as int), rs, re),
            decreases self.rows.len() - i,
        {
            let e = &self.rows[i];
            assert(self@.subrange(0, i + 1).drop_last() =~= self@.subrange(0, i as int));
            if !is_key_removed(&e.key, rs, re) {
                let pushed = RowEntry { key: key_for_remove(&e.key, rs, re), value: e.value.copy() };
                let ghost before = out@;
                proof { lemma_rows_view_push(before, pushed); }
                out.push(pushed);
                assert(rows_view(out@) =~= entries_after_remove(self@.subrange(0, i + 1), rs, re));
            }
            i += 1;
        }
        assert(self@.subrange(0, i as int) =~= self@);
        CellMatrix { rows: out }
    }

    /// The matrix with its cells moved for a column insertion.
    pub fn shift_cols_for_insert(&self, start: u32, count: u32) -> (m: CellMatrix)
        ensures
            m@ == cols_after_insert(self@, start, count),
    {
        let mut out: Vec<RowEntry> = Vec::new();
        let mut i: usize = 0;
        while i < self.rows.len()
            invariant
                0 <= i <= self.rows.len(),
                rows_view(out@) == cols_after_insert(self@.subrange(0, i as int), start, count),
            decreases self.rows.len() - i,
        {
            let e = &self.rows[i];
            assert(self@.subrange(0, i + 1).drop_last() =~= self@.subrange(0, i as int));
            match &e.value {
                RowValue::Cells(cells) => {
                    if cells.entries.len() > 0 {
                        let shifted = cells.shifted_for_insert(start, count);
                        let pushed = RowEntry { key: e.key.copy(), value: RowValue::Cells(shifted) };
                        let ghost before = out@;
                        proof { lemma_rows_view_push(before, pushed); }
                        out.push(pushed);
                        assert(rows_view(out@) =~= cols_after_insert(
                            self@.subrange(0, i + 1),
                            start,
                            count,
                        ));
                    }
                },
                RowValue::Other(s) => {
                    let pushed = RowEntry { key: e.key.copy(), value: RowValue::Other(s.clone()) };
                    let ghost before = out@;
                    proof { lemma_rows_view_push(before, pushed); }
                    out.push(pushed);
                    assert(rows_view(out@) =~= cols_after_insert(
                        self@.subrange(0, i + 1),
                        start,
                        count,
                    ));
                },
            }
            i += 1;
        }
        assert(self@.subrange(0, i as int) =~= self@);
        CellMatrix { rows: out }
    }

    /// The matrix without the cells of columns `[rs, re]`, later columns moved left.
    pub fn shift_cols_for_remove(&self, rs: u32, re: u32) -> (m: CellMatrix)
        ensures
            m@ == cols_after_remove(self@, rs, re),
    {
        let mut out: Vec<RowEntry> = Vec::new();
        let mut i: usize = 0;
        while i < self.rows.len()
            invariant
                0 <= i <= self.rows.len(),
                rows_view(out@) == cols_after_remove(self@.subrange(0, i as int), rs, re),
            decreases self.rows.len() - i,
        {
            let e = &self.rows[i];
            assert(self@.subrange(0, i + 1).drop_last() =~= self@.subrange(0, i as int));
            match &e.value {
                RowValue::Cells(cells) => {
                    let shifted = cells.shifted_for_remove(rs, re);
                    if shifted.entries.len() > 0 {
                        let pushed = RowEntry { key: e.key.copy(), value: RowValue::Cells(shifted) };
                        let ghost before = out@;
                        proof { lemma_rows_view_push(before, pushed); }
                        out.push(pushed);
                        assert(rows_view(out@) =~= cols_after_remove(
                            self@.subrange(0, i + 1),
                            rs,
                            re,
                        ));
                    }
                },
                RowValue::Other(s) => {
                    let pushed = RowEntry { key: e.key.copy(), value: RowValue::Other(s.clone()) };
                    let ghost before = out@;
                    proof { lemma_rows_view_push(before, pushed); }
                    out.push(pushed);
                    assert(rows_view(out@) =~= cols_after_remove(
                        self@.subrange(0, i + 1),
                        rs,
                        re,
                    ));
                },
            }
            i += 1;
        }
        assert(self@.subrange(0, i as int) =~= self@);
        CellMatrix { rows: out }
    }

    /// Whether this matrix sets the cell at row `r`, column `c`.
    pub fn sets_cell(&self, r: &IndexKey, c: &IndexKey) -> (b: bool)
        ensures
            b == has_cell(self@, r@, c@),
    {
        let mut i: usize = 0;
        while i < self.rows.len()
            invariant
                0 <= i <= self.rows.len(),
                forall|x: int| #![trigger self@[x]] 0 <= x < i ==> !(self@[x].0 == r@ && row_has_cell(self@[x].1, c@)),
            decreases self.rows.len() - i,
        {
            let e = &self.rows[i];
            if key_eq(&e.key, r) {
                match &e.value {
                    RowValue::Cells(cells) => {
                        if cells.contains_key(c) {
                            proof {
                                let j = choose|j: int| #![trigger cells@[j]] 0 <= j < cells@.len() && cells@[j].0 == c@;
                                lemma_row_has_cell(cells@, c@, j);
                            }
                            assert(self@[i as int].0 == r@);
                            assert(self@[i as int].1 == Row::Cells(cells@));
                            assert(row_has_cell(self@[i as int].1, c@));
                            return true;
                        }
                    },
                    RowValue::Other(_) => {},
                }
            }
            i += 1;
        }
        false
    }

    /// This matrix with every cell that `other` also sets replaced by `null`.
    pub fn with_conflicts_nulled(&self, other: &CellMatrix) -> (m: CellMatrix)
        ensures
            m@ == conflicts_nulled(self@, other@),
    {
        let mut out: Vec<RowEntry> = Vec::new();
        let mut i: usize = 0;
        while i < self.rows.len()
            invariant
                0 <= i <= self.rows.len(),
                rows_view(out@) == conflicts_nulled(self@, other@).subrange(0, i as int),
            decreases self.rows.len() - i,
        {
            let e = &self.rows[i];
            let value = match &e.value {
                RowValue::Cells(cells) => RowValue::Cells(cells_nulled(cells, &e.key, other)),
                RowValue::Other(s) => RowValue::Other(s.clone()),
            };
            let pushed = RowEntry { key: e.key.copy(), value };
            let ghost before = out@;
            proof {
                lemma_rows_view_push(before, pushed);
            }
            out.push(pushed);
            i += 1;
            assert(rows_view(out@) =~= conflicts_nulled(self@, other@).subrange(0, i as int));
        }
        assert(conflicts_nulled(self@, other@).subrange(0, i as int) =~= conflicts_nulled(
            self@,
            other@,
        ));
        CellMatrix { rows: out }
    }
}

/// The cells of row `key` with every cell that `other` also sets replaced by `null`.
fn cells_nulled(cells: &IndexMap, key: &IndexKey, other: &CellMatrix) -> (r: IndexMap)
    ensures
        Row::Cells(r@) == row_with_conflicts_nulled(other@, key@, Row::Cells(cells@)),
{
    let ghost target = Seq::new(
        cells@.len(),
        |x: int|
            (cells@[x].0, if has_cell(other@, key@, cells@[x].0) {
                null_text()
            } else {
                cells@[x].1
            }),
    );
    let mut cs: Vec<IndexEntry> = Vec::new();
    let mut j: usize = 0;
    while j < cells.entries.len()
        invariant
            0 <= j <= cells.entries.len(),
            target.len() == cells@.len(),
            forall|x: int|
                0 <= x < target.len() ==> #[trigger] target[x] == (
                    cells@[x].0,
                    if has_cell(other@, key@, cells@[x].0) {
                        null_text()
                    } else {
                        cells@[x].1
                    },
                ),
            entries_view(cs@) == target.subrange(0, j as int),
        decreases cells.entries.len() - j,
    {
        let c = &cells.entries[j];
        let v = if other.sets_cell(key, &c.key) {
            let null: String = "null".to_owned();
            proof {
                reveal_strlit("null");
                assert("null"@ =~= null_text());
            }
            null
        } else {
            c.value.clone()
        };
        let pushed = IndexEntry { key: c.key.copy(), value: v };
        let ghost before = cs@;
        proof {
            lemma_entries_view_push(before, pushed);
        }
        cs.push(pushed);
        j += 1;
        assert(entries_view(cs@) =~= target.subrange(0, j as int));
    }
    assert(target.subrange(0, j as int) =~= target);
    IndexMap { entries: cs }
}

/// `merged` followed by copies of the entries of `cells`.
fn append_cells(merged: &mut IndexMap, cells: &IndexMap)
    ensures
        final(merged)@ == old(merged)@ + cells@,
{
    let ghost prefix = merged@;
    let mut j: usize = 0;
    while j < cells.entries.len()
        invariant
            0 <= j <= cells.entries.len(),
            merged@ == prefix + cells@.subrange(0, j as int),
        decreases cells.entries.len() - j,
    {
        let c = &cells.entries[j];
        let pushed = IndexEntry { key: c.key.copy(), value: c.value.clone() };
        let ghost before = merged.entries@;
        proof {
            lemma_entries_view_push(before, pushed);
        }
        merged.entries.push(pushed);
        j += 1;
        assert(merged@ =~= prefix + cells@.subrange(0, j as int));
    }
    assert(cells@.subrange(0, j as int) =~= cells@);
}

/// The cells of the last row of `rows` with key `k`, copied.
fn last_cells(rows: &Vec<RowEntry>, k: &IndexKey) -> (c: IndexMap)
    ensures
        c@ == last_cells_for(rows_view(rows@), k@),
{
    let mut i: usize = rows.len();
    assert(rows_view(rows@).subrange(0, i as int) =~= rows_view(rows@));
    while i > 0
        invariant
            0 <= i <= rows.len(),
            last_cells_for(rows_view(rows@), k@) == last_cells_for(
                rows_view(rows@).subrange(0, i as int),
                k@,
            ),
        decreases i,
    {
        assert(rows_view(rows@).subrange(0, i as int).drop_last() =~= rows_view(rows@).subrange(
            0,
            i - 1,
        ));
        let e = &rows[i - 1];
        if key_eq(&e.key, k) {
            match &e.value {
                RowValue::Cells(cells) => {
                    return cells.copy();
                },
                RowValue::Other(_) => {
                    return IndexMap::new();
                },
            }
        }
        i -= 1;
    }
    IndexMap::new()
}

/// `base` with the rows of `later` written over it (later cells win).
pub fn write_over(base: &CellMatrix, later: &CellMatrix) -> (m: CellMatrix)
    ensures
        m@ == rows_written_over(base@, later@),
{
    let mut acc = base.copy();
    let mut i: usize = 0;
    while i < later.rows.len()
        invariant
            0 <= i <= later.rows.len(),
            acc@ == rows_written_over(base@, later@.subrange(0, i as int)),
        decreases later.rows.len() - i,
    {
        let e = &later.rows[i];
        assert(later@.subrange(0, i + 1).drop_last() =~= later@.subrange(0, i as int));
        match &e.value {
            RowValue::Cells(cells) => {
                let mut merged = last_cells(&acc.rows, &e.key);
                append_cells(&mut merged, cells);
                let pushed = RowEntry { key: e.key.copy(), value: RowValue::Cells(merged) };
                let ghost before = acc.rows@;
                proof { lemma_rows_view_push(before, pushed); }
                acc.rows.push(pushed);
            },
            RowValue::Other(s) => {
                let pushed = RowEntry { key: e.key.copy(), value: RowValue::Other(s.clone()) };
                let ghost before = acc.rows@;
                proof { lemma_rows_view_push(before, pushed); }
                acc.rows.push(pushed);
            },
        }
        i += 1;
        assert(acc@ =~= rows_written_over(base@, later@.subrange(0, i as int)));
    }
    assert(later@.subrange(0, i as int) =~= later@);
    acc
}

} // verus!
