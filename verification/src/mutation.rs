//! Mutations and their parameters.
//!
//! A mutation is an id (such as `sheet.mutation.insert-row`) and parameters.
//! Parameters come in a few shapes; a transform reads the shape it expects
//! and, when the mutation has another shape, falls back to the empty value of
//! that shape (empty sheet ids, a zero range), as a reader of malformed
//! parameters does.
use vstd::prelude::*;
use crate::sheet::{copy_ranges, Range, SheetId, SubUnitParams};
use crate::matrix::{CellMatrix, IndexMap, Key, Row};

verus! {

/// JSON texts, as their character sequences.
pub open spec fn texts_view(v: Seq<String>) -> Seq<Seq<char>> {
    Seq::new(v.len(), |i: int| v[i]@)
}

/// Optional JSON texts, as their character sequences.
pub open spec fn opt_texts(o: Option<Vec<String>>) -> Option<Seq<Seq<char>>> {
    match o {
        Some(v) => Some(texts_view(v@)),
        None => None,
    }
}

/// A list of mutations, by value.
pub open spec fn mutations_view(v: Seq<MutationInfo>) -> Seq<Mutation> {
    Seq::new(v.len(), |i: int| v[i]@)
}

pub proof fn lemma_texts_view_push(v: Seq<String>, x: String)
    ensures
        texts_view(v.push(x)) == texts_view(v).push(x@),
{
    assert(texts_view(v.push(x)) =~= texts_view(v).push(x@));
}

pub fn copy_texts(v: &Vec<String>) -> (r: Vec<String>)
    ensures
        texts_view(r@) == texts_view(v@),
{
    let mut r: Vec<String> = Vec::new();
    let mut i: usize = 0;
    while i < v.len()
        invariant
            0 <= i <= v.len(),
            r@.len() == i,
            forall|j: int| 0 <= j < i ==> #[trigger] r@[j]@ == v@[j]@,
        decreases v.len() - i,
    {
        r.push(v[i].clone());
        i += 1;
    }
    assert(texts_view(r@) =~= texts_view(v@));
    r
}

pub open spec fn opt_text_view(o: Option<String>) -> Option<Seq<char>> {
    match o {
        Some(s) => Some(s@),
        None => None,
    }
}

pub fn copy_opt_text(o: &Option<String>) -> (r: Option<String>)
    ensures
        opt_text_view(r) == opt_text_view(*o),
{
    match o {
        Some(s) => Some(s.clone()),
        None => None,
    }
}

pub open spec fn opt_map_view(o: Option<IndexMap>) -> Option<Seq<(Key, Seq<char>)>> {
    match o {
        Some(m) => Some(m@),
        None => None,
    }
}

pub fn copy_opt_map(o: &Option<IndexMap>) -> (r: Option<IndexMap>)
    ensures
        opt_map_view(r) == opt_map_view(*o),
{
    match o {
        Some(m) => Some(m.copy()),
        None => None,
    }
}

pub open spec fn opt_ranges_view(o: Option<Vec<Range>>) -> Option<Seq<Range>> {
    match o {
        Some(v) => Some(v@),
        None => None,
    }
}

pub fn copy_opt_ranges(o: &Option<Vec<Range>>) -> (r: Option<Vec<Range>>)
    ensures
        opt_ranges_view(r) == opt_ranges_view(*o),
{
    match o {
        Some(v) => Some(copy_ranges(v)),
        None => None,
    }
}

/// `{unitId, subUnitId, range, rowInfo | colInfo}`: row and column insertion
/// and removal, and the mutations that hold one range.
#[derive(Clone, Debug, PartialEq, Eq)]
pub struct RangeParams {
    pub sub_unit: SubUnitParams,
    pub range: Range,
    /// Per-line data of an insertion (JSON texts), if given.
    pub info: Option<Vec<String>>,
}

/// `{unitId, subUnitId, ranges, rowHeight}`: mutations over a list of ranges.
#[derive(Clone, Debug, PartialEq, Eq)]
pub struct RangesParams {
    pub sub_unit: SubUnitParams,
    pub ranges: Vec<Range>,
    /// Row heights keyed by row, if given.
    pub row_height: Option<IndexMap>,
}

/// `{unitId, subUnitId, cellValue}`: setting cell values.
#[derive(Clone, Debug, PartialEq, Eq)]
pub struct SetRangeValuesMutationParams {
    pub sub_unit: SubUnitParams,
    pub cell_value: Option<CellMatrix>,
}

/// `{unitId, subUnitId, rowData, columnData}`: row or column properties.
#[derive(Clone, Debug, PartialEq, Eq)]
pub struct RowColumnDataParams {
    pub sub_unit: SubUnitParams,
    pub row_data: Option<IndexMap>,
    pub column_data: Option<IndexMap>,
}

/// `{unitId, subUnitId, sourceRange, targetRange}`: moving rows or columns.
#[derive(Clone, Debug, PartialEq, Eq)]
pub struct MoveRowsColsParams {
    pub sub_unit: SubUnitParams,
    pub source_range: Range,
    pub target_range: Range,
}

/// `{unitId, subUnitId, range, order}`: sorting the rows of a range.
#[derive(Clone, Debug, PartialEq, Eq)]
pub struct ReorderRangeParams {
    pub sub_unit: SubUnitParams,
    pub range: Range,
    pub order: IndexMap,
}

/// `{unitId, subUnitId, startRow, startColumn, ySplit, xSplit}`: frozen panes.
#[derive(Clone, Debug, PartialEq, Eq)]
pub struct SetFrozenParams {
    pub sub_unit: SubUnitParams,
    pub start_row: u32,
    pub start_column: u32,
    pub y_split: u32,
    pub x_split: u32,
}

/// One side of a range move: the sheet and the cell values there.
#[derive(Clone, Debug, PartialEq, Eq)]
pub struct MoveRangeSide {
    pub sub_unit_id: String,
    pub value: CellMatrix,
}

/// `{unitId, fromRange, toRange, from, to}`: moving a block of cells.
#[derive(Clone, Debug, PartialEq, Eq)]
pub struct MoveRangeParams {
    pub unit_id: String,
    pub from_range: Range,
    pub to_range: Range,
    pub from: MoveRangeSide,
    pub to: MoveRangeSide,
}

/// The `rule` object of a conditional-format or data-validation mutation.
#[derive(Clone, Debug, PartialEq, Eq)]
pub struct RuleValue {
    pub unit_id: Option<String>,
    pub sub_unit_id: Option<String>,
    pub ranges: Option<Vec<Range>>,
    /// The other fields of the rule, as a JSON object text.
    pub extra: String,
}

/// `{unitId, subUnitId, rule}`.
#[derive(Clone, Debug, PartialEq, Eq)]
pub struct RuleParams {
    pub sub_unit: SubUnitParams,
    pub rule: Option<RuleValue>,
}

/// `{unitId, subUnitId, ruleIds, rules, ruleId}`: range protection.
#[derive(Clone, Debug, PartialEq, Eq)]
pub struct ProtectionParams {
    pub sub_unit: SubUnitParams,
    /// `ruleIds` (the rules a deletion removes).
    pub rule_ids: Vec<String>,
    /// The `id` of each entry of `rules` that has one.
    pub rules: Vec<Option<String>>,
    /// `ruleId` (the rule a setting changes).
    pub rule_id: Option<String>,
}

/// `{unitId, subUnitId, range, styleName, styleJSON.name}`: range themes.
#[derive(Clone, Debug, PartialEq, Eq)]
pub struct ThemeParams {
    pub sub_unit: SubUnitParams,
    pub range: Option<Range>,
    pub style_name: Option<String>,
    pub style_json_name: Option<String>,
}

/// `{unitId, subUnitId, values}`: number formats; the ranges of each value.
#[derive(Clone, Debug, PartialEq, Eq)]
pub struct NumfmtParams {
    pub sub_unit: SubUnitParams,
    pub values: Option<Vec<Vec<Range>>>,
}

/// The parameters of a mutation, by shape.
#[derive(Clone, Debug, PartialEq, Eq)]
pub enum MutationParams {
    Range(RangeParams),
    Ranges(RangesParams),
    CellValues(SetRangeValuesMutationParams),
    RowColumnData(RowColumnDataParams),
    MoveRowsCols(MoveRowsColsParams),
    Reorder(ReorderRangeParams),
    Frozen(SetFrozenParams),
    MoveRange(MoveRangeParams),
    Rule(RuleParams),
    Protection(ProtectionParams),
    Theme(ThemeParams),
    Numfmt(NumfmtParams),
    /// Parameters the transforms read only the sheet of.
    SubUnit(SubUnitParams),
}

/// A mutation: its id, its parameters, and the parameter fields that no
/// transform reads (a JSON object text, carried through).
#[derive(Clone, Debug, PartialEq, Eq)]
pub struct MutationInfo {
    pub id: String,
    pub params: MutationParams,
    pub extra: String,
}

/// The outcome of transforming `m1` against `m2`: each side rewritten, or
/// `None` when it is to be dropped; or an error when they cannot be reconciled.
#[derive(Clone, Debug, PartialEq, Eq)]
pub struct TransformResult {
    pub m1_prime: Option<MutationInfo>,
    pub m2_prime: Option<MutationInfo>,
    pub error: Option<String>,
}

// ---------------------------------------------------------------------------
// Values
// ---------------------------------------------------------------------------
pub struct RangeParamsV {
    pub sheet: SheetId,
    pub range: Range,
    pub info: Option<Seq<Seq<char>>>,
}

pub struct RangesParamsV {
    pub sheet: SheetId,
    pub ranges: Seq<Range>,
    pub row_height: Option<Seq<(Key, Seq<char>)>>,
}

pub struct CellValuesV {
    pub sheet: SheetId,
    pub cell_value: Option<Seq<(Key, Row)>>,
}

pub struct RowColumnDataV {
    pub sheet: SheetId,
    pub row_data: Option<Seq<(Key, Seq<char>)>>,
    pub column_data: Option<Seq<(Key, Seq<char>)>>,
}

pub struct MoveRowsColsV {
    pub sheet: SheetId,
    pub source_range: Range,
    pub target_range: Range,
}

pub struct ReorderV {
    pub sheet: SheetId,
    pub range: Range,
    pub order: Seq<(Key, Seq<char>)>,
}

pub struct FrozenV {
    pub sheet: SheetId,
    pub start_row: u32,
    pub start_column: u32,
    pub y_split: u32,
    pub x_split: u32,
}

pub struct MoveRangeV {
    pub unit_id: Seq<char>,
    pub from_range: Range,
    pub to_range: Range,
    pub from_sheet: Seq<char>,
    pub from_value: Seq<(Key, Row)>,
    pub to_sheet: Seq<char>,
    pub to_value: Seq<(Key, Row)>,
}

pub struct RuleV {
    pub unit_id: Option<Seq<char>>,
    pub sub_unit_id: Option<Seq<char>>,
    pub ranges: Option<Seq<Range>>,
    pub extra: Seq<char>,
}

pub struct RuleParamsV {
    pub sheet: SheetId,
    pub rule: Option<RuleV>,
}

pub struct ProtectionV {
    pub sheet: SheetId,
    pub rule_ids: Seq<Seq<char>>,
    pub rules: Seq<Option<Seq<char>>>,
    pub rule_id: Option<Seq<char>>,
}

pub struct ThemeV {
    pub sheet: SheetId,
    pub range: Option<Range>,
    pub style_name: Option<Seq<char>>,
    pub style_json_name: Option<Seq<char>>,
}

pub struct NumfmtV {
    pub sheet: SheetId,
    pub values: Option<Seq<Seq<Range>>>,
}

pub enum ParamsV {
    Range(RangeParamsV),
    Ranges(RangesParamsV),
    CellValues(CellValuesV),
    RowColumnData(RowColumnDataV),
    MoveRowsCols(MoveRowsColsV),
    Reorder(ReorderV),
    Frozen(FrozenV),
    MoveRange(MoveRangeV),
    Rule(RuleParamsV),
    Protection(ProtectionV),
    Theme(ThemeV),
    Numfmt(NumfmtV),
    SubUnit(SheetId),
}

/// The value of a mutation.
pub struct Mutation {
    pub id: Seq<char>,
    pub params: ParamsV,
    pub extra: Seq<char>,
}

/// The value of a transform result.
pub struct Outcome {
    pub m1_prime: Option<Mutation>,
    pub m2_prime: Option<Mutation>,
    pub error: Option<Seq<char>>,
}

impl View for RangeParams {
    type V = RangeParamsV;

    open spec fn view(&self) -> RangeParamsV {
        RangeParamsV {
            sheet: self.sub_unit@,
            range: self.range,
            info: opt_texts(self.info),
        }
    }
}

impl View for RangesParams {
    type V = RangesParamsV;

    open spec fn view(&self) -> RangesParamsV {
        RangesParamsV {
            sheet: self.sub_unit@,
            ranges: self.ranges@,
            row_height: opt_map_view(self.row_height),
        }
    }
}

impl View for SetRangeValuesMutationParams {
    type V = CellValuesV;

    open spec fn view(&self) -> CellValuesV {
        CellValuesV {
            sheet: self.sub_unit@,
            cell_value: match self.cell_value {
                Some(m) => Some(m@),
                None => None,
            },
        }
    }
}

impl View for RowColumnDataParams {
    type V = RowColumnDataV;

    open spec fn view(&self) -> RowColumnDataV {
        RowColumnDataV {
            sheet: self.sub_unit@,
            row_data: opt_map_view(self.row_data),
            column_data: opt_map_view(self.column_data),
        }
    }
}

impl View for MoveRowsColsParams {
    type V = MoveRowsColsV;

    open spec fn view(&self) -> MoveRowsColsV {
        MoveRowsColsV {
            sheet: self.sub_unit@,
            source_range: self.source_range,
            target_range: self.target_range,
        }
    }
}

impl View for ReorderRangeParams {
    type V = ReorderV;

    open spec fn view(&self) -> ReorderV {
        ReorderV { sheet: self.sub_unit@, range: self.range, order: self.order@ }
    }
}

impl View for SetFrozenParams {
    type V = FrozenV;

    open spec fn view(&self) -> FrozenV {
        FrozenV {
            sheet: self.sub_unit@,
            start_row: self.start_row,
            start_column: self.start_column,
            y_split: self.y_split,
            x_split: self.x_split,
        }
    }
}

impl View for MoveRangeParams {
    type V = MoveRangeV;

    open spec fn view(&self) -> MoveRangeV {
        MoveRangeV {
            unit_id: self.unit_id@,
            from_range: self.from_range,
            to_range: self.to_range,
            from_sheet: self.from.sub_unit_id@,
            from_value: self.from.value@,
            to_sheet: self.to.sub_unit_id@,
            to_value: self.to.value@,
        }
    }
}

impl View for RuleValue {
    type V = RuleV;

    open spec fn view(&self) -> RuleV {
        RuleV {
            unit_id: opt_text_view(self.unit_id),
            sub_unit_id: opt_text_view(self.sub_unit_id),
            ranges: opt_ranges_view(self.ranges),
            extra: self.extra@,
        }
    }
}

impl View for RuleParams {
    type V = RuleParamsV;

    open spec fn view(&self) -> RuleParamsV {
        RuleParamsV {
            sheet: self.sub_unit@,
            rule: match self.rule {
                Some(r) => Some(r@),
                None => None,
            },
        }
    }
}

pub open spec fn opt_texts_view(v: Seq<Option<String>>) -> Seq<Option<Seq<char>>> {
    Seq::new(v.len(), |i: int| opt_text_view(v[i]))
}

impl View for ProtectionParams {
    type V = ProtectionV;

    open spec fn view(&self) -> ProtectionV {
        ProtectionV {
            sheet: self.sub_unit@,
            rule_ids: texts_view(self.rule_ids@),
            rules: opt_texts_view(self.rules@),
            rule_id: opt_text_view(self.rule_id),
        }
    }
}

impl View for ThemeParams {
    type V = ThemeV;

    open spec fn view(&self) -> ThemeV {
        ThemeV {
            sheet: self.sub_unit@,
            range: self.range,
            style_name: opt_text_view(self.style_name),
            style_json_name: opt_text_view(self.style_json_name),
        }
    }
}

pub open spec fn range_lists_view(v: Seq<Vec<Range>>) -> Seq<Seq<Range>> {
    Seq::new(v.len(), |i: int| v[i]@)
}

impl View for NumfmtParams {
    type V = NumfmtV;

    open spec fn view(&self) -> NumfmtV {
        NumfmtV {
            sheet: self.sub_unit@,
            values: match self.values {
                Some(v) => Some(range_lists_view(v@)),
                None => None,
            },
        }
    }
}

impl View for MutationParams {
    type V = ParamsV;

    open spec fn view(&self) -> ParamsV {
        match self {
            MutationParams::Range(p) => ParamsV::Range(p@),
            MutationParams::Ranges(p) => ParamsV::Ranges(p@),
            MutationParams::CellValues(p) => ParamsV::CellValues(p@),
            MutationParams::RowColumnData(p) => ParamsV::RowColumnData(p@),
            MutationParams::MoveRowsCols(p) => ParamsV::MoveRowsCols(p@),
            MutationParams::Reorder(p) => ParamsV::Reorder(p@),
            MutationParams::Frozen(p) => ParamsV::Frozen(p@),
            MutationParams::MoveRange(p) => ParamsV::MoveRange(p@),
            MutationParams::Rule(p) => ParamsV::Rule(p@),
            MutationParams::Protection(p) => ParamsV::Protection(p@),
            MutationParams::Theme(p) => ParamsV::Theme(p@),
            MutationParams::Numfmt(p) => ParamsV::Numfmt(p@),
            MutationParams::SubUnit(p) => ParamsV::SubUnit(p@),
        }
    }
}

impl View for MutationInfo {
    type V = Mutation;

    open spec fn view(&self) -> Mutation {
        Mutation { id: self.id@, params: self.params@, extra: self.extra@ }
    }
}

pub open spec fn opt_mutation_view(o: Option<MutationInfo>) -> Option<Mutation> {
    match o {
        Some(m) => Some(m@),
        None => None,
    }
}

impl View for TransformResult {
    type V = Outcome;

    open spec fn view(&self) -> Outcome {
        Outcome {
            m1_prime: opt_mutation_view(self.m1_prime),
            m2_prime: opt_mutation_view(self.m2_prime),
            error: opt_text_view(self.error),
        }
    }
}

// ---------------------------------------------------------------------------
// Copies
// ---------------------------------------------------------------------------
impl RangeParams {
    pub fn copy(&self) -> (p: RangeParams)
        ensures
            p@ == self@,
    {
        RangeParams {
            sub_unit: self.sub_unit.copy(),
            range: self.range,
            info: match &self.info {
                Some(v) => Some(copy_texts(v)),
                None => None,
            },
        }
    }
}

impl RangesParams {
    pub fn copy(&self) -> (p: RangesParams)
        ensures
            p@ == self@,
    {
        RangesParams {
            sub_unit: self.sub_unit.copy(),
            ranges: copy_ranges(&self.ranges),
            row_height: copy_opt_map(&self.row_height),
        }
    }
}

impl SetRangeValuesMutationParams {
    pub fn copy(&self) -> (p: SetRangeValuesMutationParams)
        ensures
            p@ == self@,
    {
        SetRangeValuesMutationParams {
            sub_unit: self.sub_unit.copy(),
            cell_value: match &self.cell_value {
                Some(m) => Some(m.copy()),
                None => None,
            },
        }
    }
}

impl RowColumnDataParams {
    pub fn copy(&self) -> (p: RowColumnDataParams)
        ensures
            p@ == self@,
    {
        RowColumnDataParams {
            sub_unit: self.sub_unit.copy(),
            row_data: copy_opt_map(&self.row_data),
            column_data: copy_opt_map(&self.column_data),
        }
    }
}

impl MoveRowsColsParams {
    pub fn copy(&self) -> (p: MoveRowsColsParams)
        ensures
            p@ == self@,
    {
        MoveRowsColsParams {
            sub_unit: self.sub_unit.copy(),
            source_range: self.source_range,
            target_range: self.target_range,
        }
    }
}

impl ReorderRangeParams {
    pub fn copy(&self) -> (p: ReorderRangeParams)
        ensures
            p@ == self@,
    {
        ReorderRangeParams { sub_unit: self.sub_unit.copy(), range: self.range, order: self.order.copy() }
    }
}

impl SetFrozenParams {
    pub fn copy(&self) -> (p: SetFrozenParams)
        ensures
            p@ == self@,
    {
        SetFrozenParams {
            sub_unit: self.sub_unit.copy(),
            start_row: self.start_row,
            start_column: self.start_column,
            y_split: self.y_split,
            x_split: self.x_split,
        }
    }
}

impl MoveRangeParams {
    pub fn copy(&self) -> (p: MoveRangeParams)
        ensures
            p@ == self@,
    {
        MoveRangeParams {
            unit_id: self.unit_id.clone(),
            from_range: self.from_range,
            to_range: self.to_range,
            from: MoveRangeSide {
                sub_unit_id: self.from.sub_unit_id.clone(),
                value: self.from.value.copy(),
            },
            to: MoveRangeSide { sub_unit_id: self.to.sub_unit_id.clone(), value: self.to.value.copy() },
        }
    }
}

impl RuleValue {
    pub fn copy(&self) -> (r: RuleValue)
        ensures
            r@ == self@,
    {
        RuleValue {
            unit_id: copy_opt_text(&self.unit_id),
            sub_unit_id: copy_opt_text(&self.sub_unit_id),
            ranges: copy_opt_ranges(&self.ranges),
            extra: self.extra.clone(),
        }
    }
}

impl RuleParams {
    pub fn copy(&self) -> (p: RuleParams)
        ensures
            p@ == self@,
    {
        RuleParams {
            sub_unit: self.sub_unit.copy(),
            rule: match &self.rule {
                Some(r) => Some(r.copy()),
                None => None,
            },
        }
    }
}

impl ProtectionParams {
    pub fn copy(&self) -> (p: ProtectionParams)
        ensures
            p@ == self@,
    {
        let mut rules: Vec<Option<String>> = Vec::new();
        let mut i: usize = 0;
        while i < self.rules.len()
            invariant
                0 <= i <= self.rules.len(),
                rules@.len() == i,
                forall|j: int|
                    0 <= j < i ==> #[trigger] opt_text_view(rules@[j]) == opt_text_view(
                        self.rules@[j],
                    ),
            decreases self.rules.len() - i,
        {
            rules.push(copy_opt_text(&self.rules[i]));
            i += 1;
        }
        assert(opt_texts_view(rules@) =~= opt_texts_view(self.rules@));
        ProtectionParams {
            sub_unit: self.sub_unit.copy(),
            rule_ids: copy_texts(&self.rule_ids),
            rules,
            rule_id: copy_opt_text(&self.rule_id),
        }
    }
}

impl ThemeParams {
    pub fn copy(&self) -> (p: ThemeParams)
        ensures
            p@ == self@,
    {
        ThemeParams {
            sub_unit: self.sub_unit.copy(),
            range: self.range,
            style_name: copy_opt_text(&self.style_name),
            style_json_name: copy_opt_text(&self.style_json_name),
        }
    }
}

impl NumfmtParams {
    pub fn copy(&self) -> (p: NumfmtParams)
        ensures
            p@ == self@,
    {
        let values = match &self.values {
            Some(v) => {
                let mut out: Vec<Vec<Range>> = Vec::new();
                let mut i: usize = 0;
                while i < v.len()
                    invariant
                        0 <= i <= v.len(),
                        out@.len() == i,
                        forall|j: int| 0 <= j < i ==> #[trigger] out@[j]@ == v@[j]@,
                    decreases v.len() - i,
                {
                    out.push(copy_ranges(&v[i]));
                    i += 1;
                }
                assert(range_lists_view(out@) =~= range_lists_view(v@));
                Some(out)
            },
            None => None,
        };
        NumfmtParams { sub_unit: self.sub_unit.copy(), values }
    }
}

impl MutationParams {
    pub fn copy(&self) -> (p: MutationParams)
        ensures
            p@ == self@,
    {
        match self {
            MutationParams::Range(p) => MutationParams::Range(p.copy()),
            MutationParams::Ranges(p) => MutationParams::Ranges(p.copy()),
            MutationParams::CellValues(p) => MutationParams::CellValues(p.copy()),
            MutationParams::RowColumnData(p) => MutationParams::RowColumnData(p.copy()),
            MutationParams::MoveRowsCols(p) => MutationParams::MoveRowsCols(p.copy()),
            MutationParams::Reorder(p) => MutationParams::Reorder(p.copy()),
            MutationParams::Frozen(p) => MutationParams::Frozen(p.copy()),
            MutationParams::MoveRange(p) => MutationParams::MoveRange(p.copy()),
            MutationParams::Rule(p) => MutationParams::Rule(p.copy()),
            MutationParams::Protection(p) => MutationParams::Protection(p.copy()),
            MutationParams::Theme(p) => MutationParams::Theme(p.copy()),
            MutationParams::Numfmt(p) => MutationParams::Numfmt(p.copy()),
            MutationParams::SubUnit(p) => MutationParams::SubUnit(p.copy()),
        }
    }
}

impl MutationInfo {
    pub fn copy(&self) -> (m: MutationInfo)
        ensures
            m@ == self@,
    {
        MutationInfo { id: self.id.clone(), params: self.params.copy(), extra: self.extra.clone() }
    }

    /// This mutation's id and extra fields with other parameters.
    pub fn with_params(&self, params: MutationParams) -> (m: MutationInfo)
        ensures
            m@ == (Mutation { id: self@.id, params: params@, extra: self@.extra }),
    {
        MutationInfo { id: self.id.clone(), params, extra: self.extra.clone() }
    }
}

// ---------------------------------------------------------------------------
// Reading parameters of an expected shape
// ---------------------------------------------------------------------------
/// The empty sheet identity.
pub open spec fn no_sheet() -> SheetId {
    SheetId { unit_id: Seq::empty(), sub_unit_id: Seq::empty() }
}

pub open spec fn zero_range() -> Range {
    Range { start_row: 0, start_column: 0, end_row: 0, end_column: 0 }
}

/// The sheet a mutation's parameters name (`unitId`, `subUnitId`); empty
/// when the shape has no such pair.
pub open spec fn sheet_of(p: ParamsV) -> SheetId {
    match p {
        ParamsV::Range(x) => x.sheet,
        ParamsV::Ranges(x) => x.sheet,
        ParamsV::CellValues(x) => x.sheet,
        ParamsV::RowColumnData(x) => x.sheet,
        ParamsV::MoveRowsCols(x) => x.sheet,
        ParamsV::Reorder(x) => x.sheet,
        ParamsV::Frozen(x) => x.sheet,
        ParamsV::MoveRange(_) => no_sheet(),
        ParamsV::Rule(x) => x.sheet,
        ParamsV::Protection(x) => x.sheet,
        ParamsV::Theme(x) => x.sheet,
        ParamsV::Numfmt(x) => x.sheet,
        ParamsV::SubUnit(x) => x,
    }
}

/// `{unitId, subUnitId, range}` read from any parameters that have a range.
pub open spec fn range_params_of(p: ParamsV) -> RangeParamsV {
    match p {
        ParamsV::Range(x) => x,
        ParamsV::Reorder(x) => RangeParamsV { sheet: x.sheet, range: x.range, info: None },
        ParamsV::Theme(x) => match x.range {
            Some(r) => RangeParamsV { sheet: x.sheet, range: r, info: None },
            None => RangeParamsV { sheet: no_sheet(), range: zero_range(), info: None },
        },
        _ => RangeParamsV { sheet: no_sheet(), range: zero_range(), info: None },
    }
}

pub open spec fn ranges_params_of(p: ParamsV) -> RangesParamsV {
    match p {
        ParamsV::Ranges(x) => x,
        _ => RangesParamsV { sheet: no_sheet(), ranges: Seq::empty(), row_height: None },
    }
}

pub open spec fn cell_values_of(p: ParamsV) -> CellValuesV {
    match p {
        ParamsV::CellValues(x) => x,
        _ => CellValuesV { sheet: sheet_of(p), cell_value: None },
    }
}

pub open spec fn row_column_data_of(p: ParamsV) -> RowColumnDataV {
    match p {
        ParamsV::RowColumnData(x) => x,
        _ => RowColumnDataV { sheet: sheet_of(p), row_data: None, column_data: None },
    }
}

pub open spec fn move_rows_cols_of(p: ParamsV) -> MoveRowsColsV {
    match p {
        ParamsV::MoveRowsCols(x) => x,
        _ => MoveRowsColsV { sheet: no_sheet(), source_range: zero_range(), target_range: zero_range() },
    }
}

pub open spec fn reorder_of(p: ParamsV) -> ReorderV {
    match p {
        ParamsV::Reorder(x) => x,
        _ => ReorderV { sheet: no_sheet(), range: zero_range(), order: Seq::empty() },
    }
}

pub open spec fn frozen_of(p: ParamsV) -> FrozenV {
    match p {
        ParamsV::Frozen(x) => x,
        _ => FrozenV { sheet: no_sheet(), start_row: 0, start_column: 0, y_split: 0, x_split: 0 },
    }
}

pub fn sub_unit_of(p: &MutationParams) -> (s: SubUnitParams)
    ensures
        s@ == sheet_of(p@),
{
    match p {
        MutationParams::Range(x) => x.sub_unit.copy(),
        MutationParams::Ranges(x) => x.sub_unit.copy(),
        MutationParams::CellValues(x) => x.sub_unit.copy(),
        MutationParams::RowColumnData(x) => x.sub_unit.copy(),
        MutationParams::MoveRowsCols(x) => x.sub_unit.copy(),
        MutationParams::Reorder(x) => x.sub_unit.copy(),
        MutationParams::Frozen(x) => x.sub_unit.copy(),
        MutationParams::MoveRange(_) => empty_sheet(),
        MutationParams::Rule(x) => x.sub_unit.copy(),
        MutationParams::Protection(x) => x.sub_unit.copy(),
        MutationParams::Theme(x) => x.sub_unit.copy(),
        MutationParams::Numfmt(x) => x.sub_unit.copy(),
        MutationParams::SubUnit(x) => x.copy(),
    }
}

fn empty_sheet() -> (s: SubUnitParams)
    ensures
        s@ == no_sheet(),
{
    let s = SubUnitParams::empty();
    assert(s@.unit_id =~= Seq::<char>::empty());
    assert(s@.sub_unit_id =~= Seq::<char>::empty());
    s
}

pub fn range_params_from(p: &MutationParams) -> (r: RangeParams)
    ensures
        r@ == range_params_of(p@),
{
    match p {
        MutationParams::Range(x) => x.copy(),
        MutationParams::Reorder(x) => RangeParams { sub_unit: x.sub_unit.copy(), range: x.range, info: None },
        MutationParams::Theme(x) => match x.range {
            Some(r) => RangeParams { sub_unit: x.sub_unit.copy(), range: r, info: None },
            None => RangeParams { sub_unit: empty_sheet(), range: Range::zero(), info: None },
        },
        _ => RangeParams { sub_unit: empty_sheet(), range: Range::zero(), info: None },
    }
}

pub fn ranges_params_from(p: &MutationParams) -> (r: RangesParams)
    ensures
        r@ == ranges_params_of(p@),
{
    match p {
        MutationParams::Ranges(x) => x.copy(),
        _ => {
            let r = RangesParams { sub_unit: empty_sheet(), ranges: Vec::new(), row_height: None };
            assert(r@.ranges =~= Seq::<Range>::empty());
            r
        },
    }
}

pub fn cell_values_from(p: &MutationParams) -> (r: SetRangeValuesMutationParams)
    ensures
        r@ == cell_values_of(p@),
{
    match p {
        MutationParams::CellValues(x) => x.copy(),
        _ => SetRangeValuesMutationParams { sub_unit: sub_unit_of(p), cell_value: None },
    }
}

pub fn row_column_data_from(p: &MutationParams) -> (r: RowColumnDataParams)
    ensures
        r@ == row_column_data_of(p@),
{
    match p {
        MutationParams::RowColumnData(x) => x.copy(),
        _ => RowColumnDataParams { sub_unit: sub_unit_of(p), row_data: None, column_data: None },
    }
}

pub fn move_rows_cols_from(p: &MutationParams) -> (r: MoveRowsColsParams)
    ensures
        r@ == move_rows_cols_of(p@),
{
    match p {
        MutationParams::MoveRowsCols(x) => x.copy(),
        _ => MoveRowsColsParams {
            sub_unit: empty_sheet(),
            source_range: Range::zero(),
            target_range: Range::zero(),
        },
    }
}

pub fn reorder_from(p: &MutationParams) -> (r: ReorderRangeParams)
    ensures
        r@ == reorder_of(p@),
{
    match p {
        MutationParams::Reorder(x) => x.copy(),
        _ => {
            let r = ReorderRangeParams {
                sub_unit: empty_sheet(),
                range: Range::zero(),
                order: IndexMap::new(),
            };
            assert(r@.order =~= Seq::<(Key, Seq<char>)>::empty());
            r
        },
    }
}

pub fn frozen_from(p: &MutationParams) -> (r: SetFrozenParams)
    ensures
        r@ == frozen_of(p@),
{
    match p {
        MutationParams::Frozen(x) => x.copy(),
        _ => SetFrozenParams {
            sub_unit: empty_sheet(),
            start_row: 0,
            start_column: 0,
            y_split: 0,
            x_split: 0,
        },
    }
}

// ---------------------------------------------------------------------------
// Outcomes
// ---------------------------------------------------------------------------
/// `m` with other parameters; its id and extra fields are kept.
pub open spec fn with_params_v(m: Mutation, p: ParamsV) -> Mutation {
    Mutation { id: m.id, params: p, extra: m.extra }
}

/// Both mutations kept as they are.
pub open spec fn unchanged(m1: Mutation, m2: Mutation) -> Outcome {
    Outcome { m1_prime: Some(m1), m2_prime: Some(m2), error: None }
}

/// `m1` rewritten (or dropped), `m2` kept.
pub open spec fn first_becomes(m1_prime: Option<Mutation>, m2: Mutation) -> Outcome {
    Outcome { m1_prime, m2_prime: Some(m2), error: None }
}

/// `m1` kept, `m2` rewritten (or dropped).
pub open spec fn second_becomes(m1: Mutation, m2_prime: Option<Mutation>) -> Outcome {
    Outcome { m1_prime: Some(m1), m2_prime, error: None }
}

/// The pair cannot be reconciled: both kept, with an error message.
pub open spec fn refused(m1: Mutation, m2: Mutation, msg: Seq<char>) -> Outcome {
    Outcome { m1_prime: Some(m1), m2_prime: Some(m2), error: Some(msg) }
}

/// The result that keeps both mutations.
pub fn keep_both(m1: &MutationInfo, m2: &MutationInfo) -> (r: TransformResult)
    ensures
        r@ == unchanged(m1@, m2@),
{
    TransformResult { m1_prime: Some(m1.copy()), m2_prime: Some(m2.copy()), error: None }
}

/// The result with `m1` replaced by `m1_prime` and `m2` kept.
pub fn first_replaced(m1_prime: Option<MutationInfo>, m2: &MutationInfo) -> (r: TransformResult)
    ensures
        r@ == first_becomes(opt_mutation_view(m1_prime), m2@),
{
    TransformResult { m1_prime, m2_prime: Some(m2.copy()), error: None }
}

/// The result with `m1` kept and `m2` replaced by `m2_prime`.
pub fn second_replaced(m1: &MutationInfo, m2_prime: Option<MutationInfo>) -> (r: TransformResult)
    ensures
        r@ == second_becomes(m1@, opt_mutation_view(m2_prime)),
{
    TransformResult { m1_prime: Some(m1.copy()), m2_prime, error: None }
}

/// Both mutations kept, with an error message.
pub fn refuse(m1: &MutationInfo, m2: &MutationInfo, msg: String) -> (r: TransformResult)
    ensures
        r@ == refused(m1@, m2@, msg@),
{
    TransformResult { m1_prime: Some(m1.copy()), m2_prime: Some(m2.copy()), error: Some(msg) }
}

/// Two mutations that are not merged: both, in order.
pub fn both(m1: &MutationInfo, m2: &MutationInfo) -> (r: Vec<MutationInfo>)
    ensures
        mutations_view(r@) == seq![m1@, m2@],
{
    let r = vec![m1.copy(), m2.copy()];
    assert(mutations_view(r@) =~= seq![m1@, m2@]);
    r
}

/// The range-move parameters of `p`, when it has that shape.
pub open spec fn move_range_of(p: ParamsV) -> Option<MoveRangeV> {
    match p {
        ParamsV::MoveRange(x) => Some(x),
        _ => None,
    }
}

pub fn move_range_from(p: &MutationParams) -> (r: Option<MoveRangeParams>)
    ensures
        (match r {
            Some(x) => Some(x@),
            None => None,
        }) == move_range_of(p@),
{
    match p {
        MutationParams::MoveRange(x) => Some(x.copy()),
        _ => None,
    }
}

/// The rule parameters of `p`, when it has that shape.
pub open spec fn rule_params_of(p: ParamsV) -> Option<RuleParamsV> {
    match p {
        ParamsV::Rule(x) => Some(x),
        _ => None,
    }
}

} // verus!
