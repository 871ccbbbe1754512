//! The transform service: finds the transform registered for a mutation's id,
//! transforms pairs and lists of concurrent mutations, and merges
//! consecutive mutations.
use vstd::prelude::*;
use crate::sheet::Axis;
use crate::mutation::{both, keep_both, mutations_view, opt_text_view, unchanged, Mutation, MutationInfo, Outcome, TransformResult};
use crate::mutation_transform::MutationTransform;
use crate::insert_col::InsertColTransform;
use crate::insert_row::{insert_rows_composed, InsertRowTransform};
use crate::remove_col::{col_removals_reconciled, RemoveColTransform};
use crate::remove_rows::{remove_rows_composed, row_removals_reconciled, RemoveRowsTransform};
use crate::set_range_values::{values_composed, values_vs_values, SetRangeValuesTransform};
use crate::structural::{
    col_insert_vs_remove, col_remove_vs_insert, insert_vs_values, inserts_reconciled,
    remove_vs_values, row_insert_vs_remove, row_remove_vs_insert, values_vs_insert,
    values_vs_remove,
};

verus! {

/// The transforms the service registers, one per mutation type it handles.
#[derive(Clone, Copy, Debug, PartialEq, Eq, Structural)]
pub enum CoreTransform {
    SetRangeValues,
    InsertRow,
    InsertCol,
    RemoveRows,
    RemoveCol,
}

pub open spec fn set_range_values_id() -> Seq<char> {
    "sheet.mutation.set-range-values"@
}

pub open spec fn insert_row_id() -> Seq<char> {
    "sheet.mutation.insert-row"@
}

pub open spec fn insert_col_id() -> Seq<char> {
    "sheet.mutation.insert-col"@
}

pub open spec fn remove_rows_id() -> Seq<char> {
    "sheet.mutation.remove-rows"@
}

pub open spec fn remove_col_id() -> Seq<char> {
    "sheet.mutation.remove-col"@
}

/// The mutation id a registered transform handles.
pub open spec fn core_id(k: CoreTransform) -> Seq<char> {
    match k {
        CoreTransform::SetRangeValues => set_range_values_id(),
        CoreTransform::InsertRow => insert_row_id(),
        CoreTransform::InsertCol => insert_col_id(),
        CoreTransform::RemoveRows => remove_rows_id(),
        CoreTransform::RemoveCol => remove_col_id(),
    }
}

fn id_text(k: CoreTransform) -> (s: String)
    ensures
        s@ == core_id(k),
{
    match k {
        CoreTransform::SetRangeValues => SetRangeValuesTransform::mutation_id().to_owned(),
        CoreTransform::InsertRow => InsertRowTransform::mutation_id().to_owned(),
        CoreTransform::InsertCol => InsertColTransform::mutation_id().to_owned(),
        CoreTransform::RemoveRows => RemoveRowsTransform::mutation_id().to_owned(),
        CoreTransform::RemoveCol => RemoveColTransform::mutation_id().to_owned(),
    }
}

/// The first registered transform for `id`.
pub open spec fn lookup(reg: Seq<CoreTransform>, id: Seq<char>) -> Option<CoreTransform>
    decreases reg.len(),
{
    if reg.len() == 0 {
        None
    } else if core_id(reg[0]) == id {
        Some(reg[0])
    } else {
        lookup(reg.drop_first(), id)
    }
}

/// `m1`, handled by transform `k`, against `m2`: the rule for `m2`'s type when
/// it is one of the registered types, both unchanged otherwise.
pub open spec fn dispatched(k: CoreTransform, m1: Mutation, m2: Mutation) -> Outcome {
    let d = m2.id;
    if d == set_range_values_id() {
        match k {
            CoreTransform::SetRangeValues => values_vs_values(m1, m2),
            CoreTransform::InsertRow => insert_vs_values(m1, m2, Axis::Rows),
            CoreTransform::InsertCol => insert_vs_values(m1, m2, Axis::Columns),
            CoreTransform::RemoveRows => remove_vs_values(m1, m2, Axis::Rows),
            CoreTransform::RemoveCol => remove_vs_values(m1, m2, Axis::Columns),
        }
    } else if d == insert_row_id() {
        match k {
            CoreTransform::SetRangeValues => values_vs_insert(m1, m2, Axis::Rows),
            CoreTransform::InsertRow => inserts_reconciled(m1, m2, Axis::Rows, false),
            CoreTransform::RemoveRows => row_remove_vs_insert(m1, m2),
            _ => unchanged(m1, m2),
        }
    } else if d == insert_col_id() {
        match k {
            CoreTransform::SetRangeValues => values_vs_insert(m1, m2, Axis::Columns),
            CoreTransform::InsertCol => inserts_reconciled(m1, m2, Axis::Columns, true),
            CoreTransform::RemoveCol => col_remove_vs_insert(m1, m2),
            _ => unchanged(m1, m2),
        }
    } else if d == remove_rows_id() {
        match k {
            CoreTransform::SetRangeValues => values_vs_remove(m1, m2, Axis::Rows),
            CoreTransform::InsertRow => row_insert_vs_remove(m1, m2),
            CoreTransform::RemoveRows => row_removals_reconciled(m1, m2),
            _ => unchanged(m1, m2),
        }
    } else if d == remove_col_id() {
        match k {
            CoreTransform::SetRangeValues => values_vs_remove(m1, m2, Axis::Columns),
            CoreTransform::InsertCol => col_insert_vs_remove(m1, m2),
            CoreTransform::RemoveCol => col_removals_reconciled(m1, m2),
            _ => unchanged(m1, m2),
        }
    } else {
        unchanged(m1, m2)
    }
}

/// `m1` against `m2` under the registry `reg`: the transform registered for
/// `m1`'s id decides; with none, both are kept.
pub open spec fn transformed(reg: Seq<CoreTransform>, m1: Mutation, m2: Mutation) -> Outcome {
    match lookup(reg, m1.id) {
        Some(k) => dispatched(k, m1, m2),
        None => unchanged(m1, m2),
    }
}

/// What transform `k` merges two consecutive mutations into.
pub open spec fn composed_by(k: CoreTransform, m1: Mutation, m2: Mutation) -> Seq<Mutation> {
    match k {
        CoreTransform::SetRangeValues => values_composed(m1, m2),
        CoreTransform::InsertRow => insert_rows_composed(m1, m2),
        CoreTransform::RemoveRows => remove_rows_composed(m1, m2),
        _ => seq![m1, m2],
    }
}

/// Two consecutive mutations merged: only mutations with the same id and a
/// registered transform can merge.
pub open spec fn composed(reg: Seq<CoreTransform>, m1: Mutation, m2: Mutation) -> Seq<Mutation> {
    if m1.id != m2.id {
        seq![m1, m2]
    } else {
        match lookup(reg, m1.id) {
            Some(k) => composed_by(k, m1, m2),
            None => seq![m1, m2],
        }
    }
}

/// The outcome of transforming two lists of concurrent mutations.
pub struct ListOutcome {
    pub m1_primes: Seq<Mutation>,
    pub m2_primes: Seq<Mutation>,
    pub error: Option<Seq<char>>,
}

/// One state of passing a concurrent mutation through a list: the rewritten
/// list so far, what is left of the mutation, and an error if one occurred.
pub struct Pass {
    pub list: Seq<Mutation>,
    pub carried: Option<Mutation>,
    pub error: Option<Seq<char>>,
}

/// `m2` passed through `m1s` in order: each element is transformed against
/// what is left of `m2` and is replaced by its own rewriting; once `m2` is
/// dropped, the remaining elements are kept as they are.
pub open spec fn pass_through(reg: Seq<CoreTransform>, m1s: Seq<Mutation>, m2: Option<Mutation>) -> Pass
    decreases m1s.len(),
{
    if m1s.len() == 0 {
        Pass { list: Seq::empty(), carried: m2, error: None }
    } else {
        let prev = pass_through(reg, m1s.drop_last(), m2);
        if prev.error is Some {
            prev
        } else {
            match prev.carried {
                None => Pass { list: prev.list.push(m1s.last()), carried: None, error: None },
                Some(m2v) => {
                    let o = transformed(reg, m1s.last(), m2v);
                    if o.error is Some {
                        Pass { list: prev.list, carried: prev.carried, error: o.error }
                    } else {
                        Pass {
                            list: match o.m1_prime {
                                Some(x) => prev.list.push(x),
                                None => prev.list,
                            },
                            carried: o.m2_prime,
                            error: None,
                        }
                    }
                },
            }
        }
    }
}

/// Every element of `m2s`, in order, passed through the current list of
/// `m1s`; the first error ends the whole transformation with empty lists.
pub open spec fn passes(reg: Seq<CoreTransform>, m1s: Seq<Mutation>, m2s: Seq<Mutation>) -> ListOutcome
    decreases m2s.len(),
{
    if m2s.len() == 0 {
        ListOutcome { m1_primes: m1s, m2_primes: Seq::empty(), error: None }
    } else {
        let prev = passes(reg, m1s, m2s.drop_last());
        if prev.error is Some {
            prev
        } else {
            let p = pass_through(reg, prev.m1_primes, Some(m2s.last()));
            if p.error is Some {
                ListOutcome { m1_primes: Seq::empty(), m2_primes: Seq::empty(), error: p.error }
            } else {
                ListOutcome {
                    m1_primes: p.list,
                    m2_primes: match p.carried {
                        Some(x) => prev.m2_primes.push(x),
                        None => prev.m2_primes,
                    },
                    error: None,
                }
            }
        }
    }
}

/// Two lists of concurrent mutations transformed against each other.
pub open spec fn list_transformed(reg: Seq<CoreTransform>, m1s: Seq<Mutation>, m2s: Seq<Mutation>) -> ListOutcome {
    if m1s.len() == 0 {
        ListOutcome { m1_primes: Seq::empty(), m2_primes: m2s, error: None }
    } else {
        passes(reg, m1s, m2s)
    }
}

/// A list of consecutive mutations with each one merged into the one before
/// it where the two merge.
pub open spec fn list_composed(reg: Seq<CoreTransform>, list: Seq<Mutation>) -> Seq<Mutation>
    decreases list.len(),
{
    if list.len() == 0 {
        Seq::empty()
    } else {
        let prev = list_composed(reg, list.drop_last());
        let cur = list.last();
        if prev.len() == 0 {
            seq![cur]
        } else {
            let c = composed(reg, prev.last(), cur);
            if c.len() == 1 {
                prev.drop_last().push(c[0])
            } else {
                prev.drop_last().push(prev.last()).push(cur)
            }
        }
    }
}

/// The registry of transforms and the operations that use it.
pub struct TransformServiceCore {
    transforms: Vec<CoreTransform>,
}

impl TransformServiceCore {
    /// The registered transforms, in registration order.
    pub closed spec fn registry(&self) -> Seq<CoreTransform> {
        self.transforms@
    }

    /// The registry of a new service.
    pub open spec fn standard_registry() -> Seq<CoreTransform> {
        seq![
            CoreTransform::SetRangeValues,
            CoreTransform::InsertRow,
            CoreTransform::InsertCol,
            CoreTransform::RemoveRows,
            CoreTransform::RemoveCol,
        ]
    }

    /// A service with the five transforms registered.
    pub fn new() -> (s: Self)
        ensures
            s.registry() == Self::standard_registry(),
    {
        let mut s = TransformServiceCore { transforms: Vec::new() };
        s.register_transform(CoreTransform::SetRangeValues);
        s.register_transform(CoreTransform::InsertRow);
        s.register_transform(CoreTransform::InsertCol);
        s.register_transform(CoreTransform::RemoveRows);
        s.register_transform(CoreTransform::RemoveCol);
        assert(s.transforms@ =~= Self::standard_registry());
        s
    }

    /// Registers `k` unless it is registered already.
    fn register_transform(&mut self, k: CoreTransform)
        ensures
            final(self).transforms@ == if old(self).transforms@.contains(k) {
                old(self).transforms@
            } else {
                old(self).transforms@.push(k)
            },
    {
        let mut i: usize = 0;
        while i < self.transforms.len()
            invariant
                0 <= i <= self.transforms.len(),
                forall|j: int| 0 <= j < i ==> self.transforms@[j] != k,
            decreases self.transforms.len() - i,
        {
            if self.transforms[i] == k {
                return;
            }
            i += 1;
        }
        self.transforms.push(k);
    }

    /// The transform registered for `id`, if any.
    fn find(&self, id: &String) -> (r: Option<CoreTransform>)
        ensures
            r == lookup(self.registry(), id@),
    {
        let mut i: usize = 0;
        assert(self.transforms@.subrange(0, self.transforms@.len() as int) =~= self.transforms@);
        while i < self.transforms.len()
            invariant
                0 <= i <= self.transforms.len(),
                lookup(self.transforms@, id@) == lookup(self.transforms@.subrange(i as int, self.transforms@.len() as int), id@),
            decreases self.transforms.len() - i,
        {
            let k = self.transforms[i];
            let ghost rest = self.transforms@.subrange(i as int, self.transforms@.len() as int);
            assert(rest.drop_first() =~= self.transforms@.subrange(i + 1, self.transforms@.len() as int));
            assert(rest[0] == k);
            if *id == id_text(k) {
                return Some(k);
            }
            i += 1;
        }
        None
    }

    /// `m1` against a concurrent `m2`.
    pub fn transform(&self, m1: &MutationInfo, m2: &MutationInfo) -> (r: TransformResult)
        ensures
            r@ == transformed(self.registry(), m1@, m2@),
    {
        match self.find(&m1.id) {
            Some(k) => dispatch(k, m1, m2),
            None => keep_both(m1, m2),
        }
    }

    /// Two consecutive mutations merged into one, or both when they do not merge.
    pub fn compose(&self, m1: &MutationInfo, m2: &MutationInfo) -> (r: Vec<MutationInfo>)
        ensures
            mutations_view(r@) == composed(self.registry(), m1@, m2@),
    {
        if m1.id != m2.id {
            return both(m1, m2);
        }
        match self.find(&m1.id) {
            Some(k) => compose_with(k, m1, m2),
            None => both(m1, m2),
        }
    }

    /// Passes `m2` through `m1s`, starting from the state reached so far.
    fn pass_one(&self, m1s: &Vec<MutationInfo>, m2: &MutationInfo) -> (r: (Vec<MutationInfo>, Option<MutationInfo>, Option<String>))
        ensures
            ({
                let p = pass_through(self.registry(), mutations_view(m1s@), Some(m2@));
                &&& p.error is Some ==> r.2 is Some && r.2->0@ == p.error->0
                &&& p.error is None ==> r.2 is None && mutations_view(r.0@) == p.list
                    && opt_mutation(r.1) == p.carried
            }),
    {
        let ghost reg = self.registry();
        let ghost all = mutations_view(m1s@);
        let mut current: Option<MutationInfo> = Some(m2.copy());
        let mut list: Vec<MutationInfo> = Vec::new();
        let mut i: usize = 0;
        while i < m1s.len()
            invariant
                0 <= i <= m1s.len(),
                all == mutations_view(m1s@),
                reg == self.registry(),
                ({
                    let p = pass_through(reg, all.subrange(0, i as int), Some(m2@));
                    p.error is None && mutations_view(list@) == p.list && opt_mutation(current) == p.carried
                }),
            decreases m1s.len() - i,
        {
            assert(all.subrange(0, i + 1).drop_last() =~= all.subrange(0, i as int));
            assert(all.subrange(0, i + 1).last() == m1s@[i as int]@);
            let ghost before = list@;
            match &current {
                Some(m2v) => {
                    let res = self.transform(&m1s[i], m2v);
                    match res.error {
                        Some(err) => {
                            proof {
                                assert(pass_through(reg, all.subrange(0, i + 1), Some(m2@)).error == Some(err@));
                                lemma_pass_error_sticks(reg, all, Some(m2@), (i + 1) as nat);
                            }
                            assert(all.subrange(0, m1s.len() as int) =~= all);
                            return (Vec::new(), None, Some(err));
                        },
                        None => {},
                    }
                    match res.m1_prime {
                        Some(x) => {
                            list.push(x);
                            assert(mutations_view(list@) =~= mutations_view(before).push(x@));
                        },
                        None => {},
                    }
                    current = res.m2_prime;
                },
                None => {
                    let x = m1s[i].copy();
                    list.push(x);
                    assert(mutations_view(list@) =~= mutations_view(before).push(x@));
                },
            }
            i += 1;
        }
        assert(all.subrange(0, m1s.len() as int) =~= all);
        (list, current, None)
    }

    /// Two lists of concurrent mutations transformed against each other: the
    /// rewritten `m1s`, the rewritten `m2s`, or an error with empty lists.
    pub fn transform_list(&self, m1_list: &Vec<MutationInfo>, m2_list: &Vec<MutationInfo>) -> (r: (Vec<MutationInfo>, Vec<MutationInfo>, Option<String>))
        ensures
            ({
                let o = list_transformed(self.registry(), mutations_view(m1_list@), mutations_view(m2_list@));
                &&& mutations_view(r.0@) == o.m1_primes
                &&& mutations_view(r.1@) == o.m2_primes
                &&& opt_text_view(r.2) == o.error
            }),
    {
        let ghost reg = self.registry();
        let ghost m1s = mutations_view(m1_list@);
        let ghost m2s = mutations_view(m2_list@);
        if m1_list.len() == 0 {
            let r = (Vec::new(), copy_mutations(m2_list), None);
            assert(mutations_view(r.0@) =~= Seq::<Mutation>::empty());
            return r;
        }
        let mut current = copy_mutations(m1_list);
        let mut m2_primes: Vec<MutationInfo> = Vec::new();
        let mut j: usize = 0;
        assert(m2s.subrange(0, 0) =~= Seq::<Mutation>::empty());
        assert(mutations_view(m2_primes@) =~= Seq::<Mutation>::empty());
        while j < m2_list.len()
            invariant
                0 <= j <= m2_list.len(),
                reg == self.registry(),
                m2s == mutations_view(m2_list@),
                m1s == mutations_view(m1_list@),
                m1s.len() > 0,
                ({
                    let o = passes(reg, m1s, m2s.subrange(0, j as int));
                    o.error is None && mutations_view(current@) == o.m1_primes
                        && mutations_view(m2_primes@) == o.m2_primes
                }),
            decreases m2_list.len() - j,
        {
            proof {
                lemma_passes_step(reg, m1s, m2s, j as nat);
            }
            let (list, carried, err) = self.pass_one(&current, &m2_list[j]);
            match err {
                Some(e) => {
                    proof {
                        lemma_passes_error_stays(reg, m1s, m2s, (j + 1) as nat);
                    }
                    let r = (Vec::new(), Vec::new(), Some(e));
                    assert(mutations_view(r.0@) =~= Seq::<Mutation>::empty());
                    assert(mutations_view(r.1@) =~= Seq::<Mutation>::empty());
                    return r;
                },
                None => {},
            }
            let ghost before = m2_primes@;
            match carried {
                Some(x) => {
                    m2_primes.push(x);
                    assert(mutations_view(m2_primes@) =~= mutations_view(before).push(x@));
                },
                None => {},
            }
            current = list;
            j += 1;
        }
        assert(m2s.subrange(0, m2_list.len() as int) =~= m2s);
        (current, m2_primes, None)
    }

    /// A list of consecutive mutations with neighbours merged where they merge.
    pub fn compose_list(&self, list: &Vec<MutationInfo>) -> (r: Vec<MutationInfo>)
        ensures
            mutations_view(r@) == list_composed(self.registry(), mutations_view(list@)),
    {
        let ghost reg = self.registry();
        let ghost all = mutations_view(list@);
        let mut result: Vec<MutationInfo> = Vec::new();
        let mut i: usize = 0;
        assert(mutations_view(result@) =~= list_composed(reg, all.subrange(0, 0)));
        while i < list.len()
            invariant
                0 <= i <= list.len(),
                reg == self.registry(),
                all == mutations_view(list@),
                mutations_view(result@) == list_composed(reg, all.subrange(0, i as int)),
            decreases list.len() - i,
        {
            assert(all.subrange(0, i + 1).drop_last() =~= all.subrange(0, i as int));
            assert(all.subrange(0, i + 1).last() == list@[i as int]@);
            let current = list[i].copy();
            let ghost before = result@;
            match result.pop() {
                Some(last) => {
                    assert(mutations_view(result@) =~= mutations_view(before).drop_last());
                    let c = self.compose(&last, &current);
                    if c.len() == 1 {
                        let merged = c[0].copy();
                        result.push(merged);
                        assert(mutations_view(result@) =~= mutations_view(before).drop_last().push(merged@));
                    } else {
                        let ghost mid = result@;
                        result.push(last);
                        result.push(current);
                        assert(mutations_view(result@) =~= mutations_view(mid).push(last@).push(current@));
                    }
                },
                None => {
                    result.push(current);
                    assert(mutations_view(result@) =~= seq![current@]);
                },
            }
            i += 1;
        }
        assert(all.subrange(0, list.len() as int) =~= all);
        result
    }
}

pub open spec fn opt_mutation(o: Option<MutationInfo>) -> Option<Mutation> {
    match o {
        Some(m) => Some(m@),
        None => None,
    }
}

proof fn lemma_pass_error_sticks(reg: Seq<CoreTransform>, all: Seq<Mutation>, m2: Option<Mutation>, n: nat)
    requires
        n <= all.len(),
        pass_through(reg, all.subrange(0, n as int), m2).error is Some,
    ensures
        pass_through(reg, all, m2).error == pass_through(reg, all.subrange(0, n as int), m2).error,
    decreases all.len() - n,
{
    if n < all.len() {
        assert(all.subrange(0, n as int + 1).drop_last() =~= all.subrange(0, n as int));
        lemma_pass_error_sticks(reg, all, m2, n + 1);
    } else {
        assert(all.subrange(0, n as int) =~= all);
    }
}

proof fn lemma_passes_step(reg: Seq<CoreTransform>, m1s: Seq<Mutation>, m2s: Seq<Mutation>, j: nat)
    requires
        j < m2s.len(),
        passes(reg, m1s, m2s.subrange(0, j as int)).error is None,
    ensures
        ({
            let prev = passes(reg, m1s, m2s.subrange(0, j as int));
            let p = pass_through(reg, prev.m1_primes, Some(m2s[j as int]));
            let next = passes(reg, m1s, m2s.subrange(0, j as int + 1));
            &&& p.error is Some ==> next.error == p.error && next.m1_primes == Seq::<Mutation>::empty()
                && next.m2_primes == Seq::<Mutation>::empty()
            &&& p.error is None ==> next.error is None && next.m1_primes == p.list && next.m2_primes == match p.carried {
                Some(x) => prev.m2_primes.push(x),
                None => prev.m2_primes,
            }
        }),
{
    assert(m2s.subrange(0, j as int + 1).drop_last() =~= m2s.subrange(0, j as int));
    assert(m2s.subrange(0, j as int + 1).last() == m2s[j as int]);
}

proof fn lemma_passes_error_stays(reg: Seq<CoreTransform>, m1s: Seq<Mutation>, m2s: Seq<Mutation>, n: nat)
    requires
        n <= m2s.len(),
        passes(reg, m1s, m2s.subrange(0, n as int)).error is Some,
    ensures
        passes(reg, m1s, m2s) == passes(reg, m1s, m2s.subrange(0, n as int)),
    decreases m2s.len() - n,
{
    if n < m2s.len() {
        assert(m2s.subrange(0, n as int + 1).drop_last() =~= m2s.subrange(0, n as int));
        lemma_passes_error_stays(reg, m1s, m2s, n + 1);
    } else {
        assert(m2s.subrange(0, n as int) =~= m2s);
    }
}

/// An exact copy of a list of mutations.
pub fn copy_mutations(v: &Vec<MutationInfo>) -> (r: Vec<MutationInfo>)
    ensures
        mutations_view(r@) == mutations_view(v@),
{
    let mut r: Vec<MutationInfo> = Vec::new();
    let mut i: usize = 0;
    while i < v.len()
        invariant
            0 <= i <= v.len(),
            r@.len() == i,
            forall|j: int| 0 <= j < i ==> #[trigger] r@[j]@ == v@[j]@,
        decreases v.len() - i,
    {
        r.push(v[i].copy());
        i += 1;
    }
    assert(mutations_view(r@) =~= mutations_view(v@));
    r
}

/// `m1`, handled by transform `k`, against `m2`.
fn dispatch(k: CoreTransform, m1: &MutationInfo, m2: &MutationInfo) -> (r: TransformResult)
    ensures
        r@ == dispatched(k, m1@, m2@),
{
    if m2.id == id_text(CoreTransform::SetRangeValues) {
        match k {
            CoreTransform::SetRangeValues => SetRangeValuesTransform.transform_with_set_range_values(m1, m2),
            CoreTransform::InsertRow => InsertRowTransform.transform_with_set_range_values(m1, m2),
            CoreTransform::InsertCol => InsertColTransform.transform_with_set_range_values(m1, m2),
            CoreTransform::RemoveRows => RemoveRowsTransform.transform_with_set_range_values(m1, m2),
            CoreTransform::RemoveCol => RemoveColTransform.transform_with_set_range_values(m1, m2),
        }
    } else if m2.id == id_text(CoreTransform::InsertRow) {
        match k {
            CoreTransform::SetRangeValues => SetRangeValuesTransform.transform_with_insert_row(m1, m2),
            CoreTransform::InsertRow => InsertRowTransform.transform_with_insert_row(m1, m2),
            CoreTransform::InsertCol => InsertColTransform.transform_with_insert_row(m1, m2),
            CoreTransform::RemoveRows => RemoveRowsTransform.transform_with_insert_row(m1, m2),
            CoreTransform::RemoveCol => RemoveColTransform.transform_with_insert_row(m1, m2),
        }
    } else if m2.id == id_text(CoreTransform::InsertCol) {
        match k {
            CoreTransform::SetRangeValues => SetRangeValuesTransform.transform_with_insert_col(m1, m2),
            CoreTransform::InsertRow => InsertRowTransform.transform_with_insert_col(m1, m2),
            CoreTransform::InsertCol => InsertColTransform.transform_with_insert_col(m1, m2),
            CoreTransform::RemoveRows => RemoveRowsTransform.transform_with_insert_col(m1, m2),
            CoreTransform::RemoveCol => RemoveColTransform.transform_with_insert_col(m1, m2),
        }
    } else if m2.id == id_text(CoreTransform::RemoveRows) {
        match k {
            CoreTransform::SetRangeValues => SetRangeValuesTransform.transform_with_remove_rows(m1, m2),
            CoreTransform::InsertRow => InsertRowTransform.transform_with_remove_rows(m1, m2),
            CoreTransform::InsertCol => InsertColTransform.transform_with_remove_rows(m1, m2),
            CoreTransform::RemoveRows => RemoveRowsTransform.transform_with_remove_rows(m1, m2),
            CoreTransform::RemoveCol => RemoveColTransform.transform_with_remove_rows(m1, m2),
        }
    } else if m2.id == id_text(CoreTransform::RemoveCol) {
        match k {
            CoreTransform::SetRangeValues => SetRangeValuesTransform.transform_with_remove_col(m1, m2),
            CoreTransform::InsertRow => InsertRowTransform.transform_with_remove_col(m1, m2),
            CoreTransform::InsertCol => InsertColTransform.transform_with_remove_col(m1, m2),
            CoreTransform::RemoveRows => RemoveRowsTransform.transform_with_remove_col(m1, m2),
            CoreTransform::RemoveCol => RemoveColTransform.transform_with_remove_col(m1, m2),
        }
    } else {
        keep_both(m1, m2)
    }
}

/// Two consecutive mutations merged by transform `k`.
fn compose_with(k: CoreTransform, m1: &MutationInfo, m2: &MutationInfo) -> (r: Vec<MutationInfo>)
    ensures
        mutations_view(r@) == composed_by(k, m1@, m2@),
{
    match k {
        CoreTransform::SetRangeValues => SetRangeValuesTransform.compose(m1, m2),
        CoreTransform::InsertRow => InsertRowTransform.compose(m1, m2),
        CoreTransform::InsertCol => InsertColTransform.compose(m1, m2),
        CoreTransform::RemoveRows => RemoveRowsTransform.compose(m1, m2),
        CoreTransform::RemoveCol => RemoveColTransform.compose(m1, m2),
    }
}

/// The outcome of transforming two lists of mutations.
pub struct TransformListResult {
    pub m1_prime_list: Vec<MutationInfo>,
    pub m2_prime_list: Vec<MutationInfo>,
    pub error: Option<String>,
}

/// The mutations a composition gives.
pub struct ComposeResult {
    pub mutations: Vec<MutationInfo>,
}

/// The service handed to callers: a registry of transforms behind the
/// operations on mutations and lists of mutations.
pub struct TransformService {
    core: TransformServiceCore,
}

impl TransformService {
    pub closed spec fn registry(&self) -> Seq<CoreTransform> {
        self.core.registry()
    }

    pub fn new() -> (s: Self)
        ensures
            s.registry() == TransformServiceCore::standard_registry(),
    {
        TransformService { core: TransformServiceCore::new() }
    }

    /// `m1` against a concurrent `m2`.
    pub fn transform(&self, m1: &MutationInfo, m2: &MutationInfo) -> (r: TransformResult)
        ensures
            r@ == transformed(self.registry(), m1@, m2@),
    {
        self.core.transform(m1, m2)
    }

    /// Two lists of concurrent mutations transformed against each other.
    pub fn transform_list(&self, m1_list: &Vec<MutationInfo>, m2_list: &Vec<MutationInfo>) -> (r: TransformListResult)
        ensures
            ({
                let o = list_transformed(self.registry(), mutations_view(m1_list@), mutations_view(m2_list@));
                &&& mutations_view(r.m1_prime_list@) == o.m1_primes
                &&& mutations_view(r.m2_prime_list@) == o.m2_primes
                &&& opt_text_view(r.error) == o.error
            }),
    {
        let (m1_prime_list, m2_prime_list, error) = self.core.transform_list(m1_list, m2_list);
        TransformListResult { m1_prime_list, m2_prime_list, error }
    }

    /// Two consecutive mutations merged where they merge.
    pub fn compose(&self, m1: &MutationInfo, m2: &MutationInfo) -> (r: ComposeResult)
        ensures
            mutations_view(r.mutations@) == composed(self.registry(), m1@, m2@),
    {
        ComposeResult { mutations: self.core.compose(m1, m2) }
    }

    /// A list of consecutive mutations with neighbours merged where they merge.
    pub fn compose_list(&self, list: &Vec<MutationInfo>) -> (r: ComposeResult)
        ensures
            mutations_view(r.mutations@) == list_composed(self.registry(), mutations_view(list@)),
    {
        ComposeResult { mutations: self.core.compose_list(list) }
    }

    pub fn transform_internal(&self, m1: &MutationInfo, m2: &MutationInfo) -> (r: TransformResult)
        ensures
            r@ == transformed(self.registry(), m1@, m2@),
    {
        self.core.transform(m1, m2)
    }

    pub fn transform_list_internal(&self, m1_list: &Vec<MutationInfo>, m2_list: &Vec<MutationInfo>) -> (r: (Vec<MutationInfo>, Vec<MutationInfo>, Option<String>))
        ensures
            ({
                let o = list_transformed(self.registry(), mutations_view(m1_list@), mutations_view(m2_list@));
                &&& mutations_view(r.0@) == o.m1_primes
                &&& mutations_view(r.1@) == o.m2_primes
                &&& opt_text_view(r.2) == o.error
            }),
    {
        self.core.transform_list(m1_list, m2_list)
    }

    pub fn compose_internal(&self, m1: &MutationInfo, m2: &MutationInfo) -> (r: Vec<MutationInfo>)
        ensures
            mutations_view(r@) == composed(self.registry(), m1@, m2@),
    {
        self.core.compose(m1, m2)
    }

    pub fn compose_list_internal(&self, list: &Vec<MutationInfo>) -> (r: Vec<MutationInfo>)
        ensures
            mutations_view(r@) == list_composed(self.registry(), mutations_view(list@)),
    {
        self.core.compose_list(list)
    }
}

} // verus!
