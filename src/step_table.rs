use crate::appending::{appended_in_turn, appends_keep_order};
use crate::float_bits::F64Bits;
use crate::sorting::{insertion_sort, neighbours_in_order, SortKey};
use vstd::pervasive::VecAdditionalExecFns;
use vstd::prelude::*;

verus! {

/// One measurement step: the input sizes it ran with, its average timings,
/// and how much each timing exceeds the lowest of its entry, in percent.
#[derive(Debug)]
pub struct StepRepeatIncr {
    pub input_vars: Vec<u64>,
    pub avg_extrinsic_time: F64Bits,
    pub avg_storage_root_time: F64Bits,
    pub extrinsic_percentage: F64Bits,
    pub storage_root_percentage: F64Bits,
}

impl SortKey for StepRepeatIncr {
    open spec fn spec_sort_key(&self) -> F64Bits {
        self.extrinsic_percentage
    }

    fn sort_key(&self) -> (r: F64Bits) {
        self.extrinsic_percentage
    }
}

/// The steps measured for one operation of one category.
#[derive(Debug)]
pub struct StepIncrTableEntry {
    pub pallet: String,
    pub extrinsic: String,
    pub steps: Vec<StepRepeatIncr>,
}

/// The row that `raw_list` hands out for one step.
pub type StepRow<'a> = (&'a str, &'a str, &'a [u64], F64Bits, F64Bits, F64Bits, F64Bits);

/// The mathematical content of a `StepRow`.
pub type StepRowView = (Seq<char>, Seq<char>, Seq<u64>, F64Bits, F64Bits, F64Bits, F64Bits);

pub open spec fn step_row_view(t: StepRow) -> StepRowView {
    (t.0@, t.1@, t.2@, t.3, t.4, t.5, t.6)
}

/// The row of step `s` of entry `e`: the entry's names, then the step's fields.
pub open spec fn step_row_of(e: StepIncrTableEntry, s: StepRepeatIncr) -> StepRowView {
    (
        e.pallet@,
        e.extrinsic@,
        s.input_vars@,
        s.avg_extrinsic_time,
        s.avg_storage_root_time,
        s.extrinsic_percentage,
        s.storage_root_percentage,
    )
}

/// The rows of one entry, one per step, in step order.
pub open spec fn entry_rows(e: StepIncrTableEntry) -> Seq<StepRowView> {
    e.steps@.map_values(|s: StepRepeatIncr| step_row_of(e, s))
}

/// The rows of all entries: entry by entry, and within an entry step by step.
pub open spec fn flatten_rows(entries: Seq<StepIncrTableEntry>) -> Seq<StepRowView>
    decreases entries.len(),
{
    if entries.len() == 0 {
        Seq::empty()
    } else {
        flatten_rows(entries.drop_last()) + entry_rows(entries.last())
    }
}

/// Before any sort, the export of a table built from empty by appending
/// `entries` in turn is the rows of `entries`, in append order.
pub proof fn raw_list_follows_appends(entries: Seq<StepIncrTableEntry>)
    ensures
        flatten_rows(appended_in_turn(entries)) == flatten_rows(entries),
{
    appends_keep_order(entries);
}

/// The number of steps over all entries.
pub open spec fn total_steps(entries: Seq<StepIncrTableEntry>) -> nat
    decreases entries.len(),
{
    if entries.len() == 0 {
        0
    } else {
        total_steps(entries.drop_last()) + entries.last().steps@.len()
    }
}

/// Every entry's steps are in descending order of extrinsic percentage
/// wherever two neighbours are comparable.
pub open spec fn steps_sorted(entries: Seq<StepIncrTableEntry>) -> bool {
    forall|i: int| 0 <= i < entries.len() ==> neighbours_in_order(#[trigger] entries[i].steps@, true)
}

/// `after` is what `sort_by_extrinsic_percentage` may leave of `before`: the
/// same entries in the same order under the same names, each holding the same
/// steps with neighbours in descending order of extrinsic percentage, and no
/// entry's steps moved when they already were in that order.
pub open spec fn sorts_steps(before: Seq<StepIncrTableEntry>, after: Seq<StepIncrTableEntry>) -> bool {
    &&& after.len() == before.len()
    &&& steps_sorted(after)
    &&& forall|i: int|
        0 <= i < after.len() ==> {
            &&& (#[trigger] after[i]).pallet == before[i].pallet
            &&& after[i].extrinsic == before[i].extrinsic
            &&& after[i].steps@.to_multiset() == before[i].steps@.to_multiset()
            &&& neighbours_in_order(before[i].steps@, true) ==> after[i].steps@ == before[i].steps@
        }
}

/// Sorting the steps a second time changes nothing.
pub proof fn sort_steps_idempotent(
    t0: Seq<StepIncrTableEntry>,
    t1: Seq<StepIncrTableEntry>,
    t2: Seq<StepIncrTableEntry>,
)
    requires
        sorts_steps(t0, t1),
        sorts_steps(t1, t2),
    ensures
        forall|i: int|
            0 <= i < t2.len() ==> (#[trigger] t2[i]).steps@ == t1[i].steps@ && t2[i].pallet
                == t1[i].pallet && t2[i].extrinsic == t1[i].extrinsic,
        flatten_rows(t2) == flatten_rows(t1),
{
    assert forall|i: int| 0 <= i < t2.len() implies #[trigger] entry_rows(t2[i]) == entry_rows(
        t1[i],
    ) by {
        assert(neighbours_in_order(t1[i].steps@, true));
        assert(entry_rows(t2[i]) =~= entry_rows(t1[i]));
    }
    lemma_flatten_rows_pointwise(t1, t2);
}

/// Two tables whose entries give the same rows, one by one, give the same
/// flattened rows.
proof fn lemma_flatten_rows_pointwise(a: Seq<StepIncrTableEntry>, b: Seq<StepIncrTableEntry>)
    requires
        a.len() == b.len(),
        forall|i: int| 0 <= i < a.len() ==> #[trigger] entry_rows(b[i]) == entry_rows(a[i]),
    ensures
        flatten_rows(a) == flatten_rows(b),
    decreases a.len(),
{
    if a.len() > 0 {
        lemma_flatten_rows_pointwise(a.drop_last(), b.drop_last());
        assert(entry_rows(b[b.len() - 1]) == entry_rows(a[a.len() - 1]));
    }
}

/// The export has one row per step: as many rows as the entries hold steps.
pub proof fn flatten_len(entries: Seq<StepIncrTableEntry>)
    ensures
        flatten_rows(entries).len() == total_steps(entries),
    decreases entries.len(),
{
    if entries.len() > 0 {
        flatten_len(entries.drop_last());
    }
}

/// The export is entry-major: the rows of a table split in two are the rows
/// of its first part followed by those of its second.
pub proof fn flatten_concat(a: Seq<StepIncrTableEntry>, b: Seq<StepIncrTableEntry>)
    ensures
        flatten_rows(a + b) == flatten_rows(a) + flatten_rows(b),
    decreases b.len(),
{
    if b.len() == 0 {
        assert(a + b =~= a);
        assert(flatten_rows(a) + flatten_rows(b) =~= flatten_rows(a));
    } else {
        flatten_concat(a, b.drop_last());
        assert((a + b).drop_last() =~= a + b.drop_last());
        assert(flatten_rows(a + b) =~= flatten_rows(a) + flatten_rows(b));
    }
}

/// The export is step-minor: step `k` of entry `i` stands at the number of
/// steps before entry `i` plus `k`.
pub proof fn flatten_index(entries: Seq<StepIncrTableEntry>, i: int, k: int)
    requires
        0 <= i < entries.len(),
        0 <= k < entries[i].steps@.len(),
    ensures
        total_steps(entries.take(i)) + k < flatten_rows(entries).len(),
        flatten_rows(entries)[total_steps(entries.take(i)) + k] == step_row_of(
            entries[i],
            entries[i].steps@[k],
        ),
{
    let front = entries.take(i);
    let back = entries.skip(i);
    assert(entries =~= front + back);
    flatten_concat(front, back);
    let head = seq![entries[i]];
    let rest = entries.skip(i + 1);
    assert(back =~= head + rest);
    flatten_concat(head, rest);
    assert(head.drop_last() =~= Seq::<StepIncrTableEntry>::empty());
    assert(flatten_rows(head.drop_last()) =~= Seq::<StepRowView>::empty());
    assert(head.last() == entries[i]);
    assert(flatten_rows(head) =~= entry_rows(entries[i]));
    flatten_len(front);
}

/// An ordered collection of per-operation step measurements.
#[derive(Debug)]
pub struct StepIncrTable {
    inner: Vec<StepIncrTableEntry>,
}

impl View for StepIncrTable {
    type V = Seq<StepIncrTableEntry>;

    closed spec fn view(&self) -> Seq<StepIncrTableEntry> {
        self.inner@
    }
}

impl StepIncrTable {
    pub fn new() -> (r: StepIncrTable)
        ensures
            r@ == Seq::<StepIncrTableEntry>::empty(),
    {
        StepIncrTable { inner: Vec::new() }
    }

    /// Appends one entry, with all its steps, at the end.
    pub fn push(&mut self, pallet: String, extrinsic: String, steps: Vec<StepRepeatIncr>)
        ensures
            final(self)@ == old(self)@.push(StepIncrTableEntry { pallet, extrinsic, steps }),
    {
        self.inner.push(StepIncrTableEntry { pallet, extrinsic, steps });
    }

    /// Reorders the steps of every entry by descending extrinsic percentage.
    /// The entries keep their order and names, and no step leaves its entry.
    /// A pair involving a NaN counts as equal; the sort never fails.
    pub fn sort_by_extrinsic_percentage(&mut self)
        ensures
            sorts_steps(old(self)@, final(self)@),
    {
        let n = self.inner.len();
        let mut i: usize = 0;
        while i < n
            invariant
                n == self@.len(),
                n == old(self)@.len(),
                i <= n,
                forall|k: int| i <= k < n ==> self@[k] == old(self)@[k],
                forall|k: int|
                    0 <= k < i ==> {
                        &&& (#[trigger] self@[k]).pallet == old(self)@[k].pallet
                        &&& self@[k].extrinsic == old(self)@[k].extrinsic
                        &&& self@[k].steps@.to_multiset() == old(self)@[k].steps@.to_multiset()
                        &&& neighbours_in_order(self@[k].steps@, true)
                        &&& neighbours_in_order(old(self)@[k].steps@, true) ==> self@[k].steps@
                            == old(self)@[k].steps@
                    },
            decreases n - i,
        {
            let mut e = StepIncrTableEntry {
                pallet: String::new(),
                extrinsic: String::new(),
                steps: Vec::new(),
            };
            self.inner.set_and_swap(i, &mut e);
            insertion_sort(&mut e.steps, true);
            self.inner.set_and_swap(i, &mut e);
            i = i + 1;
        }
    }

    /// One row per step, entry by entry and within an entry in step order:
    /// pallet, extrinsic, input variables, average extrinsic time, average
    /// storage root time, extrinsic percentage, storage root percentage.
    pub fn raw_list(&self) -> (r: Vec<StepRow<'_>>)
        ensures
            r@.map_values(|t: StepRow| step_row_view(t)) == flatten_rows(self@),
            r@.len() == total_steps(self@),
    {
        let mut r: Vec<StepRow<'_>> = Vec::new();
        let n = self.inner.len();
        let mut i: usize = 0;
        while i < n
            invariant
                n == self@.len(),
                i <= n,
                r@.map_values(|t: StepRow| step_row_view(t)) == flatten_rows(
                    self@.subrange(0, i as int),
                ),
            decreases n - i,
        {
            let e = &self.inner[i];
            let m = e.steps.len();
            let mut k: usize = 0;
            let ghost prefix = r@;
            while k < m
                invariant
                    n == self@.len(),
                    i < n,
                    e == self@[i as int],
                    m == e.steps@.len(),
                    k <= m,
                    r@.len() == prefix.len() + k,
                    forall|p: int| 0 <= p < prefix.len() ==> r@[p] == prefix[p],
                    forall|p: int|
                        0 <= p < k ==> step_row_view(#[trigger] r@[prefix.len() + p])
                            == step_row_of(*e, e.steps@[p]),
                decreases m - k,
            {
                let s = &e.steps[k];
                r.push(
                    (
                        e.pallet.as_str(),
                        e.extrinsic.as_str(),
                        s.input_vars.as_slice(),
                        s.avg_extrinsic_time,
                        s.avg_storage_root_time,
                        s.extrinsic_percentage,
                        s.storage_root_percentage,
                    ),
                );
                k = k + 1;
            }
            proof {
                let sub = self@.subrange(0, i + 1);
                assert(sub.drop_last() =~= self@.subrange(0, i as int));
                let before = flatten_rows(self@.subrange(0, i as int));
                let mapped = r@.map_values(|t: StepRow| step_row_view(t));
                let want = before + entry_rows(*e);
                assert(prefix.map_values(|t: StepRow| step_row_view(t)) == before);
                assert(before.len() == prefix.len());
                assert forall|p: int| 0 <= p < mapped.len() implies mapped[p] == want[p] by {
                    if p < prefix.len() {
                        assert(r@[p] == prefix[p]);
                        assert(before[p] == step_row_view(prefix[p]));
                    } else {
                        let q = p - prefix.len();
                        assert(step_row_view(r@[prefix.len() + q]) == step_row_of(*e, e.steps@[q]));
                    }
                }
                assert(mapped =~= want);
            }
            i = i + 1;
        }
        assert(self@.subrange(0, n as int) =~= self@);
        proof {
            flatten_len(self@);
            assert(r@.map_values(|t: StepRow| step_row_view(t)).len() == r@.len());
        }
        r
    }
}

} // verus!
