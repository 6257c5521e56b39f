//! Per-file result records and the summary that adds them up.

use vstd::prelude::*;

verus! {

/// What became of one discovered file: its sizes before and after on
/// success, the reason on failure, and how long the work took.
#[derive(Debug, PartialEq, Eq)]
pub struct FileStat {
    pub path: String,
    pub before: u64,
    pub after: u64,
    pub error: Option<String>,
    pub duration_ms: u128,
}

/// The mathematical content of a `FileStat`.
pub struct StatView {
    pub path: Seq<char>,
    pub before: u64,
    pub after: u64,
    pub error: Option<Seq<char>>,
    pub duration_ms: u128,
}

impl View for FileStat {
    type V = StatView;

    open spec fn view(&self) -> StatView {
        StatView {
            path: self.path@,
            before: self.before,
            after: self.after,
            error: match self.error {
                Some(reason) => Some(reason@),
                None => None,
            },
            duration_ms: self.duration_ms,
        }
    }
}

impl StatView {
    /// Bytes saved on this file: the shrinkage, or zero where the file grew.
    pub open spec fn saved_bytes(self) -> nat {
        if self.before >= self.after {
            (self.before - self.after) as nat
        } else {
            0
        }
    }

    /// Whether the record reports a failure.
    pub open spec fn failed(self) -> bool {
        self.error is Some
    }
}

impl FileStat {
    /// The record of a file that was processed: its size before and after.
    pub fn success(path: String, before: u64, after: u64, duration_ms: u128) -> (stat: Self)
        ensures
            stat@ == (StatView { path: path@, before, after, error: None, duration_ms }),
            stat.path == path,
    {
        Self { path, before, after, error: None, duration_ms }
    }

    /// The record of a file that could not be processed: both sizes are zero
    /// and `error` holds the reason.
    pub fn error(path: String, error: String, duration_ms: u128) -> (stat: Self)
        ensures
            stat@ == (StatView {
                path: path@,
                before: 0,
                after: 0,
                error: Some(error@),
                duration_ms,
            }),
            stat.path == path,
            stat.error == Some(error),
    {
        Self { path, before: 0, after: 0, error: Some(error), duration_ms }
    }

    /// Bytes saved on this file; zero where the output is larger than the
    /// source.
    pub fn saved_bytes(&self) -> (saved: u64)
        ensures
            saved as nat == self@.saved_bytes(),
    {
        self.before.saturating_sub(self.after)
    }

    /// Whether this record reports a failure.
    pub fn is_failure(&self) -> (failed: bool)
        ensures
            failed == self@.failed(),
    {
        self.error.is_some()
    }
}

impl Clone for FileStat {
    fn clone(&self) -> (copy: Self)
        ensures
            copy@ == self@,
    {
        let error = match &self.error {
            Some(reason) => Some(reason.clone()),
            None => None,
        };
        FileStat {
            path: self.path.clone(),
            before: self.before,
            after: self.after,
            error,
            duration_ms: self.duration_ms,
        }
    }
}

/// The totals of a run, recomputed in full from its records.
#[derive(Debug, PartialEq, Eq)]
pub struct Summary {
    /// Number of records, one per discovered file.
    pub count: usize,
    /// Sum of the source sizes.
    pub total_before: u128,
    /// Sum of the output sizes.
    pub total_after: u128,
    /// `total_before` less `total_after`, or zero where the outputs are
    /// larger.
    pub total_saved: u128,
    /// The records that report a failure, in the order of the input.
    pub failed: Vec<FileStat>,
}

/// The mathematical content of a `Summary`.
pub struct SummaryView {
    pub count: nat,
    pub total_before: nat,
    pub total_after: nat,
    pub total_saved: nat,
    pub failed: Seq<StatView>,
}

impl View for Summary {
    type V = SummaryView;

    open spec fn view(&self) -> SummaryView {
        SummaryView {
            count: self.count as nat,
            total_before: self.total_before as nat,
            total_after: self.total_after as nat,
            total_saved: self.total_saved as nat,
            failed: views(self.failed@),
        }
    }
}

/// The records of a vector, each by its view.
pub open spec fn views(records: Seq<FileStat>) -> Seq<StatView> {
    records.map_values(|r: FileStat| r@)
}

/// Sum of the source sizes of `records`.
pub open spec fn sum_before(records: Seq<StatView>) -> nat
    decreases records.len(),
{
    if records.len() == 0 {
        0
    } else {
        sum_before(records.drop_last()) + records.last().before as nat
    }
}

/// Sum of the output sizes of `records`.
pub open spec fn sum_after(records: Seq<StatView>) -> nat
    decreases records.len(),
{
    if records.len() == 0 {
        0
    } else {
        sum_after(records.drop_last()) + records.last().after as nat
    }
}

/// The predicate that picks the failed records.
pub open spec fn is_failed() -> spec_fn(StatView) -> bool {
    |r: StatView| r.failed()
}

/// The failed records among `records`, in their order.
pub open spec fn failures(records: Seq<StatView>) -> Seq<StatView> {
    records.filter(is_failed())
}

/// `before` less `after`, stopping at zero.
pub open spec fn saved_total(before: nat, after: nat) -> nat {
    if before >= after {
        (before - after) as nat
    } else {
        0
    }
}

/// The summary that belongs to `records`.
pub open spec fn summary_of(records: Seq<StatView>) -> SummaryView {
    SummaryView {
        count: records.len(),
        total_before: sum_before(records),
        total_after: sum_after(records),
        total_saved: saved_total(sum_before(records), sum_after(records)),
        failed: failures(records),
    }
}

/// Either sum of `n` records stays under `n` times the largest size.
pub proof fn lemma_sums_bounded(records: Seq<StatView>)
    ensures
        sum_before(records) <= records.len() * u64::MAX,
        sum_after(records) <= records.len() * u64::MAX,
    decreases records.len(),
{
    if records.len() > 0 {
        lemma_sums_bounded(records.drop_last());
        assert((records.len() - 1) * u64::MAX + u64::MAX == records.len() * u64::MAX)
            by (nonlinear_arith);
    }
}

/// Reduces the records of a run to its summary: how many there are, the
/// sums of their sizes, what was saved in all, and the failures in order.
pub fn aggregate(records: &Vec<FileStat>) -> (summary: Summary)
    ensures
        summary@ == summary_of(views(records@)),
{
    let ghost all = views(records@);
    let mut total_before: u128 = 0;
    let mut total_after: u128 = 0;
    let mut failed: Vec<FileStat> = Vec::new();
    let mut i: usize = 0;
    proof {
        assert(all.take(0) =~= Seq::<StatView>::empty());
        assert(views(failed@) =~= Seq::<StatView>::empty());
    }
    while i < records.len()
        invariant
            i <= records.len(),
            all == views(records@),
            total_before as nat == sum_before(all.take(i as int)),
            total_after as nat == sum_after(all.take(i as int)),
            views(failed@) == failures(all.take(i as int)),
        decreases records.len() - i,
    {
        let record = &records[i];
        proof {
            let seen = all.take(i as int);
            let next = all.take(i + 1);
            assert(next.drop_last() =~= seen);
            assert(next.last() == record@);
            assert(next =~= seen.push(record@));
            lemma_sums_bounded(next);
            assert(next.len() * u64::MAX <= usize::MAX * u64::MAX) by (nonlinear_arith)
                requires
                    next.len() <= usize::MAX,
            ;
            assert(usize::MAX * u64::MAX <= u64::MAX * u64::MAX) by (nonlinear_arith)
                requires
                    usize::MAX <= u64::MAX,
            ;
            seen.lemma_filter_push(record@, is_failed());
        }
        total_before = total_before + record.before as u128;
        total_after = total_after + record.after as u128;
        if record.is_failure() {
            let ghost before_push = failed@;
            failed.push(record.clone());
            proof {
                assert(views(failed@) =~= views(before_push).push(record@));
            }
        }
        i = i + 1;
    }
    proof {
        assert(all.take(records.len() as int) =~= all);
    }
    let total_saved = if total_before >= total_after {
        total_before - total_after
    } else {
        0
    };
    Summary { count: records.len(), total_before, total_after, total_saved, failed }
}

/// The sums of two runs laid end to end are the sums of the parts added.
pub proof fn lemma_sums_of_concat(a: Seq<StatView>, b: Seq<StatView>)
    ensures
        sum_before(a + b) == sum_before(a) + sum_before(b),
        sum_after(a + b) == sum_after(a) + sum_after(b),
    decreases b.len(),
{
    if b.len() == 0 {
        assert(a + b =~= a);
    } else {
        lemma_sums_of_concat(a, b.drop_last());
        assert((a + b).drop_last() =~= a + b.drop_last());
    }
}

/// Taking one record out lowers each sum by that record's size.
pub proof fn lemma_sums_of_remove(records: Seq<StatView>, i: int)
    requires
        0 <= i < records.len(),
    ensures
        sum_before(records) == sum_before(records.remove(i)) + records[i].before,
        sum_after(records) == sum_after(records.remove(i)) + records[i].after,
{
    let front = records.subrange(0, i);
    let back = records.subrange(i + 1, records.len() as int);
    let one = seq![records[i]];
    assert(records =~= front + one + back);
    assert(records.remove(i) =~= front + back);
    lemma_sums_of_concat(front, one);
    lemma_sums_of_concat(front + one, back);
    lemma_sums_of_concat(front, back);
    assert(one.drop_last() =~= Seq::<StatView>::empty());
    assert(sum_before(one) == records[i].before) by {
        assert(sum_before(one.drop_last()) == 0);
    }
    assert(sum_after(one) == records[i].after) by {
        assert(sum_after(one.drop_last()) == 0);
    }
}

/// Two runs whose records agree in their sizes, one by one, have the same
/// totals, however long either took.
pub proof fn lemma_same_sizes_same_totals(a: Seq<StatView>, b: Seq<StatView>)
    requires
        a.len() == b.len(),
        forall|i: int|
            0 <= i < a.len() ==> (#[trigger] a[i]).before == b[i].before && a[i].after
                == b[i].after,
    ensures
        summary_of(a).count == summary_of(b).count,
        summary_of(a).total_before == summary_of(b).total_before,
        summary_of(a).total_after == summary_of(b).total_after,
        summary_of(a).total_saved == summary_of(b).total_saved,
    decreases a.len(),
{
    if a.len() > 0 {
        let last = a.len() - 1;
        assert(a[last].before == b[last].before && a[last].after == b[last].after);
        let front_a = a.drop_last();
        let front_b = b.drop_last();
        assert forall|i: int| 0 <= i < front_a.len() implies (#[trigger] front_a[i]).before
            == front_b[i].before && front_a[i].after == front_b[i].after by {
            assert(a[i].before == b[i].before && a[i].after == b[i].after);
        }
        lemma_same_sizes_same_totals(front_a, front_b);
    }
}

/// The order in which the records come in changes none of the totals: two
/// sequences that hold the same records, each as often as the other, have
/// the same count and the same sums.
pub proof fn lemma_totals_ignore_order(a: Seq<StatView>, b: Seq<StatView>)
    requires
        a.to_multiset() == b.to_multiset(),
    ensures
        summary_of(a).count == summary_of(b).count,
        summary_of(a).total_before == summary_of(b).total_before,
        summary_of(a).total_after == summary_of(b).total_after,
        summary_of(a).total_saved == summary_of(b).total_saved,
    decreases a.len(),
{
    broadcast use vstd::seq_lib::to_multiset_len;

    assert(a.len() == b.len()) by {
        assert(a.to_multiset().len() == a.len());
        assert(b.to_multiset().len() == b.len());
    }
    if a.len() > 0 {
        let x = a.last();
        let i = a.len() - 1;
        assert(a.contains(x)) by {
            assert(a[i] == x);
        }
        vstd::seq_lib::to_multiset_contains(a, x);
        vstd::seq_lib::to_multiset_contains(b, x);
        let j = choose|j: int| 0 <= j < b.len() && b[j] == x;
        vstd::seq_lib::to_multiset_remove(a, i);
        vstd::seq_lib::to_multiset_remove(b, j);
        assert(a.remove(i) =~= a.drop_last());
        lemma_totals_ignore_order(a.drop_last(), b.remove(j));
        lemma_sums_of_remove(b, j);
    }
}

} // verus!
