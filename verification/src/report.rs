use crate::outcome::{FileOutcome, OutcomeKind};
use vstd::prelude::*;

verus! {

/// The mathematical content of an aggregate: counts per kind and byte totals.
pub ghost struct TallyModel {
    pub files: int,
    pub improved: int,
    pub unchanged: int,
    pub increased: int,
    pub failed: int,
    pub original_bytes: int,
    pub new_bytes: int,
}

/// The aggregate of no file at all.
pub open spec fn zero_tally() -> TallyModel {
    TallyModel {
        files: 0,
        improved: 0,
        unchanged: 0,
        increased: 0,
        failed: 0,
        original_bytes: 0,
        new_bytes: 0,
    }
}

/// What a single outcome contributes to an aggregate.
pub open spec fn contribution(outcome: FileOutcome) -> TallyModel {
    TallyModel {
        files: 1,
        improved: if outcome.kind == OutcomeKind::Improved { 1 } else { 0 },
        unchanged: if outcome.kind == OutcomeKind::Unchanged { 1 } else { 0 },
        increased: if outcome.kind == OutcomeKind::Increased { 1 } else { 0 },
        failed: if outcome.kind == OutcomeKind::Failed { 1 } else { 0 },
        original_bytes: outcome.original_size as int,
        new_bytes: outcome.new_size as int,
    }
}

/// The merge of two aggregates: every field is the sum of the two.
pub open spec fn combine(a: TallyModel, b: TallyModel) -> TallyModel {
    TallyModel {
        files: a.files + b.files,
        improved: a.improved + b.improved,
        unchanged: a.unchanged + b.unchanged,
        increased: a.increased + b.increased,
        failed: a.failed + b.failed,
        original_bytes: a.original_bytes + b.original_bytes,
        new_bytes: a.new_bytes + b.new_bytes,
    }
}

/// The sum of the contributions of a sequence of outcomes.
pub open spec fn tally_of(outcomes: Seq<FileOutcome>) -> TallyModel
    decreases outcomes.len(),
{
    if outcomes.len() == 0 {
        zero_tally()
    } else {
        combine(tally_of(outcomes.drop_last()), contribution(outcomes.last()))
    }
}

/// A partial or complete aggregate over file outcomes.
#[derive(Clone, Copy, Debug, PartialEq, Eq, Structural)]
pub struct Tally {
    pub file_count: u64,
    pub improved: u64,
    pub unchanged: u64,
    pub increased: u64,
    pub failed: u64,
    pub total_original: u128,
    pub total_new: u128,
}

/// The aggregate of a whole run together with its wall-clock time.
#[derive(Clone, Copy, Debug, PartialEq, Eq, Structural)]
pub struct BatchReport {
    pub tally: Tally,
    /// Wall-clock time of the run in nanoseconds.
    pub elapsed_nanos: u128,
}

impl View for Tally {
    type V = TallyModel;

    open spec fn view(&self) -> TallyModel {
        TallyModel {
            files: self.file_count as int,
            improved: self.improved as int,
            unchanged: self.unchanged as int,
            increased: self.increased as int,
            failed: self.failed as int,
            original_bytes: self.total_original as int,
            new_bytes: self.total_new as int,
        }
    }
}

impl Tally {
    /// Every file is counted in exactly one bucket, and no byte total exceeds
    /// what that many files can hold.
    pub open spec fn well_formed(&self) -> bool {
        &&& self.improved + self.unchanged + self.increased + self.failed == self.file_count
        &&& self.total_original <= self.file_count * u64::MAX
        &&& self.total_new <= self.file_count * u64::MAX
    }

    /// The aggregate of no file.
    pub fn empty() -> (tally: Tally)
        ensures
            tally@ == zero_tally(),
            tally.well_formed(),
    {
        Tally {
            file_count: 0,
            improved: 0,
            unchanged: 0,
            increased: 0,
            failed: 0,
            total_original: 0,
            total_new: 0,
        }
    }

    /// The aggregate of one file.
    pub fn single(outcome: &FileOutcome) -> (tally: Tally)
        ensures
            tally@ == contribution(*outcome),
            tally.well_formed(),
    {
        let mut tally = Tally {
            file_count: 1,
            improved: 0,
            unchanged: 0,
            increased: 0,
            failed: 0,
            total_original: outcome.original_size as u128,
            total_new: outcome.new_size as u128,
        };
        match outcome.kind {
            OutcomeKind::Improved => {
                tally.improved = 1;
            },
            OutcomeKind::Unchanged => {
                tally.unchanged = 1;
            },
            OutcomeKind::Increased => {
                tally.increased = 1;
            },
            OutcomeKind::Failed => {
                tally.failed = 1;
            },
        }
        tally
    }

    /// Merges two partial aggregates. The order of the two does not matter,
    /// nor does the grouping of several merges.
    pub fn merge(&self, other: &Tally) -> (merged: Tally)
        requires
            self.well_formed(),
            other.well_formed(),
            self.file_count + other.file_count <= u64::MAX,
        ensures
            merged@ == combine(self@, other@),
            merged.well_formed(),
    {
        Tally {
            file_count: self.file_count + other.file_count,
            improved: self.improved + other.improved,
            unchanged: self.unchanged + other.unchanged,
            increased: self.increased + other.increased,
            failed: self.failed + other.failed,
            total_original: self.total_original + other.total_original,
            total_new: self.total_new + other.total_new,
        }
    }
}

/// Reduces the outcomes of all files to one aggregate: each field is the sum
/// of the per-file contributions.
pub fn aggregate(outcomes: &Vec<FileOutcome>) -> (tally: Tally)
    ensures
        tally@ == tally_of(outcomes@),
        tally.well_formed(),
        tally.file_count == outcomes.len(),
{
    let mut tally = Tally::empty();
    let mut i: usize = 0;
    while i < outcomes.len()
        invariant
            i <= outcomes.len(),
            tally@ == tally_of(outcomes@.take(i as int)),
            tally.well_formed(),
            tally.file_count == i,
        decreases outcomes.len() - i,
    {
        let one = Tally::single(&outcomes[i]);
        proof {
            assert(outcomes@.take(i + 1).drop_last() =~= outcomes@.take(i as int));
            assert(outcomes@.take(i + 1).last() == outcomes@[i as int]);
        }
        tally = tally.merge(&one);
        i += 1;
    }
    proof {
        assert(outcomes@.take(i as int) =~= outcomes@);
    }
    tally
}

/// Closes a run: the aggregate of its outcomes and the time it took.
pub fn summarize(outcomes: &Vec<FileOutcome>, elapsed_nanos: u128) -> (report: BatchReport)
    ensures
        report.tally@ == tally_of(outcomes@),
        report.tally.well_formed(),
        report.elapsed_nanos == elapsed_nanos,
        outcomes.len() == 0 ==> report.tally@ == zero_tally(),
{
    BatchReport { tally: aggregate(outcomes), elapsed_nanos }
}

/// Merging is commutative.
pub proof fn lemma_combine_commutative(a: TallyModel, b: TallyModel)
    ensures
        combine(a, b) == combine(b, a),
{
}

/// Merging is associative.
pub proof fn lemma_combine_associative(a: TallyModel, b: TallyModel, c: TallyModel)
    ensures
        combine(combine(a, b), c) == combine(a, combine(b, c)),
{
}

/// The empty aggregate is neutral for merging.
pub proof fn lemma_combine_zero(a: TallyModel)
    ensures
        combine(a, zero_tally()) == a,
        combine(zero_tally(), a) == a,
{
}

/// The aggregate of two partitions laid end to end is the merge of their
/// aggregates.
pub proof fn lemma_tally_of_concat(left: Seq<FileOutcome>, right: Seq<FileOutcome>)
    ensures
        tally_of(left + right) == combine(tally_of(left), tally_of(right)),
    decreases right.len(),
{
    if right.len() == 0 {
        assert(left + right =~= left);
    } else {
        lemma_tally_of_concat(left, right.drop_last());
        assert((left + right).drop_last() =~= left + right.drop_last());
        assert((left + right).last() == right.last());
    }
}

/// Swapping two partitions leaves the aggregate as it was.
pub proof fn lemma_tally_of_swap(left: Seq<FileOutcome>, right: Seq<FileOutcome>)
    ensures
        tally_of(left + right) == tally_of(right + left),
{
    lemma_tally_of_concat(left, right);
    lemma_tally_of_concat(right, left);
}

/// Taking one outcome out of a sequence takes its contribution out of the
/// aggregate.
pub proof fn lemma_tally_of_remove(outcomes: Seq<FileOutcome>, at: int)
    requires
        0 <= at < outcomes.len(),
    ensures
        tally_of(outcomes) == combine(tally_of(outcomes.remove(at)), contribution(outcomes[at])),
{
    let head = outcomes.take(at);
    let tail = outcomes.skip(at + 1);
    let one = seq![outcomes[at]];
    assert(outcomes =~= head + one + tail);
    assert(outcomes.remove(at) =~= head + tail);
    lemma_tally_of_concat(head + one, tail);
    lemma_tally_of_concat(head, one);
    lemma_tally_of_concat(head, tail);
    assert(one.drop_last() =~= Seq::<FileOutcome>::empty());
    assert(tally_of(one) == combine(tally_of(one.drop_last()), contribution(one.last())));
}

/// Any reordering of the outcomes gives the same aggregate: two sequences
/// that hold the same outcomes the same number of times have equal aggregates.
pub proof fn lemma_tally_of_reordering(first: Seq<FileOutcome>, second: Seq<FileOutcome>)
    requires
        first.to_multiset() == second.to_multiset(),
    ensures
        tally_of(first) == tally_of(second),
    decreases first.len(),
{
    first.to_multiset_ensures();
    second.to_multiset_ensures();
    if first.len() == 0 {
        assert(second.len() == 0);
    } else {
        let x = first.last();
        assert(first.to_multiset().count(x) > 0);
        assert(second.contains(x));
        let at = choose|at: int| 0 <= at < second.len() && second[at] == x;
        let rest_first = first.drop_last();
        let rest_second = second.remove(at);
        assert(rest_first =~= first.remove(first.len() - 1));
        assert(rest_first.to_multiset() =~= first.to_multiset().remove(x));
        assert(rest_second.to_multiset() =~= second.to_multiset().remove(x));
        lemma_tally_of_reordering(rest_first, rest_second);
        lemma_tally_of_remove(second, at);
    }
}

/// Where no outcome is in the increased bucket and every outcome is well
/// formed, the files did not grow in total.
pub proof fn lemma_no_growth_without_increase(outcomes: Seq<FileOutcome>)
    requires
        forall|i: int| 0 <= i < outcomes.len() ==> (#[trigger] outcomes[i]).well_formed(),
        tally_of(outcomes).increased == 0,
    ensures
        tally_of(outcomes).new_bytes <= tally_of(outcomes).original_bytes,
    decreases outcomes.len(),
{
    if outcomes.len() > 0 {
        lemma_counts_nonnegative(outcomes.drop_last());
        lemma_no_growth_without_increase(outcomes.drop_last());
    }
}

/// Every count of an aggregate is at least zero, and the buckets add up to
/// the number of files.
pub proof fn lemma_counts_nonnegative(outcomes: Seq<FileOutcome>)
    ensures
        tally_of(outcomes).files == outcomes.len(),
        tally_of(outcomes).improved >= 0,
        tally_of(outcomes).unchanged >= 0,
        tally_of(outcomes).increased >= 0,
        tally_of(outcomes).failed >= 0,
        tally_of(outcomes).improved + tally_of(outcomes).unchanged + tally_of(outcomes).increased
            + tally_of(outcomes).failed == outcomes.len(),
    decreases outcomes.len(),
{
    if outcomes.len() > 0 {
        lemma_counts_nonnegative(outcomes.drop_last());
    }
}

} // verus!
