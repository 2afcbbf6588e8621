//! The summary of a run: how many files were attempted, how many succeeded,
//! and which failed for what reason.

use crate::error::ErrorKind;
use vstd::prelude::*;
use vstd::seq_lib::{to_multiset_contains, to_multiset_len, to_multiset_remove};

verus! {

/// What became of one file: its path, and the kind of its failure if it
/// failed.
#[derive(Debug, PartialEq, Eq)]
pub struct TaskRecord {
    pub path: String,
    pub failure: Option<ErrorKind>,
}

/// A file that failed, with the kind of its failure.
#[derive(Debug, PartialEq, Eq)]
pub struct Failure {
    pub path: String,
    pub kind: ErrorKind,
}

/// The summary of a run.
#[derive(Debug, PartialEq, Eq)]
pub struct BatchReport {
    /// The number of files attempted.
    pub total: usize,
    /// The number of files rotated and written.
    pub succeeded: usize,
    /// The files that failed, in the order of the records.
    pub failures: Vec<Failure>,
}

/// A record as contracts see it.
pub struct RecordView {
    pub path: Seq<char>,
    pub failure: Option<ErrorKind>,
}

/// A failure as contracts see it.
pub struct FailureView {
    pub path: Seq<char>,
    pub kind: ErrorKind,
}

/// A report as contracts see it.
#[verifier::ext_equal]
pub struct ReportView {
    pub total: nat,
    pub succeeded: nat,
    pub failures: Seq<FailureView>,
}

impl View for TaskRecord {
    type V = RecordView;

    open spec fn view(&self) -> RecordView {
        RecordView { path: self.path@, failure: self.failure }
    }
}

impl View for Failure {
    type V = FailureView;

    open spec fn view(&self) -> FailureView {
        FailureView { path: self.path@, kind: self.kind }
    }
}

impl View for BatchReport {
    type V = ReportView;

    open spec fn view(&self) -> ReportView {
        ReportView {
            total: self.total as nat,
            succeeded: self.succeeded as nat,
            failures: self.failures@.map_values(|failure: Failure| failure@),
        }
    }
}

/// The records of a run as contracts see them.
pub open spec fn record_views(records: Seq<TaskRecord>) -> Seq<RecordView> {
    records.map_values(|record: TaskRecord| record@)
}

/// The number of records without a failure.
pub open spec fn successes(records: Seq<RecordView>) -> nat
    decreases records.len(),
{
    if records.len() == 0 {
        0
    } else if records.last().failure is None {
        successes(records.drop_last()) + 1
    } else {
        successes(records.drop_last())
    }
}

/// The records with a failure, in their order.
pub open spec fn failures(records: Seq<RecordView>) -> Seq<FailureView>
    decreases records.len(),
{
    if records.len() == 0 {
        Seq::empty()
    } else {
        match records.last().failure {
            None => failures(records.drop_last()),
            Some(kind) => failures(records.drop_last()).push(
                FailureView { path: records.last().path, kind },
            ),
        }
    }
}

/// The report that a run with these records gives.
pub open spec fn summary(records: Seq<RecordView>) -> ReportView {
    ReportView {
        total: records.len(),
        succeeded: successes(records),
        failures: failures(records),
    }
}

impl ReportView {
    /// Every file attempted either succeeded or is listed as failed.
    pub open spec fn wf(self) -> bool {
        self.total == self.succeeded + self.failures.len()
    }
}

impl BatchReport {
    /// Every file attempted either succeeded or is listed as failed.
    pub open spec fn wf(&self) -> bool {
        self@.wf()
    }

    /// The number of files that failed.
    pub fn failed(&self) -> (count: usize)
        ensures
            count == self@.failures.len(),
    {
        self.failures.len()
    }
}

/// Summarizes a run from the records of its files.
///
/// Every record counts as attempted. One without a failure counts as
/// succeeded; one with a failure is listed with its path and the kind of the
/// failure, and keeps no other record from being counted.
pub fn summarize(records: &Vec<TaskRecord>) -> (report: BatchReport)
    ensures
        report@ == summary(record_views(records@)),
        report.wf(),
{
    let ghost all = record_views(records@);
    let mut succeeded: usize = 0;
    let mut failed: Vec<Failure> = Vec::new();
    for i in 0..records.len()
        invariant
            all == record_views(records@),
            succeeded == successes(all.take(i as int)),
            failed@.map_values(|failure: Failure| failure@) == failures(all.take(i as int)),
            succeeded + failed@.len() == i,
    {
        proof {
            assert(all.take(i + 1).drop_last() == all.take(i as int));
            assert(all.take(i + 1).last() == records@[i as int]@);
        }
        let record = &records[i];
        match record.failure {
            None => {
                succeeded = succeeded + 1;
            },
            Some(kind) => {
                let ghost before = failed@;
                let failure = Failure { path: record.path.clone(), kind };
                failed.push(failure);
                proof {
                    assert(failed@.map_values(|failure: Failure| failure@) == before.map_values(
                        |failure: Failure| failure@,
                    ).push(failure@));
                }
            },
        }
    }
    proof {
        assert(all.take(records.len() as int) == all);
    }
    BatchReport { total: records.len(), succeeded, failures: failed }
}

/// The exit status of the program for the outcome of a run: zero when the
/// run came to its end, whatever number of files failed in it, and one when
/// a failure of the directories ended it.
pub fn exit_status(run: &Result<BatchReport, ErrorKind>) -> (status: u8)
    ensures
        run is Ok ==> status == 0,
        run is Err ==> status == 1,
{
    match run {
        Ok(_) => 0,
        Err(_) => 1,
    }
}

/// In every summary the files that succeeded and the files that failed are
/// together the files attempted.
pub proof fn lemma_summary_wf(records: Seq<RecordView>)
    ensures
        summary(records).wf(),
    decreases records.len(),
{
    if records.len() > 0 {
        lemma_summary_wf(records.drop_last());
    }
}

/// Where no file fails, every file counts as succeeded.
pub proof fn lemma_all_succeeded(records: Seq<RecordView>)
    requires
        forall|i: int| 0 <= i < records.len() ==> records[i].failure is None,
    ensures
        summary(records).succeeded == records.len(),
        summary(records).failures == Seq::<FailureView>::empty(),
    decreases records.len(),
{
    if records.len() > 0 {
        lemma_all_succeeded(records.drop_last());
    }
}

/// Isolation: where exactly one file fails, all the others count as
/// succeeded, and the report lists that file alone, with its kind.
pub proof fn lemma_single_failure(records: Seq<RecordView>, bad: int, kind: ErrorKind)
    requires
        0 <= bad < records.len(),
        records[bad].failure == Some(kind),
        forall|i: int| 0 <= i < records.len() && i != bad ==> records[i].failure is None,
    ensures
        summary(records).total == records.len(),
        summary(records).succeeded == records.len() - 1,
        summary(records).failures == seq![FailureView { path: records[bad].path, kind }],
    decreases records.len(),
{
    if bad == records.len() - 1 {
        lemma_all_succeeded(records.drop_last());
    } else {
        lemma_single_failure(records.drop_last(), bad, kind);
    }
}

/// Taking one record out takes one success out if that record succeeded,
/// and none otherwise.
proof fn lemma_successes_remove(records: Seq<RecordView>, at: int)
    requires
        0 <= at < records.len(),
    ensures
        successes(records) == successes(records.remove(at)) + (if records[at].failure is None {
            1nat
        } else {
            0nat
        }),
    decreases records.len(),
{
    let last = records.len() - 1;
    if at == last {
        assert(records.remove(at) == records.drop_last());
    } else {
        lemma_successes_remove(records.drop_last(), at);
        assert(records.remove(at).drop_last() == records.drop_last().remove(at));
        assert(records.remove(at).last() == records.last());
    }
}

/// The counts of a report do not depend on the order in which the files
/// were finished: two runs whose records are the same, in whatever order,
/// attempted, succeeded and failed equally often.
pub proof fn lemma_order_independent(a: Seq<RecordView>, b: Seq<RecordView>)
    requires
        a.to_multiset() == b.to_multiset(),
    ensures
        summary(a).total == summary(b).total,
        summary(a).succeeded == summary(b).succeeded,
        summary(a).failures.len() == summary(b).failures.len(),
    decreases a.len(),
{
    to_multiset_len(a);
    to_multiset_len(b);
    lemma_summary_wf(a);
    lemma_summary_wf(b);
    if a.len() > 0 {
        let last = a.last();
        assert(a.contains(last)) by {
            assert(a[a.len() - 1] == last);
        }
        to_multiset_contains(a, last);
        to_multiset_contains(b, last);
        let at = choose|at: int| 0 <= at < b.len() && b[at] == last;
        to_multiset_remove(a, a.len() - 1);
        to_multiset_remove(b, at);
        assert(a.remove(a.len() - 1) == a.drop_last());
        lemma_order_independent(a.drop_last(), b.remove(at));
        lemma_successes_remove(b, at);
    }
}

} // verus!
