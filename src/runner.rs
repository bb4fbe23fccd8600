use vstd::prelude::*;
use crate::menu::MenuItem;
use crate::operations::{ArchOperation, get_operation_for_item, operation_for_name};

verus! {

/// A selected leaf bound to the operation it stands for.
pub struct Job {
    pub name: String,
    pub operation: ArchOperation,
}

/// What one operation of a batch came to.
pub struct OperationReport {
    pub name: String,
    pub outcome: Result<(), String>,
}

/// The jobs for a list of leaves: each leaf whose name has an operation, in
/// order; the others are skipped.
pub open spec fn jobs_of(s: Seq<MenuItem>) -> Seq<Job>
    decreases s.len(),
{
    if s.len() == 0 {
        Seq::empty()
    } else {
        let rest = jobs_of(s.drop_last());
        match operation_for_name(s.last().name@) {
            Some(op) => rest.push(Job { name: s.last().name, operation: op }),
            None => rest,
        }
    }
}

/// The messages of the failed reports, in order.
pub open spec fn failure_messages(r: Seq<OperationReport>) -> Seq<String>
    decreases r.len(),
{
    if r.len() == 0 {
        Seq::empty()
    } else {
        let rest = failure_messages(r.drop_last());
        match r.last().outcome {
            Err(e) => rest.push(e),
            Ok(_) => rest,
        }
    }
}

/// Abstract state of a batch: the jobs and the reports of those that ran.
pub struct RunnerState {
    pub jobs: Seq<Job>,
    pub reports: Seq<OperationReport>,
}

impl RunnerState {
    /// Jobs run in order: the reports so far belong to the first jobs.
    pub open spec fn wf(self) -> bool {
        &&& self.reports.len() <= self.jobs.len()
        &&& forall|i: int| 0 <= i < self.reports.len() ==> (#[trigger] self.reports[i]).name == self.jobs[i].name
    }

    pub open spec fn finished(self) -> bool {
        self.reports.len() >= self.jobs.len()
    }
}

/// Runs a batch of selected leaves one after the other. The caller performs
/// each operation and hands its outcome back; a failure never stops the
/// batch.
pub struct ExecutionRunner {
    jobs: Vec<Job>,
    reports: Vec<OperationReport>,
}

impl View for ExecutionRunner {
    type V = RunnerState;

    closed spec fn view(&self) -> RunnerState {
        RunnerState { jobs: self.jobs@, reports: self.reports@ }
    }
}

impl ExecutionRunner {
    pub open spec fn wf(&self) -> bool {
        self@.wf()
    }

    /// A batch over `snapshot`, resolving each leaf to its operation; leaves
    /// without one are left out.
    pub fn new(snapshot: &Vec<MenuItem>) -> (r: ExecutionRunner)
        ensures
            r.wf(),
            r@.jobs == jobs_of(snapshot@),
            r@.reports.len() == 0,
    {
        let mut jobs: Vec<Job> = Vec::new();
        let mut i: usize = 0;
        while i < snapshot.len()
            invariant
                i <= snapshot@.len(),
                jobs@ == jobs_of(snapshot@.subrange(0, i as int)),
            decreases snapshot@.len() - i,
        {
            proof {
                assert(snapshot@.subrange(0, i + 1).drop_last() =~= snapshot@.subrange(0, i as int));
            }
            let item = &snapshot[i];
            match get_operation_for_item(item.name.as_str()) {
                Some(op) => {
                    jobs.push(Job { name: item.name.clone(), operation: op });
                },
                None => {},
            }
            i = i + 1;
        }
        proof {
            assert(snapshot@.subrange(0, i as int) =~= snapshot@);
        }
        ExecutionRunner { jobs, reports: Vec::new() }
    }

    pub fn jobs(&self) -> (r: &Vec<Job>)
        ensures
            r@ == self@.jobs,
    {
        &self.jobs
    }

    pub fn reports(&self) -> (r: &Vec<OperationReport>)
        ensures
            r@ == self@.reports,
    {
        &self.reports
    }

    /// Whether every job has run.
    pub fn is_finished(&self) -> (r: bool)
        requires
            self.wf(),
        ensures
            r == self@.finished(),
    {
        self.reports.len() >= self.jobs.len()
    }

    /// The operation to perform next, or `None` once the batch is done.
    pub fn next_operation(&self) -> (r: Option<ArchOperation>)
        requires
            self.wf(),
        ensures
            r == if self@.finished() {
                None
            } else {
                Some(self@.jobs[self@.reports.len() as int].operation)
            },
    {
        if self.reports.len() < self.jobs.len() {
            Some(self.jobs[self.reports.len()].operation)
        } else {
            None
        }
    }

    /// Records the outcome of the operation handed out last, success or
    /// failure alike, and moves on to the next job.
    pub fn record(&mut self, outcome: Result<(), String>)
        requires
            old(self).wf(),
            !old(self)@.finished(),
        ensures
            final(self).wf(),
            final(self)@.jobs == old(self)@.jobs,
            final(self)@.reports == old(self)@.reports.push(
                OperationReport {
                    name: old(self)@.jobs[old(self)@.reports.len() as int].name,
                    outcome,
                },
            ),
    {
        let name = self.jobs[self.reports.len()].name.clone();
        self.reports.push(OperationReport { name, outcome });
    }

    /// The messages of the operations that failed, in the order they ran.
    pub fn failures(&self) -> (r: Vec<String>)
        ensures
            r@ == failure_messages(self@.reports),
    {
        let mut r: Vec<String> = Vec::new();
        let mut i: usize = 0;
        while i < self.reports.len()
            invariant
                i <= self.reports@.len(),
                r@ == failure_messages(self.reports@.subrange(0, i as int)),
            decreases self.reports@.len() - i,
        {
            proof {
                assert(self.reports@.subrange(0, i + 1).drop_last() =~= self.reports@.subrange(0, i as int));
            }
            match &self.reports[i].outcome {
                Err(e) => {
                    r.push(e.clone());
                },
                Ok(_) => {},
            }
            i = i + 1;
        }
        proof {
            assert(self.reports@.subrange(0, i as int) =~= self.reports@);
        }
        r
    }
}

} // verus!
