//! The progress of a run: how many of its files are finished, and the file
//! last taken up.

use vstd::prelude::*;
use vstd::string::StringExecFns;

verus! {

/// What a worker reports.
#[derive(Debug, PartialEq, Eq)]
pub enum ProgressEvent {
    /// One task is finished, whether it succeeded or failed.
    TaskCompleted,
    /// The file of this name is being processed.
    NowProcessing(String),
}

/// The progress of a run. The number of finished tasks never exceeds the
/// number of tasks.
#[derive(Debug, PartialEq, Eq)]
pub struct ProgressState {
    completed: usize,
    total: usize,
    current: String,
}

/// The progress as contracts see it.
pub struct ProgressView {
    pub completed: nat,
    pub total: nat,
    pub current: Seq<char>,
}

impl View for ProgressState {
    type V = ProgressView;

    closed spec fn view(&self) -> ProgressView {
        ProgressView {
            completed: self.completed as nat,
            total: self.total as nat,
            current: self.current@,
        }
    }
}

impl ProgressState {
    #[verifier::type_invariant]
    spec fn bounded(self) -> bool {
        self.completed <= self.total
    }

    /// The progress of a run of `total` tasks before any is finished.
    pub fn new(total: usize) -> (state: ProgressState)
        ensures
            state@ == (ProgressView { completed: 0, total: total as nat, current: Seq::empty() }),
    {
        ProgressState { completed: 0, total, current: String::new() }
    }

    /// The number of tasks finished so far.
    pub fn completed(&self) -> (completed: usize)
        ensures
            completed == self@.completed,
            completed <= self@.total,
    {
        proof {
            use_type_invariant(self);
        }
        self.completed
    }

    /// The number of tasks of the run.
    pub fn total(&self) -> (total: usize)
        ensures
            total == self@.total,
    {
        self.total
    }

    /// The name of the file last taken up; empty before the first.
    pub fn current(&self) -> (current: &String)
        ensures
            current@ == self@.current,
    {
        &self.current
    }

    /// Every task of the run is finished.
    pub fn is_finished(&self) -> (finished: bool)
        ensures
            finished == (self@.completed == self@.total),
    {
        self.completed == self.total
    }

    /// Takes in one event. A finished task raises the count by one, unless
    /// every task of the run is counted already; a file taken up becomes the
    /// current one. Nothing else changes. The result says whether the event
    /// changed the count or the current file.
    pub fn apply(&mut self, event: ProgressEvent) -> (taken: bool)
        ensures
            final(self)@.total == old(self)@.total,
            old(self)@.completed <= final(self)@.completed <= final(self)@.total,
            match event {
                ProgressEvent::TaskCompleted => {
                    &&& taken == (old(self)@.completed < old(self)@.total)
                    &&& final(self)@.completed == old(self)@.completed + (if taken {
                        1nat
                    } else {
                        0nat
                    })
                    &&& final(self)@.current == old(self)@.current
                },
                ProgressEvent::NowProcessing(name) => {
                    &&& taken
                    &&& final(self)@.completed == old(self)@.completed
                    &&& final(self)@.current == name@
                },
            },
    {
        proof {
            use_type_invariant(&*self);
        }
        match event {
            ProgressEvent::TaskCompleted => {
                if self.completed < self.total {
                    self.completed = self.completed + 1;
                    true
                } else {
                    false
                }
            },
            ProgressEvent::NowProcessing(name) => {
                self.current = name;
                true
            },
        }
    }
}

/// The status line for the file of the given name.
pub fn status_line(name: &str) -> (line: String)
    ensures
        line@ == "Processing "@ + name@,
{
    String::from_str("Processing ").concat(name)
}

} // verus!
