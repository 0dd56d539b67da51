//! The decisions of the measurement loop: after each invocation of the entry
//! export, go on, finish, or abort the run.
use vstd::prelude::*;

use crate::timing::{TimingSample, TriggerError};

verus! {

/// Iterations per run on engines that compile the payload.
pub const LOOPS_COMPILED: usize = 100;

/// Iterations per run on interpreting engines.
pub const LOOPS_INTERPRETED: usize = 10;

/// Iterations per run while the heap monitor counts every allocation.
pub const LOOPS_HEAP_TRACED: usize = 2;

/// Why a run stopped before all of its iterations were measured.
/// Iterations are numbered from 1.
#[derive(Clone, Copy, Debug, PartialEq, Eq, Structural)]
pub enum RunFailure {
    /// The entry export reported a non-zero status.
    Status { iteration: usize, status: i32 },
    /// The trigger calls of the iteration did not pair up.
    Trigger { iteration: usize, error: TriggerError },
    /// The clock ran backwards between start and stop.
    ClockDefect { iteration: usize },
    /// The iteration took no measurable time, so its speed is undefined.
    ZeroDuration { iteration: usize },
}

/// What the driver does after an iteration.
#[derive(Clone, Copy, Debug, PartialEq, Eq, Structural)]
pub enum Verdict {
    /// Invoke the entry export again.
    Continue,
    /// Every iteration is measured: reduce and report.
    Complete,
    /// Stop now and report a zeroed result.
    Abort(RunFailure),
}

/// The failure, if any, of iteration `iteration` from the status the payload
/// returned and the sample the trigger protocol produced.
pub open spec fn failure_of(
    iteration: usize,
    status: i32,
    sample: Result<TimingSample, TriggerError>,
) -> Option<RunFailure> {
    if status != 0 {
        Some(RunFailure::Status { iteration, status })
    } else {
        match sample {
            Err(error) => Some(RunFailure::Trigger { iteration, error }),
            Ok(s) => if s.stop_ms < s.start_ms {
                Some(RunFailure::ClockDefect { iteration })
            } else if s.stop_ms == s.start_ms {
                Some(RunFailure::ZeroDuration { iteration })
            } else {
                None
            },
        }
    }
}

/// A run of a fixed number of iterations and the durations measured so far.
pub struct RunLoop {
    loops: usize,
    durations: Vec<u64>,
    failure: Option<RunFailure>,
}

impl RunLoop {
    /// The number of iterations the run asks for.
    pub closed spec fn loops(&self) -> nat {
        self.loops as nat
    }

    /// The durations of the iterations measured so far, in milliseconds.
    pub closed spec fn durations(&self) -> Seq<u64> {
        self.durations@
    }

    /// The failure that ended the run, if one did.
    pub closed spec fn failure(&self) -> Option<RunFailure> {
        self.failure
    }

    pub open spec fn finished(&self) -> bool {
        self.failure() is Some || self.durations().len() == self.loops()
    }

    pub open spec fn wf(&self) -> bool {
        &&& self.durations().len() <= self.loops()
        &&& forall|i: int| 0 <= i < self.durations().len() ==> self.durations()[i] > 0
    }

    pub fn new(loops: usize) -> (r: Self)
        ensures
            r.wf(),
            r.loops() == loops,
            r.durations() == Seq::<u64>::empty(),
            r.failure() is None,
    {
        RunLoop { loops, durations: Vec::new(), failure: None }
    }

    pub fn is_finished(&self) -> (r: bool)
        ensures
            r == self.finished(),
    {
        self.failure.is_some() || self.durations.len() == self.loops
    }

    /// The number of the iteration about to be recorded, counted from 1.
    pub fn iteration(&self) -> (r: usize)
        requires
            self.wf(),
            !self.finished(),
        ensures
            r == self.durations().len() + 1,
    {
        self.durations.len() + 1
    }

    /// Takes in the outcome of one invocation: the status it returned and
    /// the timing sample of its triggers.
    pub fn record(&mut self, status: i32, sample: Result<TimingSample, TriggerError>) -> (r:
        Verdict)
        requires
            old(self).wf(),
            !old(self).finished(),
        ensures
            final(self).wf(),
            final(self).loops() == old(self).loops(),
            match failure_of((old(self).durations().len() + 1) as usize, status, sample) {
                Some(f) => {
                    &&& r == Verdict::Abort(f)
                    &&& final(self).failure() == Some(f)
                    &&& final(self).durations() == old(self).durations()
                },
                None => {
                    &&& final(self).failure() is None
                    &&& final(self).durations() == old(self).durations().push(
                        (sample->Ok_0.stop_ms - sample->Ok_0.start_ms) as u64,
                    )
                    &&& r == (if final(self).durations().len() == final(self).loops() {
                        Verdict::Complete
                    } else {
                        Verdict::Continue
                    })
                },
            },
    {
        let iteration = self.durations.len() + 1;
        let failure = if status != 0 {
            Some(RunFailure::Status { iteration, status })
        } else {
            match sample {
                Err(error) => Some(RunFailure::Trigger { iteration, error }),
                Ok(s) => match s.duration_ms() {
                    None => Some(RunFailure::ClockDefect { iteration }),
                    Some(0) => Some(RunFailure::ZeroDuration { iteration }),
                    Some(d) => {
                        self.durations.push(d);
                        None
                    },
                },
            }
        };
        match failure {
            Some(f) => {
                self.failure = Some(f);
                Verdict::Abort(f)
            },
            None => {
                if self.durations.len() == self.loops {
                    Verdict::Complete
                } else {
                    Verdict::Continue
                }
            },
        }
    }

    /// The failure that ended the run, if one did.
    pub fn failure_cause(&self) -> (r: Option<RunFailure>)
        ensures
            r == self.failure(),
    {
        self.failure
    }

    /// The measured durations, only once every iteration has succeeded; a
    /// run that failed or is still going has no result to reduce.
    pub fn completed_durations(&self) -> (r: Option<&Vec<u64>>)
        requires
            self.wf(),
        ensures
            r is Some <==> (self.failure() is None && self.durations().len() == self.loops()),
            r matches Some(d) ==> d@ == self.durations() && forall|i: int|
                0 <= i < d@.len() ==> d@[i] > 0,
    {
        if self.failure.is_none() && self.durations.len() == self.loops {
            Some(&self.durations)
        } else {
            None
        }
    }
}

} // verus!
