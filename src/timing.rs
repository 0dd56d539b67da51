//! The trigger protocol: the payload calls `start_trigger` and `stop_trigger`
//! around its timed region and the host records one timestamp for each.
use vstd::prelude::*;

verus! {

/// One timed region: the monotonic times, in milliseconds, at which the
/// payload started and stopped it.
#[derive(Clone, Copy, Debug, PartialEq, Eq, Structural)]
pub struct TimingSample {
    pub start_ms: u64,
    pub stop_ms: u64,
}

impl TimingSample {
    /// The length of the timed region; `None` when the clock ran backwards
    /// between the two triggers.
    pub fn duration_ms(&self) -> (r: Option<u64>)
        ensures
            r == (if self.start_ms <= self.stop_ms {
                Some((self.stop_ms - self.start_ms) as u64)
            } else {
                None
            }),
    {
        if self.start_ms <= self.stop_ms {
            Some(self.stop_ms - self.start_ms)
        } else {
            None
        }
    }
}

/// A trigger call that breaks the pairing of one start before one stop.
#[derive(Clone, Copy, Debug, PartialEq, Eq, Structural)]
pub enum TriggerError {
    /// `start_trigger` came while a region was open or its sample was
    /// still uncollected.
    DoubleStart,
    /// `stop_trigger` came with no open region.
    StopWithoutStart,
    /// A sample was asked for before the region was closed.
    Incomplete,
}

/// Where the current iteration stands in the trigger protocol.
#[derive(Clone, Copy, Debug, PartialEq, Eq, Structural)]
pub enum TriggerState {
    Idle,
    Started { start_ms: u64 },
    Stopped { start_ms: u64, stop_ms: u64 },
}

impl TriggerState {
    pub fn new() -> (r: Self)
        ensures
            r == TriggerState::Idle,
    {
        TriggerState::Idle
    }

    /// Records `start_trigger` at time `now_ms`.
    pub fn start(&mut self, now_ms: u64) -> (r: Result<(), TriggerError>)
        ensures
            match *old(self) {
                TriggerState::Idle => {
                    &&& r == Ok::<(), TriggerError>(())
                    &&& *final(self) == TriggerState::Started { start_ms: now_ms }
                },
                _ => {
                    &&& r == Err::<(), TriggerError>(TriggerError::DoubleStart)
                    &&& *final(self) == *old(self)
                },
            },
    {
        match *self {
            TriggerState::Idle => {
                *self = TriggerState::Started { start_ms: now_ms };
                Ok(())
            },
            _ => Err(TriggerError::DoubleStart),
        }
    }

    /// Records `stop_trigger` at time `now_ms`.
    pub fn stop(&mut self, now_ms: u64) -> (r: Result<(), TriggerError>)
        ensures
            match *old(self) {
                TriggerState::Started { start_ms } => {
                    &&& r == Ok::<(), TriggerError>(())
                    &&& *final(self) == TriggerState::Stopped { start_ms, stop_ms: now_ms }
                },
                _ => {
                    &&& r == Err::<(), TriggerError>(TriggerError::StopWithoutStart)
                    &&& *final(self) == *old(self)
                },
            },
    {
        match *self {
            TriggerState::Started { start_ms } => {
                *self = TriggerState::Stopped { start_ms, stop_ms: now_ms };
                Ok(())
            },
            _ => Err(TriggerError::StopWithoutStart),
        }
    }

    /// Hands out the closed region of this iteration and makes room for the
    /// next one.
    pub fn take_sample(&mut self) -> (r: Result<TimingSample, TriggerError>)
        ensures
            match *old(self) {
                TriggerState::Stopped { start_ms, stop_ms } => {
                    &&& r == Ok::<TimingSample, TriggerError>(TimingSample { start_ms, stop_ms })
                    &&& *final(self) == TriggerState::Idle
                },
                _ => {
                    &&& r == Err::<TimingSample, TriggerError>(TriggerError::Incomplete)
                    &&& *final(self) == *old(self)
                },
            },
    {
        match *self {
            TriggerState::Stopped { start_ms, stop_ms } => {
                *self = TriggerState::Idle;
                Ok(TimingSample { start_ms, stop_ms })
            },
            _ => Err(TriggerError::Incomplete),
        }
    }
}

} // verus!
