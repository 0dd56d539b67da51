//! What every execution engine is told the same way: which host functions a
//! payload imports, under which namespace, which export is its entry point,
//! and what the host answers when the payload calls back.
use vstd::prelude::*;

use crate::timing::{TriggerError, TriggerState};

verus! {

/// The kind of payload a run executes.
#[derive(Clone, Copy, Debug, PartialEq, Eq, Structural)]
pub enum Mode {
    /// Adds two numbers and the value of an imported function.
    Smoke,
    /// Times itself with an imported clock and returns its score.
    CoreMark,
    /// Delimits its timed region with the trigger calls and returns a status.
    Embench,
}

/// A function the host offers to payloads.
#[derive(Clone, Copy, Debug, PartialEq, Eq, Structural)]
pub enum HostFunction {
    ClockMs,
    InitialiseBoard,
    StartTrigger,
    StopTrigger,
    Extra,
}

/// The host's answer to a call from the payload.
#[derive(Clone, Copy, Debug, PartialEq, Eq, Structural)]
pub enum HostReply {
    Unit,
    I64(u64),
    I32(u32),
}

/// The functions a payload of mode `mode` imports, in the order the engines
/// link them; an engine that reports host calls by link index uses this order.
pub open spec fn imports_of(mode: Mode) -> Seq<HostFunction> {
    match mode {
        Mode::Smoke => seq![HostFunction::Extra],
        Mode::CoreMark => seq![HostFunction::ClockMs],
        Mode::Embench => seq![
            HostFunction::InitialiseBoard,
            HostFunction::StartTrigger,
            HostFunction::StopTrigger,
        ],
    }
}

impl HostFunction {
    /// The import name of the function.
    pub fn name(&self) -> (r: &'static str)
        ensures
            r@ == (match *self {
                HostFunction::ClockMs => "clock_ms"@,
                HostFunction::InitialiseBoard => "initialise_board"@,
                HostFunction::StartTrigger => "start_trigger"@,
                HostFunction::StopTrigger => "stop_trigger"@,
                HostFunction::Extra => "extra"@,
            }),
    {
        match self {
            HostFunction::ClockMs => "clock_ms",
            HostFunction::InitialiseBoard => "initialise_board",
            HostFunction::StartTrigger => "start_trigger",
            HostFunction::StopTrigger => "stop_trigger",
            HostFunction::Extra => "extra",
        }
    }
}

impl Mode {
    /// The import namespace of the host functions.
    pub fn namespace(&self) -> (r: &'static str)
        ensures
            r@ == (if *self is Smoke {
                "host"@
            } else {
                "env"@
            }),
    {
        match self {
            Mode::Smoke => "host",
            _ => "env",
        }
    }

    /// The export the harness invokes.
    pub fn entry_export(&self) -> (r: &'static str)
        ensures
            r@ == (match *self {
                Mode::Smoke => "add_with_extra"@,
                Mode::CoreMark => "run"@,
                Mode::Embench => "__original_main"@,
            }),
    {
        match self {
            Mode::Smoke => "add_with_extra",
            Mode::CoreMark => "run",
            Mode::Embench => "__original_main",
        }
    }

    /// The host functions to bind, in link order.
    pub fn imports(&self) -> (r: Vec<HostFunction>)
        ensures
            r@ == imports_of(*self),
    {
        match self {
            Mode::Smoke => vec![HostFunction::Extra],
            Mode::CoreMark => vec![HostFunction::ClockMs],
            Mode::Embench => vec![
                HostFunction::InitialiseBoard,
                HostFunction::StartTrigger,
                HostFunction::StopTrigger,
            ],
        }
    }

    /// The host function linked at position `index`, if there is one.
    pub fn import_at(&self, index: usize) -> (r: Option<HostFunction>)
        ensures
            r == (if index < imports_of(*self).len() {
                Some(imports_of(*self)[index as int])
            } else {
                None
            }),
    {
        let imports = self.imports();
        if index < imports.len() {
            Some(imports[index])
        } else {
            None
        }
    }
}

/// Answers a call of `f` made by the payload at time `now_ms`; `extra` is the
/// value the `extra` import hands back. Trigger calls move the trigger state.
pub fn answer_host_call(state: &mut TriggerState, f: HostFunction, now_ms: u64, extra: u32) -> (r:
    Result<HostReply, TriggerError>)
    ensures
        match f {
            HostFunction::ClockMs => r == Ok::<HostReply, TriggerError>(HostReply::I64(now_ms))
                && *final(state) == *old(state),
            HostFunction::Extra => r == Ok::<HostReply, TriggerError>(HostReply::I32(extra))
                && *final(state) == *old(state),
            HostFunction::InitialiseBoard => r == Ok::<HostReply, TriggerError>(HostReply::Unit)
                && *final(state) == *old(state),
            HostFunction::StartTrigger => match *old(state) {
                TriggerState::Idle => r == Ok::<HostReply, TriggerError>(HostReply::Unit)
                    && *final(state) == TriggerState::Started { start_ms: now_ms },
                _ => r == Err::<HostReply, TriggerError>(TriggerError::DoubleStart) && *final(state)
                    == *old(state),
            },
            HostFunction::StopTrigger => match *old(state) {
                TriggerState::Started { start_ms } => r == Ok::<HostReply, TriggerError>(
                    HostReply::Unit,
                ) && *final(state) == TriggerState::Stopped { start_ms, stop_ms: now_ms },
                _ => r == Err::<HostReply, TriggerError>(TriggerError::StopWithoutStart)
                    && *final(state) == *old(state),
            },
        },
{
    match f {
        HostFunction::ClockMs => Ok(HostReply::I64(now_ms)),
        HostFunction::Extra => Ok(HostReply::I32(extra)),
        HostFunction::InitialiseBoard => Ok(HostReply::Unit),
        HostFunction::StartTrigger => match state.start(now_ms) {
            Ok(()) => Ok(HostReply::Unit),
            Err(e) => Err(e),
        },
        HostFunction::StopTrigger => match state.stop(now_ms) {
            Ok(()) => Ok(HostReply::Unit),
            Err(e) => Err(e),
        },
    }
}

/// Whether the smoke payload computed what it should: the sum of its two
/// arguments and the value of `extra`, in 32-bit wrapping arithmetic as the
/// payload's `i32.add` does.
pub fn smoke_result_ok(a: u32, b: u32, extra: u32, got: u32) -> (r: bool)
    ensures
        r == (got as int == (a as int + b as int + extra as int) % 0x1_0000_0000),
{
    got == a.wrapping_add(b).wrapping_add(extra)
}

} // verus!
