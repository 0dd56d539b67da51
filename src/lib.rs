//! Device-side core of a WebAssembly micro-benchmark harness: the reference
//! score table, the trigger protocol that delimits a timed region, the run
//! loop that turns timing samples into durations, what every execution
//! engine is told about host functions, the layout-tracking record behind the
//! foreign allocator bridge, and the heap high-watermark monitor.
use vstd::prelude::*;

pub mod alloc_record;
pub mod backend;
pub mod cell;
pub mod heap;
pub mod run_loop;
pub mod scores;
pub mod suite;
pub mod timing;

pub use alloc_record::{AllocationRecord, BlockLayout, ReallocPlan, ShimError, FOREIGN_ALIGN};
pub use backend::{answer_host_call, smoke_result_ok, HostFunction, HostReply, Mode};
pub use cell::SendCell;
pub use heap::HeapWatermark;
pub use run_loop::{
    RunFailure, RunLoop, Verdict, LOOPS_COMPILED, LOOPS_HEAP_TRACED, LOOPS_INTERPRETED,
};
pub use scores::{names_match, reference_score, REFERENCE_COUNT};
pub use suite::{Benchmark, Runtime};
pub use timing::{TimingSample, TriggerError, TriggerState};

verus! {

} // verus!
